//! Rules of the object store that holds problem data: configuration
//! values, object keys and the statuses that count as success.
use vstd::prelude::*;
use crate::text::{int_decimal, join2, owned, str_eq, strip_leading, trim, trim_spec, trim_start_char, with_number};

verus! {

/// A failure to obtain object-store credentials, carried through unchanged.
#[verifier::external_type_specification]
#[verifier::external_body]
pub struct ExCredentialsError(s3::creds::error::CredentialsError);

/// A failed object-store request, carried through unchanged.
#[verifier::external_type_specification]
#[verifier::external_body]
pub struct ExS3Error(s3::error::S3Error);

/// Why an object-store operation failed.
#[derive(Debug)]
pub enum StorageError {
    MissingConfig(&'static str),
    InvalidRegion(String),
    Credentials(s3::creds::error::CredentialsError),
    S3(s3::error::S3Error),
    UnexpectedStatus { operation: &'static str, status: u16 },
}

impl From<s3::error::S3Error> for StorageError {
    fn from(error: s3::error::S3Error) -> (r: Self) {
        StorageError::S3(error)
    }
}

impl vstd::std_specs::convert::FromSpecImpl<s3::error::S3Error> for StorageError {
    open spec fn obeys_from_spec() -> bool {
        true
    }

    open spec fn from_spec(v: s3::error::S3Error) -> StorageError {
        StorageError::S3(v)
    }
}

impl From<s3::creds::error::CredentialsError> for StorageError {
    fn from(error: s3::creds::error::CredentialsError) -> (r: Self) {
        StorageError::Credentials(error)
    }
}

impl vstd::std_specs::convert::FromSpecImpl<s3::creds::error::CredentialsError> for StorageError {
    open spec fn obeys_from_spec() -> bool {
        true
    }

    open spec fn from_spec(v: s3::creds::error::CredentialsError) -> StorageError {
        StorageError::Credentials(v)
    }
}

/// The `Display` text of a failed object-store request. What the text says
/// is the outside crate's; nothing of it is stated.
#[verifier::external_body]
fn s3_error_text(error: &s3::error::S3Error) -> String {
    error.to_string()
}

/// The `Display` text of a credentials failure. What the text says is the
/// outside crate's; nothing of it is stated.
#[verifier::external_body]
fn credentials_error_text(error: &s3::creds::error::CredentialsError) -> String {
    error.to_string()
}

impl StorageError {
    /// The text shown for this error: a fixed lead-in per kind, followed by
    /// the missing setting, the region, the status, or the outside error's own text.
    pub fn message(&self) -> (s: String)
        ensures
            match self {
                StorageError::MissingConfig(name) => s@ == "missing storage config: "@ + name@,
                StorageError::InvalidRegion(region) => s@ == "invalid S3 region: "@ + region@,
                StorageError::Credentials(_) => "S3 credentials failed: "@.is_prefix_of(s@),
                StorageError::S3(_) => "S3 request failed: "@.is_prefix_of(s@),
                StorageError::UnexpectedStatus { operation, status } => s@ == "S3 "@ + operation@
                    + " returned unexpected status "@ + int_decimal(*status as int),
            },
    {
        match self {
            StorageError::MissingConfig(name) => join2("missing storage config: ", name),
            StorageError::InvalidRegion(region) => join2("invalid S3 region: ", region.as_str()),
            StorageError::Credentials(error) => {
                let text = credentials_error_text(error);
                join2("S3 credentials failed: ", text.as_str())
            },
            StorageError::S3(error) => {
                let text = s3_error_text(error);
                join2("S3 request failed: ", text.as_str())
            },
            StorageError::UnexpectedStatus { operation, status } => {
                let mut s = join2("S3 ", operation);
                let tail = with_number(" returned unexpected status ", *status as i64, "");
                proof {
                    reveal_strlit("");
                }
                s.append(tail.as_str());
                s
            },
        }
    }
}

/// A required setting: its value without surrounding whitespace, which
/// must be present and non-empty. `value` is what the environment holds
/// under `name`, if it holds valid Unicode there.
pub fn required_env_value(name: &'static str, value: Option<String>) -> (r: Result<String, StorageError>)
    ensures
        match value {
            None => r matches Err(StorageError::MissingConfig(n)) && n == name,
            Some(v) => if trim_spec(v@).len() == 0 {
                r matches Err(StorageError::MissingConfig(n)) && n == name
            } else {
                r matches Ok(t) && t@ == trim_spec(v@)
            },
        },
{
    match value {
        None => Err(StorageError::MissingConfig(name)),
        Some(v) => {
            let t = owned(trim(v.as_str()));
            if t.as_str().is_empty() {
                Err(StorageError::MissingConfig(name))
            } else {
                Ok(t)
            }
        },
    }
}

/// An object-store region handle, carried through unchanged.
#[verifier::external_type_specification]
#[verifier::external_body]
pub struct ExRegion(s3::Region);

/// How the object-store region is chosen: a custom region at an explicit
/// endpoint, or a region known by its name alone.
#[derive(Debug, Clone, PartialEq, Eq)]
pub enum RegionSetting {
    Custom { region: String, endpoint: String },
    Named(String),
}

/// The region name in use: the configured one, or `us-east-1` by default.
pub open spec fn region_name(region: Option<String>) -> Seq<char> {
    match region {
        Some(r) => r@,
        None => "us-east-1"@,
    }
}

/// The region setting for a configured region name and endpoint (each
/// `None` where the environment holds no valid value): with an endpoint, a
/// custom region under the region name at that endpoint; without one, the
/// region of that name. The region name defaults to `us-east-1`.
pub fn region_setting(region: Option<String>, endpoint: Option<String>) -> (r: RegionSetting)
    ensures
        match endpoint {
            Some(e) => r matches RegionSetting::Custom { region: rn, endpoint: en } && rn@
                == region_name(region) && en@ == e@,
            None => r matches RegionSetting::Named(n) && n@ == region_name(region),
        },
{
    let name = match region {
        Some(r) => r,
        None => String::from_str("us-east-1"),
    };
    match endpoint {
        Some(e) => RegionSetting::Custom { region: name, endpoint: e },
        None => RegionSetting::Named(name),
    }
}

/// The region `s3::Region::Custom { region, endpoint }`.
pub uninterp spec fn custom_region_value(region: Seq<char>, endpoint: Seq<char>) -> s3::Region;

/// The region that `<s3::Region as FromStr>::from_str` gives for `name`.
pub uninterp spec fn named_region_value(name: Seq<char>) -> s3::Region;

/// `s3::Region::Custom` with the given name and endpoint: the region is
/// determined by the two strings.
#[verifier::external_body]
fn custom_region(region: String, endpoint: String) -> (r: s3::Region)
    ensures
        r == custom_region_value(region@, endpoint@),
{
    s3::Region::Custom { region, endpoint }
}

/// `<s3::Region as FromStr>::from_str`. Its source maps each known name to
/// that region and every other name to a custom region, so it never fails,
/// and the region is determined by the name.
#[verifier::external_body]
fn named_region(name: &str) -> (r: Option<s3::Region>)
    ensures
        r == Some(named_region_value(name@)),
{
    <s3::Region as core::str::FromStr>::from_str(name).ok()
}

/// The region for a setting: a custom region from the setting's name and
/// endpoint, or the region known by the setting's name. A name that could
/// not be read would be refused as `InvalidRegion`, but every name yields a
/// region, so this always succeeds.
pub fn to_region(s: &RegionSetting) -> (r: Result<s3::Region, StorageError>)
    ensures
        match *s {
            RegionSetting::Custom { region, endpoint } => r == Ok::<s3::Region, StorageError>(
                custom_region_value(region@, endpoint@),
            ),
            RegionSetting::Named(n) => r == Ok::<s3::Region, StorageError>(named_region_value(n@)),
        },
{
    match s {
        RegionSetting::Custom { region, endpoint } => Ok(
            custom_region(region.clone(), endpoint.clone()),
        ),
        RegionSetting::Named(name) => match named_region(name.as_str()) {
            Some(region) => Ok(region),
            None => Err(StorageError::InvalidRegion(name.clone())),
        },
    }
}

/// The spellings of an enabled switch.
pub open spec fn flag_on(s: Seq<char>) -> bool {
    s == "1"@ || s == "true"@ || s == "TRUE"@ || s == "yes"@ || s == "YES"@
}

/// A switch setting: on exactly when present and spelled `1`, `true`,
/// `TRUE`, `yes` or `YES`.
pub fn env_flag_value(value: Option<&str>) -> (r: bool)
    ensures
        r == (value matches Some(v) && flag_on(v@)),
{
    match value {
        Some(v) => str_eq(v, "1") || str_eq(v, "true") || str_eq(v, "TRUE") || str_eq(v, "yes")
            || str_eq(v, "YES"),
        None => false,
    }
}

/// An object key without its leading slashes.
pub fn normalize_key(key: &str) -> (r: &str)
    ensures
        r@ == strip_leading(key@, '/'),
{
    trim_start_char(key, '/')
}

/// Normalizing a key removes exactly its leading slashes: the result is a
/// suffix of the key that does not start with `'/'`, everything removed is
/// `'/'`, and normalizing again changes nothing.
pub proof fn lemma_normalize_key(key: Seq<char>)
    ensures
        strip_leading(key, '/').len() <= key.len(),
        strip_leading(key, '/') == key.skip(key.len() - strip_leading(key, '/').len()),
        forall|i: int| 0 <= i < key.len() - strip_leading(key, '/').len() ==> key[i] == '/',
        strip_leading(key, '/').len() > 0 ==> strip_leading(key, '/')[0] != '/',
        strip_leading(strip_leading(key, '/'), '/') == strip_leading(key, '/'),
    decreases key.len(),
{
    if key.len() > 0 && key[0] == '/' {
        lemma_normalize_key(key.drop_first());
        let rest = key.drop_first();
        let r = strip_leading(rest, '/');
        assert(rest.skip(rest.len() - r.len()) =~= key.skip(key.len() - r.len()));
        assert forall|i: int| 0 <= i < key.len() - r.len() implies key[i] == '/' by {
            if i > 0 {
                assert(key[i] == rest[i - 1]);
            }
        }
    } else {
        assert(key.skip(0) =~= key);
    }
}

/// Whether `status` answers `operation` successfully: it must be one of
/// `expected`; any other status is reported with the operation.
pub fn expect_status(operation: &'static str, status: u16, expected: &[u16]) -> (r: Result<
    (),
    StorageError,
>)
    ensures
        expected@.contains(status) ==> r is Ok,
        !expected@.contains(status) ==> (r matches Err(
            StorageError::UnexpectedStatus { operation: op, status: st },
        ) && op == operation && st == status),
{
    let n = expected.len();
    let mut i: usize = 0;
    while i < n
        invariant
            n == expected@.len(),
            i <= n,
            forall|k: int| 0 <= k < i ==> expected@[k] != status,
        decreases n - i,
    {
        if expected[i] == status {
            return Ok(());
        }
        i = i + 1;
    }
    Err(StorageError::UnexpectedStatus { operation, status })
}

} // verus!
