use enyay_oj::storage::{
    env_flag_value, expect_status, normalize_key, region_setting, required_env_value, to_region, RegionSetting,
    StorageError,
};

#[test]
fn keys_lose_leading_slashes() {
    assert_eq!(normalize_key("//problems/1/statement.md"), "problems/1/statement.md");
    assert_eq!(normalize_key("problems/a/"), "problems/a/");
    assert_eq!(normalize_key("///"), "");
    assert_eq!(normalize_key(""), "");
    assert_eq!(normalize_key(normalize_key("/a")), "a");
}

#[test]
fn expected_statuses() {
    assert!(expect_status("GET", 200, &[200]).is_ok());
    assert!(expect_status("DELETE", 204, &[200, 202, 204]).is_ok());
    match expect_status("PUT", 403, &[200]) {
        Err(StorageError::UnexpectedStatus { operation, status }) => {
            assert_eq!(operation, "PUT");
            assert_eq!(status, 403);
        }
        other => panic!("unexpected {:?}", other),
    }
    assert!(expect_status("GET", 200, &[]).is_err());
}

#[test]
fn required_settings() {
    assert_eq!(required_env_value("S3_BUCKET", Some("  judge-data \n".to_string())).unwrap(), "judge-data");
    assert!(matches!(
        required_env_value("S3_BUCKET", Some("   ".to_string())),
        Err(StorageError::MissingConfig("S3_BUCKET"))
    ));
    assert!(matches!(required_env_value("S3_BUCKET", None), Err(StorageError::MissingConfig("S3_BUCKET"))));
}

#[test]
fn switch_settings() {
    for on in ["1", "true", "TRUE", "yes", "YES"] {
        assert!(env_flag_value(Some(on)));
    }
    for off in ["0", "True", "y", "", " yes"] {
        assert!(!env_flag_value(Some(off)));
    }
    assert!(!env_flag_value(None));
}

#[test]
fn storage_error_texts() {
    assert_eq!(StorageError::MissingConfig("S3_BUCKET").message(), "missing storage config: S3_BUCKET");
    assert_eq!(StorageError::InvalidRegion("mars-1".to_string()).message(), "invalid S3 region: mars-1");
    assert_eq!(
        StorageError::UnexpectedStatus { operation: "GET", status: 404 }.message(),
        "S3 GET returned unexpected status 404"
    );
    let s3 = StorageError::from(s3::error::S3Error::MaxExpiry(9));
    assert!(s3.message().starts_with("S3 request failed: "));
    assert!(s3.message().len() > "S3 request failed: ".len());
    let creds = StorageError::from(s3::creds::error::CredentialsError::NoCredentials);
    assert_eq!(
        creds.message(),
        "S3 credentials failed: Could not get valid credentials from STS, ENV, Profile or Instance metadata"
    );
}

#[test]
fn region_setting_defaults_and_endpoints() {
    assert_eq!(region_setting(None, None), RegionSetting::Named("us-east-1".to_string()));
    assert_eq!(
        region_setting(Some("eu-west-2".to_string()), None),
        RegionSetting::Named("eu-west-2".to_string())
    );
    assert_eq!(
        region_setting(None, Some("http://minio:9000".to_string())),
        RegionSetting::Custom { region: "us-east-1".to_string(), endpoint: "http://minio:9000".to_string() }
    );
    assert_eq!(
        region_setting(Some("nl-ams".to_string()), Some("https://s3.nl-ams.scw.cloud".to_string())),
        RegionSetting::Custom { region: "nl-ams".to_string(), endpoint: "https://s3.nl-ams.scw.cloud".to_string() }
    );
}

#[test]
fn regions_from_settings() {
    match to_region(&RegionSetting::Named("eu-west-1".to_string())) {
        Ok(region) => assert_eq!(region, s3::Region::EuWest1),
        Err(_) => panic!("a named region is always found"),
    }
    match to_region(&RegionSetting::Named("somewhere".to_string())) {
        Ok(region) => assert_eq!(
            region,
            s3::Region::Custom { region: "somewhere".to_string(), endpoint: "somewhere".to_string() }
        ),
        Err(_) => panic!("an unknown name is a custom region"),
    }
    match to_region(&RegionSetting::Custom { region: "r".to_string(), endpoint: "http://e".to_string() }) {
        Ok(region) => assert_eq!(region, s3::Region::Custom { region: "r".to_string(), endpoint: "http://e".to_string() }),
        Err(_) => panic!("a custom region is always built"),
    }
}

#[test]
fn region_from_setting_keeps_name_and_endpoint_apart() {
    let setting = region_setting(Some("eu-1".to_string()), Some("http://store:9000".to_string()));
    match to_region(&setting) {
        Ok(region) => {
            assert_eq!(region.to_string(), "eu-1");
            assert_eq!(region.endpoint(), "http://store:9000");
        }
        Err(_) => panic!("a custom region is always built"),
    }
}
