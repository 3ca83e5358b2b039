# enyay_oj

An online judge: users submit C++ or Python solutions to problems, a judge
compiles and runs them in docker containers against the test cases, and
contests rank their contestants by solved problems and penalty.

## Layout

- `src/` is the library, verified with Verus. It holds the rules of the
  judge and the server:
  - `verdict`, `language`: verdicts and their stored codes, the supported
    languages with their images and compile and run commands;
  - `judge`: docker arguments, run time and peak memory of a test, output
    comparison, the verdict of a run and of a whole test set;
  - `submission`: admission of new submissions and contest score changes,
    with the scoring law over all attempts at a problem;
  - `ranking`: the final ranking of a contest, grouped by user;
  - `api`, `contest`: the checks behind each request and their errors;
  - `storage`: object-store settings, region, keys and statuses;
  - `text`: string facts that the contracts rest on.
- `app/` is the server around it: HTTP handlers (axum), database queries
  (sqlx on MySQL), the docker processes, the object store (rust-s3) and the
  judge worker. It calls the library for every decision.
- `tests/` runs the library on concrete values.
