//! Core rules of the enyay online judge: verdicts, languages, contest
//! scoring, ranking assembly, judging decisions and request validation.

pub mod text;
pub mod verdict;
pub mod language;
pub mod model;
pub mod ranking;
pub mod submission;
pub mod judge;
pub mod api;
pub mod contest;
pub mod storage;
