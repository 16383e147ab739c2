//! The connection test as the shell sees it.

use vstd::prelude::*;

verus! {

/// Connection parameters to test before they are stored.
#[derive(Debug, Clone, PartialEq, Eq)]
pub struct TestConnectionData {
    pub provider: String,
    pub api_url: String,
    pub api_key: String,
    pub model_name: String,
}

/// The verdict of a connection test.
#[derive(Debug, Clone, PartialEq, Eq)]
pub struct TestConnectionResult {
    pub success: bool,
    pub message: String,
}

/// The verdict as the shell gets it.
pub fn connection_result(success: bool, message: String) -> (verdict: TestConnectionResult)
    ensures
        verdict == (TestConnectionResult { success, message }),
{
    TestConnectionResult { success, message }
}

} // verus!
