use vstd::prelude::*;

verus! {

/// Base URL used when the configuration names none.
pub const DEFAULT_BASE_URL: &'static str = "https://rest.na1.netsuite.com";

/// Credentials and endpoint of one NetSuite account.
#[derive(Clone, Debug)]
pub struct NetSuiteConfig {
    pub account_id: String,
    pub consumer_key: String,
    pub consumer_secret: String,
    pub token_id: String,
    pub token_secret: String,
    pub base_url: String,
}

/// The whole configuration of the client program.
#[derive(Clone, Debug)]
pub struct AppConfig {
    pub netsuite: NetSuiteConfig,
}

impl Default for NetSuiteConfig {
    /// Empty credentials against the default base URL.
    fn default() -> (r: Self)
        ensures
            r.account_id@.len() == 0,
            r.consumer_key@.len() == 0,
            r.consumer_secret@.len() == 0,
            r.token_id@.len() == 0,
            r.token_secret@.len() == 0,
            r.base_url@ == DEFAULT_BASE_URL@,
    {
        NetSuiteConfig {
            account_id: String::new(),
            consumer_key: String::new(),
            consumer_secret: String::new(),
            token_id: String::new(),
            token_secret: String::new(),
            base_url: String::from_str(DEFAULT_BASE_URL),
        }
    }
}

} // verus!
