//! Runtime configuration values and the derived warehouse endpoints.
//! Loading the values from the environment happens outside the library;
//! the derivations on them are verified here.

use vstd::prelude::*;
use crate::text::{spec_after_last, suffix_after_last};

verus! {

/// Connection settings for the data provider and the SQL warehouse.
#[derive(Debug)]
pub struct Config {
    pub frost_client_id: String,
    pub databricks_hostname: String,
    pub databricks_http_path: String,
    pub databricks_catalog: String,
    pub databricks_access_token: String,
}

impl Config {
    /// The SQL statement endpoint on the configured hostname.
    pub fn databricks_sql_url(&self) -> (r: String)
        ensures
            r@ == "https://"@ + self.databricks_hostname@ + "/api/2.0/sql/statements"@,
    {
        let mut s = String::from_str("https://");
        s.append(self.databricks_hostname.as_str());
        s.append("/api/2.0/sql/statements");
        s
    }

    /// The warehouse id: the last segment of the HTTP path, or the whole
    /// path when it holds no slash.
    pub fn warehouse_id(&self) -> (r: &str)
        ensures
            r@ == spec_after_last(self.databricks_http_path@, '/'),
    {
        suffix_after_last(self.databricks_http_path.as_str(), '/')
    }
}

} // verus!
