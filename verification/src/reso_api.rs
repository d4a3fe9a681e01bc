//! Configuration and URL building for the alternative API client surface:
//! a base URL with token, an optional dataset id that the OData paths
//! require, and the plain shape of an OData response envelope.

use vstd::prelude::*;
use crate::text::trim_end_char;
use crate::text::trim_start_char;
use crate::text::trimmed_end;
use crate::text::trimmed_start;

verus! {

/// The full URL for a path: the base URL without its trailing slashes, one
/// slash, then the path without its leading slashes.
pub open spec fn spec_api_url(base_url: Seq<char>, path: Seq<char>) -> Seq<char> {
    trimmed_end(base_url, '/') + "/"@ + trimmed_start(path, '/')
}

/// The OData path for a resource under a dataset.
pub open spec fn spec_odata_path(dataset_id: Seq<char>, resource: Seq<char>) -> Seq<char> {
    "OData/"@ + dataset_id + "/"@ + resource
}

/// RESO Web API client configuration: where to connect, the bearer token,
/// and the dataset id that the OData endpoints require.
#[derive(Debug, Clone)]
pub struct ResoApiConfig {
    /// Base URL for the API.
    pub base_url: String,
    /// Server token for authentication (bearer token).
    pub server_token: String,
    /// Dataset id, as provided by the MLS.
    pub dataset_id: Option<String>,
}

impl ResoApiConfig {
    /// Creates a configuration with no dataset id.
    pub fn new(base_url: String, server_token: String) -> (r: ResoApiConfig)
        ensures
            r.base_url == base_url,
            r.server_token == server_token,
            r.dataset_id is None,
    {
        ResoApiConfig { base_url, server_token, dataset_id: None }
    }

    /// Sets the dataset id, leaving every other field unchanged.
    pub fn with_dataset(self, dataset_id: String) -> (r: ResoApiConfig)
        ensures
            r.base_url == self.base_url,
            r.server_token == self.server_token,
            r.dataset_id == Some(dataset_id),
    {
        ResoApiConfig { base_url: self.base_url, server_token: self.server_token, dataset_id: Some(
            dataset_id,
        ) }
    }

    /// Builds the full URL for a path: single slash between base and path,
    /// whatever slashes either came with.
    pub fn build_url(&self, path: &str) -> (r: String)
        ensures
            r@ == spec_api_url(self.base_url@, path@),
    {
        let mut r = trim_end_char(self.base_url.as_str(), '/');
        r.append("/");
        r.append(trim_start_char(path, '/').as_str());
        r
    }

    /// The authorization header value for this configuration.
    pub fn auth_header(&self) -> (r: String)
        ensures
            r@ == "Bearer "@ + self.server_token@,
    {
        let mut r = "Bearer ".to_owned();
        r.append(self.server_token.as_str());
        r
    }

    /// Builds the OData URL for a resource; without a configured dataset id
    /// there is no such URL, which the caller reports as a configuration
    /// error.
    pub fn build_odata_url(&self, resource: &str) -> (r: Option<String>)
        ensures
            match r {
                Some(u) => self.dataset_id matches Some(d) && u@ == spec_api_url(
                    self.base_url@,
                    spec_odata_path(d@, resource@),
                ),
                None => self.dataset_id is None,
            },
    {
        match &self.dataset_id {
            Some(dataset_id) => {
                let mut path = "OData/".to_owned();
                path.append(dataset_id.as_str());
                path.append("/");
                path.append(resource);
                Some(self.build_url(path.as_str()))
            },
            None => None,
        }
    }
}

/// The OData response envelope: context and count metadata, the next-link
/// URL when the result is paged, and the record array.
#[derive(Debug)]
pub struct ODataResponse<T> {
    /// The metadata context URL of the response.
    pub context: Option<String>,
    /// The total count, when the query asked for one.
    pub count: Option<i64>,
    /// The next-link URL, when the server paged the result.
    pub next_link: Option<String>,
    /// The records of this page.
    pub value: Vec<T>,
}

} // verus!
