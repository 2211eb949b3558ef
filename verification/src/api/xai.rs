//! The client for xAI. The canonical request and response are its wire
//! format; only the address and the headers are its own.

use vstd::prelude::*;
use crate::api::{bearer_headers, bearer_request_headers, header_views, ApiConfig};
use crate::text::concat;

verus! {

/// A client for xAI.
pub struct XaiClient {
    pub config: ApiConfig,
}

impl XaiClient {
    /// A client with the given configuration.
    pub fn new(config: ApiConfig) -> (client: Self)
        ensures
            client.config == config,
    {
        XaiClient { config }
    }

    /// The configuration that the client was made with.
    pub fn config(&self) -> (config: &ApiConfig)
        ensures
            *config == self.config,
    {
        &self.config
    }

    /// The address that completions are asked from.
    pub fn endpoint(&self) -> (url: String)
        ensures
            url@ == self.config.base_url@ + "/chat/completions"@,
    {
        concat(self.config.base_url.as_str(), "/chat/completions")
    }

    /// The headers of a request: the bearer token and the content type.
    pub fn headers(&self) -> (out: Vec<(String, String)>)
        ensures
            header_views(out@) == bearer_headers(self.config.api_key@),
    {
        bearer_request_headers(self.config.api_key.as_str())
    }
}

} // verus!
