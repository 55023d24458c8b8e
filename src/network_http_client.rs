use vstd::prelude::*;

use crate::http_client::{HttpCall, HttpClient, HttpPlan, HttpRequest, Transport};

verus! {

/// The production HTTP client: every request goes out through reqwest.
pub struct ReqwestHttpClient;

/// The staging and development HTTP client: every request goes out through ureq.
pub struct UreqHttpClient;

impl ReqwestHttpClient {
    /// A client that sends through reqwest.
    pub fn new() -> (r: ReqwestHttpClient) {
        ReqwestHttpClient
    }
}

impl UreqHttpClient {
    /// A client that sends through ureq.
    pub fn new() -> (r: UreqHttpClient) {
        UreqHttpClient
    }
}

impl HttpClient for ReqwestHttpClient {
    open spec fn plan(&self, uri: Seq<char>) -> HttpPlan {
        HttpPlan::Send(Transport::Reqwest, uri)
    }

    fn get(&self, request: HttpRequest) -> (r: HttpCall) {
        HttpCall::Send(Transport::Reqwest, request)
    }
}

impl HttpClient for UreqHttpClient {
    open spec fn plan(&self, uri: Seq<char>) -> HttpPlan {
        HttpPlan::Send(Transport::Ureq, uri)
    }

    fn get(&self, request: HttpRequest) -> (r: HttpCall) {
        HttpCall::Send(Transport::Ureq, request)
    }
}

} // verus!
