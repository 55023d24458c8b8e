use vstd::prelude::*;
use vstd::string::*;

use crate::http_client::{HttpCall, HttpClient, HttpPlan, HttpRequest, HttpResponse};

verus! {

/// The body that the test client answers every request with.
pub const TEST_BODY: &'static str = "test body";

/// The bytes of `TEST_BODY`.
pub open spec fn test_body() -> Seq<u8> {
    TEST_BODY.spec_bytes()
}

/// The HTTP client of test runs: it answers with a fixed body and never touches the network.
pub struct TestHttpClient;

impl TestHttpClient {
    /// The test client.
    pub fn new() -> (r: TestHttpClient) {
        TestHttpClient
    }
}

impl HttpClient for TestHttpClient {
    open spec fn plan(&self, uri: Seq<char>) -> HttpPlan {
        HttpPlan::Answered(test_body())
    }

    fn get(&self, request: HttpRequest) -> (r: HttpCall) {
        HttpCall::Answered(HttpResponse::new(TEST_BODY.as_bytes_vec()))
    }
}

/// Whatever its locator, a GET to the test client is answered with the fixed body.
pub proof fn lemma_fixture_ignores_locator(client: TestHttpClient, a: Seq<char>, b: Seq<char>)
    ensures
        client.plan(a) == client.plan(b),
        client.plan(a) == HttpPlan::Answered(test_body()),
{
}

} // verus!
