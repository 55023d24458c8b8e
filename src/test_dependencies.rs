use vstd::prelude::*;

use crate::test_database_client::TestDatabaseClient;
use crate::dependencies::Dependencies;
use crate::test_http_client::TestHttpClient;

verus! {

/// The test bundle: the recording store and the fixed-body HTTP client.
pub struct TestDependencies {
    database_client: TestDatabaseClient,
    http_client: TestHttpClient,
}

impl Dependencies for TestDependencies {
    type DatabaseClient = TestDatabaseClient;

    type HttpClient = TestHttpClient;

    closed spec fn database(&self) -> TestDatabaseClient {
        self.database_client
    }

    closed spec fn http(&self) -> TestHttpClient {
        self.http_client
    }

    fn new() -> (r: Self) {
        TestDependencies {
            database_client: TestDatabaseClient::new(),
            http_client: TestHttpClient::new(),
        }
    }

    fn database_client(&mut self) -> (r: &mut TestDatabaseClient) {
        &mut self.database_client
    }

    fn http_client(&self) -> (r: &TestHttpClient) {
        &self.http_client
    }
}

} // verus!
