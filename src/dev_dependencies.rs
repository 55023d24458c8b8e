use vstd::prelude::*;

use crate::hashmap_database_client::HashMapDatabaseClient;
use crate::dependencies::Dependencies;
use crate::network_http_client::UreqHttpClient;

verus! {

/// The development bundle: the map store and the ureq client.
pub struct DevDependencies {
    database_client: HashMapDatabaseClient,
    http_client: UreqHttpClient,
}

impl Dependencies for DevDependencies {
    type DatabaseClient = HashMapDatabaseClient;

    type HttpClient = UreqHttpClient;

    closed spec fn database(&self) -> HashMapDatabaseClient {
        self.database_client
    }

    closed spec fn http(&self) -> UreqHttpClient {
        self.http_client
    }

    fn new() -> (r: Self) {
        DevDependencies {
            database_client: HashMapDatabaseClient::new(),
            http_client: UreqHttpClient::new(),
        }
    }

    fn database_client(&mut self) -> (r: &mut HashMapDatabaseClient) {
        &mut self.database_client
    }

    fn http_client(&self) -> (r: &UreqHttpClient) {
        &self.http_client
    }
}

} // verus!
