use vstd::prelude::*;

use crate::btreemap_database_client::BTreeMapDatabaseClient;
use crate::dependencies::Dependencies;
use crate::network_http_client::ReqwestHttpClient;

verus! {

/// The production bundle: the map store and the reqwest client.
pub struct ProdDependencies {
    database_client: BTreeMapDatabaseClient,
    http_client: ReqwestHttpClient,
}

impl Dependencies for ProdDependencies {
    type DatabaseClient = BTreeMapDatabaseClient;

    type HttpClient = ReqwestHttpClient;

    closed spec fn database(&self) -> BTreeMapDatabaseClient {
        self.database_client
    }

    closed spec fn http(&self) -> ReqwestHttpClient {
        self.http_client
    }

    fn new() -> (r: Self) {
        ProdDependencies {
            database_client: BTreeMapDatabaseClient::new(),
            http_client: ReqwestHttpClient::new(),
        }
    }

    fn database_client(&mut self) -> (r: &mut BTreeMapDatabaseClient) {
        &mut self.database_client
    }

    fn http_client(&self) -> (r: &ReqwestHttpClient) {
        &self.http_client
    }
}

} // verus!
