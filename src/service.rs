use vstd::prelude::*;

use crate::database_client::{DatabaseClient, Key, Value};
use crate::dependencies::Dependencies;
use crate::http_client::{HttpCall, HttpClient, HttpRequest};

verus! {

/// The key the service writes.
pub const SERVICE_KEY: &'static str = "foo";

/// The value the service writes under `SERVICE_KEY`.
pub const SERVICE_VALUE: &'static str = "bar";

/// The locator the service fetches.
pub const SERVICE_URI: &'static str = "https://docs.rs/";

/// The service script, written once against the capabilities of any bundle: it writes one
/// fixed pair to the store, then asks the HTTP client for one fixed locator. What comes back
/// is the call for the driver to run; its response is discarded.
pub fn run_service<D: Dependencies>(dependencies: &mut D) -> (r: HttpCall)
    ensures
        final(dependencies).database().contents() == old(dependencies).database().contents().insert(
            SERVICE_KEY@,
            SERVICE_VALUE@,
        ),
        final(dependencies).http() == old(dependencies).http(),
        r@ == old(dependencies).http().plan(SERVICE_URI@),
{
    dependencies.database_client().put(Key(SERVICE_KEY.to_owned()), Value(SERVICE_VALUE.to_owned()));
    dependencies.http_client().get(HttpRequest::new(SERVICE_URI.to_owned()))
}

} // verus!
