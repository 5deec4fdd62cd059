//! Where the service listens, and how it announces itself.

use vstd::prelude::*;
use vstd::string::StringExecFns;

verus! {

/// The address that the service listens on when none is configured: the local
/// host, port 8000.
pub open spec fn default_address() -> Seq<char> {
    "localhost:8000"@
}

/// The address to listen on: the configured one, as it is written, or the
/// default where none is configured.
pub fn listen_address(configured: Option<String>) -> (address: String)
    ensures
        address@ == match configured {
            Some(text) => text@,
            None => default_address(),
        },
{
    match configured {
        Some(text) => text,
        None => String::from_str("localhost:8000"),
    }
}

/// The line that tells where the playground page is served.
pub fn playground_banner(address: &str) -> (line: String)
    ensures
        line@ == "Playground: http://"@ + address@,
{
    String::from_str("Playground: http://").concat(address)
}

} // verus!
