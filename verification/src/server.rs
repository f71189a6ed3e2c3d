//! The settings that the server is put together with: where it listens and
//! the limits that hold for every route.

use vstd::prelude::*;
use vstd::string::*;

verus! {

/// Seconds after which a request is given up and answered with a timeout.
pub const REQUEST_TIMEOUT_SECS: u64 = 10;

/// The largest request body, in bytes, that is let through to a handler.
pub const MAX_REQUEST_BODY_BYTES: usize = 1024;

/// The value of the `Server` header on replies that carry none.
pub const SERVER_HEADER: &'static str = "rust-axum";

/// The port to listen on where the environment names none.
pub const DEFAULT_PORT: &'static str = "3000";

/// The address to listen on, without the port.
pub const LISTEN_HOST: &'static str = "0.0.0.0";

/// The address to listen on for the given `PORT` setting: every interface,
/// at that port, or at [`DEFAULT_PORT`] where it is not set.
pub open spec fn listen_address_of(port: Option<Seq<char>>) -> Seq<char> {
    LISTEN_HOST@ + seq![':'] + match port {
        Some(port) => port,
        None => DEFAULT_PORT@,
    }
}

/// The address to listen on, given the `PORT` setting as the environment has
/// it: `None` where the variable is not set.
pub fn listen_address(port: Option<String>) -> (address: String)
    ensures
        address@ == listen_address_of(
            match port {
                Some(port) => Some(port@),
                None => None,
            },
        ),
{
    let mut address = String::from_str(LISTEN_HOST);
    proof {
        reveal_strlit(":");
        assert(":"@ =~= seq![':']);
    }
    address.append(":");
    match port {
        Some(port) => address.append(port.as_str()),
        None => address.append(DEFAULT_PORT),
    }
    address
}

} // verus!
