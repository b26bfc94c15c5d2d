//! The names under which the library keeps its own settings.

use vstd::prelude::*;

verus! {

pub const SERVER_CONNECT_INFO: &'static str = "ServerConnectInfo";

pub const VALID_CLIENT: &'static str = "ValidClient";

pub const CLIENT_ID: &'static str = "ClientId";

} // verus!
