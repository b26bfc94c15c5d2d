//! The address of a server on the internet.

use crate::text;
use vstd::prelude::*;
use vstd::string::*;

verus! {

/// Whether an address names one of the two WebSocket schemes.
pub open spec fn names_ws_scheme(url: Seq<char>) -> bool {
    text::stands_at(url, "ws://"@, 0) || text::stands_at(url, "wss://"@, 0)
}

/// The URL that is dialed for an address. A WebSocket scheme is never
/// overridden; an address without one is completed from the build: encrypted
/// where that is supported, plain where it is not.
pub open spec fn outer_url(url: Seq<char>, rustls: bool) -> Seq<char> {
    if names_ws_scheme(url) {
        url
    } else if rustls {
        "wss://"@ + url
    } else {
        "ws://"@ + url
    }
}

/// The URL that is dialed for an address; `rustls` says whether encrypted
/// connections are supported.
pub fn outer_ws_url(url: &str, rustls: bool) -> (dialed: String)
    ensures
        dialed@ == outer_url(url@, rustls),
{
    if text::begins_with(url, "ws://") || text::begins_with(url, "wss://") {
        url.to_owned()
    } else if rustls {
        "wss://".to_owned().concat(url)
    } else {
        "ws://".to_owned().concat(url)
    }
}

/// What is dialed names its scheme, and dialing it again changes nothing, in
/// whatever build.
pub proof fn lemma_outer_url_is_stable(url: Seq<char>, rustls: bool, other_build: bool)
    ensures
        names_ws_scheme(outer_url(url, rustls)),
        outer_url(outer_url(url, rustls), other_build) == outer_url(url, rustls),
{
    if !names_ws_scheme(url) {
        reveal_strlit("ws://");
        reveal_strlit("wss://");
        let plain = "ws://"@ + url;
        let secure = "wss://"@ + url;
        assert(plain.subrange(0, 5) =~= "ws://"@);
        assert(secure.subrange(0, 6) =~= "wss://"@);
    }
}

} // verus!
