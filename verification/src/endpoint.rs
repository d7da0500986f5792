//! The request urls a client of the service sends to: the create and
//! resolve endpoints on a configured host and port, over plain or secure
//! transport.

use vstd::prelude::*;
use vstd::string::*;

verus! {

/// The text of an endpoint url: scheme, host, `:`, port and action path, in
/// that order.
pub open spec fn endpoint_text(
    host: Seq<char>,
    port: Seq<char>,
    https: bool,
    action: Seq<char>,
) -> Seq<char> {
    (if https {
        "https://"@
    } else {
        "http://"@
    }) + host + ":"@ + port + action
}

fn endpoint(host: &str, port: &str, https: bool, action: &str) -> (r: String)
    ensures
        r@ == endpoint_text(host@, port@, https, action@),
{
    let mut s = if https {
        String::from_str("https://")
    } else {
        String::from_str("http://")
    };
    s.append(host);
    s.append(":");
    s.append(port);
    s.append(action);
    s
}

/// The url of the endpoint that creates a mapping on `host:port`.
pub fn short_endpoint(host: &str, port: &str, https: bool) -> (r: String)
    ensures
        r@ == endpoint_text(host@, port@, https, "/short"@),
{
    endpoint(host, port, https, "/short")
}

/// The url of the endpoint that resolves an identifier on `host:port`.
pub fn expand_endpoint(host: &str, port: &str, https: bool) -> (r: String)
    ensures
        r@ == endpoint_text(host@, port@, https, "/expand"@),
{
    endpoint(host, port, https, "/expand")
}

} // verus!
