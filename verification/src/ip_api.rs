//! The client of the service that tells a caller its own address.

use vstd::prelude::*;
use vstd::string::StringExecFns;

use crate::error::{ClientError, Failure};
use crate::transport::{Expect, Reply, Request, RequestView};

verus! {

/// The address of the service.
pub open spec fn ip_url() -> Seq<char> {
    "http://httpbin.org/ip"@
}

/// The request for the caller's address. The answer is taken for an
/// origin, whatever its status.
pub fn ip_request() -> (request: Request)
    ensures
        request@ == (RequestView {
            url: ip_url(),
            query: Seq::<(Seq<char>, Seq<char>)>::empty(),
            expects: Expect::Origin,
        }),
{
    let request = Request {
        url: String::from_str("http://httpbin.org/ip"),
        query: Vec::new(),
        expects: Expect::Origin,
    };
    assert(request@.query =~= Seq::<(Seq<char>, Seq<char>)>::empty());
    request
}

/// The caller's address, from the reply to [`ip_request`].
pub fn get_my_ip(reply: Reply) -> (ip: Result<String, ClientError>)
    ensures
        match reply@.origin() {
            Ok(origin) => ip matches Ok(address) && address@ == origin,
            Err(failure) => ip matches Err(error) && error@ == failure,
        },
{
    reply.into_origin()
}

} // verus!
