//! The address under which the stream is reachable.

use vstd::prelude::*;
use vstd::string::*;

verus! {

/// One address of a network interface.
#[derive(Clone, Debug)]
pub struct InterfaceAddress {
    pub loopback: bool,
    pub ip: String,
}

/// Why no endpoint could be named.
#[derive(Clone, Copy, Debug, PartialEq, Eq, Structural)]
pub enum EndpointError {
    /// Every address belongs to a loopback interface, or there is none.
    NoPublicAddress,
}

/// Whether `i` is the position of the first address in `addresses` that is
/// not a loopback address.
pub open spec fn is_first_public(addresses: Seq<InterfaceAddress>, i: int) -> bool {
    &&& 0 <= i < addresses.len()
    &&& !addresses[i].loopback
    &&& forall|j: int| 0 <= j < i ==> (#[trigger] addresses[j]).loopback
}

/// Whether every address in `addresses` is a loopback address.
pub open spec fn all_loopback(addresses: Seq<InterfaceAddress>) -> bool {
    forall|j: int| 0 <= j < addresses.len() ==> (#[trigger] addresses[j]).loopback
}

/// The stream's address on the host `ip`.
pub open spec fn stream_url(ip: Seq<char>) -> Seq<char> {
    "rtsp://"@ + ip + ":8554"@
}

/// The first address that is not a loopback address.
pub fn get_own_ip(addresses: &Vec<InterfaceAddress>) -> (r: Result<String, EndpointError>)
    ensures
        all_loopback(addresses@) <==> r is Err,
        r is Ok ==> exists|i: int| is_first_public(addresses@, i) && r->Ok_0@ == addresses@[i].ip@,
{
    let mut i: usize = 0;
    while i < addresses.len()
        invariant
            i <= addresses@.len(),
            forall|j: int| 0 <= j < i ==> (#[trigger] addresses@[j]).loopback,
        decreases addresses@.len() - i,
    {
        if !addresses[i].loopback {
            assert(is_first_public(addresses@, i as int));
            return Ok(addresses[i].ip.clone());
        }
        i += 1;
    }
    Err(EndpointError::NoPublicAddress)
}

/// The address of the stream on the host `ip`.
pub fn media_url(ip: &str) -> (r: String)
    ensures
        r@ == stream_url(ip@),
{
    let mut out = String::from_str("rtsp://");
    out.append(ip);
    out.append(":8554");
    out
}

} // verus!
