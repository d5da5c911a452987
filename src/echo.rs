//! The fixed network identity and the one message of the echo exchange.
use vstd::prelude::*;

verus! {

/// Address the server listens on and the client connects to.
pub const BIND: &'static str = "localhost:9999";

/// Name the client expects the server's certificate to carry.
pub const SERVER_NAME: &'static str = "localhost";

/// The bytes of the single application message, `I AM A TLS PACKET`.
pub open spec fn payload_bytes() -> Seq<u8> {
    seq![73u8, 32, 65, 77, 32, 65, 32, 84, 76, 83, 32, 80, 65, 67, 75, 69, 84]
}

/// The message the client sends, as application data, once the session is
/// established.
pub fn payload() -> (r: Vec<u8>)
    ensures
        r@ == payload_bytes(),
{
    let r: Vec<u8> = vec![73u8, 32, 65, 77, 32, 65, 32, 84, 76, 83, 32, 80, 65, 67, 75, 69, 84];
    assert(r@ =~= payload_bytes());
    r
}

/// Whether the server received exactly the client's message.
pub fn is_payload(received: &[u8]) -> (r: bool)
    ensures
        r == (received@ == payload_bytes()),
{
    let expected = payload();
    if received.len() != expected.len() {
        return false;
    }
    let mut i: usize = 0;
    while i < received.len()
        invariant
            received@.len() == expected@.len(),
            expected@ == payload_bytes(),
            i <= received@.len(),
            forall|j: int| 0 <= j < i ==> received@[j] == expected@[j],
        decreases received@.len() - i,
    {
        if received[i] != expected[i] {
            return false;
        }
        i = i + 1;
    }
    assert(received@ =~= payload_bytes());
    true
}

} // verus!
