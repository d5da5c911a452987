use vstd::prelude::*;

verus! {

/// Every way an echo endpoint can fail. None of them is retried.
#[derive(Clone, Copy, Debug, PartialEq, Eq, Structural)]
pub enum EchoError {
    /// A certificate, key or trust-root file was missing or could not be parsed.
    ConfigLoadError,
    /// The handshake did not complete within `bound` iterations.
    HandshakeTimeout { bound: u32 },
    /// Reading from or writing to the transport failed during the handshake.
    HandshakeIoError,
    /// The TLS engine rejected an incoming record.
    HandshakeProtocolError,
    /// Reading decrypted application data after the handshake failed.
    ApplicationReadError,
}

/// The process exit status for the outcome of an endpoint.
pub open spec fn exit_status_of(res: Result<(), EchoError>) -> i32 {
    match res {
        Ok(()) => 0,
        Err(_) => 1,
    }
}

/// Exit status of the process: 0 on success, 1 on any propagated error.
pub fn exit_status(res: &Result<(), EchoError>) -> (r: i32)
    ensures
        r == exit_status_of(*res),
{
    match res {
        Ok(()) => 0,
        Err(_) => 1,
    }
}

} // verus!
