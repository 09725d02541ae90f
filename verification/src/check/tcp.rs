//! The probe that passes while an endpoint accepts connections.

use crate::check::Check;
use crate::duration::Duration;
use vstd::prelude::*;
use vstd::string::*;

verus! {

/// A probe for a TCP endpoint, with the limit for one connection attempt.
#[derive(Debug)]
pub struct TcpCheck {
    addr: String,
    description: String,
    timeout: Duration,
}

/// How one connection attempt ended.
#[derive(Debug)]
pub enum TcpReply {
    /// The connection was made.
    Connected,
    /// The connection failed; holds the cause.
    Failed(String),
    /// The attempt took longer than the probe's limit.
    TimedOut,
}

impl TcpCheck {
    /// The name is `tcp:` followed by the address.
    #[verifier::type_invariant]
    pub closed spec fn wf(&self) -> bool {
        &&& self.description@ == "tcp:"@ + self.addr@
        &&& self.timeout.wf()
    }

    /// The endpoint that is connected to.
    pub closed spec fn address(&self) -> Seq<char> {
        self.addr@
    }

    /// The limit for one connection attempt, in nanoseconds.
    pub closed spec fn limit(&self) -> nat {
        self.timeout@
    }

    /// A probe for the endpoint `addr` that gives each attempt `timeout`.
    pub fn new(addr: String, timeout: Duration) -> (check: TcpCheck)
        ensures
            check.address() == addr@,
            check.limit() == timeout@,
            check.wf(),
    {
        proof {
            use_type_invariant(timeout);
        }
        let description = String::from_str("tcp:").concat(addr.as_str());
        TcpCheck { addr, description, timeout }
    }

    /// The endpoint that is connected to.
    pub fn target(&self) -> (addr: &str)
        ensures
            addr@ == self.address(),
    {
        self.addr.as_str()
    }

    /// The limit for one connection attempt.
    pub fn timeout(&self) -> (limit: Duration)
        ensures
            limit@ == self.limit(),
            limit.wf(),
    {
        proof {
            use_type_invariant(self);
        }
        self.timeout
    }

    /// Judges one connection attempt: the probe passes where the connection
    /// was made, and fails with a reason otherwise.
    pub fn evaluate(&self, reply: &TcpReply) -> (r: Result<(), String>)
        ensures
            *reply is Connected <==> r is Ok,
            r matches Err(reason) ==> reason@ == (match *reply {
                TcpReply::Failed(cause) => "tcp connect to "@ + self.address() + ": "@ + cause@,
                _ => "tcp connect to "@ + self.address() + " timed out"@,
            }),
    {
        match reply {
            TcpReply::Connected => Ok(()),
            TcpReply::Failed(cause) => Err(
                String::from_str("tcp connect to ").concat(self.addr.as_str()).concat(": ").concat(
                    cause.as_str(),
                ),
            ),
            TcpReply::TimedOut => Err(
                String::from_str("tcp connect to ").concat(self.addr.as_str()).concat(
                    " timed out",
                ),
            ),
        }
    }
}

impl Check for TcpCheck {
    open spec fn label(&self) -> Seq<char> {
        "tcp:"@ + self.address()
    }

    fn description(&self) -> (d: &str) {
        proof {
            use_type_invariant(self);
        }
        self.description.as_str()
    }
}

} // verus!
