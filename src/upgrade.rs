//! Entering the drive's in-application-programming mode before a firmware
//! transfer: the word `update` is sent until a reply shows the YMODEM `C`
//! in its fourth byte, for a bounded number of attempts.

use vstd::prelude::*;
use crate::ymodem::CRC;

verus! {

/// Attempts after which the handshake is given up.
pub const MAX_HANDSHAKE_ATTEMPTS: u32 = 200;

/// The handshake word, `update` in ASCII.
pub open spec fn handshake_word() -> Seq<u8> {
    seq![0x75u8, 0x70u8, 0x64u8, 0x61u8, 0x74u8, 0x65u8]
}

/// The bytes to send on each attempt.
pub fn handshake_command() -> (r: Vec<u8>)
    ensures
        r@ == handshake_word(),
{
    let mut r: Vec<u8> = Vec::new();
    r.push(0x75u8);
    r.push(0x70u8);
    r.push(0x64u8);
    r.push(0x61u8);
    r.push(0x74u8);
    r.push(0x65u8);
    assert(r@ =~= handshake_word());
    r
}

/// Whether a reply shows that the drive waits for a YMODEM transfer.
pub open spec fn shows_iap(reply: Option<Seq<u8>>) -> bool {
    match reply {
        Some(c) => c.len() > 3 && c[3] == CRC,
        None => false,
    }
}

/// Where the handshake stands after a reply.
#[derive(Clone, Copy, Debug, PartialEq, Eq, Structural)]
pub enum HandshakeStep {
    /// Send the word again.
    Retry,
    /// The drive is in programming mode.
    Entered,
    /// The attempts are used up.
    GaveUp,
}

/// The attempts made so far at entering programming mode.
#[derive(Clone, Copy, Debug, PartialEq, Eq, Structural)]
pub struct IapHandshake {
    pub attempts: u32,
}

impl IapHandshake {
    /// A handshake with no attempt made.
    pub fn new() -> (r: Self)
        ensures
            r.attempts == 0,
    {
        IapHandshake { attempts: 0 }
    }

    /// Takes the reply to one attempt (`None` when nothing came in time).
    pub fn on_reply(&mut self, reply: &Option<Vec<u8>>) -> (r: HandshakeStep)
        requires
            old(self).attempts < MAX_HANDSHAKE_ATTEMPTS,
        ensures
            ({
                let rv = match reply {
                    Some(c) => Some(c@),
                    None => None,
                };
                if shows_iap(rv) {
                    r == HandshakeStep::Entered && final(self).attempts == old(self).attempts
                } else {
                    &&& final(self).attempts == old(self).attempts + 1
                    &&& r == if final(self).attempts >= MAX_HANDSHAKE_ATTEMPTS {
                        HandshakeStep::GaveUp
                    } else {
                        HandshakeStep::Retry
                    }
                }
            }),
    {
        let entered = match reply {
            Some(c) => c.len() > 3 && c[3] == CRC,
            None => false,
        };
        if entered {
            return HandshakeStep::Entered;
        }
        self.attempts = self.attempts + 1;
        if self.attempts >= MAX_HANDSHAKE_ATTEMPTS {
            HandshakeStep::GaveUp
        } else {
            HandshakeStep::Retry
        }
    }
}

/// Whether to go on with the transfer after the handshake: always once the
/// drive entered programming mode, and after giving up only when the caller
/// chose to try anyway.
pub fn should_transfer(step: HandshakeStep, proceed_after_timeout: bool) -> (r: bool)
    ensures
        r == (step == HandshakeStep::Entered || (step == HandshakeStep::GaveUp
            && proceed_after_timeout)),
{
    match step {
        HandshakeStep::Entered => true,
        HandshakeStep::GaveUp => proceed_after_timeout,
        HandshakeStep::Retry => false,
    }
}

} // verus!
