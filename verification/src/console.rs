//! Console-attach policy: how one attempt to open the guest's serial
//! channel is acted on.
//!
//! The channel does not exist until the guest firmware opens its side, so
//! a busy report is transient: the open is retried after a fixed short
//! delay, indefinitely. Any other failure is fatal. The executable program
//! performs the opens and sleeps; this module makes every decision.

use vstd::prelude::*;

verus! {

/// Fixed delay between attempts to open the console channel, in
/// milliseconds.
pub const RETRY_DELAY_MS: u64 = 50;

/// The host error code that reports the named channel as busy: it exists
/// but is not yet listening.
pub const CHANNEL_BUSY_CODE: i32 = 231;

/// One attempt to open the console channel, as the host reported it.
#[derive(Debug)]
pub enum AttachAttempt {
    /// The channel opened.
    Opened,
    /// The open failed with this operating-system error code, if one was
    /// attached to the failure.
    NotOpened(Option<i32>),
}

/// What to do after one attempt.
#[derive(Debug)]
pub enum AttachStep {
    /// The channel is open: hand it to the relay.
    Proceed,
    /// The channel is not ready yet: try again after this many
    /// milliseconds.
    RetryAfterMillis(u64),
    /// A non-transient failure: give up with this error code, if any.
    Fail(Option<i32>),
}

/// The attach policy: an open channel proceeds, a busy channel is retried
/// at the fixed cadence, anything else is fatal.
pub open spec fn attach_decision_spec(a: AttachAttempt) -> AttachStep {
    match a {
        AttachAttempt::Opened => AttachStep::Proceed,
        AttachAttempt::NotOpened(code) => if code == Some(CHANNEL_BUSY_CODE) {
            AttachStep::RetryAfterMillis(RETRY_DELAY_MS)
        } else {
            AttachStep::Fail(code)
        },
    }
}

/// Decides what to do after one open attempt.
pub fn attach_decision(a: &AttachAttempt) -> (r: AttachStep)
    ensures
        r == attach_decision_spec(*a),
{
    match a {
        AttachAttempt::Opened => AttachStep::Proceed,
        AttachAttempt::NotOpened(code) => {
            match code {
                Some(c) => {
                    if *c == CHANNEL_BUSY_CODE {
                        AttachStep::RetryAfterMillis(RETRY_DELAY_MS)
                    } else {
                        AttachStep::Fail(Some(*c))
                    }
                },
                None => AttachStep::Fail(None),
            }
        },
    }
}

/// A channel that never becomes available is retried at the fixed cadence
/// and never ends the process: a run of busy attempts, however long,
/// yields only fixed-delay retries — no success and no fatal failure.
pub proof fn lemma_busy_channel_retries_forever(attempts: Seq<AttachAttempt>)
    requires
        forall|i: int|
            0 <= i < attempts.len() ==> #[trigger] attempts[i] == AttachAttempt::NotOpened(
                Some(CHANNEL_BUSY_CODE),
            ),
    ensures
        forall|i: int|
            0 <= i < attempts.len() ==> #[trigger] attach_decision_spec(attempts[i])
                == AttachStep::RetryAfterMillis(RETRY_DELAY_MS),
{
}

} // verus!
