//! The steady-state operational policy. Once connected, the device probes a
//! fixed resource every fixed interval, keeps at most a bounded prefix of
//! the response body for logging, and — whatever one probe's outcome —
//! schedules the next probe after the same interval: one failed probe never
//! terminates the loop.

use vstd::prelude::*;

verus! {

/// The pause between two probes, in milliseconds.
pub const PROBE_INTERVAL_MS: u64 = 10_000;

/// How many body bytes one probe keeps for logging.
pub const PROBE_BODY_CAP: usize = 3048;

/// Why one probe failed.
#[derive(Clone, Copy, Debug, PartialEq, Eq, Structural)]
pub enum ProbeError {
    /// The transport failed, with the foreign status code.
    Network(i32),
    /// The response body could not be read as text.
    Decode,
}

/// What the loop does after one probe: whether to log a failure, and how
/// long to pause before the next probe.
#[derive(Clone, Copy, Debug, PartialEq, Eq, Structural)]
pub struct LoopStep {
    pub log_failure: bool,
    pub next_delay_ms: u64,
}

/// Decide the iteration after one probe: a failure is logged and the next
/// probe still comes after the fixed interval — no outcome ends the loop.
pub fn next_after_probe(outcome: &Result<(), ProbeError>) -> (s: LoopStep)
    ensures
        s.next_delay_ms == PROBE_INTERVAL_MS,
        s.log_failure == (outcome is Err),
{
    let log_failure = match outcome {
        Ok(_) => false,
        Err(_) => true,
    };
    LoopStep { log_failure, next_delay_ms: PROBE_INTERVAL_MS }
}

/// At most the first `cap` bytes of `s`.
pub open spec fn truncated(s: Seq<u8>, cap: nat) -> Seq<u8> {
    if s.len() <= cap {
        s
    } else {
        s.subrange(0, cap as int)
    }
}

/// Keep at most `cap` leading bytes of a probe's body for logging.
pub fn truncate_body(body: &Vec<u8>, cap: usize) -> (r: Vec<u8>)
    ensures
        r@ == truncated(body@, cap as nat),
        r@.len() <= cap,
{
    let keep = if body.len() <= cap {
        body.len()
    } else {
        cap
    };
    let mut r: Vec<u8> = Vec::new();
    let mut i: usize = 0;
    while i < keep
        invariant
            i <= keep,
            keep <= body@.len(),
            keep == (if body@.len() <= cap {
                body@.len() as int
            } else {
                cap as int
            }),
            r@ == body@.subrange(0, i as int),
        decreases keep - i,
    {
        r.push(body[i]);
        proof {
            assert(body@.subrange(0, (i + 1) as int) =~= body@.subrange(0, i as int).push(
                body@[i as int],
            ));
        }
        i = i + 1;
    }
    proof {
        if body@.len() <= cap {
            assert(body@.subrange(0, keep as int) =~= body@);
        }
    }
    r
}

} // verus!
