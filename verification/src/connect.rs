//! The connection manager's decision core. Configuring the stack and polling
//! it are driver calls; what is verified here is everything decided between
//! them: the client configuration derived from a credential, and the bounded
//! wait that polls status until it is no longer transitional, capped at a
//! fixed budget. The wait never grants more polls than the budget: past it,
//! a still-transitional status is decided as a timeout.

use vstd::prelude::*;

use crate::credential::Credential;
use crate::status::ConnectError;
use crate::status::IpInfo;
use crate::status::WifiStatus;
use crate::status::decode_status;
use crate::status::decode_status_spec;

verus! {

/// The connection-establishment timeout, in milliseconds.
pub const CONNECT_TIMEOUT_MS: u64 = 20_000;

/// The client-mode configuration handed to the network stack: exactly the
/// credential's two fields.
#[derive(Debug, Clone, PartialEq, Eq)]
pub struct ClientConfig {
    pub ssid: Vec<u8>,
    pub password: Vec<u8>,
}

/// Derive the stack configuration from a credential, byte for byte.
pub fn config_for(c: &Credential) -> (cfg: ClientConfig)
    ensures
        cfg.ssid@ == c.ssid@,
        cfg.password@ == c.password@,
{
    ClientConfig { ssid: c.ssid.clone(), password: c.password.clone() }
}

/// What one poll decides: keep waiting, or finish with the connection
/// outcome.
#[derive(Clone, Copy, Debug, PartialEq, Eq)]
pub enum PollStep {
    Continue,
    Finished(Result<IpInfo, ConnectError>),
}

/// The bounded status wait: how many polls were spent against a fixed
/// budget. Each poll stands for one fixed-interval status observation, so
/// the budget is the configured timeout divided by the poll interval.
#[derive(Clone, Copy, Debug, PartialEq, Eq, Structural)]
pub struct ConnectWait {
    pub ticks_used: u32,
    pub max_ticks: u32,
}

/// What one status observation does to the wait: a settled status finishes
/// with its decoding; a transitional one within budget spends a poll; a
/// transitional one at the budget finishes with a timeout.
pub open spec fn step_spec(w: ConnectWait, s: WifiStatus) -> (ConnectWait, PollStep) {
    if !s.is_transitional_spec() {
        (w, PollStep::Finished(decode_status_spec(s)))
    } else if w.ticks_used < w.max_ticks {
        (
            ConnectWait { ticks_used: (w.ticks_used + 1) as u32, max_ticks: w.max_ticks },
            PollStep::Continue,
        )
    } else {
        (w, PollStep::Finished(Err(ConnectError::Timeout)))
    }
}

impl ConnectWait {
    /// The spent polls never exceed the budget.
    pub open spec fn wf(&self) -> bool {
        self.ticks_used <= self.max_ticks
    }

    /// Begin a wait with the given poll budget.
    pub fn new(max_ticks: u32) -> (w: ConnectWait)
        ensures
            w.wf(),
            w.ticks_used == 0,
            w.max_ticks == max_ticks,
    {
        ConnectWait { ticks_used: 0, max_ticks }
    }

    /// Feed in one polled status and take the decision, exactly as
    /// `step_spec` takes it.
    pub fn step(&mut self, status: &WifiStatus) -> (r: PollStep)
        requires
            old(self).wf(),
        ensures
            final(self).wf(),
            (*final(self), r) == step_spec(*old(self), *status),
            !status.is_transitional_spec() ==> r == PollStep::Finished(decode_status_spec(*status)),
            status.is_transitional_spec() && old(self).ticks_used >= old(self).max_ticks ==> r
                == PollStep::Finished(Err::<IpInfo, ConnectError>(ConnectError::Timeout)),
    {
        if !status.is_transitional() {
            return PollStep::Finished(decode_status(status));
        }
        if self.ticks_used < self.max_ticks {
            self.ticks_used = self.ticks_used + 1;
            PollStep::Continue
        } else {
            PollStep::Finished(Err(ConnectError::Timeout))
        }
    }
}

/// The wait driven over a whole sequence of status observations: the
/// decision of the first poll that finishes, or `Continue` if the
/// observations ran out first.
pub open spec fn run_wait(w: ConnectWait, statuses: Seq<WifiStatus>) -> PollStep
    decreases statuses.len(),
{
    if statuses.len() == 0 {
        PollStep::Continue
    } else {
        let stepped = step_spec(w, statuses[0]);
        if stepped.1 is Continue {
            run_wait(stepped.0, statuses.subrange(1, statuses.len() as int))
        } else {
            stepped.1
        }
    }
}

/// At the budget, a poll never continues: a transitional status is decided
/// as a timeout on the spot, and a settled one as its decoding.
pub proof fn lemma_no_step_past_bound(w: ConnectWait, s: WifiStatus)
    requires
        w.ticks_used >= w.max_ticks,
    ensures
        !(step_spec(w, s).1 is Continue),
        s.is_transitional_spec() ==> step_spec(w, s).1 == PollStep::Finished(
            Err::<IpInfo, ConnectError>(ConnectError::Timeout),
        ),
{
}

/// The timeout bound: however the statuses come, the wait finishes within
/// its remaining budget — given more observations than polls left, it never
/// still asks to continue. In particular a status that stays transitional
/// past the budget yields a timeout rather than an unbounded wait.
pub proof fn lemma_wait_bounded(w: ConnectWait, statuses: Seq<WifiStatus>)
    requires
        w.wf(),
        statuses.len() > w.max_ticks - w.ticks_used,
    ensures
        !(run_wait(w, statuses) is Continue),
    decreases statuses.len(),
{
    let stepped = step_spec(w, statuses[0]);
    if stepped.1 is Continue {
        lemma_wait_bounded(stepped.0, statuses.subrange(1, statuses.len() as int));
    }
}

/// If the status remains transitional past the configured budget, the wait
/// finishes with exactly a timeout — no other outcome and no further
/// blocking.
pub proof fn lemma_transitional_past_budget_times_out(w: ConnectWait, statuses: Seq<WifiStatus>)
    requires
        w.wf(),
        statuses.len() > w.max_ticks - w.ticks_used,
        forall|i: int| 0 <= i < statuses.len() ==> statuses[i].is_transitional_spec(),
    ensures
        run_wait(w, statuses) == PollStep::Finished(
            Err::<IpInfo, ConnectError>(ConnectError::Timeout),
        ),
    decreases statuses.len(),
{
    let rest = statuses.subrange(1, statuses.len() as int);
    let stepped = step_spec(w, statuses[0]);
    if stepped.1 is Continue {
        assert forall|i: int| 0 <= i < rest.len() implies rest[i].is_transitional_spec() by {
            assert(rest[i] == statuses[i + 1]);
        }
        lemma_transitional_past_budget_times_out(stepped.0, rest);
    }
}

} // verus!
