//! The provisioning lifecycle: unprovisioned at boot, provisioning while an
//! external credential-acquisition channel is open, provisioned once a
//! credential is in hand. A successful load goes straight to provisioned; a
//! failed load opens the channel; what the channel hands back is validated
//! here, persisted on success, and answered with a delayed-restart decision
//! on failure — recovery is delegated to the next boot, never retried in
//! place.

use vstd::prelude::*;

use crate::credential::Credential;
use crate::credential::valid_password;
use crate::credential::valid_ssid;
use crate::store::LoadError;

verus! {

/// How long to wait before the restart that answers a failed acquisition,
/// in milliseconds.
pub const PROVISION_BACKOFF_MS: u64 = 1_000;

/// Why the acquisition channel produced no credential pair.
#[derive(Clone, Copy, Debug, PartialEq, Eq, Structural)]
pub enum ProvisioningError {
    /// The channel itself failed, with the foreign status code.
    Transport(i32),
    /// The channel's own wait expired.
    Timeout,
}

/// Where the lifecycle stands.
#[derive(Debug)]
pub enum ProvState {
    Unprovisioned,
    Provisioning,
    Provisioned(Credential),
}

/// What the driver must do after the boot-time load is fed in.
#[derive(Clone, Copy, Debug, PartialEq, Eq, Structural)]
pub enum LoadStep {
    /// A credential is in hand: go connect.
    Proceed,
    /// No usable credential: open the acquisition channel and block on it.
    OpenChannel,
}

/// What the driver must do after the channel's outcome is fed in.
#[derive(Clone, Copy, Debug, PartialEq, Eq, Structural)]
pub enum AcquireStep {
    /// A valid pair arrived: persist the flow's credential, then go connect.
    Persist,
    /// Acquisition failed: wait out the backoff, then restart the device.
    RestartAfterBackoff { backoff_ms: u64 },
}

/// The provisioning state machine.
#[derive(Debug)]
pub struct ProvisioningFlow {
    pub state: ProvState,
}

impl ProvisioningFlow {
    /// A boot starts unprovisioned.
    pub fn new() -> (f: ProvisioningFlow)
        ensures
            f.state is Unprovisioned,
    {
        ProvisioningFlow { state: ProvState::Unprovisioned }
    }

    /// Feed in the boot-time load's outcome. A loaded credential moves the
    /// flow straight to provisioned with exactly that record; any load
    /// failure — absent key, storage fault, malformed record — moves it to
    /// provisioning and asks for the channel.
    pub fn on_load(&mut self, loaded: Result<Credential, LoadError>) -> (a: LoadStep)
        requires
            old(self).state is Unprovisioned,
            loaded matches Ok(c) ==> c.wf(),
        ensures
            loaded matches Ok(c) ==> ((a == LoadStep::Proceed)
                && (final(self).state matches ProvState::Provisioned(c2) && c2.ssid@ == c.ssid@ && c2.password@
                == c.password@ && c2.wf())),
            loaded is Err ==> (a == LoadStep::OpenChannel && final(self).state is Provisioning),
    {
        match loaded {
            Ok(c) => {
                self.state = ProvState::Provisioned(c);
                LoadStep::Proceed
            },
            Err(_) => {
                self.state = ProvState::Provisioning;
                LoadStep::OpenChannel
            },
        }
    }

    /// Feed in the acquisition channel's outcome. A pair within the field
    /// caps and free of NUL becomes the flow's credential and must be
    /// persisted; an over-limit or NUL-carrying pair, like a channel
    /// failure, is answered with the delayed restart and leaves the flow
    /// still provisioning.
    pub fn on_acquired(
        &mut self,
        acquired: Result<(Vec<u8>, Vec<u8>), ProvisioningError>,
    ) -> (a: AcquireStep)
        requires
            old(self).state is Provisioning,
        ensures
            acquired is Ok && valid_ssid(acquired->Ok_0.0@) && valid_password(acquired->Ok_0.1@)
                ==> ((a == AcquireStep::Persist) && (
            final(self).state matches ProvState::Provisioned(c) && c.ssid@ == acquired->Ok_0.0@
                && c.password@ == acquired->Ok_0.1@ && c.wf())),
            acquired is Ok && !(valid_ssid(acquired->Ok_0.0@) && valid_password(acquired->Ok_0.1@))
                ==> (a == (AcquireStep::RestartAfterBackoff { backoff_ms: PROVISION_BACKOFF_MS })
                && final(self).state is Provisioning),
            acquired is Err ==> (a == (AcquireStep::RestartAfterBackoff {
                backoff_ms: PROVISION_BACKOFF_MS,
            }) && final(self).state is Provisioning),
    {
        match acquired {
            Ok((ssid, password)) => match Credential::new(ssid, password) {
                Ok(c) => {
                    self.state = ProvState::Provisioned(c);
                    AcquireStep::Persist
                },
                Err(_) => AcquireStep::RestartAfterBackoff { backoff_ms: PROVISION_BACKOFF_MS },
            },
            Err(_) => AcquireStep::RestartAfterBackoff { backoff_ms: PROVISION_BACKOFF_MS },
        }
    }

    /// Whether a credential is in hand.
    pub fn is_provisioned(&self) -> (r: bool)
        ensures
            r == (self.state is Provisioned),
    {
        match self.state {
            ProvState::Provisioned(_) => true,
            _ => false,
        }
    }

    /// The credential of a provisioned flow, held read-only for the process
    /// lifetime.
    pub fn credential(&self) -> (c: &Credential)
        requires
            self.state is Provisioned,
        ensures
            c == self.state->0,
    {
        match &self.state {
            ProvState::Provisioned(c) => c,
            _ => unreached(),
        }
    }
}

} // verus!
