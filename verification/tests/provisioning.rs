use netcfg::provision::AcquireStep;
use netcfg::provision::LoadStep;
use netcfg::provision::PROVISION_BACKOFF_MS;
use netcfg::provision::ProvisioningError;
use netcfg::provision::ProvisioningFlow;
use netcfg::store::clear_marker;
use netcfg::store::encode_credential;
use netcfg::store::load_from;

#[test]
fn scenario_fresh_device_provisions_and_persists() {
    // First boot: nothing stored, so the flow asks for the channel, receives
    // a pair, and the record is persisted.
    let mut stored = clear_marker();
    let mut flow = ProvisioningFlow::new();
    let step = flow.on_load(load_from(Ok(stored.clone())));
    assert_eq!(step, LoadStep::OpenChannel);
    let step = flow.on_acquired(Ok((b"MyNet".to_vec(), b"Secret123".to_vec())));
    assert_eq!(step, AcquireStep::Persist);
    stored = encode_credential(flow.credential());

    // A simulated next boot loads that identical record.
    let mut next_boot = ProvisioningFlow::new();
    let step = next_boot.on_load(load_from(Ok(stored)));
    assert_eq!(step, LoadStep::Proceed);
    assert!(next_boot.is_provisioned());
    assert_eq!(next_boot.credential().ssid(), &b"MyNet".to_vec());
    assert_eq!(next_boot.credential().password(), &b"Secret123".to_vec());
    assert_eq!(next_boot.credential(), flow.credential());
}

#[test]
fn channel_timeout_answers_with_delayed_restart() {
    let mut flow = ProvisioningFlow::new();
    flow.on_load(load_from(Ok(clear_marker())));
    let step = flow.on_acquired(Err(ProvisioningError::Timeout));
    assert_eq!(step, AcquireStep::RestartAfterBackoff { backoff_ms: PROVISION_BACKOFF_MS });
    assert_eq!(PROVISION_BACKOFF_MS, 1_000);
    assert!(!flow.is_provisioned());
}

#[test]
fn channel_transport_fault_answers_with_delayed_restart() {
    let mut flow = ProvisioningFlow::new();
    flow.on_load(load_from(Ok(clear_marker())));
    let step = flow.on_acquired(Err(ProvisioningError::Transport(-3)));
    assert_eq!(step, AcquireStep::RestartAfterBackoff { backoff_ms: PROVISION_BACKOFF_MS });
}

#[test]
fn over_limit_acquisition_answers_with_delayed_restart() {
    let mut flow = ProvisioningFlow::new();
    flow.on_load(load_from(Ok(clear_marker())));
    let step = flow.on_acquired(Ok((vec![b's'; 33], b"pw".to_vec())));
    assert_eq!(step, AcquireStep::RestartAfterBackoff { backoff_ms: PROVISION_BACKOFF_MS });
    assert!(!flow.is_provisioned());
}

#[test]
fn stored_credential_skips_the_channel() {
    let c = netcfg::credential::Credential::new(b"home".to_vec(), b"hunter2".to_vec()).unwrap();
    let stored = encode_credential(&c);
    let mut flow = ProvisioningFlow::new();
    let step = flow.on_load(load_from(Ok(stored)));
    assert_eq!(step, LoadStep::Proceed);
    assert_eq!(flow.credential(), &c);
}
