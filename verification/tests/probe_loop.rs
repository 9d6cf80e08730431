use netcfg::ops::LoopStep;
use netcfg::ops::PROBE_BODY_CAP;
use netcfg::ops::PROBE_INTERVAL_MS;
use netcfg::ops::ProbeError;
use netcfg::ops::next_after_probe;
use netcfg::ops::truncate_body;

#[test]
fn probe_failure_does_not_terminate_the_loop() {
    // A probe against an unreachable host fails once: the decision is to log
    // and probe again after the fixed interval, so the next iteration still
    // runs.
    let outcomes: Vec<Result<(), ProbeError>> =
        vec![Err(ProbeError::Network(-202)), Ok(()), Ok(())];
    let mut probes_performed = 0;
    for outcome in &outcomes {
        probes_performed += 1;
        let step = next_after_probe(outcome);
        assert_eq!(step.next_delay_ms, PROBE_INTERVAL_MS);
    }
    assert_eq!(probes_performed, outcomes.len());
}

#[test]
fn probe_failure_is_logged() {
    assert_eq!(
        next_after_probe(&Err(ProbeError::Network(-202))),
        LoopStep { log_failure: true, next_delay_ms: 10_000 }
    );
    assert_eq!(
        next_after_probe(&Err(ProbeError::Decode)),
        LoopStep { log_failure: true, next_delay_ms: 10_000 }
    );
}

#[test]
fn probe_success_is_not_logged_as_failure() {
    assert_eq!(
        next_after_probe(&Ok(())),
        LoopStep { log_failure: false, next_delay_ms: 10_000 }
    );
}

#[test]
fn short_body_is_kept_whole() {
    let body = b"light rain".to_vec();
    assert_eq!(truncate_body(&body, PROBE_BODY_CAP), body);
}

#[test]
fn long_body_is_truncated_to_the_cap() {
    let body = vec![b'w'; PROBE_BODY_CAP + 100];
    let kept = truncate_body(&body, PROBE_BODY_CAP);
    assert_eq!(kept.len(), PROBE_BODY_CAP);
    assert_eq!(kept, vec![b'w'; PROBE_BODY_CAP]);
}

#[test]
fn body_at_exactly_the_cap_is_unchanged() {
    let mut body = vec![b'x'; PROBE_BODY_CAP];
    body[0] = b'a';
    let kept = truncate_body(&body, PROBE_BODY_CAP);
    assert_eq!(kept, body);
}

#[test]
fn truncation_keeps_a_prefix() {
    let body = b"abcdef".to_vec();
    assert_eq!(truncate_body(&body, 4), b"abcd".to_vec());
    assert_eq!(truncate_body(&body, 0), Vec::<u8>::new());
}
