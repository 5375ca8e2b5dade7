//! Signature-probe behaviour against a mocked host bridge.

use modify_mac_utils::probe::{
    probe_entry_record, BridgeCall, BridgeRequest, HostEvent, Probe, ProbeHandle, ProbeState,
    GET_SIGNATURES, NO_SIGNATURE,
};
use modify_mac_utils::records::LogLevel;

/// The answer a fully cooperative host gives to the request issued in the
/// given undecided state, with `count` signatures and hash `hash`.
fn cooperative_answer(state: ProbeState, count: i32, hash: i32) -> HostEvent {
    match state {
        ProbeState::AtSignatureCount => HostEvent::Count(count),
        ProbeState::AtSignatureHash => HostEvent::Int(hash),
        ProbeState::Done(_) => panic!("a decided probe asks for nothing"),
        _ => HostEvent::Object { null: false },
    }
}

/// Drive a probe to completion, answering each request cooperatively.
fn run_probe(count: i32, hash: i32) -> i32 {
    let mut probe = Probe::new();
    while probe.next_request().is_some() {
        let event = cooperative_answer(probe.state(), count, hash);
        probe.step(event);
    }
    probe.result().expect("the probe stopped asking, so it is decided")
}

#[test]
fn successful_walk_returns_the_hash() {
    assert_eq!(run_probe(1, 0x1234_5678), 0x1234_5678);
    assert_eq!(run_probe(3, -77), -77);
}

#[test]
fn empty_signature_array_returns_sentinel() {
    // A mock host whose package info holds a signatures array of length 0.
    assert_eq!(run_probe(0, 0x1234_5678), NO_SIGNATURE);
}

#[test]
fn null_first_signature_returns_sentinel() {
    let mut probe = Probe::new();
    for _ in 0..4 {
        probe.step(HostEvent::Object { null: false });
    }
    probe.step(HostEvent::Count(2));
    probe.step(HostEvent::Object { null: true });
    assert_eq!(probe.result(), Some(NO_SIGNATURE));
    assert!(probe.next_request().is_none());
}

#[test]
fn host_failure_at_every_hop_returns_sentinel() {
    // Let the host raise an exception at each hop of the walk in turn.
    for failing_hop in 0..7 {
        let mut probe = Probe::new();
        for _ in 0..failing_hop {
            let event = cooperative_answer(probe.state(), 2, 42);
            probe.step(event);
        }
        assert!(probe.next_request().is_some(), "hop {failing_hop} is undecided");
        probe.step(HostEvent::Failed);
        assert_eq!(probe.result(), Some(NO_SIGNATURE), "hop {failing_hop}");
        assert!(probe.next_request().is_none(), "hop {failing_hop}");
    }
}

#[test]
fn answer_of_the_wrong_shape_counts_as_failure() {
    let mut probe = Probe::new();
    probe.step(HostEvent::Int(9));
    assert_eq!(probe.result(), Some(NO_SIGNATURE));
}

#[test]
fn decided_probe_ignores_later_events() {
    let mut probe = Probe::new();
    probe.step(HostEvent::Failed);
    assert_eq!(probe.result(), Some(NO_SIGNATURE));
    probe.step(HostEvent::Int(5));
    probe.step(HostEvent::Object { null: false });
    assert_eq!(probe.result(), Some(NO_SIGNATURE));
}

fn request_summary(request: &BridgeRequest) -> (BridgeCall, ProbeHandle, &str, &str) {
    (request.kind, request.receiver, request.member, request.descriptor)
}

#[test]
fn walk_issues_the_documented_requests_in_order() {
    let mut probe = Probe::new();
    let mut seen: Vec<BridgeRequest> = Vec::new();
    while let Some(request) = probe.next_request() {
        seen.push(request);
        let event = cooperative_answer(probe.state(), 1, 7);
        probe.step(event);
    }
    assert_eq!(probe.result(), Some(7));
    assert_eq!(seen.len(), 7);

    assert_eq!(
        request_summary(&seen[0]),
        (
            BridgeCall::ObjectMethod,
            ProbeHandle::Context,
            "getPackageManager",
            "()Landroid/content/pm/PackageManager;",
        ),
    );
    assert_eq!(
        request_summary(&seen[1]),
        (
            BridgeCall::ObjectMethod,
            ProbeHandle::Context,
            "getPackageName",
            "()Ljava/lang/String;",
        ),
    );
    assert_eq!(
        request_summary(&seen[2]),
        (
            BridgeCall::ObjectMethod,
            ProbeHandle::PackageManager,
            "getPackageInfo",
            "(Ljava/lang/String;I)Landroid/content/pm/PackageInfo;",
        ),
    );
    assert_eq!(seen[2].object_arg, Some(ProbeHandle::PackageName));
    assert_eq!(seen[2].int_arg, Some(GET_SIGNATURES));
    assert_eq!(GET_SIGNATURES, 64);
    assert_eq!(
        request_summary(&seen[3]),
        (
            BridgeCall::ObjectField,
            ProbeHandle::PackageInfo,
            "signatures",
            "[Landroid/content/pm/Signature;",
        ),
    );
    assert_eq!(
        request_summary(&seen[4]),
        (BridgeCall::ArrayLength, ProbeHandle::Signatures, "", ""),
    );
    assert_eq!(
        request_summary(&seen[5]),
        (BridgeCall::ArrayElement, ProbeHandle::Signatures, "", ""),
    );
    assert_eq!(seen[5].int_arg, Some(0));
    assert_eq!(
        request_summary(&seen[6]),
        (BridgeCall::IntMethod, ProbeHandle::FirstSignature, "hashCode", "()I"),
    );
}

#[test]
fn probe_entry_record_names_the_entry_point() {
    let record = probe_entry_record();
    assert_eq!(record.level, LogLevel::Info);
    assert_eq!(
        record.message,
        "Java_com_windcloud_plugin_mac_utils_ModifyMacUtils_getAppSignature",
    );
}
