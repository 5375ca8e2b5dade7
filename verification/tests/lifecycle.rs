//! Load-hook behaviour: version tag and at-most-once sink installation.

use modify_mac_utils::lifecycle::{LoadGuard, HOST_ABI_VERSION};

#[test]
fn version_tag_matches_the_host_abi() {
    assert_eq!(HOST_ABI_VERSION, 0x0001_0006);
}

#[test]
fn load_hook_reports_the_version_every_time() {
    let mut guard = LoadGuard::new();
    for _ in 0..4 {
        let (version, _) = guard.on_load();
        assert_eq!(version, HOST_ABI_VERSION);
    }
}

#[test]
fn repeated_load_installs_the_sink_at_most_once() {
    let mut guard = LoadGuard::new();
    assert!(!guard.installed());
    let mut installs = 0;
    for _ in 0..10 {
        let (_, install_now) = guard.on_load();
        if install_now {
            installs += 1;
        }
        assert!(guard.installed());
    }
    assert_eq!(installs, 1);
}
