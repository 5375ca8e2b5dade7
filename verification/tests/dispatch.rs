//! Dispatcher behaviour on concrete parameter names.

use modify_mac_utils::dispatch::{decode_failure, entry_record, Dispatcher};
use modify_mac_utils::records::LogLevel;

fn dispatch_one(key: &str) -> (i32, LogLevel, String) {
    let dispatcher = Dispatcher::new();
    let (result, record) = dispatcher.dispatch(key);
    (result, record.level, record.message)
}

#[test]
fn known_key_art() {
    let (result, level, message) = dispatch_one("ART");
    assert_eq!(result, 0);
    assert_eq!(level, LogLevel::Info);
    assert_eq!(message, "Executing modify_art");
}

#[test]
fn known_key_ro_build_id() {
    let (result, level, message) = dispatch_one("ro.build.id");
    assert_eq!(result, 0);
    assert_eq!(level, LogLevel::Info);
    assert_eq!(message, "Executing modify_ro_build_id");
}

#[test]
fn known_key_runtime_in_chinese() {
    let (result, level, message) = dispatch_one("运行时间");
    assert_eq!(result, 0);
    assert_eq!(level, LogLevel::Info);
    assert_eq!(message, "Executing modify_runtime");
}

#[test]
fn known_key_uname_all() {
    let (result, level, message) = dispatch_one("uname -a");
    assert_eq!(result, 0);
    assert_eq!(level, LogLevel::Info);
    assert_eq!(message, "Executing modify_uname_all");
}

#[test]
fn unknown_key_warns_and_returns_zero() {
    let (result, level, message) = dispatch_one("nonexistent.key");
    assert_eq!(result, 0);
    assert_eq!(level, LogLevel::Warn);
    assert_eq!(message, "Unknown parameter: nonexistent.key");
}

#[test]
fn more_known_keys_route_to_their_handlers() {
    let cases: Vec<(&str, &str)> = vec![
        ("品牌", "Executing modify_brand"),
        ("基带", "Executing modify_baseband"),
        ("内存 已用/全部", "Executing modify_memory_usage"),
        ("Bootloader：", "Executing modify_bootloader"),
        ("Build.VERSION.SDK_INT", "Executing modify_build_version_sdk_int"),
        ("Build.getRadioVersion()", "Executing modify_build_radio_version"),
        ("pm list packages", "Executing modify_package_list"),
        ("pm list packages -3", "Executing modify_third_party_package_list"),
        ("settings get secure android_id", "Executing modify_android_id"),
        ("persist.sys.timezone", "Executing modify_persist_sys_timezone"),
        ("ro.build.stanv.ab", "Executing modify_ro_build_stanv_ab"),
        ("mmp.enable.3g2", "Executing modify_mmp_enable_3g2"),
    ];
    for (key, expected) in cases {
        let (result, level, message) = dispatch_one(key);
        assert_eq!(result, 0, "key {key:?}");
        assert_eq!(level, LogLevel::Info, "key {key:?}");
        assert_eq!(message, expected, "key {key:?}");
    }
}

#[test]
fn duplicate_declarations_later_one_wins() {
    let cases: Vec<(&str, &str)> = vec![
        ("ro.product.system.brand", "Executing modify_ro_product_system_brand"),
        ("ro.product.system.device", "Executing modify_ro_product_system_device"),
        (
            "ro.product.system.manufacturer",
            "Executing modify_ro_product_system_manufacturer",
        ),
        ("ro.product.system.name", "Executing modify_ro_product_system_name"),
        ("ro.build.user", "Executing modify_ro_build_user2"),
        ("ro.build.flavor", "Executing modify_ro_build_flavor2"),
    ];
    for (key, expected) in cases {
        let (result, level, message) = dispatch_one(key);
        assert_eq!(result, 0, "key {key:?}");
        assert_eq!(level, LogLevel::Info, "key {key:?}");
        assert_eq!(message, expected, "key {key:?}");
    }
}

#[test]
fn key_declared_once_in_duplicated_family_still_routes() {
    // Declared only once, amid keys that are declared twice.
    let (result, level, message) = dispatch_one("ro.product.system.model");
    assert_eq!(result, 0);
    assert_eq!(level, LogLevel::Info);
    assert_eq!(message, "Executing modify_system_model");
}

#[test]
fn empty_string_is_a_miss() {
    let (result, level, message) = dispatch_one("");
    assert_eq!(result, 0);
    assert_eq!(level, LogLevel::Warn);
    assert_eq!(message, "Unknown parameter: ");
}

#[test]
fn match_is_exact_no_case_folding_or_trimming() {
    for key in ["art", "Art", " ART", "ART ", "ro.build.id.", "RO.BUILD.ID", "uname  -a"] {
        let (result, level, message) = dispatch_one(key);
        assert_eq!(result, 0, "key {key:?}");
        assert_eq!(level, LogLevel::Warn, "key {key:?}");
        assert_eq!(message, format!("Unknown parameter: {key}"), "key {key:?}");
    }
}

#[test]
fn repeated_dispatch_yields_identical_results_and_one_record_each() {
    let dispatcher = Dispatcher::new();
    let mut outcomes: Vec<(i32, LogLevel, String)> = Vec::new();
    for _ in 0..5 {
        let (result, record) = dispatcher.dispatch("ART");
        outcomes.push((result, record.level, record.message));
    }
    assert_eq!(outcomes.len(), 5);
    for outcome in &outcomes {
        assert_eq!(outcome.0, 0);
        assert_eq!(outcome.1, LogLevel::Info);
        assert_eq!(outcome.2, "Executing modify_art");
    }
}

#[test]
fn every_declared_key_routes_to_a_handler() {
    let dispatcher = Dispatcher::new();
    let keys = dispatcher.recognized_keys();
    assert_eq!(keys.len(), 263);
    for key in &keys {
        let (result, record) = dispatcher.dispatch(key);
        assert_eq!(result, 0, "key {key:?}");
        assert_eq!(record.level, LogLevel::Info, "key {key:?}");
        assert!(record.message.starts_with("Executing modify_"), "key {key:?}");
    }
}

#[test]
fn entry_record_carries_the_decoded_key() {
    let record = entry_record("ro.build.id");
    assert_eq!(record.level, LogLevel::Info);
    assert_eq!(
        record.message,
        "lime Java_com_windcloud_plugin_mac_utils_ModifyMacUtils_modifyParams: param = ro.build.id",
    );
}

#[test]
fn decode_failure_warns_and_returns_zero() {
    let (result, record) = decode_failure();
    assert_eq!(result, 0);
    assert_eq!(record.level, LogLevel::Warn);
    assert_eq!(record.message, "Couldn't get Rust string from Java string");
}
