//! The handler registry: the fixed collection of per-parameter handlers,
//! represented as data.  A handler identifier is an index into this registry.
//! In this revision every handler is a stub: invoking it produces one
//! informational record naming the handler and returns zero.

use crate::records::{LogLevel, LogRecord};
use vstd::prelude::*;
use vstd::string::StringExecFns;

verus! {

/// Number of handler slots in the registry.
pub const HANDLER_COUNT: usize = 263;

/// The names of all handler slots, in registry order.  A handler identifier
/// is an index into this sequence.
pub open spec fn handler_names() -> Seq<Seq<char>> {
    Seq::empty()
        .push("modify_runtime"@)
        .push("modify_brand"@)
        .push("modify_model"@)
        .push("modify_hardware"@)
        .push("modify_board"@)
        .push("modify_display"@)
        .push("modify_baseband"@)
        .push("modify_serial_number"@)
        .push("modify_main_screen_size"@)
        .push("modify_main_screen_resolution"@)
        .push("modify_gps_location_info"@)
        .push("modify_memory_usage"@)
        .push("modify_storage_usage"@)
        .push("modify_sdk_int"@)
        .push("modify_release"@)
        .push("modify_version_code"@)
        .push("modify_bootloader"@)
        .push("modify_art"@)
        .push("modify_kernel_version"@)
        .push("modify_system_brand"@)
        .push("modify_system_device"@)
        .push("modify_system_manufacturer"@)
        .push("modify_system_model"@)
        .push("modify_system_name"@)
        .push("modify_android_id"@)
        .push("modify_serial_no"@)
        .push("modify_sensor_info"@)
        .push("modify_build_id"@)
        .push("modify_build_display"@)
        .push("modify_build_product"@)
        .push("modify_build_device"@)
        .push("modify_build_board"@)
        .push("modify_build_cpu_abi"@)
        .push("modify_build_cpu_abi2"@)
        .push("modify_build_manufacturer"@)
        .push("modify_build_brand"@)
        .push("modify_build_model"@)
        .push("modify_build_bootloader"@)
        .push("modify_build_radio"@)
        .push("modify_build_hardware"@)
        .push("modify_build_serial"@)
        .push("modify_build_type"@)
        .push("modify_build_tags"@)
        .push("modify_build_fingerprint"@)
        .push("modify_build_user"@)
        .push("modify_build_host"@)
        .push("modify_build_time"@)
        .push("modify_build_version_incremental"@)
        .push("modify_build_version_release"@)
        .push("modify_build_version_release_or_codename"@)
        .push("modify_build_version_base_os"@)
        .push("modify_build_version_security_patch"@)
        .push("modify_build_version_sdk"@)
        .push("modify_build_version_codename"@)
        .push("modify_build_radio_version"@)
        .push("modify_build_version_sdk_int"@)
        .push("modify_build_version_preview_sdk_int"@)
        .push("modify_build_supported_abis"@)
        .push("modify_build_supported_32_bit_abis"@)
        .push("modify_build_supported_64_bit_abis"@)
        .push("modify_build_fingerprinted_partitions"@)
        .push("modify_uname_all"@)
        .push("modify_uname_release"@)
        .push("modify_package_list"@)
        .push("modify_system_package_list"@)
        .push("modify_third_party_package_list"@)
        .push("modify_app_install_time"@)
        .push("modify_app_last_update_time"@)
        .push("modify_system_build_date"@)
        .push("modify_system_build_date_utc"@)
        .push("modify_system_build_id"@)
        .push("modify_system_build_tags"@)
        .push("modify_system_build_type"@)
        .push("modify_system_build_version_incremental"@)
        .push("modify_system_build_version_release"@)
        .push("modify_system_build_version_release_or_codename"@)
        .push("modify_system_build_version_sdk"@)
        .push("modify_ro_build_id"@)
        .push("modify_ro_build_keys"@)
        .push("modify_ro_build_version_incremental"@)
        .push("modify_ro_build_version_sdk"@)
        .push("modify_ro_build_version_preview_sdk"@)
        .push("modify_ro_build_version_preview_sdk_fingerprint"@)
        .push("modify_ro_build_version_codename"@)
        .push("modify_ro_build_version_all_codenames"@)
        .push("modify_ro_build_version_release"@)
        .push("modify_ro_build_version_release_or_codename"@)
        .push("modify_ro_build_version_security_patch"@)
        .push("modify_ro_build_version_base_os"@)
        .push("modify_ro_build_version_min_supported_target_sdk"@)
        .push("modify_ro_build_date"@)
        .push("modify_ro_build_date_utc"@)
        .push("modify_ro_build_type"@)
        .push("modify_ro_build_user"@)
        .push("modify_ro_build_host"@)
        .push("modify_ro_build_tags"@)
        .push("modify_ro_build_flavor"@)
        .push("modify_ro_build_system_root_image"@)
        .push("modify_ro_product_cpu_abi"@)
        .push("modify_ro_product_cpu_abilist"@)
        .push("modify_ro_product_cpu_abilist32"@)
        .push("modify_ro_product_cpu_abilist64"@)
        .push("modify_ro_product_locale"@)
        .push("modify_ro_wifi_channels"@)
        .push("modify_ro_vendor_product_manufacturer_db"@)
        .push("modify_ro_vendor_product_device_db"@)
        .push("modify_rild_libpath"@)
        .push("modify_persist_rild_nitz_plmn"@)
        .push("modify_persist_rild_nitz_long_ons_0"@)
        .push("modify_persist_rild_nitz_long_ons_1"@)
        .push("modify_persist_rild_nitz_long_ons_2"@)
        .push("modify_persist_rild_nitz_long_ons_3"@)
        .push("modify_persist_rild_nitz_short_ons_0"@)
        .push("modify_persist_rild_nitz_short_ons_1"@)
        .push("modify_persist_rild_nitz_short_ons_2"@)
        .push("modify_persist_rild_nitz_short_ons_3"@)
        .push("modify_ril_subscription_types"@)
        .push("modify_device_provisioned"@)
        .push("modify_ro_telephony_default_network"@)
        .push("modify_persist_netmon_linger"@)
        .push("modify_dalvik_vm_heapsize"@)
        .push("modify_dev_pm_dyn_samplingrate"@)
        .push("modify_qcom_hw_aac_encoder"@)
        .push("modify_persist_vendor_cne_feature"@)
        .push("modify_media_stagefright_enable_player"@)
        .push("modify_media_stagefright_enable_http"@)
        .push("modify_media_stagefright_enable_aac"@)
        .push("modify_media_stagefright_enable_qcp"@)
        .push("modify_media_stagefright_enable_fma2dp"@)
        .push("modify_media_stagefright_enable_scan"@)
        .push("modify_media_stagefright_thumbnail_prefer_hw_codecs"@)
        .push("modify_mmp_enable_3g2"@)
        .push("modify_media_aac_51_output_enabled"@)
        .push("modify_media_settings_xml"@)
        .push("modify_vendor_mm_enable_qcom_parser"@)
        .push("modify_persist_mm_enable_prefetch"@)
        .push("modify_ro_netflix_bsp_rev"@)
        .push("modify_ro_vendor_use_data_netmgrd"@)
        .push("modify_persist_vendor_data_mode"@)
        .push("modify_persist_timed_enable"@)
        .push("modify_telephony_lte_on_cdma_device"@)
        .push("modify_persist_fuse_sdcard"@)
        .push("modify_ro_bluetooth_library_name"@)
        .push("modify_persist_vendor_btstack_aac_frm_ctl_enabled"@)
        .push("modify_persist_rmnet_data_enable"@)
        .push("modify_persist_data_wda_enable"@)
        .push("modify_persist_data_df_dl_mode"@)
        .push("modify_persist_data_df_ul_mode"@)
        .push("modify_persist_data_df_agg_dl_pkt"@)
        .push("modify_persist_data_df_agg_dl_size"@)
        .push("modify_persist_data_df_mux_count"@)
        .push("modify_persist_data_df_iwlan_mux"@)
        .push("modify_persist_data_df_dev_name"@)
        .push("modify_persist_debug_wfd_enable"@)
        .push("modify_persist_sys_wfd_virtual"@)
        .push("modify_debug_sf_enable_hwc_vds"@)
        .push("modify_debug_sf_latch_unsignaled"@)
        .push("modify_tunnel_audio_encode"@)
        .push("modify_use_voice_path_for_pcm_voip"@)
        .push("modify_ro_nfc_port"@)
        .push("modify_sys_qca1530"@)
        .push("modify_persist_debug_coresight_config"@)
        .push("modify_ro_hwui_texture_cache_size"@)
        .push("modify_ro_hwui_layer_cache_size"@)
        .push("modify_ro_hwui_r_buffer_cache_size"@)
        .push("modify_ro_hwui_path_cache_size"@)
        .push("modify_ro_hwui_gradient_cache_size"@)
        .push("modify_ro_hwui_drop_shadow_cache_size"@)
        .push("modify_ro_hwui_texture_cache_flushrate"@)
        .push("modify_ro_hwui_text_small_cache_width"@)
        .push("modify_ro_hwui_text_small_cache_height"@)
        .push("modify_ro_hwui_text_large_cache_width"@)
        .push("modify_ro_hwui_text_large_cache_height"@)
        .push("modify_config_disable_rtt"@)
        .push("modify_persist_sys_force_sw_gles"@)
        .push("modify_persist_vendor_radio_atfwd_start"@)
        .push("modify_ro_kernel_qemu_gles"@)
        .push("modify_qemu_hw_mainkeys"@)
        .push("modify_vendor_camera_aux_packagelist"@)
        .push("modify_persist_vendor_camera_privapp_list"@)
        .push("modify_persist_camera_privapp_list"@)
        .push("modify_persist_vendor_overlay_izat_optin"@)
        .push("modify_persist_backup_ntp_server"@)
        .push("modify_persist_vendor_sensors_enable_mag_filter"@)
        .push("modify_ro_product_property_source_order"@)
        .push("modify_debug_stagefright_ccodec"@)
        .push("modify_ro_media_recorder_max_base_layer_fps"@)
        .push("modify_ro_charger_enable_suspend"@)
        .push("modify_persist_vendor_btstack_enable_twsplus"@)
        .push("modify_persist_vendor_bt_a2dp_hal_implementation"@)
        .push("modify_persist_vendor_naruto_light_support"@)
        .push("modify_ro_apex_updatable"@)
        .push("modify_persist_vendor_btstack_enable_lpa"@)
        .push("modify_ro_audio_monitor_rotation"@)
        .push("modify_persist_camera_assert_panic"@)
        .push("modify_ro_opcamera_support"@)
        .push("modify_persist_vendor_ims_disable_adb_logs"@)
        .push("modify_ro_gfx_driver_0"@)
        .push("modify_ro_gfx_driver_1"@)
        .push("modify_ro_treble_enabled"@)
        .push("modify_net_bt_name"@)
        .push("modify_ro_vendor_qti_va_aosp_support"@)
        .push("modify_ro_system_build_fingerprint"@)
        .push("modify_ro_product_system_brand"@)
        .push("modify_ro_product_system_device"@)
        .push("modify_ro_product_system_manufacturer"@)
        .push("modify_ro_product_system_name"@)
        .push("modify_ro_product_build_fingerprint"@)
        .push("modify_ro_product_product_brand"@)
        .push("modify_ro_product_product_device"@)
        .push("modify_ro_product_product_manufacturer"@)
        .push("modify_ro_product_product_name"@)
        .push("modify_ro_build_region"@)
        .push("modify_persist_sys_kernel"@)
        .push("modify_persist_sys_main"@)
        .push("modify_persist_sys_system"@)
        .push("modify_persist_sys_radio"@)
        .push("modify_persist_sys_event"@)
        .push("modify_persist_sys_perf"@)
        .push("modify_persist_sys_crash"@)
        .push("modify_persist_sys_qxdm"@)
        .push("modify_debug_sf_dump_primary"@)
        .push("modify_debug_sf_dump_external"@)
        .push("modify_debug_sf_dump_enable"@)
        .push("modify_debug_sf_dump"@)
        .push("modify_persist_sys_qsee"@)
        .push("modify_persist_sys_tz"@)
        .push("modify_persist_sys_bootloader"@)
        .push("modify_persist_sys_tcpdump_logsize"@)
        .push("modify_persist_sys_tcpdump_lognum"@)
        .push("modify_persist_log_tag_fusedaemon"@)
        .push("modify_persist_sys_assert_panic"@)
        .push("modify_persist_sys_assert_enable"@)
        .push("modify_persist_sys_cfu_auto"@)
        .push("modify_ro_imei_check"@)
        .push("modify_ro_vendor_custom_image"@)
        .push("modify_ro_vendor_update_india"@)
        .push("modify_ro_build_os_type"@)
        .push("modify_persist_sys_oem_region"@)
        .push("modify_ro_build_real_device"@)
        .push("modify_ro_build_product"@)
        .push("modify_ro_product_device"@)
        .push("modify_ro_build_date_ymd"@)
        .push("modify_ro_build_date_ymd_lowercase"@)
        .push("modify_ro_build_date_ymdhm"@)
        .push("modify_ro_build_user2"@)
        .push("modify_ro_build_flavor2"@)
        .push("modify_ro_build_description"@)
        .push("modify_ro_common_soft"@)
        .push("modify_ro_build_release_type"@)
        .push("modify_ro_build_soft_version"@)
        .push("modify_ro_xxversion"@)
        .push("modify_ro_build_kernel_id"@)
        .push("modify_ro_display_series"@)
        .push("modify_ro_build_ota_versionname"@)
        .push("modify_ro_build_version_ota"@)
        .push("modify_ro_build_soft_majorversion"@)
        .push("modify_ro_product_brand"@)
        .push("modify_ro_product_manufacturer"@)
        .push("modify_persist_sys_timezone"@)
        .push("modify_ro_rom_version"@)
        .push("modify_persist_vendor_ssr_enable_ramdumps"@)
        .push("modify_ro_build_stanv_ab"@)
}

/// The integer a handler returns.  Every handler in this revision is a stub
/// that returns zero; the dispatcher's contract is stated over this function
/// so that it stays stable when a slot gains real behaviour.
pub open spec fn handler_result(id: usize) -> int {
    0
}

/// The informational message a handler emits when it is invoked.
pub open spec fn handler_message(id: usize) -> Seq<char> {
    "Executing "@ + handler_names()[id as int]
}

/// The handler registry: handler names laid out densely, indexed by handler
/// identifier.  Immutable once built.
pub struct Registry {
    names: Vec<String>,
}

impl View for Registry {
    type V = Seq<Seq<char>>;

    closed spec fn view(&self) -> Seq<Seq<char>> {
        self.names@.map_values(|n: String| n@)
    }
}

impl Registry {
    /// Append one handler slot while building the registry.
    fn add(&mut self, name: &'static str)
        ensures
            final(self)@ == old(self)@.push(name@),
            final(self)@.len() == old(self)@.len() + 1,
    {
        self.names.push(String::from_str(name));
        proof {
            assert(self@ =~= old(self)@.push(name@));
        }
    }

    /// Build the registry, one slot per handler, in registry order.
    pub fn new() -> (r: Registry)
        ensures
            r@ == handler_names(),
            r@.len() == HANDLER_COUNT,
    {
        let mut r = Registry { names: Vec::new() };
        proof {
            assert(r@ =~= Seq::<Seq<char>>::empty());
        }
        r.add("modify_runtime");
        r.add("modify_brand");
        r.add("modify_model");
        r.add("modify_hardware");
        r.add("modify_board");
        r.add("modify_display");
        r.add("modify_baseband");
        r.add("modify_serial_number");
        r.add("modify_main_screen_size");
        r.add("modify_main_screen_resolution");
        r.add("modify_gps_location_info");
        r.add("modify_memory_usage");
        r.add("modify_storage_usage");
        r.add("modify_sdk_int");
        r.add("modify_release");
        r.add("modify_version_code");
        r.add("modify_bootloader");
        r.add("modify_art");
        r.add("modify_kernel_version");
        r.add("modify_system_brand");
        r.add("modify_system_device");
        r.add("modify_system_manufacturer");
        r.add("modify_system_model");
        r.add("modify_system_name");
        r.add("modify_android_id");
        r.add("modify_serial_no");
        r.add("modify_sensor_info");
        r.add("modify_build_id");
        r.add("modify_build_display");
        r.add("modify_build_product");
        r.add("modify_build_device");
        r.add("modify_build_board");
        r.add("modify_build_cpu_abi");
        r.add("modify_build_cpu_abi2");
        r.add("modify_build_manufacturer");
        r.add("modify_build_brand");
        r.add("modify_build_model");
        r.add("modify_build_bootloader");
        r.add("modify_build_radio");
        r.add("modify_build_hardware");
        r.add("modify_build_serial");
        r.add("modify_build_type");
        r.add("modify_build_tags");
        r.add("modify_build_fingerprint");
        r.add("modify_build_user");
        r.add("modify_build_host");
        r.add("modify_build_time");
        r.add("modify_build_version_incremental");
        r.add("modify_build_version_release");
        r.add("modify_build_version_release_or_codename");
        r.add("modify_build_version_base_os");
        r.add("modify_build_version_security_patch");
        r.add("modify_build_version_sdk");
        r.add("modify_build_version_codename");
        r.add("modify_build_radio_version");
        r.add("modify_build_version_sdk_int");
        r.add("modify_build_version_preview_sdk_int");
        r.add("modify_build_supported_abis");
        r.add("modify_build_supported_32_bit_abis");
        r.add("modify_build_supported_64_bit_abis");
        r.add("modify_build_fingerprinted_partitions");
        r.add("modify_uname_all");
        r.add("modify_uname_release");
        r.add("modify_package_list");
        r.add("modify_system_package_list");
        r.add("modify_third_party_package_list");
        r.add("modify_app_install_time");
        r.add("modify_app_last_update_time");
        r.add("modify_system_build_date");
        r.add("modify_system_build_date_utc");
        r.add("modify_system_build_id");
        r.add("modify_system_build_tags");
        r.add("modify_system_build_type");
        r.add("modify_system_build_version_incremental");
        r.add("modify_system_build_version_release");
        r.add("modify_system_build_version_release_or_codename");
        r.add("modify_system_build_version_sdk");
        r.add("modify_ro_build_id");
        r.add("modify_ro_build_keys");
        r.add("modify_ro_build_version_incremental");
        r.add("modify_ro_build_version_sdk");
        r.add("modify_ro_build_version_preview_sdk");
        r.add("modify_ro_build_version_preview_sdk_fingerprint");
        r.add("modify_ro_build_version_codename");
        r.add("modify_ro_build_version_all_codenames");
        r.add("modify_ro_build_version_release");
        r.add("modify_ro_build_version_release_or_codename");
        r.add("modify_ro_build_version_security_patch");
        r.add("modify_ro_build_version_base_os");
        r.add("modify_ro_build_version_min_supported_target_sdk");
        r.add("modify_ro_build_date");
        r.add("modify_ro_build_date_utc");
        r.add("modify_ro_build_type");
        r.add("modify_ro_build_user");
        r.add("modify_ro_build_host");
        r.add("modify_ro_build_tags");
        r.add("modify_ro_build_flavor");
        r.add("modify_ro_build_system_root_image");
        r.add("modify_ro_product_cpu_abi");
        r.add("modify_ro_product_cpu_abilist");
        r.add("modify_ro_product_cpu_abilist32");
        r.add("modify_ro_product_cpu_abilist64");
        r.add("modify_ro_product_locale");
        r.add("modify_ro_wifi_channels");
        r.add("modify_ro_vendor_product_manufacturer_db");
        r.add("modify_ro_vendor_product_device_db");
        r.add("modify_rild_libpath");
        r.add("modify_persist_rild_nitz_plmn");
        r.add("modify_persist_rild_nitz_long_ons_0");
        r.add("modify_persist_rild_nitz_long_ons_1");
        r.add("modify_persist_rild_nitz_long_ons_2");
        r.add("modify_persist_rild_nitz_long_ons_3");
        r.add("modify_persist_rild_nitz_short_ons_0");
        r.add("modify_persist_rild_nitz_short_ons_1");
        r.add("modify_persist_rild_nitz_short_ons_2");
        r.add("modify_persist_rild_nitz_short_ons_3");
        r.add("modify_ril_subscription_types");
        r.add("modify_device_provisioned");
        r.add("modify_ro_telephony_default_network");
        r.add("modify_persist_netmon_linger");
        r.add("modify_dalvik_vm_heapsize");
        r.add("modify_dev_pm_dyn_samplingrate");
        r.add("modify_qcom_hw_aac_encoder");
        r.add("modify_persist_vendor_cne_feature");
        r.add("modify_media_stagefright_enable_player");
        r.add("modify_media_stagefright_enable_http");
        r.add("modify_media_stagefright_enable_aac");
        r.add("modify_media_stagefright_enable_qcp");
        r.add("modify_media_stagefright_enable_fma2dp");
        r.add("modify_media_stagefright_enable_scan");
        r.add("modify_media_stagefright_thumbnail_prefer_hw_codecs");
        r.add("modify_mmp_enable_3g2");
        r.add("modify_media_aac_51_output_enabled");
        r.add("modify_media_settings_xml");
        r.add("modify_vendor_mm_enable_qcom_parser");
        r.add("modify_persist_mm_enable_prefetch");
        r.add("modify_ro_netflix_bsp_rev");
        r.add("modify_ro_vendor_use_data_netmgrd");
        r.add("modify_persist_vendor_data_mode");
        r.add("modify_persist_timed_enable");
        r.add("modify_telephony_lte_on_cdma_device");
        r.add("modify_persist_fuse_sdcard");
        r.add("modify_ro_bluetooth_library_name");
        r.add("modify_persist_vendor_btstack_aac_frm_ctl_enabled");
        r.add("modify_persist_rmnet_data_enable");
        r.add("modify_persist_data_wda_enable");
        r.add("modify_persist_data_df_dl_mode");
        r.add("modify_persist_data_df_ul_mode");
        r.add("modify_persist_data_df_agg_dl_pkt");
        r.add("modify_persist_data_df_agg_dl_size");
        r.add("modify_persist_data_df_mux_count");
        r.add("modify_persist_data_df_iwlan_mux");
        r.add("modify_persist_data_df_dev_name");
        r.add("modify_persist_debug_wfd_enable");
        r.add("modify_persist_sys_wfd_virtual");
        r.add("modify_debug_sf_enable_hwc_vds");
        r.add("modify_debug_sf_latch_unsignaled");
        r.add("modify_tunnel_audio_encode");
        r.add("modify_use_voice_path_for_pcm_voip");
        r.add("modify_ro_nfc_port");
        r.add("modify_sys_qca1530");
        r.add("modify_persist_debug_coresight_config");
        r.add("modify_ro_hwui_texture_cache_size");
        r.add("modify_ro_hwui_layer_cache_size");
        r.add("modify_ro_hwui_r_buffer_cache_size");
        r.add("modify_ro_hwui_path_cache_size");
        r.add("modify_ro_hwui_gradient_cache_size");
        r.add("modify_ro_hwui_drop_shadow_cache_size");
        r.add("modify_ro_hwui_texture_cache_flushrate");
        r.add("modify_ro_hwui_text_small_cache_width");
        r.add("modify_ro_hwui_text_small_cache_height");
        r.add("modify_ro_hwui_text_large_cache_width");
        r.add("modify_ro_hwui_text_large_cache_height");
        r.add("modify_config_disable_rtt");
        r.add("modify_persist_sys_force_sw_gles");
        r.add("modify_persist_vendor_radio_atfwd_start");
        r.add("modify_ro_kernel_qemu_gles");
        r.add("modify_qemu_hw_mainkeys");
        r.add("modify_vendor_camera_aux_packagelist");
        r.add("modify_persist_vendor_camera_privapp_list");
        r.add("modify_persist_camera_privapp_list");
        r.add("modify_persist_vendor_overlay_izat_optin");
        r.add("modify_persist_backup_ntp_server");
        r.add("modify_persist_vendor_sensors_enable_mag_filter");
        r.add("modify_ro_product_property_source_order");
        r.add("modify_debug_stagefright_ccodec");
        r.add("modify_ro_media_recorder_max_base_layer_fps");
        r.add("modify_ro_charger_enable_suspend");
        r.add("modify_persist_vendor_btstack_enable_twsplus");
        r.add("modify_persist_vendor_bt_a2dp_hal_implementation");
        r.add("modify_persist_vendor_naruto_light_support");
        r.add("modify_ro_apex_updatable");
        r.add("modify_persist_vendor_btstack_enable_lpa");
        r.add("modify_ro_audio_monitor_rotation");
        r.add("modify_persist_camera_assert_panic");
        r.add("modify_ro_opcamera_support");
        r.add("modify_persist_vendor_ims_disable_adb_logs");
        r.add("modify_ro_gfx_driver_0");
        r.add("modify_ro_gfx_driver_1");
        r.add("modify_ro_treble_enabled");
        r.add("modify_net_bt_name");
        r.add("modify_ro_vendor_qti_va_aosp_support");
        r.add("modify_ro_system_build_fingerprint");
        r.add("modify_ro_product_system_brand");
        r.add("modify_ro_product_system_device");
        r.add("modify_ro_product_system_manufacturer");
        r.add("modify_ro_product_system_name");
        r.add("modify_ro_product_build_fingerprint");
        r.add("modify_ro_product_product_brand");
        r.add("modify_ro_product_product_device");
        r.add("modify_ro_product_product_manufacturer");
        r.add("modify_ro_product_product_name");
        r.add("modify_ro_build_region");
        r.add("modify_persist_sys_kernel");
        r.add("modify_persist_sys_main");
        r.add("modify_persist_sys_system");
        r.add("modify_persist_sys_radio");
        r.add("modify_persist_sys_event");
        r.add("modify_persist_sys_perf");
        r.add("modify_persist_sys_crash");
        r.add("modify_persist_sys_qxdm");
        r.add("modify_debug_sf_dump_primary");
        r.add("modify_debug_sf_dump_external");
        r.add("modify_debug_sf_dump_enable");
        r.add("modify_debug_sf_dump");
        r.add("modify_persist_sys_qsee");
        r.add("modify_persist_sys_tz");
        r.add("modify_persist_sys_bootloader");
        r.add("modify_persist_sys_tcpdump_logsize");
        r.add("modify_persist_sys_tcpdump_lognum");
        r.add("modify_persist_log_tag_fusedaemon");
        r.add("modify_persist_sys_assert_panic");
        r.add("modify_persist_sys_assert_enable");
        r.add("modify_persist_sys_cfu_auto");
        r.add("modify_ro_imei_check");
        r.add("modify_ro_vendor_custom_image");
        r.add("modify_ro_vendor_update_india");
        r.add("modify_ro_build_os_type");
        r.add("modify_persist_sys_oem_region");
        r.add("modify_ro_build_real_device");
        r.add("modify_ro_build_product");
        r.add("modify_ro_product_device");
        r.add("modify_ro_build_date_ymd");
        r.add("modify_ro_build_date_ymd_lowercase");
        r.add("modify_ro_build_date_ymdhm");
        r.add("modify_ro_build_user2");
        r.add("modify_ro_build_flavor2");
        r.add("modify_ro_build_description");
        r.add("modify_ro_common_soft");
        r.add("modify_ro_build_release_type");
        r.add("modify_ro_build_soft_version");
        r.add("modify_ro_xxversion");
        r.add("modify_ro_build_kernel_id");
        r.add("modify_ro_display_series");
        r.add("modify_ro_build_ota_versionname");
        r.add("modify_ro_build_version_ota");
        r.add("modify_ro_build_soft_majorversion");
        r.add("modify_ro_product_brand");
        r.add("modify_ro_product_manufacturer");
        r.add("modify_persist_sys_timezone");
        r.add("modify_ro_rom_version");
        r.add("modify_persist_vendor_ssr_enable_ramdumps");
        r.add("modify_ro_build_stanv_ab");
        r
    }

    /// Invoke the handler in the given slot: the handler's integer result and
    /// its single informational record.
    pub fn invoke(&self, id: usize) -> (r: (i32, LogRecord))
        requires
            self@ == handler_names(),
            self@.len() == HANDLER_COUNT,
            id < HANDLER_COUNT,
        ensures
            r.0 as int == handler_result(id),
            r.1.level == LogLevel::Info,
            r.1.message@ == handler_message(id),
    {
        proof {
            assert(self@.len() == self.names@.len());
        }
        let mut message = String::from_str("Executing ");
        message.append(self.names[id].as_str());
        (0, LogRecord { level: LogLevel::Info, message })
    }
}

} // verus!
