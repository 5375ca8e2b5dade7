//! The keyword table: the fixed, immutable mapping from parameter name to
//! handler identifier, and the exact-match routing rule over it.
//!
//! A handful of keys are declared twice; the routing rule scans declarations
//! from the end, so the later declaration wins.

use crate::registry::HANDLER_COUNT;
use vstd::prelude::*;
use vstd::string::StringExecFns;

verus! {

/// The table's declarations in order: parameter key and handler identifier.
pub open spec fn keyword_entries() -> Seq<(Seq<char>, usize)> {
    Seq::empty()
        .push(("运行时间"@, 0usize))
        .push(("品牌"@, 1usize))
        .push(("型号"@, 2usize))
        .push(("硬件"@, 3usize))
        .push(("BOARD"@, 4usize))
        .push(("DISPLAY"@, 5usize))
        .push(("基带"@, 6usize))
        .push(("序列号"@, 7usize))
        .push(("主屏幕尺寸"@, 8usize))
        .push(("主屏幕分辨率"@, 9usize))
        .push(("GPS位置信息"@, 10usize))
        .push(("内存 已用/全部"@, 11usize))
        .push(("储存 已用/全部"@, 12usize))
        .push(("SDK INT"@, 13usize))
        .push(("RELEASE"@, 14usize))
        .push(("Version Code"@, 15usize))
        .push(("Bootloader："@, 16usize))
        .push(("ART"@, 17usize))
        .push(("Kernel版本"@, 18usize))
        .push(("ro.product.system.brand"@, 19usize))
        .push(("ro.product.system.device"@, 20usize))
        .push(("ro.product.system.manufacturer"@, 21usize))
        .push(("ro.product.system.model"@, 22usize))
        .push(("ro.product.system.name"@, 23usize))
        .push(("settings get secure android_id"@, 24usize))
        .push(("getprop ro.serialno"@, 25usize))
        .push(("传感器信息"@, 26usize))
        .push(("Build.ID"@, 27usize))
        .push(("Build.DISPLAY"@, 28usize))
        .push(("Build.PRODUCT"@, 29usize))
        .push(("Build.DEVICE"@, 30usize))
        .push(("Build.BOARD"@, 31usize))
        .push(("Build.CPU_ABI"@, 32usize))
        .push(("Build.CPU_ABI2"@, 33usize))
        .push(("Build.MANUFACTURER"@, 34usize))
        .push(("Build.BRAND"@, 35usize))
        .push(("Build.MODEL"@, 36usize))
        .push(("Build.BOOTLOADER"@, 37usize))
        .push(("Build.RADIO"@, 38usize))
        .push(("Build.HARDWARE"@, 39usize))
        .push(("Build.SERIAL"@, 40usize))
        .push(("Build.TYPE"@, 41usize))
        .push(("Build.TAGS"@, 42usize))
        .push(("Build.FINGERPRINT"@, 43usize))
        .push(("Build.USER"@, 44usize))
        .push(("Build.HOST"@, 45usize))
        .push(("Build.TIME"@, 46usize))
        .push(("Build.VERSION.INCREMENTAL"@, 47usize))
        .push(("Build.VERSION.RELEASE"@, 48usize))
        .push(("Build.VERSION.RELEASE_OR_CODENAME"@, 49usize))
        .push(("Build.VERSION.BASE_OS"@, 50usize))
        .push(("Build.VERSION.SECURITY_PATCH"@, 51usize))
        .push(("Build.VERSION.SDK"@, 52usize))
        .push(("Build.VERSION.CODENAME"@, 53usize))
        .push(("Build.getRadioVersion()"@, 54usize))
        .push(("Build.VERSION.SDK_INT"@, 55usize))
        .push(("Build.VERSION.PREVIEW_SDK_INT"@, 56usize))
        .push(("Build.SUPPORTED_ABIS"@, 57usize))
        .push(("Build.SUPPORTED_32_BIT_ABIS"@, 58usize))
        .push(("Build.SUPPORTED_64_BIT_ABIS"@, 59usize))
        .push(("Build.getFingerprintedPartitions()"@, 60usize))
        .push(("uname -a"@, 61usize))
        .push(("uname -r"@, 62usize))
        .push(("pm list packages"@, 63usize))
        .push(("pm list packages -s"@, 64usize))
        .push(("pm list packages -3"@, 65usize))
        .push(("App Install Time"@, 66usize))
        .push(("App Last Update Time"@, 67usize))
        .push(("ro.system.build.date"@, 68usize))
        .push(("ro.system.build.date.utc"@, 69usize))
        .push(("ro.system.build.id"@, 70usize))
        .push(("ro.system.build.tags"@, 71usize))
        .push(("ro.system.build.type"@, 72usize))
        .push(("ro.system.build.version.incremental"@, 73usize))
        .push(("ro.system.build.version.release"@, 74usize))
        .push(("ro.system.build.version.release_or_codename"@, 75usize))
        .push(("ro.system.build.version.sdk"@, 76usize))
        .push(("ro.build.id"@, 77usize))
        .push(("ro.build.keys"@, 78usize))
        .push(("ro.build.version.incremental"@, 79usize))
        .push(("ro.build.version.sdk"@, 80usize))
        .push(("ro.build.version.preview_sdk"@, 81usize))
        .push(("ro.build.version.preview_sdk_fingerprint"@, 82usize))
        .push(("ro.build.version.codename"@, 83usize))
        .push(("ro.build.version.all_codenames"@, 84usize))
        .push(("ro.build.version.release"@, 85usize))
        .push(("ro.build.version.release_or_codename"@, 86usize))
        .push(("ro.build.version.security_patch"@, 87usize))
        .push(("ro.build.version.base_os"@, 88usize))
        .push(("ro.build.version.min_supported_target_sdk"@, 89usize))
        .push(("ro.build.date"@, 90usize))
        .push(("ro.build.date.utc"@, 91usize))
        .push(("ro.build.type"@, 92usize))
        .push(("ro.build.user"@, 93usize))
        .push(("ro.build.host"@, 94usize))
        .push(("ro.build.tags"@, 95usize))
        .push(("ro.build.flavor"@, 96usize))
        .push(("ro.build.system_root_image"@, 97usize))
        .push(("ro.product.cpu.abi"@, 98usize))
        .push(("ro.product.cpu.abilist"@, 99usize))
        .push(("ro.product.cpu.abilist32"@, 100usize))
        .push(("ro.product.cpu.abilist64"@, 101usize))
        .push(("ro.product.locale"@, 102usize))
        .push(("ro.wifi.channels"@, 103usize))
        .push(("ro.vendor.product.manufacturer.db"@, 104usize))
        .push(("ro.vendor.product.device.db"@, 105usize))
        .push(("rild.libpath"@, 106usize))
        .push(("persist.rild.nitz_plmn"@, 107usize))
        .push(("persist.rild.nitz_long_ons_0"@, 108usize))
        .push(("persist.rild.nitz_long_ons_1"@, 109usize))
        .push(("persist.rild.nitz_long_ons_2"@, 110usize))
        .push(("persist.rild.nitz_long_ons_3"@, 111usize))
        .push(("persist.rild.nitz_short_ons_0"@, 112usize))
        .push(("persist.rild.nitz_short_ons_1"@, 113usize))
        .push(("persist.rild.nitz_short_ons_2"@, 114usize))
        .push(("persist.rild.nitz_short_ons_3"@, 115usize))
        .push(("ril.subscription.types"@, 116usize))
        .push(("DEVICE_PROVISIONED"@, 117usize))
        .push(("ro.telephony.default_network"@, 118usize))
        .push(("persist.netmon.linger"@, 119usize))
        .push(("dalvik.vm.heapsize"@, 120usize))
        .push(("dev.pm.dyn_samplingrate"@, 121usize))
        .push(("qcom.hw.aac.encoder"@, 122usize))
        .push(("persist.vendor.cne.feature"@, 123usize))
        .push(("media.stagefright.enable-player"@, 124usize))
        .push(("media.stagefright.enable-http"@, 125usize))
        .push(("media.stagefright.enable-aac"@, 126usize))
        .push(("media.stagefright.enable-qcp"@, 127usize))
        .push(("media.stagefright.enable-fma2dp"@, 128usize))
        .push(("media.stagefright.enable-scan"@, 129usize))
        .push(("media.stagefright.thumbnail.prefer_hw_codecs"@, 130usize))
        .push(("mmp.enable.3g2"@, 131usize))
        .push(("media.aac_51_output_enabled"@, 132usize))
        .push(("media.settings.xml"@, 133usize))
        .push(("vendor.mm.enable.qcom_parser"@, 134usize))
        .push(("persist.mm.enable.prefetch"@, 135usize))
        .push(("ro.netflix.bsp_rev"@, 136usize))
        .push(("ro.vendor.use_data_netmgrd"@, 137usize))
        .push(("persist.vendor.data.mode"@, 138usize))
        .push(("persist.timed.enable"@, 139usize))
        .push(("telephony.lteOnCdmaDevice"@, 140usize))
        .push(("persist.fuse_sdcard"@, 141usize))
        .push(("ro.bluetooth.library_name"@, 142usize))
        .push(("persist.vendor.btstack.aac_frm_ctl.enabled"@, 143usize))
        .push(("persist.rmnet.data.enable"@, 144usize))
        .push(("persist.data.wda.enable"@, 145usize))
        .push(("persist.data.df.dl_mode"@, 146usize))
        .push(("persist.data.df.ul_mode"@, 147usize))
        .push(("persist.data.df.agg.dl_pkt"@, 148usize))
        .push(("persist.data.df.agg.dl_size"@, 149usize))
        .push(("persist.data.df.mux_count"@, 150usize))
        .push(("persist.data.df.iwlan_mux"@, 151usize))
        .push(("persist.data.df.dev_name"@, 152usize))
        .push(("persist.debug.wfd.enable"@, 153usize))
        .push(("persist.sys.wfd.virtual"@, 154usize))
        .push(("debug.sf.enable_hwc_vds"@, 155usize))
        .push(("debug.sf.latch_unsignaled"@, 156usize))
        .push(("tunnel.audio.encode"@, 157usize))
        .push(("use.voice.path.for.pcm.voip"@, 158usize))
        .push(("ro.nfc.port"@, 159usize))
        .push(("sys.qca1530"@, 160usize))
        .push(("persist.debug.coresight.config"@, 161usize))
        .push(("ro.hwui.texture_cache_size"@, 162usize))
        .push(("ro.hwui.layer_cache_size"@, 163usize))
        .push(("ro.hwui.r_buffer_cache_size"@, 164usize))
        .push(("ro.hwui.path_cache_size"@, 165usize))
        .push(("ro.hwui.gradient_cache_size"@, 166usize))
        .push(("ro.hwui.drop_shadow_cache_size"@, 167usize))
        .push(("ro.hwui.texture_cache_flushrate"@, 168usize))
        .push(("ro.hwui.text_small_cache_width"@, 169usize))
        .push(("ro.hwui.text_small_cache_height"@, 170usize))
        .push(("ro.hwui.text_large_cache_width"@, 171usize))
        .push(("ro.hwui.text_large_cache_height"@, 172usize))
        .push(("config.disable_rtt"@, 173usize))
        .push(("persist.sys.force_sw_gles"@, 174usize))
        .push(("persist.vendor.radio.atfwd.start"@, 175usize))
        .push(("ro.kernel.qemu.gles"@, 176usize))
        .push(("qemu.hw.mainkeys"@, 177usize))
        .push(("vendor.camera.aux.packagelist"@, 178usize))
        .push(("persist.vendor.camera.privapp.list"@, 179usize))
        .push(("persist.camera.privapp.list"@, 180usize))
        .push(("persist.vendor.overlay.izat.optin"@, 181usize))
        .push(("persist.backup.ntpServer"@, 182usize))
        .push(("persist.vendor.sensors.enable.mag_filter"@, 183usize))
        .push(("ro.product.property_source_order"@, 184usize))
        .push(("debug.stagefright.ccodec"@, 185usize))
        .push(("ro.media.recorder-max-base-layer-fps"@, 186usize))
        .push(("ro.charger.enable_suspend"@, 187usize))
        .push(("persist.vendor.btstack.enable.twsplus"@, 188usize))
        .push(("persist.vendor.bt.a2dp.hal.implementation"@, 189usize))
        .push(("persist.vendor.naruto.light.support"@, 190usize))
        .push(("ro.apex.updatable"@, 191usize))
        .push(("persist.vendor.btstack.enable.lpa"@, 192usize))
        .push(("ro.audio.monitorRotation"@, 193usize))
        .push(("persist.camera.assert.panic"@, 194usize))
        .push(("ro.opcamera.support"@, 195usize))
        .push(("persist.vendor.ims.disableADBLogs"@, 196usize))
        .push(("ro.gfx.driver.0"@, 197usize))
        .push(("ro.gfx.driver.1"@, 198usize))
        .push(("ro.treble.enabled"@, 199usize))
        .push(("net.bt.name"@, 200usize))
        .push(("ro.vendor.qti.va_aosp.support"@, 201usize))
        .push(("ro.system.build.fingerprint"@, 202usize))
        .push(("ro.product.system.brand"@, 203usize))
        .push(("ro.product.system.device"@, 204usize))
        .push(("ro.product.system.manufacturer"@, 205usize))
        .push(("ro.product.system.name"@, 206usize))
        .push(("ro.product.build.fingerprint"@, 207usize))
        .push(("ro.product.product.brand"@, 208usize))
        .push(("ro.product.product.device"@, 209usize))
        .push(("ro.product.product.manufacturer"@, 210usize))
        .push(("ro.product.product.name"@, 211usize))
        .push(("ro.build.region"@, 212usize))
        .push(("persist.sys.kernel"@, 213usize))
        .push(("persist.sys.main"@, 214usize))
        .push(("persist.sys.system"@, 215usize))
        .push(("persist.sys.radio"@, 216usize))
        .push(("persist.sys.event"@, 217usize))
        .push(("persist.sys.perf"@, 218usize))
        .push(("persist.sys.crash"@, 219usize))
        .push(("persist.sys.qxdm"@, 220usize))
        .push(("debug.sf.dump.primary"@, 221usize))
        .push(("debug.sf.dump.external"@, 222usize))
        .push(("debug.sf.dump.enable"@, 223usize))
        .push(("debug.sf.dump"@, 224usize))
        .push(("persist.sys.qsee"@, 225usize))
        .push(("persist.sys.tz"@, 226usize))
        .push(("persist.sys.bootloader"@, 227usize))
        .push(("persist.sys.tcpdump.logsize"@, 228usize))
        .push(("persist.sys.tcpdump.lognum"@, 229usize))
        .push(("persist.log.tag.FuseDaemon"@, 230usize))
        .push(("persist.sys.assert.panic"@, 231usize))
        .push(("persist.sys.assert.enable"@, 232usize))
        .push(("persist.sys.cfu_auto"@, 233usize))
        .push(("ro.imei.check"@, 234usize))
        .push(("ro.vendor.custom.image"@, 235usize))
        .push(("ro.vendor.update.india"@, 236usize))
        .push(("ro.build.os_type"@, 237usize))
        .push(("persist.sys.oem.region"@, 238usize))
        .push(("ro.build.real_device"@, 239usize))
        .push(("ro.build.product"@, 240usize))
        .push(("ro.product.device"@, 241usize))
        .push(("ro.build.date.Ymd"@, 242usize))
        .push(("ro.build.date.ymd"@, 243usize))
        .push(("ro.build.date.YmdHM"@, 244usize))
        .push(("ro.build.user"@, 245usize))
        .push(("ro.build.flavor"@, 246usize))
        .push(("ro.build.description"@, 247usize))
        .push(("ro.common.soft"@, 248usize))
        .push(("ro.build.release_type"@, 249usize))
        .push(("ro.build.soft.version"@, 250usize))
        .push(("ro.xxversion"@, 251usize))
        .push(("ro.build.kernel.id"@, 252usize))
        .push(("ro.display.series"@, 253usize))
        .push(("ro.build.ota.versionname"@, 254usize))
        .push(("ro.build.version.ota"@, 255usize))
        .push(("ro.build.soft.majorversion"@, 256usize))
        .push(("ro.product.brand"@, 257usize))
        .push(("ro.product.manufacturer"@, 258usize))
        .push(("persist.sys.timezone"@, 259usize))
        .push(("ro.rom.version"@, 260usize))
        .push(("persist.vendor.ssr.enable_ramdumps"@, 261usize))
        .push(("ro.build.stanv.ab"@, 262usize))
}

/// Exact-match routing over a sequence of declarations: the handler
/// identifier of the last declaration whose key equals `key`, or `None` when
/// no declaration matches.  Keys match on the full character sequence only:
/// no normalization, no prefixes.
pub open spec fn lookup(entries: Seq<(Seq<char>, usize)>, key: Seq<char>) -> Option<usize>
    decreases entries.len(),
{
    if entries.len() == 0 {
        None
    } else if entries.last().0 == key {
        Some(entries.last().1)
    } else {
        lookup(entries.drop_last(), key)
    }
}

/// The keyword table, built once at dispatcher construction and immutable
/// afterwards.
pub struct KeywordTable {
    entries: Vec<(String, usize)>,
}

impl View for KeywordTable {
    type V = Seq<(Seq<char>, usize)>;

    closed spec fn view(&self) -> Seq<(Seq<char>, usize)> {
        self.entries@.map_values(|e: (String, usize)| (e.0@, e.1))
    }
}

impl KeywordTable {
    /// Every declared handler identifier names a registry slot.
    pub open spec fn wf(&self) -> bool {
        forall|i: int| 0 <= i < self@.len() ==> (#[trigger] self@[i]).1 < HANDLER_COUNT
    }

    /// Append one declaration while building the table.
    fn add(&mut self, key: &'static str, id: usize)
        requires
            id < HANDLER_COUNT,
            old(self).wf(),
        ensures
            final(self)@ == old(self)@.push((key@, id)),
            final(self).wf(),
    {
        self.entries.push((String::from_str(key), id));
        proof {
            assert(self@ =~= old(self)@.push((key@, id)));
            assert forall|i: int| 0 <= i < self@.len() implies (#[trigger] self@[i]).1
                < HANDLER_COUNT by {
                if i < self@.len() - 1 {
                    assert(self@[i] == old(self)@[i]);
                }
            }
        }
    }

    /// Build the keyword table, declaration by declaration, in source order.
    pub fn new() -> (t: KeywordTable)
        ensures
            t@ == keyword_entries(),
            t.wf(),
    {
        let mut t = KeywordTable { entries: Vec::new() };
        proof {
            assert(t@ =~= Seq::<(Seq<char>, usize)>::empty());
        }
        t.add("运行时间", 0);
        t.add("品牌", 1);
        t.add("型号", 2);
        t.add("硬件", 3);
        t.add("BOARD", 4);
        t.add("DISPLAY", 5);
        t.add("基带", 6);
        t.add("序列号", 7);
        t.add("主屏幕尺寸", 8);
        t.add("主屏幕分辨率", 9);
        t.add("GPS位置信息", 10);
        t.add("内存 已用/全部", 11);
        t.add("储存 已用/全部", 12);
        t.add("SDK INT", 13);
        t.add("RELEASE", 14);
        t.add("Version Code", 15);
        t.add("Bootloader：", 16);
        t.add("ART", 17);
        t.add("Kernel版本", 18);
        t.add("ro.product.system.brand", 19);
        t.add("ro.product.system.device", 20);
        t.add("ro.product.system.manufacturer", 21);
        t.add("ro.product.system.model", 22);
        t.add("ro.product.system.name", 23);
        t.add("settings get secure android_id", 24);
        t.add("getprop ro.serialno", 25);
        t.add("传感器信息", 26);
        t.add("Build.ID", 27);
        t.add("Build.DISPLAY", 28);
        t.add("Build.PRODUCT", 29);
        t.add("Build.DEVICE", 30);
        t.add("Build.BOARD", 31);
        t.add("Build.CPU_ABI", 32);
        t.add("Build.CPU_ABI2", 33);
        t.add("Build.MANUFACTURER", 34);
        t.add("Build.BRAND", 35);
        t.add("Build.MODEL", 36);
        t.add("Build.BOOTLOADER", 37);
        t.add("Build.RADIO", 38);
        t.add("Build.HARDWARE", 39);
        t.add("Build.SERIAL", 40);
        t.add("Build.TYPE", 41);
        t.add("Build.TAGS", 42);
        t.add("Build.FINGERPRINT", 43);
        t.add("Build.USER", 44);
        t.add("Build.HOST", 45);
        t.add("Build.TIME", 46);
        t.add("Build.VERSION.INCREMENTAL", 47);
        t.add("Build.VERSION.RELEASE", 48);
        t.add("Build.VERSION.RELEASE_OR_CODENAME", 49);
        t.add("Build.VERSION.BASE_OS", 50);
        t.add("Build.VERSION.SECURITY_PATCH", 51);
        t.add("Build.VERSION.SDK", 52);
        t.add("Build.VERSION.CODENAME", 53);
        t.add("Build.getRadioVersion()", 54);
        t.add("Build.VERSION.SDK_INT", 55);
        t.add("Build.VERSION.PREVIEW_SDK_INT", 56);
        t.add("Build.SUPPORTED_ABIS", 57);
        t.add("Build.SUPPORTED_32_BIT_ABIS", 58);
        t.add("Build.SUPPORTED_64_BIT_ABIS", 59);
        t.add("Build.getFingerprintedPartitions()", 60);
        t.add("uname -a", 61);
        t.add("uname -r", 62);
        t.add("pm list packages", 63);
        t.add("pm list packages -s", 64);
        t.add("pm list packages -3", 65);
        t.add("App Install Time", 66);
        t.add("App Last Update Time", 67);
        t.add("ro.system.build.date", 68);
        t.add("ro.system.build.date.utc", 69);
        t.add("ro.system.build.id", 70);
        t.add("ro.system.build.tags", 71);
        t.add("ro.system.build.type", 72);
        t.add("ro.system.build.version.incremental", 73);
        t.add("ro.system.build.version.release", 74);
        t.add("ro.system.build.version.release_or_codename", 75);
        t.add("ro.system.build.version.sdk", 76);
        t.add("ro.build.id", 77);
        t.add("ro.build.keys", 78);
        t.add("ro.build.version.incremental", 79);
        t.add("ro.build.version.sdk", 80);
        t.add("ro.build.version.preview_sdk", 81);
        t.add("ro.build.version.preview_sdk_fingerprint", 82);
        t.add("ro.build.version.codename", 83);
        t.add("ro.build.version.all_codenames", 84);
        t.add("ro.build.version.release", 85);
        t.add("ro.build.version.release_or_codename", 86);
        t.add("ro.build.version.security_patch", 87);
        t.add("ro.build.version.base_os", 88);
        t.add("ro.build.version.min_supported_target_sdk", 89);
        t.add("ro.build.date", 90);
        t.add("ro.build.date.utc", 91);
        t.add("ro.build.type", 92);
        t.add("ro.build.user", 93);
        t.add("ro.build.host", 94);
        t.add("ro.build.tags", 95);
        t.add("ro.build.flavor", 96);
        t.add("ro.build.system_root_image", 97);
        t.add("ro.product.cpu.abi", 98);
        t.add("ro.product.cpu.abilist", 99);
        t.add("ro.product.cpu.abilist32", 100);
        t.add("ro.product.cpu.abilist64", 101);
        t.add("ro.product.locale", 102);
        t.add("ro.wifi.channels", 103);
        t.add("ro.vendor.product.manufacturer.db", 104);
        t.add("ro.vendor.product.device.db", 105);
        t.add("rild.libpath", 106);
        t.add("persist.rild.nitz_plmn", 107);
        t.add("persist.rild.nitz_long_ons_0", 108);
        t.add("persist.rild.nitz_long_ons_1", 109);
        t.add("persist.rild.nitz_long_ons_2", 110);
        t.add("persist.rild.nitz_long_ons_3", 111);
        t.add("persist.rild.nitz_short_ons_0", 112);
        t.add("persist.rild.nitz_short_ons_1", 113);
        t.add("persist.rild.nitz_short_ons_2", 114);
        t.add("persist.rild.nitz_short_ons_3", 115);
        t.add("ril.subscription.types", 116);
        t.add("DEVICE_PROVISIONED", 117);
        t.add("ro.telephony.default_network", 118);
        t.add("persist.netmon.linger", 119);
        t.add("dalvik.vm.heapsize", 120);
        t.add("dev.pm.dyn_samplingrate", 121);
        t.add("qcom.hw.aac.encoder", 122);
        t.add("persist.vendor.cne.feature", 123);
        t.add("media.stagefright.enable-player", 124);
        t.add("media.stagefright.enable-http", 125);
        t.add("media.stagefright.enable-aac", 126);
        t.add("media.stagefright.enable-qcp", 127);
        t.add("media.stagefright.enable-fma2dp", 128);
        t.add("media.stagefright.enable-scan", 129);
        t.add("media.stagefright.thumbnail.prefer_hw_codecs", 130);
        t.add("mmp.enable.3g2", 131);
        t.add("media.aac_51_output_enabled", 132);
        t.add("media.settings.xml", 133);
        t.add("vendor.mm.enable.qcom_parser", 134);
        t.add("persist.mm.enable.prefetch", 135);
        t.add("ro.netflix.bsp_rev", 136);
        t.add("ro.vendor.use_data_netmgrd", 137);
        t.add("persist.vendor.data.mode", 138);
        t.add("persist.timed.enable", 139);
        t.add("telephony.lteOnCdmaDevice", 140);
        t.add("persist.fuse_sdcard", 141);
        t.add("ro.bluetooth.library_name", 142);
        t.add("persist.vendor.btstack.aac_frm_ctl.enabled", 143);
        t.add("persist.rmnet.data.enable", 144);
        t.add("persist.data.wda.enable", 145);
        t.add("persist.data.df.dl_mode", 146);
        t.add("persist.data.df.ul_mode", 147);
        t.add("persist.data.df.agg.dl_pkt", 148);
        t.add("persist.data.df.agg.dl_size", 149);
        t.add("persist.data.df.mux_count", 150);
        t.add("persist.data.df.iwlan_mux", 151);
        t.add("persist.data.df.dev_name", 152);
        t.add("persist.debug.wfd.enable", 153);
        t.add("persist.sys.wfd.virtual", 154);
        t.add("debug.sf.enable_hwc_vds", 155);
        t.add("debug.sf.latch_unsignaled", 156);
        t.add("tunnel.audio.encode", 157);
        t.add("use.voice.path.for.pcm.voip", 158);
        t.add("ro.nfc.port", 159);
        t.add("sys.qca1530", 160);
        t.add("persist.debug.coresight.config", 161);
        t.add("ro.hwui.texture_cache_size", 162);
        t.add("ro.hwui.layer_cache_size", 163);
        t.add("ro.hwui.r_buffer_cache_size", 164);
        t.add("ro.hwui.path_cache_size", 165);
        t.add("ro.hwui.gradient_cache_size", 166);
        t.add("ro.hwui.drop_shadow_cache_size", 167);
        t.add("ro.hwui.texture_cache_flushrate", 168);
        t.add("ro.hwui.text_small_cache_width", 169);
        t.add("ro.hwui.text_small_cache_height", 170);
        t.add("ro.hwui.text_large_cache_width", 171);
        t.add("ro.hwui.text_large_cache_height", 172);
        t.add("config.disable_rtt", 173);
        t.add("persist.sys.force_sw_gles", 174);
        t.add("persist.vendor.radio.atfwd.start", 175);
        t.add("ro.kernel.qemu.gles", 176);
        t.add("qemu.hw.mainkeys", 177);
        t.add("vendor.camera.aux.packagelist", 178);
        t.add("persist.vendor.camera.privapp.list", 179);
        t.add("persist.camera.privapp.list", 180);
        t.add("persist.vendor.overlay.izat.optin", 181);
        t.add("persist.backup.ntpServer", 182);
        t.add("persist.vendor.sensors.enable.mag_filter", 183);
        t.add("ro.product.property_source_order", 184);
        t.add("debug.stagefright.ccodec", 185);
        t.add("ro.media.recorder-max-base-layer-fps", 186);
        t.add("ro.charger.enable_suspend", 187);
        t.add("persist.vendor.btstack.enable.twsplus", 188);
        t.add("persist.vendor.bt.a2dp.hal.implementation", 189);
        t.add("persist.vendor.naruto.light.support", 190);
        t.add("ro.apex.updatable", 191);
        t.add("persist.vendor.btstack.enable.lpa", 192);
        t.add("ro.audio.monitorRotation", 193);
        t.add("persist.camera.assert.panic", 194);
        t.add("ro.opcamera.support", 195);
        t.add("persist.vendor.ims.disableADBLogs", 196);
        t.add("ro.gfx.driver.0", 197);
        t.add("ro.gfx.driver.1", 198);
        t.add("ro.treble.enabled", 199);
        t.add("net.bt.name", 200);
        t.add("ro.vendor.qti.va_aosp.support", 201);
        t.add("ro.system.build.fingerprint", 202);
        t.add("ro.product.system.brand", 203);
        t.add("ro.product.system.device", 204);
        t.add("ro.product.system.manufacturer", 205);
        t.add("ro.product.system.name", 206);
        t.add("ro.product.build.fingerprint", 207);
        t.add("ro.product.product.brand", 208);
        t.add("ro.product.product.device", 209);
        t.add("ro.product.product.manufacturer", 210);
        t.add("ro.product.product.name", 211);
        t.add("ro.build.region", 212);
        t.add("persist.sys.kernel", 213);
        t.add("persist.sys.main", 214);
        t.add("persist.sys.system", 215);
        t.add("persist.sys.radio", 216);
        t.add("persist.sys.event", 217);
        t.add("persist.sys.perf", 218);
        t.add("persist.sys.crash", 219);
        t.add("persist.sys.qxdm", 220);
        t.add("debug.sf.dump.primary", 221);
        t.add("debug.sf.dump.external", 222);
        t.add("debug.sf.dump.enable", 223);
        t.add("debug.sf.dump", 224);
        t.add("persist.sys.qsee", 225);
        t.add("persist.sys.tz", 226);
        t.add("persist.sys.bootloader", 227);
        t.add("persist.sys.tcpdump.logsize", 228);
        t.add("persist.sys.tcpdump.lognum", 229);
        t.add("persist.log.tag.FuseDaemon", 230);
        t.add("persist.sys.assert.panic", 231);
        t.add("persist.sys.assert.enable", 232);
        t.add("persist.sys.cfu_auto", 233);
        t.add("ro.imei.check", 234);
        t.add("ro.vendor.custom.image", 235);
        t.add("ro.vendor.update.india", 236);
        t.add("ro.build.os_type", 237);
        t.add("persist.sys.oem.region", 238);
        t.add("ro.build.real_device", 239);
        t.add("ro.build.product", 240);
        t.add("ro.product.device", 241);
        t.add("ro.build.date.Ymd", 242);
        t.add("ro.build.date.ymd", 243);
        t.add("ro.build.date.YmdHM", 244);
        t.add("ro.build.user", 245);
        t.add("ro.build.flavor", 246);
        t.add("ro.build.description", 247);
        t.add("ro.common.soft", 248);
        t.add("ro.build.release_type", 249);
        t.add("ro.build.soft.version", 250);
        t.add("ro.xxversion", 251);
        t.add("ro.build.kernel.id", 252);
        t.add("ro.display.series", 253);
        t.add("ro.build.ota.versionname", 254);
        t.add("ro.build.version.ota", 255);
        t.add("ro.build.soft.majorversion", 256);
        t.add("ro.product.brand", 257);
        t.add("ro.product.manufacturer", 258);
        t.add("persist.sys.timezone", 259);
        t.add("ro.rom.version", 260);
        t.add("persist.vendor.ssr.enable_ramdumps", 261);
        t.add("ro.build.stanv.ab", 262);
        t
    }

    /// The declared keys, in declaration order (duplicates included).
    pub fn keys(&self) -> (keys: Vec<String>)
        ensures
            keys@.len() == self@.len(),
            forall|i: int| 0 <= i < self@.len() ==> (#[trigger] keys@[i])@ == self@[i].0,
    {
        let mut keys: Vec<String> = Vec::new();
        let mut i: usize = 0;
        while i < self.entries.len()
            invariant
                i <= self.entries.len(),
                self.entries@.len() == self@.len(),
                keys@.len() == i as int,
                forall|j: int| 0 <= j < i as int ==> (#[trigger] keys@[j])@ == self@[j].0,
            decreases self.entries.len() - i,
        {
            keys.push(self.entries[i].0.clone());
            i = i + 1;
        }
        keys
    }

    /// Route a key through the table: scan the declarations from the end, so
    /// that the later of two declarations of the same key wins.
    pub fn find(&self, key: &str) -> (r: Option<usize>)
        ensures
            r == lookup(self@, key@),
    {
        let owned: String = key.to_owned();
        let mut i: usize = self.entries.len();
        proof {
            assert(self@.take(i as int) =~= self@);
        }
        while i > 0
            invariant
                i <= self.entries.len(),
                self.entries@.len() == self@.len(),
                owned@ == key@,
                lookup(self@, key@) == lookup(self@.take(i as int), key@),
            decreases i,
        {
            i = i - 1;
            let entry = &self.entries[i];
            proof {
                assert(self@[i as int] == (entry.0@, entry.1));
                assert(self@.take(i as int + 1).last() == self@[i as int]);
                assert(self@.take(i as int + 1).drop_last() =~= self@.take(i as int));
            }
            if entry.0 == owned {
                return Some(entry.1);
            }
        }
        proof {
            assert(self@.take(0) =~= Seq::<(Seq<char>, usize)>::empty());
        }
        None
    }
}

/// A successful route names a registry slot, whenever every declaration does.
pub proof fn lemma_lookup_in_bounds(entries: Seq<(Seq<char>, usize)>, key: Seq<char>)
    requires
        forall|i: int| 0 <= i < entries.len() ==> (#[trigger] entries[i]).1 < HANDLER_COUNT,
    ensures
        lookup(entries, key) matches Some(id) ==> id < HANDLER_COUNT,
    decreases entries.len(),
{
    if entries.len() > 0 && entries.last().0 != key {
        lemma_lookup_in_bounds(entries.drop_last(), key);
    }
}

/// Law: the later declaration wins.  When a key is declared at position `i`
/// and nowhere after it, routing returns the identifier declared at `i` --
/// in particular, for a key declared twice, the second declaration's handler.
pub proof fn lemma_lookup_takes_last_declaration(
    entries: Seq<(Seq<char>, usize)>,
    key: Seq<char>,
    i: int,
)
    requires
        0 <= i < entries.len(),
        entries[i].0 == key,
        forall|j: int| i < j < entries.len() ==> (#[trigger] entries[j]).0 != key,
    ensures
        lookup(entries, key) == Some(entries[i].1),
    decreases entries.len(),
{
    if i < entries.len() - 1 {
        lemma_lookup_takes_last_declaration(entries.drop_last(), key, i);
    }
}

/// Law: routing misses exactly when no declaration's key matches.
pub proof fn lemma_lookup_none_iff_no_match(entries: Seq<(Seq<char>, usize)>, key: Seq<char>)
    ensures
        lookup(entries, key) is None <==> (forall|j: int|
            0 <= j < entries.len() ==> (#[trigger] entries[j]).0 != key),
    decreases entries.len(),
{
    if entries.len() > 0 {
        lemma_lookup_none_iff_no_match(entries.drop_last(), key);
        assert forall|j: int| 0 <= j < entries.len() - 1 implies (#[trigger] entries[j]).0
            == entries.drop_last()[j].0 by {
            assert(entries.drop_last()[j] == entries[j]);
        }
    }
}

} // verus!
