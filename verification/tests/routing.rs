use lib::messages::{ReplyPayload, CHANNEL_SHARED_APP_RUN, CHANNEL_WEATHER_METHOD};
use lib::routing::{route_platform_message, Route};

fn reply(channel: &[u8], payload: &[u8]) -> ReplyPayload {
    route_platform_message(channel, payload, false, false).reply
}

fn only(reply: ReplyPayload) -> Route {
    Route { reply, announce_ready: false, location_served: false }
}

#[test]
fn pigeon_shared_preferences_replies() {
    let prefix = b"dev.flutter.pigeon.shared_preferences_android.SharedPreferencesApi.";
    let mut get_all = prefix.to_vec();
    get_all.extend_from_slice(b"getAll");
    let mut clear = prefix.to_vec();
    clear.extend_from_slice(b"clear");
    assert_eq!(reply(&get_all, b""), ReplyPayload::PigeonEmptyMapReply);
    assert_eq!(reply(&clear, b""), ReplyPayload::PigeonNullReply);
    assert_eq!(ReplyPayload::PigeonEmptyMapReply.bytes(), &[0x0c, 0x01, 0x0d, 0x00]);
    assert_eq!(ReplyPayload::PigeonNullReply.bytes(), &[0x0c, 0x01, 0x00]);
}

#[test]
fn native_ready_announces() {
    assert_eq!(
        route_platform_message(b"com.xiaomi.hyperos/native_ready", b"anything", false, false),
        Route { reply: ReplyPayload::JsonTrue, announce_ready: true, location_served: false }
    );
    assert_eq!(ReplyPayload::JsonTrue.bytes(), b"[true]");
}

#[test]
fn package_manager_reports_package_info() {
    assert_eq!(reply(b"com.android.package.manager.method.channel", b"{}"), ReplyPayload::JsonPackageInfo);
    assert_eq!(
        ReplyPayload::JsonPackageInfo.bytes(),
        &b"[{\"versionName\":\"[IP]-R-Snow-v18-hybrid\",\"versionCode\":180000255,\"lastUpdateTime\":0,\"applicationInfo\":{\"flags\":0,\"enabled\":true}}]"[..]
    );
}

#[test]
fn system_properties_replies() {
    let c = b"com.android.os.system.properties.method.channel";
    assert_eq!(reply(c, b"{\"method\":\"getAll\"}"), ReplyPayload::JsonEmptyMap);
    assert_eq!(reply(c, b"{\"method\":\"getString\",\"args\":[\"ro.miui.region\"]}"), ReplyPayload::JsonCnRegion);
    assert_eq!(reply(c, b"{\"method\":\"getString\",\"args\":[\"ro.product.country\"]}"), ReplyPayload::JsonCnRegion);
    assert_eq!(reply(c, b"{\"method\":\"getString\",\"args\":[\"persist.sys.locale\"]}"), ReplyPayload::JsonZhCn);
    assert_eq!(reply(c, b"{\"method\":\"getString\",\"args\":[\"ro.product.locale\"]}"), ReplyPayload::JsonZhCn);
    assert_eq!(reply(c, b"{\"method\":\"getString\",\"args\":[\"ro.build.id\"]}"), ReplyPayload::JsonFalseString);
    assert_eq!(reply(c, b"{\"method\":\"getInt\"}"), ReplyPayload::JsonZero);
    assert_eq!(reply(c, b"{\"method\":\"getLong\"}"), ReplyPayload::JsonZero);
    assert_eq!(reply(c, b"{\"method\":\"getBoolean\"}"), ReplyPayload::JsonFalse);
    assert_eq!(reply(c, b"{\"method\":\"set\"}"), ReplyPayload::JsonNull);
    assert_eq!(ReplyPayload::JsonCnRegion.bytes(), b"[\"CN\"]");
    assert_eq!(ReplyPayload::JsonZhCn.bytes(), b"[\"zh-CN\"]");
    assert_eq!(ReplyPayload::JsonFalseString.bytes(), b"[\"false\"]");
}

#[test]
fn shared_preferences_root_opens() {
    let c = b"hyperos/shared_preferences";
    assert_eq!(reply(c, b"{\"method\":\"open\",\"args\":\"com.miui.providers.weather.apprun\"}"), ReplyPayload::JsonSharedAppRunOpen);
    assert_eq!(reply(c, b"{\"method\":\"open\",\"args\":\"prefs\"}"), ReplyPayload::JsonSharedOpen);
    assert_eq!(reply(c, b"{\"method\":\"close\"}"), ReplyPayload::JsonNull);
    assert_eq!(ReplyPayload::JsonSharedOpen.bytes(), b"[\"SnowWeatherPrefs\"]");
}

#[test]
fn app_run_preferences_follow_agreement() {
    let c = CHANNEL_SHARED_APP_RUN.as_bytes();
    assert_eq!(route_platform_message(c, b"\x07\x06reload", true, false).reply, ReplyPayload::StandardAppRunTrueMap);
    assert_eq!(route_platform_message(c, b"\x07\x06getAll", false, false).reply, ReplyPayload::StandardEmptyMap);
    assert_eq!(route_platform_message(c, b"\x07\x03put", true, false).reply, ReplyPayload::StandardNull);
    assert_eq!(
        ReplyPayload::StandardAppRunTrueMap.bytes(),
        &[0x00, 0x0d, 0x01, 0x07, 0x07, b'a', b'p', b'p', b'_', b'r', b'u', b'n', 0x01]
    );
    assert_eq!(ReplyPayload::StandardEmptyMap.bytes(), &[0x00, 0x0d, 0x00]);
}

#[test]
fn weather_prefs_child_channel() {
    let c = b"SnowWeatherPrefs";
    assert_eq!(reply(c, b"\x07\x06reload"), ReplyPayload::StandardEmptyMap);
    assert_eq!(reply(c, b"\x07\x06remove"), ReplyPayload::StandardNull);
    assert_eq!(reply(c, b"{\"method\":\"getAll\"}"), ReplyPayload::StandardNull);
}

#[test]
fn device_level_configuration_and_info() {
    let d = b"com.miui.performance.devicelevelutils.method.channel";
    assert_eq!(reply(d, b"{\"method\":\"getDeviceLevel\"}"), ReplyPayload::JsonDeviceFlagship);
    assert_eq!(reply(d, b"{\"method\":\"getMiuiLiteVersion\"}"), ReplyPayload::JsonZero);
    assert_eq!(reply(d, b"{\"method\":\"other\"}"), ReplyPayload::JsonNull);
    let c = b"com.xiaomi.hyperos/configuration";
    assert_eq!(reply(c, b"{\"method\":\"getRoundedCorners\"}"), ReplyPayload::JsonZeroCorners);
    assert_eq!(reply(c, b"{\"method\":\"configuration\"}"), ReplyPayload::JsonConfiguration);
    assert_eq!(reply(c, b"{\"method\":\"x\"}"), ReplyPayload::JsonNull);
    assert_eq!(reply(b"com.xiaomi.hyperos/rounded_corner", b"{}"), ReplyPayload::JsonEmptyList);
    let i = b"com.xiaomi.hyperos/device_info";
    assert_eq!(reply(i, b"{\"method\":\"getDeviceInfo\"}"), ReplyPayload::JsonEmptyMap);
    assert_eq!(reply(i, b"{\"method\":\"isCapabilitySupported\"}"), ReplyPayload::JsonFalse);
    assert_eq!(reply(i, b"{\"method\":\"x\"}"), ReplyPayload::JsonNull);
    assert!(ReplyPayload::JsonConfiguration.bytes().starts_with(b"[{\"screen_layout\":0,"));
    assert!(ReplyPayload::JsonConfiguration.bytes().ends_with(b"\"dm_y_dpi\":440}]"));
}

#[test]
fn material_navigation_and_settings() {
    let m = b"com.xiaomi.hyperos/hyper_material";
    assert_eq!(reply(m, b"{\"method\":\"getGlassCapability\"}"), ReplyPayload::JsonGlassUnsupported);
    assert_eq!(reply(m, b"{\"method\":\"getMaterialStyle\"}"), ReplyPayload::JsonZero);
    assert_eq!(reply(b"com.xiaomi.hyperos/system_navigation", b"{\"method\":\"getNavigationMode\"}"), ReplyPayload::JsonNavigationMode);
    assert_eq!(ReplyPayload::JsonNavigationMode.bytes(), b"[2]");
    let s = b"com.android.os.provider.settings.method.channel";
    assert_eq!(reply(s, b"\x07\x07getLong\x07\x0fnavigation_mode"), ReplyPayload::StandardIntTwo);
    assert_eq!(reply(s, b"\x07\x07getLong\x07\x0dlocation_mode"), ReplyPayload::StandardIntThree);
    assert_eq!(reply(s, b"\x07\x07getLong\x07\x03abc"), ReplyPayload::StandardIntZero);
    assert_eq!(reply(s, b"\x07\x06getInt"), ReplyPayload::StandardNull);
    assert_eq!(ReplyPayload::StandardIntThree.bytes(), &[0x00, 0x03, 0x03, 0x00, 0x00, 0x00]);
}

#[test]
fn location_channels_serve_test_location() {
    for c in [&b"xms_location"[..], &b"weather_location"[..]] {
        assert_eq!(
            route_platform_message(c, b"{\"method\":\"locationFromNlp\"}", false, false),
            Route { reply: ReplyPayload::JsonLocationTest, announce_ready: false, location_served: true }
        );
        assert_eq!(route_platform_message(c, b"{\"method\":\"stop\"}", false, false), only(ReplyPayload::JsonNull));
    }
    assert!(ReplyPayload::JsonLocationTest.bytes().starts_with(b"[\"{\\\"mLatitude\\\":23.108,"));
}

#[test]
fn weather_method_channel_replies() {
    let c = CHANNEL_WEATHER_METHOD.as_bytes();
    assert_eq!(reply(c, b"{\"method\":\"get_device_com_level\"}"), ReplyPayload::JsonSix);
    assert_eq!(reply(c, b"{\"method\":\"get_device_com_version\"}"), ReplyPayload::Json2025);
    assert_eq!(reply(c, b"{\"method\":\"get_job_is_working\"}"), ReplyPayload::JsonFalse);
    assert_eq!(reply(c, b"{\"method\":\"requestScheduleTask\"}"), ReplyPayload::JsonTrue);
    assert_eq!(reply(c, b"{\"method\":\"get_network_country_iso\"}"), ReplyPayload::JsonCn);
    assert_eq!(reply(c, b"{\"method\":\"get_network_info_is_connected\"}"), ReplyPayload::JsonTrue);
    assert_eq!(route_platform_message(c, b"{\"method\":\"check_permission\"}", false, true).reply, ReplyPayload::JsonZero);
    assert_eq!(route_platform_message(c, b"{\"method\":\"check_permission\"}", true, false).reply, ReplyPayload::JsonMinusOne);
    assert_eq!(reply(c, b"{\"method\":\"track_page_event\"}"), ReplyPayload::JsonTrue);
    assert_eq!(reply(c, b"{\"method\":\"unknown\"}"), ReplyPayload::JsonNull);
    assert_eq!(ReplyPayload::JsonMinusOne.bytes(), b"[-1]");
    assert_eq!(ReplyPayload::Json2025.bytes(), b"[2025]");
}

#[test]
fn basic_intent_shortcut_bridge_plugins() {
    assert_eq!(reply(b"weather_channel", b"\x07\x0cget_app_path"), ReplyPayload::BasicAppPath);
    assert_eq!(reply(b"weather_channel", b"\x07\x03foo"), ReplyPayload::BasicNull);
    assert_eq!(ReplyPayload::BasicAppPath.bytes(), b"\x07\x21/data/user_de/0/com.miui.weather3");
    let i = b"com.android.content.intent.method.channel";
    assert_eq!(reply(i, b"{\"method\":\"startActivity\"}"), ReplyPayload::JsonTrue);
    assert_eq!(reply(i, b"{\"method\":\"x\"}"), ReplyPayload::JsonNull);
    let s = b"com.android.content.shortcut.method.channel";
    assert_eq!(reply(s, b"{\"method\":\"getDynamicShortcuts\"}"), ReplyPayload::JsonEmptyString);
    assert_eq!(reply(s, b"{\"method\":\"updateShortcuts\"}"), ReplyPayload::JsonTrue);
    assert_eq!(ReplyPayload::JsonEmptyString.bytes(), b"[\"[]\"]");
    assert_eq!(reply(b"com.miui.hyper.system_bridge", b"\x07\x10is_user_unlocked"), ReplyPayload::StandardTrue);
    assert_eq!(reply(b"com.miui.hyper.system_bridge", b"\x07\x01x"), ReplyPayload::StandardNull);
    assert_eq!(reply(b"plugins.flutter.io/shared_preferences", b"\x07\x06getAll"), ReplyPayload::StandardEmptyMap);
    assert_eq!(reply(b"plugins.flutter.io/path_provider", b"\x07\x01x"), ReplyPayload::StandardNull);
    assert_eq!(reply(b"plugins.flutter.io/url_launcher", b"\x07\x01x"), ReplyPayload::StandardFalse);
    assert_eq!(reply(b"com.xiaomi.hyperos/haptic", b"{}"), ReplyPayload::StandardNull);
    assert_eq!(reply(b"com.xiaomi.hyperos/trace", b"{}"), ReplyPayload::StandardNull);
    assert_eq!(ReplyPayload::StandardFalse.bytes(), &[0x00, 0x02]);
}

#[test]
fn unknown_channels_reply_null_in_their_codec() {
    assert_eq!(reply(b"some/channel", b" {\"method\":\"x\"}"), ReplyPayload::JsonNull);
    assert_eq!(reply(b"some/channel", b"\x07\x01x"), ReplyPayload::StandardNull);
    assert_eq!(reply(b"some/channel", b""), ReplyPayload::StandardNull);
    assert_eq!(ReplyPayload::JsonNull.bytes(), b"[null]");
    assert_eq!(ReplyPayload::StandardNull.bytes(), &[0x00, 0x00]);
    assert_eq!(ReplyPayload::BasicNull.bytes(), &[0x00]);
}
