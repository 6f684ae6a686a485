//! The routing table, stated channel by channel: which reply each kind of
//! message gets.
use vstd::prelude::*;
use vstd::string::StringSliceAdditionalSpecFns;
use crate::bytes::seq_contains;
use crate::codec::standard_method_name;
use crate::messages::{
    CHANNEL_CONFIGURATION,
    CHANNEL_DEVICE_INFO,
    CHANNEL_DEVICE_LEVEL,
    CHANNEL_HAPTIC,
    CHANNEL_HYPER_MATERIAL,
    CHANNEL_INTENT,
    CHANNEL_NATIVE_READY,
    CHANNEL_PACKAGE_MANAGER,
    CHANNEL_PATH_PROVIDER,
    CHANNEL_ROUNDED_CORNER,
    CHANNEL_SETTINGS,
    CHANNEL_SHARED_APP_RUN,
    CHANNEL_SHARED_CHILD,
    CHANNEL_SHARED_PLUGIN,
    CHANNEL_SHARED_ROOT,
    CHANNEL_SHORTCUT,
    CHANNEL_SYSTEM_BRIDGE,
    CHANNEL_SYSTEM_NAVIGATION,
    CHANNEL_SYSTEM_PROPERTIES,
    CHANNEL_TRACE,
    CHANNEL_URL_LAUNCHER,
    CHANNEL_WEATHER_BASIC,
    CHANNEL_WEATHER_LOCATION,
    CHANNEL_WEATHER_METHOD,
    CHANNEL_XMS_LOCATION,
    PIGEON_SHARED_PREFS_PREFIX,
    ReplyPayload,
};
use crate::routing::{route_of, Route};

verus! {

broadcast use vstd::string::is_ascii_spec_bytes;

/// The router's channel names are pairwise different and shorter than the
/// pigeon prefix, so no named channel is mistaken for another.
proof fn lemma_channel_facts()
    ensures
        PIGEON_SHARED_PREFS_PREFIX.spec_bytes().len() == 67,
        CHANNEL_NATIVE_READY.spec_bytes().len() == 31,
        CHANNEL_PACKAGE_MANAGER.spec_bytes().len() == 42,
        CHANNEL_SYSTEM_PROPERTIES.spec_bytes().len() == 47,
        CHANNEL_SHARED_ROOT.spec_bytes().len() == 26,
        CHANNEL_SHARED_APP_RUN.spec_bytes().len() == 17,
        CHANNEL_SHARED_CHILD.spec_bytes().len() == 16,
        CHANNEL_DEVICE_LEVEL.spec_bytes().len() == 52,
        CHANNEL_CONFIGURATION.spec_bytes().len() == 32,
        CHANNEL_ROUNDED_CORNER.spec_bytes().len() == 33,
        CHANNEL_DEVICE_INFO.spec_bytes().len() == 30,
        CHANNEL_HYPER_MATERIAL.spec_bytes().len() == 33,
        CHANNEL_SYSTEM_NAVIGATION.spec_bytes().len() == 36,
        CHANNEL_SETTINGS.spec_bytes().len() == 47,
        CHANNEL_XMS_LOCATION.spec_bytes().len() == 12,
        CHANNEL_WEATHER_LOCATION.spec_bytes().len() == 16,
        CHANNEL_WEATHER_METHOD.spec_bytes().len() == 22,
        CHANNEL_WEATHER_BASIC.spec_bytes().len() == 15,
        CHANNEL_INTENT.spec_bytes().len() == 41,
        CHANNEL_SHORTCUT.spec_bytes().len() == 43,
        CHANNEL_SYSTEM_BRIDGE.spec_bytes().len() == 28,
        CHANNEL_SHARED_PLUGIN.spec_bytes().len() == 37,
        CHANNEL_PATH_PROVIDER.spec_bytes().len() == 32,
        CHANNEL_URL_LAUNCHER.spec_bytes().len() == 31,
        CHANNEL_HAPTIC.spec_bytes().len() == 25,
        CHANNEL_TRACE.spec_bytes().len() == 24,
        CHANNEL_NATIVE_READY.spec_bytes() != CHANNEL_URL_LAUNCHER.spec_bytes(),
        CHANNEL_SYSTEM_PROPERTIES.spec_bytes() != CHANNEL_SETTINGS.spec_bytes(),
        CHANNEL_SHARED_CHILD.spec_bytes() != CHANNEL_WEATHER_LOCATION.spec_bytes(),
        CHANNEL_CONFIGURATION.spec_bytes() != CHANNEL_PATH_PROVIDER.spec_bytes(),
        CHANNEL_ROUNDED_CORNER.spec_bytes() != CHANNEL_HYPER_MATERIAL.spec_bytes(),
{
    reveal_strlit("dev.flutter.pigeon.shared_preferences_android.SharedPreferencesApi.");
    assert(vstd::string::is_ascii(PIGEON_SHARED_PREFS_PREFIX));
    reveal_strlit("com.xiaomi.hyperos/native_ready");
    assert(vstd::string::is_ascii(CHANNEL_NATIVE_READY));
    reveal_strlit("com.android.package.manager.method.channel");
    assert(vstd::string::is_ascii(CHANNEL_PACKAGE_MANAGER));
    reveal_strlit("com.android.os.system.properties.method.channel");
    assert(vstd::string::is_ascii(CHANNEL_SYSTEM_PROPERTIES));
    reveal_strlit("hyperos/shared_preferences");
    assert(vstd::string::is_ascii(CHANNEL_SHARED_ROOT));
    reveal_strlit("SnowWeatherAppRun");
    assert(vstd::string::is_ascii(CHANNEL_SHARED_APP_RUN));
    reveal_strlit("SnowWeatherPrefs");
    assert(vstd::string::is_ascii(CHANNEL_SHARED_CHILD));
    reveal_strlit("com.miui.performance.devicelevelutils.method.channel");
    assert(vstd::string::is_ascii(CHANNEL_DEVICE_LEVEL));
    reveal_strlit("com.xiaomi.hyperos/configuration");
    assert(vstd::string::is_ascii(CHANNEL_CONFIGURATION));
    reveal_strlit("com.xiaomi.hyperos/rounded_corner");
    assert(vstd::string::is_ascii(CHANNEL_ROUNDED_CORNER));
    reveal_strlit("com.xiaomi.hyperos/device_info");
    assert(vstd::string::is_ascii(CHANNEL_DEVICE_INFO));
    reveal_strlit("com.xiaomi.hyperos/hyper_material");
    assert(vstd::string::is_ascii(CHANNEL_HYPER_MATERIAL));
    reveal_strlit("com.xiaomi.hyperos/system_navigation");
    assert(vstd::string::is_ascii(CHANNEL_SYSTEM_NAVIGATION));
    reveal_strlit("com.android.os.provider.settings.method.channel");
    assert(vstd::string::is_ascii(CHANNEL_SETTINGS));
    reveal_strlit("xms_location");
    assert(vstd::string::is_ascii(CHANNEL_XMS_LOCATION));
    reveal_strlit("weather_location");
    assert(vstd::string::is_ascii(CHANNEL_WEATHER_LOCATION));
    reveal_strlit("weather_method_channel");
    assert(vstd::string::is_ascii(CHANNEL_WEATHER_METHOD));
    reveal_strlit("weather_channel");
    assert(vstd::string::is_ascii(CHANNEL_WEATHER_BASIC));
    reveal_strlit("com.android.content.intent.method.channel");
    assert(vstd::string::is_ascii(CHANNEL_INTENT));
    reveal_strlit("com.android.content.shortcut.method.channel");
    assert(vstd::string::is_ascii(CHANNEL_SHORTCUT));
    reveal_strlit("com.miui.hyper.system_bridge");
    assert(vstd::string::is_ascii(CHANNEL_SYSTEM_BRIDGE));
    reveal_strlit("plugins.flutter.io/shared_preferences");
    assert(vstd::string::is_ascii(CHANNEL_SHARED_PLUGIN));
    reveal_strlit("plugins.flutter.io/path_provider");
    assert(vstd::string::is_ascii(CHANNEL_PATH_PROVIDER));
    reveal_strlit("plugins.flutter.io/url_launcher");
    assert(vstd::string::is_ascii(CHANNEL_URL_LAUNCHER));
    reveal_strlit("com.xiaomi.hyperos/haptic");
    assert(vstd::string::is_ascii(CHANNEL_HAPTIC));
    reveal_strlit("com.xiaomi.hyperos/trace");
    assert(vstd::string::is_ascii(CHANNEL_TRACE));
    assert(CHANNEL_NATIVE_READY.spec_bytes()[0] != CHANNEL_URL_LAUNCHER.spec_bytes()[0]);
    assert(CHANNEL_SYSTEM_PROPERTIES.spec_bytes()[15] != CHANNEL_SETTINGS.spec_bytes()[15]);
    assert(CHANNEL_SHARED_CHILD.spec_bytes()[0] != CHANNEL_WEATHER_LOCATION.spec_bytes()[0]);
    assert(CHANNEL_CONFIGURATION.spec_bytes()[0] != CHANNEL_PATH_PROVIDER.spec_bytes()[0]);
    assert(CHANNEL_ROUNDED_CORNER.spec_bytes()[19] != CHANNEL_HYPER_MATERIAL.spec_bytes()[19]);
}

/// A byte string never contains a longer one.
proof fn lemma_shorter_lacks(haystack: Seq<u8>, needle: Seq<u8>)
    requires
        needle.len() > haystack.len(),
    ensures
        !seq_contains(haystack, needle),
{
}

/// Law: how messages on `CHANNEL_SYSTEM_PROPERTIES` are answered, by the method they call.
pub proof fn lemma_system_properties_routes(payload: Seq<u8>, user_agreed: bool, location_granted: bool)
    ensures
        ((seq_contains(payload, "getAll".spec_bytes()))) ==> route_of(CHANNEL_SYSTEM_PROPERTIES.spec_bytes(), payload, user_agreed, location_granted) == (Route { reply: ReplyPayload::JsonEmptyMap, announce_ready: false, location_served: false }),
        ((seq_contains(payload, "getString".spec_bytes())) && !(seq_contains(payload, "getAll".spec_bytes())) && (seq_contains(payload, "ro.miui.region".spec_bytes()) || seq_contains(payload, "ro.product.country".spec_bytes()))) ==> route_of(CHANNEL_SYSTEM_PROPERTIES.spec_bytes(), payload, user_agreed, location_granted) == (Route { reply: ReplyPayload::JsonCnRegion, announce_ready: false, location_served: false }),
        ((seq_contains(payload, "getString".spec_bytes())) && !(seq_contains(payload, "getAll".spec_bytes())) && (seq_contains(payload, "persist.sys.locale".spec_bytes()) || seq_contains(payload, "ro.product.locale".spec_bytes()) || seq_contains(payload, "ro.product.locale.language".spec_bytes())) && !(seq_contains(payload, "ro.miui.region".spec_bytes()) || seq_contains(payload, "ro.product.country".spec_bytes()))) ==> route_of(CHANNEL_SYSTEM_PROPERTIES.spec_bytes(), payload, user_agreed, location_granted) == (Route { reply: ReplyPayload::JsonZhCn, announce_ready: false, location_served: false }),
        ((seq_contains(payload, "getString".spec_bytes())) && !(seq_contains(payload, "getAll".spec_bytes())) && !(seq_contains(payload, "ro.miui.region".spec_bytes()) || seq_contains(payload, "ro.product.country".spec_bytes())) && !(seq_contains(payload, "persist.sys.locale".spec_bytes()) || seq_contains(payload, "ro.product.locale".spec_bytes()) || seq_contains(payload, "ro.product.locale.language".spec_bytes()))) ==> route_of(CHANNEL_SYSTEM_PROPERTIES.spec_bytes(), payload, user_agreed, location_granted) == (Route { reply: ReplyPayload::JsonFalseString, announce_ready: false, location_served: false }),
        ((seq_contains(payload, "getInt".spec_bytes()) || seq_contains(payload, "getLong".spec_bytes())) && !(seq_contains(payload, "getAll".spec_bytes())) && !(seq_contains(payload, "getString".spec_bytes()))) ==> route_of(CHANNEL_SYSTEM_PROPERTIES.spec_bytes(), payload, user_agreed, location_granted) == (Route { reply: ReplyPayload::JsonZero, announce_ready: false, location_served: false }),
        ((seq_contains(payload, "getBool".spec_bytes()) || seq_contains(payload, "getBoolean".spec_bytes())) && !(seq_contains(payload, "getAll".spec_bytes())) && !(seq_contains(payload, "getString".spec_bytes())) && !(seq_contains(payload, "getInt".spec_bytes()) || seq_contains(payload, "getLong".spec_bytes()))) ==> route_of(CHANNEL_SYSTEM_PROPERTIES.spec_bytes(), payload, user_agreed, location_granted) == (Route { reply: ReplyPayload::JsonFalse, announce_ready: false, location_served: false }),
        (!(seq_contains(payload, "getAll".spec_bytes())) && !(seq_contains(payload, "getString".spec_bytes())) && !(seq_contains(payload, "getInt".spec_bytes()) || seq_contains(payload, "getLong".spec_bytes())) && !(seq_contains(payload, "getBool".spec_bytes()) || seq_contains(payload, "getBoolean".spec_bytes()))) ==> route_of(CHANNEL_SYSTEM_PROPERTIES.spec_bytes(), payload, user_agreed, location_granted) == (Route { reply: ReplyPayload::JsonNull, announce_ready: false, location_served: false }),
{
    lemma_channel_facts();
    lemma_shorter_lacks(CHANNEL_SYSTEM_PROPERTIES.spec_bytes(), PIGEON_SHARED_PREFS_PREFIX.spec_bytes());
}

/// Law: how messages on `CHANNEL_SHARED_ROOT` are answered, by the method they call.
pub proof fn lemma_shared_root_routes(payload: Seq<u8>, user_agreed: bool, location_granted: bool)
    ensures
        ((seq_contains(payload, "open".spec_bytes())) && (seq_contains(payload, "com.miui.providers.weather.apprun".spec_bytes()))) ==> route_of(CHANNEL_SHARED_ROOT.spec_bytes(), payload, user_agreed, location_granted) == (Route { reply: ReplyPayload::JsonSharedAppRunOpen, announce_ready: false, location_served: false }),
        ((seq_contains(payload, "open".spec_bytes())) && !(seq_contains(payload, "com.miui.providers.weather.apprun".spec_bytes()))) ==> route_of(CHANNEL_SHARED_ROOT.spec_bytes(), payload, user_agreed, location_granted) == (Route { reply: ReplyPayload::JsonSharedOpen, announce_ready: false, location_served: false }),
        (!(seq_contains(payload, "open".spec_bytes()))) ==> route_of(CHANNEL_SHARED_ROOT.spec_bytes(), payload, user_agreed, location_granted) == (Route { reply: ReplyPayload::JsonNull, announce_ready: false, location_served: false }),
{
    lemma_channel_facts();
    lemma_shorter_lacks(CHANNEL_SHARED_ROOT.spec_bytes(), PIGEON_SHARED_PREFS_PREFIX.spec_bytes());
}

/// Law: how messages on `CHANNEL_SHARED_APP_RUN` are answered, by the method they call.
pub proof fn lemma_shared_app_run_routes(payload: Seq<u8>, user_agreed: bool, location_granted: bool)
    ensures
        ((standard_method_name(payload) == Some("reload".spec_bytes()) || standard_method_name(payload) == Some("getAll".spec_bytes()))) ==> route_of(CHANNEL_SHARED_APP_RUN.spec_bytes(), payload, user_agreed, location_granted) == (Route { reply: if user_agreed { ReplyPayload::StandardAppRunTrueMap } else { ReplyPayload::StandardEmptyMap }, announce_ready: false, location_served: false }),
        (!(standard_method_name(payload) == Some("reload".spec_bytes()) || standard_method_name(payload) == Some("getAll".spec_bytes()))) ==> route_of(CHANNEL_SHARED_APP_RUN.spec_bytes(), payload, user_agreed, location_granted) == (Route { reply: ReplyPayload::StandardNull, announce_ready: false, location_served: false }),
{
    lemma_channel_facts();
    lemma_shorter_lacks(CHANNEL_SHARED_APP_RUN.spec_bytes(), PIGEON_SHARED_PREFS_PREFIX.spec_bytes());
}

/// Law: how messages on `CHANNEL_SHARED_CHILD` are answered, by the method they call.
pub proof fn lemma_shared_child_routes(payload: Seq<u8>, user_agreed: bool, location_granted: bool)
    ensures
        ((standard_method_name(payload) == Some("reload".spec_bytes()) || standard_method_name(payload) == Some("getAll".spec_bytes()))) ==> route_of(CHANNEL_SHARED_CHILD.spec_bytes(), payload, user_agreed, location_granted) == (Route { reply: ReplyPayload::StandardEmptyMap, announce_ready: false, location_served: false }),
        (!(standard_method_name(payload) == Some("reload".spec_bytes()) || standard_method_name(payload) == Some("getAll".spec_bytes()))) ==> route_of(CHANNEL_SHARED_CHILD.spec_bytes(), payload, user_agreed, location_granted) == (Route { reply: ReplyPayload::StandardNull, announce_ready: false, location_served: false }),
{
    lemma_channel_facts();
    lemma_shorter_lacks(CHANNEL_SHARED_CHILD.spec_bytes(), PIGEON_SHARED_PREFS_PREFIX.spec_bytes());
}

/// Law: how messages on `CHANNEL_DEVICE_LEVEL` are answered, by the method they call.
pub proof fn lemma_device_level_routes(payload: Seq<u8>, user_agreed: bool, location_granted: bool)
    ensures
        ((seq_contains(payload, "getDeviceLevel".spec_bytes()))) ==> route_of(CHANNEL_DEVICE_LEVEL.spec_bytes(), payload, user_agreed, location_granted) == (Route { reply: ReplyPayload::JsonDeviceFlagship, announce_ready: false, location_served: false }),
        ((seq_contains(payload, "getMiuiMiddleVersion".spec_bytes()) || seq_contains(payload, "getMiuiLiteVersion".spec_bytes())) && !(seq_contains(payload, "getDeviceLevel".spec_bytes()))) ==> route_of(CHANNEL_DEVICE_LEVEL.spec_bytes(), payload, user_agreed, location_granted) == (Route { reply: ReplyPayload::JsonZero, announce_ready: false, location_served: false }),
        (!(seq_contains(payload, "getDeviceLevel".spec_bytes())) && !(seq_contains(payload, "getMiuiMiddleVersion".spec_bytes()) || seq_contains(payload, "getMiuiLiteVersion".spec_bytes()))) ==> route_of(CHANNEL_DEVICE_LEVEL.spec_bytes(), payload, user_agreed, location_granted) == (Route { reply: ReplyPayload::JsonNull, announce_ready: false, location_served: false }),
{
    lemma_channel_facts();
    lemma_shorter_lacks(CHANNEL_DEVICE_LEVEL.spec_bytes(), PIGEON_SHARED_PREFS_PREFIX.spec_bytes());
}

/// Law: how messages on `CHANNEL_CONFIGURATION` are answered, by the method they call.
pub proof fn lemma_configuration_routes(payload: Seq<u8>, user_agreed: bool, location_granted: bool)
    ensures
        ((seq_contains(payload, "roundedCorner".spec_bytes()) || seq_contains(payload, "getScreenCornerRadius".spec_bytes()) || seq_contains(payload, "getRoundedCorners".spec_bytes()))) ==> route_of(CHANNEL_CONFIGURATION.spec_bytes(), payload, user_agreed, location_granted) == (Route { reply: ReplyPayload::JsonZeroCorners, announce_ready: false, location_served: false }),
        ((seq_contains(payload, "configuration".spec_bytes()) || seq_contains(payload, "configurations".spec_bytes())) && !(seq_contains(payload, "roundedCorner".spec_bytes()) || seq_contains(payload, "getScreenCornerRadius".spec_bytes()) || seq_contains(payload, "getRoundedCorners".spec_bytes()))) ==> route_of(CHANNEL_CONFIGURATION.spec_bytes(), payload, user_agreed, location_granted) == (Route { reply: ReplyPayload::JsonConfiguration, announce_ready: false, location_served: false }),
        (!(seq_contains(payload, "roundedCorner".spec_bytes()) || seq_contains(payload, "getScreenCornerRadius".spec_bytes()) || seq_contains(payload, "getRoundedCorners".spec_bytes())) && !(seq_contains(payload, "configuration".spec_bytes()) || seq_contains(payload, "configurations".spec_bytes()))) ==> route_of(CHANNEL_CONFIGURATION.spec_bytes(), payload, user_agreed, location_granted) == (Route { reply: ReplyPayload::JsonNull, announce_ready: false, location_served: false }),
{
    lemma_channel_facts();
    lemma_shorter_lacks(CHANNEL_CONFIGURATION.spec_bytes(), PIGEON_SHARED_PREFS_PREFIX.spec_bytes());
}

/// Law: how messages on `CHANNEL_DEVICE_INFO` are answered, by the method they call.
pub proof fn lemma_device_info_routes(payload: Seq<u8>, user_agreed: bool, location_granted: bool)
    ensures
        ((seq_contains(payload, "getDeviceInfo".spec_bytes()))) ==> route_of(CHANNEL_DEVICE_INFO.spec_bytes(), payload, user_agreed, location_granted) == (Route { reply: ReplyPayload::JsonEmptyMap, announce_ready: false, location_served: false }),
        ((seq_contains(payload, "Capability".spec_bytes())) && !(seq_contains(payload, "getDeviceInfo".spec_bytes()))) ==> route_of(CHANNEL_DEVICE_INFO.spec_bytes(), payload, user_agreed, location_granted) == (Route { reply: ReplyPayload::JsonFalse, announce_ready: false, location_served: false }),
        (!(seq_contains(payload, "getDeviceInfo".spec_bytes())) && !(seq_contains(payload, "Capability".spec_bytes()))) ==> route_of(CHANNEL_DEVICE_INFO.spec_bytes(), payload, user_agreed, location_granted) == (Route { reply: ReplyPayload::JsonNull, announce_ready: false, location_served: false }),
{
    lemma_channel_facts();
    lemma_shorter_lacks(CHANNEL_DEVICE_INFO.spec_bytes(), PIGEON_SHARED_PREFS_PREFIX.spec_bytes());
}

/// Law: how messages on `CHANNEL_HYPER_MATERIAL` are answered, by the method they call.
pub proof fn lemma_hyper_material_routes(payload: Seq<u8>, user_agreed: bool, location_granted: bool)
    ensures
        ((seq_contains(payload, "getGlassCapability".spec_bytes()))) ==> route_of(CHANNEL_HYPER_MATERIAL.spec_bytes(), payload, user_agreed, location_granted) == (Route { reply: ReplyPayload::JsonGlassUnsupported, announce_ready: false, location_served: false }),
        ((seq_contains(payload, "getBackgroundBlurEnable".spec_bytes()) || seq_contains(payload, "getMaterialStyle".spec_bytes())) && !(seq_contains(payload, "getGlassCapability".spec_bytes()))) ==> route_of(CHANNEL_HYPER_MATERIAL.spec_bytes(), payload, user_agreed, location_granted) == (Route { reply: ReplyPayload::JsonZero, announce_ready: false, location_served: false }),
        (!(seq_contains(payload, "getGlassCapability".spec_bytes())) && !(seq_contains(payload, "getBackgroundBlurEnable".spec_bytes()) || seq_contains(payload, "getMaterialStyle".spec_bytes()))) ==> route_of(CHANNEL_HYPER_MATERIAL.spec_bytes(), payload, user_agreed, location_granted) == (Route { reply: ReplyPayload::JsonNull, announce_ready: false, location_served: false }),
{
    lemma_channel_facts();
    lemma_shorter_lacks(CHANNEL_HYPER_MATERIAL.spec_bytes(), PIGEON_SHARED_PREFS_PREFIX.spec_bytes());
}

/// Law: how messages on `CHANNEL_SYSTEM_NAVIGATION` are answered, by the method they call.
pub proof fn lemma_system_navigation_routes(payload: Seq<u8>, user_agreed: bool, location_granted: bool)
    ensures
        ((seq_contains(payload, "getNavigationMode".spec_bytes()))) ==> route_of(CHANNEL_SYSTEM_NAVIGATION.spec_bytes(), payload, user_agreed, location_granted) == (Route { reply: ReplyPayload::JsonNavigationMode, announce_ready: false, location_served: false }),
        (!(seq_contains(payload, "getNavigationMode".spec_bytes()))) ==> route_of(CHANNEL_SYSTEM_NAVIGATION.spec_bytes(), payload, user_agreed, location_granted) == (Route { reply: ReplyPayload::JsonNull, announce_ready: false, location_served: false }),
{
    lemma_channel_facts();
    lemma_shorter_lacks(CHANNEL_SYSTEM_NAVIGATION.spec_bytes(), PIGEON_SHARED_PREFS_PREFIX.spec_bytes());
}

/// Law: how messages on `CHANNEL_SETTINGS` are answered, by the method they call.
pub proof fn lemma_settings_routes(payload: Seq<u8>, user_agreed: bool, location_granted: bool)
    ensures
        ((standard_method_name(payload) == Some("getLong".spec_bytes())) && (seq_contains(payload, "navigation_mode".spec_bytes()))) ==> route_of(CHANNEL_SETTINGS.spec_bytes(), payload, user_agreed, location_granted) == (Route { reply: ReplyPayload::StandardIntTwo, announce_ready: false, location_served: false }),
        ((standard_method_name(payload) == Some("getLong".spec_bytes())) && (seq_contains(payload, "location_mode".spec_bytes())) && !(seq_contains(payload, "navigation_mode".spec_bytes()))) ==> route_of(CHANNEL_SETTINGS.spec_bytes(), payload, user_agreed, location_granted) == (Route { reply: ReplyPayload::StandardIntThree, announce_ready: false, location_served: false }),
        ((standard_method_name(payload) == Some("getLong".spec_bytes())) && !(seq_contains(payload, "navigation_mode".spec_bytes())) && !(seq_contains(payload, "location_mode".spec_bytes()))) ==> route_of(CHANNEL_SETTINGS.spec_bytes(), payload, user_agreed, location_granted) == (Route { reply: ReplyPayload::StandardIntZero, announce_ready: false, location_served: false }),
        (!(standard_method_name(payload) == Some("getLong".spec_bytes()))) ==> route_of(CHANNEL_SETTINGS.spec_bytes(), payload, user_agreed, location_granted) == (Route { reply: ReplyPayload::StandardNull, announce_ready: false, location_served: false }),
{
    lemma_channel_facts();
    lemma_shorter_lacks(CHANNEL_SETTINGS.spec_bytes(), PIGEON_SHARED_PREFS_PREFIX.spec_bytes());
}

/// Law: how messages on `CHANNEL_WEATHER_METHOD` are answered, by the method they call.
pub proof fn lemma_weather_method_routes(payload: Seq<u8>, user_agreed: bool, location_granted: bool)
    ensures
        ((seq_contains(payload, "get_device_com_level".spec_bytes()))) ==> route_of(CHANNEL_WEATHER_METHOD.spec_bytes(), payload, user_agreed, location_granted) == (Route { reply: ReplyPayload::JsonSix, announce_ready: false, location_served: false }),
        ((seq_contains(payload, "get_device_com_version".spec_bytes())) && !(seq_contains(payload, "get_device_com_level".spec_bytes()))) ==> route_of(CHANNEL_WEATHER_METHOD.spec_bytes(), payload, user_agreed, location_granted) == (Route { reply: ReplyPayload::Json2025, announce_ready: false, location_served: false }),
        ((seq_contains(payload, "get_job_is_working".spec_bytes())) && !(seq_contains(payload, "get_device_com_level".spec_bytes())) && !(seq_contains(payload, "get_device_com_version".spec_bytes()))) ==> route_of(CHANNEL_WEATHER_METHOD.spec_bytes(), payload, user_agreed, location_granted) == (Route { reply: ReplyPayload::JsonFalse, announce_ready: false, location_served: false }),
        ((seq_contains(payload, "requestScheduleTask".spec_bytes())) && !(seq_contains(payload, "get_device_com_level".spec_bytes())) && !(seq_contains(payload, "get_device_com_version".spec_bytes())) && !(seq_contains(payload, "get_job_is_working".spec_bytes()))) ==> route_of(CHANNEL_WEATHER_METHOD.spec_bytes(), payload, user_agreed, location_granted) == (Route { reply: ReplyPayload::JsonTrue, announce_ready: false, location_served: false }),
        ((seq_contains(payload, "get_network_country_iso".spec_bytes())) && !(seq_contains(payload, "get_device_com_level".spec_bytes())) && !(seq_contains(payload, "get_device_com_version".spec_bytes())) && !(seq_contains(payload, "get_job_is_working".spec_bytes())) && !(seq_contains(payload, "requestScheduleTask".spec_bytes()))) ==> route_of(CHANNEL_WEATHER_METHOD.spec_bytes(), payload, user_agreed, location_granted) == (Route { reply: ReplyPayload::JsonCn, announce_ready: false, location_served: false }),
        ((seq_contains(payload, "get_network_info_is_connected".spec_bytes())) && !(seq_contains(payload, "get_device_com_level".spec_bytes())) && !(seq_contains(payload, "get_device_com_version".spec_bytes())) && !(seq_contains(payload, "get_job_is_working".spec_bytes())) && !(seq_contains(payload, "requestScheduleTask".spec_bytes())) && !(seq_contains(payload, "get_network_country_iso".spec_bytes()))) ==> route_of(CHANNEL_WEATHER_METHOD.spec_bytes(), payload, user_agreed, location_granted) == (Route { reply: ReplyPayload::JsonTrue, announce_ready: false, location_served: false }),
        ((seq_contains(payload, "check_permission".spec_bytes())) && !(seq_contains(payload, "get_device_com_level".spec_bytes())) && !(seq_contains(payload, "get_device_com_version".spec_bytes())) && !(seq_contains(payload, "get_job_is_working".spec_bytes())) && !(seq_contains(payload, "requestScheduleTask".spec_bytes())) && !(seq_contains(payload, "get_network_country_iso".spec_bytes())) && !(seq_contains(payload, "get_network_info_is_connected".spec_bytes()))) ==> route_of(CHANNEL_WEATHER_METHOD.spec_bytes(), payload, user_agreed, location_granted) == (Route { reply: if location_granted { ReplyPayload::JsonZero } else { ReplyPayload::JsonMinusOne }, announce_ready: false, location_served: false }),
        ((seq_contains(payload, "send_broadcast".spec_bytes()) || seq_contains(payload, "update_cta_result".spec_bytes()) || seq_contains(payload, "track_normal_event".spec_bytes()) || seq_contains(payload, "track_page_event".spec_bytes())) && !(seq_contains(payload, "get_device_com_level".spec_bytes())) && !(seq_contains(payload, "get_device_com_version".spec_bytes())) && !(seq_contains(payload, "get_job_is_working".spec_bytes())) && !(seq_contains(payload, "requestScheduleTask".spec_bytes())) && !(seq_contains(payload, "get_network_country_iso".spec_bytes())) && !(seq_contains(payload, "get_network_info_is_connected".spec_bytes())) && !(seq_contains(payload, "check_permission".spec_bytes()))) ==> route_of(CHANNEL_WEATHER_METHOD.spec_bytes(), payload, user_agreed, location_granted) == (Route { reply: ReplyPayload::JsonTrue, announce_ready: false, location_served: false }),
        (!(seq_contains(payload, "get_device_com_level".spec_bytes())) && !(seq_contains(payload, "get_device_com_version".spec_bytes())) && !(seq_contains(payload, "get_job_is_working".spec_bytes())) && !(seq_contains(payload, "requestScheduleTask".spec_bytes())) && !(seq_contains(payload, "get_network_country_iso".spec_bytes())) && !(seq_contains(payload, "get_network_info_is_connected".spec_bytes())) && !(seq_contains(payload, "check_permission".spec_bytes())) && !(seq_contains(payload, "send_broadcast".spec_bytes()) || seq_contains(payload, "update_cta_result".spec_bytes()) || seq_contains(payload, "track_normal_event".spec_bytes()) || seq_contains(payload, "track_page_event".spec_bytes()))) ==> route_of(CHANNEL_WEATHER_METHOD.spec_bytes(), payload, user_agreed, location_granted) == (Route { reply: ReplyPayload::JsonNull, announce_ready: false, location_served: false }),
{
    lemma_channel_facts();
    lemma_shorter_lacks(CHANNEL_WEATHER_METHOD.spec_bytes(), PIGEON_SHARED_PREFS_PREFIX.spec_bytes());
}

/// Law: how messages on `CHANNEL_WEATHER_BASIC` are answered, by the method they call.
pub proof fn lemma_weather_basic_routes(payload: Seq<u8>, user_agreed: bool, location_granted: bool)
    ensures
        ((standard_method_name(payload) == Some("get_app_path".spec_bytes()))) ==> route_of(CHANNEL_WEATHER_BASIC.spec_bytes(), payload, user_agreed, location_granted) == (Route { reply: ReplyPayload::BasicAppPath, announce_ready: false, location_served: false }),
        (!(standard_method_name(payload) == Some("get_app_path".spec_bytes()))) ==> route_of(CHANNEL_WEATHER_BASIC.spec_bytes(), payload, user_agreed, location_granted) == (Route { reply: ReplyPayload::BasicNull, announce_ready: false, location_served: false }),
{
    lemma_channel_facts();
    lemma_shorter_lacks(CHANNEL_WEATHER_BASIC.spec_bytes(), PIGEON_SHARED_PREFS_PREFIX.spec_bytes());
}

/// Law: how messages on `CHANNEL_INTENT` are answered, by the method they call.
pub proof fn lemma_intent_routes(payload: Seq<u8>, user_agreed: bool, location_granted: bool)
    ensures
        ((seq_contains(payload, "startActivityForResult".spec_bytes()) || seq_contains(payload, "startActivity".spec_bytes()))) ==> route_of(CHANNEL_INTENT.spec_bytes(), payload, user_agreed, location_granted) == (Route { reply: ReplyPayload::JsonTrue, announce_ready: false, location_served: false }),
        (!(seq_contains(payload, "startActivityForResult".spec_bytes()) || seq_contains(payload, "startActivity".spec_bytes()))) ==> route_of(CHANNEL_INTENT.spec_bytes(), payload, user_agreed, location_granted) == (Route { reply: ReplyPayload::JsonNull, announce_ready: false, location_served: false }),
{
    lemma_channel_facts();
    lemma_shorter_lacks(CHANNEL_INTENT.spec_bytes(), PIGEON_SHARED_PREFS_PREFIX.spec_bytes());
}

/// Law: how messages on `CHANNEL_SHORTCUT` are answered, by the method they call.
pub proof fn lemma_shortcut_routes(payload: Seq<u8>, user_agreed: bool, location_granted: bool)
    ensures
        ((seq_contains(payload, "getDynamicShortcuts".spec_bytes()))) ==> route_of(CHANNEL_SHORTCUT.spec_bytes(), payload, user_agreed, location_granted) == (Route { reply: ReplyPayload::JsonEmptyString, announce_ready: false, location_served: false }),
        ((seq_contains(payload, "reportShortcutUsed".spec_bytes()) || seq_contains(payload, "addDynamicShortcuts".spec_bytes()) || seq_contains(payload, "updateShortcuts".spec_bytes())) && !(seq_contains(payload, "getDynamicShortcuts".spec_bytes()))) ==> route_of(CHANNEL_SHORTCUT.spec_bytes(), payload, user_agreed, location_granted) == (Route { reply: ReplyPayload::JsonTrue, announce_ready: false, location_served: false }),
        (!(seq_contains(payload, "getDynamicShortcuts".spec_bytes())) && !(seq_contains(payload, "reportShortcutUsed".spec_bytes()) || seq_contains(payload, "addDynamicShortcuts".spec_bytes()) || seq_contains(payload, "updateShortcuts".spec_bytes()))) ==> route_of(CHANNEL_SHORTCUT.spec_bytes(), payload, user_agreed, location_granted) == (Route { reply: ReplyPayload::JsonNull, announce_ready: false, location_served: false }),
{
    lemma_channel_facts();
    lemma_shorter_lacks(CHANNEL_SHORTCUT.spec_bytes(), PIGEON_SHARED_PREFS_PREFIX.spec_bytes());
}

/// Law: how messages on `CHANNEL_SYSTEM_BRIDGE` are answered, by the method they call.
pub proof fn lemma_system_bridge_routes(payload: Seq<u8>, user_agreed: bool, location_granted: bool)
    ensures
        ((standard_method_name(payload) == Some("is_user_unlocked".spec_bytes()))) ==> route_of(CHANNEL_SYSTEM_BRIDGE.spec_bytes(), payload, user_agreed, location_granted) == (Route { reply: ReplyPayload::StandardTrue, announce_ready: false, location_served: false }),
        (!(standard_method_name(payload) == Some("is_user_unlocked".spec_bytes()))) ==> route_of(CHANNEL_SYSTEM_BRIDGE.spec_bytes(), payload, user_agreed, location_granted) == (Route { reply: ReplyPayload::StandardNull, announce_ready: false, location_served: false }),
{
    lemma_channel_facts();
    lemma_shorter_lacks(CHANNEL_SYSTEM_BRIDGE.spec_bytes(), PIGEON_SHARED_PREFS_PREFIX.spec_bytes());
}

/// Law: how messages on `CHANNEL_SHARED_PLUGIN` are answered, by the method they call.
pub proof fn lemma_shared_plugin_routes(payload: Seq<u8>, user_agreed: bool, location_granted: bool)
    ensures
        ((standard_method_name(payload) == Some("getAll".spec_bytes()))) ==> route_of(CHANNEL_SHARED_PLUGIN.spec_bytes(), payload, user_agreed, location_granted) == (Route { reply: ReplyPayload::StandardEmptyMap, announce_ready: false, location_served: false }),
        (!(standard_method_name(payload) == Some("getAll".spec_bytes()))) ==> route_of(CHANNEL_SHARED_PLUGIN.spec_bytes(), payload, user_agreed, location_granted) == (Route { reply: ReplyPayload::StandardNull, announce_ready: false, location_served: false }),
{
    lemma_channel_facts();
    lemma_shorter_lacks(CHANNEL_SHARED_PLUGIN.spec_bytes(), PIGEON_SHARED_PREFS_PREFIX.spec_bytes());
}

/// Law: the package manager is always answered with the package info, the rounded-corner channel with an empty list, the path provider, haptic and trace channels with the standard null, and the URL launcher with the standard false, whatever the payload.
pub proof fn lemma_fixed_replies(payload: Seq<u8>, user_agreed: bool, location_granted: bool)
    ensures
        route_of(CHANNEL_PACKAGE_MANAGER.spec_bytes(), payload, user_agreed, location_granted) == (Route { reply: ReplyPayload::JsonPackageInfo, announce_ready: false, location_served: false }),
        route_of(CHANNEL_ROUNDED_CORNER.spec_bytes(), payload, user_agreed, location_granted) == (Route { reply: ReplyPayload::JsonEmptyList, announce_ready: false, location_served: false }),
        route_of(CHANNEL_PATH_PROVIDER.spec_bytes(), payload, user_agreed, location_granted) == (Route { reply: ReplyPayload::StandardNull, announce_ready: false, location_served: false }),
        route_of(CHANNEL_URL_LAUNCHER.spec_bytes(), payload, user_agreed, location_granted) == (Route { reply: ReplyPayload::StandardFalse, announce_ready: false, location_served: false }),
        route_of(CHANNEL_HAPTIC.spec_bytes(), payload, user_agreed, location_granted) == (Route { reply: ReplyPayload::StandardNull, announce_ready: false, location_served: false }),
        route_of(CHANNEL_TRACE.spec_bytes(), payload, user_agreed, location_granted) == (Route { reply: ReplyPayload::StandardNull, announce_ready: false, location_served: false }),
{
    lemma_channel_facts();
    lemma_shorter_lacks(CHANNEL_PACKAGE_MANAGER.spec_bytes(), PIGEON_SHARED_PREFS_PREFIX.spec_bytes());
    lemma_shorter_lacks(CHANNEL_ROUNDED_CORNER.spec_bytes(), PIGEON_SHARED_PREFS_PREFIX.spec_bytes());
    lemma_shorter_lacks(CHANNEL_PATH_PROVIDER.spec_bytes(), PIGEON_SHARED_PREFS_PREFIX.spec_bytes());
    lemma_shorter_lacks(CHANNEL_URL_LAUNCHER.spec_bytes(), PIGEON_SHARED_PREFS_PREFIX.spec_bytes());
    lemma_shorter_lacks(CHANNEL_HAPTIC.spec_bytes(), PIGEON_SHARED_PREFS_PREFIX.spec_bytes());
    lemma_shorter_lacks(CHANNEL_TRACE.spec_bytes(), PIGEON_SHARED_PREFS_PREFIX.spec_bytes());
}

/// Law: both location channels serve the test location to a request from any location source, and answer anything else with the JSON null.
pub proof fn lemma_location_routes(payload: Seq<u8>, user_agreed: bool, location_granted: bool)
    ensures
        (seq_contains(payload, "locationFromAmap".spec_bytes()) || seq_contains(payload, "locationFromNlp".spec_bytes()) || seq_contains(payload, "locationFromWifi".spec_bytes()) || seq_contains(payload, "locationFromPhone".spec_bytes())) ==> route_of(CHANNEL_XMS_LOCATION.spec_bytes(), payload, user_agreed, location_granted) == (Route { reply: ReplyPayload::JsonLocationTest, announce_ready: false, location_served: true }),
        !(seq_contains(payload, "locationFromAmap".spec_bytes()) || seq_contains(payload, "locationFromNlp".spec_bytes()) || seq_contains(payload, "locationFromWifi".spec_bytes()) || seq_contains(payload, "locationFromPhone".spec_bytes())) ==> route_of(CHANNEL_XMS_LOCATION.spec_bytes(), payload, user_agreed, location_granted) == (Route { reply: ReplyPayload::JsonNull, announce_ready: false, location_served: false }),
        (seq_contains(payload, "locationFromAmap".spec_bytes()) || seq_contains(payload, "locationFromNlp".spec_bytes()) || seq_contains(payload, "locationFromWifi".spec_bytes()) || seq_contains(payload, "locationFromPhone".spec_bytes())) ==> route_of(CHANNEL_WEATHER_LOCATION.spec_bytes(), payload, user_agreed, location_granted) == (Route { reply: ReplyPayload::JsonLocationTest, announce_ready: false, location_served: true }),
        !(seq_contains(payload, "locationFromAmap".spec_bytes()) || seq_contains(payload, "locationFromNlp".spec_bytes()) || seq_contains(payload, "locationFromWifi".spec_bytes()) || seq_contains(payload, "locationFromPhone".spec_bytes())) ==> route_of(CHANNEL_WEATHER_LOCATION.spec_bytes(), payload, user_agreed, location_granted) == (Route { reply: ReplyPayload::JsonNull, announce_ready: false, location_served: false }),
{
    lemma_channel_facts();
    lemma_shorter_lacks(CHANNEL_XMS_LOCATION.spec_bytes(), PIGEON_SHARED_PREFS_PREFIX.spec_bytes());
    lemma_shorter_lacks(CHANNEL_WEATHER_LOCATION.spec_bytes(), PIGEON_SHARED_PREFS_PREFIX.spec_bytes());
}

/// Law: a pigeon shared-preferences channel is answered with an empty map
/// for `getAll` and with null otherwise, whatever the payload.
pub proof fn lemma_pigeon_routes(channel: Seq<u8>, payload: Seq<u8>, user_agreed: bool, location_granted: bool)
    requires
        seq_contains(channel, PIGEON_SHARED_PREFS_PREFIX.spec_bytes()),
    ensures
        seq_contains(channel, ".getAll".spec_bytes()) ==> route_of(channel, payload, user_agreed, location_granted) == (Route { reply: ReplyPayload::PigeonEmptyMapReply, announce_ready: false, location_served: false }),
        !seq_contains(channel, ".getAll".spec_bytes()) ==> route_of(channel, payload, user_agreed, location_granted) == (Route { reply: ReplyPayload::PigeonNullReply, announce_ready: false, location_served: false }),
{
}

} // verus!
