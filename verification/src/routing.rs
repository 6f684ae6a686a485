//! How the router answers a platform message: by its channel and, within
//! a channel, by the method that the payload names.
use vstd::prelude::*;
use vstd::string::StringSliceAdditionalSpecFns;
use crate::bytes::{bytes_equal, contains, looks_json, seq_contains, opens_json, json_window};
use crate::codec::{standard_method, standard_method_name};
use crate::messages::{
    CHANNEL_CONFIGURATION,
    CHANNEL_DEVICE_INFO,
    CHANNEL_DEVICE_LEVEL,
    CHANNEL_HAPTIC,
    CHANNEL_HYPER_MATERIAL,
    CHANNEL_INTENT,
    CHANNEL_NATIVE_READY,
    CHANNEL_PACKAGE_MANAGER,
    CHANNEL_PATH_PROVIDER,
    CHANNEL_ROUNDED_CORNER,
    CHANNEL_SETTINGS,
    CHANNEL_SHARED_APP_RUN,
    CHANNEL_SHARED_CHILD,
    CHANNEL_SHARED_PLUGIN,
    CHANNEL_SHARED_ROOT,
    CHANNEL_SHORTCUT,
    CHANNEL_SYSTEM_BRIDGE,
    CHANNEL_SYSTEM_NAVIGATION,
    CHANNEL_SYSTEM_PROPERTIES,
    CHANNEL_TRACE,
    CHANNEL_URL_LAUNCHER,
    CHANNEL_WEATHER_BASIC,
    CHANNEL_WEATHER_LOCATION,
    CHANNEL_WEATHER_METHOD,
    CHANNEL_XMS_LOCATION,
    PIGEON_SHARED_PREFS_PREFIX,
    ReplyPayload,
};

verus! {

/// What the router does with a platform message: the reply it sends back,
/// whether it then announces that the native side is ready, and whether it
/// served a location.
#[derive(Clone, Copy, PartialEq, Eq, Structural, Debug)]
pub struct Route {
    pub reply: ReplyPayload,
    pub announce_ready: bool,
    pub location_served: bool,
}

/// The payload mentions `word` (how a JSON method call is recognised).
pub open spec fn mentions(payload: Seq<u8>, word: &'static str) -> bool {
    seq_contains(payload, word.spec_bytes())
}

/// The channel is exactly `name`.
pub open spec fn names(channel: Seq<u8>, name: &'static str) -> bool {
    channel == name.spec_bytes()
}

/// A route that only replies.
pub open spec fn reply_only(reply: ReplyPayload) -> Route {
    Route { reply, announce_ready: false, location_served: false }
}

/// Whether a location channel's payload asks for a location.
pub open spec fn asks_location(payload: Seq<u8>) -> bool {
    mentions(payload, "locationFromAmap") || mentions(payload, "locationFromNlp") || mentions(
        payload,
        "locationFromWifi",
    ) || mentions(payload, "locationFromPhone")
}

/// The route of a platform message on `channel` carrying `payload`, given
/// whether the user accepted the agreement and granted location.
pub open spec fn route_of(
    channel: Seq<u8>,
    payload: Seq<u8>,
    user_agreed: bool,
    location_granted: bool,
) -> Route {
    if mentions(channel, PIGEON_SHARED_PREFS_PREFIX) {
        if mentions(channel, ".getAll") {
            reply_only(ReplyPayload::PigeonEmptyMapReply)
        } else {
            reply_only(ReplyPayload::PigeonNullReply)
        }
    } else if names(channel, CHANNEL_NATIVE_READY) {
        Route { reply: ReplyPayload::JsonTrue, announce_ready: true, location_served: false }
    } else if names(channel, CHANNEL_PACKAGE_MANAGER) {
        reply_only(ReplyPayload::JsonPackageInfo)
    } else if names(channel, CHANNEL_SYSTEM_PROPERTIES) {
        reply_only(system_properties_reply(payload))
    } else if names(channel, CHANNEL_SHARED_ROOT) {
        reply_only(shared_root_reply(payload))
    } else if names(channel, CHANNEL_SHARED_APP_RUN) {
        reply_only(shared_app_run_reply(payload, user_agreed))
    } else if names(channel, CHANNEL_SHARED_CHILD) {
        reply_only(shared_child_reply(payload))
    } else if names(channel, CHANNEL_DEVICE_LEVEL) {
        reply_only(device_level_reply(payload))
    } else if names(channel, CHANNEL_CONFIGURATION) {
        reply_only(configuration_reply(payload))
    } else if names(channel, CHANNEL_ROUNDED_CORNER) {
        reply_only(ReplyPayload::JsonEmptyList)
    } else if names(channel, CHANNEL_DEVICE_INFO) {
        reply_only(device_info_reply(payload))
    } else if names(channel, CHANNEL_HYPER_MATERIAL) {
        reply_only(hyper_material_reply(payload))
    } else if names(channel, CHANNEL_SYSTEM_NAVIGATION) {
        reply_only(system_navigation_reply(payload))
    } else if names(channel, CHANNEL_SETTINGS) {
        reply_only(settings_reply(payload))
    } else if names(channel, CHANNEL_XMS_LOCATION) || names(channel, CHANNEL_WEATHER_LOCATION) {
        if asks_location(payload) {
            Route {
                reply: ReplyPayload::JsonLocationTest,
                announce_ready: false,
                location_served: true,
            }
        } else {
            reply_only(ReplyPayload::JsonNull)
        }
    } else if names(channel, CHANNEL_WEATHER_METHOD) {
        reply_only(weather_method_reply(payload, location_granted))
    } else if names(channel, CHANNEL_WEATHER_BASIC) {
        reply_only(weather_basic_reply(payload))
    } else if names(channel, CHANNEL_INTENT) {
        reply_only(intent_reply(payload))
    } else if names(channel, CHANNEL_SHORTCUT) {
        reply_only(shortcut_reply(payload))
    } else if names(channel, CHANNEL_SYSTEM_BRIDGE) {
        reply_only(system_bridge_reply(payload))
    } else if names(channel, CHANNEL_SHARED_PLUGIN) {
        reply_only(shared_plugin_reply(payload))
    } else if names(channel, CHANNEL_PATH_PROVIDER) {
        reply_only(ReplyPayload::StandardNull)
    } else if names(channel, CHANNEL_URL_LAUNCHER) {
        reply_only(ReplyPayload::StandardFalse)
    } else if names(channel, CHANNEL_HAPTIC) || names(channel, CHANNEL_TRACE) {
        reply_only(ReplyPayload::StandardNull)
    } else if opens_json(json_window(payload)) {
        reply_only(ReplyPayload::JsonNull)
    } else {
        reply_only(ReplyPayload::StandardNull)
    }
}

/// Whether the channel is one of those the router answers by name.
pub open spec fn is_named_channel(channel: Seq<u8>) -> bool {
    ||| names(channel, CHANNEL_NATIVE_READY)
    ||| names(channel, CHANNEL_PACKAGE_MANAGER)
    ||| names(channel, CHANNEL_SYSTEM_PROPERTIES)
    ||| names(channel, CHANNEL_SHARED_ROOT)
    ||| names(channel, CHANNEL_SHARED_APP_RUN)
    ||| names(channel, CHANNEL_SHARED_CHILD)
    ||| names(channel, CHANNEL_DEVICE_LEVEL)
    ||| names(channel, CHANNEL_CONFIGURATION)
    ||| names(channel, CHANNEL_ROUNDED_CORNER)
    ||| names(channel, CHANNEL_DEVICE_INFO)
    ||| names(channel, CHANNEL_HYPER_MATERIAL)
    ||| names(channel, CHANNEL_SYSTEM_NAVIGATION)
    ||| names(channel, CHANNEL_SETTINGS)
    ||| names(channel, CHANNEL_XMS_LOCATION)
    ||| names(channel, CHANNEL_WEATHER_LOCATION)
    ||| names(channel, CHANNEL_WEATHER_METHOD)
    ||| names(channel, CHANNEL_WEATHER_BASIC)
    ||| names(channel, CHANNEL_INTENT)
    ||| names(channel, CHANNEL_SHORTCUT)
    ||| names(channel, CHANNEL_SYSTEM_BRIDGE)
    ||| names(channel, CHANNEL_SHARED_PLUGIN)
    ||| names(channel, CHANNEL_PATH_PROVIDER)
    ||| names(channel, CHANNEL_URL_LAUNCHER)
    ||| names(channel, CHANNEL_HAPTIC)
    ||| names(channel, CHANNEL_TRACE)
}

/// Whether the payload mentions `word`.
fn mentions_word(payload: &[u8], word: &'static str) -> (found: bool)
    ensures
        found == mentions(payload@, word),
{
    contains(payload, word.as_bytes())
}

/// Whether the channel is exactly `name`.
fn channel_is(channel: &[u8], name: &'static str) -> (same: bool)
    ensures
        same == names(channel@, name),
{
    bytes_equal(channel, name.as_bytes())
}

/// The reply on `CHANNEL_SYSTEM_PROPERTIES`.
pub open spec fn system_properties_reply(payload: Seq<u8>) -> ReplyPayload {
    if mentions(payload, "getAll") {
        ReplyPayload::JsonEmptyMap
    } else if mentions(payload, "getString") {
        if mentions(payload, "ro.miui.region") || mentions(payload, "ro.product.country") {
            ReplyPayload::JsonCnRegion
        } else if mentions(payload, "persist.sys.locale") || mentions(payload, "ro.product.locale") || mentions(payload, "ro.product.locale.language") {
            ReplyPayload::JsonZhCn
        } else {
            ReplyPayload::JsonFalseString
        }
    } else if mentions(payload, "getInt") || mentions(payload, "getLong") {
        ReplyPayload::JsonZero
    } else if mentions(payload, "getBool") || mentions(payload, "getBoolean") {
        ReplyPayload::JsonFalse
    } else {
        ReplyPayload::JsonNull
    }
}

/// The reply on `CHANNEL_SYSTEM_PROPERTIES`.
fn route_system_properties(payload: &[u8]) -> (reply: ReplyPayload)
    ensures
        reply == system_properties_reply(payload@),
{
    if mentions_word(payload, "getAll") {
        ReplyPayload::JsonEmptyMap
    } else if mentions_word(payload, "getString") {
        if mentions_word(payload, "ro.miui.region") || mentions_word(payload, "ro.product.country") {
            ReplyPayload::JsonCnRegion
        } else if mentions_word(payload, "persist.sys.locale") || mentions_word(payload, "ro.product.locale") || mentions_word(payload, "ro.product.locale.language") {
            ReplyPayload::JsonZhCn
        } else {
            ReplyPayload::JsonFalseString
        }
    } else if mentions_word(payload, "getInt") || mentions_word(payload, "getLong") {
        ReplyPayload::JsonZero
    } else if mentions_word(payload, "getBool") || mentions_word(payload, "getBoolean") {
        ReplyPayload::JsonFalse
    } else {
        ReplyPayload::JsonNull
    }
}

/// The reply on `CHANNEL_SHARED_ROOT`.
pub open spec fn shared_root_reply(payload: Seq<u8>) -> ReplyPayload {
    if mentions(payload, "open") {
        if mentions(payload, "com.miui.providers.weather.apprun") {
            ReplyPayload::JsonSharedAppRunOpen
        } else {
            ReplyPayload::JsonSharedOpen
        }
    } else {
        ReplyPayload::JsonNull
    }
}

/// The reply on `CHANNEL_SHARED_ROOT`.
fn route_shared_root(payload: &[u8]) -> (reply: ReplyPayload)
    ensures
        reply == shared_root_reply(payload@),
{
    if mentions_word(payload, "open") {
        if mentions_word(payload, "com.miui.providers.weather.apprun") {
            ReplyPayload::JsonSharedAppRunOpen
        } else {
            ReplyPayload::JsonSharedOpen
        }
    } else {
        ReplyPayload::JsonNull
    }
}

/// The reply on `CHANNEL_SHARED_APP_RUN`.
pub open spec fn shared_app_run_reply(payload: Seq<u8>, user_agreed: bool) -> ReplyPayload {
    match standard_method_name(payload) {
        Some(method) => {
        if method == "reload".spec_bytes() || method == "getAll".spec_bytes() {
            if user_agreed { ReplyPayload::StandardAppRunTrueMap } else { ReplyPayload::StandardEmptyMap }
        } else {
            ReplyPayload::StandardNull
        }
        }
        None => ReplyPayload::StandardNull,
    }
}

/// The reply on `CHANNEL_SHARED_APP_RUN`.
fn route_shared_app_run(payload: &[u8], user_agreed: bool) -> (reply: ReplyPayload)
    ensures
        reply == shared_app_run_reply(payload@, user_agreed),
{
    match standard_method(payload) {
        Some(method) => {
            if bytes_equal(method, "reload".as_bytes()) || bytes_equal(method, "getAll".as_bytes()) {
                if user_agreed { ReplyPayload::StandardAppRunTrueMap } else { ReplyPayload::StandardEmptyMap }
            } else {
                ReplyPayload::StandardNull
            }
        }
        None => ReplyPayload::StandardNull,
    }
}

/// The reply on `CHANNEL_SHARED_CHILD`.
pub open spec fn shared_child_reply(payload: Seq<u8>) -> ReplyPayload {
    match standard_method_name(payload) {
        Some(method) => {
        if method == "reload".spec_bytes() || method == "getAll".spec_bytes() {
            ReplyPayload::StandardEmptyMap
        } else {
            ReplyPayload::StandardNull
        }
        }
        None => ReplyPayload::StandardNull,
    }
}

/// The reply on `CHANNEL_SHARED_CHILD`.
fn route_shared_child(payload: &[u8]) -> (reply: ReplyPayload)
    ensures
        reply == shared_child_reply(payload@),
{
    match standard_method(payload) {
        Some(method) => {
            if bytes_equal(method, "reload".as_bytes()) || bytes_equal(method, "getAll".as_bytes()) {
                ReplyPayload::StandardEmptyMap
            } else {
                ReplyPayload::StandardNull
            }
        }
        None => ReplyPayload::StandardNull,
    }
}

/// The reply on `CHANNEL_DEVICE_LEVEL`.
pub open spec fn device_level_reply(payload: Seq<u8>) -> ReplyPayload {
    if mentions(payload, "getDeviceLevel") {
        ReplyPayload::JsonDeviceFlagship
    } else if mentions(payload, "getMiuiMiddleVersion") || mentions(payload, "getMiuiLiteVersion") {
        ReplyPayload::JsonZero
    } else {
        ReplyPayload::JsonNull
    }
}

/// The reply on `CHANNEL_DEVICE_LEVEL`.
fn route_device_level(payload: &[u8]) -> (reply: ReplyPayload)
    ensures
        reply == device_level_reply(payload@),
{
    if mentions_word(payload, "getDeviceLevel") {
        ReplyPayload::JsonDeviceFlagship
    } else if mentions_word(payload, "getMiuiMiddleVersion") || mentions_word(payload, "getMiuiLiteVersion") {
        ReplyPayload::JsonZero
    } else {
        ReplyPayload::JsonNull
    }
}

/// The reply on `CHANNEL_CONFIGURATION`.
pub open spec fn configuration_reply(payload: Seq<u8>) -> ReplyPayload {
    if mentions(payload, "roundedCorner") || mentions(payload, "getScreenCornerRadius") || mentions(payload, "getRoundedCorners") {
        ReplyPayload::JsonZeroCorners
    } else if mentions(payload, "configuration") || mentions(payload, "configurations") {
        ReplyPayload::JsonConfiguration
    } else {
        ReplyPayload::JsonNull
    }
}

/// The reply on `CHANNEL_CONFIGURATION`.
fn route_configuration(payload: &[u8]) -> (reply: ReplyPayload)
    ensures
        reply == configuration_reply(payload@),
{
    if mentions_word(payload, "roundedCorner") || mentions_word(payload, "getScreenCornerRadius") || mentions_word(payload, "getRoundedCorners") {
        ReplyPayload::JsonZeroCorners
    } else if mentions_word(payload, "configuration") || mentions_word(payload, "configurations") {
        ReplyPayload::JsonConfiguration
    } else {
        ReplyPayload::JsonNull
    }
}

/// The reply on `CHANNEL_DEVICE_INFO`.
pub open spec fn device_info_reply(payload: Seq<u8>) -> ReplyPayload {
    if mentions(payload, "getDeviceInfo") {
        ReplyPayload::JsonEmptyMap
    } else if mentions(payload, "Capability") {
        ReplyPayload::JsonFalse
    } else {
        ReplyPayload::JsonNull
    }
}

/// The reply on `CHANNEL_DEVICE_INFO`.
fn route_device_info(payload: &[u8]) -> (reply: ReplyPayload)
    ensures
        reply == device_info_reply(payload@),
{
    if mentions_word(payload, "getDeviceInfo") {
        ReplyPayload::JsonEmptyMap
    } else if mentions_word(payload, "Capability") {
        ReplyPayload::JsonFalse
    } else {
        ReplyPayload::JsonNull
    }
}

/// The reply on `CHANNEL_HYPER_MATERIAL`.
pub open spec fn hyper_material_reply(payload: Seq<u8>) -> ReplyPayload {
    if mentions(payload, "getGlassCapability") {
        ReplyPayload::JsonGlassUnsupported
    } else if mentions(payload, "getBackgroundBlurEnable") || mentions(payload, "getMaterialStyle") {
        ReplyPayload::JsonZero
    } else {
        ReplyPayload::JsonNull
    }
}

/// The reply on `CHANNEL_HYPER_MATERIAL`.
fn route_hyper_material(payload: &[u8]) -> (reply: ReplyPayload)
    ensures
        reply == hyper_material_reply(payload@),
{
    if mentions_word(payload, "getGlassCapability") {
        ReplyPayload::JsonGlassUnsupported
    } else if mentions_word(payload, "getBackgroundBlurEnable") || mentions_word(payload, "getMaterialStyle") {
        ReplyPayload::JsonZero
    } else {
        ReplyPayload::JsonNull
    }
}

/// The reply on `CHANNEL_SYSTEM_NAVIGATION`.
pub open spec fn system_navigation_reply(payload: Seq<u8>) -> ReplyPayload {
    if mentions(payload, "getNavigationMode") {
        ReplyPayload::JsonNavigationMode
    } else {
        ReplyPayload::JsonNull
    }
}

/// The reply on `CHANNEL_SYSTEM_NAVIGATION`.
fn route_system_navigation(payload: &[u8]) -> (reply: ReplyPayload)
    ensures
        reply == system_navigation_reply(payload@),
{
    if mentions_word(payload, "getNavigationMode") {
        ReplyPayload::JsonNavigationMode
    } else {
        ReplyPayload::JsonNull
    }
}

/// The reply on `CHANNEL_SETTINGS`.
pub open spec fn settings_reply(payload: Seq<u8>) -> ReplyPayload {
    match standard_method_name(payload) {
        Some(method) => {
        if method == "getLong".spec_bytes() {
            if mentions(payload, "navigation_mode") {
                ReplyPayload::StandardIntTwo
            } else if mentions(payload, "location_mode") {
                ReplyPayload::StandardIntThree
            } else {
                ReplyPayload::StandardIntZero
            }
        } else {
            ReplyPayload::StandardNull
        }
        }
        None => ReplyPayload::StandardNull,
    }
}

/// The reply on `CHANNEL_SETTINGS`.
fn route_settings(payload: &[u8]) -> (reply: ReplyPayload)
    ensures
        reply == settings_reply(payload@),
{
    match standard_method(payload) {
        Some(method) => {
            if bytes_equal(method, "getLong".as_bytes()) {
                if mentions_word(payload, "navigation_mode") {
                    ReplyPayload::StandardIntTwo
                } else if mentions_word(payload, "location_mode") {
                    ReplyPayload::StandardIntThree
                } else {
                    ReplyPayload::StandardIntZero
                }
            } else {
                ReplyPayload::StandardNull
            }
        }
        None => ReplyPayload::StandardNull,
    }
}

/// The reply on `CHANNEL_WEATHER_METHOD`.
pub open spec fn weather_method_reply(payload: Seq<u8>, location_granted: bool) -> ReplyPayload {
    if mentions(payload, "get_device_com_level") {
        ReplyPayload::JsonSix
    } else if mentions(payload, "get_device_com_version") {
        ReplyPayload::Json2025
    } else if mentions(payload, "get_job_is_working") {
        ReplyPayload::JsonFalse
    } else if mentions(payload, "requestScheduleTask") {
        ReplyPayload::JsonTrue
    } else if mentions(payload, "get_network_country_iso") {
        ReplyPayload::JsonCn
    } else if mentions(payload, "get_network_info_is_connected") {
        ReplyPayload::JsonTrue
    } else if mentions(payload, "check_permission") {
        if location_granted { ReplyPayload::JsonZero } else { ReplyPayload::JsonMinusOne }
    } else if mentions(payload, "send_broadcast") || mentions(payload, "update_cta_result") || mentions(payload, "track_normal_event") || mentions(payload, "track_page_event") {
        ReplyPayload::JsonTrue
    } else {
        ReplyPayload::JsonNull
    }
}

/// The reply on `CHANNEL_WEATHER_METHOD`.
fn route_weather_method(payload: &[u8], location_granted: bool) -> (reply: ReplyPayload)
    ensures
        reply == weather_method_reply(payload@, location_granted),
{
    if mentions_word(payload, "get_device_com_level") {
        ReplyPayload::JsonSix
    } else if mentions_word(payload, "get_device_com_version") {
        ReplyPayload::Json2025
    } else if mentions_word(payload, "get_job_is_working") {
        ReplyPayload::JsonFalse
    } else if mentions_word(payload, "requestScheduleTask") {
        ReplyPayload::JsonTrue
    } else if mentions_word(payload, "get_network_country_iso") {
        ReplyPayload::JsonCn
    } else if mentions_word(payload, "get_network_info_is_connected") {
        ReplyPayload::JsonTrue
    } else if mentions_word(payload, "check_permission") {
        if location_granted { ReplyPayload::JsonZero } else { ReplyPayload::JsonMinusOne }
    } else if mentions_word(payload, "send_broadcast") || mentions_word(payload, "update_cta_result") || mentions_word(payload, "track_normal_event") || mentions_word(payload, "track_page_event") {
        ReplyPayload::JsonTrue
    } else {
        ReplyPayload::JsonNull
    }
}

/// The reply on `CHANNEL_WEATHER_BASIC`.
pub open spec fn weather_basic_reply(payload: Seq<u8>) -> ReplyPayload {
    match standard_method_name(payload) {
        Some(method) => {
        if method == "get_app_path".spec_bytes() {
            ReplyPayload::BasicAppPath
        } else {
            ReplyPayload::BasicNull
        }
        }
        None => ReplyPayload::BasicNull,
    }
}

/// The reply on `CHANNEL_WEATHER_BASIC`.
fn route_weather_basic(payload: &[u8]) -> (reply: ReplyPayload)
    ensures
        reply == weather_basic_reply(payload@),
{
    match standard_method(payload) {
        Some(method) => {
            if bytes_equal(method, "get_app_path".as_bytes()) {
                ReplyPayload::BasicAppPath
            } else {
                ReplyPayload::BasicNull
            }
        }
        None => ReplyPayload::BasicNull,
    }
}

/// The reply on `CHANNEL_INTENT`.
pub open spec fn intent_reply(payload: Seq<u8>) -> ReplyPayload {
    if mentions(payload, "startActivityForResult") || mentions(payload, "startActivity") {
        ReplyPayload::JsonTrue
    } else {
        ReplyPayload::JsonNull
    }
}

/// The reply on `CHANNEL_INTENT`.
fn route_intent(payload: &[u8]) -> (reply: ReplyPayload)
    ensures
        reply == intent_reply(payload@),
{
    if mentions_word(payload, "startActivityForResult") || mentions_word(payload, "startActivity") {
        ReplyPayload::JsonTrue
    } else {
        ReplyPayload::JsonNull
    }
}

/// The reply on `CHANNEL_SHORTCUT`.
pub open spec fn shortcut_reply(payload: Seq<u8>) -> ReplyPayload {
    if mentions(payload, "getDynamicShortcuts") {
        ReplyPayload::JsonEmptyString
    } else if mentions(payload, "reportShortcutUsed") || mentions(payload, "addDynamicShortcuts") || mentions(payload, "updateShortcuts") {
        ReplyPayload::JsonTrue
    } else {
        ReplyPayload::JsonNull
    }
}

/// The reply on `CHANNEL_SHORTCUT`.
fn route_shortcut(payload: &[u8]) -> (reply: ReplyPayload)
    ensures
        reply == shortcut_reply(payload@),
{
    if mentions_word(payload, "getDynamicShortcuts") {
        ReplyPayload::JsonEmptyString
    } else if mentions_word(payload, "reportShortcutUsed") || mentions_word(payload, "addDynamicShortcuts") || mentions_word(payload, "updateShortcuts") {
        ReplyPayload::JsonTrue
    } else {
        ReplyPayload::JsonNull
    }
}

/// The reply on `CHANNEL_SYSTEM_BRIDGE`.
pub open spec fn system_bridge_reply(payload: Seq<u8>) -> ReplyPayload {
    match standard_method_name(payload) {
        Some(method) => {
        if method == "is_user_unlocked".spec_bytes() {
            ReplyPayload::StandardTrue
        } else {
            ReplyPayload::StandardNull
        }
        }
        None => ReplyPayload::StandardNull,
    }
}

/// The reply on `CHANNEL_SYSTEM_BRIDGE`.
fn route_system_bridge(payload: &[u8]) -> (reply: ReplyPayload)
    ensures
        reply == system_bridge_reply(payload@),
{
    match standard_method(payload) {
        Some(method) => {
            if bytes_equal(method, "is_user_unlocked".as_bytes()) {
                ReplyPayload::StandardTrue
            } else {
                ReplyPayload::StandardNull
            }
        }
        None => ReplyPayload::StandardNull,
    }
}

/// The reply on `CHANNEL_SHARED_PLUGIN`.
pub open spec fn shared_plugin_reply(payload: Seq<u8>) -> ReplyPayload {
    match standard_method_name(payload) {
        Some(method) => {
        if method == "getAll".spec_bytes() {
            ReplyPayload::StandardEmptyMap
        } else {
            ReplyPayload::StandardNull
        }
        }
        None => ReplyPayload::StandardNull,
    }
}

/// The reply on `CHANNEL_SHARED_PLUGIN`.
fn route_shared_plugin(payload: &[u8]) -> (reply: ReplyPayload)
    ensures
        reply == shared_plugin_reply(payload@),
{
    match standard_method(payload) {
        Some(method) => {
            if bytes_equal(method, "getAll".as_bytes()) {
                ReplyPayload::StandardEmptyMap
            } else {
                ReplyPayload::StandardNull
            }
        }
        None => ReplyPayload::StandardNull,
    }
}

/// A route that only sends `reply` back.
fn answer(reply: ReplyPayload) -> (route: Route)
    ensures
        route == reply_only(reply),
{
    Route { reply, announce_ready: false, location_served: false }
}

/// Decides how to answer a platform message on `channel` carrying `payload`.
pub fn route_platform_message(
    channel: &[u8],
    payload: &[u8],
    user_agreed: bool,
    location_granted: bool,
) -> (route: Route)
    ensures
        route == route_of(channel@, payload@, user_agreed, location_granted),
{
    if mentions_word(channel, PIGEON_SHARED_PREFS_PREFIX) {
        if mentions_word(channel, ".getAll") {
            answer(ReplyPayload::PigeonEmptyMapReply)
        } else {
            answer(ReplyPayload::PigeonNullReply)
        }
    } else if channel_is(channel, CHANNEL_NATIVE_READY) {
        Route { reply: ReplyPayload::JsonTrue, announce_ready: true, location_served: false }
    } else if channel_is(channel, CHANNEL_PACKAGE_MANAGER) {
        answer(ReplyPayload::JsonPackageInfo)
    } else if channel_is(channel, CHANNEL_SYSTEM_PROPERTIES) {
        answer(route_system_properties(payload))
    } else if channel_is(channel, CHANNEL_SHARED_ROOT) {
        answer(route_shared_root(payload))
    } else if channel_is(channel, CHANNEL_SHARED_APP_RUN) {
        answer(route_shared_app_run(payload, user_agreed))
    } else if channel_is(channel, CHANNEL_SHARED_CHILD) {
        answer(route_shared_child(payload))
    } else if channel_is(channel, CHANNEL_DEVICE_LEVEL) {
        answer(route_device_level(payload))
    } else if channel_is(channel, CHANNEL_CONFIGURATION) {
        answer(route_configuration(payload))
    } else if channel_is(channel, CHANNEL_ROUNDED_CORNER) {
        answer(ReplyPayload::JsonEmptyList)
    } else if channel_is(channel, CHANNEL_DEVICE_INFO) {
        answer(route_device_info(payload))
    } else if channel_is(channel, CHANNEL_HYPER_MATERIAL) {
        answer(route_hyper_material(payload))
    } else if channel_is(channel, CHANNEL_SYSTEM_NAVIGATION) {
        answer(route_system_navigation(payload))
    } else if channel_is(channel, CHANNEL_SETTINGS) {
        answer(route_settings(payload))
    } else if channel_is(channel, CHANNEL_XMS_LOCATION) || channel_is(channel, CHANNEL_WEATHER_LOCATION) {
        if mentions_word(payload, "locationFromAmap") || mentions_word(payload, "locationFromNlp")
            || mentions_word(payload, "locationFromWifi") || mentions_word(payload, "locationFromPhone") {
            Route { reply: ReplyPayload::JsonLocationTest, announce_ready: false, location_served: true }
        } else {
            answer(ReplyPayload::JsonNull)
        }
    } else if channel_is(channel, CHANNEL_WEATHER_METHOD) {
        answer(route_weather_method(payload, location_granted))
    } else if channel_is(channel, CHANNEL_WEATHER_BASIC) {
        answer(route_weather_basic(payload))
    } else if channel_is(channel, CHANNEL_INTENT) {
        answer(route_intent(payload))
    } else if channel_is(channel, CHANNEL_SHORTCUT) {
        answer(route_shortcut(payload))
    } else if channel_is(channel, CHANNEL_SYSTEM_BRIDGE) {
        answer(route_system_bridge(payload))
    } else if channel_is(channel, CHANNEL_SHARED_PLUGIN) {
        answer(route_shared_plugin(payload))
    } else if channel_is(channel, CHANNEL_PATH_PROVIDER) {
        answer(ReplyPayload::StandardNull)
    } else if channel_is(channel, CHANNEL_URL_LAUNCHER) {
        answer(ReplyPayload::StandardFalse)
    } else if channel_is(channel, CHANNEL_HAPTIC) || channel_is(channel, CHANNEL_TRACE) {
        answer(ReplyPayload::StandardNull)
    } else if looks_json(payload) {
        answer(ReplyPayload::JsonNull)
    } else {
        answer(ReplyPayload::StandardNull)
    }
}

} // verus!
