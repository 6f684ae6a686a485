//! The wire vocabulary of the router: channel names, the messages it
//! sends to the engine, and the replies it answers platform messages with.
use vstd::prelude::*;
use vstd::string::StringSliceAdditionalSpecFns;

verus! {

// Platform channels.
pub const CHANNEL_LIFECYCLE: &'static str = "flutter/lifecycle";
pub const CHANNEL_NATIVE_READY: &'static str = "com.xiaomi.hyperos/native_ready";
pub const CHANNEL_SYSTEM_PROPERTIES: &'static str = "com.android.os.system.properties.method.channel";
pub const CHANNEL_PACKAGE_MANAGER: &'static str = "com.android.package.manager.method.channel";
pub const CHANNEL_SHARED_ROOT: &'static str = "hyperos/shared_preferences";
pub const CHANNEL_SHARED_CHILD: &'static str = "SnowWeatherPrefs";
pub const CHANNEL_SHARED_APP_RUN: &'static str = "SnowWeatherAppRun";
pub const CHANNEL_DEVICE_LEVEL: &'static str = "com.miui.performance.devicelevelutils.method.channel";
pub const CHANNEL_CONFIGURATION: &'static str = "com.xiaomi.hyperos/configuration";
pub const CHANNEL_ROUNDED_CORNER: &'static str = "com.xiaomi.hyperos/rounded_corner";
pub const CHANNEL_DEVICE_INFO: &'static str = "com.xiaomi.hyperos/device_info";
pub const CHANNEL_HYPER_MATERIAL: &'static str = "com.xiaomi.hyperos/hyper_material";
pub const CHANNEL_SYSTEM_NAVIGATION: &'static str = "com.xiaomi.hyperos/system_navigation";
pub const CHANNEL_SYSTEM_BRIDGE: &'static str = "com.miui.hyper.system_bridge";
pub const CHANNEL_SHARED_PLUGIN: &'static str = "plugins.flutter.io/shared_preferences";
pub const CHANNEL_PATH_PROVIDER: &'static str = "plugins.flutter.io/path_provider";
pub const CHANNEL_URL_LAUNCHER: &'static str = "plugins.flutter.io/url_launcher";
pub const CHANNEL_HAPTIC: &'static str = "com.xiaomi.hyperos/haptic";
pub const CHANNEL_TRACE: &'static str = "com.xiaomi.hyperos/trace";
pub const CHANNEL_SETTINGS: &'static str = "com.android.os.provider.settings.method.channel";
pub const CHANNEL_WEATHER_METHOD: &'static str = "weather_method_channel";
pub const CHANNEL_WEATHER_BASIC: &'static str = "weather_channel";
pub const CHANNEL_SHORTCUT: &'static str = "com.android.content.shortcut.method.channel";
pub const CHANNEL_INTENT: &'static str = "com.android.content.intent.method.channel";
pub const CHANNEL_PERMISSION: &'static str = "com.android.permission.method.channel";
pub const CHANNEL_XMS_LOCATION: &'static str = "xms_location";
pub const CHANNEL_WEATHER_LOCATION: &'static str = "weather_location";
pub const CHANNEL_FLUTTER_NAVIGATION: &'static str = "flutter/navigation";

// Lifecycle states, as sent on the lifecycle channel.
pub const LIFECYCLE_RESUMED: &'static str = "AppLifecycleState.resumed";
pub const LIFECYCLE_INACTIVE: &'static str = "AppLifecycleState.inactive";
pub const LIFECYCLE_PAUSED: &'static str = "AppLifecycleState.paused";
pub const LIFECYCLE_DETACHED: &'static str = "AppLifecycleState.detached";

// Messages the router sends on its own initiative.
pub const ON_READY: &'static str = "{\"method\":\"onReady\",\"args\":null}";
pub const CTA_ACTIVITY_RESULT_ACCEPTED: &'static str = "{\"method\":\"onActivityResult\",\"args\":{\"request_code\":1007,\"result_code\":1}}";
pub const CTA_ROUTE_SEARCH_CITY: &'static str = "{\"method\":\"pushRoute\",\"args\":\"/searchCity\"}";
pub const CTA_ACTIVITY_RESULT_DECLINED: &'static str = "{\"method\":\"onActivityResult\",\"args\":{\"request_code\":1007,\"result_code\":0}}";
pub const PERMISSION_RESULT_BOTH_GRANTED: &'static str = "{\"method\":\"on_request_permission_result\",\"args\":{\"permissions\":[\"android.permission.ACCESS_FINE_LOCATION\",\"android.permission.ACCESS_COARSE_LOCATION\"],\"grant_results\":[0,0],\"request_code\":10000}}";
pub const PERMISSION_RESULT_FINE_ONLY: &'static str = "{\"method\":\"on_request_permission_result\",\"args\":{\"permissions\":[\"android.permission.ACCESS_FINE_LOCATION\",\"android.permission.ACCESS_COARSE_LOCATION\"],\"grant_results\":[0,-1],\"request_code\":10000}}";
pub const PERMISSION_RESULT_COARSE_ONLY: &'static str = "{\"method\":\"on_request_permission_result\",\"args\":{\"permissions\":[\"android.permission.ACCESS_FINE_LOCATION\",\"android.permission.ACCESS_COARSE_LOCATION\"],\"grant_results\":[-1,0],\"request_code\":10000}}";
pub const PERMISSION_RESULT_DENIED: &'static str = "{\"method\":\"on_request_permission_result\",\"args\":{\"permissions\":[\"android.permission.ACCESS_FINE_LOCATION\",\"android.permission.ACCESS_COARSE_LOCATION\"],\"grant_results\":[-1,-1],\"request_code\":10000}}";

/// Channel-name prefix of the pigeon SharedPreferencesApi messages.
pub const PIGEON_SHARED_PREFS_PREFIX: &'static str = "dev.flutter.pigeon.shared_preferences_android.SharedPreferencesApi.";

// Replies of the JSON method codec.
pub const JSON_NULL: &'static str = "[null]";
pub const JSON_TRUE: &'static str = "[true]";
pub const JSON_FALSE: &'static str = "[false]";
pub const JSON_ZERO: &'static str = "[0]";
pub const JSON_SIX: &'static str = "[6]";
pub const JSON_2025: &'static str = "[2025]";
pub const JSON_MINUS_ONE: &'static str = "[-1]";
pub const JSON_NAVIGATION_MODE: &'static str = "[2]";
pub const JSON_FALSE_STRING: &'static str = "[\"false\"]";
pub const JSON_EMPTY_MAP: &'static str = "[{}]";
pub const JSON_EMPTY_LIST: &'static str = "[[]]";
pub const JSON_EMPTY_STRING: &'static str = "[\"[]\"]";
pub const JSON_ZERO_CORNERS: &'static str = "[[0,0,0,0]]";
pub const JSON_GLASS_UNSUPPORTED: &'static str = "[{\"isSupportMaterial\":false,\"isSupportGlass\":false}]";
pub const JSON_SHARED_OPEN: &'static str = "[\"SnowWeatherPrefs\"]";
pub const JSON_SHARED_APP_RUN_OPEN: &'static str = "[\"SnowWeatherAppRun\"]";
pub const JSON_DEVICE_FLAGSHIP: &'static str = "[{\"cpu_level\":3,\"gpu_level\":3,\"ram_level\":3}]";
pub const JSON_PACKAGE_INFO: &'static str = "[{\"versionName\":\"[IP]-R-Snow-v18-hybrid\",\"versionCode\":180000255,\"lastUpdateTime\":0,\"applicationInfo\":{\"flags\":0,\"enabled\":true}}]";
pub const JSON_CN: &'static str = "[\"cn\"]";
pub const JSON_ZH_CN: &'static str = "[\"zh-CN\"]";
pub const JSON_CN_REGION: &'static str = "[\"CN\"]";
pub const JSON_LOCATION_TEST: &'static str = r##"["{\"mLatitude\":23.108,\"mLongitude\":113.265,\"mStreetName\":\"\",\"mCityName\":\"\",\"mAdminArea\":\"\",\"mSubLocality\":\"\",\"mCountryName\":\"China\",\"mErrorCode\":0,\"mErrorInfo\":\"\",\"mLocationType\":\"5\"}"]"##;
pub const JSON_CONFIGURATION: &'static str = "[{\"screen_layout\":0,\"orientation\":1,\"color_mode\":0,\"screen_type\":0,\"screen_width_dp\":393,\"screen_height_dp\":873,\"smallest_screen_width_dp\":393,\"density_dpi\":440,\"display_id\":0,\"display_name\":\"Built-in Screen\",\"display_logical_density_dpi\":440,\"display_shape_width\":1080,\"display_shape_height\":2400,\"display_cutout\":{\"left\":0,\"top\":0,\"right\":0,\"bottom\":0,\"bounding_rect_left\":{\"left\":0,\"top\":0,\"right\":0,\"bottom\":0},\"bounding_rect_top\":{\"left\":0,\"top\":0,\"right\":0,\"bottom\":0},\"bounding_rect_right\":{\"left\":0,\"top\":0,\"right\":0,\"bottom\":0},\"bounding_rect_bottom\":{\"left\":0,\"top\":0,\"right\":0,\"bottom\":0}},\"window_bounds\":{\"left\":0,\"top\":0,\"right\":1080,\"bottom\":2400},\"is_multi_window\":false,\"dm_width_pixels\":1080,\"dm_height_pixels\":2400,\"dm_density\":2.75,\"dm_density_dpi\":440,\"dm_scaled_density\":2.75,\"dm_x_dpi\":440,\"dm_y_dpi\":440}]";

// Replies of the standard method codec, of the pigeon preferences API and of
// the basic message channel.
pub const STANDARD_NULL: &'static str = "\x00\x00";
pub const PIGEON_NULL_REPLY: &'static str = "\x0c\x01\x00";
pub const PIGEON_EMPTY_MAP_REPLY: &'static str = "\x0c\x01\x0d\x00";
pub const STANDARD_TRUE: &'static str = "\x00\x01";
pub const STANDARD_FALSE: &'static str = "\x00\x02";
pub const STANDARD_EMPTY_MAP: &'static str = "\x00\x0d\x00";
pub const STANDARD_APP_RUN_TRUE_MAP: &'static str = "\x00\x0d\x01\x07\x07app_run\x01";
pub const STANDARD_INT_ZERO: &'static str = "\x00\x03\x00\x00\x00\x00";
pub const STANDARD_INT_TWO: &'static str = "\x00\x03\x02\x00\x00\x00";
pub const STANDARD_INT_THREE: &'static str = "\x00\x03\x03\x00\x00\x00";
pub const BASIC_NULL: &'static str = "\x00";
pub const BASIC_APP_PATH: &'static str = "\x07\x21/data/user_de/0/com.miui.weather3";

/// A reply that the router hands back for a platform message.
#[derive(Clone, Copy, PartialEq, Eq, Structural, Debug)]
pub enum ReplyPayload {
    JsonNull,
    JsonTrue,
    JsonFalse,
    JsonZero,
    JsonSix,
    Json2025,
    JsonMinusOne,
    JsonNavigationMode,
    JsonFalseString,
    JsonEmptyMap,
    JsonEmptyList,
    JsonEmptyString,
    JsonZeroCorners,
    JsonGlassUnsupported,
    JsonSharedOpen,
    JsonSharedAppRunOpen,
    JsonDeviceFlagship,
    JsonPackageInfo,
    JsonCn,
    JsonZhCn,
    JsonCnRegion,
    JsonLocationTest,
    JsonConfiguration,
    StandardNull,
    PigeonNullReply,
    PigeonEmptyMapReply,
    StandardTrue,
    StandardFalse,
    StandardEmptyMap,
    StandardAppRunTrueMap,
    StandardIntZero,
    StandardIntTwo,
    StandardIntThree,
    BasicNull,
    BasicAppPath,
}

impl ReplyPayload {
    /// The bytes of the reply on the wire.
    pub open spec fn encoding(self) -> Seq<u8> {
        match self {
            ReplyPayload::JsonNull => JSON_NULL.spec_bytes(),
            ReplyPayload::JsonTrue => JSON_TRUE.spec_bytes(),
            ReplyPayload::JsonFalse => JSON_FALSE.spec_bytes(),
            ReplyPayload::JsonZero => JSON_ZERO.spec_bytes(),
            ReplyPayload::JsonSix => JSON_SIX.spec_bytes(),
            ReplyPayload::Json2025 => JSON_2025.spec_bytes(),
            ReplyPayload::JsonMinusOne => JSON_MINUS_ONE.spec_bytes(),
            ReplyPayload::JsonNavigationMode => JSON_NAVIGATION_MODE.spec_bytes(),
            ReplyPayload::JsonFalseString => JSON_FALSE_STRING.spec_bytes(),
            ReplyPayload::JsonEmptyMap => JSON_EMPTY_MAP.spec_bytes(),
            ReplyPayload::JsonEmptyList => JSON_EMPTY_LIST.spec_bytes(),
            ReplyPayload::JsonEmptyString => JSON_EMPTY_STRING.spec_bytes(),
            ReplyPayload::JsonZeroCorners => JSON_ZERO_CORNERS.spec_bytes(),
            ReplyPayload::JsonGlassUnsupported => JSON_GLASS_UNSUPPORTED.spec_bytes(),
            ReplyPayload::JsonSharedOpen => JSON_SHARED_OPEN.spec_bytes(),
            ReplyPayload::JsonSharedAppRunOpen => JSON_SHARED_APP_RUN_OPEN.spec_bytes(),
            ReplyPayload::JsonDeviceFlagship => JSON_DEVICE_FLAGSHIP.spec_bytes(),
            ReplyPayload::JsonPackageInfo => JSON_PACKAGE_INFO.spec_bytes(),
            ReplyPayload::JsonCn => JSON_CN.spec_bytes(),
            ReplyPayload::JsonZhCn => JSON_ZH_CN.spec_bytes(),
            ReplyPayload::JsonCnRegion => JSON_CN_REGION.spec_bytes(),
            ReplyPayload::JsonLocationTest => JSON_LOCATION_TEST.spec_bytes(),
            ReplyPayload::JsonConfiguration => JSON_CONFIGURATION.spec_bytes(),
            ReplyPayload::StandardNull => STANDARD_NULL.spec_bytes(),
            ReplyPayload::PigeonNullReply => PIGEON_NULL_REPLY.spec_bytes(),
            ReplyPayload::PigeonEmptyMapReply => PIGEON_EMPTY_MAP_REPLY.spec_bytes(),
            ReplyPayload::StandardTrue => STANDARD_TRUE.spec_bytes(),
            ReplyPayload::StandardFalse => STANDARD_FALSE.spec_bytes(),
            ReplyPayload::StandardEmptyMap => STANDARD_EMPTY_MAP.spec_bytes(),
            ReplyPayload::StandardAppRunTrueMap => STANDARD_APP_RUN_TRUE_MAP.spec_bytes(),
            ReplyPayload::StandardIntZero => STANDARD_INT_ZERO.spec_bytes(),
            ReplyPayload::StandardIntTwo => STANDARD_INT_TWO.spec_bytes(),
            ReplyPayload::StandardIntThree => STANDARD_INT_THREE.spec_bytes(),
            ReplyPayload::BasicNull => BASIC_NULL.spec_bytes(),
            ReplyPayload::BasicAppPath => BASIC_APP_PATH.spec_bytes(),
        }
    }

    /// The bytes of the reply on the wire.
    pub fn bytes(&self) -> (encoded: &'static [u8])
        ensures
            encoded@ == self.encoding(),
    {
        match self {
            ReplyPayload::JsonNull => JSON_NULL.as_bytes(),
            ReplyPayload::JsonTrue => JSON_TRUE.as_bytes(),
            ReplyPayload::JsonFalse => JSON_FALSE.as_bytes(),
            ReplyPayload::JsonZero => JSON_ZERO.as_bytes(),
            ReplyPayload::JsonSix => JSON_SIX.as_bytes(),
            ReplyPayload::Json2025 => JSON_2025.as_bytes(),
            ReplyPayload::JsonMinusOne => JSON_MINUS_ONE.as_bytes(),
            ReplyPayload::JsonNavigationMode => JSON_NAVIGATION_MODE.as_bytes(),
            ReplyPayload::JsonFalseString => JSON_FALSE_STRING.as_bytes(),
            ReplyPayload::JsonEmptyMap => JSON_EMPTY_MAP.as_bytes(),
            ReplyPayload::JsonEmptyList => JSON_EMPTY_LIST.as_bytes(),
            ReplyPayload::JsonEmptyString => JSON_EMPTY_STRING.as_bytes(),
            ReplyPayload::JsonZeroCorners => JSON_ZERO_CORNERS.as_bytes(),
            ReplyPayload::JsonGlassUnsupported => JSON_GLASS_UNSUPPORTED.as_bytes(),
            ReplyPayload::JsonSharedOpen => JSON_SHARED_OPEN.as_bytes(),
            ReplyPayload::JsonSharedAppRunOpen => JSON_SHARED_APP_RUN_OPEN.as_bytes(),
            ReplyPayload::JsonDeviceFlagship => JSON_DEVICE_FLAGSHIP.as_bytes(),
            ReplyPayload::JsonPackageInfo => JSON_PACKAGE_INFO.as_bytes(),
            ReplyPayload::JsonCn => JSON_CN.as_bytes(),
            ReplyPayload::JsonZhCn => JSON_ZH_CN.as_bytes(),
            ReplyPayload::JsonCnRegion => JSON_CN_REGION.as_bytes(),
            ReplyPayload::JsonLocationTest => JSON_LOCATION_TEST.as_bytes(),
            ReplyPayload::JsonConfiguration => JSON_CONFIGURATION.as_bytes(),
            ReplyPayload::StandardNull => STANDARD_NULL.as_bytes(),
            ReplyPayload::PigeonNullReply => PIGEON_NULL_REPLY.as_bytes(),
            ReplyPayload::PigeonEmptyMapReply => PIGEON_EMPTY_MAP_REPLY.as_bytes(),
            ReplyPayload::StandardTrue => STANDARD_TRUE.as_bytes(),
            ReplyPayload::StandardFalse => STANDARD_FALSE.as_bytes(),
            ReplyPayload::StandardEmptyMap => STANDARD_EMPTY_MAP.as_bytes(),
            ReplyPayload::StandardAppRunTrueMap => STANDARD_APP_RUN_TRUE_MAP.as_bytes(),
            ReplyPayload::StandardIntZero => STANDARD_INT_ZERO.as_bytes(),
            ReplyPayload::StandardIntTwo => STANDARD_INT_TWO.as_bytes(),
            ReplyPayload::StandardIntThree => STANDARD_INT_THREE.as_bytes(),
            ReplyPayload::BasicNull => BASIC_NULL.as_bytes(),
            ReplyPayload::BasicAppPath => BASIC_APP_PATH.as_bytes(),
        }
    }
}

/// The lifecycle states that the router reports on the lifecycle channel.
#[derive(Clone, Copy, PartialEq, Eq, Structural, Debug)]
pub enum LifecycleState {
    Resumed,
    Inactive,
    Paused,
    Detached,
}

/// Which of the two location permissions the user granted.
#[derive(Clone, Copy, PartialEq, Eq, Structural, Debug)]
pub enum PermissionOutcome {
    BothGranted,
    FineOnly,
    CoarseOnly,
    Denied,
}

/// A message that the router sends to the engine on its own initiative.
#[derive(Clone, Copy, PartialEq, Eq, Structural, Debug)]
pub enum Outbound {
    Lifecycle(LifecycleState),
    OnReady,
    CtaAccepted,
    CtaRouteSearchCity,
    CtaDeclined,
    PermissionResult(PermissionOutcome),
}

impl Outbound {
    /// The channel the message goes out on.
    pub open spec fn channel_name(self) -> Seq<u8> {
        match self {
            Outbound::Lifecycle(_) => CHANNEL_LIFECYCLE.spec_bytes(),
            Outbound::OnReady => CHANNEL_NATIVE_READY.spec_bytes(),
            Outbound::CtaAccepted => CHANNEL_INTENT.spec_bytes(),
            Outbound::CtaRouteSearchCity => CHANNEL_FLUTTER_NAVIGATION.spec_bytes(),
            Outbound::CtaDeclined => CHANNEL_INTENT.spec_bytes(),
            Outbound::PermissionResult(_) => CHANNEL_PERMISSION.spec_bytes(),
        }
    }

    /// The bytes of the message.
    pub open spec fn payload_encoding(self) -> Seq<u8> {
        match self {
            Outbound::Lifecycle(LifecycleState::Resumed) => LIFECYCLE_RESUMED.spec_bytes(),
            Outbound::Lifecycle(LifecycleState::Inactive) => LIFECYCLE_INACTIVE.spec_bytes(),
            Outbound::Lifecycle(LifecycleState::Paused) => LIFECYCLE_PAUSED.spec_bytes(),
            Outbound::Lifecycle(LifecycleState::Detached) => LIFECYCLE_DETACHED.spec_bytes(),
            Outbound::OnReady => ON_READY.spec_bytes(),
            Outbound::CtaAccepted => CTA_ACTIVITY_RESULT_ACCEPTED.spec_bytes(),
            Outbound::CtaRouteSearchCity => CTA_ROUTE_SEARCH_CITY.spec_bytes(),
            Outbound::CtaDeclined => CTA_ACTIVITY_RESULT_DECLINED.spec_bytes(),
            Outbound::PermissionResult(PermissionOutcome::BothGranted) => PERMISSION_RESULT_BOTH_GRANTED.spec_bytes(),
            Outbound::PermissionResult(PermissionOutcome::FineOnly) => PERMISSION_RESULT_FINE_ONLY.spec_bytes(),
            Outbound::PermissionResult(PermissionOutcome::CoarseOnly) => PERMISSION_RESULT_COARSE_ONLY.spec_bytes(),
            Outbound::PermissionResult(PermissionOutcome::Denied) => PERMISSION_RESULT_DENIED.spec_bytes(),
        }
    }

    /// The channel the message goes out on.
    pub fn channel(&self) -> (name: &'static [u8])
        ensures
            name@ == self.channel_name(),
    {
        match self {
            Outbound::Lifecycle(_) => CHANNEL_LIFECYCLE.as_bytes(),
            Outbound::OnReady => CHANNEL_NATIVE_READY.as_bytes(),
            Outbound::CtaAccepted => CHANNEL_INTENT.as_bytes(),
            Outbound::CtaRouteSearchCity => CHANNEL_FLUTTER_NAVIGATION.as_bytes(),
            Outbound::CtaDeclined => CHANNEL_INTENT.as_bytes(),
            Outbound::PermissionResult(_) => CHANNEL_PERMISSION.as_bytes(),
        }
    }

    /// The bytes of the message.
    pub fn payload(&self) -> (encoded: &'static [u8])
        ensures
            encoded@ == self.payload_encoding(),
    {
        match self {
            Outbound::Lifecycle(LifecycleState::Resumed) => LIFECYCLE_RESUMED.as_bytes(),
            Outbound::Lifecycle(LifecycleState::Inactive) => LIFECYCLE_INACTIVE.as_bytes(),
            Outbound::Lifecycle(LifecycleState::Paused) => LIFECYCLE_PAUSED.as_bytes(),
            Outbound::Lifecycle(LifecycleState::Detached) => LIFECYCLE_DETACHED.as_bytes(),
            Outbound::OnReady => ON_READY.as_bytes(),
            Outbound::CtaAccepted => CTA_ACTIVITY_RESULT_ACCEPTED.as_bytes(),
            Outbound::CtaRouteSearchCity => CTA_ROUTE_SEARCH_CITY.as_bytes(),
            Outbound::CtaDeclined => CTA_ACTIVITY_RESULT_DECLINED.as_bytes(),
            Outbound::PermissionResult(PermissionOutcome::BothGranted) => PERMISSION_RESULT_BOTH_GRANTED.as_bytes(),
            Outbound::PermissionResult(PermissionOutcome::FineOnly) => PERMISSION_RESULT_FINE_ONLY.as_bytes(),
            Outbound::PermissionResult(PermissionOutcome::CoarseOnly) => PERMISSION_RESULT_COARSE_ONLY.as_bytes(),
            Outbound::PermissionResult(PermissionOutcome::Denied) => PERMISSION_RESULT_DENIED.as_bytes(),
        }
    }
}

/// Android log priority of informational messages.
pub const ANDROID_LOG_INFO: i32 = 4;

/// Android log priority of warnings.
pub const ANDROID_LOG_WARN: i32 = 5;

/// The tag under which the router logs, NUL-terminated.
pub const LOG_TAG: &'static str = "SnowWeatherRouter\0";

/// A fixed message that the router writes to the Android log.
#[derive(Clone, Copy, PartialEq, Eq, Structural, Debug)]
pub enum LogMessage {
    UserAgreementAccepted,
    UserAgreementPending,
    LocationPermissionGranted,
    LocationPermissionDenied,
    CtaAcceptanceDelivered,
    CtaDeclineDelivered,
    PermissionResultDelivered,
    FirstFrame,
    LocationServed,
    ViewportMetricsPushed,
    RuntimeCreateFailed,
    HolderCreateFailed,
    LocalesSet,
    EngineLaunched,
    EngineRetained,
    InputLooperUnavailable,
    InputQueueAttached,
    InputQueueDetached,
    InitialSurfaceBindSkipped,
    SurfaceDestroyDeferred,
    Created,
}

impl LogMessage {
    /// The Android log priority of the message.
    pub open spec fn spec_priority(self) -> i32 {
        match self {
            LogMessage::RuntimeCreateFailed | LogMessage::HolderCreateFailed | LogMessage::InputLooperUnavailable => ANDROID_LOG_WARN,
            _ => ANDROID_LOG_INFO,
        }
    }

    /// The text of the message, NUL-terminated for the C logger.
    pub open spec fn spec_text(self) -> &'static str {
        match self {
            LogMessage::UserAgreementAccepted => "Snow user agreement accepted by CTA\0",
            LogMessage::UserAgreementPending => "Snow user agreement pending\0",
            LogMessage::LocationPermissionGranted => "Snow location permission granted\0",
            LogMessage::LocationPermissionDenied => "Snow location permission denied\0",
            LogMessage::CtaAcceptanceDelivered => "Snow delivered CTA resultCode=1 and search route to Flutter\0",
            LogMessage::CtaDeclineDelivered => "Snow delivered CTA decline to Flutter\0",
            LogMessage::PermissionResultDelivered => "Snow delivered location permission result to Flutter\0",
            LogMessage::FirstFrame => "Snow onFirstFrame callback\0",
            LogMessage::LocationServed => "Snow location channel served v24 result\0",
            LogMessage::ViewportMetricsPushed => "Snow viewport metrics pushed\0",
            LogMessage::RuntimeCreateFailed => "runtime_create failed\0",
            LogMessage::HolderCreateFailed => "create_shell_holder failed\0",
            LogMessage::LocalesSet => "Snow locales set zh-CN\0",
            LogMessage::EngineLaunched => "Snow router engine launched\0",
            LogMessage::EngineRetained => "Snow retained engine until process exit\0",
            LogMessage::InputLooperUnavailable => "Snow input looper unavailable\0",
            LogMessage::InputQueueAttached => "Snow input queue attached\0",
            LogMessage::InputQueueDetached => "Snow input queue detached\0",
            LogMessage::InitialSurfaceBindSkipped => "Snow skipped duplicate initial surface bind\0",
            LogMessage::SurfaceDestroyDeferred => "Snow deferred surface destroy during rebind\0",
            LogMessage::Created => "SnowWeatherRouter onCreate\0",
        }
    }

    /// The Android log priority of the message.
    pub fn priority(&self) -> (level: i32)
        ensures
            level == self.spec_priority(),
    {
        match self {
            LogMessage::RuntimeCreateFailed | LogMessage::HolderCreateFailed | LogMessage::InputLooperUnavailable => ANDROID_LOG_WARN,
            _ => ANDROID_LOG_INFO,
        }
    }

    /// The text of the message, NUL-terminated for the C logger.
    pub fn text(&self) -> (text: &'static str)
        ensures
            text == self.spec_text(),
    {
        match self {
            LogMessage::UserAgreementAccepted => "Snow user agreement accepted by CTA\0",
            LogMessage::UserAgreementPending => "Snow user agreement pending\0",
            LogMessage::LocationPermissionGranted => "Snow location permission granted\0",
            LogMessage::LocationPermissionDenied => "Snow location permission denied\0",
            LogMessage::CtaAcceptanceDelivered => "Snow delivered CTA resultCode=1 and search route to Flutter\0",
            LogMessage::CtaDeclineDelivered => "Snow delivered CTA decline to Flutter\0",
            LogMessage::PermissionResultDelivered => "Snow delivered location permission result to Flutter\0",
            LogMessage::FirstFrame => "Snow onFirstFrame callback\0",
            LogMessage::LocationServed => "Snow location channel served v24 result\0",
            LogMessage::ViewportMetricsPushed => "Snow viewport metrics pushed\0",
            LogMessage::RuntimeCreateFailed => "runtime_create failed\0",
            LogMessage::HolderCreateFailed => "create_shell_holder failed\0",
            LogMessage::LocalesSet => "Snow locales set zh-CN\0",
            LogMessage::EngineLaunched => "Snow router engine launched\0",
            LogMessage::EngineRetained => "Snow retained engine until process exit\0",
            LogMessage::InputLooperUnavailable => "Snow input looper unavailable\0",
            LogMessage::InputQueueAttached => "Snow input queue attached\0",
            LogMessage::InputQueueDetached => "Snow input queue detached\0",
            LogMessage::InitialSurfaceBindSkipped => "Snow skipped duplicate initial surface bind\0",
            LogMessage::SurfaceDestroyDeferred => "Snow deferred surface destroy during rebind\0",
            LogMessage::Created => "SnowWeatherRouter onCreate\0",
        }
    }
}

} // verus!
