//! The wire bytes of every reply and outgoing message, spelled out.
use vstd::prelude::*;
use vstd::string::StringSliceAdditionalSpecFns;
use crate::messages::{
    BASIC_APP_PATH,
    BASIC_NULL,
    CHANNEL_FLUTTER_NAVIGATION,
    CHANNEL_INTENT,
    CHANNEL_LIFECYCLE,
    CHANNEL_NATIVE_READY,
    CHANNEL_PERMISSION,
    CTA_ACTIVITY_RESULT_ACCEPTED,
    CTA_ACTIVITY_RESULT_DECLINED,
    CTA_ROUTE_SEARCH_CITY,
    JSON_2025,
    JSON_CN,
    JSON_CN_REGION,
    JSON_CONFIGURATION,
    JSON_DEVICE_FLAGSHIP,
    JSON_EMPTY_LIST,
    JSON_EMPTY_MAP,
    JSON_EMPTY_STRING,
    JSON_FALSE,
    JSON_FALSE_STRING,
    JSON_GLASS_UNSUPPORTED,
    JSON_LOCATION_TEST,
    JSON_MINUS_ONE,
    JSON_NAVIGATION_MODE,
    JSON_NULL,
    JSON_PACKAGE_INFO,
    JSON_SHARED_APP_RUN_OPEN,
    JSON_SHARED_OPEN,
    JSON_SIX,
    JSON_TRUE,
    JSON_ZERO,
    JSON_ZERO_CORNERS,
    JSON_ZH_CN,
    LIFECYCLE_DETACHED,
    LIFECYCLE_INACTIVE,
    LIFECYCLE_PAUSED,
    LIFECYCLE_RESUMED,
    ON_READY,
    PERMISSION_RESULT_BOTH_GRANTED,
    PERMISSION_RESULT_COARSE_ONLY,
    PERMISSION_RESULT_DENIED,
    PERMISSION_RESULT_FINE_ONLY,
    PIGEON_EMPTY_MAP_REPLY,
    PIGEON_NULL_REPLY,
    STANDARD_APP_RUN_TRUE_MAP,
    STANDARD_EMPTY_MAP,
    STANDARD_FALSE,
    STANDARD_INT_THREE,
    STANDARD_INT_TWO,
    STANDARD_INT_ZERO,
    STANDARD_NULL,
    STANDARD_TRUE,
    LifecycleState,
    Outbound,
    LogMessage,
    PermissionOutcome,
    ReplyPayload,
};
use crate::abi::{hyper_callback_layout, HyperCallbackSlot, HyperEntry};

verus! {

broadcast use vstd::string::is_ascii_spec_bytes;

/// Law: each reply goes on the wire as the literal it names.
pub proof fn lemma_reply_bytes_1()
    ensures
        ReplyPayload::JsonNull.encoding() == seq![0x5bu8, 0x6e, 0x75, 0x6c, 0x6c, 0x5d],
        ReplyPayload::JsonTrue.encoding() == seq![0x5bu8, 0x74, 0x72, 0x75, 0x65, 0x5d],
        ReplyPayload::JsonFalse.encoding() == seq![0x5bu8, 0x66, 0x61, 0x6c, 0x73, 0x65, 0x5d],
        ReplyPayload::JsonZero.encoding() == seq![0x5bu8, 0x30, 0x5d],
        ReplyPayload::JsonSix.encoding() == seq![0x5bu8, 0x36, 0x5d],
        ReplyPayload::Json2025.encoding() == seq![0x5bu8, 0x32, 0x30, 0x32, 0x35, 0x5d],
{
    reveal_strlit("[null]");
    assert(vstd::string::is_ascii(JSON_NULL));
    assert(JSON_NULL.spec_bytes() =~= seq![0x5bu8, 0x6e, 0x75, 0x6c, 0x6c, 0x5d]);
    reveal_strlit("[true]");
    assert(vstd::string::is_ascii(JSON_TRUE));
    assert(JSON_TRUE.spec_bytes() =~= seq![0x5bu8, 0x74, 0x72, 0x75, 0x65, 0x5d]);
    reveal_strlit("[false]");
    assert(vstd::string::is_ascii(JSON_FALSE));
    assert(JSON_FALSE.spec_bytes() =~= seq![0x5bu8, 0x66, 0x61, 0x6c, 0x73, 0x65, 0x5d]);
    reveal_strlit("[0]");
    assert(vstd::string::is_ascii(JSON_ZERO));
    assert(JSON_ZERO.spec_bytes() =~= seq![0x5bu8, 0x30, 0x5d]);
    reveal_strlit("[6]");
    assert(vstd::string::is_ascii(JSON_SIX));
    assert(JSON_SIX.spec_bytes() =~= seq![0x5bu8, 0x36, 0x5d]);
    reveal_strlit("[2025]");
    assert(vstd::string::is_ascii(JSON_2025));
    assert(JSON_2025.spec_bytes() =~= seq![0x5bu8, 0x32, 0x30, 0x32, 0x35, 0x5d]);
}

/// Law: each reply goes on the wire as the literal it names.
pub proof fn lemma_reply_bytes_2()
    ensures
        ReplyPayload::JsonMinusOne.encoding() == seq![0x5bu8, 0x2d, 0x31, 0x5d],
        ReplyPayload::JsonNavigationMode.encoding() == seq![0x5bu8, 0x32, 0x5d],
        ReplyPayload::JsonFalseString.encoding() == seq![0x5bu8, 0x22, 0x66, 0x61, 0x6c, 0x73, 0x65, 0x22, 0x5d],
        ReplyPayload::JsonEmptyMap.encoding() == seq![0x5bu8, 0x7b, 0x7d, 0x5d],
        ReplyPayload::JsonEmptyList.encoding() == seq![0x5bu8, 0x5b, 0x5d, 0x5d],
        ReplyPayload::JsonEmptyString.encoding() == seq![0x5bu8, 0x22, 0x5b, 0x5d, 0x22, 0x5d],
{
    reveal_strlit("[-1]");
    assert(vstd::string::is_ascii(JSON_MINUS_ONE));
    assert(JSON_MINUS_ONE.spec_bytes() =~= seq![0x5bu8, 0x2d, 0x31, 0x5d]);
    reveal_strlit("[2]");
    assert(vstd::string::is_ascii(JSON_NAVIGATION_MODE));
    assert(JSON_NAVIGATION_MODE.spec_bytes() =~= seq![0x5bu8, 0x32, 0x5d]);
    reveal_strlit("[\"false\"]");
    assert(vstd::string::is_ascii(JSON_FALSE_STRING));
    assert(JSON_FALSE_STRING.spec_bytes() =~= seq![0x5bu8, 0x22, 0x66, 0x61, 0x6c, 0x73, 0x65, 0x22, 0x5d]);
    reveal_strlit("[{}]");
    assert(vstd::string::is_ascii(JSON_EMPTY_MAP));
    assert(JSON_EMPTY_MAP.spec_bytes() =~= seq![0x5bu8, 0x7b, 0x7d, 0x5d]);
    reveal_strlit("[[]]");
    assert(vstd::string::is_ascii(JSON_EMPTY_LIST));
    assert(JSON_EMPTY_LIST.spec_bytes() =~= seq![0x5bu8, 0x5b, 0x5d, 0x5d]);
    reveal_strlit("[\"[]\"]");
    assert(vstd::string::is_ascii(JSON_EMPTY_STRING));
    assert(JSON_EMPTY_STRING.spec_bytes() =~= seq![0x5bu8, 0x22, 0x5b, 0x5d, 0x22, 0x5d]);
}

/// Law: each reply goes on the wire as the literal it names.
pub proof fn lemma_reply_bytes_3()
    ensures
        ReplyPayload::JsonZeroCorners.encoding() == seq![0x5bu8, 0x5b, 0x30, 0x2c, 0x30, 0x2c, 0x30, 0x2c, 0x30, 0x5d, 0x5d],
        ReplyPayload::JsonGlassUnsupported.encoding() == seq![0x5bu8, 0x7b, 0x22, 0x69, 0x73, 0x53, 0x75, 0x70, 0x70, 0x6f, 0x72, 0x74, 0x4d, 0x61, 0x74, 0x65, 0x72, 0x69, 0x61, 0x6c, 0x22, 0x3a, 0x66, 0x61, 0x6c, 0x73, 0x65, 0x2c, 0x22, 0x69, 0x73, 0x53, 0x75, 0x70, 0x70, 0x6f, 0x72, 0x74, 0x47, 0x6c, 0x61, 0x73, 0x73, 0x22, 0x3a, 0x66, 0x61, 0x6c, 0x73, 0x65, 0x7d, 0x5d],
        ReplyPayload::JsonSharedOpen.encoding() == seq![0x5bu8, 0x22, 0x53, 0x6e, 0x6f, 0x77, 0x57, 0x65, 0x61, 0x74, 0x68, 0x65, 0x72, 0x50, 0x72, 0x65, 0x66, 0x73, 0x22, 0x5d],
        ReplyPayload::JsonSharedAppRunOpen.encoding() == seq![0x5bu8, 0x22, 0x53, 0x6e, 0x6f, 0x77, 0x57, 0x65, 0x61, 0x74, 0x68, 0x65, 0x72, 0x41, 0x70, 0x70, 0x52, 0x75, 0x6e, 0x22, 0x5d],
        ReplyPayload::JsonDeviceFlagship.encoding() == seq![0x5bu8, 0x7b, 0x22, 0x63, 0x70, 0x75, 0x5f, 0x6c, 0x65, 0x76, 0x65, 0x6c, 0x22, 0x3a, 0x33, 0x2c, 0x22, 0x67, 0x70, 0x75, 0x5f, 0x6c, 0x65, 0x76, 0x65, 0x6c, 0x22, 0x3a, 0x33, 0x2c, 0x22, 0x72, 0x61, 0x6d, 0x5f, 0x6c, 0x65, 0x76, 0x65, 0x6c, 0x22, 0x3a, 0x33, 0x7d, 0x5d],
        ReplyPayload::JsonPackageInfo.encoding() == "[{\"versionName\":\"[IP]-R-Snow-v18-hybrid\",\"versionCode\":180000255,\"lastUpdateTime\":0,\"applicationInfo\":{\"flags\":0,\"enabled\":true}}]".spec_bytes(),
        ReplyPayload::JsonPackageInfo.encoding().len() == 130,
{
    reveal_strlit("[[0,0,0,0]]");
    assert(vstd::string::is_ascii(JSON_ZERO_CORNERS));
    assert(JSON_ZERO_CORNERS.spec_bytes() =~= seq![0x5bu8, 0x5b, 0x30, 0x2c, 0x30, 0x2c, 0x30, 0x2c, 0x30, 0x5d, 0x5d]);
    reveal_strlit("[{\"isSupportMaterial\":false,\"isSupportGlass\":false}]");
    assert(vstd::string::is_ascii(JSON_GLASS_UNSUPPORTED));
    assert(JSON_GLASS_UNSUPPORTED.spec_bytes() =~= seq![0x5bu8, 0x7b, 0x22, 0x69, 0x73, 0x53, 0x75, 0x70, 0x70, 0x6f, 0x72, 0x74, 0x4d, 0x61, 0x74, 0x65, 0x72, 0x69, 0x61, 0x6c, 0x22, 0x3a, 0x66, 0x61, 0x6c, 0x73, 0x65, 0x2c, 0x22, 0x69, 0x73, 0x53, 0x75, 0x70, 0x70, 0x6f, 0x72, 0x74, 0x47, 0x6c, 0x61, 0x73, 0x73, 0x22, 0x3a, 0x66, 0x61, 0x6c, 0x73, 0x65, 0x7d, 0x5d]);
    reveal_strlit("[\"SnowWeatherPrefs\"]");
    assert(vstd::string::is_ascii(JSON_SHARED_OPEN));
    assert(JSON_SHARED_OPEN.spec_bytes() =~= seq![0x5bu8, 0x22, 0x53, 0x6e, 0x6f, 0x77, 0x57, 0x65, 0x61, 0x74, 0x68, 0x65, 0x72, 0x50, 0x72, 0x65, 0x66, 0x73, 0x22, 0x5d]);
    reveal_strlit("[\"SnowWeatherAppRun\"]");
    assert(vstd::string::is_ascii(JSON_SHARED_APP_RUN_OPEN));
    assert(JSON_SHARED_APP_RUN_OPEN.spec_bytes() =~= seq![0x5bu8, 0x22, 0x53, 0x6e, 0x6f, 0x77, 0x57, 0x65, 0x61, 0x74, 0x68, 0x65, 0x72, 0x41, 0x70, 0x70, 0x52, 0x75, 0x6e, 0x22, 0x5d]);
    reveal_strlit("[{\"cpu_level\":3,\"gpu_level\":3,\"ram_level\":3}]");
    assert(vstd::string::is_ascii(JSON_DEVICE_FLAGSHIP));
    assert(JSON_DEVICE_FLAGSHIP.spec_bytes() =~= seq![0x5bu8, 0x7b, 0x22, 0x63, 0x70, 0x75, 0x5f, 0x6c, 0x65, 0x76, 0x65, 0x6c, 0x22, 0x3a, 0x33, 0x2c, 0x22, 0x67, 0x70, 0x75, 0x5f, 0x6c, 0x65, 0x76, 0x65, 0x6c, 0x22, 0x3a, 0x33, 0x2c, 0x22, 0x72, 0x61, 0x6d, 0x5f, 0x6c, 0x65, 0x76, 0x65, 0x6c, 0x22, 0x3a, 0x33, 0x7d, 0x5d]);
    reveal_strlit("[{\"versionName\":\"[IP]-R-Snow-v18-hybrid\",\"versionCode\":180000255,\"lastUpdateTime\":0,\"applicationInfo\":{\"flags\":0,\"enabled\":true}}]");
    assert(vstd::string::is_ascii(JSON_PACKAGE_INFO));
}

/// Law: each reply goes on the wire as the literal it names.
pub proof fn lemma_reply_bytes_4()
    ensures
        ReplyPayload::JsonCn.encoding() == seq![0x5bu8, 0x22, 0x63, 0x6e, 0x22, 0x5d],
        ReplyPayload::JsonZhCn.encoding() == seq![0x5bu8, 0x22, 0x7a, 0x68, 0x2d, 0x43, 0x4e, 0x22, 0x5d],
        ReplyPayload::JsonCnRegion.encoding() == seq![0x5bu8, 0x22, 0x43, 0x4e, 0x22, 0x5d],
        ReplyPayload::JsonLocationTest.encoding() == r##"["{\"mLatitude\":23.108,\"mLongitude\":113.265,\"mStreetName\":\"\",\"mCityName\":\"\",\"mAdminArea\":\"\",\"mSubLocality\":\"\",\"mCountryName\":\"China\",\"mErrorCode\":0,\"mErrorInfo\":\"\",\"mLocationType\":\"5\"}"]"##.spec_bytes(),
        ReplyPayload::JsonLocationTest.encoding().len() == 219,
        ReplyPayload::JsonConfiguration.encoding() == "[{\"screen_layout\":0,\"orientation\":1,\"color_mode\":0,\"screen_type\":0,\"screen_width_dp\":393,\"screen_height_dp\":873,\"smallest_screen_width_dp\":393,\"density_dpi\":440,\"display_id\":0,\"display_name\":\"Built-in Screen\",\"display_logical_density_dpi\":440,\"display_shape_width\":1080,\"display_shape_height\":2400,\"display_cutout\":{\"left\":0,\"top\":0,\"right\":0,\"bottom\":0,\"bounding_rect_left\":{\"left\":0,\"top\":0,\"right\":0,\"bottom\":0},\"bounding_rect_top\":{\"left\":0,\"top\":0,\"right\":0,\"bottom\":0},\"bounding_rect_right\":{\"left\":0,\"top\":0,\"right\":0,\"bottom\":0},\"bounding_rect_bottom\":{\"left\":0,\"top\":0,\"right\":0,\"bottom\":0}},\"window_bounds\":{\"left\":0,\"top\":0,\"right\":1080,\"bottom\":2400},\"is_multi_window\":false,\"dm_width_pixels\":1080,\"dm_height_pixels\":2400,\"dm_density\":2.75,\"dm_density_dpi\":440,\"dm_scaled_density\":2.75,\"dm_x_dpi\":440,\"dm_y_dpi\":440}]".spec_bytes(),
        ReplyPayload::JsonConfiguration.encoding().len() == 829,
        ReplyPayload::StandardNull.encoding() == seq![0x00u8, 0x00],
{
    reveal_strlit("[\"cn\"]");
    assert(vstd::string::is_ascii(JSON_CN));
    assert(JSON_CN.spec_bytes() =~= seq![0x5bu8, 0x22, 0x63, 0x6e, 0x22, 0x5d]);
    reveal_strlit("[\"zh-CN\"]");
    assert(vstd::string::is_ascii(JSON_ZH_CN));
    assert(JSON_ZH_CN.spec_bytes() =~= seq![0x5bu8, 0x22, 0x7a, 0x68, 0x2d, 0x43, 0x4e, 0x22, 0x5d]);
    reveal_strlit("[\"CN\"]");
    assert(vstd::string::is_ascii(JSON_CN_REGION));
    assert(JSON_CN_REGION.spec_bytes() =~= seq![0x5bu8, 0x22, 0x43, 0x4e, 0x22, 0x5d]);
    reveal_strlit(r##"["{\"mLatitude\":23.108,\"mLongitude\":113.265,\"mStreetName\":\"\",\"mCityName\":\"\",\"mAdminArea\":\"\",\"mSubLocality\":\"\",\"mCountryName\":\"China\",\"mErrorCode\":0,\"mErrorInfo\":\"\",\"mLocationType\":\"5\"}"]"##);
    assert(vstd::string::is_ascii(JSON_LOCATION_TEST));
    reveal_strlit("[{\"screen_layout\":0,\"orientation\":1,\"color_mode\":0,\"screen_type\":0,\"screen_width_dp\":393,\"screen_height_dp\":873,\"smallest_screen_width_dp\":393,\"density_dpi\":440,\"display_id\":0,\"display_name\":\"Built-in Screen\",\"display_logical_density_dpi\":440,\"display_shape_width\":1080,\"display_shape_height\":2400,\"display_cutout\":{\"left\":0,\"top\":0,\"right\":0,\"bottom\":0,\"bounding_rect_left\":{\"left\":0,\"top\":0,\"right\":0,\"bottom\":0},\"bounding_rect_top\":{\"left\":0,\"top\":0,\"right\":0,\"bottom\":0},\"bounding_rect_right\":{\"left\":0,\"top\":0,\"right\":0,\"bottom\":0},\"bounding_rect_bottom\":{\"left\":0,\"top\":0,\"right\":0,\"bottom\":0}},\"window_bounds\":{\"left\":0,\"top\":0,\"right\":1080,\"bottom\":2400},\"is_multi_window\":false,\"dm_width_pixels\":1080,\"dm_height_pixels\":2400,\"dm_density\":2.75,\"dm_density_dpi\":440,\"dm_scaled_density\":2.75,\"dm_x_dpi\":440,\"dm_y_dpi\":440}]");
    assert(vstd::string::is_ascii(JSON_CONFIGURATION));
    reveal_strlit("\x00\x00");
    assert(vstd::string::is_ascii(STANDARD_NULL));
    assert(STANDARD_NULL.spec_bytes() =~= seq![0x00u8, 0x00]);
}

/// Law: each reply goes on the wire as the literal it names.
pub proof fn lemma_reply_bytes_5()
    ensures
        ReplyPayload::PigeonNullReply.encoding() == seq![0x0cu8, 0x01, 0x00],
        ReplyPayload::PigeonEmptyMapReply.encoding() == seq![0x0cu8, 0x01, 0x0d, 0x00],
        ReplyPayload::StandardTrue.encoding() == seq![0x00u8, 0x01],
        ReplyPayload::StandardFalse.encoding() == seq![0x00u8, 0x02],
        ReplyPayload::StandardEmptyMap.encoding() == seq![0x00u8, 0x0d, 0x00],
        ReplyPayload::StandardAppRunTrueMap.encoding() == seq![0x00u8, 0x0d, 0x01, 0x07, 0x07, 0x61, 0x70, 0x70, 0x5f, 0x72, 0x75, 0x6e, 0x01],
{
    reveal_strlit("\x0c\x01\x00");
    assert(vstd::string::is_ascii(PIGEON_NULL_REPLY));
    assert(PIGEON_NULL_REPLY.spec_bytes() =~= seq![0x0cu8, 0x01, 0x00]);
    reveal_strlit("\x0c\x01\x0d\x00");
    assert(vstd::string::is_ascii(PIGEON_EMPTY_MAP_REPLY));
    assert(PIGEON_EMPTY_MAP_REPLY.spec_bytes() =~= seq![0x0cu8, 0x01, 0x0d, 0x00]);
    reveal_strlit("\x00\x01");
    assert(vstd::string::is_ascii(STANDARD_TRUE));
    assert(STANDARD_TRUE.spec_bytes() =~= seq![0x00u8, 0x01]);
    reveal_strlit("\x00\x02");
    assert(vstd::string::is_ascii(STANDARD_FALSE));
    assert(STANDARD_FALSE.spec_bytes() =~= seq![0x00u8, 0x02]);
    reveal_strlit("\x00\x0d\x00");
    assert(vstd::string::is_ascii(STANDARD_EMPTY_MAP));
    assert(STANDARD_EMPTY_MAP.spec_bytes() =~= seq![0x00u8, 0x0d, 0x00]);
    reveal_strlit("\x00\x0d\x01\x07\x07app_run\x01");
    assert(vstd::string::is_ascii(STANDARD_APP_RUN_TRUE_MAP));
    assert(STANDARD_APP_RUN_TRUE_MAP.spec_bytes() =~= seq![0x00u8, 0x0d, 0x01, 0x07, 0x07, 0x61, 0x70, 0x70, 0x5f, 0x72, 0x75, 0x6e, 0x01]);
}

/// Law: each reply goes on the wire as the literal it names.
pub proof fn lemma_reply_bytes_6()
    ensures
        ReplyPayload::StandardIntZero.encoding() == seq![0x00u8, 0x03, 0x00, 0x00, 0x00, 0x00],
        ReplyPayload::StandardIntTwo.encoding() == seq![0x00u8, 0x03, 0x02, 0x00, 0x00, 0x00],
        ReplyPayload::StandardIntThree.encoding() == seq![0x00u8, 0x03, 0x03, 0x00, 0x00, 0x00],
        ReplyPayload::BasicNull.encoding() == seq![0x00u8],
        ReplyPayload::BasicAppPath.encoding() == seq![0x07u8, 0x21, 0x2f, 0x64, 0x61, 0x74, 0x61, 0x2f, 0x75, 0x73, 0x65, 0x72, 0x5f, 0x64, 0x65, 0x2f, 0x30, 0x2f, 0x63, 0x6f, 0x6d, 0x2e, 0x6d, 0x69, 0x75, 0x69, 0x2e, 0x77, 0x65, 0x61, 0x74, 0x68, 0x65, 0x72, 0x33],
{
    reveal_strlit("\x00\x03\x00\x00\x00\x00");
    assert(vstd::string::is_ascii(STANDARD_INT_ZERO));
    assert(STANDARD_INT_ZERO.spec_bytes() =~= seq![0x00u8, 0x03, 0x00, 0x00, 0x00, 0x00]);
    reveal_strlit("\x00\x03\x02\x00\x00\x00");
    assert(vstd::string::is_ascii(STANDARD_INT_TWO));
    assert(STANDARD_INT_TWO.spec_bytes() =~= seq![0x00u8, 0x03, 0x02, 0x00, 0x00, 0x00]);
    reveal_strlit("\x00\x03\x03\x00\x00\x00");
    assert(vstd::string::is_ascii(STANDARD_INT_THREE));
    assert(STANDARD_INT_THREE.spec_bytes() =~= seq![0x00u8, 0x03, 0x03, 0x00, 0x00, 0x00]);
    reveal_strlit("\x00");
    assert(vstd::string::is_ascii(BASIC_NULL));
    assert(BASIC_NULL.spec_bytes() =~= seq![0x00u8]);
    reveal_strlit("\x07\x21/data/user_de/0/com.miui.weather3");
    assert(vstd::string::is_ascii(BASIC_APP_PATH));
    assert(BASIC_APP_PATH.spec_bytes() =~= seq![0x07u8, 0x21, 0x2f, 0x64, 0x61, 0x74, 0x61, 0x2f, 0x75, 0x73, 0x65, 0x72, 0x5f, 0x64, 0x65, 0x2f, 0x30, 0x2f, 0x63, 0x6f, 0x6d, 0x2e, 0x6d, 0x69, 0x75, 0x69, 0x2e, 0x77, 0x65, 0x61, 0x74, 0x68, 0x65, 0x72, 0x33]);
}

/// The length of a reply's bytes, and the one byte that tells apart the
/// replies of that length.
spec fn reply_signature(bytes: Seq<u8>) -> (int, u8) {
    (bytes.len() as int, if 2 <= bytes.len() <= 4 {
        bytes[1]
    } else if bytes.len() == 6 || bytes.len() == 9 {
        bytes[2]
    } else {
        0u8
    })
}

/// The reply whose bytes have the given signature.
spec fn reply_with_signature(signature: (int, u8)) -> ReplyPayload {
    if signature.0 == 1 {
        ReplyPayload::BasicNull
    } else if signature.0 == 2 {
        if signature.1 == 0 {
            ReplyPayload::StandardNull
        } else if signature.1 == 1 {
            ReplyPayload::StandardTrue
        } else {
            ReplyPayload::StandardFalse
        }
    } else if signature.0 == 3 {
        if signature.1 == 48 {
            ReplyPayload::JsonZero
        } else if signature.1 == 54 {
            ReplyPayload::JsonSix
        } else if signature.1 == 50 {
            ReplyPayload::JsonNavigationMode
        } else if signature.1 == 1 {
            ReplyPayload::PigeonNullReply
        } else {
            ReplyPayload::StandardEmptyMap
        }
    } else if signature.0 == 4 {
        if signature.1 == 45 {
            ReplyPayload::JsonMinusOne
        } else if signature.1 == 123 {
            ReplyPayload::JsonEmptyMap
        } else if signature.1 == 91 {
            ReplyPayload::JsonEmptyList
        } else {
            ReplyPayload::PigeonEmptyMapReply
        }
    } else if signature.0 == 6 {
        if signature.1 == 117 {
            ReplyPayload::JsonNull
        } else if signature.1 == 114 {
            ReplyPayload::JsonTrue
        } else if signature.1 == 48 {
            ReplyPayload::Json2025
        } else if signature.1 == 91 {
            ReplyPayload::JsonEmptyString
        } else if signature.1 == 99 {
            ReplyPayload::JsonCn
        } else if signature.1 == 67 {
            ReplyPayload::JsonCnRegion
        } else if signature.1 == 0 {
            ReplyPayload::StandardIntZero
        } else if signature.1 == 2 {
            ReplyPayload::StandardIntTwo
        } else {
            ReplyPayload::StandardIntThree
        }
    } else if signature.0 == 7 {
        ReplyPayload::JsonFalse
    } else if signature.0 == 9 {
        if signature.1 == 102 {
            ReplyPayload::JsonFalseString
        } else {
            ReplyPayload::JsonZhCn
        }
    } else if signature.0 == 11 {
        ReplyPayload::JsonZeroCorners
    } else if signature.0 == 13 {
        ReplyPayload::StandardAppRunTrueMap
    } else if signature.0 == 20 {
        ReplyPayload::JsonSharedOpen
    } else if signature.0 == 21 {
        ReplyPayload::JsonSharedAppRunOpen
    } else if signature.0 == 35 {
        ReplyPayload::BasicAppPath
    } else if signature.0 == 45 {
        ReplyPayload::JsonDeviceFlagship
    } else if signature.0 == 52 {
        ReplyPayload::JsonGlassUnsupported
    } else if signature.0 == 130 {
        ReplyPayload::JsonPackageInfo
    } else if signature.0 == 219 {
        ReplyPayload::JsonLocationTest
    } else {
        ReplyPayload::JsonConfiguration
    }
}

/// Each reply is found again from the signature of its bytes.
proof fn lemma_reply_recovered(reply: ReplyPayload)
    ensures
        reply_with_signature(reply_signature(reply.encoding())) == reply,
{
    lemma_reply_bytes_1();
    lemma_reply_bytes_2();
    lemma_reply_bytes_3();
    lemma_reply_bytes_4();
    lemma_reply_bytes_5();
    lemma_reply_bytes_6();
}

/// Law: two replies put the same bytes on the wire only if they are the same
/// reply, so the bytes tell which answer was meant.
pub proof fn lemma_reply_encoding_injective(first: ReplyPayload, second: ReplyPayload)
    ensures
        first.encoding() == second.encoding() <==> first == second,
{
    lemma_reply_recovered(first);
    lemma_reply_recovered(second);
}

/// Law: each outgoing message goes out on its own channel: lifecycle states on `flutter/lifecycle`, readiness on the native-ready channel, the agreement result on the intent channel, the search route on `flutter/navigation`, permission results on the permission channel.
pub proof fn lemma_outbound_channels()
    ensures
        Outbound::Lifecycle(LifecycleState::Resumed).channel_name() == seq![0x66u8, 0x6c, 0x75, 0x74, 0x74, 0x65, 0x72, 0x2f, 0x6c, 0x69, 0x66, 0x65, 0x63, 0x79, 0x63, 0x6c, 0x65],
        Outbound::Lifecycle(LifecycleState::Inactive).channel_name() == seq![0x66u8, 0x6c, 0x75, 0x74, 0x74, 0x65, 0x72, 0x2f, 0x6c, 0x69, 0x66, 0x65, 0x63, 0x79, 0x63, 0x6c, 0x65],
        Outbound::Lifecycle(LifecycleState::Paused).channel_name() == seq![0x66u8, 0x6c, 0x75, 0x74, 0x74, 0x65, 0x72, 0x2f, 0x6c, 0x69, 0x66, 0x65, 0x63, 0x79, 0x63, 0x6c, 0x65],
        Outbound::Lifecycle(LifecycleState::Detached).channel_name() == seq![0x66u8, 0x6c, 0x75, 0x74, 0x74, 0x65, 0x72, 0x2f, 0x6c, 0x69, 0x66, 0x65, 0x63, 0x79, 0x63, 0x6c, 0x65],
        Outbound::OnReady.channel_name() == seq![0x63u8, 0x6f, 0x6d, 0x2e, 0x78, 0x69, 0x61, 0x6f, 0x6d, 0x69, 0x2e, 0x68, 0x79, 0x70, 0x65, 0x72, 0x6f, 0x73, 0x2f, 0x6e, 0x61, 0x74, 0x69, 0x76, 0x65, 0x5f, 0x72, 0x65, 0x61, 0x64, 0x79],
        Outbound::CtaAccepted.channel_name() == seq![0x63u8, 0x6f, 0x6d, 0x2e, 0x61, 0x6e, 0x64, 0x72, 0x6f, 0x69, 0x64, 0x2e, 0x63, 0x6f, 0x6e, 0x74, 0x65, 0x6e, 0x74, 0x2e, 0x69, 0x6e, 0x74, 0x65, 0x6e, 0x74, 0x2e, 0x6d, 0x65, 0x74, 0x68, 0x6f, 0x64, 0x2e, 0x63, 0x68, 0x61, 0x6e, 0x6e, 0x65, 0x6c],
        Outbound::CtaRouteSearchCity.channel_name() == seq![0x66u8, 0x6c, 0x75, 0x74, 0x74, 0x65, 0x72, 0x2f, 0x6e, 0x61, 0x76, 0x69, 0x67, 0x61, 0x74, 0x69, 0x6f, 0x6e],
        Outbound::CtaDeclined.channel_name() == seq![0x63u8, 0x6f, 0x6d, 0x2e, 0x61, 0x6e, 0x64, 0x72, 0x6f, 0x69, 0x64, 0x2e, 0x63, 0x6f, 0x6e, 0x74, 0x65, 0x6e, 0x74, 0x2e, 0x69, 0x6e, 0x74, 0x65, 0x6e, 0x74, 0x2e, 0x6d, 0x65, 0x74, 0x68, 0x6f, 0x64, 0x2e, 0x63, 0x68, 0x61, 0x6e, 0x6e, 0x65, 0x6c],
        Outbound::PermissionResult(PermissionOutcome::BothGranted).channel_name() == seq![0x63u8, 0x6f, 0x6d, 0x2e, 0x61, 0x6e, 0x64, 0x72, 0x6f, 0x69, 0x64, 0x2e, 0x70, 0x65, 0x72, 0x6d, 0x69, 0x73, 0x73, 0x69, 0x6f, 0x6e, 0x2e, 0x6d, 0x65, 0x74, 0x68, 0x6f, 0x64, 0x2e, 0x63, 0x68, 0x61, 0x6e, 0x6e, 0x65, 0x6c],
        Outbound::PermissionResult(PermissionOutcome::FineOnly).channel_name() == seq![0x63u8, 0x6f, 0x6d, 0x2e, 0x61, 0x6e, 0x64, 0x72, 0x6f, 0x69, 0x64, 0x2e, 0x70, 0x65, 0x72, 0x6d, 0x69, 0x73, 0x73, 0x69, 0x6f, 0x6e, 0x2e, 0x6d, 0x65, 0x74, 0x68, 0x6f, 0x64, 0x2e, 0x63, 0x68, 0x61, 0x6e, 0x6e, 0x65, 0x6c],
        Outbound::PermissionResult(PermissionOutcome::CoarseOnly).channel_name() == seq![0x63u8, 0x6f, 0x6d, 0x2e, 0x61, 0x6e, 0x64, 0x72, 0x6f, 0x69, 0x64, 0x2e, 0x70, 0x65, 0x72, 0x6d, 0x69, 0x73, 0x73, 0x69, 0x6f, 0x6e, 0x2e, 0x6d, 0x65, 0x74, 0x68, 0x6f, 0x64, 0x2e, 0x63, 0x68, 0x61, 0x6e, 0x6e, 0x65, 0x6c],
        Outbound::PermissionResult(PermissionOutcome::Denied).channel_name() == seq![0x63u8, 0x6f, 0x6d, 0x2e, 0x61, 0x6e, 0x64, 0x72, 0x6f, 0x69, 0x64, 0x2e, 0x70, 0x65, 0x72, 0x6d, 0x69, 0x73, 0x73, 0x69, 0x6f, 0x6e, 0x2e, 0x6d, 0x65, 0x74, 0x68, 0x6f, 0x64, 0x2e, 0x63, 0x68, 0x61, 0x6e, 0x6e, 0x65, 0x6c],
{
    reveal_strlit("flutter/lifecycle");
    assert(vstd::string::is_ascii(CHANNEL_LIFECYCLE));
    assert(CHANNEL_LIFECYCLE.spec_bytes() =~= seq![0x66u8, 0x6c, 0x75, 0x74, 0x74, 0x65, 0x72, 0x2f, 0x6c, 0x69, 0x66, 0x65, 0x63, 0x79, 0x63, 0x6c, 0x65]);
    reveal_strlit("com.xiaomi.hyperos/native_ready");
    assert(vstd::string::is_ascii(CHANNEL_NATIVE_READY));
    assert(CHANNEL_NATIVE_READY.spec_bytes() =~= seq![0x63u8, 0x6f, 0x6d, 0x2e, 0x78, 0x69, 0x61, 0x6f, 0x6d, 0x69, 0x2e, 0x68, 0x79, 0x70, 0x65, 0x72, 0x6f, 0x73, 0x2f, 0x6e, 0x61, 0x74, 0x69, 0x76, 0x65, 0x5f, 0x72, 0x65, 0x61, 0x64, 0x79]);
    reveal_strlit("com.android.content.intent.method.channel");
    assert(vstd::string::is_ascii(CHANNEL_INTENT));
    assert(CHANNEL_INTENT.spec_bytes() =~= seq![0x63u8, 0x6f, 0x6d, 0x2e, 0x61, 0x6e, 0x64, 0x72, 0x6f, 0x69, 0x64, 0x2e, 0x63, 0x6f, 0x6e, 0x74, 0x65, 0x6e, 0x74, 0x2e, 0x69, 0x6e, 0x74, 0x65, 0x6e, 0x74, 0x2e, 0x6d, 0x65, 0x74, 0x68, 0x6f, 0x64, 0x2e, 0x63, 0x68, 0x61, 0x6e, 0x6e, 0x65, 0x6c]);
    reveal_strlit("flutter/navigation");
    assert(vstd::string::is_ascii(CHANNEL_FLUTTER_NAVIGATION));
    assert(CHANNEL_FLUTTER_NAVIGATION.spec_bytes() =~= seq![0x66u8, 0x6c, 0x75, 0x74, 0x74, 0x65, 0x72, 0x2f, 0x6e, 0x61, 0x76, 0x69, 0x67, 0x61, 0x74, 0x69, 0x6f, 0x6e]);
    reveal_strlit("com.android.permission.method.channel");
    assert(vstd::string::is_ascii(CHANNEL_PERMISSION));
    assert(CHANNEL_PERMISSION.spec_bytes() =~= seq![0x63u8, 0x6f, 0x6d, 0x2e, 0x61, 0x6e, 0x64, 0x72, 0x6f, 0x69, 0x64, 0x2e, 0x70, 0x65, 0x72, 0x6d, 0x69, 0x73, 0x73, 0x69, 0x6f, 0x6e, 0x2e, 0x6d, 0x65, 0x74, 0x68, 0x6f, 0x64, 0x2e, 0x63, 0x68, 0x61, 0x6e, 0x6e, 0x65, 0x6c]);
}

/// Law: each outgoing message carries the literal it names; a lifecycle message names its state after `AppLifecycleState.`.
pub proof fn lemma_outbound_payloads_1()
    ensures
        Outbound::Lifecycle(LifecycleState::Resumed).payload_encoding() == seq![0x41u8, 0x70, 0x70, 0x4c, 0x69, 0x66, 0x65, 0x63, 0x79, 0x63, 0x6c, 0x65, 0x53, 0x74, 0x61, 0x74, 0x65, 0x2e, 0x72, 0x65, 0x73, 0x75, 0x6d, 0x65, 0x64],
        Outbound::Lifecycle(LifecycleState::Inactive).payload_encoding() == seq![0x41u8, 0x70, 0x70, 0x4c, 0x69, 0x66, 0x65, 0x63, 0x79, 0x63, 0x6c, 0x65, 0x53, 0x74, 0x61, 0x74, 0x65, 0x2e, 0x69, 0x6e, 0x61, 0x63, 0x74, 0x69, 0x76, 0x65],
        Outbound::Lifecycle(LifecycleState::Paused).payload_encoding() == seq![0x41u8, 0x70, 0x70, 0x4c, 0x69, 0x66, 0x65, 0x63, 0x79, 0x63, 0x6c, 0x65, 0x53, 0x74, 0x61, 0x74, 0x65, 0x2e, 0x70, 0x61, 0x75, 0x73, 0x65, 0x64],
        Outbound::Lifecycle(LifecycleState::Detached).payload_encoding() == seq![0x41u8, 0x70, 0x70, 0x4c, 0x69, 0x66, 0x65, 0x63, 0x79, 0x63, 0x6c, 0x65, 0x53, 0x74, 0x61, 0x74, 0x65, 0x2e, 0x64, 0x65, 0x74, 0x61, 0x63, 0x68, 0x65, 0x64],
        Outbound::OnReady.payload_encoding() == seq![0x7bu8, 0x22, 0x6d, 0x65, 0x74, 0x68, 0x6f, 0x64, 0x22, 0x3a, 0x22, 0x6f, 0x6e, 0x52, 0x65, 0x61, 0x64, 0x79, 0x22, 0x2c, 0x22, 0x61, 0x72, 0x67, 0x73, 0x22, 0x3a, 0x6e, 0x75, 0x6c, 0x6c, 0x7d],
        Outbound::CtaAccepted.payload_encoding() == "{\"method\":\"onActivityResult\",\"args\":{\"request_code\":1007,\"result_code\":1}}".spec_bytes(),
        Outbound::CtaAccepted.payload_encoding().len() == 74,
{
    reveal_strlit("AppLifecycleState.resumed");
    assert(vstd::string::is_ascii(LIFECYCLE_RESUMED));
    assert(LIFECYCLE_RESUMED.spec_bytes() =~= seq![0x41u8, 0x70, 0x70, 0x4c, 0x69, 0x66, 0x65, 0x63, 0x79, 0x63, 0x6c, 0x65, 0x53, 0x74, 0x61, 0x74, 0x65, 0x2e, 0x72, 0x65, 0x73, 0x75, 0x6d, 0x65, 0x64]);
    reveal_strlit("AppLifecycleState.inactive");
    assert(vstd::string::is_ascii(LIFECYCLE_INACTIVE));
    assert(LIFECYCLE_INACTIVE.spec_bytes() =~= seq![0x41u8, 0x70, 0x70, 0x4c, 0x69, 0x66, 0x65, 0x63, 0x79, 0x63, 0x6c, 0x65, 0x53, 0x74, 0x61, 0x74, 0x65, 0x2e, 0x69, 0x6e, 0x61, 0x63, 0x74, 0x69, 0x76, 0x65]);
    reveal_strlit("AppLifecycleState.paused");
    assert(vstd::string::is_ascii(LIFECYCLE_PAUSED));
    assert(LIFECYCLE_PAUSED.spec_bytes() =~= seq![0x41u8, 0x70, 0x70, 0x4c, 0x69, 0x66, 0x65, 0x63, 0x79, 0x63, 0x6c, 0x65, 0x53, 0x74, 0x61, 0x74, 0x65, 0x2e, 0x70, 0x61, 0x75, 0x73, 0x65, 0x64]);
    reveal_strlit("AppLifecycleState.detached");
    assert(vstd::string::is_ascii(LIFECYCLE_DETACHED));
    assert(LIFECYCLE_DETACHED.spec_bytes() =~= seq![0x41u8, 0x70, 0x70, 0x4c, 0x69, 0x66, 0x65, 0x63, 0x79, 0x63, 0x6c, 0x65, 0x53, 0x74, 0x61, 0x74, 0x65, 0x2e, 0x64, 0x65, 0x74, 0x61, 0x63, 0x68, 0x65, 0x64]);
    reveal_strlit("{\"method\":\"onReady\",\"args\":null}");
    assert(vstd::string::is_ascii(ON_READY));
    assert(ON_READY.spec_bytes() =~= seq![0x7bu8, 0x22, 0x6d, 0x65, 0x74, 0x68, 0x6f, 0x64, 0x22, 0x3a, 0x22, 0x6f, 0x6e, 0x52, 0x65, 0x61, 0x64, 0x79, 0x22, 0x2c, 0x22, 0x61, 0x72, 0x67, 0x73, 0x22, 0x3a, 0x6e, 0x75, 0x6c, 0x6c, 0x7d]);
    reveal_strlit("{\"method\":\"onActivityResult\",\"args\":{\"request_code\":1007,\"result_code\":1}}");
    assert(vstd::string::is_ascii(CTA_ACTIVITY_RESULT_ACCEPTED));
}

/// Law: each outgoing message carries the literal it names; a lifecycle message names its state after `AppLifecycleState.`.
pub proof fn lemma_outbound_payloads_2()
    ensures
        Outbound::CtaRouteSearchCity.payload_encoding() == seq![0x7bu8, 0x22, 0x6d, 0x65, 0x74, 0x68, 0x6f, 0x64, 0x22, 0x3a, 0x22, 0x70, 0x75, 0x73, 0x68, 0x52, 0x6f, 0x75, 0x74, 0x65, 0x22, 0x2c, 0x22, 0x61, 0x72, 0x67, 0x73, 0x22, 0x3a, 0x22, 0x2f, 0x73, 0x65, 0x61, 0x72, 0x63, 0x68, 0x43, 0x69, 0x74, 0x79, 0x22, 0x7d],
        Outbound::CtaDeclined.payload_encoding() == "{\"method\":\"onActivityResult\",\"args\":{\"request_code\":1007,\"result_code\":0}}".spec_bytes(),
        Outbound::CtaDeclined.payload_encoding().len() == 74,
        Outbound::PermissionResult(PermissionOutcome::BothGranted).payload_encoding() == "{\"method\":\"on_request_permission_result\",\"args\":{\"permissions\":[\"android.permission.ACCESS_FINE_LOCATION\",\"android.permission.ACCESS_COARSE_LOCATION\"],\"grant_results\":[0,0],\"request_code\":10000}}".spec_bytes(),
        Outbound::PermissionResult(PermissionOutcome::BothGranted).payload_encoding().len() == 195,
        Outbound::PermissionResult(PermissionOutcome::FineOnly).payload_encoding() == "{\"method\":\"on_request_permission_result\",\"args\":{\"permissions\":[\"android.permission.ACCESS_FINE_LOCATION\",\"android.permission.ACCESS_COARSE_LOCATION\"],\"grant_results\":[0,-1],\"request_code\":10000}}".spec_bytes(),
        Outbound::PermissionResult(PermissionOutcome::FineOnly).payload_encoding().len() == 196,
        Outbound::PermissionResult(PermissionOutcome::CoarseOnly).payload_encoding() == "{\"method\":\"on_request_permission_result\",\"args\":{\"permissions\":[\"android.permission.ACCESS_FINE_LOCATION\",\"android.permission.ACCESS_COARSE_LOCATION\"],\"grant_results\":[-1,0],\"request_code\":10000}}".spec_bytes(),
        Outbound::PermissionResult(PermissionOutcome::CoarseOnly).payload_encoding().len() == 196,
        Outbound::PermissionResult(PermissionOutcome::Denied).payload_encoding() == "{\"method\":\"on_request_permission_result\",\"args\":{\"permissions\":[\"android.permission.ACCESS_FINE_LOCATION\",\"android.permission.ACCESS_COARSE_LOCATION\"],\"grant_results\":[-1,-1],\"request_code\":10000}}".spec_bytes(),
        Outbound::PermissionResult(PermissionOutcome::Denied).payload_encoding().len() == 197,
{
    reveal_strlit("{\"method\":\"pushRoute\",\"args\":\"/searchCity\"}");
    assert(vstd::string::is_ascii(CTA_ROUTE_SEARCH_CITY));
    assert(CTA_ROUTE_SEARCH_CITY.spec_bytes() =~= seq![0x7bu8, 0x22, 0x6d, 0x65, 0x74, 0x68, 0x6f, 0x64, 0x22, 0x3a, 0x22, 0x70, 0x75, 0x73, 0x68, 0x52, 0x6f, 0x75, 0x74, 0x65, 0x22, 0x2c, 0x22, 0x61, 0x72, 0x67, 0x73, 0x22, 0x3a, 0x22, 0x2f, 0x73, 0x65, 0x61, 0x72, 0x63, 0x68, 0x43, 0x69, 0x74, 0x79, 0x22, 0x7d]);
    reveal_strlit("{\"method\":\"onActivityResult\",\"args\":{\"request_code\":1007,\"result_code\":0}}");
    assert(vstd::string::is_ascii(CTA_ACTIVITY_RESULT_DECLINED));
    reveal_strlit("{\"method\":\"on_request_permission_result\",\"args\":{\"permissions\":[\"android.permission.ACCESS_FINE_LOCATION\",\"android.permission.ACCESS_COARSE_LOCATION\"],\"grant_results\":[0,0],\"request_code\":10000}}");
    assert(vstd::string::is_ascii(PERMISSION_RESULT_BOTH_GRANTED));
    reveal_strlit("{\"method\":\"on_request_permission_result\",\"args\":{\"permissions\":[\"android.permission.ACCESS_FINE_LOCATION\",\"android.permission.ACCESS_COARSE_LOCATION\"],\"grant_results\":[0,-1],\"request_code\":10000}}");
    assert(vstd::string::is_ascii(PERMISSION_RESULT_FINE_ONLY));
    reveal_strlit("{\"method\":\"on_request_permission_result\",\"args\":{\"permissions\":[\"android.permission.ACCESS_FINE_LOCATION\",\"android.permission.ACCESS_COARSE_LOCATION\"],\"grant_results\":[-1,0],\"request_code\":10000}}");
    assert(vstd::string::is_ascii(PERMISSION_RESULT_COARSE_ONLY));
    reveal_strlit("{\"method\":\"on_request_permission_result\",\"args\":{\"permissions\":[\"android.permission.ACCESS_FINE_LOCATION\",\"android.permission.ACCESS_COARSE_LOCATION\"],\"grant_results\":[-1,-1],\"request_code\":10000}}");
    assert(vstd::string::is_ascii(PERMISSION_RESULT_DENIED));
}

/// Law: the four lifecycle messages are told apart on the wire.
pub proof fn lemma_lifecycle_states_distinct(first: LifecycleState, second: LifecycleState)
    requires
        first != second,
    ensures
        Outbound::Lifecycle(first).payload_encoding() != Outbound::Lifecycle(second).payload_encoding(),
{
    lemma_outbound_payloads_1();
    let a = Outbound::Lifecycle(first).payload_encoding();
    let b = Outbound::Lifecycle(second).payload_encoding();
    if a == b {
        assert(a.len() == b.len());
        assert(a[18] == b[18]);
        assert(a[19] == b[19]);
    }
}

/// Law: each log message has its own NUL-terminated text; the failures to
/// create the runtime or the shell holder and to find a looper are warnings
/// (priority 5), everything else is informational (priority 4).
pub proof fn lemma_log_messages()
    ensures
        LogMessage::UserAgreementAccepted.spec_text() == "Snow user agreement accepted by CTA\0",
        LogMessage::UserAgreementPending.spec_text() == "Snow user agreement pending\0",
        LogMessage::LocationPermissionGranted.spec_text() == "Snow location permission granted\0",
        LogMessage::LocationPermissionDenied.spec_text() == "Snow location permission denied\0",
        LogMessage::CtaAcceptanceDelivered.spec_text() == "Snow delivered CTA resultCode=1 and search route to Flutter\0",
        LogMessage::CtaDeclineDelivered.spec_text() == "Snow delivered CTA decline to Flutter\0",
        LogMessage::PermissionResultDelivered.spec_text() == "Snow delivered location permission result to Flutter\0",
        LogMessage::FirstFrame.spec_text() == "Snow onFirstFrame callback\0",
        LogMessage::LocationServed.spec_text() == "Snow location channel served v24 result\0",
        LogMessage::ViewportMetricsPushed.spec_text() == "Snow viewport metrics pushed\0",
        LogMessage::RuntimeCreateFailed.spec_text() == "runtime_create failed\0",
        LogMessage::HolderCreateFailed.spec_text() == "create_shell_holder failed\0",
        LogMessage::LocalesSet.spec_text() == "Snow locales set zh-CN\0",
        LogMessage::EngineLaunched.spec_text() == "Snow router engine launched\0",
        LogMessage::EngineRetained.spec_text() == "Snow retained engine until process exit\0",
        LogMessage::InputLooperUnavailable.spec_text() == "Snow input looper unavailable\0",
        LogMessage::InputQueueAttached.spec_text() == "Snow input queue attached\0",
        LogMessage::InputQueueDetached.spec_text() == "Snow input queue detached\0",
        LogMessage::InitialSurfaceBindSkipped.spec_text() == "Snow skipped duplicate initial surface bind\0",
        LogMessage::SurfaceDestroyDeferred.spec_text() == "Snow deferred surface destroy during rebind\0",
        LogMessage::Created.spec_text() == "SnowWeatherRouter onCreate\0",
        LogMessage::UserAgreementAccepted.spec_priority() == 4,
        LogMessage::UserAgreementPending.spec_priority() == 4,
        LogMessage::LocationPermissionGranted.spec_priority() == 4,
        LogMessage::LocationPermissionDenied.spec_priority() == 4,
        LogMessage::CtaAcceptanceDelivered.spec_priority() == 4,
        LogMessage::CtaDeclineDelivered.spec_priority() == 4,
        LogMessage::PermissionResultDelivered.spec_priority() == 4,
        LogMessage::FirstFrame.spec_priority() == 4,
        LogMessage::LocationServed.spec_priority() == 4,
        LogMessage::ViewportMetricsPushed.spec_priority() == 4,
        LogMessage::RuntimeCreateFailed.spec_priority() == 5,
        LogMessage::HolderCreateFailed.spec_priority() == 5,
        LogMessage::LocalesSet.spec_priority() == 4,
        LogMessage::EngineLaunched.spec_priority() == 4,
        LogMessage::EngineRetained.spec_priority() == 4,
        LogMessage::InputLooperUnavailable.spec_priority() == 5,
        LogMessage::InputQueueAttached.spec_priority() == 4,
        LogMessage::InputQueueDetached.spec_priority() == 4,
        LogMessage::InitialSurfaceBindSkipped.spec_priority() == 4,
        LogMessage::SurfaceDestroyDeferred.spec_priority() == 4,
        LogMessage::Created.spec_priority() == 4,
{
}

/// Law: the offsets of the engine's entry points in its interface table.
pub proof fn lemma_interface_offsets()
    ensures
        HyperEntry::RuntimeCreate.spec_offset() == 0x08,
        HyperEntry::RuntimeDestroy.spec_offset() == 0x10,
        HyperEntry::CreateShellHolder.spec_offset() == 0x40,
        HyperEntry::DestroyShellHolder.spec_offset() == 0x48,
        HyperEntry::ShellHolderLaunch.spec_offset() == 0x58,
        HyperEntry::DispatchPlatformMessage.spec_offset() == 0x60,
        HyperEntry::ReplyPlatformMessage.spec_offset() == 0x78,
        HyperEntry::SetViewportMetrics.spec_offset() == 0xa0,
        HyperEntry::SurfaceCreate.spec_offset() == 0xa8,
        HyperEntry::SetWindowSize.spec_offset() == 0xb0,
        HyperEntry::SurfaceDestroy.spec_offset() == 0xc0,
        HyperEntry::UpdateDisplayAttributes.spec_offset() == 0xc8,
        HyperEntry::SetLocales.spec_offset() == 0x238,
{
}

/// Law: the callback table has sixteen entries: the size word 0x68 first,
/// the first-frame callback at 2, the platform-message callback at 4, the
/// launch metadata word 0x18 at 13, and no-op callbacks everywhere else.
pub proof fn lemma_callback_layout()
    ensures
        hyper_callback_layout().len() == 16,
        hyper_callback_layout()[0] == HyperCallbackSlot::Word(0x68),
        hyper_callback_layout()[2] == HyperCallbackSlot::FirstFrame,
        hyper_callback_layout()[4] == HyperCallbackSlot::PlatformMessage,
        hyper_callback_layout()[13] == HyperCallbackSlot::Word(0x18),
        forall|i: int|
            0 <= i < 16 && i != 0 && i != 2 && i != 4 && i != 13 ==> #[trigger] hyper_callback_layout()[i]
                == HyperCallbackSlot::Noop,
{
    let layout = hyper_callback_layout();
    assert forall|i: int|
        0 <= i < 16 && i != 0 && i != 2 && i != 4 && i != 13 implies #[trigger] layout[i]
            == HyperCallbackSlot::Noop by {
        if i == 1 || i == 3 { } else if i < 13 { assert(layout[i] == HyperCallbackSlot::Noop); } else { }
    }
}

} // verus!
