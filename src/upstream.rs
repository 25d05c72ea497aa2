//! Addresses of the upstream services.

use vstd::prelude::*;
use crate::text::{join, join3};

verus! {

pub const LOGIN_URL: &'static str = "https://public-ubiservices.ubi.com/v3/profiles/sessions";
pub const PROFILES_BY_NAME_URL: &'static str = "https://public-ubiservices.ubi.com/v2/profiles?nameOnPlatform=";
pub const PROFILES_BY_ID_URL: &'static str = "https://public-ubiservices.ubi.com/v2/profiles?userId=";
pub const PLATFORM_SUFFIX: &'static str = "&platformType=uplay";
pub const PROFILE_URL: &'static str = "https://public-ubiservices.ubi.com/v1/profiles/";
pub const STATSCARD_SUFFIX: &'static str = "/statscard?spaceId=";
pub const DIVISION1_SPACE_ID: &'static str = "6edd234a-abff-4e90-9aab-b9b9c6e49ff7";
pub const TRACKER_URL: &'static str = "https://api.tracker.gg/api/v2/division-2/standard/profile/uplay/";

/// The directory lookup of a display name.
pub fn profiles_by_name_url(name: &str) -> (r: String)
    ensures
        r@ == PROFILES_BY_NAME_URL@ + name@ + PLATFORM_SUFFIX@,
{
    join3(PROFILES_BY_NAME_URL, name, PLATFORM_SUFFIX)
}

/// The directory lookup of an identifier, which yields its display name.
pub fn profile_by_id_url(id: &str) -> (r: String)
    ensures
        r@ == PROFILES_BY_ID_URL@ + id@ + PLATFORM_SUFFIX@,
{
    join3(PROFILES_BY_ID_URL, id, PLATFORM_SUFFIX)
}

/// The statistics of one identity in one game's space.
pub fn stats_url(id: &str, space_id: &str) -> (r: String)
    ensures
        r@ == PROFILE_URL@ + id@ + STATSCARD_SUFFIX@ + space_id@,
{
    let head = join3(PROFILE_URL, id, STATSCARD_SUFFIX);
    join(head.as_str(), space_id)
}

/// The aggregator page of a display name for the second game.
pub fn tracker_url(name: &str) -> (r: String)
    ensures
        r@ == TRACKER_URL@ + name@,
{
    join(TRACKER_URL, name)
}

} // verus!
