use division_stats::error::StatsError;
use division_stats::status::{status_only, stats_response, ApiStatus, RateLimitGuard, ResponseWithStatus, MESSAGE_TOO_MANY_REQUESTS};
use division_stats::upstream::{profile_by_id_url, profiles_by_name_url, stats_url, tracker_url, DIVISION1_SPACE_ID};

#[test]
fn status_codes() {
    assert_eq!(ApiStatus::Success.code(), 200);
    assert_eq!(ApiStatus::Created.code(), 201);
    assert_eq!(ApiStatus::BadRequest.code(), 400);
    assert_eq!(ApiStatus::Unauthorized.code(), 401);
    assert_eq!(ApiStatus::Forbidden.code(), 403);
    assert_eq!(ApiStatus::NotFound.code(), 404);
    assert_eq!(ApiStatus::TooManyRequests.code(), 429);
    assert_eq!(ApiStatus::InternalServerError.code(), 500);
    assert_eq!(ApiStatus::NotFound.text(), "not found");
}

#[test]
fn response_envelopes() {
    let r = ResponseWithStatus::new(ApiStatus::Created, "made".to_string(), None);
    assert_eq!(r.status_code, 201);
    assert_eq!(r.response.status, "created");
    assert_eq!(r.response.message, "made");
    let r = stats_response(Ok(serde_json::Value::Bool(true)), "Agent");
    assert_eq!(r.status_code, 200);
    assert_eq!(r.response.message, "user exists");
    assert_eq!(r.response.data, Some(serde_json::Value::Bool(true)));
    let r = stats_response(Err(StatsError::PlayerNotFound), "Agent");
    assert_eq!(r.status_code, 404);
    assert_eq!(r.response.status, "not found");
    assert_eq!(r.response.message, "player not found: Agent");
    assert!(r.response.data.is_none());
    let r = status_only(ApiStatus::TooManyRequests, MESSAGE_TOO_MANY_REQUESTS);
    assert_eq!(r.status_code, 429);
    assert_eq!(r.response.message, "too many requests");
    assert_eq!(RateLimitGuard::quota_per_minute(), 5);
}

#[test]
fn upstream_addresses() {
    assert_eq!(profiles_by_name_url("Agent"), "https://public-ubiservices.ubi.com/v2/profiles?nameOnPlatform=Agent&platformType=uplay");
    assert_eq!(profile_by_id_url("x1"), "https://public-ubiservices.ubi.com/v2/profiles?userId=x1&platformType=uplay");
    assert_eq!(
        stats_url("x1", DIVISION1_SPACE_ID),
        "https://public-ubiservices.ubi.com/v1/profiles/x1/statscard?spaceId=6edd234a-abff-4e90-9aab-b9b9c6e49ff7"
    );
    assert_eq!(tracker_url("Agent"), "https://api.tracker.gg/api/v2/division-2/standard/profile/uplay/Agent");
}
