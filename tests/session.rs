use division_stats::error::StatsError;
use division_stats::session::{
    basic_authorization, login_outcome, renewal_result, LoginReply, Renewal, RenewalStep,
    SessionManager, SessionTicket, INITIAL_EXPIRY, MAX_LOGIN_ATTEMPTS,
};

fn reply(error_code: bool, ticket: Option<&str>, session_id: Option<&str>, expiration: Option<&str>) -> LoginReply {
    LoginReply {
        error_code,
        ticket: ticket.map(|s| s.to_string()),
        session_id: session_id.map(|s| s.to_string()),
        expiration: expiration.map(|s| s.to_string()),
    }
}

#[test]
fn login_reply_with_all_fields_gives_ticket() {
    let t = login_outcome(reply(false, Some("tk"), Some("sid"), Some("2015-11-12T00:00:00.0000000Z"))).unwrap();
    assert_eq!(t.ticket, "tk");
    assert_eq!(t.session_id, "sid");
    assert_eq!(t.expires_at, 1447286400);
    let t = login_outcome(reply(false, Some("tk"), Some("sid"), Some("2024-01-01T01:00:00+01:00"))).unwrap();
    assert_eq!(t.expires_at, 1704067200);
}

#[test]
fn login_reply_errors_are_auth_errors() {
    assert_eq!(login_outcome(reply(true, Some("tk"), Some("sid"), Some("2015-11-12T00:00:00Z"))).err(), Some(StatsError::AuthError));
    assert_eq!(login_outcome(reply(false, None, Some("sid"), Some("2015-11-12T00:00:00Z"))).err(), Some(StatsError::AuthError));
    assert_eq!(login_outcome(reply(false, Some("tk"), None, Some("2015-11-12T00:00:00Z"))).err(), Some(StatsError::AuthError));
    assert_eq!(login_outcome(reply(false, Some("tk"), Some("sid"), None)).err(), Some(StatsError::AuthError));
    assert_eq!(login_outcome(reply(false, Some("tk"), Some("sid"), Some("tomorrow"))).err(), Some(StatsError::AuthError));
}

#[test]
fn basic_authorization_encodes_pair() {
    assert_eq!(basic_authorization("user", "pass"), "Basic dXNlcjpwYXNz");
    assert_eq!(basic_authorization("", ""), "Basic Og==");
}

#[test]
fn stale_ticket_gets_five_logins_then_exhausted() {
    let mut r = Renewal::new();
    let mut logins = 0;
    loop {
        match r.step(100, 200) {
            RenewalStep::Login => logins += 1,
            RenewalStep::Exhausted => break,
            RenewalStep::Proceed => panic!("a stale ticket was used"),
        }
        assert!(logins <= MAX_LOGIN_ATTEMPTS);
    }
    assert_eq!(logins, 5);
    assert_eq!(renewal_result(RenewalStep::Exhausted), Err(StatsError::RenewalExhausted));
}

#[test]
fn renewal_proceeds_once_fresh() {
    let mut r = Renewal::new();
    assert_eq!(r.step(100, 100), RenewalStep::Login);
    assert_eq!(r.step(300, 200), RenewalStep::Proceed);
    assert_eq!(r.logins, 1);
    assert_eq!(renewal_result(RenewalStep::Proceed), Ok(()));
}

#[test]
fn session_manager_starts_stale_and_installs_whole_ticket() {
    let mut m = SessionManager::new();
    assert_eq!(m.current.expires_at, INITIAL_EXPIRY);
    let mut r = Renewal::new();
    assert_eq!(m.next_step(&mut r), RenewalStep::Login);
    m.install(SessionTicket { ticket: "abc".to_string(), session_id: "s1".to_string(), expires_at: i64::MAX });
    assert_eq!(m.next_step(&mut r), RenewalStep::Proceed);
    let (auth, sid) = m.credentials();
    assert_eq!(auth, "Ubi_v1 t=abc");
    assert_eq!(sid, "s1");
}

#[test]
fn failed_login_keeps_ticket_and_is_passed_on() {
    let mut m = SessionManager::new();
    assert_eq!(m.apply_login(Err(StatsError::AuthError)), Err(StatsError::AuthError));
    assert_eq!(m.current.expires_at, INITIAL_EXPIRY);
    let t = SessionTicket { ticket: "t".to_string(), session_id: "s".to_string(), expires_at: 99 };
    assert_eq!(m.apply_login(Ok(t)), Ok(()));
    assert_eq!(m.current.expires_at, 99);
    assert_eq!(m.current.ticket, "t");
}
