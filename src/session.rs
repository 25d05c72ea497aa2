//! The upstream session: login replies, ticket renewal and the credentials
//! that every request carries.
//!
//! Renewal alternates with network work, so it is stated as a step function:
//! the caller asks for the next step, performs a login where told to, and asks
//! again. A caller that holds the manager behind one lock while it does so
//! renews single-flight.

use vstd::prelude::*;
use crate::error::StatsError;
use crate::text::{join, join3};

verus! {

/// The instant, in seconds since the Unix epoch, that an RFC 3339 timestamp
/// names, or none where the text is not such a timestamp.
pub uninterp spec fn rfc3339_instant(s: Seq<char>) -> Option<i64>;

/// The standard Base64 encoding, with padding, of a text's UTF-8 bytes.
pub uninterp spec fn base64_text(s: Seq<char>) -> Seq<char>;

/// Relies on chrono's `DateTime::parse_from_rfc3339` and `DateTime::timestamp`:
/// the parsed instant depends on the text alone.
#[verifier::external_body]
fn parse_rfc3339(s: &str) -> (r: Option<i64>)
    ensures
        r == rfc3339_instant(s@),
{
    chrono::DateTime::parse_from_rfc3339(s).ok().map(|t| t.timestamp())
}

/// Relies on chrono's `Utc::now` and `DateTime::timestamp`: the current time,
/// of which nothing is promised.
#[verifier::external_body]
fn now_seconds() -> (r: i64) {
    chrono::Utc::now().timestamp()
}

/// Relies on base64's `encode`: standard alphabet, padded.
#[verifier::external_body]
fn encode_base64(s: &str) -> (r: String)
    ensures
        r@ == base64_text(s@),
{
    base64::encode(s.as_bytes())
}

/// The most logins that one renewal makes.
pub const MAX_LOGIN_ATTEMPTS: u32 = 5;

/// 2015-11-12T00:00:00Z: the expiry of the empty ticket, long past.
pub const INITIAL_EXPIRY: i64 = 1447286400;

/// Credentials issued by the session service.
pub struct SessionTicket {
    pub ticket: String,
    pub session_id: String,
    /// Seconds since the Unix epoch.
    pub expires_at: i64,
}

/// The fields of the session service's answer to a login.
pub struct LoginReply {
    /// Whether the answer carries an error marker.
    pub error_code: bool,
    pub ticket: Option<String>,
    pub session_id: Option<String>,
    pub expiration: Option<String>,
}

/// Whether a login answer, whose expiration read as `expiry`, yields a
/// ticket.
pub open spec fn login_accepted(reply: LoginReply, expiry: Option<i64>) -> bool {
    &&& !reply.error_code
    &&& reply.ticket is Some
    &&& reply.session_id is Some
    &&& reply.expiration is Some
    &&& expiry is Some
}

/// Turns a login answer into a ticket, given the instant that its expiration
/// field reads as (`None` where it reads as none); an error marker or a
/// missing or unreadable field is an `AuthError`.
pub fn ticket_from_reply(reply: LoginReply, expiry: Option<i64>) -> (r: Result<SessionTicket, StatsError>)
    ensures
        r is Ok <==> login_accepted(reply, expiry),
        r matches Err(e) ==> e == StatsError::AuthError,
        r matches Ok(t) ==> {
            &&& t.ticket == reply.ticket->0
            &&& t.session_id == reply.session_id->0
            &&& Some(t.expires_at) == expiry
        },
{
    if reply.error_code {
        return Err(StatsError::AuthError);
    }
    match (reply.ticket, reply.session_id, reply.expiration, expiry) {
        (Some(ticket), Some(session_id), Some(_), Some(expires_at)) => Ok(
            SessionTicket { ticket, session_id, expires_at },
        ),
        _ => Err(StatsError::AuthError),
    }
}

/// Turns a login answer into a ticket, reading its expiration as an RFC 3339
/// timestamp.
pub fn login_outcome(reply: LoginReply) -> (r: Result<SessionTicket, StatsError>)
    ensures
        r == ticket_from_reply_spec(
            reply,
            match reply.expiration {
                Some(x) => rfc3339_instant(x@),
                None => None,
            },
        ),
{
    let expiry = match &reply.expiration {
        Some(x) => parse_rfc3339(x.as_str()),
        None => None,
    };
    let r = ticket_from_reply(reply, expiry);
    proof {
        if r is Ok {
            assert(r->Ok_0 == (SessionTicket {
                ticket: reply.ticket->0,
                session_id: reply.session_id->0,
                expires_at: expiry->0,
            }));
        }
    }
    r
}

/// The ticket that a login answer yields, given the instant that its
/// expiration reads as.
pub open spec fn ticket_from_reply_spec(reply: LoginReply, expiry: Option<i64>) -> Result<SessionTicket, StatsError> {
    if login_accepted(reply, expiry) {
        Ok(SessionTicket { ticket: reply.ticket->0, session_id: reply.session_id->0, expires_at: expiry->0 })
    } else {
        Err(StatsError::AuthError)
    }
}

/// The `Authorization` value of a login from the Base64 of `user:password`.
pub fn basic_value(encoded: &str) -> (r: String)
    ensures
        r@ == "Basic "@ + encoded@,
{
    join("Basic ", encoded)
}

/// The `Authorization` value of a login: `Basic ` and the Base64 of
/// `user:password`.
pub fn basic_authorization(username: &str, password: &str) -> (r: String)
    ensures
        r@ == "Basic "@ + base64_text(username@ + ":"@ + password@),
{
    let pair = join3(username, ":", password);
    let encoded = encode_base64(pair.as_str());
    basic_value(encoded.as_str())
}

/// What one step of a renewal does.
#[derive(Clone, Copy, PartialEq, Eq, Structural, Debug)]
pub enum RenewalStep {
    /// The ticket is fresh: go on with the request.
    Proceed,
    /// Log in again, then ask for the next step.
    Login,
    /// The ticket is stale and no login is left.
    Exhausted,
}

pub open spec fn renewal_decision(logins: nat, expires_at: i64, now: i64) -> RenewalStep {
    if now < expires_at {
        RenewalStep::Proceed
    } else if logins < MAX_LOGIN_ATTEMPTS {
        RenewalStep::Login
    } else {
        RenewalStep::Exhausted
    }
}

/// The steps of a renewal that reads the given (expiry, now) pairs one per
/// step, having made `logins` logins: it stops at the first step that is not a
/// login, or when the readings run out.
pub open spec fn renewal_run(logins: nat, readings: Seq<(i64, i64)>) -> Seq<RenewalStep>
    decreases readings.len(),
{
    if readings.len() == 0 {
        Seq::empty()
    } else {
        let step = renewal_decision(logins, readings[0].0, readings[0].1);
        if step == RenewalStep::Login {
            seq![step] + renewal_run(logins + 1, readings.drop_first())
        } else {
            seq![step]
        }
    }
}

pub open spec fn login_count(steps: Seq<RenewalStep>) -> nat
    decreases steps.len(),
{
    if steps.len() == 0 {
        0
    } else {
        (if steps[0] == RenewalStep::Login { 1nat } else { 0nat }) + login_count(steps.drop_first())
    }
}

proof fn lemma_run_bounded(logins: nat, readings: Seq<(i64, i64)>)
    requires
        logins <= MAX_LOGIN_ATTEMPTS,
    ensures
        logins + login_count(renewal_run(logins, readings)) <= MAX_LOGIN_ATTEMPTS,
        renewal_run(logins, readings).len() > 0 && renewal_run(logins, readings).last()
            == RenewalStep::Exhausted ==> logins + login_count(renewal_run(logins, readings))
            == MAX_LOGIN_ATTEMPTS,
    decreases readings.len(),
{
    let run = renewal_run(logins, readings);
    if readings.len() > 0 {
        let step = renewal_decision(logins, readings[0].0, readings[0].1);
        if step == RenewalStep::Login {
            lemma_run_bounded(logins + 1, readings.drop_first());
            let rest = renewal_run(logins + 1, readings.drop_first());
            assert(run.drop_first() =~= rest);
            assert(run[0] == RenewalStep::Login);
            assert(login_count(run) == 1 + login_count(rest));
            if rest.len() > 0 {
                assert(run.last() == rest.last());
            }
        } else {
            assert(run.drop_first() =~= Seq::<RenewalStep>::empty());
            assert(run[0] == step);
            assert(login_count(run.drop_first()) == 0);
            assert(login_count(run) == 0);
        }
    }
}

/// However the clock and the renewed expiries read, one renewal makes at most
/// five logins, and it gives up only after exactly five.
pub proof fn lemma_renewal_login_cap(readings: Seq<(i64, i64)>)
    ensures
        login_count(renewal_run(0, readings)) <= MAX_LOGIN_ATTEMPTS,
        renewal_run(0, readings).len() > 0 && renewal_run(0, readings).last() == RenewalStep::Exhausted
            ==> login_count(renewal_run(0, readings)) == MAX_LOGIN_ATTEMPTS,
        forall|i: int|
            0 <= i < renewal_run(0, readings).len() && #[trigger] renewal_run(0, readings)[i]
                == RenewalStep::Proceed ==> readings[i].1 < readings[i].0,
{
    lemma_run_bounded(0, readings);
    lemma_run_proceeds_fresh(0, readings);
}

proof fn lemma_run_proceeds_fresh(logins: nat, readings: Seq<(i64, i64)>)
    ensures
        forall|i: int|
            0 <= i < renewal_run(logins, readings).len() && #[trigger] renewal_run(logins, readings)[i]
                == RenewalStep::Proceed ==> readings[i].1 < readings[i].0,
    decreases readings.len(),
{
    if readings.len() > 0 {
        let step = renewal_decision(logins, readings[0].0, readings[0].1);
        if step == RenewalStep::Login {
            lemma_run_proceeds_fresh(logins + 1, readings.drop_first());
            lemma_run_bounded_len(logins + 1, readings.drop_first());
            let run = renewal_run(logins, readings);
            let rest = renewal_run(logins + 1, readings.drop_first());
            assert forall|i: int|
                0 <= i < run.len() && #[trigger] run[i] == RenewalStep::Proceed implies readings[i].1
                < readings[i].0 by {
                if i > 0 {
                    assert(run[i] == rest[i - 1]);
                    assert(i - 1 < readings.drop_first().len());
                    assert(readings.drop_first()[i - 1] == readings[i]);
                }
            }
        }
    }
}

proof fn lemma_run_bounded_len(logins: nat, readings: Seq<(i64, i64)>)
    ensures
        renewal_run(logins, readings).len() <= readings.len(),
    decreases readings.len(),
{
    if readings.len() > 0 {
        lemma_run_bounded_len(logins + 1, readings.drop_first());
    }
}

/// The progress of one renewal: how many logins it has made.
pub struct Renewal {
    pub logins: u32,
}

impl Renewal {
    pub fn new() -> (r: Renewal)
        ensures
            r.logins == 0,
    {
        Renewal { logins: 0 }
    }

    /// Decides the next step from the ticket's expiry and the time now, and
    /// counts the login it orders.
    pub fn step(&mut self, expires_at: i64, now: i64) -> (r: RenewalStep)
        requires
            old(self).logins <= MAX_LOGIN_ATTEMPTS,
        ensures
            r == renewal_decision(old(self).logins as nat, expires_at, now),
            final(self).logins == old(self).logins + (if r == RenewalStep::Login { 1int } else { 0int }),
            final(self).logins <= MAX_LOGIN_ATTEMPTS,
    {
        if now < expires_at {
            RenewalStep::Proceed
        } else if self.logins < MAX_LOGIN_ATTEMPTS {
            self.logins = self.logins + 1;
            RenewalStep::Login
        } else {
            RenewalStep::Exhausted
        }
    }
}

/// The outcome of a renewal's last step, as the pipeline reports it.
pub fn renewal_result(step: RenewalStep) -> (r: Result<(), StatsError>)
    requires
        step != RenewalStep::Login,
    ensures
        r is Ok <==> step == RenewalStep::Proceed,
        r matches Err(e) ==> e == StatsError::RenewalExhausted,
{
    match step {
        RenewalStep::Proceed => Ok(()),
        _ => Err(StatsError::RenewalExhausted),
    }
}

/// Owner of the one ticket that all requests share.
pub struct SessionManager {
    pub current: SessionTicket,
}

impl SessionManager {
    /// An empty ticket that expired long ago, so that the first request logs
    /// in.
    pub fn new() -> (r: SessionManager)
        ensures
            r.current.ticket@ == Seq::<char>::empty(),
            r.current.session_id@ == Seq::<char>::empty(),
            r.current.expires_at == INITIAL_EXPIRY,
    {
        SessionManager {
            current: SessionTicket {
                ticket: String::new(),
                session_id: String::new(),
                expires_at: INITIAL_EXPIRY,
            },
        }
    }

    /// Replaces the ticket, all three fields at once.
    pub fn install(&mut self, ticket: SessionTicket)
        ensures
            final(self).current == ticket,
    {
        self.current = ticket;
    }

    /// Takes the outcome of a login that a renewal ordered: a ticket replaces
    /// the current one; a failure leaves it and is passed on, which ends the
    /// renewal.
    pub fn apply_login(&mut self, outcome: Result<SessionTicket, StatsError>) -> (r: Result<(), StatsError>)
        ensures
            outcome is Ok ==> r is Ok && final(self).current == outcome->Ok_0,
            outcome is Err ==> r == Err::<(), StatsError>(outcome->Err_0) && final(self).current == old(
                self,
            ).current,
    {
        match outcome {
            Ok(t) => {
                self.current = t;
                Ok(())
            },
            Err(e) => Err(e),
        }
    }

    /// The next step of a renewal, judged against the time now.
    pub fn next_step(&self, renewal: &mut Renewal) -> (r: RenewalStep)
        requires
            old(renewal).logins <= MAX_LOGIN_ATTEMPTS,
        ensures
            exists|now: i64| r == renewal_decision(old(renewal).logins as nat, self.current.expires_at, now),
            final(renewal).logins == old(renewal).logins + (if r == RenewalStep::Login { 1int } else { 0int }),
            final(renewal).logins <= MAX_LOGIN_ATTEMPTS,
    {
        let now = now_seconds();
        renewal.step(self.current.expires_at, now)
    }

    /// The `Authorization` value of a request: `Ubi_v1 t=` and the ticket.
    pub fn authorization(&self) -> (r: String)
        ensures
            r@ == "Ubi_v1 t="@ + self.current.ticket@,
    {
        join("Ubi_v1 t=", self.current.ticket.as_str())
    }

    /// The ticket's authorization value and session id, read together.
    pub fn credentials(&self) -> (r: (String, String))
        ensures
            r.0@ == "Ubi_v1 t="@ + self.current.ticket@,
            r.1@ == self.current.session_id@,
    {
        (self.authorization(), self.current.session_id.clone())
    }
}

} // verus!
