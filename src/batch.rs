//! Batch fetching of raw statistics: a bounded window of requests, each
//! answer paired with the identity that its request carried, and the
//! assembly of the answers into reports.
//!
//! The requests themselves are made by the caller: it asks the window for the
//! next request, performs it, and hands the answer back together with the
//! request it belongs to. Completion order therefore never decides which
//! identity an answer is paired with.

use vstd::prelude::*;
use crate::error::StatsError;
use crate::profile::ProfileDTO;
use crate::stats::{
    division1_matches, division2_matches, map_division1, map_division2_keyed, D1PlayerStats,
    D2PlayerStats, StatEntry, DIVISION1_RECORD_LEN,
};
use crate::store::{has_row, has_user, names_of, persisted, row_is, IdentityStore};

verus! {

/// The answer to one identity's statistics request.
pub enum FetchOutcome {
    /// The raw record.
    Fetched(Vec<StatEntry>),
    /// The upstream answered with an error marker.
    Rejected,
    /// The request or the decoding of its answer failed.
    Failed,
}

/// An identity together with the answer to its own request.
pub struct StatsDTO {
    pub profile: ProfileDTO,
    pub stats: FetchOutcome,
}

/// The number of requests in flight at once.
pub const FETCH_WINDOW: usize = 5;

/// A request handed out by the window: the slot it fills and the identity it
/// is for. Only the window makes one.
pub struct FetchTicket {
    slot: usize,
    profile: ProfileDTO,
}

impl FetchTicket {
    pub closed spec fn slot_of(&self) -> int {
        self.slot as int
    }

    pub closed spec fn profile_of(&self) -> ProfileDTO {
        self.profile
    }

    pub fn slot(&self) -> (r: usize)
        ensures
            r == self.slot_of(),
    {
        self.slot
    }

    /// The identity to request statistics for.
    pub fn profile(&self) -> (r: &ProfileDTO)
        ensures
            *r == self.profile_of(),
    {
        &self.profile
    }
}

/// The identity of an answer: the queued identity, its display name filled
/// in from the lookup by identifier where it had none.
pub open spec fn backfilled(p: ProfileDTO, found: Option<String>) -> ProfileDTO {
    ProfileDTO { id: p.id, name: if p.name is Some { p.name } else { found } }
}

/// A record whose identity is still without a display name after the lookup
/// counts as a failed request.
pub open spec fn settled(outcome: FetchOutcome, name: Option<String>) -> FetchOutcome {
    if outcome is Fetched && name is None {
        FetchOutcome::Failed
    } else {
        outcome
    }
}

/// The window over one batch of identities.
pub struct BatchFetch {
    profiles: Vec<ProfileDTO>,
    next: usize,
    in_flight: usize,
    window: usize,
    done: Vec<StatsDTO>,
    open: Vec<bool>,
    answered: Ghost<Seq<int>>,
}

impl BatchFetch {
    pub closed spec fn queued(&self) -> Seq<ProfileDTO> {
        self.profiles@
    }

    pub closed spec fn started(&self) -> nat {
        self.next as nat
    }

    pub closed spec fn running(&self) -> nat {
        self.in_flight as nat
    }

    pub closed spec fn limit(&self) -> nat {
        self.window as nat
    }

    pub closed spec fn answers(&self) -> Seq<StatsDTO> {
        self.done@
    }

    /// Whether the request for a slot has started and is not yet answered.
    pub closed spec fn open_slots(&self) -> Seq<bool> {
        self.open@
    }

    /// The slot that each answer fills.
    pub closed spec fn answer_slots(&self) -> Seq<int> {
        self.answered@
    }

    /// Requests started never outnumber the identities, those in flight never
    /// exceed the window, every started request is answered or in flight, and
    /// each answer fills its own started slot and carries that slot's
    /// identifier; an answer with a record carries a display name.
    pub open spec fn wf(&self) -> bool {
        &&& self.started() <= self.queued().len()
        &&& self.running() <= self.limit()
        &&& self.limit() > 0
        &&& self.answers().len() + self.running() == self.started()
        &&& self.open_slots().len() == self.queued().len()
        &&& forall|s: int| 0 <= s < self.queued().len() && #[trigger] self.open_slots()[s] ==> s < self.started()
        &&& self.answer_slots().len() == self.answers().len()
        &&& forall|k: int|
            0 <= k < self.answers().len() ==> {
                &&& 0 <= #[trigger] self.answer_slots()[k] < self.started()
                &&& !self.open_slots()[self.answer_slots()[k]]
                &&& self.answers()[k].profile.id == self.queued()[self.answer_slots()[k]].id
                &&& self.answers()[k].stats is Fetched ==> self.answers()[k].profile.name is Some
            }
        &&& forall|k1: int, k2: int|
            0 <= k1 < k2 < self.answers().len() ==> #[trigger] self.answer_slots()[k1]
                != #[trigger] self.answer_slots()[k2]
    }

    pub fn new(profiles: Vec<ProfileDTO>, window: usize) -> (r: BatchFetch)
        requires
            window > 0,
        ensures
            r.wf(),
            r.queued() == profiles@,
            r.started() == 0,
            r.limit() == window,
            r.answers().len() == 0,
    {
        let mut open: Vec<bool> = Vec::new();
        let mut i: usize = 0;
        while i < profiles.len()
            invariant
                i <= profiles@.len(),
                open@.len() == i,
                forall|s: int| 0 <= s < i ==> !#[trigger] open@[s],
            decreases profiles@.len() - i,
        {
            open.push(false);
            i = i + 1;
        }
        BatchFetch { profiles, next: 0, in_flight: 0, window, done: Vec::new(), open, answered: Ghost(Seq::empty()) }
    }

    /// The next request to make, if the window has room and an identity is
    /// left.
    pub fn start_next(&mut self) -> (r: Option<FetchTicket>)
        requires
            old(self).wf(),
        ensures
            final(self).wf(),
            final(self).queued() == old(self).queued(),
            final(self).answers() == old(self).answers(),
            final(self).answer_slots() == old(self).answer_slots(),
            final(self).limit() == old(self).limit(),
            r is Some <==> old(self).running() < old(self).limit() && old(self).started() < old(
                self,
            ).queued().len(),
            r matches Some(t) ==> {
                &&& t.slot_of() == old(self).started()
                &&& t.profile_of() == old(self).queued()[t.slot_of()]
                &&& final(self).open_slots() == old(self).open_slots().update(t.slot_of(), true)
                &&& final(self).started() == old(self).started() + 1
                &&& final(self).running() == old(self).running() + 1
            },
            r is None ==> final(self).started() == old(self).started() && final(self).running() == old(
                self,
            ).running() && final(self).open_slots() == old(self).open_slots(),
    {
        if self.in_flight < self.window && self.next < self.profiles.len() {
            let slot = self.next;
            let t = FetchTicket { slot, profile: self.profiles[slot].duplicate() };
            self.open.set(slot, true);
            self.next = self.next + 1;
            self.in_flight = self.in_flight + 1;
            Some(t)
        } else {
            None
        }
    }

    /// Whether the request for a slot is in flight.
    pub fn is_open(&self, slot: usize) -> (r: bool)
        requires
            self.wf(),
        ensures
            r == (slot < self.queued().len() && self.open_slots()[slot as int]),
    {
        slot < self.open.len() && self.open[slot]
    }

    /// Records the answer to a request, paired with the identity that the
    /// request carried; `found` is the display name that a lookup by
    /// identifier gave, for an identity that had none.
    pub fn complete(&mut self, ticket: FetchTicket, outcome: FetchOutcome, found: Option<String>)
        requires
            old(self).wf(),
            old(self).running() > 0,
            0 <= ticket.slot_of() < old(self).queued().len(),
            old(self).open_slots()[ticket.slot_of()],
            ticket.profile_of() == old(self).queued()[ticket.slot_of()],
        ensures
            final(self).wf(),
            final(self).queued() == old(self).queued(),
            final(self).started() == old(self).started(),
            final(self).limit() == old(self).limit(),
            final(self).running() == old(self).running() - 1,
            final(self).open_slots() == old(self).open_slots().update(ticket.slot_of(), false),
            final(self).answer_slots() == old(self).answer_slots().push(ticket.slot_of()),
            final(self).answers() == old(self).answers().push(
                StatsDTO {
                    profile: backfilled(ticket.profile_of(), found),
                    stats: settled(outcome, backfilled(ticket.profile_of(), found).name),
                },
            ),
    {
        let FetchTicket { slot, profile } = ticket;
        let profile = profile.with_found_name(found);
        let stats = match outcome {
            FetchOutcome::Fetched(raw) => if profile.name.is_none() {
                FetchOutcome::Failed
            } else {
                FetchOutcome::Fetched(raw)
            },
            other => other,
        };
        let ghost before = *self;
        self.open.set(slot, false);
        self.in_flight = self.in_flight - 1;
        self.done.push(StatsDTO { profile, stats });
        self.answered = Ghost(self.answered@.push(slot as int));
        proof {
            assert forall|k: int| 0 <= k < self.answers().len() - 1 implies self.answer_slots()[k] != slot by {
                assert(!before.open_slots()[before.answer_slots()[k]]);
            }
            assert forall|k: int| 0 <= k < self.answers().len() implies {
                &&& 0 <= #[trigger] self.answer_slots()[k] < self.started()
                &&& !self.open_slots()[self.answer_slots()[k]]
                &&& self.answers()[k].profile.id == self.queued()[self.answer_slots()[k]].id
                &&& self.answers()[k].stats is Fetched ==> self.answers()[k].profile.name is Some
            } by {
                if k < before.answers().len() {
                    assert(self.answer_slots()[k] == before.answer_slots()[k]);
                    assert(self.answers()[k] == before.answers()[k]);
                }
            }
        }
    }

    /// Whether every identity has been asked for and answered.
    pub fn is_finished(&self) -> (r: bool)
        requires
            self.wf(),
        ensures
            r <==> self.started() == self.queued().len() && self.running() == 0,
            r ==> self.answers().len() == self.queued().len(),
    {
        self.next == self.profiles.len() && self.in_flight == 0
    }

    /// Whether a request is in flight, so that an answer is awaited.
    pub fn has_running(&self) -> (r: bool)
        ensures
            r <==> self.running() > 0,
    {
        self.in_flight > 0
    }

    /// The answers, each with its identity.
    pub fn into_answers(self) -> (r: Vec<StatsDTO>)
        ensures
            r@ == self.answers(),
    {
        self.done
    }
}

/// Answers are paired by the identity their request carried, never by the
/// order in which they arrive: each answer fills its own slot, no two answers
/// fill the same one, each carries the identifier queued for its slot, and an
/// answer with a record carries a display name.
pub proof fn lemma_answers_paired(b: BatchFetch)
    requires
        b.wf(),
    ensures
        forall|k: int|
            0 <= k < b.answers().len() ==> 0 <= #[trigger] b.answer_slots()[k] < b.queued().len()
                && b.answers()[k].profile.id == b.queued()[b.answer_slots()[k]].id,
        forall|k1: int, k2: int|
            0 <= k1 < k2 < b.answers().len() ==> #[trigger] b.answer_slots()[k1]
                != #[trigger] b.answer_slots()[k2],
        forall|k: int|
            0 <= k < b.answers().len() && #[trigger] b.answers()[k].stats is Fetched
                ==> b.answers()[k].profile.name is Some,
{
    assert forall|k: int| 0 <= k < b.answers().len() implies 0 <= #[trigger] b.answer_slots()[k] < b.queued().len()
        && b.answers()[k].profile.id == b.queued()[b.answer_slots()[k]].id by {}
    assert forall|k: int| 0 <= k < b.answers().len() && #[trigger] b.answers()[k].stats is Fetched
        implies b.answers()[k].profile.name is Some by {
        assert(0 <= b.answer_slots()[k]);
    }
}

pub open spec fn is_fetched(s: StatsDTO) -> bool {
    s.stats is Fetched
}

pub open spec fn raw_of(s: StatsDTO) -> Seq<StatEntry> {
    match s.stats {
        FetchOutcome::Fetched(raw) => raw@,
        _ => Seq::empty(),
    }
}

/// An answer that maps into a report of the first game.
pub open spec fn is_division1_record(s: StatsDTO) -> bool {
    is_fetched(s) && raw_of(s).len() == DIVISION1_RECORD_LEN
}

/// The positions of the answers that map into reports of the first game, in
/// order.
pub open spec fn division1_sources(answers: Seq<StatsDTO>) -> Seq<int>
    decreases answers.len(),
{
    if answers.len() == 0 {
        Seq::empty()
    } else {
        let rest = division1_sources(answers.drop_last());
        if is_division1_record(answers.last()) {
            rest.push(answers.len() - 1)
        } else {
            rest
        }
    }
}

/// `m` is the first answer with a record.
pub open spec fn first_fetched_at(answers: Seq<StatsDTO>, m: int) -> bool {
    &&& 0 <= m < answers.len()
    &&& is_fetched(answers[m])
    &&& forall|k: int| 0 <= k < m ==> !is_fetched(#[trigger] answers[k])
}

pub open spec fn any_fetched(answers: Seq<StatsDTO>) -> bool {
    exists|j: int| 0 <= j < answers.len() && is_fetched(#[trigger] answers[j])
}

/// The failure of a batch that yields no report: no identity at all, no
/// answer with a record, or no record of the right length.
pub open spec fn batch_failure(answers: Seq<StatsDTO>) -> StatsError {
    if answers.len() == 0 {
        StatsError::PlayerNotFound
    } else if !any_fetched(answers) {
        StatsError::UpstreamError
    } else {
        let j = choose|j: int| first_fetched_at(answers, j);
        StatsError::SchemaMismatch { observed: raw_of(answers[j]).len() as usize, expected: DIVISION1_RECORD_LEN }
    }
}

/// Assembly keeps every answer with its own identity: each report of the
/// first game comes from an answer with a record of the right length, the
/// reports follow the answers' order, and every such answer yields one, so an
/// answer that failed neither removes nor shifts another's report.
pub proof fn lemma_sources(answers: Seq<StatsDTO>)
    ensures
        forall|k: int|
            0 <= k < division1_sources(answers).len() ==> 0 <= #[trigger] division1_sources(answers)[k]
                < answers.len() && is_division1_record(answers[division1_sources(answers)[k]]),
        forall|k1: int, k2: int|
            0 <= k1 < k2 < division1_sources(answers).len() ==> #[trigger] division1_sources(answers)[k1]
                < #[trigger] division1_sources(answers)[k2],
        forall|j: int|
            0 <= j < answers.len() && is_division1_record(#[trigger] answers[j]) ==> exists|k: int|
                0 <= k < division1_sources(answers).len() && division1_sources(answers)[k] == j,
    decreases answers.len(),
{
    if answers.len() > 0 {
        let t = answers.drop_last();
        lemma_sources(t);
        let rest = division1_sources(t);
        let src = division1_sources(answers);
        assert forall|k: int| 0 <= k < src.len() implies 0 <= #[trigger] src[k] < answers.len()
            && is_division1_record(answers[src[k]]) by {
            if k < rest.len() {
                assert(src[k] == rest[k]);
                assert(answers[rest[k]] == t[rest[k]]);
            }
        }
        assert forall|j: int| 0 <= j < answers.len() && is_division1_record(#[trigger] answers[j]) implies exists|k: int|
            0 <= k < src.len() && src[k] == j by {
            if j < answers.len() - 1 {
                assert(t[j] == answers[j]);
                let k = choose|k: int| 0 <= k < rest.len() && rest[k] == j;
                assert(src[k] == rest[k]);
            } else {
                assert(answers.last() == answers[j]);
                assert(src[rest.len() as int] == j);
            }
        }
    }
}

/// Maps each answer with a record of the right length into a report of the
/// first game, with the identity's name history from the store. Answers that
/// failed, and records of another length, yield no report and shift no other.
pub fn get_div1_player_stats(store: &IdentityStore, answers: &Vec<StatsDTO>) -> (r: Result<
    Vec<D1PlayerStats>,
    StatsError,
>)
    ensures
        r is Ok <==> division1_sources(answers@).len() > 0,
        r matches Err(e) ==> e == batch_failure(answers@),
        r matches Ok(v) ==> {
            &&& v@.len() == division1_sources(answers@).len()
            &&& forall|k: int|
                0 <= k < v@.len() ==> division1_matches(
                    #[trigger] v@[k],
                    raw_of(answers@[division1_sources(answers@)[k]]),
                    answers@[division1_sources(answers@)[k]].profile,
                    names_of(store.rows(), answers@[division1_sources(answers@)[k]].profile.id@),
                )
        },
{
    let mut out: Vec<D1PlayerStats> = Vec::new();
    let mut first_mismatch: Option<usize> = None;
    let mut i: usize = 0;
    while i < answers.len()
        invariant
            i <= answers@.len(),
            out@.len() == division1_sources(answers@.take(i as int)).len(),
            forall|k: int|
                0 <= k < out@.len() ==> division1_matches(
                    #[trigger] out@[k],
                    raw_of(answers@[division1_sources(answers@.take(i as int))[k]]),
                    answers@[division1_sources(answers@.take(i as int))[k]].profile,
                    names_of(store.rows(), answers@[division1_sources(answers@.take(i as int))[k]].profile.id@),
                ),
            forall|k: int| 0 <= k < division1_sources(answers@.take(i as int)).len() ==>
                #[trigger] division1_sources(answers@.take(i as int))[k] < i,
            first_mismatch is None <==> !any_fetched(answers@.take(i as int)),
            first_mismatch matches Some(m) ==> m < i && first_fetched_at(answers@, m as int),
        decreases answers@.len() - i,
    {
        let ghost pre = answers@.take(i as int);
        let ghost next = answers@.take(i + 1);
        assert(next.drop_last() =~= pre);
        assert(next.last() == answers@[i as int]);
        proof {
            lemma_sources(pre);
        }
        let slot = &answers[i];
        match &slot.stats {
            FetchOutcome::Fetched(raw) => {
                let names = store.get_user_names_by_id(slot.profile.id.as_str());
                match map_division1(raw, &slot.profile, names) {
                    Ok(report) => {
                        out.push(report);
                    },
                    Err(_) => {},
                }
                if first_mismatch.is_none() {
                    proof {
                        assert forall|k: int| 0 <= k < i implies !is_fetched(#[trigger] answers@[k]) by {
                            assert(pre[k] == answers@[k]);
                        }
                    }
                    first_mismatch = Some(i);
                }
                assert(is_fetched(next[i as int]));
            },
            _ => {},
        }
        proof {
            assert forall|k: int| 0 <= k < division1_sources(pre).len() implies division1_sources(next)[k] == division1_sources(pre)[k] by {}
            if !any_fetched(pre) && !is_fetched(answers@[i as int]) {
                assert forall|j: int| 0 <= j < next.len() implies !is_fetched(#[trigger] next[j]) by {
                    if j < i {
                        assert(next[j] == pre[j]);
                    }
                }
            }
            if any_fetched(pre) {
                let j = choose|j: int| 0 <= j < pre.len() && is_fetched(#[trigger] pre[j]);
                assert(next[j] == pre[j]);
            }
        }
        i = i + 1;
    }
    assert(answers@.take(i as int) =~= answers@);
    if out.len() > 0 {
        Ok(out)
    } else if answers.len() == 0 {
        Err(StatsError::PlayerNotFound)
    } else {
        match first_mismatch {
            None => Err(StatsError::UpstreamError),
            Some(m) => {
                proof {
                    let j = choose|j: int| first_fetched_at(answers@, j);
                    assert(first_fetched_at(answers@, m as int));
                    if j < m {
                        assert(!is_fetched(answers@[j]));
                    } else if m < j {
                        assert(!is_fetched(answers@[m as int]));
                    }
                }
                let observed = match &answers[m].stats {
                    FetchOutcome::Fetched(raw) => raw.len(),
                    _ => 0,
                };
                Err(StatsError::SchemaMismatch { observed, expected: DIVISION1_RECORD_LEN })
            },
        }
    }
}

/// Every fetched identity is in the store, with its display name where it
/// carries one.
pub open spec fn fetched_recorded(store: IdentityStore, answers: Seq<StatsDTO>) -> bool {
    forall|j: int|
        0 <= j < answers.len() && is_fetched(#[trigger] answers[j]) ==> {
            &&& has_user(store.ids(), answers[j].profile.id@)
            &&& answers[j].profile.name matches Some(n) ==> has_row(store.rows(), answers[j].profile.id@, n@)
        }
}

/// Rows and identifiers are only ever added.
pub open spec fn store_grows(before: IdentityStore, after: IdentityStore) -> bool {
    &&& before.ids().len() <= after.ids().len()
    &&& after.ids().take(before.ids().len() as int) == before.ids()
    &&& before.rows().len() <= after.rows().len()
    &&& after.rows().take(before.rows().len() as int) == before.rows()
}

proof fn lemma_persist_grows(before: IdentityStore, after: IdentityStore, profile: ProfileDTO, at: i64)
    requires
        persisted(before, after, profile, at),
    ensures
        store_grows(before, after),
        has_user(after.ids(), profile.id@),
        profile.name matches Some(n) ==> has_row(after.rows(), profile.id@, n@),
        forall|id: Seq<char>| has_user(before.ids(), id) ==> has_user(after.ids(), id),
        forall|id: Seq<char>, n: Seq<char>| has_row(before.rows(), id, n) ==> has_row(after.rows(), id, n),
{
    assert(after.ids().take(before.ids().len() as int) =~= before.ids()) by {
        if !has_user(before.ids(), profile.id@) {
            assert(after.ids().take(before.ids().len() as int) =~= after.ids().drop_last());
        }
    }
    assert(after.rows().take(before.rows().len() as int) =~= before.rows()) by {
        if after.rows() != before.rows() {
            assert(after.rows().take(before.rows().len() as int) =~= after.rows().drop_last());
        }
    }
    if !has_user(before.ids(), profile.id@) {
        assert(after.ids()[after.ids().len() - 1] == after.ids().last());
    }
    if let Some(n) = profile.name {
        if !has_row(before.rows(), profile.id@, n@) {
            assert(after.rows()[after.rows().len() - 1] == after.rows().last());
        }
    }
    assert forall|id: Seq<char>| has_user(before.ids(), id) implies has_user(after.ids(), id) by {
        let j = choose|j: int| 0 <= j < before.ids().len() && (#[trigger] before.ids()[j])@ == id;
        assert(after.ids().take(before.ids().len() as int)[j] == after.ids()[j]);
    }
    assert forall|id: Seq<char>, n: Seq<char>| has_row(before.rows(), id, n) implies has_row(
        after.rows(),
        id,
        n,
    ) by {
        let j = choose|j: int| 0 <= j < before.rows().len() && row_is(#[trigger] before.rows()[j], id, n);
        assert(after.rows().take(before.rows().len() as int)[j] == after.rows()[j]);
    }
}

/// Records every fetched identity in the store, then reports whether the
/// batch fetched anything: `PlayerNotFound` for an empty batch,
/// `UpstreamError` where every request failed.
pub fn get_player_stats_by_name(store: &mut IdentityStore, answers: &Vec<StatsDTO>, observed_at: i64) -> (r:
    Result<(), StatsError>)
    requires
        old(store).wf(),
    ensures
        final(store).wf(),
        store_grows(*old(store), *final(store)),
        fetched_recorded(*final(store), answers@),
        r is Ok <==> any_fetched(answers@),
        r matches Err(e) ==> e == (if answers@.len() == 0 {
            StatsError::PlayerNotFound
        } else {
            StatsError::UpstreamError
        }),
{
    let ghost start = *store;
    assert(start.ids().take(start.ids().len() as int) =~= start.ids());
    assert(start.rows().take(start.rows().len() as int) =~= start.rows());
    let mut fetched = false;
    let mut i: usize = 0;
    while i < answers.len()
        invariant
            i <= answers@.len(),
            store.wf(),
            store_grows(start, *store),
            fetched_recorded(*store, answers@.take(i as int)),
            fetched <==> any_fetched(answers@.take(i as int)),
        decreases answers@.len() - i,
    {
        let ghost pre = answers@.take(i as int);
        let ghost next = answers@.take(i + 1);
        let ghost before = *store;
        assert(next.drop_last() =~= pre);
        assert(next[i as int] == answers@[i as int]);
        match &answers[i].stats {
            FetchOutcome::Fetched(_) => {
                store.persist_identity(&answers[i].profile, observed_at);
                fetched = true;
                proof {
                    lemma_persist_grows(before, *store, answers@[i as int].profile, observed_at);
                    assert(start.ids().len() <= store.ids().len());
                    assert(store.ids().take(start.ids().len() as int) =~= before.ids().take(
                        start.ids().len() as int,
                    ));
                    assert(store.rows().take(start.rows().len() as int) =~= before.rows().take(
                        start.rows().len() as int,
                    ));
                }
            },
            _ => {},
        }
        proof {
            assert forall|j: int| 0 <= j < next.len() && is_fetched(#[trigger] next[j]) implies {
                &&& has_user(store.ids(), next[j].profile.id@)
                &&& next[j].profile.name matches Some(n) ==> has_row(store.rows(), next[j].profile.id@, n@)
            } by {
                if j < i {
                    assert(next[j] == pre[j]);
                }
            }
            if any_fetched(pre) {
                let j = choose|j: int| 0 <= j < pre.len() && is_fetched(#[trigger] pre[j]);
                assert(next[j] == pre[j]);
            }
            if fetched && !any_fetched(pre) {
                assert(is_fetched(next[i as int]));
            }
            if !fetched {
                assert forall|j: int| 0 <= j < next.len() implies !is_fetched(#[trigger] next[j]) by {
                    if j < i {
                        assert(next[j] == pre[j]);
                    }
                }
            }
        }
        i = i + 1;
    }
    assert(answers@.take(i as int) =~= answers@);
    if fetched {
        Ok(())
    } else if answers.len() == 0 {
        Err(StatsError::PlayerNotFound)
    } else {
        Err(StatsError::UpstreamError)
    }
}

/// The second game's report for the chosen identity: records the identity,
/// then maps the keyed record that the page yielded; `NoGameRecord` where
/// the page held no record for this game.
pub fn get_div2_player_stats(
    store: &mut IdentityStore,
    profile: &ProfileDTO,
    scraped: &Option<Vec<StatEntry>>,
    observed_at: i64,
) -> (r: Result<Vec<D2PlayerStats>, StatsError>)
    requires
        old(store).wf(),
    ensures
        final(store).wf(),
        persisted(*old(store), *final(store), *profile, observed_at),
        r is Ok <==> scraped is Some,
        r matches Err(e) ==> e == StatsError::NoGameRecord,
        r matches Ok(v) ==> v@.len() == 1 && division2_matches(
            v@[0],
            scraped->0@,
            *profile,
            names_of(final(store).rows(), profile.id@),
        ),
{
    store.persist_identity(profile, observed_at);
    match scraped {
        Some(entries) => {
            let names = store.get_user_names_by_id(profile.id.as_str());
            let report = map_division2_keyed(entries, profile, names);
            let mut out: Vec<D2PlayerStats> = Vec::new();
            out.push(report);
            Ok(out)
        },
        None => Err(StatsError::NoGameRecord),
    }
}

} // verus!
