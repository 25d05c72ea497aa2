//! An in-memory identity store laid out as two tables: the identifiers, and
//! the (identifier, name) rows in the order they were written. A row's time
//! is never earlier than that of the row before it, so write order and time
//! order agree and "most recent" means both. Writing an identifier or a pair that is already there
//! changes nothing; a new pair is appended, never overwriting history.

use vstd::prelude::*;
use crate::profile::ProfileDTO;
use crate::text::{eq_ignore_ascii_case, same_ignoring_ascii_case};

verus! {

/// One row of the name history.
pub struct NameRow {
    pub user_id: String,
    pub name: String,
    pub observed_at: i64,
}

pub struct IdentityStore {
    user_ids: Vec<String>,
    user_names: Vec<NameRow>,
}

pub open spec fn has_user(ids: Seq<String>, id: Seq<char>) -> bool {
    exists|j: int| 0 <= j < ids.len() && (#[trigger] ids[j])@ == id
}

pub open spec fn row_is(r: NameRow, id: Seq<char>, name: Seq<char>) -> bool {
    r.user_id@ == id && r.name@ == name
}

pub open spec fn has_row(rows: Seq<NameRow>, id: Seq<char>, name: Seq<char>) -> bool {
    exists|j: int| 0 <= j < rows.len() && row_is(#[trigger] rows[j], id, name)
}

/// Exactly one row holds the pair.
pub open spec fn one_row(rows: Seq<NameRow>, id: Seq<char>, name: Seq<char>) -> bool {
    exists|j: int|
        0 <= j < rows.len() && row_is(#[trigger] rows[j], id, name) && forall|k: int|
            0 <= k < rows.len() && row_is(#[trigger] rows[k], id, name) ==> k == j
}

/// The identifier table after writing `id`.
pub open spec fn user_written(old_ids: Seq<String>, new_ids: Seq<String>, id: Seq<char>) -> bool {
    if has_user(old_ids, id) {
        new_ids == old_ids
    } else {
        new_ids.len() == old_ids.len() + 1 && new_ids.drop_last() == old_ids && new_ids.last()@ == id
    }
}

/// The time that a row written at `at` carries: `at`, raised to the latest
/// row's time where it is earlier.
pub open spec fn stamp(rows: Seq<NameRow>, at: i64) -> i64 {
    if rows.len() > 0 && rows.last().observed_at > at {
        rows.last().observed_at
    } else {
        at
    }
}

/// The name history after writing the pair (`id`, `name`) at time `at`.
pub open spec fn name_written(
    old_rows: Seq<NameRow>,
    new_rows: Seq<NameRow>,
    id: Seq<char>,
    name: Seq<char>,
    at: i64,
) -> bool {
    if has_row(old_rows, id, name) {
        new_rows == old_rows
    } else {
        &&& new_rows.len() == old_rows.len() + 1
        &&& new_rows.drop_last() == old_rows
        &&& row_is(new_rows.last(), id, name)
        &&& new_rows.last().observed_at == stamp(old_rows, at)
    }
}

/// The names of an identifier, most recent first.
pub open spec fn names_of(rows: Seq<NameRow>, id: Seq<char>) -> Seq<String>
    decreases rows.len(),
{
    if rows.len() == 0 {
        Seq::empty()
    } else if rows.last().user_id@ == id {
        seq![rows.last().name] + names_of(rows.drop_last(), id)
    } else {
        names_of(rows.drop_last(), id)
    }
}

/// The identifiers seen under a name, up to ASCII case, most recent first.
pub open spec fn ids_named(rows: Seq<NameRow>, name: Seq<char>) -> Seq<String>
    decreases rows.len(),
{
    if rows.len() == 0 {
        Seq::empty()
    } else if same_ignoring_ascii_case(rows.last().name@, name) {
        seq![rows.last().user_id] + ids_named(rows.drop_last(), name)
    } else {
        ids_named(rows.drop_last(), name)
    }
}

/// The store after recording an identity at time `at`.
pub open spec fn persisted(before: IdentityStore, after: IdentityStore, profile: ProfileDTO, at: i64) -> bool {
    &&& user_written(before.ids(), after.ids(), profile.id@)
    &&& match profile.name {
        Some(n) => name_written(before.rows(), after.rows(), profile.id@, n@, at),
        None => after.rows() == before.rows(),
    }
}

impl IdentityStore {
    pub closed spec fn ids(&self) -> Seq<String> {
        self.user_ids@
    }

    pub closed spec fn rows(&self) -> Seq<NameRow> {
        self.user_names@
    }

    /// No identifier and no (identifier, name) pair occurs twice, and row
    /// times never decrease.
    pub open spec fn wf(&self) -> bool {
        &&& forall|i: int, j: int|
            0 <= i < j < self.rows().len() ==> (#[trigger] self.rows()[i]).observed_at <= (
            #[trigger] self.rows()[j]).observed_at
        &&& forall|i: int, j: int|
            0 <= i < j < self.ids().len() ==> (#[trigger] self.ids()[i])@ != (#[trigger] self.ids()[j])@
        &&& forall|i: int, j: int|
            0 <= i < j < self.rows().len() ==> !row_is(
                #[trigger] self.rows()[i],
                (#[trigger] self.rows()[j]).user_id@,
                self.rows()[j].name@,
            )
    }

    pub fn new() -> (r: IdentityStore)
        ensures
            r.wf(),
            r.ids().len() == 0,
            r.rows().len() == 0,
    {
        IdentityStore { user_ids: Vec::new(), user_names: Vec::new() }
    }

    /// Adds an identifier; returns whether it was new.
    pub fn create_user(&mut self, id: &str) -> (r: bool)
        requires
            old(self).wf(),
        ensures
            final(self).wf(),
            r == !has_user(old(self).ids(), id@),
            user_written(old(self).ids(), final(self).ids(), id@),
            final(self).rows() == old(self).rows(),
    {
        let key = String::from_str(id);
        let mut i: usize = 0;
        while i < self.user_ids.len()
            invariant
                self.wf(),
                key@ == id@,
                i <= self.user_ids@.len(),
                forall|j: int| 0 <= j < i ==> (#[trigger] self.user_ids@[j])@ != id@,
            decreases self.user_ids@.len() - i,
        {
            if self.user_ids[i] == key {
                return false;
            }
            i = i + 1;
        }
        assert(self.wf());
        assert(self.ids() == self.user_ids@ && self.rows() == self.user_names@);
        let ghost before = self.user_ids@;
        let ghost rows = self.user_names@;
        assert(forall|a: int, b: int| 0 <= a < b < rows.len() ==> !row_is(#[trigger] rows[a], (#[trigger] rows[b]).user_id@, rows[b].name@));
        assert(forall|a: int, b: int| 0 <= a < b < before.len() ==> (#[trigger] before[a])@ != (#[trigger] before[b])@);
        self.user_ids.push(key);
        assert(self.user_ids@.drop_last() =~= before);
        assert(self.ids() == self.user_ids@);
        assert forall|a: int, b: int| 0 <= a < b < self.ids().len() implies (
        #[trigger] self.ids()[a])@ != (#[trigger] self.ids()[b])@ by {
            assert(self.ids()[a] == before[a]);
            if b < before.len() {
                assert(self.ids()[b] == before[b]);
                assert(before[a]@ != before[b]@);
            } else {
                assert(self.ids()[b]@ == id@);
                assert(before[a]@ != id@);
            }
        }
        true
    }

    /// Adds the pair (`id`, `name`) to the history; returns whether it was
    /// new.
    pub fn store_user_name(&mut self, id: &str, name: &str, observed_at: i64) -> (r: bool)
        requires
            old(self).wf(),
        ensures
            final(self).wf(),
            r == !has_row(old(self).rows(), id@, name@),
            name_written(old(self).rows(), final(self).rows(), id@, name@, observed_at),
            final(self).ids() == old(self).ids(),
    {
        let key = String::from_str(id);
        let entry = String::from_str(name);
        let mut i: usize = 0;
        while i < self.user_names.len()
            invariant
                self.wf(),
                key@ == id@,
                entry@ == name@,
                i <= self.user_names@.len(),
                forall|j: int| 0 <= j < i ==> !row_is(#[trigger] self.user_names@[j], id@, name@),
            decreases self.user_names@.len() - i,
        {
            if self.user_names[i].user_id == key && self.user_names[i].name == entry {
                return false;
            }
            i = i + 1;
        }
        assert(self.wf());
        assert(self.ids() == self.user_ids@ && self.rows() == self.user_names@);
        let n = self.user_names.len();
        let at = if n > 0 && self.user_names[n - 1].observed_at > observed_at {
            self.user_names[n - 1].observed_at
        } else {
            observed_at
        };
        let ghost before = self.user_names@;
        let ghost ids = self.user_ids@;
        assert(forall|a: int, b: int| 0 <= a < b < before.len() ==> (#[trigger] before[a]).observed_at <= (#[trigger] before[b]).observed_at);
        assert(forall|a: int, b: int| 0 <= a < b < ids.len() ==> (#[trigger] ids[a])@ != (#[trigger] ids[b])@);
        assert(forall|a: int, b: int| 0 <= a < b < before.len() ==> !row_is(#[trigger] before[a], (#[trigger] before[b]).user_id@, before[b].name@));
        self.user_names.push(NameRow { user_id: key, name: entry, observed_at: at });
        assert(self.user_names@.drop_last() =~= before);
        assert(self.rows() == self.user_names@);
        assert forall|a: int, b: int| 0 <= a < b < self.rows().len() implies !row_is(
            #[trigger] self.rows()[a],
            (#[trigger] self.rows()[b]).user_id@,
            self.rows()[b].name@,
        ) by {
            assert(self.rows()[a] == before[a]);
            if b < before.len() {
                assert(self.rows()[b] == before[b]);
                assert(!row_is(before[a], before[b].user_id@, before[b].name@));
            } else {
                assert(row_is(self.rows()[b], id@, name@));
                assert(!row_is(before[a], id@, name@));
            }
        }
        assert forall|a: int, b: int| 0 <= a < b < self.rows().len() implies (#[trigger] self.rows()[a]).observed_at
            <= (#[trigger] self.rows()[b]).observed_at by {
            assert(self.rows()[a] == before[a]);
            if b < before.len() {
                assert(self.rows()[b] == before[b]);
            } else {
                assert(before[a].observed_at <= before.last().observed_at);
            }
        }
        true
    }

    /// The names seen for an identifier, most recent first.
    pub fn get_user_names_by_id(&self, id: &str) -> (r: Vec<String>)
        ensures
            r@ == names_of(self.rows(), id@),
    {
        let key = String::from_str(id);
        let mut out: Vec<String> = Vec::new();
        let mut i: usize = 0;
        while i < self.user_names.len()
            invariant
                key@ == id@,
                i <= self.user_names@.len(),
                out@ == names_of(self.user_names@.take(i as int), id@),
            decreases self.user_names@.len() - i,
        {
            let ghost next = self.user_names@.take(i + 1);
            assert(next.drop_last() =~= self.user_names@.take(i as int));
            assert(next.last() == self.user_names@[i as int]);
            if self.user_names[i].user_id == key {
                let ghost before = out@;
                out.insert(0, self.user_names[i].name.clone());
                assert(out@ =~= seq![self.user_names@[i as int].name] + before);
            }
            i = i + 1;
        }
        assert(self.user_names@.take(i as int) =~= self.user_names@);
        out
    }

    /// The identifiers seen under a name, compared up to ASCII case, most
    /// recent first.
    pub fn get_user_id_by_name(&self, name: &str) -> (r: Vec<String>)
        ensures
            r@ == ids_named(self.rows(), name@),
    {
        let mut out: Vec<String> = Vec::new();
        let mut i: usize = 0;
        while i < self.user_names.len()
            invariant
                i <= self.user_names@.len(),
                out@ == ids_named(self.user_names@.take(i as int), name@),
            decreases self.user_names@.len() - i,
        {
            let ghost next = self.user_names@.take(i + 1);
            assert(next.drop_last() =~= self.user_names@.take(i as int));
            assert(next.last() == self.user_names@[i as int]);
            if eq_ignore_ascii_case(self.user_names[i].name.as_str(), name) {
                let ghost before = out@;
                out.insert(0, self.user_names[i].user_id.clone());
                assert(out@ =~= seq![self.user_names@[i as int].user_id] + before);
            }
            i = i + 1;
        }
        assert(self.user_names@.take(i as int) =~= self.user_names@);
        out
    }

    /// Records an identity that a fetch observed: its identifier, and its
    /// display name where it carries one.
    pub fn persist_identity(&mut self, profile: &ProfileDTO, observed_at: i64)
        requires
            old(self).wf(),
        ensures
            final(self).wf(),
            persisted(*old(self), *final(self), *profile, observed_at),
    {
        self.create_user(profile.id.as_str());
        match &profile.name {
            Some(n) => {
                self.store_user_name(profile.id.as_str(), n.as_str(), observed_at);
            },
            None => {},
        }
    }
}

/// Recording the same identity with the same display name twice leaves
/// exactly one history row for that pair, and the second record changes no
/// row.
pub proof fn lemma_persist_twice(
    s0: IdentityStore,
    s1: IdentityStore,
    s2: IdentityStore,
    profile: ProfileDTO,
    t1: i64,
    t2: i64,
)
    requires
        s0.wf(),
        s1.wf(),
        profile.name is Some,
        persisted(s0, s1, profile, t1),
        persisted(s1, s2, profile, t2),
    ensures
        one_row(s2.rows(), profile.id@, profile.name->0@),
        s2.rows() == s1.rows(),
{
    let id = profile.id@;
    let name = profile.name->0@;
    if !has_row(s0.rows(), id, name) {
        assert(s1.rows()[s1.rows().len() - 1] == s1.rows().last());
    }
    assert(has_row(s1.rows(), id, name));
    let j = choose|j: int| 0 <= j < s1.rows().len() && row_is(#[trigger] s1.rows()[j], id, name);
    assert forall|k: int| 0 <= k < s2.rows().len() && row_is(#[trigger] s2.rows()[k], id, name) implies k
        == j by {
        if k < j {
            assert(!row_is(s1.rows()[k], s1.rows()[j].user_id@, s1.rows()[j].name@));
        } else if j < k {
            assert(!row_is(s1.rows()[j], s1.rows()[k].user_id@, s1.rows()[k].name@));
        }
    }
}

/// Recording an identity under a display name that its history lacks
/// appends one row and keeps every earlier one: the identity's names are the
/// new one followed by all the earlier ones.
pub proof fn lemma_persist_new_name(s0: IdentityStore, s1: IdentityStore, profile: ProfileDTO, at: i64)
    requires
        s0.wf(),
        profile.name is Some,
        !has_row(s0.rows(), profile.id@, profile.name->0@),
        persisted(s0, s1, profile, at),
    ensures
        s1.rows().len() == s0.rows().len() + 1,
        s1.rows().take(s0.rows().len() as int) == s0.rows(),
        names_of(s1.rows(), profile.id@) == seq![s1.rows().last().name] + names_of(s0.rows(), profile.id@),
        s1.rows().last().name@ == profile.name->0@,
{
    assert(s1.rows().take(s0.rows().len() as int) =~= s1.rows().drop_last());
}

} // verus!
