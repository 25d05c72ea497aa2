//! Resolution of a free-text player name into platform identities: the live
//! directory first, the local identity history where the directory fails or
//! finds nobody.

use vstd::prelude::*;
use crate::error::StatsError;
use crate::profile::{copy_name, ProfileDTO};

verus! {

/// One profile of the directory's answer to a lookup by name.
pub struct DirectoryEntry {
    pub profile_id: Option<String>,
    pub name_on_platform: Option<String>,
}

pub open spec fn has_id(s: Seq<ProfileDTO>, id: Seq<char>) -> bool {
    exists|j: int| 0 <= j < s.len() && (#[trigger] s[j]).id@ == id
}

/// The identifiers that a list of identities holds.
pub open spec fn id_set(s: Seq<ProfileDTO>) -> Set<Seq<char>> {
    Set::new(|id: Seq<char>| has_id(s, id))
}

/// No identifier occurs twice.
pub open spec fn ids_unique(s: Seq<ProfileDTO>) -> bool {
    forall|i: int, j: int| 0 <= i < j < s.len() ==> (#[trigger] s[i]).id@ != (#[trigger] s[j]).id@
}

/// The identities in order, each identifier kept at its first occurrence.
pub open spec fn dedup_spec(s: Seq<ProfileDTO>) -> Seq<ProfileDTO>
    decreases s.len(),
{
    if s.len() == 0 {
        Seq::empty()
    } else {
        let d = dedup_spec(s.drop_last());
        if has_id(d, s.last().id@) {
            d
        } else {
            d.push(s.last())
        }
    }
}

/// The identities that the directory's entries name, in order; an entry
/// without an identifier names none.
pub open spec fn directory_profiles(entries: Seq<DirectoryEntry>) -> Seq<ProfileDTO>
    decreases entries.len(),
{
    if entries.len() == 0 {
        Seq::empty()
    } else {
        let rest = directory_profiles(entries.drop_last());
        let e = entries.last();
        match e.profile_id {
            Some(id) => rest.push(ProfileDTO { id, name: e.name_on_platform }),
            None => rest,
        }
    }
}

/// Identities for identifiers from the history, with no display name.
pub open spec fn stored_profiles(ids: Seq<String>) -> Seq<ProfileDTO> {
    Seq::new(ids.len(), |i: int| ProfileDTO { id: ids[i], name: None })
}

/// A failure of the live lookup that aborts the whole resolution instead of
/// falling back to the history.
pub open spec fn aborts_resolution(e: StatsError) -> bool {
    e == StatsError::AuthError || e == StatsError::RenewalExhausted
}

/// The canonical resolution: a credential failure of the live lookup aborts
/// it; otherwise the directory's identities where it answered with any, else
/// those of the history, else `PlayerNotFound`.
pub open spec fn resolution(live: Result<Seq<ProfileDTO>, StatsError>, stored_ids: Seq<String>) -> Result<
    Seq<ProfileDTO>,
    StatsError,
> {
    if live is Err && aborts_resolution(live->Err_0) {
        Err(live->Err_0)
    } else if live is Ok && dedup_spec(live->Ok_0).len() > 0 {
        Ok(dedup_spec(live->Ok_0))
    } else if dedup_spec(stored_profiles(stored_ids)).len() > 0 {
        Ok(dedup_spec(stored_profiles(stored_ids)))
    } else {
        Err(StatsError::PlayerNotFound)
    }
}

pub proof fn lemma_dedup(s: Seq<ProfileDTO>)
    ensures
        ids_unique(dedup_spec(s)),
        forall|id: Seq<char>| has_id(dedup_spec(s), id) <==> has_id(s, id),
        dedup_spec(s).len() <= s.len(),
        s.len() > 0 ==> dedup_spec(s).len() > 0,
    decreases s.len(),
{
    if s.len() > 0 {
        let t = s.drop_last();
        lemma_dedup(t);
        let d = dedup_spec(t);
        assert forall|id: Seq<char>| has_id(dedup_spec(s), id) <==> has_id(s, id) by {
            if has_id(s, id) {
                let j = choose|j: int| 0 <= j < s.len() && (#[trigger] s[j]).id@ == id;
                if j < s.len() - 1 {
                    assert(t[j] == s[j]);
                    assert(has_id(t, id));
                    let k = choose|k: int| 0 <= k < d.len() && (#[trigger] d[k]).id@ == id;
                    if !has_id(d, s.last().id@) {
                        assert(d.push(s.last())[k] == d[k]);
                    }
                } else if !has_id(d, s.last().id@) {
                    assert(d.push(s.last())[d.len() as int] == s.last());
                }
            }
            if has_id(dedup_spec(s), id) {
                let r = dedup_spec(s);
                let k = choose|k: int| 0 <= k < r.len() && (#[trigger] r[k]).id@ == id;
                if k < d.len() {
                    assert(r[k] == d[k]);
                    assert(has_id(d, id));
                    assert(has_id(t, id));
                    let j = choose|j: int| 0 <= j < t.len() && (#[trigger] t[j]).id@ == id;
                    assert(s[j] == t[j]);
                    assert(has_id(s, id));
                } else {
                    assert(r[k] == s.last());
                    assert(s[s.len() - 1] == s.last());
                    assert(has_id(s, id));
                }
            }
        }
        if !has_id(d, s.last().id@) {
            let r = d.push(s.last());
            assert forall|i: int, j: int| 0 <= i < j < r.len() implies (#[trigger] r[i]).id@ != (
            #[trigger] r[j]).id@ by {
                if j == d.len() {
                    assert(r[i] == d[i]);
                }
            }
        }
    }
}

proof fn lemma_same_ids_same_emptiness(a: Seq<ProfileDTO>, b: Seq<ProfileDTO>)
    requires
        id_set(a) == id_set(b),
    ensures
        (a.len() > 0) == (b.len() > 0),
{
    if a.len() > 0 {
        assert(id_set(a).contains(a[0].id@));
        assert(has_id(b, a[0].id@));
    }
    if b.len() > 0 {
        assert(id_set(b).contains(b[0].id@));
        assert(has_id(a, b[0].id@));
    }
}

proof fn lemma_dedup_ids(s: Seq<ProfileDTO>)
    ensures
        id_set(dedup_spec(s)) == id_set(s),
        ids_unique(dedup_spec(s)),
        (dedup_spec(s).len() > 0) == (s.len() > 0),
{
    lemma_dedup(s);
    assert(id_set(dedup_spec(s)) =~= id_set(s));
}

/// Resolution is stable: two resolutions whose directory answers name the
/// same identifiers, in any order and with any repeats (or that both fail),
/// and whose histories hold the same identifiers, yield the same set of
/// identities, each identifier once.
pub proof fn lemma_resolution_stable(
    live1: Result<Seq<ProfileDTO>, StatsError>,
    live2: Result<Seq<ProfileDTO>, StatsError>,
    stored1: Seq<String>,
    stored2: Seq<String>,
)
    requires
        live1 is Ok == live2 is Ok,
        live1 is Ok ==> id_set(live1->Ok_0) == id_set(live2->Ok_0),
        live1 is Err ==> live1 == live2,
        id_set(stored_profiles(stored1)) == id_set(stored_profiles(stored2)),
    ensures
        resolution(live1, stored1) is Ok == resolution(live2, stored2) is Ok,
        resolution(live1, stored1) matches Ok(a) ==> {
            &&& ids_unique(a)
            &&& ids_unique(resolution(live2, stored2)->Ok_0)
            &&& id_set(a) == id_set(resolution(live2, stored2)->Ok_0)
        },
{
    lemma_dedup_ids(stored_profiles(stored1));
    lemma_dedup_ids(stored_profiles(stored2));
    lemma_same_ids_same_emptiness(stored_profiles(stored1), stored_profiles(stored2));
    if live1 is Ok {
        lemma_dedup_ids(live1->Ok_0);
        lemma_dedup_ids(live2->Ok_0);
        lemma_same_ids_same_emptiness(live1->Ok_0, live2->Ok_0);
    }
}

/// Whether an identity with the given identifier is in the list.
pub fn contains_id(v: &Vec<ProfileDTO>, id: &String) -> (r: bool)
    ensures
        r == has_id(v@, id@),
{
    let mut i: usize = 0;
    while i < v.len()
        invariant
            i <= v@.len(),
            forall|j: int| 0 <= j < i ==> (#[trigger] v@[j]).id@ != id@,
        decreases v@.len() - i,
    {
        if v[i].id == *id {
            return true;
        }
        i = i + 1;
    }
    false
}

/// Drops every identity whose identifier occurred earlier.
pub fn dedup_by_id(profiles: &Vec<ProfileDTO>) -> (r: Vec<ProfileDTO>)
    ensures
        r@ == dedup_spec(profiles@),
{
    let mut out: Vec<ProfileDTO> = Vec::new();
    let mut i: usize = 0;
    while i < profiles.len()
        invariant
            i <= profiles@.len(),
            out@ == dedup_spec(profiles@.take(i as int)),
        decreases profiles@.len() - i,
    {
        let ghost next = profiles@.take(i + 1);
        assert(next.drop_last() =~= profiles@.take(i as int));
        assert(next.last() == profiles@[i as int]);
        if !contains_id(&out, &profiles[i].id) {
            out.push(profiles[i].duplicate());
        }
        i = i + 1;
    }
    assert(profiles@.take(i as int) =~= profiles@);
    out
}

/// The identities that the directory's entries name, in order.
pub fn profiles_from_directory(entries: &Vec<DirectoryEntry>) -> (r: Vec<ProfileDTO>)
    ensures
        r@ == directory_profiles(entries@),
{
    let mut out: Vec<ProfileDTO> = Vec::new();
    let mut i: usize = 0;
    while i < entries.len()
        invariant
            i <= entries@.len(),
            out@ == directory_profiles(entries@.take(i as int)),
        decreases entries@.len() - i,
    {
        let ghost next = entries@.take(i + 1);
        assert(next.drop_last() =~= entries@.take(i as int));
        assert(next.last() == entries@[i as int]);
        match &entries[i].profile_id {
            Some(id) => {
                out.push(ProfileDTO { id: id.clone(), name: copy_name(&entries[i].name_on_platform) });
            },
            None => {},
        }
        i = i + 1;
    }
    assert(entries@.take(i as int) =~= entries@);
    out
}

/// The live lookup: the directory's identities without repeats, each with the
/// display name the directory gave; `PlayerNotFound` where it named nobody.
pub fn find_player_id_by_api(entries: &Vec<DirectoryEntry>) -> (r: Result<Vec<ProfileDTO>, StatsError>)
    ensures
        r is Err <==> dedup_spec(directory_profiles(entries@)).len() == 0,
        r matches Err(e) ==> e == StatsError::PlayerNotFound,
        r matches Ok(v) ==> v@ == dedup_spec(directory_profiles(entries@)),
{
    let found = profiles_from_directory(entries);
    let unique = dedup_by_id(&found);
    if unique.len() == 0 {
        Err(StatsError::PlayerNotFound)
    } else {
        Ok(unique)
    }
}

/// The history lookup: one identity without display name for each identifier
/// that the history associates with the name, without repeats.
pub fn find_player_id_by_db(ids: &Vec<String>) -> (r: Vec<ProfileDTO>)
    ensures
        r@ == dedup_spec(stored_profiles(ids@)),
{
    let mut all: Vec<ProfileDTO> = Vec::new();
    let mut i: usize = 0;
    while i < ids.len()
        invariant
            i <= ids@.len(),
            all@ == stored_profiles(ids@).take(i as int),
        decreases ids@.len() - i,
    {
        all.push(ProfileDTO { id: ids[i].clone(), name: None });
        i = i + 1;
        assert(all@ =~= stored_profiles(ids@).take(i as int));
    }
    assert(all@ =~= stored_profiles(ids@));
    dedup_by_id(&all)
}

/// Chooses between the live answer and the history's identifiers; a
/// credential failure of the live answer is passed on.
pub fn get_player_profiles_by_name(live: Result<Vec<ProfileDTO>, StatsError>, stored_ids: &Vec<String>) -> (r:
    Result<Vec<ProfileDTO>, StatsError>)
    ensures
        match (r, resolution(
            match live {
                Ok(v) => Ok(v@),
                Err(e) => Err(e),
            },
            stored_ids@,
        )) {
            (Ok(a), Ok(b)) => a@ == b,
            (Err(a), Err(b)) => a == b,
            _ => false,
        },
{
    match &live {
        Ok(found) => {
            let unique = dedup_by_id(found);
            if unique.len() > 0 {
                return Ok(unique);
            }
        },
        Err(e) => {
            if *e == StatsError::AuthError || *e == StatsError::RenewalExhausted {
                return Err(*e);
            }
        },
    }
    let stored = find_player_id_by_db(stored_ids);
    if stored.len() > 0 {
        Ok(stored)
    } else {
        Err(StatsError::PlayerNotFound)
    }
}

/// The display name that a lookup by identifier yields: that of the first
/// profile of the answer.
pub fn first_directory_name(entries: &Vec<DirectoryEntry>) -> (r: Option<String>)
    ensures
        entries@.len() == 0 ==> r is None,
        entries@.len() > 0 ==> r == entries@[0].name_on_platform,
{
    if entries.len() == 0 {
        None
    } else {
        copy_name(&entries[0].name_on_platform)
    }
}

} // verus!
