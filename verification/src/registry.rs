//! The robot registry: one long-lived controller per crane identifier,
//! created lazily from the store of configured cranes, or from the default
//! geometry when the store has no record, and never pruned for the life of
//! the process.

use vstd::prelude::*;

use crate::crane::Crane;
use crate::models::{CraneDetails, CraneDimensions, CraneLimits};

verus! {

/// Index of the first crane whose identifier is `id`, or -1 when none is.
pub open spec fn find_crane(s: Seq<Crane>, id: Seq<char>) -> int
    decreases s.len(),
{
    if s.len() == 0 {
        -1
    } else if s[0].id@ == id {
        0
    } else {
        let r = find_crane(s.skip(1), id);
        if r < 0 {
            -1
        } else {
            r + 1
        }
    }
}

/// Whether some crane in the sequence has identifier `id`.
pub open spec fn has_crane(s: Seq<Crane>, id: Seq<char>) -> bool {
    find_crane(s, id) >= 0
}

/// No two cranes in the sequence share an identifier.
pub open spec fn unique_ids(s: Seq<Crane>) -> bool {
    forall|i: int, j: int| 0 <= i < j < s.len() ==> s[i].id@ != s[j].id@
}

/// What `find_crane` finds: a non-negative result exactly when some crane
/// has the identifier, and then it is the smallest index of one that does.
pub proof fn lemma_find_crane_props(s: Seq<Crane>, id: Seq<char>)
    ensures
        find_crane(s, id) >= 0 <==> (exists|w: int| 0 <= w < s.len() && s[w].id@ == id),
        find_crane(s, id) >= 0 ==> 0 <= find_crane(s, id) < s.len() && s[find_crane(s, id)].id@
            == id && (forall|k: int| 0 <= k < find_crane(s, id) ==> s[k].id@ != id),
    decreases s.len(),
{
    if s.len() > 0 && s[0].id@ != id {
        let tail = s.skip(1);
        lemma_find_crane_props(tail, id);
        assert forall|k: int| 0 <= k < tail.len() implies tail[k] == s[k + 1] by {}
        if exists|w: int| 0 <= w < s.len() && s[w].id@ == id {
            let w = choose|w: int| 0 <= w < s.len() && s[w].id@ == id;
            assert(tail[w - 1].id@ == id);
        }
        if exists|w: int| 0 <= w < tail.len() && tail[w].id@ == id {
            let w = choose|w: int| 0 <= w < tail.len() && tail[w].id@ == id;
            assert(s[w + 1].id@ == id);
        }
        if find_crane(s, id) >= 0 {
            let fi = find_crane(s, id);
            assert(fi == find_crane(tail, id) + 1);
            assert forall|k: int| 0 <= k < fi implies s[k].id@ != id by {
                if k > 0 {
                    assert(tail[k - 1] == s[k]);
                    assert(tail[k - 1].id@ != id);
                }
            }
        }
    }
}

/// `find_crane` is determined by its characterization: any index holding
/// the identifier with no earlier one is the index found.
pub proof fn lemma_find_crane_at(s: Seq<Crane>, id: Seq<char>, i: int)
    requires
        0 <= i < s.len(),
        s[i].id@ == id,
        forall|k: int| 0 <= k < i ==> s[k].id@ != id,
    ensures
        find_crane(s, id) == i,
{
    lemma_find_crane_props(s, id);
    let fi = find_crane(s, id);
    if fi < i {
        assert(s[fi].id@ != id);
    }
    if fi > i {
        assert(s[i].id@ != id);
    }
}

/// Appending a crane does not change where an already-present identifier
/// is found.
pub proof fn lemma_find_crane_push(s: Seq<Crane>, id: Seq<char>, x: Crane)
    requires
        has_crane(s, id),
    ensures
        find_crane(s.push(x), id) == find_crane(s, id),
{
    lemma_find_crane_props(s, id);
    let i = find_crane(s, id);
    assert(s.push(x)[i] == s[i]);
    assert forall|k: int| 0 <= k < i implies s.push(x)[k].id@ != id by {
        assert(s.push(x)[k] == s[k]);
    }
    lemma_find_crane_at(s.push(x), id, i);
}

/// At most one controller exists per identifier: under the registry's
/// invariant, any two indices holding the same identifier are the same
/// index, so every access for one identifier reaches one controller.
pub proof fn lemma_at_most_one_controller(s: Seq<Crane>, i: int, j: int)
    requires
        unique_ids(s),
        0 <= i < s.len(),
        0 <= j < s.len(),
        s[i].id@ == s[j].id@,
    ensures
        i == j,
{
}

/// Two controller records with the same identifier, pose, geometry,
/// limits, operators and ledger.
pub open spec fn crane_equiv(a: Crane, b: Crane) -> bool {
    &&& a.id@ == b.id@
    &&& a.state == b.state
    &&& a.dimensions == b.dimensions
    &&& a.limits == b.limits
    &&& a.members@ == b.members@
    &&& a.last_update == b.last_update
}

/// Index of the last record carrying identifier `id`, or -1 when none
/// does: the record that wins when a configuration repeats an identifier.
pub open spec fn last_with_id(s: Seq<Crane>, id: Seq<char>) -> int
    decreases s.len(),
{
    if s.len() == 0 {
        -1
    } else if s.last().id@ == id {
        s.len() - 1
    } else {
        last_with_id(s.drop_last(), id)
    }
}

/// `last_with_id` is determined by its characterization: any index holding
/// the identifier with no later one is the index found.
pub proof fn lemma_last_with_id_at(s: Seq<Crane>, id: Seq<char>, i: int)
    requires
        0 <= i < s.len(),
        s[i].id@ == id,
        forall|w: int| i < w < s.len() ==> s[w].id@ != id,
    ensures
        last_with_id(s, id) == i,
    decreases s.len(),
{
    if i < s.len() - 1 {
        let head = s.drop_last();
        assert forall|w: int| i < w < head.len() implies head[w].id@ != id by {
            assert(head[w] == s[w]);
        }
        lemma_last_with_id_at(head, id, i);
    }
}

/// Every stored record is, field for field, the last loaded record with
/// its identifier.
pub open spec fn all_last_from(stored: Seq<Crane>, records: Seq<Crane>) -> bool {
    forall|k: int|
        0 <= k < stored.len() ==> {
            let li = last_with_id(records, (#[trigger] stored[k]).id@);
            0 <= li < records.len() && crane_equiv(stored[k], records[li])
        }
}

/// The in-memory store of configured cranes, keyed by identifier. It is
/// read-only input to the registry; absence of a record is not an error.
#[derive(Debug)]
pub struct Database {
    pub cranes: Vec<Crane>,
}

impl Database {
    /// No two records share an identifier.
    pub open spec fn wf(self) -> bool {
        unique_ids(self.cranes@)
    }

    /// Builds the store from loaded records. When several records carry
    /// the same identifier the last one wins: the store's identifiers are
    /// unique, every loaded identifier is present, and each stored record
    /// is exactly the last loaded record with its identifier.
    pub fn new(records: Vec<Crane>) -> (db: Database)
        ensures
            db.wf(),
            all_last_from(db.cranes@, records@),
            forall|j: int|
                0 <= j < records@.len() ==> has_crane(db.cranes@, records@[j].id@),
    {
        let mut cranes: Vec<Crane> = Vec::new();
        let mut j: usize = records.len();
        while j > 0
            invariant
                j <= records@.len(),
                unique_ids(cranes@),
                all_last_from(cranes@, records@),
                forall|w: int| j <= w < records@.len() ==> has_crane(cranes@, records@[w].id@),
            decreases j,
        {
            j = j - 1;
            let mut k: usize = 0;
            let mut dup: bool = false;
            while k < cranes.len()
                invariant
                    k <= cranes@.len(),
                    j < records@.len(),
                    dup ==> exists|w: int|
                        0 <= w < cranes@.len() && cranes@[w].id@ == records@[j as int].id@,
                    !dup ==> forall|w: int|
                        0 <= w < k ==> cranes@[w].id@ != records@[j as int].id@,
                decreases cranes@.len() - k,
            {
                if cranes[k].id == records[j].id {
                    dup = true;
                }
                k = k + 1;
            }
            if !dup {
                let ghost pre = cranes@;
                let rec = records[j].duplicate();
                cranes.push(rec);
                proof {
                    let cs = cranes@;
                    let rid = records@[j as int].id@;
                    assert(cs[cs.len() - 1].id@ == rid);
                    assert forall|a: int, b: int|
                        0 <= a < b < cs.len() implies cs[a].id@ != cs[b].id@ by {
                        if b == cs.len() - 1 {
                            assert(cs[a] == pre[a]);
                        } else {
                            assert(cs[a] == pre[a] && cs[b] == pre[b]);
                        }
                    }
                    assert forall|w: int| 0 <= w < cs.len() - 1 implies cs[w].id@ != rid by {
                        assert(cs[w] == pre[w]);
                    }
                    lemma_find_crane_at(cs, rid, cs.len() - 1);
                    assert forall|w: int|
                        j <= w < records@.len() && w > j implies has_crane(
                        cs,
                        records@[w].id@,
                    ) by {
                        lemma_find_crane_push(pre, records@[w].id@, cs[cs.len() - 1]);
                    }
                    // The kept record is the last with its identifier:
                    // any later record's identifier was already stored, and
                    // this one was not.
                    assert forall|w: int|
                        j < w < records@.len() implies records@[w].id@ != rid by {
                        if records@[w].id@ == rid {
                            lemma_find_crane_props(pre, rid);
                        }
                    }
                    lemma_last_with_id_at(records@, rid, j as int);
                    assert forall|k2: int|
                        0 <= k2 < cs.len() implies {
                        let li = last_with_id(records@, (#[trigger] cs[k2]).id@);
                        0 <= li < records@.len() && crane_equiv(cs[k2], records@[li])
                    } by {
                        if k2 == cs.len() - 1 {
                            assert(crane_equiv(cs[k2], records@[j as int]));
                        } else {
                            assert(cs[k2] == pre[k2]);
                            assert(all_last_from(pre, records@));
                        }
                    }
                    assert(all_last_from(cs, records@));
                }
            } else {
                proof {
                    lemma_find_crane_props(cranes@, records@[j as int].id@);
                }
            }
        }
        Database { cranes }
    }

    /// Looks one record up by identifier; absence is not an error.
    pub fn get(&self, id: &String) -> (r: Option<&Crane>)
        ensures
            r is Some <==> has_crane(self.cranes@, id@),
            r is Some ==> *r->0 == self.cranes@[find_crane(self.cranes@, id@)] && r->0.id@ == id@,
    {
        let mut k: usize = 0;
        while k < self.cranes.len()
            invariant
                k <= self.cranes@.len(),
                forall|w: int| 0 <= w < k ==> self.cranes@[w].id@ != id@,
            decreases self.cranes@.len() - k,
        {
            if self.cranes[k].id == *id {
                proof {
                    lemma_find_crane_at(self.cranes@, id@, k as int);
                }
                return Some(&self.cranes[k]);
            }
            k = k + 1;
        }
        proof {
            lemma_find_crane_props(self.cranes@, id@);
        }
        None
    }

    /// All records, in store order.
    pub fn get_all(&self) -> (r: &Vec<Crane>)
        ensures
            r@ == self.cranes@,
    {
        &self.cranes
    }
}

/// Maps each crane identifier to its one running controller. Controllers
/// are created lazily on first access and never removed; at most one
/// controller exists per identifier at any time.
#[derive(Debug)]
pub struct Registry {
    pub db: Database,
    pub robots: Vec<Crane>,
}

impl Registry {
    /// No two controllers share an identifier: the at-most-one-controller
    /// invariant.
    pub open spec fn wf(self) -> bool {
        unique_ids(self.robots@)
    }

    /// A registry over a store, with no controller running yet.
    pub fn new(db: Database) -> (r: Registry)
        ensures
            r.db == db,
            r.robots@.len() == 0,
            r.wf(),
    {
        Registry { db, robots: Vec::new() }
    }

    /// Returns the index of the running controller for `id`, creating it
    /// first if none runs yet — from the store's record, or from the
    /// default geometry when the store has none. An existing controller
    /// is returned untouched, so repeated access for one identifier
    /// always reaches the same single controller.
    pub fn get_or_create(&mut self, id: &String) -> (idx: usize)
        ensures
            final(self).db == old(self).db,
            idx < final(self).robots@.len(),
            final(self).robots@[idx as int].id@ == id@,
            has_crane(old(self).robots@, id@) ==> final(self).robots@ == old(self).robots@ && idx
                == find_crane(old(self).robots@, id@),
            !has_crane(old(self).robots@, id@) ==> {
                &&& idx == old(self).robots@.len()
                &&& final(self).robots@.len() == old(self).robots@.len() + 1
                &&& (forall|k: int|
                    0 <= k < old(self).robots@.len() ==> final(self).robots@[k] == old(
                        self,
                    ).robots@[k])
                &&& (has_crane(old(self).db.cranes@, id@) ==> {
                    let rec = old(self).db.cranes@[find_crane(old(self).db.cranes@, id@)];
                    let c = final(self).robots@[idx as int];
                    c.id@ == rec.id@ && c.state == rec.state && c.dimensions == rec.dimensions
                        && c.limits == rec.limits && c.members@ == rec.members@ && c.last_update
                        == rec.last_update
                })
                &&& (!has_crane(old(self).db.cranes@, id@) ==> {
                    let c = final(self).robots@[idx as int];
                    c.id@ == id@ && c.state == crate::models::CraneState::initial() && c.dimensions
                        == CraneDimensions::initial() && c.limits == CraneLimits::initial()
                        && c.members@.len() == 0 && c.last_update
                        == crate::crane::RateLedger::empty()
                })
            },
            old(self).wf() ==> final(self).wf(),
    {
        let mut k: usize = 0;
        while k < self.robots.len()
            invariant
                k <= self.robots@.len(),
                forall|w: int| 0 <= w < k ==> self.robots@[w].id@ != id@,
                self.db == old(self).db,
                self.robots@ == old(self).robots@,
            decreases self.robots@.len() - k,
        {
            if self.robots[k].id == *id {
                proof {
                    lemma_find_crane_at(self.robots@, id@, k as int);
                }
                return k;
            }
            k = k + 1;
        }
        proof {
            lemma_find_crane_props(self.robots@, id@);
        }
        let fresh: Crane = match self.db.get(id) {
            Some(rec) => rec.duplicate(),
            None => Crane::new(
                clone_string(id),
                CraneDimensions::default(),
                CraneLimits::default(),
            ),
        };
        let idx = self.robots.len();
        self.robots.push(fresh);
        proof {
            let rs = self.robots@;
            if old(self).wf() {
                assert forall|a: int, b: int|
                    0 <= a < b < rs.len() implies rs[a].id@ != rs[b].id@ by {
                    if b == rs.len() - 1 {
                        assert(rs[a] == old(self).robots@[a]);
                    }
                }
            }
        }
        idx
    }

    /// A client-facing snapshot of the controller for `id`: not-found
    /// exactly when the identifier has never been created and has no
    /// store record — a direct query does not create a controller for an
    /// unknown identifier.
    pub fn get_crane_details(&mut self, id: &String) -> (r: Option<CraneDetails>)
        ensures
            final(self).db == old(self).db,
            r is None <==> (!has_crane(old(self).robots@, id@) && !has_crane(
                old(self).db.cranes@,
                id@,
            )),
            r is None ==> final(self).robots@ == old(self).robots@,
            r is Some ==> has_crane(final(self).robots@, id@) && {
                let c = final(self).robots@[find_crane(final(self).robots@, id@)];
                r->0.id@ == id@ && r->0.state == c.state && r->0.dimensions == c.dimensions
            },
            old(self).wf() ==> final(self).wf(),
    {
        let known_robot = self.has_robot(id);
        let known_record = match self.db.get(id) {
            Some(_) => true,
            None => false,
        };
        if !known_robot && !known_record {
            return None;
        }
        let idx = self.get_or_create(id);
        proof {
            if has_crane(old(self).robots@, id@) {
                lemma_find_crane_props(old(self).robots@, id@);
            } else {
                lemma_find_crane_props(old(self).robots@, id@);
                assert forall|k: int| 0 <= k < idx implies self.robots@[k].id@ != id@ by {
                    assert(self.robots@[k] == old(self).robots@[k]);
                }
                lemma_find_crane_at(self.robots@, id@, idx as int);
            }
        }
        let info = self.robots[idx].info();
        Some(CraneDetails { id: info.id, state: info.state, dimensions: info.dimensions })
    }

    /// Whether a controller for `id` is already running.
    fn has_robot(&self, id: &String) -> (r: bool)
        ensures
            r == has_crane(self.robots@, id@),
    {
        let mut k: usize = 0;
        while k < self.robots.len()
            invariant
                k <= self.robots@.len(),
                forall|w: int| 0 <= w < k ==> self.robots@[w].id@ != id@,
            decreases self.robots@.len() - k,
        {
            if self.robots[k].id == *id {
                proof {
                    lemma_find_crane_at(self.robots@, id@, k as int);
                }
                return true;
            }
            k = k + 1;
        }
        proof {
            lemma_find_crane_props(self.robots@, id@);
        }
        false
    }

    /// Snapshots of every crane the store knows, materializing a
    /// controller for each identifier that has none running yet. One
    /// snapshot per store record, in store order, each reflecting the
    /// running controller for that identifier.
    pub fn get_all_crane_details(&mut self) -> (r: Vec<CraneDetails>)
        ensures
            final(self).db == old(self).db,
            r@.len() == old(self).db.cranes@.len(),
            forall|j: int|
                0 <= j < r@.len() ==> #[trigger] r@[j].id@ == old(self).db.cranes@[j].id@
                    && has_crane(final(self).robots@, r@[j].id@) && {
                    let c = final(self).robots@[find_crane(final(self).robots@, r@[j].id@)];
                    r@[j].state == c.state && r@[j].dimensions == c.dimensions
                },
            old(self).wf() ==> final(self).wf(),
    {
        let mut details: Vec<CraneDetails> = Vec::new();
        let mut j: usize = 0;
        while j < self.db.cranes.len()
            invariant
                j <= self.db.cranes@.len(),
                details@.len() == j,
                self.db == old(self).db,
                forall|k: int|
                    0 <= k < j ==> #[trigger] details@[k].id@ == self.db.cranes@[k].id@
                        && has_crane(self.robots@, details@[k].id@) && {
                        let c = self.robots@[find_crane(self.robots@, details@[k].id@)];
                        details@[k].state == c.state && details@[k].dimensions == c.dimensions
                    },
                old(self).wf() ==> self.wf(),
            decreases self.db.cranes@.len() - j,
        {
            let ghost robots_before = self.robots@;
            let rid = clone_string(&self.db.cranes[j].id);
            let idx = self.get_or_create(&rid);
            proof {
                if has_crane(robots_before, rid@) {
                    lemma_find_crane_props(robots_before, rid@);
                } else {
                    lemma_find_crane_props(robots_before, rid@);
                    assert forall|w: int| 0 <= w < idx implies self.robots@[w].id@ != rid@ by {
                        assert(self.robots@[w] == robots_before[w]);
                    }
                    lemma_find_crane_at(self.robots@, rid@, idx as int);
                    assert(forall|w: int|
                        0 <= w < robots_before.len() ==> self.robots@[w] == robots_before[w]);
                    assert(self.robots@ =~= robots_before.push(self.robots@[idx as int]));
                }
                assert(find_crane(self.robots@, rid@) == idx);
            }
            let info = self.robots[idx].info();
            details.push(
                CraneDetails { id: info.id, state: info.state, dimensions: info.dimensions },
            );
            proof {
                assert forall|k: int|
                    0 <= k < j + 1 && k < j implies #[trigger] details@[k].id@
                    == self.db.cranes@[k].id@ && has_crane(self.robots@, details@[k].id@) && {
                    let c = self.robots@[find_crane(self.robots@, details@[k].id@)];
                    details@[k].state == c.state && details@[k].dimensions == c.dimensions
                } by {
                    if !has_crane(robots_before, rid@) {
                        lemma_find_crane_push(
                            robots_before,
                            details@[k].id@,
                            self.robots@[self.robots@.len() - 1],
                        );
                        lemma_find_crane_props(robots_before, details@[k].id@);
                        assert(self.robots@[find_crane(self.robots@, details@[k].id@)]
                            == robots_before[find_crane(robots_before, details@[k].id@)]);
                    }
                }
            }
            j = j + 1;
        }
        details
    }
}

/// An independently owned copy of an identifier.
fn clone_string(s: &String) -> (r: String)
    ensures
        r@ == s@,
{
    s.clone()
}

} // verus!
