//! Registration and group affiliation bookkeeping of the call control
//! sub-entity: which groups each subscriber has joined, and per group the
//! number of affiliated subscribers (the listeners of a group call).

use std::collections::{HashMap, HashSet};
use vstd::prelude::*;

use crate::call::IndividualCall;
use crate::cc_bs::CcBsSubentity;
use vstd::std_specs::iter::IteratorSpec;

verus! {

broadcast use vstd::std_specs::hash::group_hash_axioms;

/// Kind of a subscriber update.
#[derive(Clone, Copy, Debug, PartialEq, Eq, Structural)]
pub enum BrewSubscriberAction {
    Register,
    Deregister,
    Affiliate,
    Deaffiliate,
    ReleaseIndividualCalls,
}

/// Entities of the protocol stack that can send a subscriber update.
#[derive(Clone, Copy, Debug, PartialEq, Eq, Structural)]
pub enum TetraEntity {
    Mm,
    Brew,
    Cmce,
    Mle,
    Umac,
    User,
}

/// A subscriber registration or affiliation change.
pub struct MmSubscriberUpdate {
    pub issi: u32,
    pub groups: Vec<u32>,
    pub action: BrewSubscriberAction,
}

/// Follow-up work of a subscriber update for the call control entity.
pub struct SubscriberUpdateEffects {
    /// Groups the subscriber left: floor requests of the subscriber in
    /// their calls are to be cleared and calls without listeners dropped.
    pub departed_groups: Vec<u32>,
    /// Individual calls to release because the subscriber took part.
    pub release_individual_calls: Vec<u16>,
}

/// The listener count of group `g` in `l`, zero when absent.
pub open spec fn listener_count(l: Map<u32, usize>, g: u32) -> int {
    if l.contains_key(g) {
        l[g] as int
    } else {
        0
    }
}

/// `l` with one more listener for every group of `gs`.
pub open spec fn listeners_plus(l: Map<u32, usize>, gs: Set<u32>) -> Map<u32, usize> {
    Map::new(|g: u32| l.contains_key(g) || gs.contains(g), |g: u32| (listener_count(l, g) + if gs.contains(g) {
        1int
    } else {
        0int
    }) as usize)
}

/// `l` with one listener fewer for every group of `gs`; a count that drops
/// to zero is removed.
pub open spec fn listeners_minus(l: Map<u32, usize>, gs: Set<u32>) -> Map<u32, usize> {
    Map::new(
        |g: u32| l.contains_key(g) && !(gs.contains(g) && l[g] <= 1),
        |g: u32|
            if gs.contains(g) {
                (l[g] - 1) as usize
            } else {
                l[g]
            },
    )
}

/// The groups of each subscriber, as sets.
pub open spec fn groups_view(m: Map<u32, HashSet<u32>>) -> Map<u32, Set<u32>> {
    Map::new(|k: u32| m.contains_key(k), |k: u32| m[k]@)
}

/// The groups of subscriber `issi`, empty when unknown.
pub open spec fn groups_of(m: Map<u32, Set<u32>>, issi: u32) -> Set<u32> {
    if m.contains_key(issi) {
        m[issi]
    } else {
        Set::empty()
    }
}

/// The entries of `gs` that are in `set`, each once, in order of first occurrence.
pub open spec fn first_occurrences_in(set: Set<u32>, gs: Seq<u32>) -> Seq<u32>
    decreases gs.len(),
{
    if gs.len() == 0 {
        Seq::empty()
    } else {
        let p = first_occurrences_in(set, gs.drop_last());
        let x = gs.last();
        if set.contains(x) && !p.contains(x) {
            p.push(x)
        } else {
            p
        }
    }
}

/// `first_occurrences_in(set, gs)` holds exactly the entries of `gs` in
/// `set`, without repetition.
pub proof fn lemma_first_occurrences_in(set: Set<u32>, gs: Seq<u32>)
    ensures
        forall|x: u32|
            #[trigger] first_occurrences_in(set, gs).contains(x) <==> set.contains(x) && gs.contains(x),
        first_occurrences_in(set, gs).no_duplicates(),
    decreases gs.len(),
{
    if gs.len() > 0 {
        let init = gs.drop_last();
        lemma_first_occurrences_in(set, init);
        let p = first_occurrences_in(set, init);
        let x = gs.last();
        assert forall|y: u32| gs.contains(y) <==> init.contains(y) || y == x by {
            if gs.contains(y) {
                let j = choose|j: int| 0 <= j < gs.len() && gs[j] == y;
                if j < gs.len() - 1 {
                    assert(init[j] == y);
                }
            }
            if init.contains(y) {
                let j = choose|j: int| 0 <= j < init.len() && init[j] == y;
                assert(gs[j] == y);
            }
            if y == x {
                assert(gs[gs.len() - 1] == y);
            }
        }
        if set.contains(x) && !p.contains(x) {
            assert forall|y: u32| #[trigger] p.push(x).contains(y) <==> p.contains(y) || y == x by {
                if p.push(x).contains(y) {
                    let j = choose|j: int| 0 <= j < p.len() + 1 && p.push(x)[j] == y;
                    if j < p.len() {
                        assert(p[j] == y);
                    }
                }
                if p.contains(y) {
                    let j = choose|j: int| 0 <= j < p.len() && p[j] == y;
                    assert(p.push(x)[j] == y);
                }
                if y == x {
                    assert(p.push(x)[p.len() as int] == y);
                }
            }
        }
    }
}

/// Adding listeners for `a` and then for `g` (not in `a`) adds them for both.
pub proof fn lemma_listeners_plus_step(l: Map<u32, usize>, a: Set<u32>, g: u32)
    requires
        !a.contains(g),
        listener_count(l, g) < usize::MAX,
        forall|x: u32| #[trigger] a.contains(x) ==> listener_count(l, x) < usize::MAX,
    ensures
        listeners_plus(listeners_plus(l, a), set![g]) == listeners_plus(l, a.insert(g)),
{
    assert(listeners_plus(listeners_plus(l, a), set![g]) =~= listeners_plus(l, a.insert(g)));
}

/// Removing listeners for `a` and then for `g` (not in `a`) removes them for both.
pub proof fn lemma_listeners_minus_step(l: Map<u32, usize>, a: Set<u32>, g: u32)
    requires
        !a.contains(g),
    ensures
        listeners_minus(listeners_minus(l, a), set![g]) == listeners_minus(l, a.insert(g)),
{
    assert(listeners_minus(listeners_minus(l, a), set![g]) =~= listeners_minus(l, a.insert(g)));
}

/// The subscribers of `m` that are affiliated to group `g`.
pub open spec fn affiliated_to(m: Map<u32, Set<u32>>, g: u32) -> spec_fn(u32) -> bool {
    |k: u32| m[k].contains(g)
}

/// The number of subscribers of `m` affiliated to group `g`.
pub open spec fn affiliated_count(m: Map<u32, Set<u32>>, g: u32) -> nat {
    m.dom().filter(affiliated_to(m, g)).len()
}

/// Each group's listener count is the number of subscribers affiliated to
/// it, and no group is kept with a count of zero.
pub open spec fn listeners_consistent(m: Map<u32, Set<u32>>, l: Map<u32, usize>) -> bool {
    &&& m.dom().finite()
    &&& forall|g: u32| #[trigger] listener_count(l, g) == affiliated_count(m, g)
    &&& forall|g: u32| #[trigger] l.contains_key(g) ==> l[g] > 0
}

/// 1 when subscriber `k` of `m` is affiliated to `g`, else 0.
pub open spec fn member_indicator(m: Map<u32, Set<u32>>, k: u32, g: u32) -> int {
    if m.contains_key(k) && m[k].contains(g) {
        1
    } else {
        0
    }
}

proof fn lemma_affiliated_count_insert(m: Map<u32, Set<u32>>, k: u32, s: Set<u32>, g: u32)
    requires
        m.dom().finite(),
    ensures
        affiliated_count(m.insert(k, s), g) == affiliated_count(m, g) - member_indicator(m, k, g)
            + if s.contains(g) {
            1int
        } else {
            0int
        },
{
    let m2 = m.insert(k, s);
    let f = m.dom().filter(affiliated_to(m, g));
    let f2 = m2.dom().filter(affiliated_to(m2, g));
    m.dom().lemma_len_filter(affiliated_to(m, g));
    if s.contains(g) {
        assert(f2 =~= f.remove(k).insert(k));
    } else {
        assert(f2 =~= f.remove(k));
    }
}

proof fn lemma_affiliated_count_remove(m: Map<u32, Set<u32>>, k: u32, g: u32)
    requires
        m.dom().finite(),
    ensures
        affiliated_count(m.remove(k), g) == affiliated_count(m, g) - member_indicator(m, k, g),
{
    let m2 = m.remove(k);
    let f = m.dom().filter(affiliated_to(m, g));
    let f2 = m2.dom().filter(affiliated_to(m2, g));
    m.dom().lemma_len_filter(affiliated_to(m, g));
    assert(f2 =~= f.remove(k));
}

proof fn lemma_listeners_plus_count(l: Map<u32, usize>, a: Set<u32>)
    requires
        forall|x: u32| #[trigger] a.contains(x) ==> listener_count(l, x) < usize::MAX,
        forall|x: u32| #[trigger] l.contains_key(x) ==> l[x] > 0,
    ensures
        forall|g: u32|
            #[trigger] listener_count(listeners_plus(l, a), g) == listener_count(l, g) + if a.contains(g) {
                1int
            } else {
                0int
            },
        forall|g: u32| #[trigger] listeners_plus(l, a).contains_key(g) ==> listeners_plus(l, a)[g] > 0,
{
}

proof fn lemma_listeners_minus_count(l: Map<u32, usize>, a: Set<u32>)
    requires
        forall|x: u32| #[trigger] l.contains_key(x) ==> l[x] > 0,
    ensures
        forall|g: u32|
            #[trigger] listener_count(listeners_minus(l, a), g) == if a.contains(g) && l.contains_key(g) {
                listener_count(l, g) - 1
            } else {
                listener_count(l, g)
            },
        forall|g: u32| #[trigger] listeners_minus(l, a).contains_key(g) ==> listeners_minus(l, a)[g] > 0,
{
}

proof fn lemma_consistent_after_register(gv: Map<u32, Set<u32>>, l: Map<u32, usize>, issi: u32)
    requires
        listeners_consistent(gv, l),
    ensures
        listeners_consistent(
            if gv.contains_key(issi) {
                gv
            } else {
                gv.insert(issi, Set::empty())
            },
            l,
        ),
{
    if !gv.contains_key(issi) {
        assert forall|g: u32| #[trigger] listener_count(l, g) == affiliated_count(gv.insert(issi, Set::empty()), g) by {
            lemma_affiliated_count_insert(gv, issi, Set::empty(), g);
        }
    }
}

proof fn lemma_consistent_after_affiliate(gv: Map<u32, Set<u32>>, l: Map<u32, usize>, issi: u32, gs: Seq<u32>)
    requires
        listeners_consistent(gv, l),
        forall|g: u32|
            #[trigger] gs.contains(g) && !groups_of(gv, issi).contains(g) ==> listener_count(l, g) < usize::MAX,
    ensures
        listeners_consistent(
            gv.insert(issi, groups_of(gv, issi) + gs.to_set()),
            listeners_plus(l, first_occurrences_in(groups_of(gv, issi).complement(), gs).to_set()),
        ),
{
    let s0 = groups_of(gv, issi);
    let a = first_occurrences_in(s0.complement(), gs).to_set();
    let gv2 = gv.insert(issi, s0 + gs.to_set());
    lemma_first_occurrences_in(s0.complement(), gs);
    assert forall|x: u32| #[trigger] a.contains(x) implies listener_count(l, x) < usize::MAX by {
        assert(first_occurrences_in(s0.complement(), gs).contains(x));
    }
    lemma_listeners_plus_count(l, a);
    assert forall|g: u32| #[trigger] listener_count(listeners_plus(l, a), g) == affiliated_count(gv2, g) by {
        lemma_affiliated_count_insert(gv, issi, s0 + gs.to_set(), g);
        assert(a.contains(g) <==> first_occurrences_in(s0.complement(), gs).contains(g));
    }
}

proof fn lemma_member_counted(gv: Map<u32, Set<u32>>, l: Map<u32, usize>, issi: u32, g: u32)
    requires
        listeners_consistent(gv, l),
        gv.contains_key(issi),
        gv[issi].contains(g),
    ensures
        l.contains_key(g),
{
    lemma_affiliated_count_remove(gv, issi, g);
    assert(listener_count(l, g) == affiliated_count(gv, g));
}

proof fn lemma_consistent_after_deaffiliate(
    gv: Map<u32, Set<u32>>,
    l: Map<u32, usize>,
    issi: u32,
    gs: Seq<u32>,
    drop_empty: bool,
)
    requires
        listeners_consistent(gv, l),
        gv.contains_key(issi),
    ensures
        ({
            let rest = gv[issi] - gs.to_set();
            listeners_consistent(
                if drop_empty && rest.is_empty() {
                    gv.remove(issi)
                } else {
                    gv.insert(issi, rest)
                },
                listeners_minus(l, first_occurrences_in(gv[issi], gs).to_set()),
            )
        }),
{
    let s0 = gv[issi];
    let rest = s0 - gs.to_set();
    let r = first_occurrences_in(s0, gs).to_set();
    let gv2 = if drop_empty && rest.is_empty() {
        gv.remove(issi)
    } else {
        gv.insert(issi, rest)
    };
    lemma_first_occurrences_in(s0, gs);
    lemma_listeners_minus_count(l, r);
    assert forall|g: u32| #[trigger] listener_count(listeners_minus(l, r), g) == affiliated_count(gv2, g) by {
        assert(r.contains(g) <==> first_occurrences_in(s0, gs).contains(g));
        if r.contains(g) {
            lemma_member_counted(gv, l, issi, g);
        }
        if drop_empty && rest.is_empty() {
            lemma_affiliated_count_remove(gv, issi, g);
            assert(!rest.contains(g));
        } else {
            lemma_affiliated_count_insert(gv, issi, rest, g);
        }
    }
}

proof fn lemma_consistent_after_deregister(gv: Map<u32, Set<u32>>, l: Map<u32, usize>, issi: u32)
    requires
        listeners_consistent(gv, l),
        gv.contains_key(issi),
    ensures
        listeners_consistent(gv.remove(issi), listeners_minus(l, gv[issi])),
{
    lemma_listeners_minus_count(l, gv[issi]);
    assert forall|g: u32| #[trigger] listener_count(listeners_minus(l, gv[issi]), g) == affiliated_count(gv.remove(issi), g) by {
        if gv[issi].contains(g) {
            lemma_member_counted(gv, l, issi, g);
        }
        lemma_affiliated_count_remove(gv, issi, g);
    }
}

/// The bookkeeping `(groups per subscriber, listeners per group)` after an
/// update `action` of subscriber `issi` with groups `gs`. With
/// `drop_empty`, a subscriber whose last group is removed is forgotten.
pub open spec fn bookkeeping_after(
    gv: Map<u32, Set<u32>>,
    l: Map<u32, usize>,
    issi: u32,
    gs: Seq<u32>,
    action: BrewSubscriberAction,
    drop_empty: bool,
) -> (Map<u32, Set<u32>>, Map<u32, usize>) {
    match action {
        BrewSubscriberAction::Register => (
            if gv.contains_key(issi) {
                gv
            } else {
                gv.insert(issi, Set::empty())
            },
            l,
        ),
        BrewSubscriberAction::Deregister => if gv.contains_key(issi) {
            (gv.remove(issi), listeners_minus(l, gv[issi]))
        } else {
            (gv, l)
        },
        BrewSubscriberAction::Affiliate => (
            gv.insert(issi, groups_of(gv, issi) + gs.to_set()),
            listeners_plus(l, first_occurrences_in(groups_of(gv, issi).complement(), gs).to_set()),
        ),
        BrewSubscriberAction::Deaffiliate => if gv.contains_key(issi) {
            let rest = gv[issi] - gs.to_set();
            (
                if drop_empty && rest.is_empty() {
                    gv.remove(issi)
                } else {
                    gv.insert(issi, rest)
                },
                listeners_minus(l, first_occurrences_in(gv[issi], gs).to_set()),
            )
        } else {
            (gv, l)
        },
        BrewSubscriberAction::ReleaseIndividualCalls => (gv, l),
    }
}

/// Every subscriber update keeps each group's listener count equal to the
/// number of subscribers affiliated to the group; an affiliation only needs
/// the count of each group it newly joins to have room for one more.
pub proof fn lemma_update_keeps_listeners_consistent(
    gv: Map<u32, Set<u32>>,
    l: Map<u32, usize>,
    issi: u32,
    gs: Seq<u32>,
    action: BrewSubscriberAction,
    drop_empty: bool,
)
    requires
        listeners_consistent(gv, l),
        action == BrewSubscriberAction::Affiliate ==> forall|g: u32|
            #[trigger] gs.contains(g) && !groups_of(gv, issi).contains(g) ==> listener_count(l, g) < usize::MAX,
    ensures
        listeners_consistent(
            bookkeeping_after(gv, l, issi, gs, action, drop_empty).0,
            bookkeeping_after(gv, l, issi, gs, action, drop_empty).1,
        ),
{
    match action {
        BrewSubscriberAction::Register => lemma_consistent_after_register(gv, l, issi),
        BrewSubscriberAction::Deregister => if gv.contains_key(issi) {
            lemma_consistent_after_deregister(gv, l, issi);
        },
        BrewSubscriberAction::Affiliate => lemma_consistent_after_affiliate(gv, l, issi, gs),
        BrewSubscriberAction::Deaffiliate => if gv.contains_key(issi) {
            lemma_consistent_after_deaffiliate(gv, l, issi, gs, drop_empty);
        },
        BrewSubscriberAction::ReleaseIndividualCalls => {},
    }
}

/// The individual calls in which subscriber `issi` is the calling or the called party.
pub open spec fn calls_with_party(calls: Map<u16, IndividualCall>, issi: u32) -> Set<u16> {
    calls.dom().filter(|id: u16| calls[id].calling_addr.ssi == issi || calls[id].called_addr.ssi == issi)
}

/// The groups a subscriber leaves through an update other than a
/// deregistration: those removed by a deaffiliation of a known subscriber;
/// for an unknown local subscriber, the groups named in the update.
pub open spec fn departed_after(
    gv: Map<u32, Set<u32>>,
    issi: u32,
    gs: Seq<u32>,
    action: BrewSubscriberAction,
    local: bool,
) -> Seq<u32> {
    if action == BrewSubscriberAction::Deaffiliate {
        if gv.contains_key(issi) {
            first_occurrences_in(gv[issi], gs)
        } else if local {
            gs
        } else {
            Seq::empty()
        }
    } else {
        Seq::empty()
    }
}

/// The elements of `s`, each once.
pub fn hash_set_elements(s: &HashSet<u32>) -> (r: Vec<u32>)
    ensures
        r@.to_set() == s@,
        r@.no_duplicates(),
{
    let mut out: Vec<u32> = Vec::new();
    let ghost ks = vstd::std_specs::hash::spec_hash_keys_iter(s).remaining().unref();
    for k in it: s.iter()
        invariant
            it.seq().unref() == ks,
            ks.to_set() == s@,
            ks.no_duplicates(),
            out@ == ks.take(it.index() as int),
    {
        proof {
            assert(it.seq().unref().take(it.index() as int + 1) =~= it.seq().unref().take(it.index() as int).push(*k));
        }
        out.push(*k);
    }
    proof {
        assert(ks.take(ks.len() as int) =~= ks);
    }
    out
}

/// One more listener of group `gssi` in `l`.
fn inc_listener(l: &mut HashMap<u32, usize>, gssi: u32)
    requires
        listener_count(old(l)@, gssi) < usize::MAX,
    ensures
        final(l)@ == listeners_plus(old(l)@, set![gssi]),
{
    let ghost l0 = l@;
    let count: usize = match l.get(&gssi) {
        Some(c) => *c,
        None => 0,
    };
    l.insert(gssi, count + 1);
    proof {
        assert(l@ =~= listeners_plus(l0, set![gssi]));
    }
}

/// One listener fewer of group `gssi` in `l`; forgotten at zero.
fn dec_listener(l: &mut HashMap<u32, usize>, gssi: u32)
    ensures
        final(l)@ == listeners_minus(old(l)@, set![gssi]),
{
    let ghost l0 = l@;
    let count: usize = match l.get(&gssi) {
        Some(c) => *c,
        None => {
            proof {
                assert(l@ =~= listeners_minus(l0, set![gssi]));
            }
            return;
        },
    };
    if count <= 1 {
        l.remove(&gssi);
    } else {
        l.insert(gssi, count - 1);
    }
    proof {
        assert(l@ =~= listeners_minus(l0, set![gssi]));
    }
}

/// Adds one listener for each group of `gs` (distinct entries).
fn inc_listeners(l: &mut HashMap<u32, usize>, gs: &Vec<u32>)
    requires
        gs@.no_duplicates(),
        forall|g: u32| #[trigger] gs@.contains(g) ==> listener_count(old(l)@, g) < usize::MAX,
    ensures
        final(l)@ == listeners_plus(old(l)@, gs@.to_set()),
{
    let ghost l0 = l@;
    let mut i: usize = 0;
    proof {
        assert(l@ =~= listeners_plus(l0, gs@.take(0).to_set()));
    }
    while i < gs.len()
        invariant
            0 <= i <= gs@.len(),
            gs@.no_duplicates(),
            forall|g: u32| #[trigger] gs@.contains(g) ==> listener_count(l0, g) < usize::MAX,
            l@ == listeners_plus(l0, gs@.take(i as int).to_set()),
        decreases gs@.len() - i,
    {
        let g = gs[i];
        let ghost a = gs@.take(i as int).to_set();
        proof {
            assert(gs@.contains(g));
            assert(!a.contains(g)) by {
                if a.contains(g) {
                    let j = choose|j: int| 0 <= j < i && gs@.take(i as int)[j] == g;
                    assert(gs@[j] == gs@[i as int]);
                }
            }
            assert forall|x: u32| #[trigger] a.contains(x) implies listener_count(l0, x) < usize::MAX by {
                let j = choose|j: int| 0 <= j < i && gs@.take(i as int)[j] == x;
                assert(gs@.contains(gs@[j]));
            }
            lemma_listeners_plus_step(l0, a, g);
            assert(gs@.take(i as int + 1).to_set() =~= a.insert(g)) by {
                assert(gs@.take(i as int + 1) =~= gs@.take(i as int).push(g));
                gs@.take(i as int).lemma_push_to_set_commute(g);
            }
        }
        inc_listener(l, g);
        i = i + 1;
    }
    proof {
        assert(gs@.take(gs@.len() as int) =~= gs@);
    }
}

/// Removes one listener for each group of `gs` (distinct entries).
fn dec_listeners(l: &mut HashMap<u32, usize>, gs: &Vec<u32>)
    requires
        gs@.no_duplicates(),
    ensures
        final(l)@ == listeners_minus(old(l)@, gs@.to_set()),
{
    let ghost l0 = l@;
    let mut i: usize = 0;
    proof {
        assert(l@ =~= listeners_minus(l0, gs@.take(0).to_set()));
    }
    while i < gs.len()
        invariant
            0 <= i <= gs@.len(),
            gs@.no_duplicates(),
            l@ == listeners_minus(l0, gs@.take(i as int).to_set()),
        decreases gs@.len() - i,
    {
        let g = gs[i];
        let ghost a = gs@.take(i as int).to_set();
        proof {
            assert(!a.contains(g)) by {
                if a.contains(g) {
                    let j = choose|j: int| 0 <= j < i && gs@.take(i as int)[j] == g;
                    assert(gs@[j] == gs@[i as int]);
                }
            }
            lemma_listeners_minus_step(l0, a, g);
            assert(gs@.take(i as int + 1).to_set() =~= a.insert(g)) by {
                assert(gs@.take(i as int + 1) =~= gs@.take(i as int).push(g));
                gs@.take(i as int).lemma_push_to_set_commute(g);
            }
        }
        dec_listener(l, g);
        i = i + 1;
    }
    proof {
        assert(gs@.take(gs@.len() as int) =~= gs@);
    }
}

/// Adds subscriber `issi` with no groups, unless it is known already.
fn register_in(m: &mut HashMap<u32, HashSet<u32>>, issi: u32)
    ensures
        groups_view(final(m)@) == if old(m)@.contains_key(issi) {
            groups_view(old(m)@)
        } else {
            groups_view(old(m)@).insert(issi, Set::empty())
        },
{
    let ghost m0 = m@;
    if !m.contains_key(&issi) {
        m.insert(issi, HashSet::new());
    }
    proof {
        if m0.contains_key(issi) {
            assert(groups_view(m@) =~= groups_view(m0));
        } else {
            assert(groups_view(m@) =~= groups_view(m0).insert(issi, Set::empty()));
        }
    }
}

/// Affiliates subscriber `issi` (added if unknown) to the groups of `gs`;
/// returns the groups that are new to it, each once, in order of first
/// occurrence, and counts one more listener for each of them.
fn affiliate_in(
    m: &mut HashMap<u32, HashSet<u32>>,
    l: &mut HashMap<u32, usize>,
    issi: u32,
    gs: &Vec<u32>,
) -> (added: Vec<u32>)
    requires
        forall|g: u32|
            #[trigger] gs@.contains(g) && !groups_of(groups_view(old(m)@), issi).contains(g) ==> listener_count(
                old(l)@,
                g,
            ) < usize::MAX,
    ensures
        groups_view(final(m)@) == groups_view(old(m)@).insert(
            issi,
            groups_of(groups_view(old(m)@), issi) + gs@.to_set(),
        ),
        added@ == first_occurrences_in(groups_of(groups_view(old(m)@), issi).complement(), gs@),
        final(l)@ == listeners_plus(old(l)@, added@.to_set()),
{
    let ghost m0 = m@;
    let ghost s0 = groups_of(groups_view(m0), issi);
    let mut set: HashSet<u32> = match m.remove(&issi) {
        Some(existing) => existing,
        None => HashSet::new(),
    };
    let mut added: Vec<u32> = Vec::new();
    let mut i: usize = 0;
    proof {
        assert(set@ =~= s0 + gs@.take(0).to_set());
    }
    while i < gs.len()
        invariant
            0 <= i <= gs@.len(),
            set@ == s0 + gs@.take(i as int).to_set(),
            added@ == first_occurrences_in(s0.complement(), gs@.take(i as int)),
        decreases gs@.len() - i,
    {
        let g = gs[i];
        proof {
            lemma_first_occurrences_in(s0.complement(), gs@.take(i as int));
            assert(gs@.take(i as int + 1).drop_last() =~= gs@.take(i as int));
            assert(gs@.take(i as int + 1) =~= gs@.take(i as int).push(g));
            gs@.take(i as int).lemma_push_to_set_commute(g);
        }
        if set.insert(g) {
            added.push(g);
        }
        proof {
            assert(set@ =~= s0 + gs@.take(i as int + 1).to_set());
        }
        i = i + 1;
    }
    proof {
        assert(gs@.take(gs@.len() as int) =~= gs@);
        lemma_first_occurrences_in(s0.complement(), gs@);
        assert forall|g: u32| #[trigger] added@.contains(g) implies listener_count(l@, g) < usize::MAX by {
            assert(gs@.contains(g));
        }
    }
    m.insert(issi, set);
    inc_listeners(l, &added);
    proof {
        assert(groups_view(m@) =~= groups_view(m0).insert(issi, s0 + gs@.to_set()));
    }
    added
}

/// Removes the groups of `gs` from subscriber `issi`. `None` when the
/// subscriber is unknown (nothing changes); otherwise the groups it left,
/// each once, in order of first occurrence, with one listener fewer counted
/// for each. With `drop_empty`, a subscriber left without groups is
/// forgotten.
fn deaffiliate_in(
    m: &mut HashMap<u32, HashSet<u32>>,
    l: &mut HashMap<u32, usize>,
    issi: u32,
    gs: &Vec<u32>,
    drop_empty: bool,
) -> (r: Option<Vec<u32>>)
    ensures
        match r {
            None => {
                &&& !old(m)@.contains_key(issi)
                &&& final(m)@ == old(m)@
                &&& final(l)@ == old(l)@
            },
            Some(removed) => {
                let rest = old(m)@[issi]@ - gs@.to_set();
                &&& old(m)@.contains_key(issi)
                &&& removed@ == first_occurrences_in(old(m)@[issi]@, gs@)
                &&& groups_view(final(m)@) == if drop_empty && rest.is_empty() {
                    groups_view(old(m)@).remove(issi)
                } else {
                    groups_view(old(m)@).insert(issi, rest)
                }
                &&& final(l)@ == listeners_minus(old(l)@, removed@.to_set())
            },
        },
{
    let ghost m0 = m@;
    let mut set: HashSet<u32> = match m.remove(&issi) {
        Some(existing) => existing,
        None => {
            proof {
                assert(m@ =~= m0);
            }
            return None;
        },
    };
    let ghost s0 = set@;
    let mut removed: Vec<u32> = Vec::new();
    let mut i: usize = 0;
    proof {
        assert(set@ =~= s0 - gs@.take(0).to_set());
    }
    while i < gs.len()
        invariant
            0 <= i <= gs@.len(),
            set@ == s0 - gs@.take(i as int).to_set(),
            removed@ == first_occurrences_in(s0, gs@.take(i as int)),
        decreases gs@.len() - i,
    {
        let g = gs[i];
        proof {
            lemma_first_occurrences_in(s0, gs@.take(i as int));
            assert(gs@.take(i as int + 1).drop_last() =~= gs@.take(i as int));
            assert(gs@.take(i as int + 1) =~= gs@.take(i as int).push(g));
            gs@.take(i as int).lemma_push_to_set_commute(g);
        }
        if set.remove(&g) {
            removed.push(g);
        }
        proof {
            assert(set@ =~= s0 - gs@.take(i as int + 1).to_set());
        }
        i = i + 1;
    }
    proof {
        assert(gs@.take(gs@.len() as int) =~= gs@);
        lemma_first_occurrences_in(s0, gs@);
    }
    let ghost rest = set@;
    if !(drop_empty && set.is_empty()) {
        m.insert(issi, set);
        proof {
            assert(groups_view(m@) =~= groups_view(m0).insert(issi, rest));
        }
    } else {
        proof {
            assert(groups_view(m@) =~= groups_view(m0).remove(issi));
        }
    }
    dec_listeners(l, &removed);
    Some(removed)
}

/// Forgets subscriber `issi`. `None` when it is unknown (nothing changes);
/// otherwise its groups, each once, with one listener fewer counted for each.
fn deregister_in(m: &mut HashMap<u32, HashSet<u32>>, l: &mut HashMap<u32, usize>, issi: u32) -> (r:
    Option<Vec<u32>>)
    ensures
        match r {
            None => {
                &&& !old(m)@.contains_key(issi)
                &&& final(m)@ == old(m)@
                &&& final(l)@ == old(l)@
            },
            Some(groups) => {
                &&& old(m)@.contains_key(issi)
                &&& groups@.to_set() == old(m)@[issi]@
                &&& groups@.no_duplicates()
                &&& final(m)@ == old(m)@.remove(issi)
                &&& final(l)@ == listeners_minus(old(l)@, old(m)@[issi]@)
            },
        },
{
    let ghost m0 = m@;
    match m.remove(&issi) {
        Some(existing) => {
            let groups = hash_set_elements(&existing);
            dec_listeners(l, &groups);
            Some(groups)
        },
        None => {
            proof {
                assert(m@ =~= m0);
            }
            None
        },
    }
}

impl CcBsSubentity {
    /// The affiliation bookkeeping of local subscribers (`local`) or of
    /// subscribers behind the network bridge: groups per subscriber and
    /// listeners per group.
    pub open spec fn affiliations(&self, local: bool) -> (Map<u32, Set<u32>>, Map<u32, usize>) {
        if local {
            (groups_view(self.subscriber_groups@), self.group_listeners@)
        } else {
            (groups_view(self.external_subscriber_groups@), self.external_group_listeners@)
        }
    }

    /// Applies a subscriber registration or affiliation change. Updates from
    /// mobility management (`source` is `Mm`) concern local subscribers,
    /// others subscribers behind the network bridge. Returns the groups the
    /// subscriber left, whose floor requests and unlistened calls are then to
    /// be cleared, and the individual calls to release.
    pub fn handle_subscriber_update(&mut self, update: MmSubscriberUpdate, source: TetraEntity) -> (r:
        SubscriberUpdateEffects)
        requires
            update.action == BrewSubscriberAction::Affiliate ==> forall|g: u32|
                #[trigger] update.groups@.contains(g) && !groups_of(
                    old(self).affiliations(source == TetraEntity::Mm).0,
                    update.issi,
                ).contains(g) ==> listener_count(old(self).affiliations(source == TetraEntity::Mm).1, g)
                    < usize::MAX,
        ensures
            old(self).individual_calls_wf() ==> final(self).individual_calls_wf(),
            ({
                let local = source == TetraEntity::Mm;
                let (gv, l) = old(self).affiliations(local);
                &&& final(self).affiliations(local) == bookkeeping_after(
                    gv,
                    l,
                    update.issi,
                    update.groups@,
                    update.action,
                    !local,
                )
                &&& final(self).affiliations(!local) == old(self).affiliations(!local)
                &&& update.action != BrewSubscriberAction::Deregister ==> r.departed_groups@
                    == departed_after(gv, update.issi, update.groups@, update.action, local)
                &&& update.action == BrewSubscriberAction::Deregister ==> r.departed_groups@.to_set()
                    == groups_of(gv, update.issi)
                &&& update.action == BrewSubscriberAction::Deregister ==> r.departed_groups@.no_duplicates()
                &&& r.release_individual_calls@.to_set() == if local && (update.action
                    == BrewSubscriberAction::Deregister || update.action
                    == BrewSubscriberAction::ReleaseIndividualCalls) {
                    calls_with_party(old(self).individual_calls@, update.issi)
                } else {
                    Set::empty()
                }
                &&& r.release_individual_calls@.no_duplicates()
                &&& listeners_consistent(gv, l) ==> listeners_consistent(
                    final(self).affiliations(local).0,
                    final(self).affiliations(local).1,
                )
            }),
            *final(self) == (CcBsSubentity {
                subscriber_groups: final(self).subscriber_groups,
                group_listeners: final(self).group_listeners,
                external_subscriber_groups: final(self).external_subscriber_groups,
                external_group_listeners: final(self).external_group_listeners,
                ..*old(self)
            }),
    {
        let issi = update.issi;
        let local = source == TetraEntity::Mm;
        let ghost gv = self.affiliations(local).0;
        let ghost l = self.affiliations(local).1;
        let ghost gs = update.groups@;
        let ghost action = update.action;
        let mut departed: Vec<u32> = Vec::new();
        let mut release: Vec<u16> = Vec::new();
        if local {
            match update.action {
                BrewSubscriberAction::Register => {
                    register_in(&mut self.subscriber_groups, issi);
                },
                BrewSubscriberAction::Deregister => {
                    match deregister_in(&mut self.subscriber_groups, &mut self.group_listeners, issi) {
                        Some(groups) => {
                            departed = groups;
                        },
                        None => {},
                    }
                    proof {
                        assert(groups_view(self.subscriber_groups@) =~= bookkeeping_after(gv, l, issi, gs, action, false).0);
                    }
                    release = self.individual_call_ids_with_party(issi);
                },
                BrewSubscriberAction::Affiliate => {
                    let _added = affiliate_in(&mut self.subscriber_groups, &mut self.group_listeners, issi, &update.groups);
                },
                BrewSubscriberAction::Deaffiliate => {
                    match deaffiliate_in(
                        &mut self.subscriber_groups,
                        &mut self.group_listeners,
                        issi,
                        &update.groups,
                        false,
                    ) {
                        Some(removed) => {
                            departed = removed;
                            proof {
                                lemma_first_occurrences_in(gv[issi], gs);
                            }
                        },
                        None => {
                            departed = update.groups;
                        },
                    }
                },
                BrewSubscriberAction::ReleaseIndividualCalls => {
                    release = self.individual_call_ids_with_party(issi);
                },
            }
        } else {
            match update.action {
                BrewSubscriberAction::Register => {
                    register_in(&mut self.external_subscriber_groups, issi);
                },
                BrewSubscriberAction::Deregister => {
                    match deregister_in(
                        &mut self.external_subscriber_groups,
                        &mut self.external_group_listeners,
                        issi,
                    ) {
                        Some(groups) => {
                            departed = groups;
                        },
                        None => {},
                    }
                    proof {
                        assert(groups_view(self.external_subscriber_groups@) =~= bookkeeping_after(gv, l, issi, gs, action, true).0);
                    }
                },
                BrewSubscriberAction::Affiliate => {
                    let _added = affiliate_in(
                        &mut self.external_subscriber_groups,
                        &mut self.external_group_listeners,
                        issi,
                        &update.groups,
                    );
                },
                BrewSubscriberAction::Deaffiliate => {
                    match deaffiliate_in(
                        &mut self.external_subscriber_groups,
                        &mut self.external_group_listeners,
                        issi,
                        &update.groups,
                        true,
                    ) {
                        Some(removed) => {
                            departed = removed;
                            proof {
                                lemma_first_occurrences_in(gv[issi], gs);
                            }
                        },
                        None => {},
                    }
                },
                BrewSubscriberAction::ReleaseIndividualCalls => {},
            }
        }
        proof {
            if listeners_consistent(gv, l) {
                lemma_update_keeps_listeners_consistent(gv, l, issi, gs, action, !local);
            }
            assert(Seq::<u32>::empty().to_set() =~= Set::<u32>::empty());
            assert(Seq::<u16>::empty().to_set() =~= Set::<u16>::empty());
        }
        SubscriberUpdateEffects { departed_groups: departed, release_individual_calls: release }
    }

    /// Forces local subscriber `issi` off the cell. `None`, with nothing
    /// changed, when it is not registered; otherwise it is forgotten (one
    /// listener fewer for each of its groups) and the individual calls in
    /// which it takes part are returned for release.
    pub fn kick_ms(&mut self, issi: u32) -> (r: Option<Vec<u16>>)
        ensures
            old(self).individual_calls_wf() ==> final(self).individual_calls_wf(),
            match r {
                None => {
                    &&& !old(self).subscriber_groups@.contains_key(issi)
                    &&& *final(self) == *old(self)
                },
                Some(ids) => {
                    let (gv, l) = old(self).affiliations(true);
                    &&& old(self).subscriber_groups@.contains_key(issi)
                    &&& ids@.to_set() == calls_with_party(old(self).individual_calls@, issi)
                    &&& ids@.no_duplicates()
                    &&& final(self).affiliations(true) == bookkeeping_after(
                        gv,
                        l,
                        issi,
                        Seq::empty(),
                        BrewSubscriberAction::Deregister,
                        false,
                    )
                    &&& *final(self) == (CcBsSubentity {
                        subscriber_groups: final(self).subscriber_groups,
                        group_listeners: final(self).group_listeners,
                        ..*old(self)
                    })
                },
            },
    {
        if !self.subscriber_groups.contains_key(&issi) {
            return None;
        }
        let ids = self.individual_call_ids_with_party(issi);
        let ghost gv = self.affiliations(true).0;
        let _groups = deregister_in(&mut self.subscriber_groups, &mut self.group_listeners, issi);
        proof {
            assert(groups_view(self.subscriber_groups@) =~= gv.remove(issi));
        }
        Some(ids)
    }

    /// One more listener of group `gssi`.
    pub fn inc_group_listener(&mut self, gssi: u32)
        requires
            listener_count(old(self).group_listeners@, gssi) < usize::MAX,
        ensures
            old(self).individual_calls_wf() ==> final(self).individual_calls_wf(),
            final(self).group_listeners@ == listeners_plus(old(self).group_listeners@, set![gssi]),
            *final(self) == (CcBsSubentity { group_listeners: final(self).group_listeners, ..*old(self) }),
    {
        let ghost l = self.group_listeners@;
        let count: usize = match self.group_listeners.get(&gssi) {
            Some(c) => *c,
            None => 0,
        };
        self.group_listeners.insert(gssi, count + 1);
        proof {
            assert(self.group_listeners@ =~= listeners_plus(l, set![gssi]));
        }
    }

    /// One listener fewer of group `gssi`; the group is forgotten when none is left.
    pub fn dec_group_listener(&mut self, gssi: u32)
        ensures
            old(self).individual_calls_wf() ==> final(self).individual_calls_wf(),
            final(self).group_listeners@ == listeners_minus(old(self).group_listeners@, set![gssi]),
            *final(self) == (CcBsSubentity { group_listeners: final(self).group_listeners, ..*old(self) }),
    {
        let ghost l = self.group_listeners@;
        let count: usize = match self.group_listeners.get(&gssi) {
            Some(c) => *c,
            None => {
                proof {
                    assert(self.group_listeners@ =~= listeners_minus(l, set![gssi]));
                }
                return;
            },
        };
        if count <= 1 {
            self.group_listeners.remove(&gssi);
        } else {
            self.group_listeners.insert(gssi, count - 1);
        }
        proof {
            assert(self.group_listeners@ =~= listeners_minus(l, set![gssi]));
        }
    }

    /// One more bridge listener of group `gssi`.
    pub fn inc_external_group_listener(&mut self, gssi: u32)
        requires
            listener_count(old(self).external_group_listeners@, gssi) < usize::MAX,
        ensures
            old(self).individual_calls_wf() ==> final(self).individual_calls_wf(),
            final(self).external_group_listeners@ == listeners_plus(old(self).external_group_listeners@, set![gssi]),
            *final(self) == (CcBsSubentity {
                external_group_listeners: final(self).external_group_listeners,
                ..*old(self)
            }),
    {
        let ghost l = self.external_group_listeners@;
        let count: usize = match self.external_group_listeners.get(&gssi) {
            Some(c) => *c,
            None => 0,
        };
        self.external_group_listeners.insert(gssi, count + 1);
        proof {
            assert(self.external_group_listeners@ =~= listeners_plus(l, set![gssi]));
        }
    }

    /// One bridge listener fewer of group `gssi`; the group is forgotten
    /// when none is left.
    pub fn dec_external_group_listener(&mut self, gssi: u32)
        ensures
            old(self).individual_calls_wf() ==> final(self).individual_calls_wf(),
            final(self).external_group_listeners@ == listeners_minus(
                old(self).external_group_listeners@,
                set![gssi],
            ),
            *final(self) == (CcBsSubentity {
                external_group_listeners: final(self).external_group_listeners,
                ..*old(self)
            }),
    {
        let ghost l = self.external_group_listeners@;
        let count: usize = match self.external_group_listeners.get(&gssi) {
            Some(c) => *c,
            None => {
                proof {
                    assert(self.external_group_listeners@ =~= listeners_minus(l, set![gssi]));
                }
                return;
            },
        };
        if count <= 1 {
            self.external_group_listeners.remove(&gssi);
        } else {
            self.external_group_listeners.insert(gssi, count - 1);
        }
        proof {
            assert(self.external_group_listeners@ =~= listeners_minus(l, set![gssi]));
        }
    }

    /// The registered local subscribers, each once.
    pub fn subscriber_issis(&self) -> (r: Vec<u32>)
        ensures
            r@.to_set() == self.subscriber_groups@.dom(),
            r@.no_duplicates(),
    {
        let mut out: Vec<u32> = Vec::new();
        let ghost ks = vstd::std_specs::hash::spec_keys_iter(&self.subscriber_groups).remaining().unref();
        for k in it: self.subscriber_groups.keys()
            invariant
                it.seq().unref() == ks,
                ks.to_set() == self.subscriber_groups@.dom(),
                ks.no_duplicates(),
                out@ == ks.take(it.index() as int),
        {
            proof {
                assert(it.seq().unref().take(it.index() as int + 1) =~= it.seq().unref().take(it.index() as int).push(*k));
            }
            out.push(*k);
        }
        proof {
            assert(ks.take(ks.len() as int) =~= ks);
        }
        out
    }

    /// The groups of subscriber `issi`, each once; empty when unknown.
    pub fn subscriber_groups_for(&self, issi: u32) -> (r: Vec<u32>)
        ensures
            r@.to_set() == groups_of(groups_view(self.subscriber_groups@), issi),
            r@.no_duplicates(),
    {
        match self.subscriber_groups.get(&issi) {
            Some(groups) => hash_set_elements(groups),
            None => {
                proof {
                    assert(Seq::<u32>::empty().to_set() =~= Set::<u32>::empty());
                }
                Vec::new()
            },
        }
    }

    /// The individual calls in which subscriber `issi` takes part, each once.
    pub fn individual_call_ids_with_party(&self, issi: u32) -> (r: Vec<u16>)
        ensures
            r@.to_set() == calls_with_party(self.individual_calls@, issi),
            r@.no_duplicates(),
    {
        let mut out: Vec<u16> = Vec::new();
        let ghost calls = self.individual_calls@;
        let ghost ks = vstd::std_specs::hash::spec_keys_iter(&self.individual_calls).remaining().unref();
        for k in it: self.individual_calls.keys()
            invariant
                it.seq().unref() == ks,
                ks.to_set() == calls.dom(),
                ks.no_duplicates(),
                calls == self.individual_calls@,
                out@.no_duplicates(),
                forall|id: u16|
                    #[trigger] out@.contains(id) <==> ks.take(it.index() as int).contains(id) && (
                    calls[id].calling_addr.ssi == issi || calls[id].called_addr.ssi == issi),
        {
            let ghost i = it.index() as int;
            proof {
                assert(ks.take(i + 1) =~= ks.take(i).push(*k));
                assert(ks[i] == *k);
                assert(!ks.take(i).contains(*k)) by {
                    if ks.take(i).contains(*k) {
                        let j = choose|j: int| 0 <= j < i && ks.take(i)[j] == *k;
                        assert(ks[j] == ks[i]);
                    }
                }
                assert(ks.to_set().contains(*k));
                let t0 = ks.take(i);
                let t1 = ks.take(i + 1);
                assert forall|id: u16| t1.contains(id) <==> t0.contains(id) || id == *k by {
                    if t1.contains(id) {
                        let j = choose|j: int| 0 <= j < t1.len() && t1[j] == id;
                        if j < i {
                            assert(t0[j] == id);
                        }
                    }
                    if t0.contains(id) {
                        let j = choose|j: int| 0 <= j < t0.len() && t0[j] == id;
                        assert(t1[j] == id);
                    }
                    if id == *k {
                        assert(t1[i] == id);
                    }
                }
            }
            let ghost out0 = out@;
            match self.individual_calls.get(k) {
                Some(call) => {
                    if call.calling_addr.ssi == issi || call.called_addr.ssi == issi {
                        proof {
                            assert(!out0.contains(*k));
                        }
                        out.push(*k);
                        proof {
                            assert forall|a: int, b: int| 0 <= a < b < out@.len() implies out@[a] != out@[b] by {
                                if b == out0.len() {
                                    assert(out0[a] == out@[a]);
                                    assert(out0.contains(out@[a]));
                                } else {
                                    assert(out0[a] == out@[a] && out0[b] == out@[b]);
                                }
                            }
                            assert forall|id: u16| #[trigger] out@.contains(id) <==> out0.contains(id) || id == *k by {
                                if out@.contains(id) {
                                    let j = choose|j: int| 0 <= j < out@.len() && out@[j] == id;
                                    if j < out0.len() {
                                        assert(out0[j] == id);
                                    }
                                }
                                if out0.contains(id) {
                                    let j = choose|j: int| 0 <= j < out0.len() && out0[j] == id;
                                    assert(out@[j] == id);
                                }
                                if id == *k {
                                    assert(out@[out0.len() as int] == id);
                                }
                            }
                        }
                    }
                },
                None => {},
            }
        }
        proof {
            assert(ks.take(ks.len() as int) =~= ks);
            assert(out@.to_set() =~= calls_with_party(calls, issi)) by {
                assert forall|id: u16| #[trigger] out@.to_set().contains(id) implies calls_with_party(calls, issi).contains(id) by {
                    assert(out@.contains(id));
                    assert(ks.contains(id));
                    assert(ks.to_set().contains(id));
                }
                assert forall|id: u16| #[trigger] calls_with_party(calls, issi).contains(id) implies out@.to_set().contains(id) by {
                    assert(ks.to_set().contains(id));
                    assert(ks.contains(id));
                    assert(out@.contains(id));
                }
            }
        }
        out
    }
}

/// One change to the cell's shared registry of radio subscribers.
#[derive(Clone, Copy, Debug, PartialEq, Eq, Structural)]
pub enum RegistryOp {
    Register { issi: u32 },
    Deregister { issi: u32 },
    Affiliate { issi: u32, gssi: u32 },
    Deaffiliate { issi: u32, gssi: u32 },
}

/// The registry changes a subscriber update makes, each group in order.
pub open spec fn registry_ops_for(issi: u32, groups: Seq<u32>, action: BrewSubscriberAction, source: TetraEntity, registered: bool) -> Seq<
    RegistryOp,
> {
    if source != TetraEntity::Mm {
        Seq::empty()
    } else {
        match action {
            BrewSubscriberAction::Register => if registered {
                Seq::empty()
            } else {
                seq![RegistryOp::Register { issi }]
            },
            BrewSubscriberAction::Deregister => seq![RegistryOp::Deregister { issi }],
            BrewSubscriberAction::Affiliate => if registered {
                groups.map_values(|g: u32| RegistryOp::Affiliate { issi, gssi: g })
            } else {
                Seq::empty()
            },
            BrewSubscriberAction::Deaffiliate => groups.map_values(|g: u32| RegistryOp::Deaffiliate { issi, gssi: g }),
            BrewSubscriberAction::ReleaseIndividualCalls => Seq::empty(),
        }
    }
}

impl CcBsSubentity {
    /// The changes to the shared registry of radio subscribers that a
    /// subscriber update from `source` makes: only mobility management
    /// speaks for radio subscribers; a registration is added once; groups
    /// are affiliated only for a registered subscriber (`registered` says
    /// whether the registry knows `issi`).
    pub fn sync_shared_subscribers_from_mm_update(
        &self,
        issi: u32,
        groups: &Vec<u32>,
        action: BrewSubscriberAction,
        source: TetraEntity,
        registered: bool,
    ) -> (r: Vec<RegistryOp>)
        ensures
            r@ == registry_ops_for(issi, groups@, action, source, registered),
    {
        let mut ops: Vec<RegistryOp> = Vec::new();
        if !matches!(source, TetraEntity::Mm) {
            return ops;
        }
        match action {
            BrewSubscriberAction::Register => {
                if !registered {
                    ops.push(RegistryOp::Register { issi });
                }
                proof {
                    assert(ops@ =~= registry_ops_for(issi, groups@, action, source, registered));
                }
            },
            BrewSubscriberAction::Deregister => {
                ops.push(RegistryOp::Deregister { issi });
                proof {
                    assert(ops@ =~= registry_ops_for(issi, groups@, action, source, registered));
                }
            },
            BrewSubscriberAction::Affiliate | BrewSubscriberAction::Deaffiliate => {
                let affiliate = matches!(action, BrewSubscriberAction::Affiliate);
                if affiliate && !registered {
                    proof {
                        assert(ops@ =~= registry_ops_for(issi, groups@, action, source, registered));
                    }
                    return ops;
                }
                let mut i: usize = 0;
                while i < groups.len()
                    invariant
                        0 <= i <= groups@.len(),
                        affiliate == (action == BrewSubscriberAction::Affiliate),
                        ops@.len() == i,
                        forall|j: int|
                            0 <= j < i ==> #[trigger] ops@[j] == if affiliate {
                                RegistryOp::Affiliate { issi, gssi: groups@[j] }
                            } else {
                                RegistryOp::Deaffiliate { issi, gssi: groups@[j] }
                            },
                    decreases groups@.len() - i,
                {
                    let g = groups[i];
                    if affiliate {
                        ops.push(RegistryOp::Affiliate { issi, gssi: g });
                    } else {
                        ops.push(RegistryOp::Deaffiliate { issi, gssi: g });
                    }
                    i = i + 1;
                }
                proof {
                    assert(ops@ =~= registry_ops_for(issi, groups@, action, source, registered));
                }
            },
            BrewSubscriberAction::ReleaseIndividualCalls => {
                proof {
                    assert(ops@ =~= registry_ops_for(issi, groups@, action, source, registered));
                }
            },
        }
        ops
    }
}

} // verus!
