//! Collision resolution between the two teams, and removal of spent bullets.
//!
//! Players are tested first: every active opposing bullet within the hit
//! distance of a player disables and counts one hit on that player. Then
//! bullets are paired: each of team Mono's bullets, in order, is tested
//! against team Di's bullets, in order, and the first pair of active bullets
//! within the hit distance disables both. A disabled bullet takes part in no
//! further test.

use crate::actor::Bullet;
use crate::geometry::{in_tracked_region, is_hit, is_in_tracked_region, within_hit, Position};
use vstd::prelude::*;

verus! {

/// Whether bullet `b` strikes a player standing at `p`.
pub open spec fn struck(p: Position, b: Bullet) -> bool {
    b.active && within_hit(p, b.position_spec())
}

/// The bullets after those that strike a player at `p` are disabled.
pub open spec fn after_player(p: Position, bs: Seq<Bullet>) -> Seq<Bullet> {
    bs.map_values(|b: Bullet| if struck(p, b) { b.disabled() } else { b })
}

/// Number of bullets that strike a player at `p`.
pub open spec fn count_struck(p: Position, bs: Seq<Bullet>) -> nat
    decreases bs.len(),
{
    if bs.len() == 0 {
        0
    } else {
        count_struck(p, bs.drop_last()) + if struck(p, bs.last()) {
            1nat
        } else {
            0nat
        }
    }
}

/// Disables every active bullet within the hit distance of a player at `p`
/// and returns how many there were: the hits that player takes.
pub fn hit_player(p: Position, bullets: &mut Vec<Bullet>) -> (hits: usize)
    ensures
        final(bullets)@ == after_player(p, old(bullets)@),
        hits == count_struck(p, old(bullets)@),
{
    let ghost before = bullets@;
    let mut hits: usize = 0;
    let mut i: usize = 0;
    while i < bullets.len()
        invariant
            i <= bullets.len() == before.len(),
            hits == count_struck(p, before.take(i as int)),
            hits <= i,
            forall|k: int| 0 <= k < i ==> bullets@[k] == after_player(p, before)[k],
            forall|k: int| i <= k < bullets.len() ==> bullets@[k] == before[k],
        decreases bullets.len() - i,
    {
        assert(before.take(i + 1).drop_last() =~= before.take(i as int));
        let b = bullets[i];
        if b.active && is_hit(p, b.get_hitbox_position()) {
            bullets[i].disable();
            hits = hits + 1;
        }
        i = i + 1;
    }
    assert(before.take(i as int) =~= before);
    assert(bullets@ =~= after_player(p, before));
    hits
}

/// Whether two bullets of opposite teams destroy each other.
pub open spec fn clashes(m: Bullet, d: Bullet) -> bool {
    m.active && d.active && within_hit(m.position_spec(), d.position_spec())
}

/// Bullet `m` tested against the first `k` bullets of `ds`, in order: the
/// first active one within the hit distance disables both.
pub open spec fn sweep(m: Bullet, ds: Seq<Bullet>, k: nat) -> (Bullet, Seq<Bullet>)
    decreases k,
{
    if k == 0 {
        (m, ds)
    } else {
        let (m1, ds1) = sweep(m, ds, (k - 1) as nat);
        let j = k - 1;
        if j < ds1.len() && clashes(m1, ds1[j]) {
            (m1.disabled(), ds1.update(j, ds1[j].disabled()))
        } else {
            (m1, ds1)
        }
    }
}

/// The first `i` bullets of `ms`, in order, each swept against `ds`.
pub open spec fn clash_all(ms: Seq<Bullet>, ds: Seq<Bullet>, i: nat) -> (Seq<Bullet>, Seq<Bullet>)
    decreases i,
{
    if i == 0 {
        (ms, ds)
    } else {
        let (ms1, ds1) = clash_all(ms, ds, (i - 1) as nat);
        let j = i - 1;
        if j < ms1.len() {
            let (m2, ds2) = sweep(ms1[j], ds1, ds1.len());
            (ms1.update(j, m2), ds2)
        } else {
            (ms1, ds1)
        }
    }
}

/// Both teams' bullets after all pairs are tested.
pub open spec fn after_clash(ms: Seq<Bullet>, ds: Seq<Bullet>) -> (Seq<Bullet>, Seq<Bullet>) {
    clash_all(ms, ds, ms.len())
}

/// `b2` is `b1`, possibly disabled.
pub open spec fn same_or_disabled(b1: Bullet, b2: Bullet) -> bool {
    b2 == b1 || b2 == b1.disabled()
}

proof fn lemma_sweep(m: Bullet, ds: Seq<Bullet>, k: nat)
    ensures
        sweep(m, ds, k).1.len() == ds.len(),
        same_or_disabled(m, sweep(m, ds, k).0),
        forall|j: int|
            0 <= j < ds.len() ==> same_or_disabled(ds[j], #[trigger] sweep(m, ds, k).1[j]),
        forall|j: int|
            0 <= j < k && j < ds.len() ==> !clashes(sweep(m, ds, k).0, #[trigger] sweep(m, ds, k).1[j]),
    decreases k,
{
    if k > 0 {
        lemma_sweep(m, ds, (k - 1) as nat);
    }
}

proof fn lemma_clash_all(ms: Seq<Bullet>, ds: Seq<Bullet>, i: nat)
    requires
        i <= ms.len(),
    ensures
        clash_all(ms, ds, i).0.len() == ms.len(),
        clash_all(ms, ds, i).1.len() == ds.len(),
        forall|k: int|
            0 <= k < ms.len() ==> same_or_disabled(ms[k], #[trigger] clash_all(ms, ds, i).0[k]),
        forall|k: int| i <= k < ms.len() ==> #[trigger] clash_all(ms, ds, i).0[k] == ms[k],
        forall|j: int|
            0 <= j < ds.len() ==> same_or_disabled(ds[j], #[trigger] clash_all(ms, ds, i).1[j]),
        forall|k: int, j: int|
            0 <= k < i && 0 <= j < ds.len() ==> !clashes(
                #[trigger] clash_all(ms, ds, i).0[k],
                #[trigger] clash_all(ms, ds, i).1[j],
            ),
    decreases i,
{
    if i > 0 {
        let (ms1, ds1) = clash_all(ms, ds, (i - 1) as nat);
        lemma_clash_all(ms, ds, (i - 1) as nat);
        lemma_sweep(ms1[i - 1], ds1, ds1.len());
        let (ms2, ds2) = clash_all(ms, ds, i);
        assert forall|k: int, j: int| 0 <= k < i && 0 <= j < ds.len() implies !clashes(
            ms2[k],
            ds2[j],
        ) by {
            if k < i - 1 {
                assert(!clashes(ms1[k], ds1[j]));
            }
        }
    }
}

/// Tests every pair of a team Mono bullet and a team Di bullet, in order,
/// disabling both bullets of each pair of active ones within the hit
/// distance.
pub fn clash(mono: &mut Vec<Bullet>, di: &mut Vec<Bullet>)
    ensures
        (final(mono)@, final(di)@) == after_clash(old(mono)@, old(di)@),
{
    let ghost ms = mono@;
    let ghost ds = di@;
    let mut i: usize = 0;
    while i < mono.len()
        invariant
            i <= mono.len() == ms.len(),
            (mono@, di@) == clash_all(ms, ds, i as nat),
        decreases mono.len() - i,
    {
        proof {
            lemma_clash_all(ms, ds, i as nat);
        }
        let ghost m0 = mono@[i as int];
        let ghost ds0 = di@;
        let ghost ms0 = mono@;
        let mut j: usize = 0;
        while j < di.len()
            invariant
                i < mono.len() == ms0.len(),
                j <= di.len() == ds0.len(),
                (mono@[i as int], di@) == sweep(m0, ds0, j as nat),
                mono@ == ms0.update(i as int, mono@[i as int]),
            decreases di.len() - j,
        {
            proof {
                lemma_sweep(m0, ds0, j as nat);
            }
            let m = mono[i];
            let d = di[j];
            if m.active && d.active && is_hit(m.get_hitbox_position(), d.get_hitbox_position()) {
                mono[i].disable();
                di[j].disable();
            }
            j = j + 1;
        }
        proof {
            assert(mono@ =~= ms0.update(i as int, sweep(m0, ds0, ds0.len()).0));
        }
        i = i + 1;
    }
}

/// After all pairs are tested, no active team Mono bullet is within the hit
/// distance of an active team Di bullet; and every bullet is the one before,
/// disabled or not.
pub proof fn lemma_clash_leaves_no_pair(ms: Seq<Bullet>, ds: Seq<Bullet>)
    ensures
        after_clash(ms, ds).0.len() == ms.len(),
        after_clash(ms, ds).1.len() == ds.len(),
        forall|k: int, j: int|
            0 <= k < ms.len() && 0 <= j < ds.len() ==> !clashes(
                #[trigger] after_clash(ms, ds).0[k],
                #[trigger] after_clash(ms, ds).1[j],
            ),
        forall|k: int|
            0 <= k < ms.len() ==> same_or_disabled(ms[k], #[trigger] after_clash(ms, ds).0[k]),
        forall|j: int|
            0 <= j < ds.len() ==> same_or_disabled(ds[j], #[trigger] after_clash(ms, ds).1[j]),
{
    lemma_clash_all(ms, ds, ms.len());
}


proof fn lemma_count_struck_none(p: Position, bs: Seq<Bullet>)
    requires
        forall|k: int| 0 <= k < bs.len() ==> !struck(p, #[trigger] bs[k]),
    ensures
        count_struck(p, bs) == 0,
    decreases bs.len(),
{
    if bs.len() > 0 {
        lemma_count_struck_none(p, bs.drop_last());
    }
}

/// A bullet that strikes a player counts one hit and is disabled by it, so
/// resolving the same player against the resolved bullets again disables
/// nothing more and counts no further hit.
pub proof fn lemma_player_hit_once(p: Position, bs: Seq<Bullet>)
    ensures
        after_player(p, bs).len() == bs.len(),
        forall|k: int|
            0 <= k < bs.len() && struck(p, bs[k]) ==> !(#[trigger] after_player(p, bs)[k]).active,
        count_struck(p, after_player(p, bs)) == 0,
        after_player(p, after_player(p, bs)) == after_player(p, bs),
        bs.len() == 1 && struck(p, bs[0]) ==> count_struck(p, bs) == 1,
{
    let once = after_player(p, bs);
    lemma_count_struck_none(p, once);
    assert(after_player(p, once) =~= once);
    if bs.len() == 1 {
        assert(bs.drop_last().len() == 0);
        assert(count_struck(p, bs.drop_last()) == 0);
        assert(bs.last() == bs[0]);
    }
}

/// Whether a bullet stays in storage: it is active and inside the tracked
/// region.
pub open spec fn is_live(b: Bullet) -> bool {
    b.active && in_tracked_region(b.x as int, b.y as int)
}

/// The live bullets of `bs`, in order.
pub open spec fn live_only(bs: Seq<Bullet>) -> Seq<Bullet> {
    bs.filter(|b: Bullet| is_live(b))
}

/// Drops every bullet that is disabled or outside the tracked region,
/// keeping the order of the rest.
pub fn retain_live(bullets: &mut Vec<Bullet>)
    ensures
        final(bullets)@ == live_only(old(bullets)@),
{
    let ghost before = bullets@;
    let mut kept: Vec<Bullet> = Vec::new();
    let mut i: usize = 0;
    while i < bullets.len()
        invariant
            i <= bullets.len(),
            bullets@ == before,
            kept@ == live_only(before.take(i as int)),
        decreases bullets.len() - i,
    {
        let b = bullets[i];
        proof {
            assert(before.take(i + 1) =~= before.take(i as int).push(b));
            before.take(i as int).lemma_filter_push(b, |b: Bullet| is_live(b));
        }
        if b.active && is_in_tracked_region(b.get_position()) {
            kept.push(b);
        }
        i = i + 1;
    }
    assert(before.take(i as int) =~= before);
    *bullets = kept;
}

/// After removal every stored bullet is live.
pub proof fn lemma_retained_are_live(bs: Seq<Bullet>)
    ensures
        forall|k: int| 0 <= k < live_only(bs).len() ==> is_live(#[trigger] live_only(bs)[k]),
{
    assert forall|k: int| 0 <= k < live_only(bs).len() implies is_live(
        #[trigger] live_only(bs)[k],
    ) by {
        bs.lemma_filter_pred(|b: Bullet| is_live(b), k);
    }
}


/// A disabled bullet takes part in no further collision: it strikes no
/// player, clashes with no bullet, and resolution leaves it as it was. Being
/// disabled, it is dropped by the next removal.
pub proof fn lemma_disabled_bullet_inert(p: Position, ms: Seq<Bullet>, ds: Seq<Bullet>)
    ensures
        forall|k: int|
            0 <= k < ms.len() && !ms[k].active ==> !struck(p, ms[k]) && (#[trigger] after_player(
                p,
                ms,
            )[k]) == ms[k],
        forall|k: int|
            0 <= k < ms.len() && !ms[k].active ==> (#[trigger] after_clash(ms, ds).0[k]) == ms[k],
        forall|j: int|
            0 <= j < ds.len() && !ds[j].active ==> (#[trigger] after_clash(ms, ds).1[j]) == ds[j],
        forall|b: Bullet| !b.active ==> !is_live(b),
{
    lemma_clash_all(ms, ds, ms.len());
}


proof fn lemma_sweep_witness(m: Bullet, ds: Seq<Bullet>, k: nat)
    ensures
        ({
            let (m1, ds1) = sweep(m, ds, k);
            &&& m.active && !m1.active ==> exists|l: int|
                0 <= l < ds.len() && #[trigger] clashes(m, ds[l]) && !ds1[l].active
            &&& forall|l: int|
                0 <= l < ds.len() && ds[l].active && !(#[trigger] ds1[l]).active ==> clashes(
                    m,
                    ds[l],
                ) && !m1.active
        }),
    decreases k,
{
    if k > 0 {
        lemma_sweep(m, ds, (k - 1) as nat);
        lemma_sweep_witness(m, ds, (k - 1) as nat);
        let (m1, ds1) = sweep(m, ds, (k - 1) as nat);
        let j = k - 1;
        if j < ds1.len() && clashes(m1, ds1[j]) {
            assert(m1 == m);
            assert(ds1[j] == ds[j]);
            assert(clashes(m, ds[j]));
        }
    }
}

/// Every team Mono bullet the pairing disabled met an active team Di bullet
/// that it disabled too.
#[verifier::opaque]
spec fn mono_explained(ms: Seq<Bullet>, ds: Seq<Bullet>, ms1: Seq<Bullet>, ds1: Seq<Bullet>) -> bool {
    forall|k: int|
        0 <= k < ms.len() && ms[k].active && !(#[trigger] ms1[k]).active ==> exists|l: int|
            0 <= l < ds.len() && #[trigger] clashes(ms[k], ds[l]) && !ds1[l].active
}

/// Every team Di bullet the pairing disabled met an active team Mono bullet
/// that it disabled too.
#[verifier::opaque]
spec fn di_explained(ms: Seq<Bullet>, ds: Seq<Bullet>, ms1: Seq<Bullet>, ds1: Seq<Bullet>) -> bool {
    forall|l: int|
        0 <= l < ds.len() && ds[l].active && !(#[trigger] ds1[l]).active ==> exists|k: int|
            0 <= k < ms.len() && #[trigger] clashes(ms[k], ds[l]) && !ms1[k].active
}

proof fn lemma_witness_step(
    ms: Seq<Bullet>,
    ds: Seq<Bullet>,
    ms1: Seq<Bullet>,
    ds1: Seq<Bullet>,
    n: int,
    m2: Bullet,
    ds2: Seq<Bullet>,
)
    requires
        0 <= n < ms.len(),
        ms1.len() == ms.len(),
        ds1.len() == ds.len(),
        ds2.len() == ds.len(),
        forall|k: int| n <= k < ms.len() ==> #[trigger] ms1[k] == ms[k],
        forall|l: int| 0 <= l < ds.len() ==> same_or_disabled(ds[l], #[trigger] ds1[l]),
        forall|l: int| 0 <= l < ds.len() ==> same_or_disabled(ds1[l], #[trigger] ds2[l]),
        mono_explained(ms, ds, ms1, ds1),
        di_explained(ms, ds, ms1, ds1),
        ms1[n].active && !m2.active ==> exists|l: int|
            0 <= l < ds1.len() && #[trigger] clashes(ms1[n], ds1[l]) && !ds2[l].active,
        forall|l: int|
            0 <= l < ds1.len() && ds1[l].active && !(#[trigger] ds2[l]).active ==> clashes(
                ms1[n],
                ds1[l],
            ) && !m2.active,
    ensures
        mono_explained(ms, ds, ms1.update(n, m2), ds2),
        di_explained(ms, ds, ms1.update(n, m2), ds2),
{
    let ms2 = ms1.update(n, m2);
    assert forall|k: int|
        0 <= k < ms.len() && ms[k].active && !(#[trigger] ms2[k]).active implies exists|l: int|
        0 <= l < ds.len() && #[trigger] clashes(ms[k], ds[l]) && !ds2[l].active by {
        if k == n {
            let l = choose|l: int|
                0 <= l < ds1.len() && #[trigger] clashes(ms1[n], ds1[l]) && !ds2[l].active;
            assert(same_or_disabled(ds[l], ds1[l]));
            assert(clashes(ms[k], ds[l]));
        } else {
            assert(ms2[k] == ms1[k]);
            assert(!ms1[k].active);
            reveal(mono_explained);
            let l = choose|l: int|
                0 <= l < ds.len() && #[trigger] clashes(ms[k], ds[l]) && !ds1[l].active;
            assert(same_or_disabled(ds1[l], ds2[l]));
            assert(clashes(ms[k], ds[l]) && !ds2[l].active);
        }
    }
    assert forall|l: int|
        0 <= l < ds.len() && ds[l].active && !(#[trigger] ds2[l]).active implies exists|k: int|
        0 <= k < ms.len() && #[trigger] clashes(ms[k], ds[l]) && !ms2[k].active by {
        assert(same_or_disabled(ds[l], ds1[l]));
        if !ds1[l].active {
            reveal(di_explained);
            let k = choose|k: int|
                0 <= k < ms.len() && #[trigger] clashes(ms[k], ds[l]) && !ms1[k].active;
            if k >= n {
                assert(ms1[k] == ms[k]);
            }
            assert(ms2[k] == ms1[k]);
            assert(clashes(ms[k], ds[l]) && !ms2[k].active);
        } else {
            assert(ds1[l] == ds[l]);
            assert(clashes(ms1[n], ds1[l]));
            assert(clashes(ms[n], ds[l]) && !ms2[n].active);
        }
    }
    reveal(mono_explained);
    reveal(di_explained);
}

proof fn lemma_clash_all_witness(ms: Seq<Bullet>, ds: Seq<Bullet>, i: nat)
    requires
        i <= ms.len(),
    ensures
        mono_explained(ms, ds, clash_all(ms, ds, i).0, clash_all(ms, ds, i).1),
        di_explained(ms, ds, clash_all(ms, ds, i).0, clash_all(ms, ds, i).1),
    decreases i,
{
    if i == 0 {
        reveal(mono_explained);
        reveal(di_explained);
    } else {
        let (ms1, ds1) = clash_all(ms, ds, (i - 1) as nat);
        lemma_clash_all(ms, ds, (i - 1) as nat);
        lemma_clash_all_witness(ms, ds, (i - 1) as nat);
        let n = i - 1;
        lemma_sweep(ms1[n], ds1, ds1.len());
        lemma_sweep_witness(ms1[n], ds1, ds1.len());
        let (m2, ds2) = sweep(ms1[n], ds1, ds1.len());
        lemma_witness_step(ms, ds, ms1, ds1, n, m2, ds2);
    }
}

/// Two active bullets within the hit distance of each other, and of no
/// other active opposing bullet, are both disabled by the pairing.
pub proof fn lemma_clash_pair_destroyed(ms: Seq<Bullet>, ds: Seq<Bullet>, i: int, j: int)
    requires
        0 <= i < ms.len(),
        0 <= j < ds.len(),
        clashes(ms[i], ds[j]),
        forall|k: int| 0 <= k < ms.len() && k != i ==> !#[trigger] clashes(ms[k], ds[j]),
        forall|l: int| 0 <= l < ds.len() && l != j ==> !#[trigger] clashes(ms[i], ds[l]),
    ensures
        !after_clash(ms, ds).0[i].active,
        !after_clash(ms, ds).1[j].active,
{
    lemma_clash_all(ms, ds, ms.len());
    lemma_clash_all_witness(ms, ds, ms.len());
    reveal(mono_explained);
    reveal(di_explained);
    let (ms1, ds1) = after_clash(ms, ds);
    assert(!clashes(ms1[i], ds1[j]));
    assert(same_or_disabled(ms[i], ms1[i]));
    assert(same_or_disabled(ds[j], ds1[j]));
    if ms1[i].active {
        assert(!ds1[j].active);
        let k = choose|k: int| 0 <= k < ms.len() && #[trigger] clashes(ms[k], ds[j]) && !ms1[k].active;
        assert(k == i);
    }
    if ds1[j].active {
        assert(!ms1[i].active);
        let l = choose|l: int| 0 <= l < ds.len() && #[trigger] clashes(ms[i], ds[l]) && !ds1[l].active;
        assert(l == j);
    }
}

} // verus!
