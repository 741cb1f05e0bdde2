//! Per-tick passes over collections of tween instances: the attached
//! variant owns its targets and honors the retire signal, the indirect
//! variant resolves each target through a handle into a shared store and
//! tolerates a missing target.

use crate::animator::{Animator, TickResult, TweeningType};
use crate::easing::EaseFunction;
use crate::lens::ScalarLens;
use vstd::prelude::*;

verus! {

/// One attached entry after a Tween Update: the instance is stepped, and
/// the target is overwritten through the lens whenever the step yields a
/// factor.
pub open spec fn spec_attached_step(entry: (i64, Animator), delta: u64) -> (
    (i64, Animator),
    TickResult,
) {
    let (a2, r) = entry.1.spec_tick(delta);
    let target = match r.factor {
        Some(f) => entry.1.lens.spec_value_at(f) as i64,
        None => entry.0,
    };
    ((target, a2), r)
}

/// One whole attached pass, front to back: every entry is stepped, and
/// the entries whose step asked to retire are dropped from the result.
pub open spec fn spec_attached_run(entries: Seq<(i64, Animator)>, delta: u64) -> Seq<
    (i64, Animator),
>
    decreases entries.len(),
{
    if entries.len() == 0 {
        Seq::empty()
    } else {
        let (entry, r) = spec_attached_step(entries[0], delta);
        let rest = spec_attached_run(entries.drop_first(), delta);
        if r.retire {
            rest
        } else {
            seq![entry] + rest
        }
    }
}

proof fn lemma_attached_run_push(entries: Seq<(i64, Animator)>, x: (i64, Animator), delta: u64)
    ensures
        spec_attached_run(entries.push(x), delta) == ({
            let (entry, r) = spec_attached_step(x, delta);
            if r.retire {
                spec_attached_run(entries, delta)
            } else {
                spec_attached_run(entries, delta).push(entry)
            }
        }),
    decreases entries.len(),
{
    let (entry, r) = spec_attached_step(x, delta);
    if entries.len() == 0 {
        assert(entries =~= Seq::<(i64, Animator)>::empty());
        assert(entries.push(x)[0] == x);
        assert(entries.push(x).drop_first() =~= Seq::<(i64, Animator)>::empty());
        assert(spec_attached_run(Seq::<(i64, Animator)>::empty(), delta) == Seq::<(
            i64,
            Animator,
        )>::empty());
        if !r.retire {
            assert(spec_attached_run(entries.push(x), delta) =~= spec_attached_run(
                entries,
                delta,
            ).push(entry));
        }
    } else {
        assert(entries.push(x).drop_first() =~= entries.drop_first().push(x));
        lemma_attached_run_push(entries.drop_first(), x, delta);
        let (head, rh) = spec_attached_step(entries[0], delta);
        if !rh.retire {
            if r.retire {
                assert(spec_attached_run(entries.push(x), delta) =~= spec_attached_run(
                    entries,
                    delta,
                ));
            } else {
                assert(spec_attached_run(entries.push(x), delta) =~= spec_attached_run(
                    entries,
                    delta,
                ).push(entry));
            }
        }
    }
}

/// Update every tween that is attached directly to its target.
///
/// Each `(target, instance)` pair runs one Tween Update: the instance is
/// stepped over `delta` milliseconds and the target is overwritten
/// through the instance's lens whenever a factor was produced. A pair
/// whose step signalled retirement — a completed `Once` tween — is
/// detached: it is removed from the list, so no later pass applies a
/// value to it again.
pub fn component_animator_system(entries: &mut Vec<(i64, Animator)>, delta: u64)
    requires
        forall|j: int|
            0 <= j < old(entries)@.len() ==> (#[trigger] old(entries)@[j]).1.wf(),
    ensures
        final(entries)@ == spec_attached_run(old(entries)@, delta),
        forall|j: int|
            0 <= j < final(entries)@.len() ==> (#[trigger] final(entries)@[j]).1.wf(),
{
    let ghost original: Seq<(i64, Animator)> = entries@;
    let mut out: Vec<(i64, Animator)> = Vec::new();
    let n = entries.len();
    let mut i: usize = 0;
    while i < n
        invariant
            entries@ == original,
            n == original.len(),
            i <= n,
            forall|j: int| 0 <= j < original.len() ==> (#[trigger] original[j]).1.wf(),
            out@ == spec_attached_run(original.take(i as int), delta),
            forall|j: int| 0 <= j < out@.len() ==> (#[trigger] out@[j]).1.wf(),
        decreases n - i,
    {
        let pair = entries[i];
        let mut target = pair.0;
        let mut animator = pair.1;
        let r = animator.tick(delta);
        if let Some(f) = r.factor {
            animator.apply(&mut target, f);
        }
        proof {
            assert(original.take(i as int + 1) =~= original.take(i as int).push(original[i as int]));
            lemma_attached_run_push(original.take(i as int), original[i as int], delta);
        }
        if !r.retire {
            out.push((target, animator));
        }
        i = i + 1;
    }
    proof {
        assert(original.take(n as int) =~= original);
    }
    *entries = out;
}

/// A tween instance that reaches its target through a shared handle into
/// an external store rather than owning it. The handle is an index into
/// that store; the slot may be empty when the target has been removed
/// concurrently.
#[derive(Clone, Copy, Debug, PartialEq, Eq, Structural)]
pub struct AssetAnimator {
    pub handle: usize,
    pub tween: Animator,
}

impl AssetAnimator {
    pub fn new(
        handle: usize,
        tweening_type: TweeningType,
        ease_function: EaseFunction,
        lens: ScalarLens,
    ) -> (r: AssetAnimator)
        ensures
            r.handle == handle,
            r.tween.state is Playing,
            !r.tween.paused,
            r.tween.direction is Forward,
            r.tween.tweening_type == tweening_type,
            r.tween.ease_function == ease_function,
            r.tween.lens == lens,
            r.tween.timer == (crate::timer::Timer {
                duration: tweening_type.spec_duration(),
                elapsed: 0,
                finished: false,
                just_finished: false,
            }),
            r.tween.wf(),
    {
        AssetAnimator { handle, tween: Animator::new(tweening_type, ease_function, lens) }
    }

    pub fn handle(&self) -> (r: usize)
        ensures
            r == self.handle,
    {
        self.handle
    }
}

/// One indirect step: the instance is stepped unconditionally, and the
/// store slot behind its handle is overwritten through the lens only when
/// a factor was produced and the slot still holds a target. A missing
/// target skips the mutation alone, never the state machine.
pub open spec fn spec_asset_step(assets: Seq<Option<i64>>, a: AssetAnimator, delta: u64) -> (
    Seq<Option<i64>>,
    AssetAnimator,
) {
    let (tween, r) = a.tween.spec_tick(delta);
    let assets2 = match r.factor {
        Some(f) => if a.handle < assets.len() && assets[a.handle as int] is Some {
            assets.update(a.handle as int, Some(a.tween.lens.spec_value_at(f) as i64))
        } else {
            assets
        },
        None => assets,
    };
    (assets2, AssetAnimator { handle: a.handle, tween })
}

/// One whole indirect pass, front to back over the instances, threading
/// the store through each step.
pub open spec fn spec_asset_run(
    assets: Seq<Option<i64>>,
    animators: Seq<AssetAnimator>,
    delta: u64,
) -> (Seq<Option<i64>>, Seq<AssetAnimator>)
    decreases animators.len(),
{
    if animators.len() == 0 {
        (assets, Seq::empty())
    } else {
        let (assets1, first) = spec_asset_step(assets, animators[0], delta);
        let (assets2, rest) = spec_asset_run(assets1, animators.drop_first(), delta);
        (assets2, seq![first] + rest)
    }
}

proof fn lemma_asset_run_push(
    assets: Seq<Option<i64>>,
    animators: Seq<AssetAnimator>,
    x: AssetAnimator,
    delta: u64,
)
    ensures
        spec_asset_run(assets, animators.push(x), delta) == ({
            let (assets1, done) = spec_asset_run(assets, animators, delta);
            let (assets2, last) = spec_asset_step(assets1, x, delta);
            (assets2, done.push(last))
        }),
    decreases animators.len(),
{
    let (assets1, done) = spec_asset_run(assets, animators, delta);
    let (assets2, last) = spec_asset_step(assets1, x, delta);
    if animators.len() == 0 {
        assert(animators =~= Seq::<AssetAnimator>::empty());
        assert(animators.push(x)[0] == x);
        assert(animators.push(x).drop_first() =~= Seq::<AssetAnimator>::empty());
        assert(spec_asset_run(spec_asset_step(assets, x, delta).0, Seq::<AssetAnimator>::empty(), delta) == (
            spec_asset_step(assets, x, delta).0,
            Seq::<AssetAnimator>::empty(),
        ));
        assert(spec_asset_run(assets, animators, delta) == (assets, Seq::<AssetAnimator>::empty()));
        assert(spec_asset_run(assets, animators.push(x), delta).1 =~= done.push(last));
    } else {
        assert(animators.push(x).drop_first() =~= animators.drop_first().push(x));
        let (h_assets, _h) = spec_asset_step(assets, animators[0], delta);
        lemma_asset_run_push(h_assets, animators.drop_first(), x, delta);
        assert(spec_asset_run(assets, animators.push(x), delta).1 =~= done.push(last));
    }
}

/// Update every tween that reaches its target through the shared store.
///
/// Each instance runs one Tween Update; its handle is resolved just
/// before Value Application, and a handle that resolves to nothing skips
/// only the mutation for this tick — timer, completion and repeat policy
/// still advance. No retirement path exists here: a completed `Once`
/// instance stays in the list and keeps signalling until its owner
/// removes it.
pub fn asset_animator_system(
    assets: &mut Vec<Option<i64>>,
    animators: &mut Vec<AssetAnimator>,
    delta: u64,
)
    requires
        forall|j: int|
            0 <= j < old(animators)@.len() ==> (#[trigger] old(animators)@[j]).tween.wf(),
    ensures
        (final(assets)@, final(animators)@) == spec_asset_run(
            old(assets)@,
            old(animators)@,
            delta,
        ),
        forall|j: int|
            0 <= j < final(animators)@.len() ==> (#[trigger] final(animators)@[j]).tween.wf(),
{
    let ghost orig_assets: Seq<Option<i64>> = assets@;
    let ghost orig_animators: Seq<AssetAnimator> = animators@;
    let n = animators.len();
    let mut i: usize = 0;
    while i < n
        invariant
            animators@.len() == n,
            n == orig_animators.len(),
            i <= n,
            forall|j: int|
                0 <= j < orig_animators.len() ==> (#[trigger] orig_animators[j]).tween.wf(),
            forall|j: int| i <= j < n ==> animators@[j] == orig_animators[j],
            (assets@, animators@.take(i as int)) == spec_asset_run(
                orig_assets,
                orig_animators.take(i as int),
                delta,
            ),
            forall|j: int| 0 <= j < i ==> (#[trigger] animators@[j]).tween.wf(),
        decreases n - i,
    {
        let mut a = animators[i];
        let r = a.tween.tick(delta);
        if let Some(f) = r.factor {
            let h = a.handle;
            if h < assets.len() {
                let slot = assets[h];
                if let Some(v) = slot {
                    let mut value = v;
                    a.tween.apply(&mut value, f);
                    assets[h] = Some(value);
                }
            }
        }
        proof {
            assert(orig_animators.take(i as int + 1) =~= orig_animators.take(i as int).push(
                orig_animators[i as int],
            ));
            lemma_asset_run_push(orig_assets, orig_animators.take(i as int), orig_animators[i as int], delta);
        }
        animators[i] = a;
        proof {
            assert(animators@.take(i as int + 1) =~= animators@.take(i as int).push(a));
        }
        i = i + 1;
    }
    proof {
        assert(orig_animators.take(n as int) =~= orig_animators);
        assert(animators@.take(n as int) =~= animators@);
    }
}

} // verus!
