//! What holds of the monitor over every state and every run.
use vstd::prelude::*;
use vstd::multiset::{group_multiset_axioms, group_multiset_properties, Multiset};
use crate::level::{clamped_bits, is_nan_bits, within_bounds};
use crate::model::{
    accepts, initial, registrations, replay, run, single_throughout, step, valid_run,
    CommandView, Effect, Input, MonitorView, ECHO_TAG,
};

verus! {

broadcast use group_multiset_axioms, group_multiset_properties;

/// The subscribed device and a device under acquisition never coexist.
pub open spec fn consistent(s: MonitorView) -> bool {
    !(s.current is Some && s.acquiring is Some)
}

proof fn lemma_replay_one(regs: Multiset<Seq<u16>>, e: Effect)
    ensures
        replay(regs, seq![e].take(0)) == regs,
        replay(regs, seq![e].take(1)) == replay(regs, seq![e]),
        replay(regs, seq![e]) == match e {
            Effect::Release(id) => regs.remove(id),
            Effect::Acquire(id) => regs.insert(id),
            _ => regs,
        },
{
    assert(seq![e].take(0) =~= Seq::<Effect>::empty());
    assert(seq![e].take(1) =~= seq![e]);
    assert(seq![e].drop_last() =~= Seq::<Effect>::empty());
    assert(seq![e].last() == e);
    assert(replay(regs, Seq::<Effect>::empty()) == regs);
}

proof fn lemma_replay_two(regs: Multiset<Seq<u16>>, a: Effect, b: Effect)
    ensures
        replay(regs, seq![a, b].take(0)) == regs,
        replay(regs, seq![a, b].take(1)) == replay(regs, seq![a]),
        replay(regs, seq![a, b].take(2)) == replay(regs, seq![a, b]),
        replay(regs, seq![a, b]) == match b {
            Effect::Release(id) => replay(regs, seq![a]).remove(id),
            Effect::Acquire(id) => replay(regs, seq![a]).insert(id),
            _ => replay(regs, seq![a]),
        },
{
    lemma_replay_one(regs, a);
    assert(seq![a, b].take(0) =~= Seq::<Effect>::empty());
    assert(seq![a, b].take(1) =~= seq![a]);
    assert(seq![a, b].take(2) =~= seq![a, b]);
    assert(seq![a, b].drop_last() =~= seq![a]);
}

proof fn lemma_remove_singleton(id: Seq<u16>)
    ensures
        Multiset::singleton(id).remove(id).len() == 0,
{
    let m = Multiset::singleton(id);
    assert(Multiset::singleton(id).subset_of(m));
}

/// One accepted step keeps the monitor consistent and never holds two
/// registrations, at any point of its effects.
proof fn lemma_step_single(s: MonitorView, i: Input)
    requires
        consistent(s),
        accepts(s, i),
    ensures
        consistent(step(s, i).0),
        registrations(step(s, i).0).len() <= 1,
        single_throughout(s, i),
{
    let regs = registrations(s);
    let effects = step(s, i).1;
    assert(regs.len() <= 1);
    match i {
        Input::Command(c) => {
            match c {
                CommandView::NewDefault(id) => {
                    match s.current {
                        Some(cur) => {
                            lemma_replay_two(regs, Effect::Release(cur), Effect::Acquire(id));
                            lemma_replay_one(regs, Effect::Release(cur));
                            lemma_remove_singleton(cur);
                            assert(effects =~= seq![Effect::Release(cur), Effect::Acquire(id)]);
                        },
                        None => {
                            lemma_replay_one(regs, Effect::Acquire(id));
                            assert(effects =~= seq![Effect::Acquire(id)]);
                        },
                    }
                    assert(registrations(step(s, i).0) =~= Multiset::empty().insert(id));
                },
                CommandView::DeviceRemoved(id) => {
                    if s.current == Some(id) {
                        lemma_remove_singleton(id);
                        lemma_replay_one(regs, Effect::Release(id));
                        if s.published is None {
                            assert(effects =~= seq![Effect::Release(id)]);
                        } else {
                            lemma_replay_two(regs, Effect::Release(id), Effect::Publish(None));
                            assert(effects =~= seq![Effect::Release(id), Effect::Publish(None)]);
                        }
                    } else {
                        assert(effects.take(0) =~= effects);
                    }
                },
                CommandView::SetVolume(bits) => {
                    if s.current is Some {
                        let v = clamped_bits(bits);
                        lemma_replay_one(regs, Effect::Write(v));
                        if s.published == Some(v) {
                            assert(effects =~= seq![Effect::Write(v)]);
                        } else {
                            lemma_replay_two(regs, Effect::Write(v), Effect::Publish(Some(v)));
                            assert(effects =~= seq![Effect::Write(v), Effect::Publish(Some(v))]);
                        }
                    } else {
                        assert(effects.take(0) =~= effects);
                    }
                },
            }
        },
        Input::Acquired(outcome) => {
            let value = match outcome {
                Some(level) => Some(level),
                None => None,
            };
            if value == s.published {
                assert(effects.take(0) =~= effects);
            } else {
                lemma_replay_one(regs, Effect::Publish(value));
                assert(effects =~= seq![Effect::Publish(value)]);
            }
        },
        Input::Notified(level, tag) => {
            if tag == ECHO_TAG || s.published == Some(level) {
                assert(effects.take(0) =~= effects);
            } else {
                lemma_replay_one(regs, Effect::Publish(Some(level)));
                assert(effects =~= seq![Effect::Publish(Some(level))]);
            }
        },
    }
}

proof fn lemma_run_extend(s: MonitorView, inputs: Seq<Input>, k: int)
    requires
        0 <= k < inputs.len(),
    ensures
        run(s, inputs.take(k + 1)) == step(run(s, inputs.take(k)), inputs[k]).0,
{
    assert(inputs.take(k + 1).drop_last() =~= inputs.take(k));
}

proof fn lemma_run_consistent(inputs: Seq<Input>, k: int)
    requires
        valid_run(initial(), inputs),
        0 <= k <= inputs.len(),
    ensures
        consistent(run(initial(), inputs.take(k))),
        registrations(run(initial(), inputs.take(k))).len() <= 1,
    decreases k,
{
    if k == 0 {
        assert(inputs.take(0) =~= Seq::<Input>::empty());
    } else {
        lemma_run_consistent(inputs, k - 1);
        lemma_run_extend(initial(), inputs, k - 1);
        lemma_step_single(run(initial(), inputs.take(k - 1)), inputs[k - 1]);
    }
}

/// At most one subscription: whatever commands, acquisition outcomes and
/// notifications a run brings, no two devices ever hold a registered volume
/// callback at once, neither in a state along the run nor between the
/// effects of one step.
pub proof fn lemma_at_most_one_subscription(inputs: Seq<Input>)
    requires
        valid_run(initial(), inputs),
    ensures
        forall|k: int|
            0 <= k <= inputs.len() ==> (#[trigger] registrations(run(initial(), inputs.take(k)))).len()
                <= 1,
        forall|k: int|
            0 <= k < inputs.len() ==> single_throughout(#[trigger] run(initial(), inputs.take(k)), inputs[k]),
{
    assert forall|k: int| 0 <= k <= inputs.len() implies (#[trigger] registrations(
        run(initial(), inputs.take(k)),
    )).len() <= 1 by {
        lemma_run_consistent(inputs, k);
    }
    assert forall|k: int| 0 <= k < inputs.len() implies single_throughout(
        #[trigger] run(initial(), inputs.take(k)),
        inputs[k],
    ) by {
        lemma_run_consistent(inputs, k);
        lemma_step_single(run(initial(), inputs.take(k)), inputs[k]);
    }
}

/// Switching to another device releases the old registration before the new
/// one is asked for: the effects are exactly a release and then an
/// acquisition, and no registration is left between the two.
pub proof fn lemma_switch_releases_first(s: MonitorView, id: Seq<u16>)
    requires
        s.current is Some,
        s.current != Some(id),
        s.acquiring is None,
    ensures
        step(s, Input::Command(CommandView::NewDefault(id))).1 == seq![
            Effect::Release(s.current->0),
            Effect::Acquire(id),
        ],
        replay(registrations(s), seq![Effect::Release(s.current->0)]).len() == 0,
        replay(
            registrations(s),
            seq![Effect::Release(s.current->0), Effect::Acquire(id)],
        ) =~= Multiset::singleton(id),
{
    let cur = s.current->0;
    lemma_replay_two(registrations(s), Effect::Release(cur), Effect::Acquire(id));
    lemma_replay_one(registrations(s), Effect::Release(cur));
    lemma_remove_singleton(cur);
    assert(step(s, Input::Command(CommandView::NewDefault(id))).1 =~= seq![
        Effect::Release(cur),
        Effect::Acquire(id),
    ]);
    assert(registrations(s) == Multiset::singleton(cur));
    assert(Multiset::singleton(cur).remove(cur) =~= Multiset::empty());
    assert(Multiset::<Seq<u16>>::empty().insert(id) =~= Multiset::singleton(id));
}

/// Echo suppression: a notification carrying the monitor's own tag changes
/// nothing and publishes nothing, so after a write the published volume stays
/// the level that the write itself published.
pub proof fn lemma_echo_suppressed(s: MonitorView, bits: u32, level: u32)
    requires
        s.current is Some,
        s.acquiring is None,
        !is_nan_bits(bits),
    ensures
        step(s, Input::Notified(level, ECHO_TAG)) == (s, Seq::<Effect>::empty()),
        ({
            let after_write = step(s, Input::Command(CommandView::SetVolume(bits))).0;
            &&& after_write.published == Some(clamped_bits(bits))
            &&& step(after_write, Input::Notified(level, ECHO_TAG)).0 == after_write
            &&& step(after_write, Input::Notified(level, ECHO_TAG)).1.len() == 0
        }),
{
    assert(Seq::<Effect>::empty() =~= seq![]);
}

/// A removal of a device other than the subscribed one leaves the state and
/// the published volume as they were, and does nothing.
pub proof fn lemma_stale_removal_is_noop(s: MonitorView, id: Seq<u16>)
    requires
        s.current != Some(id),
    ensures
        step(s, Input::Command(CommandView::DeviceRemoved(id))) == (s, Seq::<Effect>::empty()),
{
    assert(Seq::<Effect>::empty() =~= seq![]);
}

/// A requested level reaches the device only within `[0, MAX_LEVEL]`.
pub proof fn lemma_written_levels_bounded(s: MonitorView, bits: u32)
    requires
        accepts(s, Input::Command(CommandView::SetVolume(bits))),
    ensures
        forall|j: int|
            0 <= j < step(s, Input::Command(CommandView::SetVolume(bits))).1.len() ==> (
            #[trigger] step(s, Input::Command(CommandView::SetVolume(bits))).1[j] matches Effect::Write(w)
                ==> within_bounds(w)),
{
    crate::level::lemma_clamp_saturates(bits);
    let effects = step(s, Input::Command(CommandView::SetVolume(bits))).1;
    if s.current is Some {
        assert(effects[0] == Effect::Write(clamped_bits(bits)));
    }
}

} // verus!
