//! The monitor as a state machine over mathematical values: each input takes
//! a state to a next state and to the effects that carry it out, in order.
use vstd::prelude::*;
use vstd::multiset::Multiset;
use crate::level::{clamped_bits, is_nan_bits};

verus! {

/// The correlation tag attached to every volume change the monitor writes,
/// so that the platform's notification of that change is known as its own.
pub const ECHO_TAG: u128 = 0xdc1b615d_6d18_4f6e_af33_488e23d0dc6a;

/// A command to the monitor, with device identities as code units and
/// levels as bit patterns.
pub enum CommandView {
    NewDefault(Seq<u16>),
    DeviceRemoved(Seq<u16>),
    SetVolume(u32),
}

/// One thing the monitor asks its owner to do.
pub enum Effect {
    /// Unregister the volume callback of the subscribed device and drop it.
    Release(Seq<u16>),
    /// Resolve the device, activate its volume control and register the
    /// volume callback; the outcome comes back as an `Input::Acquired`.
    Acquire(Seq<u16>),
    /// Write this level to the subscribed device, tagged with `ECHO_TAG`.
    Write(u32),
    /// Publish this volume to observers (`None`: no output device).
    Publish(Option<u32>),
}

/// What the monitor knows: the subscribed device, the device whose
/// acquisition is under way, and the volume last published.
pub struct MonitorView {
    pub current: Option<Seq<u16>>,
    pub acquiring: Option<Seq<u16>>,
    pub published: Option<u32>,
}

/// Everything that reaches the monitor, in the order it is handled.
pub enum Input {
    Command(CommandView),
    /// The outcome of the last `Effect::Acquire`: the device's level, or
    /// `None` when the device could not be resolved or activated.
    Acquired(Option<u32>),
    /// A volume-changed notification: the level and its correlation tag.
    Notified(u32, u128),
}

/// The state before any input: no device, nothing published.
pub open spec fn initial() -> MonitorView {
    MonitorView { current: None, acquiring: None, published: None }
}

/// A publish effect, only where the value differs from what observers hold.
pub open spec fn publish_effects(published: Option<u32>, value: Option<u32>) -> Seq<Effect> {
    if value == published {
        seq![]
    } else {
        seq![Effect::Publish(value)]
    }
}

pub open spec fn command_step(s: MonitorView, c: CommandView) -> (MonitorView, Seq<Effect>) {
    match c {
        CommandView::NewDefault(id) => {
            let release = match s.current {
                Some(cur) => seq![Effect::Release(cur)],
                None => seq![],
            };
            (
                MonitorView { current: None, acquiring: Some(id), published: s.published },
                release.push(Effect::Acquire(id)),
            )
        },
        CommandView::DeviceRemoved(id) => {
            if s.current == Some(id) {
                (
                    MonitorView { current: None, acquiring: s.acquiring, published: None },
                    seq![Effect::Release(id)] + publish_effects(s.published, None),
                )
            } else {
                (s, seq![])
            }
        },
        CommandView::SetVolume(bits) => {
            if s.current is Some {
                let v = clamped_bits(bits);
                (
                    MonitorView { current: s.current, acquiring: s.acquiring, published: Some(v) },
                    seq![Effect::Write(v)] + publish_effects(s.published, Some(v)),
                )
            } else {
                (s, seq![])
            }
        },
    }
}

pub open spec fn acquired_step(s: MonitorView, outcome: Option<u32>) -> (MonitorView, Seq<Effect>) {
    match outcome {
        Some(level) => (
            MonitorView { current: s.acquiring, acquiring: None, published: Some(level) },
            publish_effects(s.published, Some(level)),
        ),
        None => (
            MonitorView { current: None, acquiring: None, published: None },
            publish_effects(s.published, None),
        ),
    }
}

pub open spec fn notified_step(s: MonitorView, level: u32, tag: u128) -> (MonitorView, Seq<Effect>) {
    if tag == ECHO_TAG {
        (s, seq![])
    } else {
        (
            MonitorView { current: s.current, acquiring: s.acquiring, published: Some(level) },
            publish_effects(s.published, Some(level)),
        )
    }
}

pub open spec fn step(s: MonitorView, i: Input) -> (MonitorView, Seq<Effect>) {
    match i {
        Input::Command(c) => command_step(s, c),
        Input::Acquired(outcome) => acquired_step(s, outcome),
        Input::Notified(level, tag) => notified_step(s, level, tag),
    }
}

/// Whether the monitor takes `i` in state `s`: an acquisition outcome comes
/// exactly while one is under way, and a requested level is a number.
pub open spec fn accepts(s: MonitorView, i: Input) -> bool {
    match i {
        Input::Acquired(_) => s.acquiring is Some,
        Input::Command(c) => s.acquiring is None && (c matches CommandView::SetVolume(bits)
            ==> !is_nan_bits(bits)),
        Input::Notified(_, _) => s.acquiring is None,
    }
}

/// The state after handling `inputs` in order from `s`.
pub open spec fn run(s: MonitorView, inputs: Seq<Input>) -> MonitorView
    decreases inputs.len(),
{
    if inputs.len() == 0 {
        s
    } else {
        step(run(s, inputs.drop_last()), inputs.last()).0
    }
}

/// Whether each input of `inputs` is accepted in the state it meets.
pub open spec fn valid_run(s: MonitorView, inputs: Seq<Input>) -> bool {
    forall|k: int| 0 <= k < inputs.len() ==> accepts(#[trigger] run(s, inputs.take(k)), inputs[k])
}

/// The devices whose volume callback may be registered in state `s`: the
/// subscribed one, and the one being acquired.
pub open spec fn registrations(s: MonitorView) -> Multiset<Seq<u16>> {
    let subscribed = match s.current {
        Some(id) => Multiset::singleton(id),
        None => Multiset::empty(),
    };
    match s.acquiring {
        Some(id) => subscribed.insert(id),
        None => subscribed,
    }
}

/// The registrations after carrying out `effects` in order, from `regs`.
pub open spec fn replay(regs: Multiset<Seq<u16>>, effects: Seq<Effect>) -> Multiset<Seq<u16>>
    decreases effects.len(),
{
    if effects.len() == 0 {
        regs
    } else {
        let prior = replay(regs, effects.drop_last());
        match effects.last() {
            Effect::Release(id) => prior.remove(id),
            Effect::Acquire(id) => prior.insert(id),
            _ => prior,
        }
    }
}

/// Whether at most one registration exists before, during and after
/// carrying out the effects of `i` in state `s`.
pub open spec fn single_throughout(s: MonitorView, i: Input) -> bool {
    forall|j: int|
        0 <= j <= step(s, i).1.len() ==> (#[trigger] replay(registrations(s), step(s, i).1.take(j))).len() <= 1
}

} // verus!
