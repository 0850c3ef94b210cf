//! The device volume monitor: the state that the monitor thread owns, and
//! the decisions it takes for each command, acquisition outcome and volume
//! notification. Each decision comes back as a list of actions, which the
//! owner carries out in order.
use vstd::prelude::*;
use crate::device::DeviceId;
use crate::level::{clamp_level, Level};
use crate::model::{
    accepts, acquired_step, command_step, initial, notified_step, publish_effects, CommandView,
    Effect, Input, MonitorView, ECHO_TAG,
};

verus! {

/// A command to the monitor thread, from the platform's notification
/// adapters or from observers.
#[derive(Debug, PartialEq, Eq)]
pub enum AudioThreadCommand {
    /// This device became the default output device.
    NewDefault(DeviceId),
    /// This device was removed.
    DeviceRemoved(DeviceId),
    /// An observer asks for this level; it is clamped before it is written.
    SetVolume(Level),
}

impl View for AudioThreadCommand {
    type V = CommandView;

    open spec fn view(&self) -> CommandView {
        match self {
            AudioThreadCommand::NewDefault(id) => CommandView::NewDefault(id@),
            AudioThreadCommand::DeviceRemoved(id) => CommandView::DeviceRemoved(id@),
            AudioThreadCommand::SetVolume(level) => CommandView::SetVolume(level.bits),
        }
    }
}

/// One thing the owner of the monitor does on its behalf (see `Effect`).
#[derive(Debug, PartialEq, Eq)]
pub enum Action {
    Release(DeviceId),
    Acquire(DeviceId),
    Write(Level),
    Publish(Option<Level>),
}

pub open spec fn level_view(o: Option<Level>) -> Option<u32> {
    match o {
        Some(level) => Some(level.bits),
        None => None,
    }
}

pub open spec fn id_view(o: Option<DeviceId>) -> Option<Seq<u16>> {
    match o {
        Some(id) => Some(id@),
        None => None,
    }
}

impl View for Action {
    type V = Effect;

    open spec fn view(&self) -> Effect {
        match self {
            Action::Release(id) => Effect::Release(id@),
            Action::Acquire(id) => Effect::Acquire(id@),
            Action::Write(level) => Effect::Write(level.bits),
            Action::Publish(value) => Effect::Publish(level_view(*value)),
        }
    }
}

pub open spec fn effects_of(actions: Seq<Action>) -> Seq<Effect> {
    actions.map_values(|a: Action| a@)
}

/// The state owned by the monitor thread.
pub struct AudioMonitor {
    current: Option<DeviceId>,
    acquiring: Option<DeviceId>,
    published: Option<Level>,
}

impl View for AudioMonitor {
    type V = MonitorView;

    closed spec fn view(&self) -> MonitorView {
        MonitorView {
            current: id_view(self.current),
            acquiring: id_view(self.acquiring),
            published: level_view(self.published),
        }
    }
}

fn same_value(a: &Option<Level>, b: &Option<Level>) -> (r: bool)
    ensures
        r == (level_view(*a) == level_view(*b)),
{
    match (a, b) {
        (Some(x), Some(y)) => x.bits == y.bits,
        (None, None) => true,
        _ => false,
    }
}

impl AudioMonitor {
    /// A monitor with no device and nothing published.
    pub fn new() -> (r: AudioMonitor)
        ensures
            r@ == initial(),
    {
        AudioMonitor { current: None, acquiring: None, published: None }
    }

    /// The volume last published to observers; `None` while no output
    /// device is available.
    pub fn published(&self) -> (r: Option<Level>)
        ensures
            level_view(r) == self@.published,
    {
        self.published
    }

    /// The subscribed device, if any.
    pub fn current_device(&self) -> (r: Option<DeviceId>)
        ensures
            id_view(r) == self@.current,
    {
        match &self.current {
            Some(id) => Some(id.duplicate()),
            None => None,
        }
    }

    /// Whether the monitor waits for the outcome of an acquisition.
    pub fn awaiting_acquisition(&self) -> (r: bool)
        ensures
            r == (self@.acquiring is Some),
    {
        self.acquiring.is_some()
    }

    fn publish(&mut self, value: Option<Level>, actions: &mut Vec<Action>)
        ensures
            final(self).current == old(self).current,
            final(self).acquiring == old(self).acquiring,
            level_view(final(self).published) == level_view(value),
            effects_of(final(actions)@) == effects_of(old(actions)@) + publish_effects(
                level_view(old(self).published),
                level_view(value),
            ),
    {
        if same_value(&self.published, &value) {
            assert(effects_of(actions@) =~= effects_of(actions@) + Seq::<Effect>::empty());
            self.published = value;
        } else {
            self.published = value;
            actions.push(Action::Publish(value));
            assert(effects_of(actions@) =~= effects_of(old(actions)@) + seq![
                Effect::Publish(level_view(value)),
            ]);
        }
    }

    /// Takes one command: a new default device releases the subscribed one
    /// and asks for the new one; the removal of the subscribed device
    /// releases it and publishes "no device"; a volume request on a
    /// subscribed device writes the clamped level and publishes it. Other
    /// commands do nothing.
    pub fn handle_command(&mut self, command: AudioThreadCommand) -> (actions: Vec<Action>)
        requires
            accepts(old(self)@, Input::Command(command@)),
        ensures
            (final(self)@, effects_of(actions@)) == command_step(old(self)@, command@),
    {
        let mut actions: Vec<Action> = Vec::new();
        match command {
            AudioThreadCommand::NewDefault(id) => {
                let previous = self.current.take();
                match previous {
                    Some(cur) => {
                        actions.push(Action::Release(cur));
                    },
                    None => {},
                }
                let wanted = id.duplicate();
                self.acquiring = Some(id);
                actions.push(Action::Acquire(wanted));
                assert(effects_of(actions@) =~= command_step(old(self)@, command@).1);
            },
            AudioThreadCommand::DeviceRemoved(id) => {
                let is_current = match &self.current {
                    Some(cur) => cur.same_as(&id),
                    None => false,
                };
                if is_current {
                    self.current = None;
                    actions.push(Action::Release(id));
                    self.publish(None, &mut actions);
                    assert(effects_of(actions@) =~= command_step(old(self)@, command@).1);
                } else {
                    assert(effects_of(actions@) =~= Seq::<Effect>::empty());
                }
            },
            AudioThreadCommand::SetVolume(requested) => {
                if self.current.is_some() {
                    let level = clamp_level(requested);
                    actions.push(Action::Write(level));
                    self.publish(Some(level), &mut actions);
                    assert(effects_of(actions@) =~= command_step(old(self)@, command@).1);
                } else {
                    assert(effects_of(actions@) =~= Seq::<Effect>::empty());
                }
            },
        }
        actions
    }

    /// Takes the outcome of the acquisition that the last `NewDefault` asked
    /// for: the device's current level when it was subscribed, `None` when it
    /// could not be. Publishes what observers now see.
    pub fn finish_acquire(&mut self, outcome: Option<Level>) -> (actions: Vec<Action>)
        requires
            accepts(old(self)@, Input::Acquired(level_view(outcome))),
        ensures
            (final(self)@, effects_of(actions@)) == acquired_step(old(self)@, level_view(outcome)),
    {
        let mut actions: Vec<Action> = Vec::new();
        let acquired = self.acquiring.take();
        match outcome {
            Some(_) => {
                self.current = acquired;
            },
            None => {
                self.current = None;
            },
        }
        self.publish(outcome, &mut actions);
        assert(effects_of(actions@) =~= acquired_step(old(self)@, level_view(outcome)).1);
        actions
    }

    /// Takes a volume-changed notification of the subscribed device. One that
    /// carries the monitor's own tag is an echo of its own write and is
    /// dropped; any other publishes the level it reports.
    pub fn volume_notified(&mut self, level: Level, context: u128) -> (actions: Vec<Action>)
        requires
            accepts(old(self)@, Input::Notified(level.bits, context)),
        ensures
            (final(self)@, effects_of(actions@)) == notified_step(old(self)@, level.bits, context),
    {
        let mut actions: Vec<Action> = Vec::new();
        if context != ECHO_TAG {
            self.publish(Some(level), &mut actions);
        }
        assert(effects_of(actions@) =~= notified_step(old(self)@, level.bits, context).1);
        actions
    }
}

} // verus!
