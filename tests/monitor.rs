use volume_sync::device::DeviceId;
use volume_sync::level::Level;
use volume_sync::model::ECHO_TAG;
use volume_sync::monitor::{Action, AudioMonitor, AudioThreadCommand};

fn id(name: &str) -> DeviceId {
    DeviceId::new(name.encode_utf16().collect())
}

fn level(v: f32) -> Level {
    Level::from_bits(v.to_bits())
}

fn subscribed_to(name: &str, v: f32) -> AudioMonitor {
    let mut m = AudioMonitor::new();
    m.handle_command(AudioThreadCommand::NewDefault(id(name)));
    m.finish_acquire(Some(level(v)));
    m
}

#[test]
fn new_monitor_has_no_device() {
    let m = AudioMonitor::new();
    assert_eq!(m.published(), None);
    assert_eq!(m.current_device(), None);
    assert!(!m.awaiting_acquisition());
}

#[test]
fn subscribe_set_remove_scenario() {
    let mut m = AudioMonitor::new();
    let actions = m.handle_command(AudioThreadCommand::NewDefault(id("spk1")));
    assert_eq!(actions, vec![Action::Acquire(id("spk1"))]);
    assert!(m.awaiting_acquisition());

    let actions = m.finish_acquire(Some(level(0.5)));
    assert_eq!(actions, vec![Action::Publish(Some(level(0.5)))]);
    assert_eq!(m.published(), Some(level(0.5)));
    assert_eq!(m.current_device(), Some(id("spk1")));

    let actions = m.handle_command(AudioThreadCommand::SetVolume(level(0.9)));
    assert_eq!(
        actions,
        vec![Action::Write(level(0.3)), Action::Publish(Some(level(0.3)))]
    );
    assert_eq!(m.published(), Some(level(0.3)));

    let actions = m.handle_command(AudioThreadCommand::DeviceRemoved(id("spk1")));
    assert_eq!(
        actions,
        vec![Action::Release(id("spk1")), Action::Publish(None)]
    );
    assert_eq!(m.published(), None);
    assert_eq!(m.current_device(), None);

    let actions = m.handle_command(AudioThreadCommand::DeviceRemoved(id("spk1")));
    assert!(actions.is_empty());
    assert_eq!(m.published(), None);
}

#[test]
fn external_volume_change_is_published() {
    let mut m = subscribed_to("spk1", 0.5);
    let actions = m.volume_notified(level(0.7), 0x1234);
    assert_eq!(actions, vec![Action::Publish(Some(level(0.7)))]);
    assert_eq!(m.published(), Some(level(0.7)));
    assert_eq!(m.current_device(), Some(id("spk1")));
}

#[test]
fn echo_of_own_write_is_dropped() {
    let mut m = subscribed_to("spk1", 0.5);
    m.handle_command(AudioThreadCommand::SetVolume(level(0.2)));
    assert_eq!(m.published(), Some(level(0.2)));
    let actions = m.volume_notified(level(0.25), ECHO_TAG);
    assert!(actions.is_empty());
    assert_eq!(m.published(), Some(level(0.2)));
    assert_eq!(m.current_device(), Some(id("spk1")));
}

#[test]
fn unchanged_external_volume_is_not_republished() {
    let mut m = subscribed_to("spk1", 0.5);
    let actions = m.volume_notified(level(0.5), 0);
    assert!(actions.is_empty());
    assert_eq!(m.published(), Some(level(0.5)));
}

#[test]
fn stale_removal_changes_nothing() {
    let mut m = subscribed_to("spk1", 0.5);
    let actions = m.handle_command(AudioThreadCommand::DeviceRemoved(id("hdph")));
    assert!(actions.is_empty());
    assert_eq!(m.published(), Some(level(0.5)));
    assert_eq!(m.current_device(), Some(id("spk1")));
}

#[test]
fn removal_without_device_is_ignored() {
    let mut m = AudioMonitor::new();
    let actions = m.handle_command(AudioThreadCommand::DeviceRemoved(id("spk1")));
    assert!(actions.is_empty());
    assert_eq!(m.published(), None);
}

#[test]
fn switching_device_releases_before_acquiring() {
    let mut m = subscribed_to("spk1", 0.5);
    let actions = m.handle_command(AudioThreadCommand::NewDefault(id("hdph")));
    assert_eq!(
        actions,
        vec![Action::Release(id("spk1")), Action::Acquire(id("hdph"))]
    );
    assert_eq!(m.current_device(), None);
    let actions = m.finish_acquire(Some(level(0.1)));
    assert_eq!(actions, vec![Action::Publish(Some(level(0.1)))]);
    assert_eq!(m.current_device(), Some(id("hdph")));
}

#[test]
fn failed_acquisition_publishes_unavailable() {
    let mut m = subscribed_to("spk1", 0.5);
    m.handle_command(AudioThreadCommand::NewDefault(id("gone")));
    let actions = m.finish_acquire(None);
    assert_eq!(actions, vec![Action::Publish(None)]);
    assert_eq!(m.published(), None);
    assert_eq!(m.current_device(), None);
    assert!(!m.awaiting_acquisition());
}

#[test]
fn volume_request_without_device_is_dropped() {
    let mut m = AudioMonitor::new();
    let actions = m.handle_command(AudioThreadCommand::SetVolume(level(0.2)));
    assert!(actions.is_empty());
    assert_eq!(m.published(), None);
}

#[test]
fn volume_request_at_published_level_writes_only() {
    let mut m = subscribed_to("spk1", 0.25);
    let actions = m.handle_command(AudioThreadCommand::SetVolume(level(0.25)));
    assert_eq!(actions, vec![Action::Write(level(0.25))]);
}

#[test]
fn never_two_registrations_over_a_run() {
    let mut m = AudioMonitor::new();
    let mut live: Vec<DeviceId> = Vec::new();
    let track = |actions: Vec<Action>, live: &mut Vec<DeviceId>| {
        for a in actions {
            match a {
                Action::Release(d) => {
                    let at = live.iter().position(|x| *x == d).expect("released a live device");
                    live.remove(at);
                }
                Action::Acquire(d) => live.push(d),
                _ => {}
            }
            assert!(live.len() <= 1);
        }
    };
    for (name, ok) in [("a", true), ("b", true), ("b", false), ("c", true), ("a", true)] {
        let actions = m.handle_command(AudioThreadCommand::NewDefault(id(name)));
        track(actions, &mut live);
        let actions = m.finish_acquire(if ok { Some(level(0.4)) } else { None });
        if !ok {
            live.clear();
        }
        track(actions, &mut live);
    }
    let actions = m.handle_command(AudioThreadCommand::DeviceRemoved(id("a")));
    track(actions, &mut live);
    assert!(live.is_empty());
}
