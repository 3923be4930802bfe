use corroded_monitor::config::{merge_maps, Config, Theme};
use corroded_monitor::decode::DecodeError;
use corroded_monitor::layout::{calculate_rows, ChunkedVec};
use corroded_monitor::poll::{next_phase, Dashboard, Phase, PollAction, PollEvent};
use corroded_monitor::report::{Device, DeviceKind, Sensor, SensorKind};
use corroded_monitor::style::{dark, light, Button, Container, Mode, PickList, Rgb};

#[test]
fn rows_for_graph_grid() {
    let cases = [(0, 0), (1, 1), (2, 1), (3, 1), (4, 2), (6, 2), (8, 2), (12, 3), (16, 4), (7, 1), (24, 4)];
    for (n, rows) in cases {
        assert_eq!(calculate_rows(n), rows, "{}", n);
    }
}

#[test]
fn chunks_come_in_order() {
    let mut c = ChunkedVec::new(vec![1, 2, 3, 4, 5], 2);
    assert_eq!(c.next(), Some(vec![1, 2]));
    assert_eq!(c.next(), Some(vec![3, 4]));
    assert_eq!(c.next(), Some(vec![5]));
    assert_eq!(c.next(), None);
    let mut big = ChunkedVec::new(vec!['a', 'b'], 10);
    assert_eq!(big.next(), Some(vec!['a', 'b']));
    assert_eq!(big.next(), None);
}

#[test]
fn visibility_defaults_to_shown() {
    let mut config = Config::new();
    assert_eq!(config.theme, Theme::System);
    assert!(config.celsius);
    assert!(config.is_visible("GPU 0"));
    config.visibility.push(("GPU 0".to_string(), false));
    assert!(!config.is_visible("GPU 0"));
    assert!(config.is_visible("Disk 0"));
}

#[test]
fn merge_keeps_existing_entries() {
    let mut a = vec![("x".to_string(), false)];
    let b = vec![("x".to_string(), true), ("y".to_string(), true), ("y".to_string(), false)];
    merge_maps(&mut a, &b);
    assert_eq!(a, vec![("x".to_string(), false), ("y".to_string(), true)]);
}

#[test]
fn theme_resolution_and_labels() {
    assert_eq!(Theme::System.mode(Mode::Light), Mode::Light);
    assert_eq!(Theme::Dark.mode(Mode::Light), Mode::Dark);
    assert_eq!(Theme::Light.mode(Mode::Dark), Mode::Light);
    assert_eq!(Theme::System.label(), "System Default");
}

#[test]
fn palettes_follow_mode() {
    let grey = Rgb { r: 34, g: 34, b: 38 };
    assert_eq!(Container::Secondary.colors(Mode::Dark).background, grey);
    assert_eq!(Container::Tertiary.colors(Mode::Dark), dark::SecondaryBox.colors());
    assert_eq!(Container::Tertiary.colors(Mode::Light), light::MainBox.colors());
    let chart = Container::Chart((1, 2, 3)).colors(Mode::Light);
    assert_eq!(chart.border, Some(Rgb { r: 1, g: 2, b: 3 }));
    assert_eq!(Button::ComponentSelect.colors(Mode::Light).text, Rgb { r: 10, g: 10, b: 10 });
    assert_eq!(PickList::Main.colors(Mode::Dark).selected_background, Rgb { r: 63, g: 62, b: 65 });
    assert_eq!(dark::TertiaryBox.colors().background, grey);
    assert_eq!(light::ComponentSelect.colors().active_background, Rgb { r: 234, g: 234, b: 234 });
    assert_eq!(light::PickList.colors().text, Rgb { r: 0, g: 0, b: 0 });
    assert_eq!(dark::ComponentSelect.colors().idle_background, None);
    assert_eq!(dark::MainBox.colors().background, Rgb { r: 20, g: 20, b: 23 });
}

#[test]
fn phase_transitions() {
    assert_eq!(next_phase(Phase::Idle, PollEvent::Tick), (Phase::Idle, PollAction::Nothing));
    assert_eq!(next_phase(Phase::Idle, PollEvent::EngineReady), (Phase::Ready, PollAction::Nothing));
    assert_eq!(next_phase(Phase::Ready, PollEvent::Tick), (Phase::PollInFlight, PollAction::StartPoll));
    assert_eq!(next_phase(Phase::PollInFlight, PollEvent::Tick), (Phase::PollInFlight, PollAction::Nothing));
    assert_eq!(next_phase(Phase::PollInFlight, PollEvent::Completed), (Phase::Ready, PollAction::Apply));
    assert_eq!(next_phase(Phase::PollInFlight, PollEvent::Failed), (Phase::Ready, PollAction::Report));
    assert_eq!(next_phase(Phase::Ready, PollEvent::Completed), (Phase::Ready, PollAction::Nothing));
}

fn cpu_report(load: i64) -> Vec<Device> {
    vec![Device {
        kind: DeviceKind::Cpu,
        name: "cpu".to_string(),
        sensors: vec![Sensor {
            kind: SensorKind::Load,
            name: "CPU Core #1".to_string(),
            index: 0,
            value: load,
            max: load,
        }],
    }]
}

#[test]
fn failed_poll_keeps_last_good_state() {
    let mut d = Dashboard::new();
    assert!(!d.tick());
    d.engine_ready();
    assert!(d.tick());
    assert!(!d.tick());
    assert_eq!(d.phase(), Phase::PollInFlight);
    assert_eq!(d.finish_poll(Ok(cpu_report(12_000))), None);
    assert_eq!(d.stats().cpu().summary().total_load, 12_000);
    assert!(d.tick());
    assert_eq!(d.finish_poll(Err(DecodeError::NotANumber)), Some(DecodeError::NotANumber));
    assert_eq!(d.phase(), Phase::Ready);
    assert_eq!(d.stats().cpu().summary().total_load, 12_000);
    assert_eq!(d.stats().cpu().load_graph().len(), 1);
    // a result with no poll outstanding is dropped
    assert_eq!(d.finish_poll(Ok(cpu_report(99_000))), None);
    assert_eq!(d.stats().cpu().summary().total_load, 12_000);
}
