//! What the presence thread does.
use stremio_presence::activity::Clock;
use stremio_presence::config::DEFAULT_APP_ID;
use stremio_presence::double::Double;
use stremio_presence::engine::{Action, Engine, Event};
use stremio_presence::shell::{set_lobby, Shell, Signal};

const CLOCK: Clock = Clock { now: Some(1_000_000), app_start: Some(900_000) };
const REPLY: &str = r#"{"meta":{"name":"A Film","poster":"http://p","year":"1999"}}"#;
const PLAYER: &str = "#/player/x/movie/tt1/tt1";

fn step(engine: &mut Engine, shell: &Shell, event: Event) -> Action {
    assert!(engine.expects(&event), "{event:?}");
    engine.step(shell, &event)
}

fn settings(file: &str) -> Event {
    Event::Settings { file: Some(file.to_string()), clock: CLOCK }
}

fn fetched(reply: Option<&str>) -> Event {
    Event::Fetched { reply: reply.map(|s| s.to_string()), clock: CLOCK }
}

fn shell_at(url: &str) -> Shell {
    let mut shell = Shell::new();
    shell.enabled = true;
    shell.started = true;
    shell.current_url = url.to_string();
    shell.current_time = Double { bits: 60.0f64.to_bits() };
    shell.total_duration = Double { bits: 100.0f64.to_bits() };
    shell
}

fn connected(shell: &Shell) -> Engine {
    let mut engine = Engine::new();
    assert!(matches!(
        step(&mut engine, shell, Event::Received(Signal::Enable)),
        Action::LoadSettings
    ));
    assert!(matches!(step(&mut engine, shell, settings("")), Action::Open { .. }));
    assert!(matches!(
        step(&mut engine, shell, Event::Opened(true)),
        Action::Wait { secs: 5 }
    ));
    engine
}

fn refresh(engine: &mut Engine, shell: &Shell, file: &str) -> Action {
    assert!(matches!(step(engine, shell, Event::TimedOut), Action::LoadSettings));
    step(engine, shell, settings(file))
}

#[test]
fn stays_disconnected_until_asked() {
    let mut engine = Engine::new();
    let off = Shell::new();
    assert!(matches!(step(&mut engine, &off, Event::Received(Signal::Refresh)), Action::Await));
    assert!(matches!(step(&mut engine, &off, Event::Received(Signal::Disable)), Action::Await));
    assert!(!engine.expects(&Event::TimedOut));
    assert!(matches!(step(&mut engine, &off, Event::Panicked), Action::BackOff { secs: 5 }));
    assert!(matches!(step(&mut engine, &off, Event::Closed), Action::Exit));
    assert!(!engine.expects(&Event::Received(Signal::Enable)));
}

#[test]
fn a_refresh_while_on_connects() {
    let mut engine = Engine::new();
    let shell = shell_at("");
    assert!(matches!(
        step(&mut engine, &shell, Event::Received(Signal::Refresh)),
        Action::LoadSettings
    ));
    match step(&mut engine, &shell, Event::Settings { file: None, clock: CLOCK }) {
        Action::Open { app_id } => assert_eq!(app_id, DEFAULT_APP_ID),
        other => panic!("{other:?}"),
    }
}

#[test]
fn the_requested_application_is_opened() {
    let mut engine = Engine::new();
    let mut shell = shell_at("");
    step(&mut engine, &shell, Event::Received(Signal::Enable));
    shell.requested_app_id = "77".to_string();
    match step(&mut engine, &shell, settings("[Discord]\napp_id=3\n")) {
        Action::Open { app_id } => assert_eq!(app_id, "77"),
        other => panic!("{other:?}"),
    }
}

#[test]
fn a_failed_connection_is_tried_again() {
    let mut engine = Engine::new();
    let mut shell = shell_at("");
    step(&mut engine, &shell, Event::Received(Signal::Enable));
    step(&mut engine, &shell, settings(""));
    assert!(matches!(step(&mut engine, &shell, Event::Opened(false)), Action::Wait { secs: 5 }));
    assert!(matches!(step(&mut engine, &shell, Event::TimedOut), Action::Connect));
    assert!(matches!(step(&mut engine, &shell, Event::Opened(false)), Action::Wait { secs: 5 }));
    assert!(matches!(
        step(&mut engine, &shell, Event::Received(Signal::Refresh)),
        Action::Connect
    ));
    step(&mut engine, &shell, Event::Opened(false));
    shell.enabled = false;
    assert!(matches!(step(&mut engine, &shell, Event::TimedOut), Action::End { clear: false }));
    assert!(matches!(step(&mut engine, &shell, Event::Closed), Action::Exit));
}

#[test]
fn switching_off_takes_the_activity_back() {
    let shell = shell_at("");
    let mut off = shell_at("");
    off.enabled = false;
    let mut engine = connected(&shell);
    assert!(matches!(
        step(&mut engine, &shell, Event::Received(Signal::Disable)),
        Action::End { clear: true }
    ));
    let mut engine = connected(&shell);
    assert!(matches!(step(&mut engine, &off, Event::TimedOut), Action::End { clear: true }));
    let mut engine = connected(&shell);
    assert!(matches!(step(&mut engine, &shell, Event::Closed), Action::End { clear: true }));
}

#[test]
fn a_title_is_asked_for_once() {
    let shell = shell_at(PLAYER);
    let mut engine = connected(&shell);
    match refresh(&mut engine, &shell, "") {
        Action::Fetch { url } => {
            assert_eq!(url, "https://v3-cinemeta.strem.io/meta/movie/tt1.json")
        }
        other => panic!("{other:?}"),
    }
    match step(&mut engine, &shell, fetched(Some(REPLY))) {
        Action::Publish(a) => {
            assert_eq!((a.name.as_str(), a.state.as_str()), ("A Film", "1999"));
            assert_eq!((a.start, a.end), (999_940, Some(1_000_040)));
        }
        other => panic!("{other:?}"),
    }
    assert!(matches!(
        step(&mut engine, &shell, Event::Published(true)),
        Action::Wait { secs: 5 }
    ));
    assert!(matches!(refresh(&mut engine, &shell, ""), Action::Publish(_)));
    step(&mut engine, &shell, Event::Published(true));
    let menu = shell_at("#/library");
    match refresh(&mut engine, &menu, "") {
        Action::Publish(a) => assert_eq!(a.state, "Library"),
        other => panic!("{other:?}"),
    }
    step(&mut engine, &menu, Event::Published(true));
    let detail = shell_at("#/detail/movie/tt1");
    match refresh(&mut engine, &detail, "") {
        Action::Publish(a) => assert_eq!(a.state, "Viewing Movie"),
        other => panic!("{other:?}"),
    }
}

#[test]
fn an_unknown_title_is_shown_as_a_page() {
    for reply in [None, Some(""), Some("[1]")] {
        let shell = shell_at(PLAYER);
        let mut engine = connected(&shell);
        assert!(matches!(refresh(&mut engine, &shell, ""), Action::Fetch { .. }));
        match step(&mut engine, &shell, fetched(reply)) {
            Action::Publish(a) => assert_eq!(a.state, "Browsing"),
            other => panic!("{other:?}"),
        }
        step(&mut engine, &shell, Event::Published(true));
        assert!(matches!(refresh(&mut engine, &shell, ""), Action::Publish(_)));
    }
    let odd = shell_at("#/player/x/tt1%3A2");
    let mut engine = connected(&odd);
    assert!(matches!(refresh(&mut engine, &odd, ""), Action::Publish(_)));
    let short = shell_at("#/detail/movie");
    let mut engine = connected(&short);
    assert!(matches!(refresh(&mut engine, &short, ""), Action::Publish(_)));
}

#[test]
fn settings_apply_on_the_next_refresh() {
    let shell = shell_at("#/library");
    let mut engine = connected(&shell);
    let file = "[Activity]\nrefresh_interval=900\ndisable_in_menu=true\n";
    assert!(matches!(refresh(&mut engine, &shell, file), Action::Clear));
    assert!(matches!(
        step(&mut engine, &shell, Event::Published(true)),
        Action::Wait { secs: 60 }
    ));
    assert!(matches!(refresh(&mut engine, &shell, ""), Action::Publish(_)));
    assert!(matches!(
        step(&mut engine, &shell, Event::Published(true)),
        Action::Wait { secs: 5 }
    ));
}

#[test]
fn what_is_hidden_is_taken_back() {
    let mut shell = shell_at(PLAYER);
    let mut engine = connected(&shell);
    refresh(&mut engine, &shell, "");
    step(&mut engine, &shell, fetched(Some(REPLY)));
    step(&mut engine, &shell, Event::Published(true));
    shell.is_paused = true;
    match refresh(&mut engine, &shell, "") {
        Action::Publish(a) => assert_eq!(a.end, None),
        other => panic!("{other:?}"),
    }
    step(&mut engine, &shell, Event::Published(true));
    shell.show_paused = false;
    assert!(matches!(refresh(&mut engine, &shell, ""), Action::Clear));
    step(&mut engine, &shell, Event::Published(true));
    let mut menu = shell_at("#/");
    menu.show_menu = false;
    assert!(matches!(refresh(&mut engine, &menu, ""), Action::Clear));
}

#[test]
fn the_watch_party_of_the_moment_is_shown() {
    let mut shell = shell_at(PLAYER);
    let mut engine = connected(&shell);
    refresh(&mut engine, &shell, "");
    set_lobby(&mut shell, "id", "secret", 3, 8);
    match step(&mut engine, &shell, fetched(Some(REPLY))) {
        Action::Publish(a) => {
            assert_eq!(a.state, "1999 • Watching with 2 others");
            assert_eq!(a.party.unwrap().id, "id");
        }
        other => panic!("{other:?}"),
    }
}

#[test]
fn a_failed_update_reconnects() {
    let shell = shell_at("#/");
    let mut engine = connected(&shell);
    refresh(&mut engine, &shell, "");
    assert!(matches!(step(&mut engine, &shell, Event::Published(false)), Action::Reconnect));
    assert!(matches!(step(&mut engine, &shell, Event::Opened(true)), Action::Wait { .. }));
    assert!(matches!(step(&mut engine, &shell, Event::TimedOut), Action::LoadSettings));
    let unset = Event::Settings { file: None, clock: Clock { now: None, app_start: None } };
    assert!(matches!(step(&mut engine, &shell, unset), Action::Reconnect));
}

#[test]
fn panics_are_slept_over_longer_and_longer() {
    let shell = shell_at("#/");
    let mut engine = Engine::new();
    for expected in [5, 10, 20, 40, 80, 160, 160] {
        step(&mut engine, &shell, Event::Received(Signal::Refresh));
        match step(&mut engine, &shell, Event::Panicked) {
            Action::BackOff { secs } => assert_eq!(secs, expected),
            other => panic!("{other:?}"),
        }
    }
    step(&mut engine, &shell, Event::Received(Signal::Enable));
    step(&mut engine, &shell, settings(""));
    step(&mut engine, &shell, Event::Opened(true));
    assert!(matches!(
        step(&mut engine, &shell, Event::Panicked),
        Action::BackOff { secs: 5 }
    ));
}

#[test]
fn a_panic_while_disconnecting_is_slept_over() {
    let shell = shell_at("#/");
    let mut engine = connected(&shell);
    assert!(matches!(
        step(&mut engine, &shell, Event::Received(Signal::Disable)),
        Action::End { clear: true }
    ));
    assert!(matches!(step(&mut engine, &shell, Event::Panicked), Action::BackOff { secs: 5 }));
    assert!(matches!(
        step(&mut engine, &shell, Event::Received(Signal::Enable)),
        Action::LoadSettings
    ));
}

#[test]
fn times_out_of_range_are_slept_over() {
    let mut shell = shell_at(PLAYER);
    shell.current_time = Double { bits: (-1e300f64).to_bits() };
    let mut engine = connected(&shell);
    refresh(&mut engine, &shell, "");
    assert!(matches!(
        step(&mut engine, &shell, fetched(Some(REPLY))),
        Action::BackOff { secs: 5 }
    ));
}
