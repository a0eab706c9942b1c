//! The settings file, the settings page, and what the shell is told.
use ini::Ini;
use stremio_presence::config::{
    bool_at, config_from_document, effective_config, load_or_create_config, write_default_config,
    Config, DEFAULT_APP_ID,
};
use stremio_presence::double::Double;
use stremio_presence::json::Json;
use stremio_presence::shell::{
    clear_lobby, clear_presence, ensure_started, init, lobby_presence, note_mpv_property,
    note_playback_stopped, set_enabled, set_lobby, signal, update_presence, Effect, PropertyData,
    Shell, Signal,
};

fn double(value: f64) -> Double {
    Double { bits: value.to_bits() }
}

fn document(entries: &[(&str, &str, &str)]) -> Ini {
    let mut ini = Ini::new();
    for (section, key, value) in entries {
        ini.set_to(Some(*section), key.to_string(), value.to_string());
    }
    ini
}

fn payload(text: &str) -> Json {
    Json::parse(text).unwrap()
}

fn assert_default(config: &Config) {
    assert_eq!(config.app_id, DEFAULT_APP_ID);
    assert!(config.show_buttons);
    assert_eq!(config.link_target, "app");
    assert!(!config.disable_in_menu);
    assert!(!config.disable_when_paused);
    assert_eq!(config.refresh_interval, 5);
    assert!(config.show_small_image);
    assert!(!config.swap_name_and_title);
    assert_eq!(config.lobby_max_size, 8);
}

#[test]
fn a_new_settings_file_reads_back() {
    let text = write_default_config();
    assert!(text.is_ascii());
    for line in [
        "[Discord]",
        "app_id=997798118185771059",
        "[Buttons]",
        "link_target=app",
        "[Activity]",
        "refresh_interval=5",
        "swap_name_and_title=false",
        "[Lobby]",
        "lobby_max_size=8",
    ] {
        assert!(text.lines().any(|l| l == line), "{line} in {text}");
    }
    assert_default(&load_or_create_config(Some(&text)));
}

#[test]
fn edits_of_the_settings_file_count() {
    let config = load_or_create_config(Some(
        "[Discord]\napp_id= 42 \n[Buttons]\nshow_buttons=FALSE\nlink_target= Web \n[Activity]\n\
         disable_in_menu=True\ndisable_when_paused=yes\nrefresh_interval=12\n\
         show_small_image=0\nswap_name_and_title=true\n[Lobby]\nlobby_max_size=4\n",
    ));
    assert_eq!(config.app_id, "42");
    assert!(!config.show_buttons);
    assert_eq!(config.link_target, "web");
    assert!(config.disable_in_menu);
    assert!(!config.disable_when_paused);
    assert_eq!(config.refresh_interval, 12);
    assert!(!config.show_small_image);
    assert!(config.swap_name_and_title);
    assert_eq!(config.lobby_max_size, 4);
}

#[test]
fn comments_behind_values_are_passed_over() {
    let config = load_or_create_config(Some(
        "[Buttons]\nshow_buttons=true\n\
         link_target=web        ; app = stremio:///... , web = web.stremio.com\n\n\
         [Activity]\ndisable_in_menu=false\ndisable_when_paused=true # hide\n\
         refresh_interval=15     ; 1-60\nshow_small_image=true\nswap_name_and_title=false\n",
    ));
    assert!(config.show_buttons);
    assert_eq!(config.link_target, "web");
    assert!(config.disable_when_paused);
    assert_eq!(config.refresh_interval, 15);
    assert!(!config.swap_name_and_title);
}

#[test]
fn numbers_are_kept_in_range() {
    let interval = |value: &str| {
        config_from_document(&document(&[("Activity", "refresh_interval", value)])).refresh_interval
    };
    assert_eq!(interval("900"), 60);
    assert_eq!(interval("0"), 1);
    assert_eq!(interval(" 30 "), 30);
    assert_eq!(interval("-3"), 5);
    assert_eq!(interval("soon"), 5);
    let size = |value: &str| {
        config_from_document(&document(&[("Lobby", "lobby_max_size", value)])).lobby_max_size
    };
    assert_eq!(size("1"), 2);
    assert_eq!(size("-7"), 2);
    assert_eq!(size("33"), 32);
    assert_eq!(size("x"), 8);
}

#[test]
fn a_broken_settings_file_is_passed_over() {
    assert_default(&load_or_create_config(Some("[Discord\napp_id=1")));
    assert_default(&load_or_create_config(Some("[Activity]\nnonsense")));
    assert_default(&load_or_create_config(None));
    assert_default(&load_or_create_config(Some("")));
    assert_default(&load_or_create_config(Some("[Discord]\napp_id=   \n")));
}

#[test]
fn a_byte_order_mark_is_passed_over() {
    let config = load_or_create_config(Some("\u{feff}[Discord]\napp_id=7\n"));
    assert_eq!(config.app_id, "7");
}

#[test]
fn switches_fall_back_where_they_are_missing() {
    let ini = document(&[("Buttons", "show_buttons", "tRUE"), ("Buttons", "other", "1")]);
    assert!(bool_at(&ini, "Buttons", "show_buttons", false));
    assert!(!bool_at(&ini, "Buttons", "other", true));
    assert!(bool_at(&ini, "Buttons", "missing", true));
    assert!(!bool_at(&ini, "Missing", "show_buttons", false));
}

#[test]
fn link_targets_are_lower_case() {
    let config = config_from_document(&document(&[("Buttons", "link_target", " ÄPP ")]));
    assert_eq!(config.link_target, "äpp");
}

#[test]
fn the_settings_page_only_restricts() {
    let base = Config::default();
    let mut shell = Shell::new();
    assert_default(&effective_config(&base, &shell));
    shell.show_menu = false;
    shell.show_paused = false;
    shell.requested_app_id = "99".to_string();
    let config = effective_config(&base, &shell);
    assert!(config.disable_in_menu && config.disable_when_paused);
    assert_eq!(config.app_id, "99");
    let strict = Config {
        disable_in_menu: true,
        disable_when_paused: true,
        ..Config::default()
    };
    let config = effective_config(&strict, &Shell::new());
    assert!(config.disable_in_menu && config.disable_when_paused);
}

#[test]
fn the_thread_is_started_once() {
    let mut shell = Shell::new();
    assert_eq!(init(&mut shell), vec![Effect::Start]);
    assert_eq!(ensure_started(&mut shell), vec![]);
    assert_eq!(signal(&mut shell, Signal::Refresh), vec![Effect::Send(Signal::Refresh)]);
    let mut other = Shell::new();
    assert_eq!(
        set_lobby(&mut other, "p", "s", 1, 2),
        vec![Effect::Start, Effect::Send(Signal::Refresh)]
    );
}

#[test]
fn the_switch_is_told_where_it_changes() {
    let mut shell = Shell::new();
    shell.started = true;
    assert_eq!(set_enabled(&mut shell, false), vec![]);
    assert_eq!(set_enabled(&mut shell, true), vec![Effect::Send(Signal::Enable)]);
    assert_eq!(set_enabled(&mut shell, true), vec![]);
    assert_eq!(clear_presence(&mut shell), Ok(vec![Effect::Send(Signal::Disable)]));
    assert_eq!(clear_presence(&mut shell), Ok(vec![]));
    assert!(!shell.enabled);
}

#[test]
fn a_report_of_the_web_page_is_taken_in() {
    let mut shell = Shell::new();
    let report = payload(
        r##"{"appId":" 5 ","showPaused":false,"showMenu":false,"route":"#/player/x",
           "paused":true,"currentTimeSeconds":12.5,"durationSeconds":90}"##,
    );
    assert_eq!(
        update_presence(&mut shell, &report),
        Ok(vec![
            Effect::Start,
            Effect::Send(Signal::Enable),
            Effect::Send(Signal::Refresh)
        ])
    );
    assert_eq!(shell.requested_app_id, "5");
    assert!(!shell.show_paused && !shell.show_menu && shell.is_paused && shell.enabled);
    assert_eq!(shell.current_url, "#/player/x");
    assert_eq!(shell.current_time, double(12.5));
    assert_eq!(shell.total_duration, double(90.0));
    assert_eq!(
        update_presence(&mut shell, &payload("{}")),
        Ok(vec![Effect::Send(Signal::Refresh)])
    );
    assert_eq!(shell.current_url, "#/player/x");
    assert_eq!(
        update_presence(&mut shell, &payload(r#"{"route":7,"paused":"no"}"#)),
        Ok(vec![Effect::Send(Signal::Refresh)])
    );
    assert_eq!(shell.current_url, "#/player/x");
    assert!(shell.is_paused);
}

#[test]
fn figures_of_the_player_win() {
    let mut shell = Shell::new();
    shell.started = true;
    note_mpv_property(&mut shell, "time-pos", &PropertyData::Double(double(33.0)));
    note_mpv_property(&mut shell, "duration", &PropertyData::Double(double(44.0)));
    let report = payload(r#"{"currentTimeSeconds":1,"durationSeconds":2}"#);
    update_presence(&mut shell, &report).unwrap();
    assert_eq!(shell.current_time, double(33.0));
    assert_eq!(shell.total_duration, double(44.0));
    assert_eq!(note_playback_stopped(&mut shell), vec![Effect::Send(Signal::Refresh)]);
    assert_eq!(shell.current_time, double(0.0));
    update_presence(&mut shell, &report).unwrap();
    assert_eq!(shell.current_time, double(1.0));
    assert_eq!(shell.total_duration, double(2.0));
}

#[test]
fn a_pause_of_the_player_wins() {
    let mut shell = Shell::new();
    shell.started = true;
    let resumed = payload(r#"{"paused":false}"#);
    let paused = payload(r#"{"paused":true}"#);
    update_presence(&mut shell, &paused).unwrap();
    assert!(shell.is_paused);
    update_presence(&mut shell, &resumed).unwrap();
    assert!(!shell.is_paused);
    note_mpv_property(&mut shell, "pause", &PropertyData::Flag(true));
    update_presence(&mut shell, &resumed).unwrap();
    assert!(shell.is_paused);
    note_mpv_property(&mut shell, "pause", &PropertyData::Flag(false));
    update_presence(&mut shell, &paused).unwrap();
    assert!(!shell.is_paused);
    note_playback_stopped(&mut shell);
    update_presence(&mut shell, &paused).unwrap();
    assert!(shell.is_paused);
}

#[test]
fn a_pause_is_told_while_the_presence_is_on() {
    let mut shell = Shell::new();
    shell.started = true;
    let paused = PropertyData::Flag(true);
    assert_eq!(note_mpv_property(&mut shell, "pause", &paused), vec![]);
    assert!(shell.is_paused);
    shell.enabled = true;
    assert_eq!(note_mpv_property(&mut shell, "pause", &paused), vec![]);
    assert_eq!(
        note_mpv_property(&mut shell, "pause", &PropertyData::Flag(false)),
        vec![Effect::Send(Signal::Refresh)]
    );
    assert_eq!(note_mpv_property(&mut shell, "mute", &paused), vec![]);
    assert_eq!(note_mpv_property(&mut shell, "pause", &PropertyData::Double(double(1.0))), vec![]);
    assert!(!shell.is_paused);
}

#[test]
fn a_watch_party_is_shown_until_it_is_taken_back() {
    let mut shell = Shell::new();
    assert!(lobby_presence(&shell).is_none());
    set_lobby(&mut shell, "id", "secret", 3, 8);
    let lobby = lobby_presence(&shell).unwrap();
    assert_eq!((lobby.party_id.as_str(), lobby.join_secret.as_str()), ("id", "secret"));
    assert_eq!((lobby.member_count, lobby.max_size), (3, 8));
    set_lobby(&mut shell, "id", "", -4, -4);
    let lobby = lobby_presence(&shell).unwrap();
    assert_eq!((lobby.member_count, lobby.max_size), (1, 1));
    set_lobby(&mut shell, "id", "", 9, 8);
    assert_eq!(lobby_presence(&shell).unwrap().max_size, 9);
    clear_lobby(&mut shell);
    assert!(lobby_presence(&shell).is_none());
    assert_eq!((shell.lobby_member_count, shell.lobby_max_size), (0, 8));
}
