//! What is asked of the player, and what it reports.
use stremio_presence::double::Double;
use stremio_presence::json::Json;
use stremio_presence::player::{
    cmd_is_loadfile, default_observations, handle_event, handle_message, start_properties, CmdVal,
    Format, InMsg, InMsgArgs, InMsgFn, LastSubtitleStyles, MpvCmd, MpvEvent, Need, PlayerMemory,
    PropKey, PropVal, Reaction, Request, StartValue,
};
use stremio_presence::shell::{Effect, PropertyData, Shell, Signal};

fn double(value: f64) -> Double {
    Double { bits: value.to_bits() }
}

fn number(name: &str, value: f64) -> InMsg {
    InMsg(
        InMsgFn::MpvSetProp,
        InMsgArgs::StProp(name.to_string(), PropVal::Num(double(value))),
    )
}

fn words(name: &str, value: &str) -> InMsg {
    InMsg(
        InMsgFn::MpvSetProp,
        InMsgArgs::StProp(name.to_string(), PropVal::Str(value.to_string())),
    )
}

fn load() -> InMsg {
    InMsg(
        InMsgFn::MpvCommand,
        InMsgArgs::Cmd(CmdVal::Double(MpvCmd::Loadfile, "http://f".to_string())),
    )
}

fn said(request: &Request) -> String {
    match request {
        Request::SetProperty { name, value } => match value {
            PropVal::Bool(b) => format!("{name}={b}"),
            PropVal::Num(n) => format!("{name}={}", f64::from_bits(n.bits)),
            PropVal::Str(s) => format!("{name}={s}"),
        },
        Request::ObserveProperty { name, format } => format!("watch {name} {format:?}"),
        Request::Command { name, args } => format!("{name} {}", args.join(" ")),
        Request::Unsupported => "unsupported".to_string(),
    }
}

fn ask(memory: &mut PlayerMemory, msg: &InMsg, volume: &str) -> Vec<String> {
    let volume = Json::parse(volume).unwrap();
    handle_message(memory, msg, &volume).iter().map(said).collect()
}

#[test]
fn a_file_is_played_as_it_was_set() {
    let mut memory = PlayerMemory::new();
    ask(&mut memory, &number("sub-scale", 1.5), "{}");
    ask(&mut memory, &number("sub-pos", 90.0), "{}");
    ask(&mut memory, &number("sub-delay", -0.5), "{}");
    ask(&mut memory, &words("sub-ass-override", "force"), "{}");
    ask(&mut memory, &words("sub-color", "#fff"), "{}");
    ask(&mut memory, &words("sub-back-color", "#000"), "{}");
    ask(&mut memory, &words("sub-border-color", "#111"), "{}");
    ask(&mut memory, &words("glsl-shaders", "a.glsl"), "{}");
    ask(&mut memory, &number("sub-scale", 2.0), "{}");
    let styles = [
        "sub-ass-override=force",
        "sub-scale=2",
        "sub-pos=90",
        "sub-delay=-0.5",
        "sub-color=#fff",
        "sub-back-color=#000",
        "sub-border-color=#111",
    ];
    let mut expected = vec!["volume=200", "mute=true"];
    expected.extend(styles);
    expected.push("loadfile \"http://f\"");
    expected.push("glsl-shaders=a.glsl");
    expected.extend(styles);
    assert!(load().plays_file());
    assert_eq!(ask(&mut memory, &load(), r#"{"level":250,"muted":true}"#), expected);
}

#[test]
fn a_file_is_played_without_anything_set() {
    let mut memory = PlayerMemory::new();
    assert!(LastSubtitleStyles::new().scale.is_none());
    assert_eq!(
        ask(&mut memory, &load(), r#"{"level":-3}"#),
        vec!["volume=0", "loadfile \"http://f\"", "glsl-shaders="]
    );
    assert_eq!(
        ask(&mut memory, &load(), r#"{"level":"x","muted":1}"#),
        vec!["loadfile \"http://f\"", "glsl-shaders="]
    );
}

#[test]
fn ignoring_styles_is_not_remembered() {
    let mut memory = PlayerMemory::new();
    assert_eq!(
        ask(&mut memory, &words("sub-ass-override", "no"), "{}"),
        vec!["sub-ass-override=no"]
    );
    assert!(memory.styles.override_mode.is_none());
    ask(&mut memory, &words("sub-ass-override", "strip"), "{}");
    ask(&mut memory, &words("sub-ass-override", "no"), "{}");
    assert_eq!(memory.styles.override_mode.as_deref(), Some("strip"));
}

#[test]
fn other_properties_are_set_and_forgotten() {
    let mut memory = PlayerMemory::new();
    assert_eq!(ask(&mut memory, &number("speed", 2.0), "{}"), vec!["speed=2"]);
    assert_eq!(ask(&mut memory, &words("sub-scale", "2"), "{}"), vec!["sub-scale=2"]);
    assert_eq!(ask(&mut memory, &number("sub-color", 2.0), "{}"), vec!["sub-color=2"]);
    let pause = InMsg(
        InMsgFn::MpvSetProp,
        InMsgArgs::StProp("pause".to_string(), PropVal::Bool(true)),
    );
    assert_eq!(ask(&mut memory, &pause, "{}"), vec!["pause=true"]);
    assert_eq!(
        ask(&mut memory, &load(), "{}"),
        vec!["loadfile \"http://f\"", "glsl-shaders="]
    );
}

#[test]
fn the_video_output_falls_back() {
    let mut memory = PlayerMemory::new();
    assert_eq!(ask(&mut memory, &words("vo", ""), "{}"), vec!["vo=gpu-next,"]);
    assert_eq!(ask(&mut memory, &words("vo", "gpu"), "{}"), vec!["vo=gpu,gpu-next,"]);
    assert_eq!(ask(&mut memory, &words("vo", "gpu,"), "{}"), vec!["vo=gpu,gpu-next,"]);
}

#[test]
fn commands_are_quoted() {
    let s = |t: &str| t.to_string();
    let mut memory = PlayerMemory::new();
    let mut send = |cmd: CmdVal| {
        assert!(!cmd_is_loadfile(&cmd));
        ask(&mut memory, &InMsg(InMsgFn::MpvCommand, InMsgArgs::Cmd(cmd)), r#"{"level":5}"#)
    };
    let stop = || MpvCmd::Other("stop".to_string());
    assert_eq!(send(CmdVal::Single((stop(),))), vec!["stop "]);
    assert_eq!(send(CmdVal::Double(stop(), s("a"))), vec!["stop \"a\""]);
    assert_eq!(send(CmdVal::Tripple(stop(), s("a"), s("b c"))), vec!["stop \"a\" \"b c\""]);
    assert_eq!(
        send(CmdVal::Quadruple(stop(), s("a"), s("b"), s(""))),
        vec!["stop \"a\" \"b\" \"\""]
    );
    assert_eq!(
        send(CmdVal::Quintuple(stop(), s("a"), s("b"), s("c"), s("d"))),
        vec!["stop \"a\" \"b\" \"c\" \"d\""]
    );
}

#[test]
fn every_form_of_loadfile_is_known() {
    let s = || String::new();
    assert!(cmd_is_loadfile(&CmdVal::Single((MpvCmd::Loadfile,))));
    assert!(cmd_is_loadfile(&CmdVal::Double(MpvCmd::Loadfile, s())));
    assert!(cmd_is_loadfile(&CmdVal::Tripple(MpvCmd::Loadfile, s(), s())));
    assert!(cmd_is_loadfile(&CmdVal::Quadruple(MpvCmd::Loadfile, s(), s(), s())));
    assert!(cmd_is_loadfile(&CmdVal::Quintuple(MpvCmd::Loadfile, s(), s(), s(), s())));
}

#[test]
fn properties_are_watched_by_kind() {
    let mut memory = PlayerMemory::new();
    let mut watch = |key: PropKey| {
        ask(&mut memory, &InMsg(InMsgFn::MpvObserveProp, InMsgArgs::ObProp(key)), "{}")
    };
    assert_eq!(watch(PropKey::Bool("a".to_string())), vec!["watch a Flag"]);
    assert_eq!(watch(PropKey::Int("a".to_string())), vec!["watch a Int64"]);
    assert_eq!(watch(PropKey::Fp("a".to_string())), vec!["watch a Double"]);
    assert_eq!(watch(PropKey::Str("a".to_string())), vec!["watch a String"]);
}

#[test]
fn messages_that_make_no_sense() {
    let mut memory = PlayerMemory::new();
    let odd = InMsg(
        InMsgFn::MpvCommand,
        InMsgArgs::ObProp(PropKey::Bool("a".to_string())),
    );
    assert!(!odd.plays_file());
    assert_eq!(ask(&mut memory, &odd, "{}"), vec!["unsupported"]);
}

#[test]
fn the_player_starts_with_its_properties() {
    let list = start_properties(42, false, true);
    assert_eq!(list.len(), 30);
    assert_eq!(list[0].name, "wid");
    assert!(matches!(list[0].value, StartValue::Int(42)));
    let find = |name: &str| list.iter().find(|p| p.name == name).unwrap();
    assert!(matches!(find("msg-level").value, StartValue::Text("all=no")));
    assert!(matches!(find("gpu-api").value, StartValue::Text("d3d11")));
    assert_eq!(find("vo").need, Need::Required);
    assert!(matches!(find("vo").value, StartValue::Text("gpu-next,gpu,")));
    assert_eq!(find("background").need, Need::Optional);
    assert!(matches!(find("volume-max").value, StartValue::Int(200)));
    assert_eq!(list[29].name, "cscale");
    assert_eq!(list[29].need, Need::Preferred);
    let other = start_properties(0, true, false);
    assert_eq!(other.len(), 29);
    assert!(other.iter().all(|p| p.name != "gpu-api"));
    assert!(other
        .iter()
        .any(|p| matches!(p.value, StartValue::Text("all=no,cplayer=debug"))));
}

#[test]
fn playback_is_always_watched() {
    assert_eq!(
        default_observations(),
        vec![
            ("time-pos", Format::Double),
            ("duration", Format::Double),
            ("demuxer-cache-time", Format::Double),
            ("pause", Format::Flag),
        ]
    );
}

#[test]
fn reports_of_the_player_reach_the_presence() {
    let mut shell = Shell::new();
    shell.started = true;
    shell.enabled = true;
    let change = |name: &str, change: PropertyData| MpvEvent::PropertyChange {
        name: name.to_string(),
        change,
    };
    match handle_event(&mut shell, &change("time-pos", PropertyData::Double(double(3.5)))) {
        Reaction::Respond { name, effects } => {
            assert_eq!(name, "mpv-prop-change");
            assert!(effects.is_empty());
        }
        other => panic!("{other:?}"),
    }
    assert_eq!(shell.current_time, double(3.5));
    match handle_event(&mut shell, &change("pause", PropertyData::Flag(true))) {
        Reaction::Respond { effects, .. } => {
            assert_eq!(effects, vec![Effect::Send(Signal::Refresh)]);
        }
        other => panic!("{other:?}"),
    }
    match handle_event(&mut shell, &MpvEvent::EndFile) {
        Reaction::Respond { name, effects } => {
            assert_eq!(name, "mpv-event-ended");
            assert_eq!(effects, vec![Effect::Send(Signal::Refresh)]);
        }
        other => panic!("{other:?}"),
    }
    assert!(!shell.is_paused);
    assert_eq!(shell.current_time, double(0.0));
    assert!(matches!(handle_event(&mut shell, &MpvEvent::Other), Reaction::Skip));
    assert!(matches!(handle_event(&mut shell, &MpvEvent::Shutdown), Reaction::Stop));
}
