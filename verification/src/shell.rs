//! What the shell knows: playback, route, switches and watch party.
use crate::double::Double;
use crate::json::Json;
use crate::json::JsonView;
use crate::text;
use vstd::prelude::*;
use vstd::string::*;

verus! {

/// The state that the player and the web page report, and the presence reads.
pub struct Shell {
    /// The route that the web page is at.
    pub current_url: String,
    /// The playback position, in seconds.
    pub current_time: Double,
    /// The length of what is played, in seconds.
    pub total_duration: Double,
    /// Whether playback is paused.
    pub is_paused: bool,
    /// Whether that is what the player has reported of what it plays.
    pub pause_reported: bool,
    /// Whether the presence is switched on.
    pub enabled: bool,
    /// Whether the settings page wants the presence shown while paused.
    pub show_paused: bool,
    /// Whether the settings page wants the presence shown outside a title.
    pub show_menu: bool,
    /// The Discord application that the web page asks for; empty for none.
    pub requested_app_id: String,
    /// The id of the watch party; empty where there is none.
    pub lobby_party_id: String,
    /// What a member needs to join the watch party.
    pub lobby_join_secret: String,
    /// The members of the watch party, its host counted.
    pub lobby_member_count: i32,
    /// The most members that the watch party takes.
    pub lobby_max_size: i32,
    /// Whether the presence thread has been started.
    pub started: bool,
}

/// What a [`Shell`] knows.
#[verifier::ext_equal]
pub struct ShellView {
    pub current_url: Seq<char>,
    pub current_time: Double,
    pub total_duration: Double,
    pub is_paused: bool,
    pub pause_reported: bool,
    pub enabled: bool,
    pub show_paused: bool,
    pub show_menu: bool,
    pub requested_app_id: Seq<char>,
    pub lobby_party_id: Seq<char>,
    pub lobby_join_secret: Seq<char>,
    pub lobby_member_count: i32,
    pub lobby_max_size: i32,
    pub started: bool,
}

impl View for Shell {
    type V = ShellView;

    open spec fn view(&self) -> ShellView {
        ShellView {
            current_url: self.current_url@,
            current_time: self.current_time,
            total_duration: self.total_duration,
            is_paused: self.is_paused,
            pause_reported: self.pause_reported,
            enabled: self.enabled,
            show_paused: self.show_paused,
            show_menu: self.show_menu,
            requested_app_id: self.requested_app_id@,
            lobby_party_id: self.lobby_party_id@,
            lobby_join_secret: self.lobby_join_secret@,
            lobby_member_count: self.lobby_member_count,
            lobby_max_size: self.lobby_max_size,
            started: self.started,
        }
    }
}

/// What the presence thread is told.
#[derive(Clone, Copy, Debug, PartialEq, Eq, Structural)]
pub enum Signal {
    /// The presence has been switched on.
    Enable,
    /// The presence has been switched off.
    Disable,
    /// Something that it shows has changed.
    Refresh,
}

/// What a report to the shell asks for, beyond the change of the state.
#[derive(Clone, Copy, Debug, PartialEq, Eq, Structural)]
pub enum Effect {
    /// Start the presence thread.
    Start,
    /// Tell the presence thread.
    Send(Signal),
}

/// The value of a player property.
#[derive(Debug)]
pub enum PropertyData {
    Str(String),
    OsdStr(String),
    Flag(bool),
    Int64(i64),
    Double(Double),
    /// A value with parts, which nothing here reads.
    Node,
}

impl Shell {
    /// The state of a shell that nothing has been reported to.
    pub fn new() -> (shell: Shell)
        ensures
            shell@ == initial(),
    {
        Shell {
            current_url: String::new(),
            current_time: Double::zero(),
            total_duration: Double::zero(),
            is_paused: false,
            pause_reported: false,
            enabled: false,
            show_paused: true,
            show_menu: true,
            requested_app_id: String::new(),
            lobby_party_id: String::new(),
            lobby_join_secret: String::new(),
            lobby_member_count: 0,
            lobby_max_size: 8,
            started: false,
        }
    }
}

/// The state of a shell that nothing has been reported to.
pub open spec fn initial() -> ShellView {
    ShellView {
        current_url: Seq::empty(),
        current_time: Double { bits: 0 },
        total_duration: Double { bits: 0 },
        is_paused: false,
        pause_reported: false,
        enabled: false,
        show_paused: true,
        show_menu: true,
        requested_app_id: Seq::empty(),
        lobby_party_id: Seq::empty(),
        lobby_join_secret: Seq::empty(),
        lobby_member_count: 0,
        lobby_max_size: 8,
        started: false,
    }
}

/// The start of the presence thread, where it has not been started.
pub open spec fn startup(shell: ShellView) -> Seq<Effect> {
    if shell.started {
        Seq::empty()
    } else {
        seq![Effect::Start]
    }
}

/// The state once the presence thread has been started.
pub open spec fn running(shell: ShellView) -> ShellView {
    ShellView { started: true, ..shell }
}

/// Asks for the start of the presence thread, the first time.
pub fn ensure_started(shell: &mut Shell) -> (effects: Vec<Effect>)
    ensures
        final(shell)@ == running(old(shell)@),
        effects@ == startup(old(shell)@),
{
    let mut effects: Vec<Effect> = Vec::new();
    if !shell.started {
        shell.started = true;
        effects.push(Effect::Start);
    }
    effects
}

/// Starts the presence thread ahead of the first report.
pub fn init(shell: &mut Shell) -> (effects: Vec<Effect>)
    ensures
        final(shell)@ == running(old(shell)@),
        effects@ == startup(old(shell)@),
{
    ensure_started(shell)
}

/// Tells the presence thread, which is started for it where need be.
pub fn signal(shell: &mut Shell, sig: Signal) -> (effects: Vec<Effect>)
    ensures
        final(shell)@ == running(old(shell)@),
        effects@ == startup(old(shell)@).push(Effect::Send(sig)),
{
    let mut effects = ensure_started(shell);
    effects.push(Effect::Send(sig));
    effects
}

/// The state with a watch party in it.
pub open spec fn with_lobby(
    shell: ShellView,
    party_id: Seq<char>,
    join_secret: Seq<char>,
    member_count: i32,
    max_size: i32,
) -> ShellView {
    ShellView {
        lobby_party_id: party_id,
        lobby_join_secret: join_secret,
        lobby_member_count: member_count,
        lobby_max_size: if max_size < 1 {
            1
        } else {
            max_size
        },
        ..shell
    }
}

/// Publishes a watch party, so that it shows as a Discord party.
pub fn set_lobby(
    shell: &mut Shell,
    party_id: &str,
    join_secret: &str,
    member_count: i32,
    max_size: i32,
) -> (effects: Vec<Effect>)
    ensures
        final(shell)@ == running(
            with_lobby(old(shell)@, party_id@, join_secret@, member_count, max_size),
        ),
        effects@ == startup(old(shell)@).push(Effect::Send(Signal::Refresh)),
{
    shell.lobby_party_id = party_id.to_owned();
    shell.lobby_join_secret = join_secret.to_owned();
    shell.lobby_member_count = member_count;
    shell.lobby_max_size = if max_size < 1 {
        1
    } else {
        max_size
    };
    signal(shell, Signal::Refresh)
}

/// Takes the watch party back.
pub fn clear_lobby(shell: &mut Shell) -> (effects: Vec<Effect>)
    ensures
        final(shell)@ == running(with_lobby(old(shell)@, Seq::empty(), Seq::empty(), 0, 8)),
        effects@ == startup(old(shell)@).push(Effect::Send(Signal::Refresh)),
{
    proof {
        reveal_strlit("");
        assert(""@ == Seq::<char>::empty());
    }
    set_lobby(shell, "", "", 0, 8)
}

/// The state after a player property has changed.
pub open spec fn with_property(
    shell: ShellView,
    name: Seq<char>,
    change: PropertyData,
) -> ShellView {
    match change {
        PropertyData::Double(value) => if name == "time-pos"@ {
            ShellView { current_time: value, ..shell }
        } else if name == "duration"@ {
            ShellView { total_duration: value, ..shell }
        } else {
            shell
        },
        PropertyData::Flag(value) => if name == "pause"@ {
            ShellView { is_paused: value, pause_reported: true, ..shell }
        } else {
            shell
        },
        _ => shell,
    }
}

/// Whether the change of a player property is to be told: playback has been
/// paused or resumed while the presence is on.
pub open spec fn tells_property(
    shell: ShellView,
    name: Seq<char>,
    change: PropertyData,
) -> bool {
    change matches PropertyData::Flag(value) && name == "pause"@ && value != shell.is_paused
        && shell.enabled
}

/// Takes note of the change of a player property.
pub fn note_mpv_property(shell: &mut Shell, name: &str, change: &PropertyData) -> (effects: Vec<
    Effect,
>)
    ensures
        tells_property(old(shell)@, name@, *change) ==> {
            &&& final(shell)@ == running(with_property(old(shell)@, name@, *change))
            &&& effects@ == startup(old(shell)@).push(Effect::Send(Signal::Refresh))
        },
        !tells_property(old(shell)@, name@, *change) ==> {
            &&& final(shell)@ == with_property(old(shell)@, name@, *change)
            &&& effects@.len() == 0
        },
{
    proof {
        reveal_strlit("time-pos");
        reveal_strlit("duration");
        assert("time-pos"@[0] != "duration"@[0]);
    }
    match change {
        PropertyData::Double(value) => {
            if text::same(name, "time-pos") {
                shell.current_time = *value;
            } else if text::same(name, "duration") {
                shell.total_duration = *value;
            }
        },
        PropertyData::Flag(value) => {
            if text::same(name, "pause") {
                let changed = shell.is_paused != *value;
                shell.is_paused = *value;
                shell.pause_reported = true;
                if changed && shell.enabled {
                    return signal(shell, Signal::Refresh);
                }
            }
        },
        _ => {},
    }
    Vec::new()
}

/// The state after playback has stopped.
pub open spec fn stopped(shell: ShellView) -> ShellView {
    ShellView {
        current_time: Double { bits: 0 },
        total_duration: Double { bits: 0 },
        is_paused: false,
        pause_reported: false,
        ..shell
    }
}

/// Resets what is known of playback, when a file ends or the player closes.
pub fn note_playback_stopped(shell: &mut Shell) -> (effects: Vec<Effect>)
    ensures
        final(shell)@ == running(stopped(old(shell)@)),
        effects@ == startup(old(shell)@).push(Effect::Send(Signal::Refresh)),
{
    shell.current_time = Double::zero();
    shell.total_duration = Double::zero();
    shell.is_paused = false;
    shell.pause_reported = false;
    signal(shell, Signal::Refresh)
}

/// The signal for the switch being at `enabled`.
pub open spec fn switch_signal(enabled: bool) -> Signal {
    if enabled {
        Signal::Enable
    } else {
        Signal::Disable
    }
}

/// Switches the presence on or off. The thread is told only where that is a change.
pub fn set_enabled(shell: &mut Shell, enabled: bool) -> (effects: Vec<Effect>)
    ensures
        old(shell)@.enabled == enabled ==> final(shell)@ == old(shell)@ && effects@.len() == 0,
        old(shell)@.enabled != enabled ==> {
            &&& final(shell)@ == running((ShellView { enabled, ..old(shell)@ }))
            &&& effects@ == startup(old(shell)@).push(Effect::Send(switch_signal(enabled)))
        },
{
    let was = shell.enabled;
    shell.enabled = enabled;
    if was == enabled {
        return Vec::new();
    }
    signal(
        shell,
        if enabled {
            Signal::Enable
        } else {
            Signal::Disable
        },
    )
}

/// The settings that the web page reports, laid over the state.
pub open spec fn with_settings(shell: ShellView, payload: JsonView) -> ShellView {
    ShellView {
        requested_app_id: match payload.text_at("appId"@) {
            Some(id) => text::trimmed(id),
            None => shell.requested_app_id,
        },
        show_paused: match payload.truth_at("showPaused"@) {
            Some(b) => b,
            None => shell.show_paused,
        },
        show_menu: match payload.truth_at("showMenu"@) {
            Some(b) => b,
            None => shell.show_menu,
        },
        ..shell
    }
}

/// A playback figure: what the player reported, and where that is not above
/// zero, what the web page reports.
pub open spec fn figure(native: Double, reported: Option<Double>) -> Double {
    match reported {
        Some(n) => if native.at_most_zero() {
            n
        } else {
            native
        },
        None => native,
    }
}

/// The route and the playback that the web page reports, laid over the state.
/// What the player has reported of playback is kept.
pub open spec fn with_playback(shell: ShellView, payload: JsonView) -> ShellView {
    ShellView {
        current_url: match payload.text_at("route"@) {
            Some(route) => route,
            None => shell.current_url,
        },
        is_paused: match payload.truth_at("paused"@) {
            Some(b) => if shell.pause_reported {
                shell.is_paused
            } else {
                b
            },
            None => shell.is_paused,
        },
        current_time: figure(shell.current_time, payload.number_at("currentTimeSeconds"@)),
        total_duration: figure(shell.total_duration, payload.number_at("durationSeconds"@)),
        ..shell
    }
}

/// What the web page reports, laid over the state, which is switched on by it.
pub open spec fn with_payload(shell: ShellView, payload: JsonView) -> ShellView {
    ShellView { enabled: true, ..with_playback(with_settings(shell, payload), payload) }
}

fn apply_settings(shell: &mut Shell, payload: &Json)
    ensures
        final(shell)@ == with_settings(old(shell)@, payload@),
{
    if let Some(app_id) = payload.str_at("appId") {
        shell.requested_app_id = text::trim(app_id).to_owned();
    }
    if let Some(show_paused) = payload.bool_at("showPaused") {
        shell.show_paused = show_paused;
    }
    if let Some(show_menu) = payload.bool_at("showMenu") {
        shell.show_menu = show_menu;
    }
}

fn later_figure(native: Double, reported: Option<Double>) -> (value: Double)
    ensures
        value == figure(native, reported),
{
    match reported {
        Some(n) => if native.is_at_most_zero() {
            n
        } else {
            native
        },
        None => native,
    }
}

fn apply_playback(shell: &mut Shell, payload: &Json)
    ensures
        final(shell)@ == with_playback(old(shell)@, payload@),
{
    if let Some(route) = payload.str_at("route") {
        shell.current_url = route.to_owned();
    }
    if let Some(paused) = payload.bool_at("paused") {
        if !shell.pause_reported {
            shell.is_paused = paused;
        }
    }
    shell.current_time = later_figure(
        shell.current_time,
        payload.double_at("currentTimeSeconds"),
    );
    shell.total_duration = later_figure(
        shell.total_duration,
        payload.double_at("durationSeconds"),
    );
}

/// What follows a report of the web page: the thread is started where need be,
/// told of the switch where that is a change, and told to refresh.
pub open spec fn payload_effects(shell: ShellView) -> Seq<Effect> {
    let start = startup(shell);
    if shell.enabled {
        start.push(Effect::Send(Signal::Refresh))
    } else {
        start.push(Effect::Send(Signal::Enable)).push(Effect::Send(Signal::Refresh))
    }
}

/// Takes in what the web page reports, and switches the presence on.
pub fn update_presence(shell: &mut Shell, payload: &Json) -> (effects: Result<Vec<Effect>, String>)
    ensures
        final(shell)@ == running(with_payload(old(shell)@, payload@)),
        effects matches Ok(e) && e@ == payload_effects(old(shell)@),
{
    let mut effects = ensure_started(shell);
    apply_settings(shell, payload);
    apply_playback(shell, payload);
    let mut switched = set_enabled(shell, true);
    effects.append(&mut switched);
    let mut told = signal(shell, Signal::Refresh);
    effects.append(&mut told);
    proof {
        assert(effects@ == payload_effects(old(shell)@));
    }
    Ok(effects)
}

/// Switches the presence off.
pub fn clear_presence(shell: &mut Shell) -> (effects: Result<Vec<Effect>, String>)
    ensures
        effects is Ok,
        !old(shell)@.enabled ==> final(shell)@ == old(shell)@ && effects->Ok_0@.len() == 0,
        old(shell)@.enabled ==> {
            &&& final(shell)@ == running((ShellView { enabled: false, ..old(shell)@ }))
            &&& effects->Ok_0@ == startup(old(shell)@).push(Effect::Send(Signal::Disable))
        },
{
    Ok(set_enabled(shell, false))
}

/// A watch party, as it is shown.
pub struct LobbyPresence {
    pub party_id: String,
    pub join_secret: String,
    pub member_count: i32,
    pub max_size: i32,
}

/// What a [`LobbyPresence`] says.
#[verifier::ext_equal]
pub struct LobbyView {
    pub party_id: Seq<char>,
    pub join_secret: Seq<char>,
    pub member_count: i32,
    pub max_size: i32,
}

impl View for LobbyPresence {
    type V = LobbyView;

    open spec fn view(&self) -> LobbyView {
        LobbyView {
            party_id: self.party_id@,
            join_secret: self.join_secret@,
            member_count: self.member_count,
            max_size: self.max_size,
        }
    }
}

impl LobbyView {
    /// How many others watch along, where anyone does.
    pub open spec fn others(self) -> Option<Seq<char>> {
        if self.member_count <= 1 {
            None
        } else if self.member_count == 2 {
            Some("Watching with 1 other"@)
        } else {
            Some("Watching with "@ + text::decimal((self.member_count - 1) as nat) + " others"@)
        }
    }
}

impl LobbyPresence {
    /// How many others watch along, where anyone does.
    pub fn others_text(&self) -> (line: Option<String>)
        ensures
            text::optional(line) == self@.others(),
    {
        if self.member_count <= 1 {
            None
        } else if self.member_count == 2 {
            Some("Watching with 1 other".to_owned())
        } else {
            let others: i32 = self.member_count - 1;
            let count = text::decimal_text(others as u64);
            Some("Watching with ".to_owned().concat(count.as_str()).concat(" others"))
        }
    }
}

/// The watch party that the state holds: its host counts as a member, and it
/// is never shown with more members than it takes.
pub open spec fn lobby_of(shell: ShellView) -> Option<LobbyView> {
    if shell.lobby_party_id.len() == 0 {
        None
    } else {
        let member_count = if shell.lobby_member_count < 1 {
            1
        } else {
            shell.lobby_member_count
        };
        Some(
            LobbyView {
                party_id: shell.lobby_party_id,
                join_secret: shell.lobby_join_secret,
                member_count,
                max_size: if shell.lobby_max_size < member_count {
                    member_count
                } else {
                    shell.lobby_max_size
                },
            },
        )
    }
}

/// What an optional watch party says.
pub open spec fn lobby_view(lobby: Option<LobbyPresence>) -> Option<LobbyView> {
    match lobby {
        Some(l) => Some(l@),
        None => None,
    }
}

/// The watch party that the shell holds.
pub fn lobby_presence(shell: &Shell) -> (lobby: Option<LobbyPresence>)
    ensures
        lobby_view(lobby) == lobby_of(shell@),
{
    if shell.lobby_party_id.as_str().is_empty() {
        return None;
    }
    let member_count: i32 = if shell.lobby_member_count < 1 {
        1
    } else {
        shell.lobby_member_count
    };
    let max_size: i32 = if shell.lobby_max_size < member_count {
        member_count
    } else {
        shell.lobby_max_size
    };
    Some(
        LobbyPresence {
            party_id: shell.lobby_party_id.clone(),
            join_secret: shell.lobby_join_secret.clone(),
            member_count,
            max_size,
        },
    )
}

/// A report to the shell.
pub enum Report {
    Init,
    Lobby { party_id: Seq<char>, join_secret: Seq<char>, member_count: i32, max_size: i32 },
    LobbyGone,
    Property { name: Seq<char>, change: PropertyData },
    PlaybackStopped,
    Payload(JsonView),
    Cleared,
}

/// The state after a report, and what the report asks for.
pub open spec fn reported(shell: ShellView, report: Report) -> (ShellView, Seq<Effect>) {
    let refresh = startup(shell).push(Effect::Send(Signal::Refresh));
    match report {
        Report::Init => (running(shell), startup(shell)),
        Report::Lobby { party_id, join_secret, member_count, max_size } => (
            running(with_lobby(shell, party_id, join_secret, member_count, max_size)),
            refresh,
        ),
        Report::LobbyGone => (
            running(with_lobby(shell, Seq::empty(), Seq::empty(), 0, 8)),
            refresh,
        ),
        Report::Property { name, change } => if tells_property(shell, name, change) {
            (running(with_property(shell, name, change)), refresh)
        } else {
            (with_property(shell, name, change), Seq::empty())
        },
        Report::PlaybackStopped => (running(stopped(shell)), refresh),
        Report::Payload(payload) => (
            running(with_payload(shell, payload)),
            payload_effects(shell),
        ),
        Report::Cleared => if shell.enabled {
            (
                running((ShellView { enabled: false, ..shell })),
                startup(shell).push(Effect::Send(Signal::Disable)),
            )
        } else {
            (shell, Seq::empty())
        },
    }
}

/// The state after a row of reports, and all that they ask for, in order.
pub open spec fn reported_all(shell: ShellView, reports: Seq<Report>) -> (ShellView, Seq<Effect>)
    decreases reports.len(),
{
    if reports.len() == 0 {
        (shell, Seq::empty())
    } else {
        let (before, effects) = reported_all(shell, reports.drop_last());
        let (after, more) = reported(before, reports.last());
        (after, effects + more)
    }
}

/// Whether the presence is on, going by what its thread was last told.
pub open spec fn told_on(effects: Seq<Effect>, before: bool) -> bool
    decreases effects.len(),
{
    if effects.len() == 0 {
        before
    } else {
        match effects.last() {
            Effect::Send(Signal::Enable) => true,
            Effect::Send(Signal::Disable) => false,
            _ => told_on(effects.drop_last(), before),
        }
    }
}

/// Whatever is reported, the presence thread is started once at most, and
/// before it is told anything.
pub proof fn law_thread_starts_once(shell: ShellView, reports: Seq<Report>)
    requires
        !shell.started,
    ensures
        ({
            let (after, effects) = reported_all(shell, reports);
            &&& after.started <==> effects.len() > 0
            &&& effects.len() > 0 ==> effects[0] == Effect::Start
            &&& forall|i: int| 0 < i < effects.len() ==> #[trigger] effects[i] != Effect::Start
        }),
    decreases reports.len(),
{
    if reports.len() > 0 {
        law_thread_starts_once(shell, reports.drop_last());
        let (before, effects) = reported_all(shell, reports.drop_last());
        let (after, more) = reported(before, reports.last());
        assert(forall|i: int|
            0 <= i < more.len() ==> (#[trigger] more[i] == Effect::Start ==> i == 0
                && !before.started));
        assert forall|i: int| 0 < i < (effects + more).len() implies #[trigger] (effects + more)[i]
            != Effect::Start by {
            if i < effects.len() {
                assert((effects + more)[i] == effects[i]);
            } else {
                assert((effects + more)[i] == more[i - effects.len()]);
            }
        }
        if effects.len() > 0 {
            assert((effects + more)[0] == effects[0]);
        } else if more.len() > 0 {
            assert((effects + more)[0] == more[0]);
        }
    }
}

proof fn lemma_told_on_concat(a: Seq<Effect>, b: Seq<Effect>, before: bool)
    ensures
        told_on(a + b, before) == told_on(b, told_on(a, before)),
    decreases b.len(),
{
    if b.len() == 0 {
        assert(a + b == a);
    } else {
        assert((a + b).last() == b.last());
        assert((a + b).drop_last() == a + b.drop_last());
        lemma_told_on_concat(a, b.drop_last(), before);
    }
}

/// Whatever is reported, the presence thread has been told whether the
/// presence is on.
pub proof fn law_thread_knows_the_switch(shell: ShellView, reports: Seq<Report>)
    ensures
        told_on(reported_all(shell, reports).1, shell.enabled) == reported_all(
            shell,
            reports,
        ).0.enabled,
    decreases reports.len(),
{
    reveal_with_fuel(told_on, 4);
    if reports.len() > 0 {
        law_thread_knows_the_switch(shell, reports.drop_last());
        let (before, effects) = reported_all(shell, reports.drop_last());
        let (after, more) = reported(before, reports.last());
        lemma_told_on_concat(effects, more, shell.enabled);
        let start = startup(before);
        assert(told_on(start, before.enabled) == before.enabled);
        assert(start.push(Effect::Send(Signal::Refresh)).drop_last() == start);
        assert(start.push(Effect::Send(Signal::Disable)).drop_last() == start);
        assert(start.push(Effect::Send(Signal::Enable)).push(
            Effect::Send(Signal::Refresh),
        ).drop_last() == start.push(Effect::Send(Signal::Enable)));
        assert(told_on(more, before.enabled) == after.enabled);
    }
}

/// A watch party that has been set is shown under its id, with at least its
/// host in it and room for all its members, until it is taken back.
pub proof fn law_lobby_shown_until_cleared(
    shell: ShellView,
    party_id: Seq<char>,
    join_secret: Seq<char>,
    member_count: i32,
    max_size: i32,
)
    requires
        party_id.len() > 0,
    ensures
        ({
            let set = with_lobby(shell, party_id, join_secret, member_count, max_size);
            &&& lobby_of(set) matches Some(l) && l.party_id == party_id && l.join_secret
                == join_secret && 1 <= l.member_count <= l.max_size && (member_count >= 1
                ==> l.member_count == member_count) && (max_size >= l.member_count ==> l.max_size
                == max_size)
            &&& lobby_of(with_lobby(set, Seq::empty(), Seq::empty(), 0, 8)) is None
        }),
{
}

/// A position or length above zero that the player has reported, and its report
/// on whether it is paused, are not changed by what the web page reports; once
/// playback has stopped, they are.
pub proof fn law_player_figures_win(shell: ShellView, value: Double, payload: JsonView)
    requires
        value.above_zero(),
    ensures
        with_payload(
            with_property(shell, "time-pos"@, PropertyData::Double(value)),
            payload,
        ).current_time == value,
        with_payload(
            with_property(shell, "duration"@, PropertyData::Double(value)),
            payload,
        ).total_duration == value,
        forall|paused: bool|
            (#[trigger] with_payload(
                with_property(shell, "pause"@, PropertyData::Flag(paused)),
                payload,
            )).is_paused == paused,
        payload.number_at("currentTimeSeconds"@) matches Some(n) ==> with_payload(
            stopped(shell),
            payload,
        ).current_time == n,
        payload.number_at("durationSeconds"@) matches Some(n) ==> with_payload(
            stopped(shell),
            payload,
        ).total_duration == n,
        payload.truth_at("paused"@) matches Some(b) ==> with_payload(
            stopped(shell),
            payload,
        ).is_paused == b,
{
    reveal_strlit("time-pos");
    reveal_strlit("duration");
    assert("time-pos"@[0] != "duration"@[0]);
    assert(Double { bits: 0 }.at_most_zero());
}

/// The route that the web page reports is the current one from then on, whatever
/// it was before; without one in the report it stays.
pub proof fn law_reported_route_is_current(shell: ShellView, payload: JsonView)
    ensures
        payload.text_at("route"@) matches Some(r) ==> with_payload(shell, payload).current_url
            == r,
        payload.text_at("route"@) is None ==> with_payload(shell, payload).current_url
            == shell.current_url,
{
}

/// The later of two reports of the web page counts: what it names is as it says,
/// whatever the earlier one said, and what it does not name is as the earlier one
/// left it.
pub proof fn law_later_page_report_counts(shell: ShellView, first: JsonView, second: JsonView)
    ensures
        ({
            let after = with_payload(with_payload(shell, first), second);
            &&& second.text_at("route"@) matches Some(r) ==> after.current_url == r
            &&& second.text_at("route"@) is None ==> (first.text_at("route"@) matches Some(r)
                ==> after.current_url == r)
            &&& second.truth_at("showPaused"@) matches Some(b) ==> after.show_paused == b
            &&& second.truth_at("showPaused"@) is None ==> (first.truth_at("showPaused"@)
                matches Some(b) ==> after.show_paused == b)
            &&& second.truth_at("showMenu"@) matches Some(b) ==> after.show_menu == b
            &&& second.truth_at("showMenu"@) is None ==> (first.truth_at("showMenu"@)
                matches Some(b) ==> after.show_menu == b)
        }),
{
}

/// A report of the web page switches the presence on, and each thing that it
/// names is taken in: the switches and the application as they are said, the
/// pause where the player has reported none, position and length where the
/// player's are not above zero. What it does not name stays, and so does all
/// that such a report is not about.
pub proof fn law_page_report_is_taken_in(shell: ShellView, payload: JsonView)
    ensures
        ({
            let after = with_payload(shell, payload);
            &&& after.enabled
            &&& after.show_paused == match payload.truth_at("showPaused"@) {
                Some(b) => b,
                None => shell.show_paused,
            }
            &&& after.show_menu == match payload.truth_at("showMenu"@) {
                Some(b) => b,
                None => shell.show_menu,
            }
            &&& after.requested_app_id == match payload.text_at("appId"@) {
                Some(id) => text::trimmed(id),
                None => shell.requested_app_id,
            }
            &&& shell.pause_reported ==> after.is_paused == shell.is_paused
            &&& !shell.pause_reported ==> after.is_paused == match payload.truth_at("paused"@) {
                Some(b) => b,
                None => shell.is_paused,
            }
            &&& payload.number_at("currentTimeSeconds"@) matches Some(n)
                ==> shell.current_time.at_most_zero() ==> after.current_time == n
            &&& !shell.current_time.at_most_zero() || payload.number_at("currentTimeSeconds"@)
                is None ==> after.current_time == shell.current_time
            &&& payload.number_at("durationSeconds"@) matches Some(n)
                ==> shell.total_duration.at_most_zero() ==> after.total_duration == n
            &&& !shell.total_duration.at_most_zero() || payload.number_at("durationSeconds"@)
                is None ==> after.total_duration == shell.total_duration
            &&& after == (ShellView {
                enabled: true,
                current_url: after.current_url,
                current_time: after.current_time,
                total_duration: after.total_duration,
                is_paused: after.is_paused,
                show_paused: after.show_paused,
                show_menu: after.show_menu,
                requested_app_id: after.requested_app_id,
                ..shell
            })
        }),
{
}

/// The start of the presence thread where it has not been started, and then one
/// signal to it.
pub open spec fn one_signal(started: bool, sig: Signal) -> Seq<Effect> {
    if started {
        seq![Effect::Send(sig)]
    } else {
        seq![Effect::Start, Effect::Send(sig)]
    }
}

/// A watch party that is set changes what is known of the watch party alone,
/// and has the presence refreshed; one that is taken back leaves none.
pub proof fn law_lobby_reports_change_lobby_alone(
    shell: ShellView,
    party_id: Seq<char>,
    join_secret: Seq<char>,
    member_count: i32,
    max_size: i32,
)
    ensures
        ({
            let (after, effects) = reported(
                shell,
                Report::Lobby { party_id, join_secret, member_count, max_size },
            );
            &&& after.lobby_party_id == party_id
            &&& after.lobby_join_secret == join_secret
            &&& after.lobby_member_count == member_count
            &&& max_size >= 1 ==> after.lobby_max_size == max_size
            &&& max_size < 1 ==> after.lobby_max_size == 1
            &&& after == (ShellView {
                started: true,
                lobby_party_id: after.lobby_party_id,
                lobby_join_secret: after.lobby_join_secret,
                lobby_member_count: after.lobby_member_count,
                lobby_max_size: after.lobby_max_size,
                ..shell
            })
            &&& effects == one_signal(shell.started, Signal::Refresh)
        }),
        ({
            let (after, effects) = reported(shell, Report::LobbyGone);
            &&& after == (ShellView {
                started: true,
                lobby_party_id: Seq::empty(),
                lobby_join_secret: Seq::empty(),
                lobby_member_count: 0,
                lobby_max_size: 8,
                ..shell
            })
            &&& effects == one_signal(shell.started, Signal::Refresh)
        }),
{
    assert(reported(shell, Report::LobbyGone).1 =~= one_signal(shell.started, Signal::Refresh));
}

/// The watch party that is shown goes by the id and the secret that were set,
/// has the members that were counted, or one where fewer were, and takes as many
/// as was said, or as many as it has where that is fewer. Without an id none is
/// shown.
pub proof fn law_lobby_is_shown_as_set(shell: ShellView)
    ensures
        shell.lobby_party_id.len() == 0 <==> lobby_of(shell) is None,
        lobby_of(shell) matches Some(l) ==> {
            &&& l.party_id == shell.lobby_party_id
            &&& l.join_secret == shell.lobby_join_secret
            &&& shell.lobby_member_count >= 1 ==> l.member_count == shell.lobby_member_count
            &&& shell.lobby_member_count < 1 ==> l.member_count == 1
            &&& shell.lobby_max_size >= l.member_count ==> l.max_size == shell.lobby_max_size
            &&& shell.lobby_max_size < l.member_count ==> l.max_size == l.member_count
        },
{
}

/// Of the members of a watch party all but one are the others, and they are
/// counted in words where there are any.
pub proof fn law_others_are_counted(lobby: LobbyView)
    ensures
        lobby.member_count <= 1 <==> lobby.others() is None,
        lobby.member_count == 2 ==> lobby.others() == Some("Watching with 1 other"@),
        lobby.member_count > 2 ==> lobby.others() == Some(
            "Watching with "@ + text::decimal((lobby.member_count - 1) as nat) + " others"@,
        ),
{
}

/// A property that the player reports changes the position, the length or the
/// pause, each by its name and kind of value, and nothing else. The presence
/// thread is told where a pause begins or ends while the presence is on, and is
/// not told otherwise.
pub proof fn law_property_reports_change_playback_alone(
    shell: ShellView,
    name: Seq<char>,
    change: PropertyData,
)
    ensures
        ({
            let (after, effects) = reported(shell, Report::Property { name, change });
            let tells = name == "pause"@ && shell.enabled && (change == PropertyData::Flag(
                !shell.is_paused,
            ));
            &&& after == (ShellView {
                current_time: match change {
                    PropertyData::Double(value) => if name == "time-pos"@ {
                        value
                    } else {
                        shell.current_time
                    },
                    _ => shell.current_time,
                },
                total_duration: match change {
                    PropertyData::Double(value) => if name == "duration"@ {
                        value
                    } else {
                        shell.total_duration
                    },
                    _ => shell.total_duration,
                },
                is_paused: match change {
                    PropertyData::Flag(value) => if name == "pause"@ {
                        value
                    } else {
                        shell.is_paused
                    },
                    _ => shell.is_paused,
                },
                pause_reported: shell.pause_reported || (name == "pause"@ && change is Flag),
                started: shell.started || tells,
                ..shell
            })
            &&& tells ==> effects == one_signal(shell.started, Signal::Refresh)
            &&& !tells ==> effects.len() == 0
        }),
{
    reveal_strlit("time-pos");
    reveal_strlit("duration");
    assert("time-pos"@[0] != "duration"@[0]);
    assert(seq![Effect::Start].push(Effect::Send(Signal::Refresh)) =~= seq![
        Effect::Start,
        Effect::Send(Signal::Refresh),
    ]);
    assert(Seq::<Effect>::empty().push(Effect::Send(Signal::Refresh)) =~= seq![
        Effect::Send(Signal::Refresh),
    ]);
}

/// Once playback has stopped, position and length are zero and there is no
/// pause; all else is as it was, and the presence is refreshed.
pub proof fn law_stopping_resets_playback_alone(shell: ShellView)
    ensures
        ({
            let (after, effects) = reported(shell, Report::PlaybackStopped);
            &&& after == (ShellView {
                current_time: Double { bits: 0 },
                total_duration: Double { bits: 0 },
                is_paused: false,
                pause_reported: false,
                started: true,
                ..shell
            })
            &&& effects == one_signal(shell.started, Signal::Refresh)
        }),
{
    assert(reported(shell, Report::PlaybackStopped).1 =~= one_signal(
        shell.started,
        Signal::Refresh,
    ));
}

/// What a report asks for: that of the web page has the presence refreshed, and
/// switched on first where it was off; that the presence is cleared has it
/// switched off where it was on, and changes nothing else; a start ahead of all
/// reports starts the thread, once, and no more.
pub proof fn law_reports_are_followed(shell: ShellView, payload: JsonView)
    ensures
        ({
            let (after, effects) = reported(shell, Report::Payload(payload));
            &&& after == (ShellView { started: true, ..with_payload(shell, payload) })
            &&& shell.enabled ==> effects == one_signal(shell.started, Signal::Refresh)
            &&& !shell.enabled ==> effects == one_signal(shell.started, Signal::Enable).push(
                Effect::Send(Signal::Refresh),
            )
        }),
        ({
            let (after, effects) = reported(shell, Report::Cleared);
            &&& after == (ShellView {
                enabled: false,
                started: shell.started || shell.enabled,
                ..shell
            })
            &&& shell.enabled ==> effects == one_signal(shell.started, Signal::Disable)
            &&& !shell.enabled ==> effects.len() == 0
        }),
        ({
            let (after, effects) = reported(shell, Report::Init);
            &&& after == (ShellView { started: true, ..shell })
            &&& shell.started ==> effects.len() == 0
            &&& !shell.started ==> effects == seq![Effect::Start]
        }),
        switch_signal(true) == Signal::Enable,
        switch_signal(false) == Signal::Disable,
{
    let start = startup(shell);
    assert(start.push(Effect::Send(Signal::Refresh)) =~= one_signal(
        shell.started,
        Signal::Refresh,
    ));
    assert(start.push(Effect::Send(Signal::Enable)) =~= one_signal(
        shell.started,
        Signal::Enable,
    ));
    assert(start.push(Effect::Send(Signal::Disable)) =~= one_signal(
        shell.started,
        Signal::Disable,
    ));
}

/// A shell that nothing has been reported to is off and has no thread, no route,
/// no playback and no watch party; the settings page hides nothing and asks for
/// no application.
pub proof fn law_nothing_reported_yet()
    ensures
        ({
            let shell = initial();
            &&& !shell.enabled && !shell.started && !shell.is_paused && !shell.pause_reported
            &&& shell.show_paused && shell.show_menu
            &&& shell.current_url.len() == 0 && shell.requested_app_id.len() == 0
            &&& shell.current_time.at_most_zero() && shell.total_duration.at_most_zero()
            &&& lobby_of(shell) is None
        }),
{
}

} // verus!
