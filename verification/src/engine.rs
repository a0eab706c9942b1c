//! The presence thread: what it does next, given what has happened.
use crate::activity;
use crate::activity::Activity;
use crate::activity::ActivityView;
use crate::activity::BeforeEpoch;
use crate::activity::Clock;
use crate::activity::Playback;
use crate::config;
use crate::config::Config;
use crate::config::ConfigView;
use crate::metadata;
use crate::metadata::MetadataCache;
use crate::metadata::VideoInfo;
use crate::metadata::VideoInfoView;
use crate::percent;
use crate::route;
use crate::route::Target;
use crate::route::TargetView;
use crate::shell;
use crate::shell::Shell;
use crate::shell::ShellView;
use crate::shell::Signal;
use crate::text;
use vstd::arithmetic::power2::lemma2_to64;
use vstd::arithmetic::power2::pow2;
use vstd::prelude::*;
use vstd::string::*;

verus! {

/// The title that was last looked up, and the route that named it.
pub struct Title {
    pub url: String,
    pub info: Option<VideoInfo>,
    pub media_type: String,
    pub season: String,
    pub episode: String,
}

/// What a [`Title`] says.
#[verifier::ext_equal]
pub struct TitleView {
    pub url: Seq<char>,
    pub info: Option<VideoInfoView>,
    pub media_type: Seq<char>,
    pub season: Seq<char>,
    pub episode: Seq<char>,
}

impl View for Title {
    type V = TitleView;

    open spec fn view(&self) -> TitleView {
        TitleView {
            url: self.url@,
            info: metadata::info_view(self.info),
            media_type: self.media_type@,
            season: self.season@,
            episode: self.episode@,
        }
    }
}

/// No title.
pub open spec fn no_title() -> TitleView {
    TitleView {
        url: Seq::empty(),
        info: None,
        media_type: Seq::empty(),
        season: Seq::empty(),
        episode: Seq::empty(),
    }
}

/// What is known of the title that a route names.
pub open spec fn title_at(
    url: Seq<char>,
    target: TargetView,
    info: Option<VideoInfoView>,
) -> TitleView {
    TitleView {
        url,
        info,
        media_type: target.media_type,
        season: target.season,
        episode: target.episode,
    }
}

/// What is shown, or why nothing could be.
pub enum Showing {
    /// No activity.
    Nothing,
    /// An activity.
    Shown(Activity),
    /// The clock is before 1970.
    Unclocked,
    /// The times of the activity are out of all range.
    Overflown,
}

/// What a [`Showing`] says.
pub enum ShowingView {
    Nothing,
    Shown(ActivityView),
    Unclocked,
    Overflown,
}

impl View for Showing {
    type V = ShowingView;

    open spec fn view(&self) -> ShowingView {
        match *self {
            Showing::Nothing => ShowingView::Nothing,
            Showing::Shown(a) => ShowingView::Shown(a@),
            Showing::Unclocked => ShowingView::Unclocked,
            Showing::Overflown => ShowingView::Overflown,
        }
    }
}

/// Whether a route names a title.
pub open spec fn title_route(url: Seq<char>) -> bool {
    route::player_route(url) || route::detail_route(url)
}

/// What the building of an activity leads to.
pub open spec fn showing_of(
    built: Result<ActivityView, BeforeEpoch>,
) -> ShowingView {
    match built {
        Ok(a) => ShowingView::Shown(a),
        Err(_) => ShowingView::Unclocked,
    }
}

/// What is to be shown at a route. A title of which nothing is known is shown as
/// any other page.
pub open spec fn showing(
    config: ConfigView,
    shell: ShellView,
    title: TitleView,
    playback: Playback,
    clock: Clock,
    url: Seq<char>,
) -> ShowingView {
    let lobby = shell::lobby_of(shell);
    if title_route(url) && title.info is Some {
        let info = title.info->0;
        if !route::player_route(url) {
            showing_of(
                activity::detail_activity(config, lobby, info, title.media_type, clock, url),
            )
        } else if config.disable_when_paused && playback.is_paused {
            ShowingView::Nothing
        } else if !activity::times_fit(config, playback, clock) {
            ShowingView::Overflown
        } else {
            showing_of(
                activity::player_activity(
                    config,
                    lobby,
                    info,
                    title.media_type,
                    title.season,
                    title.episode,
                    playback,
                    clock,
                    url,
                ),
            )
        }
    } else if config.disable_in_menu {
        ShowingView::Nothing
    } else {
        showing_of(activity::menu_activity(url, clock))
    }
}

fn shown(built: Result<Activity, BeforeEpoch>) -> (what: Showing)
    ensures
        what@ == showing_of(activity::result_view(built)),
{
    match built {
        Ok(a) => Showing::Shown(a),
        Err(_) => Showing::Unclocked,
    }
}

/// What is to be shown at a route.
pub fn show(
    config: &Config,
    shell: &Shell,
    title: &Title,
    playback: Playback,
    clock: Clock,
    url: &str,
) -> (what: Showing)
    ensures
        what@ == showing(config@, shell@, title@, playback, clock, url@),
{
    let is_player = route::is_player_route(url);
    let is_detail = route::is_detail_route(url);
    if is_player || is_detail {
        if let Some(info) = &title.info {
            let lobby = shell::lobby_presence(shell);
            if !is_player {
                return shown(
                    activity::build_detail_activity(
                        config,
                        &lobby,
                        info,
                        title.media_type.as_str(),
                        clock,
                        url,
                    ),
                );
            }
            if config.disable_when_paused && playback.is_paused {
                return Showing::Nothing;
            }
            if !activity::timestamps_fit(config, playback, clock) {
                return Showing::Overflown;
            }
            return shown(
                activity::build_player_activity(
                    config,
                    &lobby,
                    info,
                    title.media_type.as_str(),
                    title.season.as_str(),
                    title.episode.as_str(),
                    playback,
                    clock,
                    url,
                ),
            );
        }
    }
    if config.disable_in_menu {
        Showing::Nothing
    } else {
        shown(activity::build_menu_activity(url, clock))
    }
}

/// Where the presence thread stands, by what it waits for.
pub enum Phase {
    /// Without a connection: for being told to connect.
    Idle,
    /// For the settings that a connection is opened with.
    Loading,
    /// For the connection to open.
    Connecting,
    /// For the next try to open it.
    Retrying,
    /// With a connection: for the next refresh.
    Resting,
    /// For the settings and the time of a refresh.
    Sampling,
    /// For the reply to a request about the title that a refresh is about.
    Fetching { url: String, playback: Playback, target: Target },
    /// For an activity to have been sent.
    Publishing,
    /// For nothing: the thread has ended.
    Finished,
}

/// What a [`Phase`] says.
#[verifier::ext_equal]
pub enum PhaseView {
    Idle,
    Loading,
    Connecting,
    Retrying,
    Resting,
    Sampling,
    Fetching { url: Seq<char>, playback: Playback, target: TargetView },
    Publishing,
    Finished,
}

impl View for Phase {
    type V = PhaseView;

    open spec fn view(&self) -> PhaseView {
        match *self {
            Phase::Idle => PhaseView::Idle,
            Phase::Loading => PhaseView::Loading,
            Phase::Connecting => PhaseView::Connecting,
            Phase::Retrying => PhaseView::Retrying,
            Phase::Resting => PhaseView::Resting,
            Phase::Sampling => PhaseView::Sampling,
            Phase::Fetching { url, playback, target } => PhaseView::Fetching {
                url: url@,
                playback,
                target: target@,
            },
            Phase::Publishing => PhaseView::Publishing,
            Phase::Finished => PhaseView::Finished,
        }
    }
}

/// What has happened.
#[derive(Debug)]
pub enum Event {
    /// The thread has been told something.
    Received(Signal),
    /// It has been told nothing in the time that it waited.
    TimedOut,
    /// Nobody is left to tell it anything.
    Closed,
    /// The text of the settings file, where it could be read, and the time.
    Settings { file: Option<String>, clock: Clock },
    /// The connection has been opened, or could not be.
    Opened(bool),
    /// The body of the reply to a request, where it succeeded, and the time.
    Fetched { reply: Option<String>, clock: Clock },
    /// An activity has been sent or taken back, or could not be.
    Published(bool),
    /// What was done has panicked.
    Panicked,
}

/// What an [`Event`] says.
#[verifier::ext_equal]
pub enum EventView {
    Received(Signal),
    TimedOut,
    Closed,
    Settings { file: Option<Seq<char>>, clock: Clock },
    Opened(bool),
    Fetched { reply: Option<Seq<char>>, clock: Clock },
    Published(bool),
    Panicked,
}

impl View for Event {
    type V = EventView;

    open spec fn view(&self) -> EventView {
        match *self {
            Event::Received(sig) => EventView::Received(sig),
            Event::TimedOut => EventView::TimedOut,
            Event::Closed => EventView::Closed,
            Event::Settings { file, clock } => EventView::Settings {
                file: text::optional(file),
                clock,
            },
            Event::Opened(ok) => EventView::Opened(ok),
            Event::Fetched { reply, clock } => EventView::Fetched {
                reply: text::optional(reply),
                clock,
            },
            Event::Published(ok) => EventView::Published(ok),
            Event::Panicked => EventView::Panicked,
        }
    }
}

/// What to do next, with the events that can follow. Where what is done panics,
/// that is [`Event::Panicked`].
#[derive(Debug)]
pub enum Action {
    /// Wait to be told something: [`Event::Received`] or [`Event::Closed`].
    Await,
    /// Wait so many seconds to be told something: [`Event::Received`],
    /// [`Event::TimedOut`] or [`Event::Closed`].
    Wait { secs: u64 },
    /// Read the settings file, which is written first where it is missing, and
    /// the clock: [`Event::Settings`].
    LoadSettings,
    /// Open a connection for an application: [`Event::Opened`].
    Open { app_id: String },
    /// Open the connection again: [`Event::Opened`].
    Connect,
    /// Close the connection and open it again: [`Event::Opened`].
    Reconnect,
    /// Ask for a title at an address: [`Event::Fetched`].
    Fetch { url: String },
    /// Send an activity: [`Event::Published`].
    Publish(Activity),
    /// Take the activity back: [`Event::Published`].
    Clear,
    /// Take the activity back where asked to, close the connection, and wait to
    /// be told something: [`Event::Received`] or [`Event::Closed`].
    End { clear: bool },
    /// Drop the connection, sleep so many seconds, and wait to be told
    /// something: [`Event::Received`] or [`Event::Closed`].
    BackOff { secs: u64 },
    /// End the thread.
    Exit,
}

/// What an [`Action`] says.
#[verifier::ext_equal]
pub enum ActionView {
    Await,
    Wait { secs: u64 },
    LoadSettings,
    Open { app_id: Seq<char> },
    Connect,
    Reconnect,
    Fetch { url: Seq<char> },
    Publish(ActivityView),
    Clear,
    End { clear: bool },
    BackOff { secs: u64 },
    Exit,
}

impl View for Action {
    type V = ActionView;

    open spec fn view(&self) -> ActionView {
        match *self {
            Action::Await => ActionView::Await,
            Action::Wait { secs } => ActionView::Wait { secs },
            Action::LoadSettings => ActionView::LoadSettings,
            Action::Open { app_id } => ActionView::Open { app_id: app_id@ },
            Action::Connect => ActionView::Connect,
            Action::Reconnect => ActionView::Reconnect,
            Action::Fetch { url } => ActionView::Fetch { url: url@ },
            Action::Publish(a) => ActionView::Publish(a@),
            Action::Clear => ActionView::Clear,
            Action::End { clear } => ActionView::End { clear },
            Action::BackOff { secs } => ActionView::BackOff { secs },
            Action::Exit => ActionView::Exit,
        }
    }
}

/// The presence thread.
pub struct Engine {
    pub phase: Phase,
    /// How often in a row it has panicked without a connection in between.
    pub retry_count: u32,
    /// The settings in force.
    pub config: Config,
    pub title: Title,
    pub cache: MetadataCache,
}

/// What an [`Engine`] holds.
#[verifier::ext_equal]
pub struct EngineView {
    pub phase: PhaseView,
    pub retry_count: u32,
    pub config: ConfigView,
    pub title: TitleView,
    pub cache: Map<Seq<char>, VideoInfoView>,
}

impl View for Engine {
    type V = EngineView;

    open spec fn view(&self) -> EngineView {
        EngineView {
            phase: self.phase@,
            retry_count: self.retry_count,
            config: self.config@,
            title: self.title@,
            cache: self.cache@,
        }
    }
}

/// A thread that nothing has happened to. It awaits to be told something.
pub open spec fn initial() -> EngineView {
    EngineView {
        phase: PhaseView::Idle,
        retry_count: 0,
        config: config::default_config(),
        title: no_title(),
        cache: Map::empty(),
    }
}

/// Whether an event can follow in a phase.
pub open spec fn expected(phase: PhaseView, event: EventView) -> bool {
    match phase {
        PhaseView::Idle => event is Received || event is Closed || event is Panicked,
        PhaseView::Loading => event is Settings || event is Panicked,
        PhaseView::Connecting => event is Opened || event is Panicked,
        PhaseView::Retrying | PhaseView::Resting => event is Received || event is TimedOut || event
            is Closed || event is Panicked,
        PhaseView::Sampling => event is Settings || event is Panicked,
        PhaseView::Fetching { url, playback, target } => event is Fetched || event is Panicked,
        PhaseView::Publishing => event is Published || event is Panicked,
        PhaseView::Finished => false,
    }
}

/// How long to sleep after a panic, in seconds: five, and twice as long after
/// each further one, up to the fifth.
pub open spec fn back_off(retry_count: u32) -> u64 {
    (5 * pow2(
        if retry_count < 5 {
            retry_count as nat
        } else {
            5
        },
    )) as u64
}

/// What follows a panic.
pub open spec fn after_panic(engine: EngineView) -> (EngineView, ActionView) {
    (
        EngineView {
            phase: PhaseView::Idle,
            retry_count: if engine.retry_count < u32::MAX {
                (engine.retry_count + 1) as u32
            } else {
                u32::MAX
            },
            ..engine
        },
        ActionView::BackOff { secs: back_off(engine.retry_count) },
    )
}

/// What follows the decision on what to show.
pub open spec fn after_showing(engine: EngineView, what: ShowingView) -> (EngineView, ActionView) {
    match what {
        ShowingView::Nothing => (
            EngineView { phase: PhaseView::Publishing, ..engine },
            ActionView::Clear,
        ),
        ShowingView::Shown(a) => (
            EngineView { phase: PhaseView::Publishing, ..engine },
            ActionView::Publish(a),
        ),
        ShowingView::Unclocked => (
            EngineView { phase: PhaseView::Connecting, ..engine },
            ActionView::Reconnect,
        ),
        ShowingView::Overflown => after_panic(engine),
    }
}

/// Where playback stands, as the shell knows it.
pub open spec fn playback_of(shell: ShellView) -> Playback {
    Playback {
        current_time: shell.current_time,
        total_duration: shell.total_duration,
        is_paused: shell.is_paused,
    }
}

/// What follows once all is known that a refresh at a route needs.
pub open spec fn after_lookup(
    engine: EngineView,
    shell: ShellView,
    playback: Playback,
    clock: Clock,
    url: Seq<char>,
) -> (EngineView, ActionView) {
    after_showing(
        engine,
        showing(engine.config, shell, engine.title, playback, clock, url),
    )
}

/// What follows a refresh. The title is looked up where the route names another
/// than before, and asked for where it has to be.
pub open spec fn after_sample(
    engine: EngineView,
    shell: ShellView,
    file: Option<Seq<char>>,
    clock: Clock,
) -> (EngineView, ActionView) {
    let refreshed = EngineView {
        config: config::effective(config::config_of_file(file), shell),
        ..engine
    };
    let url = shell.current_url;
    let playback = playback_of(shell);
    if !title_route(url) || url == engine.title.url {
        after_lookup(refreshed, shell, playback, clock, url)
    } else {
        match route::target_of(url) {
            Some(target) => match metadata::request_of(
                engine.cache,
                target.media_type,
                target.id,
                target.season,
                target.episode,
            ) {
                Some(address) => (
                    EngineView {
                        phase: PhaseView::Fetching { url, playback, target },
                        ..refreshed
                    },
                    ActionView::Fetch { url: address },
                ),
                None => after_fetch(refreshed, shell, url, playback, target, None, clock),
            },
            None => after_lookup(
                EngineView { title: TitleView { url, ..no_title() }, ..refreshed },
                shell,
                playback,
                clock,
                url,
            ),
        }
    }
}

/// What follows once a title has been looked up, with the reply to the request
/// for it.
pub open spec fn after_fetch(
    engine: EngineView,
    shell: ShellView,
    url: Seq<char>,
    playback: Playback,
    target: TargetView,
    reply: Option<Seq<char>>,
    clock: Clock,
) -> (EngineView, ActionView) {
    let (info, cache) = metadata::looked_up(
        engine.cache,
        target.media_type,
        target.id,
        target.season,
        target.episode,
        reply,
    );
    after_lookup(
        EngineView { title: title_at(url, target, info), cache, ..engine },
        shell,
        playback,
        clock,
        url,
    )
}

/// Whether the thread is to end the connection: it has been told to, nobody is
/// left to tell it anything, or the presence is off.
pub open spec fn ends(shell: ShellView, event: EventView) -> bool {
    event == EventView::Received(Signal::Disable) || event is Closed || !shell.enabled
}

/// What the thread does next, and where it then stands, given what has happened
/// and what the shell knows.
pub open spec fn stepped(engine: EngineView, shell: ShellView, event: EventView) -> (
    EngineView,
    ActionView,
) {
    if event is Panicked {
        after_panic(engine)
    } else {
        match (engine.phase, event) {
            (PhaseView::Idle, EventView::Closed) => (
                EngineView { phase: PhaseView::Finished, ..engine },
                ActionView::Exit,
            ),
            (PhaseView::Idle, _) => if event == EventView::Received(Signal::Enable)
                || shell.enabled {
                (EngineView { phase: PhaseView::Loading, ..engine }, ActionView::LoadSettings)
            } else {
                (engine, ActionView::Await)
            },
            (PhaseView::Loading, EventView::Settings { file, clock }) => {
                let config = config::effective(config::config_of_file(file), shell);
                (
                    EngineView { phase: PhaseView::Connecting, config, ..engine },
                    ActionView::Open { app_id: config.app_id },
                )
            },
            (PhaseView::Connecting, EventView::Opened(ok)) => if ok {
                (
                    EngineView {
                        phase: PhaseView::Resting,
                        retry_count: 0,
                        title: no_title(),
                        ..engine
                    },
                    ActionView::Wait { secs: engine.config.refresh_interval },
                )
            } else {
                (EngineView { phase: PhaseView::Retrying, ..engine }, ActionView::Wait { secs: 5 })
            },
            (PhaseView::Retrying, _) => if ends(shell, event) {
                (
                    EngineView { phase: PhaseView::Idle, ..engine },
                    ActionView::End { clear: false },
                )
            } else {
                (EngineView { phase: PhaseView::Connecting, ..engine }, ActionView::Connect)
            },
            (PhaseView::Resting, _) => if ends(shell, event) {
                (EngineView { phase: PhaseView::Idle, ..engine }, ActionView::End { clear: true })
            } else {
                (EngineView { phase: PhaseView::Sampling, ..engine }, ActionView::LoadSettings)
            },
            (PhaseView::Sampling, EventView::Settings { file, clock }) => after_sample(
                engine,
                shell,
                file,
                clock,
            ),
            (
                PhaseView::Fetching { url, playback, target },
                EventView::Fetched { reply, clock },
            ) => after_fetch(engine, shell, url, playback, target, reply, clock),
            (PhaseView::Publishing, EventView::Published(ok)) => if ok {
                (
                    EngineView { phase: PhaseView::Resting, ..engine },
                    ActionView::Wait { secs: engine.config.refresh_interval },
                )
            } else {
                (
                    EngineView { phase: PhaseView::Connecting, ..engine },
                    ActionView::Reconnect,
                )
            },
            _ => (engine, ActionView::Exit),
        }
    }
}

fn back_off_secs(retry_count: u32) -> (secs: u64)
    ensures
        secs == back_off(retry_count),
{
    proof {
        lemma2_to64();
    }
    match retry_count {
        0 => 5,
        1 => 10,
        2 => 20,
        3 => 40,
        4 => 80,
        _ => 160,
    }
}

fn playback(shell: &Shell) -> (playback: Playback)
    ensures
        playback == playback_of(shell@),
{
    Playback {
        current_time: shell.current_time,
        total_duration: shell.total_duration,
        is_paused: shell.is_paused,
    }
}

fn current_config(file: &Option<String>, shell: &Shell) -> (config: Config)
    ensures
        config@ == config::effective(config::config_of_file(text::optional(*file)), shell@),
{
    let base = match file {
        Some(s) => config::load_or_create_config(Some(s.as_str())),
        None => config::load_or_create_config(None),
    };
    config::effective_config(&base, shell)
}

impl Title {
    /// No title.
    pub fn none() -> (title: Title)
        ensures
            title@ == no_title(),
    {
        Title {
            url: String::new(),
            info: None,
            media_type: String::new(),
            season: String::new(),
            episode: String::new(),
        }
    }
}

impl Engine {
    /// A thread that nothing has happened to. It awaits to be told something.
    pub fn new() -> (engine: Engine)
        ensures
            engine@ == initial(),
    {
        Engine {
            phase: Phase::Idle,
            retry_count: 0,
            config: Config::default(),
            title: Title::none(),
            cache: MetadataCache::new(),
        }
    }

    /// Whether an event can follow.
    pub fn expects(&self, event: &Event) -> (yes: bool)
        ensures
            yes == expected(self@.phase, event@),
    {
        match (&self.phase, event) {
            (Phase::Finished, _) => false,
            (Phase::Idle, Event::Received(_)) => true,
            (Phase::Idle, Event::Closed) => true,
            (_, Event::Panicked) => true,
            (Phase::Loading, Event::Settings { file, clock }) => true,
            (Phase::Connecting, Event::Opened(_)) => true,
            (Phase::Retrying, Event::Received(_)) => true,
            (Phase::Retrying, Event::TimedOut) => true,
            (Phase::Retrying, Event::Closed) => true,
            (Phase::Resting, Event::Received(_)) => true,
            (Phase::Resting, Event::TimedOut) => true,
            (Phase::Resting, Event::Closed) => true,
            (Phase::Sampling, Event::Settings { file, clock }) => true,
            (Phase::Fetching { url, playback, target }, Event::Fetched { reply, clock }) => true,
            (Phase::Publishing, Event::Published(_)) => true,
            _ => false,
        }
    }

    fn recover(&mut self) -> (action: Action)
        ensures
            (final(self)@, action@) == after_panic(old(self)@),
    {
        let secs: u64 = back_off_secs(self.retry_count);
        if self.retry_count < u32::MAX {
            self.retry_count = self.retry_count + 1;
        }
        self.phase = Phase::Idle;
        Action::BackOff { secs }
    }

    fn present(
        &mut self,
        shell: &Shell,
        playback: Playback,
        clock: Clock,
        url: &str,
    ) -> (action: Action)
        ensures
            (final(self)@, action@) == after_lookup(old(self)@, shell@, playback, clock, url@),
    {
        match show(&self.config, shell, &self.title, playback, clock, url) {
            Showing::Nothing => {
                self.phase = Phase::Publishing;
                Action::Clear
            },
            Showing::Shown(activity) => {
                self.phase = Phase::Publishing;
                Action::Publish(activity)
            },
            Showing::Unclocked => {
                self.phase = Phase::Connecting;
                Action::Reconnect
            },
            Showing::Overflown => self.recover(),
        }
    }

    fn look_up(
        &mut self,
        shell: &Shell,
        url: String,
        playback: Playback,
        target: Target,
        reply: Option<&str>,
        clock: Clock,
    ) -> (action: Action)
        ensures
            (final(self)@, action@) == after_fetch(
                old(self)@,
                shell@,
                url@,
                playback,
                target@,
                match reply {
                    Some(s) => Some(s@),
                    None => None,
                },
                clock,
            ),
    {
        let info = metadata::getvidinfo(
            &mut self.cache,
            target.media_type.as_str(),
            target.id.as_str(),
            target.season.as_str(),
            target.episode.as_str(),
            reply,
        );
        self.title = Title {
            url: url.clone(),
            info,
            media_type: target.media_type,
            season: target.season,
            episode: target.episode,
        };
        self.present(shell, playback, clock, url.as_str())
    }

    fn sample(&mut self, shell: &Shell, file: &Option<String>, clock: Clock) -> (action: Action)
        ensures
            (final(self)@, action@) == after_sample(
                old(self)@,
                shell@,
                text::optional(*file),
                clock,
            ),
    {
        self.config = current_config(file, shell);
        let url = shell.current_url.clone();
        let playback = playback(shell);
        let is_title = route::is_player_route(url.as_str()) || route::is_detail_route(
            url.as_str(),
        );
        if !is_title || text::same(url.as_str(), self.title.url.as_str()) {
            return self.present(shell, playback, clock, url.as_str());
        }
        match route::route_target(url.as_str()) {
            Some(target) => match metadata::metadata_request(
                &self.cache,
                target.media_type.as_str(),
                target.id.as_str(),
                target.season.as_str(),
                target.episode.as_str(),
            ) {
                Some(address) => {
                    self.phase = Phase::Fetching { url, playback, target };
                    Action::Fetch { url: address }
                },
                None => self.look_up(shell, url, playback, target, None, clock),
            },
            None => {
                self.title = Title { url: url.clone(), ..Title::none() };
                self.present(shell, playback, clock, url.as_str())
            },
        }
    }

    fn fetched(&mut self, shell: &Shell, reply: &Option<String>, clock: Clock) -> (action: Action)
        requires
            old(self)@.phase is Fetching,
        ensures
            ({
                let phase = old(self)@.phase;
                (final(self)@, action@) == after_fetch(
                    old(self)@,
                    shell@,
                    phase->url,
                    phase->playback,
                    phase->target,
                    text::optional(*reply),
                    clock,
                )
            }),
    {
        let mut phase = Phase::Idle;
        std::mem::swap(&mut phase, &mut self.phase);
        match phase {
            Phase::Fetching { url, playback, target } => {
                match reply {
                    Some(s) => self.look_up(
                        shell,
                        url,
                        playback,
                        target,
                        Some(s.as_str()),
                        clock,
                    ),
                    None => self.look_up(shell, url, playback, target, None, clock),
                }
            },
            _ => Action::Exit,
        }
    }
}

fn session_ends(shell: &Shell, event: &Event) -> (yes: bool)
    ensures
        yes == ends(shell@, event@),
{
    match event {
        Event::Received(Signal::Disable) => true,
        Event::Closed => true,
        _ => !shell.enabled,
    }
}

impl Engine {
    fn rest(&mut self) -> (action: Action)
        ensures
            final(self)@ == (EngineView { phase: PhaseView::Resting, ..old(self)@ }),
            action@ == (ActionView::Wait { secs: old(self)@.config.refresh_interval }),
    {
        self.phase = Phase::Resting;
        Action::Wait { secs: self.config.refresh_interval }
    }

    fn idle(&mut self, shell: &Shell, event: &Event) -> (action: Action)
        requires
            old(self)@.phase is Idle,
            expected(old(self)@.phase, event@),
            event@ !is Panicked,
        ensures
            (final(self)@, action@) == stepped(old(self)@, shell@, event@),
    {
        let told = match event {
            Event::Received(sig) => *sig,
            _ => {
                self.phase = Phase::Finished;
                return Action::Exit;
            },
        };
        if told == Signal::Enable || shell.enabled {
            self.phase = Phase::Loading;
            Action::LoadSettings
        } else {
            Action::Await
        }
    }

    /// What to do next, given what has happened and what the shell knows.
    pub fn step(&mut self, shell: &Shell, event: &Event) -> (action: Action)
        requires
            expected(old(self)@.phase, event@),
        ensures
            (final(self)@, action@) == stepped(old(self)@, shell@, event@),
    {
        if let Event::Panicked = event {
            return self.recover();
        }
        match (&self.phase, event) {
            (Phase::Idle, _) => self.idle(shell, event),
            (Phase::Loading, Event::Settings { file, clock }) => {
                self.config = current_config(file, shell);
                self.phase = Phase::Connecting;
                Action::Open { app_id: self.config.app_id.clone() }
            },
            (Phase::Connecting, Event::Opened(ok)) => {
                if *ok {
                    self.retry_count = 0;
                    self.title = Title::none();
                    self.rest()
                } else {
                    self.phase = Phase::Retrying;
                    Action::Wait { secs: 5 }
                }
            },
            (Phase::Retrying, _) => {
                if session_ends(shell, event) {
                    self.phase = Phase::Idle;
                    Action::End { clear: false }
                } else {
                    self.phase = Phase::Connecting;
                    Action::Connect
                }
            },
            (Phase::Resting, _) => {
                if session_ends(shell, event) {
                    self.phase = Phase::Idle;
                    Action::End { clear: true }
                } else {
                    self.phase = Phase::Sampling;
                    Action::LoadSettings
                }
            },
            (Phase::Sampling, Event::Settings { file, clock }) => self.sample(shell, file, *clock),
            (Phase::Fetching { url, playback, target }, Event::Fetched { reply, clock }) => {
                self.fetched(shell, reply, *clock)
            },
            (Phase::Publishing, Event::Published(ok)) => {
                if *ok {
                    self.rest()
                } else {
                    self.phase = Phase::Connecting;
                    Action::Reconnect
                }
            },
            _ => Action::Exit,
        }
    }
}

/// Whether the settings are in their ranges and the remembered answers are not
/// too many.
pub open spec fn well_formed(engine: EngineView) -> bool {
    &&& engine.config.well_formed()
    &&& engine.cache.dom().finite()
    &&& engine.cache.len() <= 257
}

/// Whether what is done next is within its limits.
pub open spec fn within_limits(action: ActionView) -> bool {
    match action {
        ActionView::Wait { secs } => 1 <= secs <= 60,
        ActionView::BackOff { secs } => 5 <= secs <= 160,
        ActionView::Open { app_id } => app_id.len() > 0,
        ActionView::Publish(a) => a.buttons.len() <= 2 && a.state.len() > 0,
        _ => true,
    }
}

proof fn lemma_back_off(retry_count: u32)
    ensures
        5 <= back_off(retry_count) <= 160,
        retry_count < 5 ==> back_off((retry_count + 1) as u32) == 2 * back_off(retry_count),
        retry_count >= 5 ==> back_off(retry_count) == 160,
        back_off(0) == 5,
{
    lemma2_to64();
}

proof fn lemma_shown_within_limits(
    engine: EngineView,
    shell: ShellView,
    playback: Playback,
    clock: Clock,
    url: Seq<char>,
)
    requires
        well_formed(engine),
    ensures
        well_formed(after_lookup(engine, shell, playback, clock, url).0),
        within_limits(after_lookup(engine, shell, playback, clock, url).1),
{
    lemma_back_off(engine.retry_count);
    let info = engine.title.info->0;
    let title = engine.title;
    activity::law_at_most_two_buttons(
        engine.config,
        shell::lobby_of(shell),
        info,
        title.media_type,
        title.season,
        title.episode,
        playback,
        clock,
        url,
    );
    activity::law_state_is_never_empty(
        engine.config,
        shell::lobby_of(shell),
        info,
        title.media_type,
        title.season,
        title.episode,
        playback,
        clock,
        url,
    );
}

proof fn lemma_fetched_within_limits(
    engine: EngineView,
    shell: ShellView,
    url: Seq<char>,
    playback: Playback,
    target: TargetView,
    reply: Option<Seq<char>>,
    clock: Clock,
)
    requires
        well_formed(engine),
    ensures
        well_formed(after_fetch(engine, shell, url, playback, target, reply, clock).0),
        within_limits(after_fetch(engine, shell, url, playback, target, reply, clock).1),
{
    let (info, cache) = metadata::looked_up(
        engine.cache,
        target.media_type,
        target.id,
        target.season,
        target.episode,
        reply,
    );
    metadata::law_memory_is_bounded(
        engine.cache,
        target.media_type,
        target.id,
        target.season,
        target.episode,
        reply,
    );
    lemma_shown_within_limits(
        EngineView { title: title_at(url, target, info), cache, ..engine },
        shell,
        playback,
        clock,
        url,
    );
}

/// Whatever happens, the settings stay in their ranges and the remembered
/// answers do not become too many; a refresh is waited for one to sixty seconds,
/// a panic is slept over for 5 to 160 seconds, a connection is opened for some
/// application, and what is published has two buttons at most and a second line.
pub proof fn law_steps_stay_within_limits(engine: EngineView, shell: ShellView, event: EventView)
    requires
        well_formed(engine),
        expected(engine.phase, event),
    ensures
        well_formed(stepped(engine, shell, event).0),
        within_limits(stepped(engine, shell, event).1),
{
    lemma_back_off(engine.retry_count);
    if let EventView::Settings { file, clock } = event {
        config::law_settings_in_range(file);
        let base = config::config_of_file(file);
        config::law_settings_page_only_restricts(base, shell);
        let refreshed = EngineView { config: config::effective(base, shell), ..engine };
        let url = shell.current_url;
        let playback = playback_of(shell);
        lemma_shown_within_limits(refreshed, shell, playback, clock, url);
        lemma_shown_within_limits(
            EngineView { title: TitleView { url, ..no_title() }, ..refreshed },
            shell,
            playback,
            clock,
            url,
        );
        if let Some(target) = route::target_of(url) {
            lemma_fetched_within_limits(refreshed, shell, url, playback, target, None, clock);
        }
    }
    if let EventView::Fetched { reply, clock } = event {
        if let PhaseView::Fetching { url, playback, target } = engine.phase {
            lemma_fetched_within_limits(engine, shell, url, playback, target, reply, clock);
        }
    }
}

/// What has happened, each time with what the shell knew then.
pub open spec fn ran(engine: EngineView, history: Seq<(ShellView, EventView)>) -> (
    EngineView,
    Seq<ActionView>,
)
    decreases history.len(),
{
    if history.len() == 0 {
        (engine, Seq::empty())
    } else {
        let (before, actions) = ran(engine, history.drop_last());
        let (after, action) = stepped(before, history.last().0, history.last().1);
        (after, actions.push(action))
    }
}

/// Whether each event of a history could follow what came before it.
pub open spec fn possible(engine: EngineView, history: Seq<(ShellView, EventView)>) -> bool
    decreases history.len(),
{
    history.len() > 0 ==> possible(engine, history.drop_last()) && expected(
        ran(engine, history.drop_last()).0.phase,
        history.last().1,
    )
}

/// All that a thread ever does is within its limits.
pub proof fn law_runs_stay_within_limits(history: Seq<(ShellView, EventView)>)
    requires
        possible(initial(), history),
    ensures
        well_formed(ran(initial(), history).0),
        forall|i: int|
            0 <= i < ran(initial(), history).1.len() ==> within_limits(
                #[trigger] ran(initial(), history).1[i],
            ),
    decreases history.len(),
{
    if history.len() == 0 {
        config::law_settings_in_range(None);
    } else {
        law_runs_stay_within_limits(history.drop_last());
        law_steps_stay_within_limits(
            ran(initial(), history.drop_last()).0,
            history.last().0,
            history.last().1,
        );
    }
}

/// A thread without a connection does not connect before it is told that the
/// presence is on, or told anything while it is on. Until then it waits, sleeps
/// over panics, or ends.
pub proof fn law_disconnected_until_asked(
    engine: EngineView,
    history: Seq<(ShellView, EventView)>,
)
    requires
        engine.phase is Idle,
        possible(engine, history),
        forall|i: int|
            0 <= i < history.len() ==> !((#[trigger] history[i]).1 is Received
                && history[i].0.enabled) && history[i].1 != EventView::Received(Signal::Enable),
    ensures
        forall|i: int|
            0 <= i < ran(engine, history).1.len() ==> (#[trigger] ran(
                engine,
                history,
            ).1[i]) is Await || ran(engine, history).1[i] is BackOff || ran(engine, history).1[i]
                is Exit,
        ran(engine, history).0.phase is Idle || ran(engine, history).0.phase is Finished,
    decreases history.len(),
{
    if history.len() > 0 {
        let earlier = history.drop_last();
        assert forall|i: int| 0 <= i < earlier.len() implies !((#[trigger] earlier[i]).1 is Received
            && earlier[i].0.enabled) && earlier[i].1 != EventView::Received(Signal::Enable) by {
            assert(earlier[i] == history[i]);
        }
        law_disconnected_until_asked(engine, earlier);
        assert(history.last() == history[history.len() - 1]);
    }
}

/// Told that the presence is on, a thread without a connection opens one, for
/// the application that the settings name.
pub proof fn law_switching_on_connects(
    engine: EngineView,
    shell: ShellView,
    later: ShellView,
    file: Option<Seq<char>>,
    clock: Clock,
)
    requires
        engine.phase is Idle,
    ensures
        ({
            let (loading, first) = stepped(engine, shell, EventView::Received(Signal::Enable));
            let (connecting, second) = stepped(
                loading,
                later,
                EventView::Settings { file, clock },
            );
            &&& first == ActionView::LoadSettings
            &&& second == (ActionView::Open {
                app_id: config::effective(config::config_of_file(file), later).app_id,
            })
            &&& connecting.phase is Connecting
        }),
{
}

/// Once the presence is switched off, or nobody is left to tell anything, the
/// activity is taken back and the connection closed, at the latest when the next
/// refresh is due; no try to connect follows either.
pub proof fn law_switching_off_disconnects(engine: EngineView, shell: ShellView, event: EventView)
    requires
        expected(engine.phase, event),
        event !is Panicked,
        event == EventView::Received(Signal::Disable) || event is Closed || !shell.enabled,
    ensures
        engine.phase is Resting ==> stepped(engine, shell, event) == (
            EngineView { phase: PhaseView::Idle, ..engine },
            ActionView::End { clear: true },
        ),
        engine.phase is Retrying ==> stepped(engine, shell, event) == (
            EngineView { phase: PhaseView::Idle, ..engine },
            ActionView::End { clear: false },
        ),
{
}

/// After each panic the sleep is twice as long as before, until it is 160
/// seconds; once a connection has been opened it is five seconds again.
pub proof fn law_back_off_doubles(engine: EngineView, shell: ShellView)
    requires
        expected(engine.phase, EventView::Panicked),
    ensures
        ({
            let (after, action) = stepped(engine, shell, EventView::Panicked);
            &&& after.phase is Idle
            &&& action == (ActionView::BackOff { secs: back_off(engine.retry_count) })
            &&& engine.retry_count < 5 ==> back_off(after.retry_count) == 2 * back_off(
                engine.retry_count,
            )
            &&& engine.retry_count >= 5 ==> back_off(engine.retry_count) == 160 && back_off(
                after.retry_count,
            ) == 160
        }),
        engine.phase is Connecting ==> back_off(
            stepped(engine, shell, EventView::Opened(true)).0.retry_count,
        ) == 5,
{
    lemma_back_off(engine.retry_count);
    lemma_back_off(stepped(engine, shell, EventView::Panicked).0.retry_count);
}

/// Changes of the settings file, and of the settings page, apply on the next
/// refresh, and so does the time until the one after it.
pub proof fn law_changes_apply_on_next_refresh(
    engine: EngineView,
    shell: ShellView,
    later: ShellView,
    file: Option<Seq<char>>,
    clock: Clock,
)
    requires
        engine.phase is Sampling,
    ensures
        ({
            let config = config::effective(config::config_of_file(file), shell);
            let (after, action) = stepped(engine, shell, EventView::Settings { file, clock });
            &&& after.config == config
            &&& after.phase is Publishing ==> stepped(after, later, EventView::Published(true)).1
                == (ActionView::Wait { secs: config.refresh_interval })
        }),
{
}

proof fn lemma_kept_title_is_not_asked_for(
    engine: EngineView,
    history: Seq<(ShellView, EventView)>,
)
    requires
        possible(engine, history),
        engine.phase !is Fetching,
        forall|i: int|
            0 <= i < history.len() ==> ((#[trigger] history[i]).0.current_url == engine.title.url
                || !title_route(history[i].0.current_url)) && history[i].1 != EventView::Opened(
                true,
            ),
    ensures
        ran(engine, history).0.title == engine.title,
        ran(engine, history).0.phase !is Fetching,
        forall|i: int|
            0 <= i < ran(engine, history).1.len() ==> (#[trigger] ran(engine, history).1[i])
                !is Fetch,
    decreases history.len(),
{
    if history.len() > 0 {
        let earlier = history.drop_last();
        assert forall|i: int| 0 <= i < earlier.len() implies ((#[trigger] earlier[i]).0.current_url
            == engine.title.url || !title_route(earlier[i].0.current_url)) && earlier[i].1
            != EventView::Opened(true) by {
            assert(earlier[i] == history[i]);
        }
        lemma_kept_title_is_not_asked_for(engine, earlier);
        assert(history.last() == history[history.len() - 1]);
    }
}

/// Once a title has been asked for, whatever the reply was, nothing is asked
/// for while the route stays, or leads to pages that are about no title and
/// back, and the connection is not opened anew.
pub proof fn law_route_is_asked_for_once(
    asked: EngineView,
    shell: ShellView,
    reply: Option<Seq<char>>,
    clock: Clock,
    history: Seq<(ShellView, EventView)>,
)
    requires
        asked.phase is Fetching,
        possible(stepped(asked, shell, EventView::Fetched { reply, clock }).0, history),
        forall|i: int|
            0 <= i < history.len() ==> ((#[trigger] history[i]).0.current_url == asked.phase->url
                || !title_route(history[i].0.current_url)) && history[i].1 != EventView::Opened(
                true,
            ),
    ensures
        ({
            let known = stepped(asked, shell, EventView::Fetched { reply, clock }).0;
            forall|i: int|
                0 <= i < ran(known, history).1.len() ==> (#[trigger] ran(known, history).1[i])
                    !is Fetch
        }),
{
    lemma_kept_title_is_not_asked_for(
        stepped(asked, shell, EventView::Fetched { reply, clock }).0,
        history,
    );
}

/// A title of which no answer is remembered is asked for when the route changes
/// to it. So one of which nothing could be learned is asked for again when the
/// route comes back to it.
pub proof fn law_new_title_is_asked_for(
    engine: EngineView,
    shell: ShellView,
    target: TargetView,
    file: Option<Seq<char>>,
    clock: Clock,
)
    requires
        engine.phase is Sampling,
        title_route(shell.current_url),
        shell.current_url != engine.title.url,
        route::target_of(shell.current_url) == Some(target),
        metadata::askable(target.media_type, target.id),
        !engine.cache.dom().contains(
            metadata::key_of(target.media_type, target.id, target.season, target.episode),
        ),
    ensures
        stepped(engine, shell, EventView::Settings { file, clock }).1 == (ActionView::Fetch {
            url: metadata::url_of(target.media_type, target.id),
        }),
{
}

/// The presence does not go dark: where neither pauses nor menus are hidden,
/// a refresh publishes something, if need be once a title has been asked for.
pub proof fn law_refresh_shows_something(
    engine: EngineView,
    shell: ShellView,
    file: Option<Seq<char>>,
    clock: Clock,
)
    requires
        engine.phase is Sampling,
        shows_all(
            config::effective(config::config_of_file(file), shell),
            playback_of(shell),
            clock,
        ),
    ensures
        ({
            let action = stepped(engine, shell, EventView::Settings { file, clock }).1;
            action is Publish || action is Fetch
        }),
{
}

/// The presence does not go dark once a title has been asked for either,
/// whatever the reply is.
pub proof fn law_any_reply_shows_something(
    engine: EngineView,
    shell: ShellView,
    reply: Option<Seq<char>>,
    clock: Clock,
)
    requires
        engine.phase is Fetching,
        shows_all(engine.config, engine.phase->playback, clock),
    ensures
        stepped(engine, shell, EventView::Fetched { reply, clock }).1 is Publish,
{
}

/// Whether nothing is hidden, and the times that activities need can be had.
pub open spec fn shows_all(config: ConfigView, playback: Playback, clock: Clock) -> bool {
    &&& !config.disable_in_menu
    &&& !config.disable_when_paused
    &&& clock.now is Some
    &&& clock.app_start is Some
    &&& activity::times_fit(config, playback, clock)
}

/// A title of which nothing could be learned is shown as any other page, or not
/// at all where menus are hidden.
pub proof fn law_unknown_title_shows_as_page(
    engine: EngineView,
    shell: ShellView,
    reply: Option<Seq<char>>,
    clock: Clock,
)
    requires
        engine.phase is Fetching,
        clock.app_start is Some,
        ({
            let t = engine.phase->target;
            metadata::looked_up(
                engine.cache,
                t.media_type,
                t.id,
                t.season,
                t.episode,
                reply,
            ).0 is None
        }),
    ensures
        ({
            let action = stepped(engine, shell, EventView::Fetched { reply, clock }).1;
            &&& engine.config.disable_in_menu ==> action == ActionView::Clear
            &&& !engine.config.disable_in_menu ==> action == ActionView::Publish(
                activity::menu_activity(engine.phase->url, clock)->Ok_0,
            )
        }),
{
}

/// What the settings hide is taken back at the next refresh: a title that is
/// paused, and pages that are about no title.
pub proof fn law_hidden_is_taken_back(
    engine: EngineView,
    shell: ShellView,
    file: Option<Seq<char>>,
    clock: Clock,
)
    requires
        engine.phase is Sampling,
    ensures
        ({
            let config = config::effective(config::config_of_file(file), shell);
            let action = stepped(engine, shell, EventView::Settings { file, clock }).1;
            &&& config.disable_in_menu && !title_route(shell.current_url) ==> action
                == ActionView::Clear
            &&& config.disable_when_paused && shell.is_paused && route::player_route(
                shell.current_url,
            ) && shell.current_url == engine.title.url && engine.title.info is Some ==> action
                == ActionView::Clear
        }),
{
}

/// Where an activity cannot be sent, the connection is opened anew.
pub proof fn law_failed_update_reconnects(engine: EngineView, shell: ShellView)
    requires
        engine.phase is Publishing,
    ensures
        stepped(engine, shell, EventView::Published(false)) == (
            EngineView { phase: PhaseView::Connecting, ..engine },
            ActionView::Reconnect,
        ),
{
}

/// Whether playback with these settings is shown at this time: it is not hidden,
/// and its times can be told and counted.
pub open spec fn is_shown(config: ConfigView, playback: Playback, clock: Clock) -> bool {
    &&& clock.now is Some
    &&& !(config.disable_when_paused && playback.is_paused)
    &&& activity::times_fit(config, playback, clock)
}

/// An episode that is played is shown by its season and number: where the route
/// of the player ends in the encoded id of the series, the season and the
/// episode, the title is asked for, and once the reply tells anything of it, an
/// activity is published whose second line names that season and that episode.
/// The same holds of each later refresh while the route stays.
pub proof fn law_played_episode_is_shown(
    engine: EngineView,
    shell: ShellView,
    then: ShellView,
    later: EngineView,
    later_shell: ShellView,
    route: Seq<char>,
    id: Seq<char>,
    season: Seq<char>,
    episode: Seq<char>,
    file: Option<Seq<char>>,
    clock: Clock,
    reply: Option<Seq<char>>,
    then_clock: Clock,
)
    requires
        engine.phase is Sampling,
        text::lacks(id, ":"@),
        text::lacks(season, ":"@),
        text::lacks(episode, ":"@),
        id.len() > 0,
        id != "kitsu"@,
        shell.current_url == route + "/"@ + percent::url_encoded(
            id + ":"@ + season + ":"@ + episode,
        ),
        route::player_route(shell.current_url),
        shell.current_url != engine.title.url,
        !engine.cache.dom().contains(metadata::key_of("series"@, id, season, episode)),
        metadata::info_of_reply(reply, "series"@, id, season, episode) is Some,
    ensures
        ({
            let info = metadata::info_of_reply(reply, "series"@, id, season, episode)->0;
            let (asked, first) = stepped(engine, shell, EventView::Settings { file, clock });
            let (known, second) = stepped(
                asked,
                then,
                EventView::Fetched { reply, clock: then_clock },
            );
            let playback = Playback {
                current_time: shell.current_time,
                total_duration: shell.total_duration,
                is_paused: shell.is_paused,
            };
            &&& first == (ActionView::Fetch { url: metadata::url_of("series"@, id) })
            &&& is_shown(asked.config, playback, then_clock) ==> (second matches ActionView::Publish(
                a,
            ) && shows_episode(a, asked.config, info, season, episode, shell::lobby_of(then)))
            &&& later.phase is Sampling && later.title == known.title && later_shell.current_url
                == shell.current_url ==> {
                let (after, third) = stepped(
                    later,
                    later_shell,
                    EventView::Settings { file, clock },
                );
                let playback = Playback {
                    current_time: later_shell.current_time,
                    total_duration: later_shell.total_duration,
                    is_paused: later_shell.is_paused,
                };
                is_shown(after.config, playback, clock) ==> (third matches ActionView::Publish(a)
                    && shows_episode(
                    a,
                    after.config,
                    info,
                    season,
                    episode,
                    shell::lobby_of(later_shell),
                ))
            }
        }),
{
    reveal_strlit("series");
    reveal_strlit("unknown");
    assert("series"@.len() != "unknown"@.len());
    let url = shell.current_url;
    route::law_player_route_names_episode(route, id, season, episode, url);
    let (asked, first) = stepped(engine, shell, EventView::Settings { file, clock });
    let (known, second) = stepped(asked, then, EventView::Fetched { reply, clock: then_clock });
    let info = metadata::info_of_reply(reply, "series"@, id, season, episode)->0;
    activity::law_state_of_what_is_played(
        asked.config,
        shell::lobby_of(then),
        info,
        "series"@,
        season,
        episode,
        playback_of(shell),
        then_clock,
        url,
    );
    let (after, third) = stepped(later, later_shell, EventView::Settings { file, clock });
    activity::law_state_of_what_is_played(
        after.config,
        shell::lobby_of(later_shell),
        info,
        "series"@,
        season,
        episode,
        playback_of(later_shell),
        clock,
        url,
    );
}

/// Whether an activity names an episode: the series and the episode in its name
/// and first line, and the numbers of season and episode in the second, alone
/// where nobody else watches along.
pub open spec fn shows_episode(
    activity: ActivityView,
    config: ConfigView,
    info: VideoInfoView,
    season: Seq<char>,
    episode: Seq<char>,
    lobby: Option<shell::LobbyView>,
) -> bool {
    &&& lobby is None || lobby->0.member_count <= 1 ==> activity.state == "S"@ + season + "E"@
        + episode
    &&& lobby matches Some(l) ==> l.member_count > 1 ==> activity.state == "S"@ + season + "E"@
        + episode + " • "@ + l.others()->0
    &&& !config.swap_name_and_title ==> activity.name == info.name && activity.details
        == info.epname
    &&& config.swap_name_and_title ==> activity.name == info.epname && activity.details
        == info.name
}

/// What a refresh goes by: the settings of the file and the page, and the route
/// and playback that the shell knows. A title that has to be asked for is waited
/// for with just these, and nothing else of the thread changes.
pub proof fn law_refresh_goes_by_shell(
    engine: EngineView,
    shell: ShellView,
    target: TargetView,
    file: Option<Seq<char>>,
    clock: Clock,
)
    requires
        engine.phase is Sampling,
    ensures
        ({
            let (after, action) = stepped(engine, shell, EventView::Settings { file, clock });
            &&& after.config == config::effective(config::config_of_file(file), shell)
            &&& action is Fetch <==> after.phase is Fetching
            &&& action is Fetch && route::target_of(shell.current_url) == Some(target) ==> after
                == (EngineView {
                phase: PhaseView::Fetching {
                    url: shell.current_url,
                    playback: Playback {
                        current_time: shell.current_time,
                        total_duration: shell.total_duration,
                        is_paused: shell.is_paused,
                    },
                    target,
                },
                config: after.config,
                ..engine
            })
            &&& action is Fetch ==> title_route(shell.current_url) && shell.current_url
                != engine.title.url && route::target_of(shell.current_url) is Some
        }),
{
}

/// A title that was looked up is kept with the route and what the route names,
/// and shown: on the route of the player as played, by the playback that was
/// known at the refresh, and on the page about it as looked at, in either case
/// with the watch party of the moment.
pub proof fn law_looked_up_title_is_shown(
    engine: EngineView,
    shell: ShellView,
    url: Seq<char>,
    playback: Playback,
    target: TargetView,
    reply: Option<Seq<char>>,
    clock: Clock,
    info: VideoInfoView,
)
    requires
        engine.phase == (PhaseView::Fetching { url, playback, target }),
        metadata::looked_up(
            engine.cache,
            target.media_type,
            target.id,
            target.season,
            target.episode,
            reply,
        ).0 == Some(info),
        clock.app_start is Some,
    ensures
        ({
            let (after, action) = stepped(engine, shell, EventView::Fetched { reply, clock });
            &&& after.title == (TitleView {
                url,
                info: Some(info),
                media_type: target.media_type,
                season: target.season,
                episode: target.episode,
            })
            &&& after.config == engine.config
            &&& after.cache == metadata::looked_up(
                engine.cache,
                target.media_type,
                target.id,
                target.season,
                target.episode,
                reply,
            ).1
            &&& route::player_route(url) && is_shown(engine.config, playback, clock) ==> action
                == ActionView::Publish(
                activity::player_activity(
                    engine.config,
                    shell::lobby_of(shell),
                    info,
                    target.media_type,
                    target.season,
                    target.episode,
                    playback,
                    clock,
                    url,
                )->Ok_0,
            )
            &&& route::player_route(url) && engine.config.disable_when_paused && playback.is_paused
                ==> action == ActionView::Clear
            &&& !route::player_route(url) && route::detail_route(url) ==> action
                == ActionView::Publish(
                activity::detail_activity(
                    engine.config,
                    shell::lobby_of(shell),
                    info,
                    target.media_type,
                    clock,
                    url,
                )->Ok_0,
            )
        }),
{
}

/// While the route stays, each refresh shows the title that is known, by the
/// playback and the watch party of the moment; a route about no title shows its
/// page. The title that is kept does not change.
pub proof fn law_refresh_shows_known_title(
    engine: EngineView,
    shell: ShellView,
    file: Option<Seq<char>>,
    clock: Clock,
)
    requires
        engine.phase is Sampling,
        clock.app_start is Some,
    ensures
        ({
            let (after, action) = stepped(engine, shell, EventView::Settings { file, clock });
            let config = config::effective(config::config_of_file(file), shell);
            let url = shell.current_url;
            let title = engine.title;
            let playback = Playback {
                current_time: shell.current_time,
                total_duration: shell.total_duration,
                is_paused: shell.is_paused,
            };
            &&& url == title.url || !title_route(url) ==> after.title == title && after.cache
                == engine.cache
            &&& url == title.url && title.info is Some && route::player_route(url) && is_shown(
                config,
                playback,
                clock,
            ) ==> action == ActionView::Publish(
                activity::player_activity(
                    config,
                    shell::lobby_of(shell),
                    title.info->0,
                    title.media_type,
                    title.season,
                    title.episode,
                    playback,
                    clock,
                    url,
                )->Ok_0,
            )
            &&& url == title.url && title.info is Some && !route::player_route(url)
                && route::detail_route(url) ==> action == ActionView::Publish(
                activity::detail_activity(
                    config,
                    shell::lobby_of(shell),
                    title.info->0,
                    title.media_type,
                    clock,
                    url,
                )->Ok_0,
            )
            &&& (url == title.url && title.info is None || !title_route(url))
                && !config.disable_in_menu ==> action == ActionView::Publish(
                activity::menu_activity(url, clock)->Ok_0,
            )
            &&& (url == title.url && title.info is None || !title_route(url))
                && config.disable_in_menu ==> action == ActionView::Clear
        }),
{
}

/// A new route whose title is remembered, cannot be asked for or is not named is
/// looked up at once: the title that is remembered is shown, and one that is not
/// known is shown as a page.
pub proof fn law_remembered_title_is_shown_at_once(
    engine: EngineView,
    shell: ShellView,
    file: Option<Seq<char>>,
    clock: Clock,
)
    requires
        engine.phase is Sampling,
        clock.app_start is Some,
        title_route(shell.current_url),
        shell.current_url != engine.title.url,
    ensures
        ({
            let (after, action) = stepped(engine, shell, EventView::Settings { file, clock });
            let config = config::effective(config::config_of_file(file), shell);
            let url = shell.current_url;
            let playback = Playback {
                current_time: shell.current_time,
                total_duration: shell.total_duration,
                is_paused: shell.is_paused,
            };
            &&& route::target_of(url) matches Some(t) ==> {
                let key = metadata::key_of(t.media_type, t.id, t.season, t.episode);
                let held = metadata::askable(t.media_type, t.id) && engine.cache.dom().contains(
                    key,
                );
                &&& held ==> after.title == (TitleView {
                    url,
                    info: Some(engine.cache[key]),
                    media_type: t.media_type,
                    season: t.season,
                    episode: t.episode,
                }) && after.cache == engine.cache
                &&& held && route::player_route(url) && is_shown(config, playback, clock) ==> action
                    == ActionView::Publish(
                    activity::player_activity(
                        config,
                        shell::lobby_of(shell),
                        engine.cache[key],
                        t.media_type,
                        t.season,
                        t.episode,
                        playback,
                        clock,
                        url,
                    )->Ok_0,
                )
                &&& held && !route::player_route(url) ==> action == ActionView::Publish(
                    activity::detail_activity(
                        config,
                        shell::lobby_of(shell),
                        engine.cache[key],
                        t.media_type,
                        clock,
                        url,
                    )->Ok_0,
                )
                &&& !metadata::askable(t.media_type, t.id) ==> after.title.url == url
                    && after.title.info is None
            }
            &&& route::target_of(url) is None ==> after.title.url == url && after.title.info is None
            &&& (route::target_of(url) is None || !metadata::askable(
                route::target_of(url)->0.media_type,
                route::target_of(url)->0.id,
            )) ==> action == (if config.disable_in_menu {
                ActionView::Clear
            } else {
                ActionView::Publish(activity::menu_activity(url, clock)->Ok_0)
            })
        }),
{
}

/// The life of a connection, step by step: it is opened when the thread is told
/// to, with the settings of that moment; waited with, for as long as the settings
/// say, and then refreshed, unless the thread is told to end it; and tried again
/// after five seconds where it cannot be opened. Opened, it starts without a
/// title and without panics to its name. At each step nothing else changes.
pub proof fn law_connection_is_kept(
    engine: EngineView,
    shell: ShellView,
    sig: Signal,
    file: Option<Seq<char>>,
    clock: Clock,
)
    ensures
        engine.phase is Idle ==> {
            &&& stepped(engine, shell, EventView::Received(sig)) == (if sig == Signal::Enable
                || shell.enabled {
                (
                    EngineView { phase: PhaseView::Loading, ..engine },
                    ActionView::LoadSettings,
                )
            } else {
                (engine, ActionView::Await)
            })
            &&& stepped(engine, shell, EventView::Closed) == (
                EngineView { phase: PhaseView::Finished, ..engine },
                ActionView::Exit,
            )
        },
        engine.phase is Loading ==> {
            let config = config::effective(config::config_of_file(file), shell);
            stepped(engine, shell, EventView::Settings { file, clock }) == (
                EngineView { phase: PhaseView::Connecting, config, ..engine },
                ActionView::Open { app_id: config.app_id },
            )
        },
        engine.phase is Connecting ==> {
            &&& stepped(engine, shell, EventView::Opened(true)) == (
                EngineView {
                    phase: PhaseView::Resting,
                    retry_count: 0,
                    title: TitleView {
                        url: Seq::empty(),
                        info: None,
                        media_type: Seq::empty(),
                        season: Seq::empty(),
                        episode: Seq::empty(),
                    },
                    ..engine
                },
                ActionView::Wait { secs: engine.config.refresh_interval },
            )
            &&& stepped(engine, shell, EventView::Opened(false)) == (
                EngineView { phase: PhaseView::Retrying, ..engine },
                ActionView::Wait { secs: 5 },
            )
        },
        engine.phase is Retrying && shell.enabled ==> {
            let again = (
                EngineView { phase: PhaseView::Connecting, ..engine },
                ActionView::Connect,
            );
            &&& stepped(engine, shell, EventView::TimedOut) == again
            &&& sig != Signal::Disable ==> stepped(engine, shell, EventView::Received(sig))
                == again
        },
        engine.phase is Resting && shell.enabled ==> {
            let refresh = (
                EngineView { phase: PhaseView::Sampling, ..engine },
                ActionView::LoadSettings,
            );
            &&& stepped(engine, shell, EventView::TimedOut) == refresh
            &&& sig != Signal::Disable ==> stepped(engine, shell, EventView::Received(sig))
                == refresh
        },
        engine.phase is Publishing ==> stepped(engine, shell, EventView::Published(true)) == (
            EngineView { phase: PhaseView::Resting, ..engine },
            ActionView::Wait { secs: engine.config.refresh_interval },
        ),
{
}

/// A panic, and times that are out of all range, leave the thread without a
/// connection and one more panic to its name; nothing else changes. A clock
/// before 1970 has the connection opened anew.
pub proof fn law_panics_are_counted(engine: EngineView, shell: ShellView, what: ShowingView)
    ensures
        ({
            let (after, action) = stepped(engine, shell, EventView::Panicked);
            &&& after == (EngineView {
                phase: PhaseView::Idle,
                retry_count: after.retry_count,
                ..engine
            })
            &&& engine.retry_count < u32::MAX ==> after.retry_count == engine.retry_count + 1
            &&& engine.retry_count == u32::MAX ==> after.retry_count == u32::MAX
            &&& after_showing(engine, ShowingView::Overflown) == (after, action)
        }),
        after_showing(engine, ShowingView::Unclocked) == (
            EngineView { phase: PhaseView::Connecting, ..engine },
            ActionView::Reconnect,
        ),
{
}

/// A shown title tells where the player is: the time since the begin that is
/// published is the position that the shell knew at the refresh, and the time
/// from begin to end the length.
pub proof fn law_published_times_are_those_of_shell(
    engine: EngineView,
    shell: ShellView,
    file: Option<Seq<char>>,
    clock: Clock,
)
    requires
        engine.phase is Sampling,
        clock.now is Some,
        route::player_route(shell.current_url),
        shell.current_url == engine.title.url,
        engine.title.info is Some,
        !shell.is_paused,
        activity::times_fit(
            config::effective(config::config_of_file(file), shell),
            playback_of(shell),
            clock,
        ),
    ensures
        stepped(engine, shell, EventView::Settings { file, clock }).1 matches ActionView::Publish(a)
            && {
            &&& clock.now->0 - a.start == shell.current_time.whole()
            &&& shell.total_duration.above_zero() ==> a.end == Some(
                a.start + shell.total_duration.whole(),
            )
            &&& !shell.total_duration.above_zero() ==> a.end is None
        },
{
}

/// A thread that nothing has happened to has no connection, no title, no answers
/// and no panics to its name.
pub proof fn law_nothing_has_happened_yet()
    ensures
        initial().phase is Idle,
        initial().retry_count == 0,
        initial().title.url.len() == 0,
        initial().title.info is None,
        initial().cache.dom() == Set::<Seq<char>>::empty(),
        initial().config == config::default_config(),
{
    assert(initial().cache.dom() =~= Set::<Seq<char>>::empty());
}

/// The routes that name a title are those of the player and of the page about
/// one.
pub proof fn law_title_routes(before: Seq<char>, after: Seq<char>, url: Seq<char>)
    ensures
        title_route(before + "/player/"@ + after),
        title_route(before + "/detail/"@ + after),
        !route::player_route(url) && !route::detail_route(url) ==> !title_route(url),
{
    route::law_routes_are_told_apart(before, after, url);
}

/// What can follow where the thread stands: what it waits for, or a panic; and
/// nothing once it has ended.
pub proof fn law_events_that_can_follow(phase: PhaseView, event: EventView)
    ensures
        phase is Finished ==> !expected(phase, event),
        phase !is Finished && event is Panicked ==> expected(phase, event),
        event is Received ==> (expected(phase, event) <==> phase is Idle || phase is Retrying
            || phase is Resting),
        event is Closed ==> (expected(phase, event) <==> phase is Idle || phase is Retrying
            || phase is Resting),
        event is TimedOut ==> (expected(phase, event) <==> phase is Retrying || phase is Resting),
        event is Settings ==> (expected(phase, event) <==> phase is Loading || phase is Sampling),
        event is Opened ==> (expected(phase, event) <==> phase is Connecting),
        event is Fetched ==> (expected(phase, event) <==> phase is Fetching),
        event is Published ==> (expected(phase, event) <==> phase is Publishing),
{
}

/// Where the time cannot be told that an activity needs, the connection is opened
/// anew; where its times cannot be counted, that is slept over like a panic.
pub proof fn law_time_that_cannot_be_told(
    engine: EngineView,
    shell: ShellView,
    file: Option<Seq<char>>,
    clock: Clock,
)
    requires
        engine.phase is Sampling,
        shell.current_url == engine.title.url || !title_route(shell.current_url),
    ensures
        ({
            let (after, action) = stepped(engine, shell, EventView::Settings { file, clock });
            let config = config::effective(config::config_of_file(file), shell);
            let playback = Playback {
                current_time: shell.current_time,
                total_duration: shell.total_duration,
                is_paused: shell.is_paused,
            };
            let known = title_route(shell.current_url) && engine.title.info is Some;
            let played = known && route::player_route(shell.current_url) && !(
            config.disable_when_paused && shell.is_paused);
            &&& played && clock.now is None ==> action == ActionView::Reconnect && after.phase
                is Connecting
            &&& played && clock.now is Some && !activity::times_fit(config, playback, clock)
                ==> action == (ActionView::BackOff { secs: back_off(engine.retry_count) })
                && after.phase is Idle
            &&& known && !route::player_route(shell.current_url) && clock.app_start is None
                ==> action == ActionView::Reconnect && after.phase is Connecting
            &&& !known && !config.disable_in_menu && clock.app_start is None ==> action
                == ActionView::Reconnect && after.phase is Connecting
        }),
{
}

/// What is published or taken back is waited for, with the settings of the
/// refresh.
pub proof fn law_publishing_is_waited_for(
    engine: EngineView,
    shell: ShellView,
    event: EventView,
)
    requires
        expected(engine.phase, event),
    ensures
        ({
            let (after, action) = stepped(engine, shell, event);
            &&& action is Publish || action is Clear <==> after.phase is Publishing
            &&& action is Reconnect || action is Connect || action is Open <==> after.phase
                is Connecting
            &&& action is Fetch <==> after.phase is Fetching
            &&& action is Exit <==> after.phase is Finished
            &&& action is Publish ==> event is Settings || event is Fetched
        }),
{
}

} // verus!
