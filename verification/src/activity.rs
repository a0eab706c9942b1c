//! What Discord is shown: the activities for playing a title, for looking at
//! one, and for the rest of the application.
use crate::config::Config;
use crate::config::ConfigView;
use crate::double::Double;
use crate::metadata::VideoInfo;
use crate::metadata::VideoInfoView;
use crate::percent;
use crate::route;
use crate::shell;
use crate::shell::LobbyPresence;
use crate::shell::LobbyView;
use crate::shell::ShellView;
use crate::text;
use vstd::prelude::*;
use vstd::string::*;

verus! {

/// The image of the application.
pub const ICON_URL: &'static str =
    "https://raw.githubusercontent.com/Stremio/stremio-web/refs/heads/development/assets/images/icon.png";

/// The badge for paused playback.
pub const PAUSED_ICON_URL: &'static str = "https://i.imgur.com/eCUJpm9.png";

/// A button under an activity.
#[derive(Debug)]
pub struct Button {
    pub label: String,
    pub url: String,
}

/// What a [`Button`] says.
#[verifier::ext_equal]
pub struct ButtonView {
    pub label: Seq<char>,
    pub url: Seq<char>,
}

impl View for Button {
    type V = ButtonView;

    open spec fn view(&self) -> ButtonView {
        ButtonView { label: self.label@, url: self.url@ }
    }
}

/// The party that an activity belongs to, with how many are in it and how many
/// it takes.
#[derive(Debug)]
pub struct Party {
    pub id: String,
    pub size: i32,
    pub max: i32,
}

/// What a [`Party`] says.
#[verifier::ext_equal]
pub struct PartyView {
    pub id: Seq<char>,
    pub size: i32,
    pub max: i32,
}

impl View for Party {
    type V = PartyView;

    open spec fn view(&self) -> PartyView {
        PartyView { id: self.id@, size: self.size, max: self.max }
    }
}

/// The badge on the large image, with its text.
#[derive(Debug)]
pub struct Badge {
    pub image: String,
    pub text: String,
}

/// What a [`Badge`] says.
#[verifier::ext_equal]
pub struct BadgeView {
    pub image: Seq<char>,
    pub text: Seq<char>,
}

impl View for Badge {
    type V = BadgeView;

    open spec fn view(&self) -> BadgeView {
        BadgeView { image: self.image@, text: self.text@ }
    }
}

/// An activity of the kind "watching".
#[derive(Debug)]
pub struct Activity {
    pub name: String,
    pub details: String,
    pub state: String,
    /// When it began, in seconds since 1970.
    pub start: i64,
    /// When it ends, where that is known.
    pub end: Option<i64>,
    pub large_image: String,
    pub large_text: String,
    pub small: Option<Badge>,
    pub buttons: Vec<Button>,
    pub party: Option<Party>,
}

/// What an [`Activity`] says.
#[verifier::ext_equal]
pub struct ActivityView {
    pub name: Seq<char>,
    pub details: Seq<char>,
    pub state: Seq<char>,
    pub start: int,
    pub end: Option<int>,
    pub large_image: Seq<char>,
    pub large_text: Seq<char>,
    pub small: Option<BadgeView>,
    pub buttons: Seq<ButtonView>,
    pub party: Option<PartyView>,
}

/// What a list of buttons says.
pub open spec fn buttons_view(buttons: Seq<Button>) -> Seq<ButtonView> {
    Seq::new(buttons.len(), |i: int| buttons[i]@)
}

impl View for Activity {
    type V = ActivityView;

    open spec fn view(&self) -> ActivityView {
        ActivityView {
            name: self.name@,
            details: self.details@,
            state: self.state@,
            start: self.start as int,
            end: match self.end {
                Some(e) => Some(e as int),
                None => None,
            },
            large_image: self.large_image@,
            large_text: self.large_text@,
            small: match self.small {
                Some(b) => Some(b@),
                None => None,
            },
            buttons: buttons_view(self.buttons@),
            party: match self.party {
                Some(p) => Some(p@),
                None => None,
            },
        }
    }
}

/// The time now and the time when the application was started, in seconds
/// since 1970; `None` for a time before that.
#[derive(Clone, Copy, Debug, PartialEq, Eq, Structural)]
pub struct Clock {
    pub now: Option<i64>,
    pub app_start: Option<i64>,
}

/// A time that an activity needs lies before 1970.
#[derive(Clone, Copy, Debug, PartialEq, Eq, Structural)]
pub struct BeforeEpoch {}

/// What the building of an activity gives.
pub open spec fn result_view(result: Result<Activity, BeforeEpoch>) -> Result<
    ActivityView,
    BeforeEpoch,
> {
    match result {
        Ok(a) => Ok(a@),
        Err(e) => Err(e),
    }
}

/// The address of an image, scaled to fit and served by the image proxy.
pub open spec fn proxied(url: Seq<char>) -> Seq<char> {
    "https://images.weserv.nl/?url="@ + percent::url_encoded(url)
        + "&w=1024&h=1024&fit=contain"@
}

/// The address of an image, scaled to fit and served by the image proxy.
pub fn weserv_contain(url: &str) -> (proxy: String)
    ensures
        proxy@ == proxied(url@),
{
    let encoded = percent::percent_encode(url);
    "https://images.weserv.nl/?url=".to_owned().concat(encoded.as_str()).concat(
        "&w=1024&h=1024&fit=contain",
    )
}

/// The large image for a title: its poster, without one that of the application.
pub open spec fn image_of(info: VideoInfoView) -> Seq<char> {
    if info.poster.len() == 0 {
        ICON_URL@
    } else {
        proxied(info.poster)
    }
}

/// The text of the large image: the name of the title, with the year where it
/// is known.
pub open spec fn caption_of(info: VideoInfoView) -> Seq<char> {
    if info.year.len() == 0 {
        info.name
    } else {
        info.name + " ("@ + info.year + ")"@
    }
}

fn poster_image(info: &VideoInfo) -> (image: String)
    ensures
        image@ == image_of(info@),
{
    if info.poster.as_str().is_empty() {
        ICON_URL.to_owned()
    } else {
        weserv_contain(info.poster.as_str())
    }
}

fn caption(info: &VideoInfo) -> (line: String)
    ensures
        line@ == caption_of(info@),
{
    if info.year.as_str().is_empty() {
        info.name.clone()
    } else {
        info.name.clone().concat(" (").concat(info.year.as_str()).concat(")")
    }
}

/// A line with how many others watch along behind it, where anyone does.
pub open spec fn with_others(line: Seq<char>, lobby: Option<LobbyView>) -> Seq<char> {
    match lobby {
        Some(l) => match l.others() {
            Some(others) => if line.len() == 0 {
                others
            } else {
                line + " • "@ + others
            },
            None => line,
        },
        None => line,
    }
}

fn add_others(line: String, lobby: &Option<LobbyPresence>) -> (full: String)
    ensures
        full@ == with_others(line@, shell::lobby_view(*lobby)),
{
    match lobby {
        Some(l) => match l.others_text() {
            Some(others) => if line.as_str().is_empty() {
                others
            } else {
                line.concat(" • ").concat(others.as_str())
            },
            None => line,
        },
        None => line,
    }
}

/// The party for a watch party.
pub open spec fn party_of(lobby: Option<LobbyView>) -> Option<PartyView> {
    match lobby {
        Some(l) => Some(PartyView { id: l.party_id, size: l.member_count, max: l.max_size }),
        None => None,
    }
}

fn party_for(lobby: &Option<LobbyPresence>) -> (party: Option<Party>)
    ensures
        party_of(shell::lobby_view(*lobby)) == match party {
            Some(p) => Some(p@),
            None => None,
        },
{
    match lobby {
        Some(l) => Some(Party { id: l.party_id.clone(), size: l.member_count, max: l.max_size }),
        None => None,
    }
}

/// The first button of a title: the page about it.
pub open spec fn page_button(
    targets: (Option<Seq<char>>, Option<Seq<char>>, Seq<char>),
) -> Seq<ButtonView> {
    match targets.0 {
        Some(url) => seq![ButtonView { label: targets.2, url }],
        None => Seq::empty(),
    }
}

/// The second button of a title: the way into the watch party where there is
/// one, and else the way to the title.
pub open spec fn join_button(
    targets: (Option<Seq<char>>, Option<Seq<char>>, Seq<char>),
    lobby: Option<LobbyView>,
) -> Seq<ButtonView> {
    match lobby {
        Some(l) => if l.join_secret.len() > 0 {
            seq![ButtonView { label: "Join Watch Party"@, url: l.join_secret }]
        } else {
            Seq::empty()
        },
        None => match targets.1 {
            Some(url) => seq![ButtonView { label: "Open in Stremio"@, url }],
            None => Seq::empty(),
        },
    }
}

/// The buttons for the title that a route names.
pub open spec fn buttons_of(
    config: ConfigView,
    lobby: Option<LobbyView>,
    url: Seq<char>,
) -> Seq<ButtonView> {
    let segment = route::segment_of(url);
    let targets = route::targets_of(config, route::content_id_of(segment), segment);
    page_button(targets) + join_button(targets, lobby)
}

fn title_buttons(config: &Config, lobby: &Option<LobbyPresence>, url: &str) -> (buttons: Vec<
    Button,
>)
    ensures
        buttons_view(buttons@) == buttons_of(config@, shell::lobby_view(*lobby), url@),
{
    let segment = route::content_segment(url);
    let content_id = route::content_id_from_segment(segment.as_str());
    let (page, link, label) = route::button_targets(
        config,
        content_id.as_str(),
        segment.as_str(),
    );
    let ghost targets = route::targets_of(
        config@,
        route::content_id_of(route::segment_of(url@)),
        route::segment_of(url@),
    );
    let mut buttons: Vec<Button> = Vec::new();
    if let Some(page) = page {
        buttons.push(Button { label: label.to_owned(), url: page });
    }
    proof {
        assert(buttons_view(buttons@) =~= page_button(targets));
    }
    match lobby {
        Some(l) => {
            if !l.join_secret.as_str().is_empty() {
                buttons.push(
                    Button { label: "Join Watch Party".to_owned(), url: l.join_secret.clone() },
                );
            }
        },
        None => {
            if let Some(link) = link {
                buttons.push(Button { label: "Open in Stremio".to_owned(), url: link });
            }
        },
    }
    proof {
        assert(buttons_view(buttons@) =~= page_button(targets) + join_button(
            targets,
            shell::lobby_view(*lobby),
        ));
    }
    buttons
}

/// Where playback stands.
#[derive(Clone, Copy, Debug, PartialEq, Eq, Structural)]
pub struct Playback {
    /// The position, in seconds.
    pub current_time: Double,
    /// The length, in seconds.
    pub total_duration: Double,
    pub is_paused: bool,
}

/// When playback is shown to have begun: so long ago as its position says, or,
/// where nothing is to be shown while paused and it is, with the application.
pub open spec fn start_of(config: ConfigView, playback: Playback, clock: Clock) -> int {
    if playback.is_paused && config.disable_when_paused {
        clock.app_start->0 as int
    } else {
        clock.now->0 - playback.current_time.whole()
    }
}

/// When playback is shown to end, while it runs and its length is known.
pub open spec fn end_of(config: ConfigView, playback: Playback, clock: Clock) -> Option<int> {
    if !playback.is_paused && playback.total_duration.above_zero() {
        Some(start_of(config, playback, clock) + playback.total_duration.whole())
    } else {
        None
    }
}

/// Whether the times that an activity needs lie after 1970.
pub open spec fn clock_serves(config: ConfigView, playback: Playback, clock: Clock) -> bool {
    clock.now is Some && (playback.is_paused && config.disable_when_paused ==> clock.app_start
        is Some)
}

/// Whether the begin and the end of playback can be counted in 64 bits.
pub open spec fn times_fit(config: ConfigView, playback: Playback, clock: Clock) -> bool {
    clock_serves(config, playback, clock) ==> {
        &&& i64::MIN <= start_of(config, playback, clock) <= i64::MAX
        &&& end_of(config, playback, clock) matches Some(e) ==> i64::MIN <= e <= i64::MAX
    }
}

/// Whether the begin and the end of playback can be counted in 64 bits.
pub fn timestamps_fit(config: &Config, playback: Playback, clock: Clock) -> (yes: bool)
    ensures
        yes == times_fit(config@, playback, clock),
{
    let now: i64 = match clock.now {
        Some(now) => now,
        None => return true,
    };
    if playback.is_paused && config.disable_when_paused {
        return true;
    }
    let start: i128 = now as i128 - playback.current_time.to_whole() as i128;
    if start < i64::MIN as i128 || start > i64::MAX as i128 {
        return false;
    }
    if !playback.is_paused && playback.total_duration.is_above_zero() {
        let end: i128 = start + playback.total_duration.to_whole() as i128;
        return end >= i64::MIN as i128 && end <= i64::MAX as i128;
    }
    true
}

/// The name, the first line and the second line for playing a title.
pub open spec fn player_lines(
    config: ConfigView,
    lobby: Option<LobbyView>,
    info: VideoInfoView,
    media_type: Seq<char>,
    season: Seq<char>,
    episode: Seq<char>,
    is_paused: bool,
) -> (Seq<char>, Seq<char>, Seq<char>) {
    let title = if media_type == "series"@ {
        info.epname
    } else {
        info.name
    };
    let line = with_others(
        if media_type == "series"@ {
            "S"@ + season + "E"@ + episode
        } else {
            info.year
        },
        lobby,
    );
    let state = if line.len() > 0 {
        line
    } else if is_paused {
        "Paused"@
    } else {
        "Watching"@
    };
    if config.swap_name_and_title {
        (title, info.name, state)
    } else {
        (info.name, title, state)
    }
}

/// The badge while a title is played.
pub open spec fn player_badge(config: ConfigView, is_paused: bool) -> Option<BadgeView> {
    if !config.show_small_image {
        None
    } else if is_paused {
        Some(BadgeView { image: PAUSED_ICON_URL@, text: "Paused"@ })
    } else {
        Some(BadgeView { image: ICON_URL@, text: "Playing"@ })
    }
}

/// The activity for playing a title.
pub open spec fn player_activity(
    config: ConfigView,
    lobby: Option<LobbyView>,
    info: VideoInfoView,
    media_type: Seq<char>,
    season: Seq<char>,
    episode: Seq<char>,
    playback: Playback,
    clock: Clock,
    url: Seq<char>,
) -> Result<ActivityView, BeforeEpoch> {
    if !clock_serves(config, playback, clock) {
        Err(BeforeEpoch {  })
    } else {
        let lines = player_lines(
            config,
            lobby,
            info,
            media_type,
            season,
            episode,
            playback.is_paused,
        );
        Ok(
            ActivityView {
                name: lines.0,
                details: lines.1,
                state: lines.2,
                start: start_of(config, playback, clock),
                end: end_of(config, playback, clock),
                large_image: image_of(info),
                large_text: caption_of(info),
                small: player_badge(config, playback.is_paused),
                buttons: buttons_of(config, lobby, url),
                party: party_of(lobby),
            },
        )
    }
}

/// The begin and the end of playback, as they are shown.
fn timestamps(config: &Config, playback: Playback, clock: Clock) -> (times: Result<
    (i64, Option<i64>),
    BeforeEpoch,
>)
    requires
        times_fit(config@, playback, clock),
    ensures
        times is Ok <==> clock_serves(config@, playback, clock),
        times matches Ok(t) ==> t.0 == start_of(config@, playback, clock) && end_of(
            config@,
            playback,
            clock,
        ) == match t.1 {
            Some(e) => Some(e as int),
            None => None,
        },
{
    let now: i64 = match clock.now {
        Some(now) => now,
        None => return Err(BeforeEpoch {  }),
    };
    if playback.is_paused {
        if config.disable_when_paused {
            match clock.app_start {
                Some(app_start) => Ok((app_start, None)),
                None => Err(BeforeEpoch {  }),
            }
        } else {
            Ok((now - playback.current_time.to_whole(), None))
        }
    } else {
        let start: i64 = now - playback.current_time.to_whole();
        if playback.total_duration.is_above_zero() {
            Ok((start, Some(start + playback.total_duration.to_whole())))
        } else {
            Ok((start, None))
        }
    }
}

/// The second line for playing a title.
fn player_state(
    lobby: &Option<LobbyPresence>,
    info: &VideoInfo,
    media_type: &str,
    season: &str,
    episode: &str,
    is_paused: bool,
) -> (state: String)
    ensures
        forall|config: ConfigView|
            state@ == (#[trigger] player_lines(
                config,
                shell::lobby_view(*lobby),
                info@,
                media_type@,
                season@,
                episode@,
                is_paused,
            )).2,
{
    let own = if text::same(media_type, "series") {
        "S".to_owned().concat(season).concat("E").concat(episode)
    } else {
        info.year.clone()
    };
    let line = add_others(own, lobby);
    if !line.as_str().is_empty() {
        line
    } else if is_paused {
        "Paused".to_owned()
    } else {
        "Watching".to_owned()
    }
}

/// The activity for playing a title.
pub fn build_player_activity(
    config: &Config,
    lobby: &Option<LobbyPresence>,
    info: &VideoInfo,
    media_type: &str,
    season: &str,
    episode: &str,
    playback: Playback,
    clock: Clock,
    cur_url: &str,
) -> (activity: Result<Activity, BeforeEpoch>)
    requires
        times_fit(config@, playback, clock),
    ensures
        result_view(activity) == player_activity(
            config@,
            shell::lobby_view(*lobby),
            info@,
            media_type@,
            season@,
            episode@,
            playback,
            clock,
            cur_url@,
        ),
{
    let (start, end) = match timestamps(config, playback, clock) {
        Ok(times) => times,
        Err(e) => return Err(BeforeEpoch {  }),
    };
    let title = if text::same(media_type, "series") {
        info.epname.clone()
    } else {
        info.name.clone()
    };
    let (name, details) = if config.swap_name_and_title {
        (title, info.name.clone())
    } else {
        (info.name.clone(), title)
    };
    let state = player_state(lobby, info, media_type, season, episode, playback.is_paused);
    let ghost lines = player_lines(
        config@,
        shell::lobby_view(*lobby),
        info@,
        media_type@,
        season@,
        episode@,
        playback.is_paused,
    );
    proof {
        assert((name@, details@, state@) == lines);
    }
    let small = if !config.show_small_image {
        None
    } else if playback.is_paused {
        Some(Badge { image: PAUSED_ICON_URL.to_owned(), text: "Paused".to_owned() })
    } else {
        Some(Badge { image: ICON_URL.to_owned(), text: "Playing".to_owned() })
    };
    Ok(
        Activity {
            name,
            details,
            state,
            start,
            end,
            large_image: poster_image(info),
            large_text: caption(info),
            small,
            buttons: title_buttons(config, lobby, cur_url),
            party: party_for(lobby),
        },
    )
}

/// The activity for looking at a title.
pub open spec fn detail_activity(
    config: ConfigView,
    lobby: Option<LobbyView>,
    info: VideoInfoView,
    media_type: Seq<char>,
    clock: Clock,
    url: Seq<char>,
) -> Result<ActivityView, BeforeEpoch> {
    match clock.app_start {
        Some(start) => Ok(
            ActivityView {
                name: info.name,
                details: info.name,
                state: with_others(
                    if media_type == "series"@ {
                        "Viewing Series"@
                    } else {
                        "Viewing Movie"@
                    },
                    lobby,
                ),
                start: start as int,
                end: None,
                large_image: image_of(info),
                large_text: caption_of(info),
                small: if config.show_small_image {
                    Some(BadgeView { image: ICON_URL@, text: "MyStremio"@ })
                } else {
                    None
                },
                buttons: buttons_of(config, lobby, url),
                party: party_of(lobby),
            },
        ),
        None => Err(BeforeEpoch {  }),
    }
}

/// The activity for looking at a title.
pub fn build_detail_activity(
    config: &Config,
    lobby: &Option<LobbyPresence>,
    info: &VideoInfo,
    media_type: &str,
    clock: Clock,
    cur_url: &str,
) -> (activity: Result<Activity, BeforeEpoch>)
    ensures
        result_view(activity) == detail_activity(
            config@,
            shell::lobby_view(*lobby),
            info@,
            media_type@,
            clock,
            cur_url@,
        ),
{
    let start: i64 = match clock.app_start {
        Some(start) => start,
        None => return Err(BeforeEpoch {  }),
    };
    let own = if text::same(media_type, "series") {
        "Viewing Series".to_owned()
    } else {
        "Viewing Movie".to_owned()
    };
    let small = if config.show_small_image {
        Some(Badge { image: ICON_URL.to_owned(), text: "MyStremio".to_owned() })
    } else {
        None
    };
    Ok(
        Activity {
            name: info.name.clone(),
            details: info.name.clone(),
            state: add_others(own, lobby),
            start,
            end: None,
            large_image: poster_image(info),
            large_text: caption(info),
            small,
            buttons: title_buttons(config, lobby, cur_url),
            party: party_for(lobby),
        },
    )
}

/// The route of a page, without the query and without slashes behind it.
pub open spec fn page_of(url: Seq<char>) -> Seq<char> {
    text::without_suffixes(text::pieces(url, "?"@)[0], "/"@)
}

/// The second and the first line for a page of the application.
pub open spec fn menu_lines(page: Seq<char>) -> (Seq<char>, Seq<char>) {
    if text::ends(page, "/settings"@) {
        ("Settings"@, "Changing configuration"@)
    } else if text::ends(page, "/addons"@) {
        ("Addons"@, "Managing addons"@)
    } else if text::ends(page, "/library"@) {
        ("Library"@, "Browsing library"@)
    } else if text::ends(page, "/calendar"@) {
        ("Calendar"@, "Viewing Calendar"@)
    } else if text::ends(page, "/discover"@) {
        ("Discover"@, "Browsing Catalog"@)
    } else if text::ends(page, "/search"@) {
        ("Search"@, "Searching"@)
    } else {
        ("Browsing"@, "In MyStremio Menu"@)
    }
}

/// The activity for a page of the application.
pub open spec fn menu_activity(url: Seq<char>, clock: Clock) -> Result<ActivityView, BeforeEpoch> {
    match clock.app_start {
        Some(start) => Ok(
            ActivityView {
                name: "MyStremio"@,
                details: menu_lines(page_of(url)).1,
                state: menu_lines(page_of(url)).0,
                start: start as int,
                end: None,
                large_image: ICON_URL@,
                large_text: "MyStremio"@,
                small: None,
                buttons: Seq::empty(),
                party: None,
            },
        ),
        None => Err(BeforeEpoch {  }),
    }
}

/// The activity for a page of the application.
pub fn build_menu_activity(cur_url: &str, clock: Clock) -> (activity: Result<
    Activity,
    BeforeEpoch,
>)
    ensures
        result_view(activity) == menu_activity(cur_url@, clock),
{
    proof {
        reveal_strlit("?");
        reveal_strlit("/");
    }
    let start: i64 = match clock.app_start {
        Some(start) => start,
        None => return Err(BeforeEpoch {  }),
    };
    let heads = text::split(cur_url, "?");
    proof {
        assert(text::texts(heads@)[0] == heads@[0]@);
    }
    let page = text::trim_end_matches(heads[0], "/");
    let (state, details) = if text::ends_with(page, "/settings") {
        ("Settings", "Changing configuration")
    } else if text::ends_with(page, "/addons") {
        ("Addons", "Managing addons")
    } else if text::ends_with(page, "/library") {
        ("Library", "Browsing library")
    } else if text::ends_with(page, "/calendar") {
        ("Calendar", "Viewing Calendar")
    } else if text::ends_with(page, "/discover") {
        ("Discover", "Browsing Catalog")
    } else if text::ends_with(page, "/search") {
        ("Search", "Searching")
    } else {
        ("Browsing", "In MyStremio Menu")
    };
    let buttons: Vec<Button> = Vec::new();
    proof {
        assert(buttons_view(buttons@) =~= Seq::<ButtonView>::empty());
    }
    Ok(
        Activity {
            name: "MyStremio".to_owned(),
            details: details.to_owned(),
            state: state.to_owned(),
            start,
            end: None,
            large_image: ICON_URL.to_owned(),
            large_text: "MyStremio".to_owned(),
            small: None,
            buttons,
            party: None,
        },
    )
}

/// An activity carries two buttons at most.
pub proof fn law_at_most_two_buttons(
    config: ConfigView,
    lobby: Option<LobbyView>,
    info: VideoInfoView,
    media_type: Seq<char>,
    season: Seq<char>,
    episode: Seq<char>,
    playback: Playback,
    clock: Clock,
    url: Seq<char>,
)
    ensures
        player_activity(
            config,
            lobby,
            info,
            media_type,
            season,
            episode,
            playback,
            clock,
            url,
        ) matches Ok(a) ==> a.buttons.len() <= 2,
        detail_activity(config, lobby, info, media_type, clock, url) matches Ok(a)
            ==> a.buttons.len() <= 2,
        menu_activity(url, clock) matches Ok(a) ==> a.buttons.len() <= 2,
{
}

/// The time since the begin that is shown is the position of the player, and
/// the time between begin and end is the length of what it plays. No end is
/// shown while paused.
pub proof fn law_times_match_player(
    config: ConfigView,
    lobby: Option<LobbyView>,
    info: VideoInfoView,
    media_type: Seq<char>,
    season: Seq<char>,
    episode: Seq<char>,
    playback: Playback,
    clock: Clock,
    url: Seq<char>,
)
    requires
        clock.now is Some,
        !(playback.is_paused && config.disable_when_paused),
    ensures
        player_activity(
            config,
            lobby,
            info,
            media_type,
            season,
            episode,
            playback,
            clock,
            url,
        ) matches Ok(a) && {
            &&& clock.now->0 - a.start == playback.current_time.whole()
            &&& playback.is_paused ==> a.end is None
            &&& !playback.is_paused && playback.total_duration.above_zero() ==> a.end == Some(
                a.start + playback.total_duration.whole(),
            )
        },
{
}

proof fn lemma_with_others_not_empty(line: Seq<char>, lobby: Option<LobbyView>)
    requires
        line.len() > 0,
    ensures
        with_others(line, lobby).len() > 0,
{
}

/// No activity is shown without a second line.
pub proof fn law_state_is_never_empty(
    config: ConfigView,
    lobby: Option<LobbyView>,
    info: VideoInfoView,
    media_type: Seq<char>,
    season: Seq<char>,
    episode: Seq<char>,
    playback: Playback,
    clock: Clock,
    url: Seq<char>,
)
    ensures
        player_activity(
            config,
            lobby,
            info,
            media_type,
            season,
            episode,
            playback,
            clock,
            url,
        ) matches Ok(a) ==> a.state.len() > 0,
        detail_activity(config, lobby, info, media_type, clock, url) matches Ok(a)
            ==> a.state.len() > 0,
        menu_activity(url, clock) matches Ok(a) ==> a.state.len() > 0,
{
    reveal_strlit("Paused");
    reveal_strlit("Watching");
    reveal_strlit("Viewing Series");
    reveal_strlit("Viewing Movie");
    reveal_strlit("Settings");
    reveal_strlit("Addons");
    reveal_strlit("Library");
    reveal_strlit("Calendar");
    reveal_strlit("Discover");
    reveal_strlit("Search");
    reveal_strlit("Browsing");
    lemma_with_others_not_empty("Viewing Series"@, lobby);
    lemma_with_others_not_empty("Viewing Movie"@, lobby);
}

/// While a watch party is on, the activity for a title says so, whether it is
/// played or looked at: it belongs to the party, whose members are no more than
/// it takes, its second line ends in how many others watch along, where anyone
/// does, and its last button leads into the party, where there is a secret to
/// join with. Without a watch party there is none of this.
pub proof fn law_watch_party_is_shown(
    config: ConfigView,
    shell: ShellView,
    info: VideoInfoView,
    media_type: Seq<char>,
    season: Seq<char>,
    episode: Seq<char>,
    playback: Playback,
    clock: Clock,
    url: Seq<char>,
)
    ensures
        ({
            let lobby = shell::lobby_of(shell);
            let played = player_activity(
                config,
                lobby,
                info,
                media_type,
                season,
                episode,
                playback,
                clock,
                url,
            );
            &&& played matches Ok(a) ==> shows_party(a, lobby)
            &&& detail_activity(config, lobby, info, media_type, clock, url) matches Ok(a)
                ==> shows_party(a, lobby)
        }),
{
    reveal_strlit("Watching with 1 other");
    reveal_strlit("Watching with ");
    let lobby = shell::lobby_of(shell);
    let line = if media_type == "series"@ {
        "S"@ + season + "E"@ + episode
    } else {
        info.year
    };
    lemma_ends_in_others(line, lobby);
    lemma_ends_in_others("Viewing Series"@, lobby);
    lemma_ends_in_others("Viewing Movie"@, lobby);
    lemma_buttons_lead_into_party(config, lobby, url);
}

/// Whether an activity shows a watch party, or that there is none.
pub open spec fn shows_party(activity: ActivityView, lobby: Option<LobbyView>) -> bool {
    match lobby {
        Some(l) => {
            &&& activity.party matches Some(p) && p.id == l.party_id && p.size == l.member_count
                && p.max == l.max_size && 1 <= p.size <= p.max
            &&& l.others() matches Some(others) ==> text::ends(activity.state, others)
            &&& l.join_secret.len() > 0 ==> activity.buttons.len() > 0 && activity.buttons.last()
                == (ButtonView { label: "Join Watch Party"@, url: l.join_secret })
        },
        None => {
            &&& activity.party is None
            &&& forall|i: int|
                0 <= i < activity.buttons.len() ==> (#[trigger] activity.buttons[i]).label
                    != "Join Watch Party"@
        },
    }
}

proof fn lemma_ends_in_others(line: Seq<char>, lobby: Option<LobbyView>)
    ensures
        lobby matches Some(l) ==> (l.others() matches Some(others) ==> with_others(
            line,
            lobby,
        ).len() > 0 && text::ends(with_others(line, lobby), others)),
{
    reveal_strlit("Watching with 1 other");
    reveal_strlit("Watching with ");
    if let Some(l) = lobby {
        if let Some(others) = l.others() {
            let full = with_others(line, lobby);
            assert(full.skip(full.len() - others.len()) =~= others);
        }
    }
}

proof fn lemma_buttons_lead_into_party(
    config: ConfigView,
    lobby: Option<LobbyView>,
    url: Seq<char>,
)
    ensures
        ({
            let buttons = buttons_of(config, lobby, url);
            match lobby {
                Some(l) => l.join_secret.len() > 0 ==> buttons.len() > 0 && buttons.last() == (
                ButtonView { label: "Join Watch Party"@, url: l.join_secret }),
                None => forall|i: int|
                    0 <= i < buttons.len() ==> (#[trigger] buttons[i]).label
                        != "Join Watch Party"@,
            }
        }),
{
    reveal_strlit("Join Watch Party");
    reveal_strlit("Open in Stremio");
    reveal_strlit("IMDb");
    reveal_strlit("Kitsu");
    reveal_strlit("");
    assert("Join Watch Party"@.len() != "Open in Stremio"@.len());
    assert("Join Watch Party"@.len() != "IMDb"@.len());
    assert("Join Watch Party"@.len() != "Kitsu"@.len());
    assert("Join Watch Party"@.len() != ""@.len());
}

/// The page about a title, and the way to it in the application or on the web,
/// by its segment.
pub open spec fn links(config: ConfigView, id: Seq<char>, segment: Seq<char>) -> Seq<ButtonView> {
    seq![
        if text::starts(id, "kitsu:"@) {
            ButtonView {
                label: "Kitsu"@,
                url: "https://kitsu.app/anime/"@ + id.skip("kitsu:"@.len() as int),
            }
        } else {
            ButtonView { label: "IMDb"@, url: "https://www.imdb.com/title/"@ + id }
        },
        ButtonView {
            label: "Open in Stremio"@,
            url: if config.link_target == "web"@ {
                "https://web.stremio.com/#/detail"@ + segment
            } else {
                "stremio:///detail"@ + segment
            },
        },
    ]
}

/// On the page of a title, and without a watch party, the buttons lead to the
/// page about the title with that id on IMDb or Kitsu and to the title in the
/// application or on the web, or there are none where they are switched off.
pub proof fn law_title_page_links_to_title(config: ConfigView, id: Seq<char>)
    requires
        id.len() > 0,
    ensures
        config.show_buttons ==> {
            let e = percent::url_encoded(id);
            &&& buttons_of(config, None, "#/detail/series/"@ + e) == links(
                config,
                id,
                "/series/"@ + e,
            )
            &&& buttons_of(config, None, "#/detail/movie/"@ + e) == links(
                config,
                id,
                "/movie/"@ + e,
            )
        },
        !config.show_buttons ==> buttons_of(
            config,
            None,
            "#/detail/series/"@ + percent::url_encoded(id),
        ).len() == 0 && buttons_of(
            config,
            None,
            "#/detail/movie/"@ + percent::url_encoded(id),
        ).len() == 0,
{
    let e = percent::url_encoded(id);
    route::law_title_page_holds_segment(id);
    route::law_segment_names_title(id, Seq::empty());
    assert(buttons_of(config, None, "#/detail/series/"@ + e) =~= if config.show_buttons {
        links(config, id, "/series/"@ + e)
    } else {
        Seq::empty()
    });
    assert(buttons_of(config, None, "#/detail/movie/"@ + e) =~= if config.show_buttons {
        links(config, id, "/movie/"@ + e)
    } else {
        Seq::empty()
    });
}

/// What is shown for a page does not depend on the query of its route.
pub proof fn law_menu_ignores_query(page: Seq<char>, query: Seq<char>, clock: Clock)
    requires
        text::lacks(page, "?"@),
    ensures
        menu_activity(page + "?"@ + query, clock) == menu_activity(page, clock),
{
    reveal_strlit("?");
    text::lemma_pieces_single(page, "?"@);
    text::lemma_pieces_join(page, "?"@, query);
}

/// For a film both the name and the first line are the name of the title; for an
/// episode they are the name of the series and that of the episode, and change
/// places where that is asked for.
pub proof fn law_names_of_what_is_played(
    config: ConfigView,
    lobby: Option<LobbyView>,
    info: VideoInfoView,
    media_type: Seq<char>,
    season: Seq<char>,
    episode: Seq<char>,
    playback: Playback,
    clock: Clock,
    url: Seq<char>,
)
    ensures
        player_activity(
            config,
            lobby,
            info,
            media_type,
            season,
            episode,
            playback,
            clock,
            url,
        ) matches Ok(a) ==> {
            &&& media_type != "series"@ ==> a.name == info.name && a.details == info.name
            &&& media_type == "series"@ && !config.swap_name_and_title ==> a.name == info.name
                && a.details == info.epname
            &&& media_type == "series"@ && config.swap_name_and_title ==> a.name == info.epname
                && a.details == info.name
        },
{
}

/// The second line while a title is played: season and episode of an episode, the
/// year of a film, and behind either how many others watch along; where that
/// leaves nothing to say, whether it is paused.
pub proof fn law_state_of_what_is_played(
    config: ConfigView,
    lobby: Option<LobbyView>,
    info: VideoInfoView,
    media_type: Seq<char>,
    season: Seq<char>,
    episode: Seq<char>,
    playback: Playback,
    clock: Clock,
    url: Seq<char>,
)
    ensures
        player_activity(
            config,
            lobby,
            info,
            media_type,
            season,
            episode,
            playback,
            clock,
            url,
        ) matches Ok(a) ==> {
            let alone = lobby is None || lobby->0.member_count <= 1;
            &&& media_type == "series"@ && alone ==> a.state == "S"@ + season + "E"@ + episode
            &&& media_type == "series"@ && !alone ==> a.state == "S"@ + season + "E"@ + episode
                + " • "@ + lobby->0.others()->0
            &&& media_type != "series"@ && alone && info.year.len() > 0 ==> a.state == info.year
            &&& media_type != "series"@ && !alone && info.year.len() > 0 ==> a.state == info.year
                + " • "@ + lobby->0.others()->0
            &&& media_type != "series"@ && !alone && info.year.len() == 0 ==> a.state
                == lobby->0.others()->0
            &&& media_type != "series"@ && alone && info.year.len() == 0 ==> a.state == (
            if playback.is_paused {
                "Paused"@
            } else {
                "Watching"@
            })
        },
{
    reveal_strlit("S");
    reveal_strlit("E");
    reveal_strlit("Watching with 1 other");
    reveal_strlit("Watching with ");
    assert(("S"@ + season + "E"@ + episode).len() > 0);
    if let Some(l) = lobby {
        shell::law_others_are_counted(l);
        if l.member_count > 1 {
            assert(l.others()->0.len() > 0);
        }
    }
}

/// While a title is played or looked at, the large image is its poster, by way
/// of the image proxy, and without a poster that of the application; its text is
/// the name of the title, with the year behind it in brackets where it is known.
pub proof fn law_artwork_is_that_of_title(
    config: ConfigView,
    lobby: Option<LobbyView>,
    info: VideoInfoView,
    media_type: Seq<char>,
    season: Seq<char>,
    episode: Seq<char>,
    playback: Playback,
    clock: Clock,
    url: Seq<char>,
)
    ensures
        player_activity(
            config,
            lobby,
            info,
            media_type,
            season,
            episode,
            playback,
            clock,
            url,
        ) matches Ok(a) ==> has_artwork(a, info),
        detail_activity(config, lobby, info, media_type, clock, url) matches Ok(a) ==> has_artwork(
            a,
            info,
        ),
{
}

/// Whether an activity has the image and the text of a title.
pub open spec fn has_artwork(activity: ActivityView, info: VideoInfoView) -> bool {
    &&& info.poster.len() > 0 ==> activity.large_image == "https://images.weserv.nl/?url="@
        + percent::url_encoded(info.poster) + "&w=1024&h=1024&fit=contain"@
    &&& info.poster.len() == 0 ==> activity.large_image
        == "https://raw.githubusercontent.com/Stremio/stremio-web/refs/heads/development/assets/images/icon.png"@
    &&& info.year.len() > 0 ==> activity.large_text == info.name + " ("@ + info.year + ")"@
    &&& info.year.len() == 0 ==> activity.large_text == info.name
}

/// The badge says whether a title is played or paused, each with an image of its
/// own, and on the page about a title it is that of the application; there is
/// none where it is switched off, and none on other pages.
pub proof fn law_badge_says_what_is_done(
    config: ConfigView,
    lobby: Option<LobbyView>,
    info: VideoInfoView,
    media_type: Seq<char>,
    season: Seq<char>,
    episode: Seq<char>,
    playback: Playback,
    clock: Clock,
    url: Seq<char>,
)
    ensures
        ({
            let icon =
                "https://raw.githubusercontent.com/Stremio/stremio-web/refs/heads/development/assets/images/icon.png"@;
            let played = player_activity(
                config,
                lobby,
                info,
                media_type,
                season,
                episode,
                playback,
                clock,
                url,
            );
            let seen = detail_activity(config, lobby, info, media_type, clock, url);
            &&& played matches Ok(a) ==> {
                &&& !config.show_small_image ==> a.small is None
                &&& config.show_small_image && playback.is_paused ==> a.small == Some(
                    BadgeView { image: "https://i.imgur.com/eCUJpm9.png"@, text: "Paused"@ },
                )
                &&& config.show_small_image && !playback.is_paused ==> a.small == Some(
                    BadgeView { image: icon, text: "Playing"@ },
                )
            }
            &&& seen matches Ok(a) ==> {
                &&& !config.show_small_image ==> a.small is None
                &&& config.show_small_image ==> a.small == Some(
                    BadgeView { image: icon, text: "MyStremio"@ },
                )
            }
            &&& menu_activity(url, clock) matches Ok(a) ==> a.small is None && a.large_image
                == icon && a.large_text == "MyStremio"@
        }),
{
}

/// An activity for a title carries the buttons of its route, and belongs to the
/// watch party, with its members and its size; one for another page has neither.
pub proof fn law_buttons_and_party_are_carried(
    config: ConfigView,
    lobby: Option<LobbyView>,
    info: VideoInfoView,
    media_type: Seq<char>,
    season: Seq<char>,
    episode: Seq<char>,
    playback: Playback,
    clock: Clock,
    url: Seq<char>,
)
    ensures
        ({
            let party = match lobby {
                Some(l) => Some(PartyView { id: l.party_id, size: l.member_count, max: l.max_size }),
                None => None,
            };
            let played = player_activity(
                config,
                lobby,
                info,
                media_type,
                season,
                episode,
                playback,
                clock,
                url,
            );
            let seen = detail_activity(config, lobby, info, media_type, clock, url);
            &&& played matches Ok(a) ==> a.buttons == buttons_of(config, lobby, url) && a.party
                == party
            &&& seen matches Ok(a) ==> a.buttons == buttons_of(config, lobby, url) && a.party
                == party
            &&& menu_activity(url, clock) matches Ok(a) ==> a.buttons.len() == 0 && a.party is None
        }),
{
}

/// The buttons of a route: without a watch party the two links of the title that
/// it names; in a watch party the first of them, and the way into the party in
/// place of the second, where there is a secret to join with.
pub proof fn law_buttons_of_route(config: ConfigView, lobby: LobbyView, url: Seq<char>)
    ensures
        ({
            let segment = route::segment_of(url);
            let id = route::content_id_of(segment);
            let alone = buttons_of(config, None, url);
            let party = buttons_of(config, Some(lobby), url);
            let shown = config.show_buttons && id.len() > 0;
            let join = ButtonView { label: "Join Watch Party"@, url: lobby.join_secret };
            &&& shown ==> alone == links(config, id, segment)
            &&& !shown ==> alone.len() == 0
            &&& shown && lobby.join_secret.len() > 0 ==> party == seq![alone[0], join]
            &&& shown && lobby.join_secret.len() == 0 ==> party == seq![alone[0]]
            &&& !shown && lobby.join_secret.len() > 0 ==> party == seq![join]
            &&& !shown && lobby.join_secret.len() == 0 ==> party.len() == 0
        }),
{
    let segment = route::segment_of(url);
    let id = route::content_id_of(segment);
    let shown = config.show_buttons && id.len() > 0;
    let join = ButtonView { label: "Join Watch Party"@, url: lobby.join_secret };
    let alone = buttons_of(config, None, url);
    let party = buttons_of(config, Some(lobby), url);
    if shown {
        assert(alone =~= links(config, id, segment));
    }
    if lobby.join_secret.len() > 0 {
        assert(party =~= if shown {
            seq![alone[0], join]
        } else {
            seq![join]
        });
    } else if shown {
        assert(party =~= seq![alone[0]]);
    }
}

/// The page about a title is shown under the name of the title, as a series or a
/// film that is looked at, with how many others watch along behind it, since the
/// application was started, and without an end.
pub proof fn law_title_is_looked_at(
    config: ConfigView,
    lobby: Option<LobbyView>,
    info: VideoInfoView,
    media_type: Seq<char>,
    clock: Clock,
    url: Seq<char>,
)
    ensures
        ({
            let seen = detail_activity(config, lobby, info, media_type, clock, url);
            let line = if media_type == "series"@ {
                "Viewing Series"@
            } else {
                "Viewing Movie"@
            };
            let alone = lobby is None || lobby->0.member_count <= 1;
            &&& seen is Ok <==> clock.app_start is Some
            &&& seen matches Ok(a) ==> {
                &&& a.name == info.name && a.details == info.name
                &&& alone ==> a.state == line
                &&& !alone ==> a.state == line + " • "@ + lobby->0.others()->0
                &&& a.start == clock.app_start->0 && a.end is None
            }
        }),
{
    reveal_strlit("Viewing Series");
    reveal_strlit("Viewing Movie");
    if let Some(l) = lobby {
        shell::law_others_are_counted(l);
    }
}

/// What is played is shown exactly where the time can be told; for playback
/// that is hidden while paused it begins with the application.
pub proof fn law_playing_needs_the_time(
    config: ConfigView,
    lobby: Option<LobbyView>,
    info: VideoInfoView,
    media_type: Seq<char>,
    season: Seq<char>,
    episode: Seq<char>,
    playback: Playback,
    clock: Clock,
    url: Seq<char>,
)
    ensures
        ({
            let played = player_activity(
                config,
                lobby,
                info,
                media_type,
                season,
                episode,
                playback,
                clock,
                url,
            );
            let hidden = playback.is_paused && config.disable_when_paused;
            &&& played is Ok <==> clock.now is Some && (hidden ==> clock.app_start is Some)
            &&& played matches Ok(a) ==> (hidden ==> a.start == clock.app_start->0)
            &&& played matches Ok(a) ==> (playback.is_paused
                || !playback.total_duration.above_zero() ==> a.end is None)
        }),
{
}

/// A page of the application is told by the last part of its route, whatever
/// stands before it; any other route is that of browsing. It is shown since the
/// application was started, and without an end.
pub proof fn law_pages_are_told_by_route(before: Seq<char>, other: Seq<char>, clock: Clock)
    requires
        text::lacks(before, "?"@),
        text::lacks(other, "?"@),
        other.len() > 0 ==> other.last() != '/',
        !text::ends(other, "/settings"@),
        !text::ends(other, "/addons"@),
        !text::ends(other, "/library"@),
        !text::ends(other, "/calendar"@),
        !text::ends(other, "/discover"@),
        !text::ends(other, "/search"@),
        clock.app_start is Some,
    ensures
        shows_page(before + "/settings"@, "Settings"@, "Changing configuration"@, clock),
        shows_page(before + "/addons"@, "Addons"@, "Managing addons"@, clock),
        shows_page(before + "/library"@, "Library"@, "Browsing library"@, clock),
        shows_page(before + "/calendar"@, "Calendar"@, "Viewing Calendar"@, clock),
        shows_page(before + "/discover"@, "Discover"@, "Browsing Catalog"@, clock),
        shows_page(before + "/search"@, "Search"@, "Searching"@, clock),
        shows_page(other, "Browsing"@, "In MyStremio Menu"@, clock),
{
    reveal_strlit("?");
    reveal_strlit("/");
    reveal_strlit("/settings");
    reveal_strlit("/addons");
    reveal_strlit("/library");
    reveal_strlit("/calendar");
    reveal_strlit("/discover");
    reveal_strlit("/search");
    assert("/settings"@[1] == 's' && "/calendar"@[1] == 'c' && "/discover"@[1] == 'd');
    assert("/addons"@[1] == 'a' && "/search"@[1] == 's' && "/library"@[1] == 'l');
    lemma_page_of(before + "/settings"@);
    lemma_page_of(before + "/addons"@);
    lemma_page_of(before + "/library"@);
    lemma_page_of(before + "/calendar"@);
    lemma_page_of(before + "/discover"@);
    lemma_page_of(before + "/search"@);
    lemma_page_of(other);
    lemma_last_part(before, "/settings"@);
    lemma_last_part(before, "/addons"@);
    lemma_last_part(before, "/library"@);
    lemma_last_part(before, "/calendar"@);
    lemma_last_part(before, "/discover"@);
    lemma_last_part(before, "/search"@);
}

/// Whether a route is shown as a page with these lines.
pub open spec fn shows_page(
    url: Seq<char>,
    state: Seq<char>,
    details: Seq<char>,
    clock: Clock,
) -> bool {
    menu_activity(url, clock) matches Ok(a) && a.name == "MyStremio"@ && a.state == state
        && a.details == details && a.start == clock.app_start->0 && a.end is None
}

proof fn lemma_page_of(url: Seq<char>)
    requires
        text::lacks(url, "?"@),
        url.len() > 0 ==> url.last() != '/',
    ensures
        page_of(url) == url,
{
    reveal_strlit("?");
    reveal_strlit("/");
    text::lemma_pieces_single(url, "?"@);
    if text::ends(url, "/"@) {
        assert(url.skip(url.len() - 1)[0] == url.last());
    }
}

/// Of the names of pages a route ends in one alone.
proof fn lemma_last_part(before: Seq<char>, part: Seq<char>)
    requires
        part == "/settings"@ || part == "/addons"@ || part == "/library"@ || part == "/calendar"@
            || part == "/discover"@ || part == "/search"@,
    ensures
        text::ends(before + part, part),
        part != "/settings"@ ==> !text::ends(before + part, "/settings"@),
        part != "/addons"@ ==> !text::ends(before + part, "/addons"@),
        part != "/library"@ ==> !text::ends(before + part, "/library"@),
        part != "/calendar"@ ==> !text::ends(before + part, "/calendar"@),
        part != "/discover"@ ==> !text::ends(before + part, "/discover"@),
        part != "/search"@ ==> !text::ends(before + part, "/search"@),
{
    text::law_starts_and_ends(before, part);
    reveal_strlit("/settings");
    reveal_strlit("/addons");
    reveal_strlit("/library");
    reveal_strlit("/calendar");
    reveal_strlit("/discover");
    reveal_strlit("/search");
    let s = before + part;
    let n = s.len() as int;
    assert(s[n - 1] == part.last());
    assert(s[n - 2] == part[part.len() - 2]);
    assert(s[n - 3] == part[part.len() - 3]);
    lemma_ends_holds(s, "/settings"@);
    lemma_ends_holds(s, "/addons"@);
    lemma_ends_holds(s, "/library"@);
    lemma_ends_holds(s, "/calendar"@);
    lemma_ends_holds(s, "/discover"@);
    lemma_ends_holds(s, "/search"@);
}

proof fn lemma_ends_holds(s: Seq<char>, p: Seq<char>)
    requires
        p.len() >= 3,
    ensures
        text::ends(s, p) ==> s.len() >= 3 && s.last() == p.last() && s[s.len() - 2] == p[p.len()
            - 2] && s[s.len() - 3] == p[p.len() - 3],
{
    if text::ends(s, p) {
        let t = s.skip(s.len() - p.len());
        assert(t.last() == s.last());
        assert(t[p.len() - 2] == s[s.len() - 2]);
        assert(t[p.len() - 3] == s[s.len() - 3]);
    }
}

/// Slashes behind the route of a page do not count.
pub proof fn law_menu_ignores_slashes(page: Seq<char>, clock: Clock)
    requires
        text::lacks(page, "?"@),
    ensures
        menu_activity(page + "/"@, clock) == menu_activity(page, clock),
{
    reveal_strlit("?");
    reveal_strlit("/");
    text::lemma_pieces_single(page, "?"@);
    text::lemma_pieces_single(page + "/"@, "?"@);
    text::law_copies_are_taken_away(page, "/"@);
}

/// The times of what is played can be counted in 64 bits exactly where the time
/// now less the position can, and, while it runs and its length is known, that
/// and the length together can. Where the time cannot be told, or playback is
/// hidden, nothing is counted.
pub proof fn law_times_that_fit(config: ConfigView, playback: Playback, clock: Clock)
    ensures
        ({
            let hidden = playback.is_paused && config.disable_when_paused;
            let runs = !playback.is_paused && playback.total_duration.above_zero();
            &&& clock.now is None || hidden ==> times_fit(config, playback, clock)
            &&& clock.now matches Some(now) ==> {
                let start = now - playback.current_time.whole();
                let end = start + playback.total_duration.whole();
                !hidden ==> (times_fit(config, playback, clock) <==> i64::MIN <= start <= i64::MAX
                    && (runs ==> i64::MIN <= end <= i64::MAX))
            }
        }),
{
}

} // verus!
