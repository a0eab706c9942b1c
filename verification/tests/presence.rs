//! Routes, titles and the activities that are shown for them.
use stremio_presence::activity::{
    build_detail_activity, build_menu_activity, build_player_activity, timestamps_fit,
    weserv_contain, BeforeEpoch, Clock, Playback, ICON_URL, PAUSED_ICON_URL,
};
use stremio_presence::config::Config;
use stremio_presence::double::Double;
use stremio_presence::metadata::VideoInfo;
use stremio_presence::percent::percent_decode;
use stremio_presence::route::{
    button_targets, content_id_from_segment, content_segment, is_detail_route, is_player_route,
    parse_video_id, route_target,
};
use stremio_presence::shell::LobbyPresence;

fn double(value: f64) -> Double {
    Double { bits: value.to_bits() }
}

fn playback(current_time: f64, total_duration: f64, is_paused: bool) -> Playback {
    Playback {
        current_time: double(current_time),
        total_duration: double(total_duration),
        is_paused,
    }
}

fn clock() -> Clock {
    Clock { now: Some(1_700_000_000), app_start: Some(1_699_990_000) }
}

fn breaking_bad() -> VideoInfo {
    VideoInfo {
        poster: "https://images.metahub.space/poster/small/tt0903747/img".to_string(),
        name: "Breaking Bad".to_string(),
        year: "2008–2013".to_string(),
        thumbnail: String::new(),
        epname: "...And the Bag's in the River".to_string(),
    }
}

fn lobby(members: i32) -> Option<LobbyPresence> {
    Some(LobbyPresence {
        party_id: "party-1".to_string(),
        join_secret: "https://example.org/join".to_string(),
        member_count: members,
        max_size: 8,
    })
}

const PLAYER_URL: &str = "#/player/abc/series/tt0903747/tt0903747%3A1%3A3";

#[test]
fn parses_movie_and_series_ids() {
    assert_eq!(
        parse_video_id("tt0111161"),
        ("movie".into(), "tt0111161".into(), "".into(), "".into())
    );
    assert_eq!(
        parse_video_id("tt0903747:1:3"),
        ("series".into(), "tt0903747".into(), "1".into(), "3".into())
    );
    assert_eq!(
        parse_video_id("kitsu:44081"),
        ("movie".into(), "kitsu:44081".into(), "".into(), "".into())
    );
    assert_eq!(
        parse_video_id("kitsu:44081:5"),
        ("series".into(), "kitsu:44081".into(), "".into(), "5".into())
    );
}

#[test]
fn other_video_ids_are_unknown() {
    let unknown: (String, String, String, String) =
        ("unknown".into(), "".into(), "".into(), "".into());
    assert_eq!(parse_video_id("tt1:2"), unknown);
    assert_eq!(parse_video_id("tt1:2:3:4"), unknown);
    assert_eq!(parse_video_id("kitsu"), unknown);
    assert_eq!(parse_video_id("kitsu:1:2:3"), unknown);
    assert_eq!(
        parse_video_id(""),
        ("movie".into(), "".into(), "".into(), "".into())
    );
}

#[test]
fn extracts_detail_route_content() {
    let seg = content_segment("/detail/series/tt0903747/tt0903747%3A1%3A3");
    assert_eq!(seg, "/series/tt0903747/tt0903747%3A1%3A3");
    assert_eq!(content_id_from_segment(&seg), "tt0903747");
}

#[test]
fn segments_prefer_series_and_decode_the_id() {
    assert_eq!(content_segment("/movie/tt1/series/tt2"), "/series/tt2");
    assert_eq!(content_segment("#/detail/movie/tt1"), "/movie/tt1");
    assert_eq!(content_segment("#/discover"), "");
    assert_eq!(content_id_from_segment("/series/kitsu%3A1/x"), "kitsu:1");
    assert_eq!(content_id_from_segment("/series//series/tt3"), "tt3");
    assert_eq!(content_id_from_segment(""), "");
}

#[test]
fn builds_imdb_and_deeplink_buttons() {
    let mut cfg = Config::default();
    let seg = "/series/tt0903747/tt0903747:1:3";
    let (ext, deep, label) = button_targets(&cfg, "tt0903747", seg);
    assert_eq!(label, "IMDb");
    assert_eq!(ext.unwrap(), "https://www.imdb.com/title/tt0903747");
    assert_eq!(
        deep.unwrap(),
        "stremio:///detail/series/tt0903747/tt0903747:1:3"
    );

    cfg.link_target = "web".into();
    let (_, deep_web, _) = button_targets(&cfg, "tt0903747", seg);
    assert_eq!(
        deep_web.unwrap(),
        "https://web.stremio.com/#/detail/series/tt0903747/tt0903747:1:3"
    );
}

#[test]
fn builds_kitsu_buttons() {
    let cfg = Config::default();
    let (ext, _, label) = button_targets(&cfg, "kitsu:44081", "/series/kitsu:44081");
    assert_eq!(label, "Kitsu");
    assert_eq!(ext.unwrap(), "https://kitsu.app/anime/44081");
}

#[test]
fn buttons_disabled_by_config() {
    let cfg = Config {
        show_buttons: false,
        ..Config::default()
    };
    let (ext, deep, _) = button_targets(&cfg, "tt0903747", "/series/tt0903747");
    assert!(ext.is_none() && deep.is_none());
}

#[test]
fn no_buttons_without_an_id() {
    let (ext, deep, label) = button_targets(&Config::default(), "", "");
    assert!(ext.is_none() && deep.is_none());
    assert_eq!(label, "");
}

#[test]
fn poster_is_proxied_and_encoded() {
    let out = weserv_contain("https://images.metahub.space/poster/x/tt1/img.jpg");
    assert!(out.starts_with("https://images.weserv.nl/?url=https%3A%2F%2Fimages.metahub.space"));
    assert!(out.ends_with("&w=1024&h=1024&fit=contain"));
}

#[test]
fn player_video_id_is_last_path_segment() {
    let url = "/player/eyJ4Ijoie/eyJ5Ijoie/tt0903747/series/tt0903747%3A1%3A3";
    let raw = url.split('/').next_back().unwrap();
    let (t, id, s, e) = parse_video_id(&percent_decode(raw));
    assert_eq!(
        (t.as_str(), id.as_str(), s.as_str(), e.as_str()),
        ("series", "tt0903747", "1", "3")
    );
}

#[test]
fn routes_name_what_they_are_about() {
    assert!(is_player_route(PLAYER_URL));
    assert!(!is_detail_route(PLAYER_URL));
    let video = route_target("#/player/a/b/tt1%3A2%3A3?x=1").unwrap();
    assert_eq!(
        (video.media_type.as_str(), video.id.as_str(), video.season.as_str(), video.episode.as_str()),
        ("series", "tt1", "2", "3")
    );
    let title = route_target("#/detail/series/kitsu%3A7/kitsu%3A7%3A1?play=1").unwrap();
    assert_eq!(
        (title.media_type.as_str(), title.id.as_str(), title.season.as_str(), title.episode.as_str()),
        ("series", "kitsu:7", "", "")
    );
    assert!(route_target("#/detail/series?tt1/x").is_none());
    assert!(route_target("#/library").is_none());
}

#[test]
fn lobby_others_text() {
    let mk = |n| LobbyPresence {
        party_id: "p".into(),
        join_secret: "s".into(),
        member_count: n,
        max_size: 8,
    };
    assert_eq!(mk(1).others_text(), None);
    assert_eq!(mk(2).others_text().unwrap(), "Watching with 1 other");
    assert_eq!(mk(4).others_text().unwrap(), "Watching with 3 others");
}

#[test]
fn others_text_at_the_ends_of_the_range() {
    let mk = |n| LobbyPresence {
        party_id: "p".into(),
        join_secret: "s".into(),
        member_count: n,
        max_size: 8,
    };
    assert_eq!(mk(i32::MIN).others_text(), None);
    assert_eq!(mk(0).others_text(), None);
    assert_eq!(mk(11).others_text().unwrap(), "Watching with 10 others");
    assert_eq!(
        mk(i32::MAX).others_text().unwrap(),
        "Watching with 2147483646 others"
    );
}

#[test]
fn playing_an_episode() {
    let a = build_player_activity(
        &Config::default(),
        &None,
        &breaking_bad(),
        "series",
        "1",
        "3",
        playback(600.9, 2880.5, false),
        clock(),
        PLAYER_URL,
    )
    .unwrap();
    assert_eq!(a.name, "Breaking Bad");
    assert_eq!(a.details, "...And the Bag's in the River");
    assert_eq!(a.state, "S1E3");
    assert_eq!(a.start, 1_699_999_400);
    assert_eq!(a.end, Some(1_700_002_280));
    assert_eq!(a.large_text, "Breaking Bad (2008–2013)");
    assert_eq!(
        a.large_image,
        "https://images.weserv.nl/?url=https%3A%2F%2Fimages.metahub.space%2Fposter%2Fsmall%2Ftt0903747%2Fimg&w=1024&h=1024&fit=contain"
    );
    let badge = a.small.unwrap();
    assert_eq!((badge.image.as_str(), badge.text.as_str()), (ICON_URL, "Playing"));
    assert_eq!(a.buttons.len(), 2);
    assert_eq!(a.buttons[0].label, "IMDb");
    assert_eq!(a.buttons[0].url, "https://www.imdb.com/title/tt0903747");
    assert_eq!(a.buttons[1].label, "Open in Stremio");
    assert_eq!(
        a.buttons[1].url,
        "stremio:///detail/series/tt0903747/tt0903747%3A1%3A3"
    );
    assert!(a.party.is_none());
}

#[test]
fn playing_a_film_while_paused() {
    let config = Config {
        swap_name_and_title: true,
        ..Config::default()
    };
    let info = VideoInfo {
        poster: String::new(),
        year: String::new(),
        ..breaking_bad()
    };
    let a = build_player_activity(
        &config,
        &None,
        &info,
        "movie",
        "",
        "",
        playback(90.0, 100.0, true),
        clock(),
        "#/player/x/tt1",
    )
    .unwrap();
    assert_eq!(a.state, "Paused");
    assert_eq!(a.start, 1_699_999_910);
    assert_eq!(a.end, None);
    assert_eq!(a.large_image, ICON_URL);
    assert_eq!(a.large_text, "Breaking Bad");
    let badge = a.small.unwrap();
    assert_eq!((badge.image.as_str(), badge.text.as_str()), (PAUSED_ICON_URL, "Paused"));
    assert!(a.buttons.is_empty());
}

#[test]
fn swapping_name_and_title() {
    let config = Config {
        swap_name_and_title: true,
        show_small_image: false,
        ..Config::default()
    };
    let a = build_player_activity(
        &config,
        &None,
        &breaking_bad(),
        "series",
        "1",
        "3",
        playback(0.0, 0.0, false),
        clock(),
        PLAYER_URL,
    )
    .unwrap();
    assert_eq!(a.name, "...And the Bag's in the River");
    assert_eq!(a.details, "Breaking Bad");
    assert!(a.small.is_none());
    assert_eq!(a.end, None);
}

#[test]
fn a_film_without_a_year_is_being_watched() {
    let info = VideoInfo {
        year: String::new(),
        ..breaking_bad()
    };
    let build = |lobby: Option<LobbyPresence>| {
        build_player_activity(
            &Config::default(),
            &lobby,
            &info,
            "movie",
            "",
            "",
            playback(1.0, 2.0, false),
            clock(),
            PLAYER_URL,
        )
        .unwrap()
        .state
    };
    assert_eq!(build(None), "Watching");
    assert_eq!(build(lobby(3)), "Watching with 2 others");
}

#[test]
fn watch_party_while_playing() {
    let a = build_player_activity(
        &Config::default(),
        &lobby(3),
        &breaking_bad(),
        "series",
        "1",
        "3",
        playback(1.0, 2.0, false),
        clock(),
        PLAYER_URL,
    )
    .unwrap();
    assert_eq!(a.state, "S1E3 • Watching with 2 others");
    let party = a.party.unwrap();
    assert_eq!((party.id.as_str(), party.size, party.max), ("party-1", 3, 8));
    assert_eq!(a.buttons.len(), 2);
    assert_eq!(a.buttons[1].label, "Join Watch Party");
    assert_eq!(a.buttons[1].url, "https://example.org/join");
}

#[test]
fn watch_party_without_a_secret_has_no_button() {
    let party = lobby(1).map(|l| LobbyPresence {
        join_secret: String::new(),
        ..l
    });
    let a = build_player_activity(
        &Config::default(),
        &party,
        &breaking_bad(),
        "series",
        "1",
        "3",
        playback(1.0, 2.0, false),
        clock(),
        PLAYER_URL,
    )
    .unwrap();
    assert_eq!(a.state, "S1E3");
    assert_eq!(a.buttons.len(), 1);
    assert_eq!(a.buttons[0].label, "IMDb");
}

#[test]
fn watch_party_while_looking_at_a_title() {
    let a = build_detail_activity(
        &Config::default(),
        &lobby(2),
        &breaking_bad(),
        "series",
        clock(),
        "#/detail/series/tt0903747",
    )
    .unwrap();
    assert_eq!(a.state, "Viewing Series • Watching with 1 other");
    assert_eq!(a.party.unwrap().size, 2);
    assert_eq!(a.buttons[1].label, "Join Watch Party");
}

#[test]
fn looking_at_a_title() {
    let a = build_detail_activity(
        &Config::default(),
        &None,
        &breaking_bad(),
        "movie",
        clock(),
        "#/detail/movie/tt0903747",
    )
    .unwrap();
    assert_eq!((a.name.as_str(), a.details.as_str()), ("Breaking Bad", "Breaking Bad"));
    assert_eq!(a.state, "Viewing Movie");
    assert_eq!((a.start, a.end), (1_699_990_000, None));
    let badge = a.small.unwrap();
    assert_eq!((badge.image.as_str(), badge.text.as_str()), (ICON_URL, "MyStremio"));
    assert_eq!(a.buttons.len(), 2);
    assert_eq!(a.buttons[1].url, "stremio:///detail/movie/tt0903747");
}

#[test]
fn pages_of_the_application() {
    let lines = |url: &str| {
        let a = build_menu_activity(url, clock()).unwrap();
        assert_eq!(a.name, "MyStremio");
        assert_eq!((a.large_image.as_str(), a.large_text.as_str()), (ICON_URL, "MyStremio"));
        assert!(a.small.is_none() && a.buttons.is_empty() && a.party.is_none());
        (a.state, a.details)
    };
    let pair = |s: &str, d: &str| (s.to_string(), d.to_string());
    assert_eq!(lines("#/settings"), pair("Settings", "Changing configuration"));
    assert_eq!(lines("#/addons/"), pair("Addons", "Managing addons"));
    assert_eq!(lines("#/library//?sort=1"), pair("Library", "Browsing library"));
    assert_eq!(lines("#/calendar"), pair("Calendar", "Viewing Calendar"));
    assert_eq!(lines("#/discover?x=/y"), pair("Discover", "Browsing Catalog"));
    assert_eq!(lines("#/search?q=a"), pair("Search", "Searching"));
    assert_eq!(lines("#/search/x"), pair("Browsing", "In MyStremio Menu"));
    assert_eq!(lines(""), pair("Browsing", "In MyStremio Menu"));
}

#[test]
fn times_before_the_epoch_fail() {
    let late = Clock { now: None, app_start: Some(1) };
    let early = Clock { now: Some(1), app_start: None };
    let hidden = Config {
        disable_when_paused: true,
        ..Config::default()
    };
    let build = |config: &Config, clock: Clock, paused: bool| {
        build_player_activity(
            config,
            &None,
            &breaking_bad(),
            "movie",
            "",
            "",
            playback(1.0, 2.0, paused),
            clock,
            PLAYER_URL,
        )
    };
    assert!(matches!(build(&Config::default(), late, false), Err(BeforeEpoch {})));
    assert!(build(&Config::default(), early, true).is_ok());
    assert!(matches!(build(&hidden, early, true), Err(BeforeEpoch {})));
    assert_eq!(build(&hidden, clock(), true).unwrap().start, 1_699_990_000);
    assert!(build_detail_activity(&hidden, &None, &breaking_bad(), "movie", early, PLAYER_URL).is_err());
    assert!(build_detail_activity(&hidden, &None, &breaking_bad(), "movie", late, PLAYER_URL).is_ok());
    assert!(build_menu_activity("", early).is_err());
}

#[test]
fn times_out_of_range_are_found() {
    let fits = |time: f64, duration: f64, paused: bool| {
        timestamps_fit(&Config::default(), playback(time, duration, paused), clock())
    };
    assert!(fits(10.0, 20.0, false));
    assert!(fits(1e300, 0.0, false));
    assert!(fits(f64::NAN, f64::NAN, false));
    assert!(!fits(-1e300, 0.0, false));
    assert!(!fits(0.0, 1e300, false));
    assert!(fits(0.0, 1e300, true));
    let hidden = Config {
        disable_when_paused: true,
        ..Config::default()
    };
    assert!(timestamps_fit(&hidden, playback(-1e300, 0.0, true), clock()));
}
