//! What is known of titles.
use stremio_presence::json::Json;
use stremio_presence::metadata::{
    getvidinfo, metadata_request, metadata_url, video_info_from_json, video_info_from_reply,
    MetadataCache, VideoInfo,
};

const SERIES: &str = r#"{"meta":{"name":"Breaking Bad","poster":"http://p","year":"2008–2013",
    "videos":[
        {"id":"tt0903747:1:1","name":"Pilot"},
        {"id":"tt0903747:1:3","name":"...And the Bag's in the River","thumbnail":"http://t"},
        {"id":"tt0903747:1:3","name":"Twice"},
        {"id":"tt0903747:1:4","title":"Cancer Man"},
        {"id":"tt0903747:1:5"},
        {"name":"No id"}
    ]}}"#;

fn episode(season: &str, number: &str) -> VideoInfo {
    video_info_from_reply(Some(SERIES), "series", "tt0903747", season, number).unwrap()
}

#[test]
fn an_episode_is_found() {
    let info = episode("1", "3");
    assert_eq!(info.name, "Breaking Bad");
    assert_eq!(info.poster, "http://p");
    assert_eq!(info.year, "2008–2013");
    assert_eq!(info.thumbnail, "http://t");
    assert_eq!(info.epname, "...And the Bag's in the River");
}

#[test]
fn an_episode_without_a_name_has_another() {
    assert_eq!(episode("1", "4").epname, "Cancer Man");
    assert_eq!(episode("1", "5").epname, "Breaking Bad");
    assert_eq!(episode("9", "9").epname, "Unknown Episode Name");
    assert_eq!(episode("1", "4").thumbnail, "");
}

#[test]
fn an_episode_without_a_season_is_found() {
    let json = Json::parse(
        r#"{"meta":{"videos":[{"id":"kitsu:7:2","name":"Second"},{"id":"kitsu:7::2","name":"x"}]}}"#,
    )
    .unwrap();
    let info = video_info_from_json(&json, "series", "kitsu:7", "", "2").unwrap();
    assert_eq!(info.epname, "Second");
    assert_eq!(info.name, "Unknown Title");
}

#[test]
fn a_film_has_no_episodes() {
    let info = video_info_from_reply(Some(SERIES), "movie", "tt0903747", "1", "3").unwrap();
    assert_eq!(info.epname, "Unknown Episode Name");
    assert_eq!(info.name, "Breaking Bad");
}

#[test]
fn replies_that_say_nothing() {
    let read = |reply: Option<&str>| video_info_from_reply(reply, "movie", "tt1", "", "");
    assert!(read(None).is_none());
    assert!(read(Some("")).is_none());
    assert!(read(Some("[]")).is_none());
    assert!(read(Some("null")).is_none());
    assert!(read(Some("Not Found")).is_none());
    let empty = read(Some("{}")).unwrap();
    assert_eq!((empty.name.as_str(), empty.poster.as_str()), ("Unknown Title", ""));
    let odd = read(Some(r#"{"meta":{"name":5,"year":2008}}"#)).unwrap();
    assert_eq!((odd.name.as_str(), odd.year.as_str()), ("Unknown Title", ""));
}

#[test]
fn titles_are_asked_for_where_they_are_known() {
    assert_eq!(
        metadata_url("series", "tt0903747"),
        "https://v3-cinemeta.strem.io/meta/series/tt0903747.json"
    );
    assert_eq!(
        metadata_url("movie", "kitsu:44081"),
        "https://anime-kitsu.strem.fun/meta/movie/kitsu:44081.json"
    );
    let cache = MetadataCache::new();
    assert!(metadata_request(&cache, "", "tt1", "", "").is_none());
    assert!(metadata_request(&cache, "movie", "", "", "").is_none());
    assert!(metadata_request(&cache, "unknown", "tt1", "", "").is_none());
    assert!(metadata_request(&cache, "movie", "tt1", "", "").is_some());
}

#[test]
fn an_answer_is_remembered() {
    let mut cache = MetadataCache::new();
    let first = getvidinfo(&mut cache, "series", "tt0903747", "1", "3", Some(SERIES)).unwrap();
    assert!(metadata_request(&cache, "series", "tt0903747", "1", "3").is_none());
    let again = getvidinfo(&mut cache, "series", "tt0903747", "1", "3", Some("{}")).unwrap();
    assert_eq!(again.epname, first.epname);
    assert!(metadata_request(&cache, "series", "tt0903747", "1", "4").is_some());
    assert!(getvidinfo(&mut cache, "unknown", "x", "", "", Some(SERIES)).is_none());
}

#[test]
fn a_failed_lookup_is_tried_again() {
    let mut cache = MetadataCache::new();
    assert!(getvidinfo(&mut cache, "movie", "tt1", "", "", None).is_none());
    assert!(getvidinfo(&mut cache, "movie", "tt1", "", "", Some("{}")).is_some());
    assert!(metadata_request(&cache, "movie", "tt1", "", "").is_some());
    let found = getvidinfo(&mut cache, "movie", "tt1", "", "", Some(r#"{"meta":{"poster":"p"}}"#));
    assert_eq!(found.unwrap().poster, "p");
    assert!(metadata_request(&cache, "movie", "tt1", "", "").is_none());
}

#[test]
fn the_memory_is_bounded() {
    let mut cache = MetadataCache::new();
    let reply = r#"{"meta":{"name":"n"}}"#;
    for i in 0..257 {
        getvidinfo(&mut cache, "movie", &format!("tt{i}"), "", "", Some(reply));
    }
    assert!(metadata_request(&cache, "movie", "tt0", "", "").is_none());
    assert!(metadata_request(&cache, "movie", "tt256", "", "").is_none());
    getvidinfo(&mut cache, "movie", "last", "", "", Some(reply));
    assert!(metadata_request(&cache, "movie", "last", "", "").is_none());
    assert!(metadata_request(&cache, "movie", "tt0", "", "").is_some());
}

#[test]
fn a_default_title_is_empty() {
    let info = VideoInfo::default();
    assert_eq!(info.name, "");
    assert_eq!(info.clone().epname, "");
}
