//! What a route of the web page is about: the title, and the links to it.
use crate::config::Config;
use crate::config::ConfigView;
use crate::percent;
use crate::text;
use vstd::prelude::*;
use vstd::string::*;

verus! {

/// The parts of a video id: type, id, season and episode. An id has one part
/// for a film and three for an episode; one of Kitsu has its name in front.
pub open spec fn video_id_parts(s: Seq<char>) -> (Seq<char>, Seq<char>, Seq<char>, Seq<char>) {
    let parts = text::pieces(s, ":"@);
    let none = Seq::<char>::empty();
    if parts[0] == "kitsu"@ {
        if parts.len() == 2 {
            ("movie"@, parts[0] + ":"@ + parts[1], none, none)
        } else if parts.len() == 3 {
            ("series"@, parts[0] + ":"@ + parts[1], none, parts[2])
        } else {
            ("unknown"@, none, none, none)
        }
    } else if parts.len() == 1 {
        ("movie"@, parts[0], none, none)
    } else if parts.len() == 3 {
        ("series"@, parts[0], parts[1], parts[2])
    } else {
        ("unknown"@, none, none, none)
    }
}

/// Splits a video id into type, id, season and episode.
pub fn parse_video_id(video_id: &str) -> (parts: (String, String, String, String))
    ensures
        (parts.0@, parts.1@, parts.2@, parts.3@) == video_id_parts(video_id@),
{
    proof {
        reveal_strlit(":");
    }
    let parts = text::split(video_id, ":");
    let ghost pieces = text::pieces(video_id@, ":"@);
    proof {
        assert(pieces == text::texts(parts@));
        assert(pieces[0] == parts@[0]@);
        assert(pieces.len() > 1 ==> pieces[1] == parts@[1]@);
        assert(pieces.len() > 2 ==> pieces[2] == parts@[2]@);
    }
    let n: usize = parts.len();
    if text::same(parts[0], "kitsu") {
        if n == 2 {
            (
                "movie".to_owned(),
                parts[0].to_owned().concat(":").concat(parts[1]),
                String::new(),
                String::new(),
            )
        } else if n == 3 {
            (
                "series".to_owned(),
                parts[0].to_owned().concat(":").concat(parts[1]),
                String::new(),
                parts[2].to_owned(),
            )
        } else {
            ("unknown".to_owned(), String::new(), String::new(), String::new())
        }
    } else if n == 1 {
        ("movie".to_owned(), parts[0].to_owned(), String::new(), String::new())
    } else if n == 3 {
        (
            "series".to_owned(),
            parts[0].to_owned(),
            parts[1].to_owned(),
            parts[2].to_owned(),
        )
    } else {
        ("unknown".to_owned(), String::new(), String::new(), String::new())
    }
}

/// The part of a route that names the title: from the first `/series/` on,
/// without one from the first `/movie/` on, and without either nothing.
pub open spec fn segment_of(url: Seq<char>) -> Seq<char> {
    match text::position(url, "/series/"@) {
        Some(i) => url.skip(i),
        None => match text::position(url, "/movie/"@) {
            Some(i) => url.skip(i),
            None => Seq::empty(),
        },
    }
}

/// The part of a route that names the title.
pub fn content_segment(cur_url: &str) -> (segment: String)
    ensures
        segment@ == segment_of(cur_url@),
{
    let len: usize = cur_url.unicode_len();
    match text::find(cur_url, "/series/") {
        Some(i) => cur_url.substring_char(i, len).to_owned(),
        None => match text::find(cur_url, "/movie/") {
            Some(i) => cur_url.substring_char(i, len).to_owned(),
            None => String::new(),
        },
    }
}

/// The id of the title that a segment names: its first part behind the type,
/// decoded.
pub open spec fn content_id_of(segment: Seq<char>) -> Seq<char> {
    let rest = text::without_prefixes(text::without_prefixes(segment, "/series/"@), "/movie/"@);
    percent::decoded_or_raw(text::pieces(rest, "/"@)[0])
}

/// The id of the title that a segment names.
pub fn content_id_from_segment(last_segment: &str) -> (id: String)
    ensures
        id@ == content_id_of(last_segment@),
{
    proof {
        reveal_strlit("/series/");
        reveal_strlit("/movie/");
        reveal_strlit("/");
    }
    let rest = text::trim_start_matches(last_segment, "/series/");
    let rest = text::trim_start_matches(rest, "/movie/");
    let parts = text::split(rest, "/");
    proof {
        assert(text::texts(parts@)[0] == parts@[0]@);
    }
    percent::percent_decode(parts[0])
}

/// The links for a title: a page about it, the title in the application or on
/// the web, and the label of the first. Without buttons, and without a title,
/// there are none.
pub open spec fn targets_of(
    config: ConfigView,
    content_id: Seq<char>,
    segment: Seq<char>,
) -> (Option<Seq<char>>, Option<Seq<char>>, Seq<char>) {
    if !config.show_buttons || content_id.len() == 0 {
        (None, None, ""@)
    } else {
        let link = if config.link_target == "web"@ {
            "https://web.stremio.com/#/detail"@ + segment
        } else {
            "stremio:///detail"@ + segment
        };
        if text::starts(content_id, "kitsu:"@) {
            (
                Some("https://kitsu.app/anime/"@ + content_id.skip("kitsu:"@.len() as int)),
                Some(link),
                "Kitsu"@,
            )
        } else {
            (Some("https://www.imdb.com/title/"@ + content_id), Some(link), "IMDb"@)
        }
    }
}

/// The links for a title: a page about it, the title itself, and the label of
/// the first.
pub fn button_targets(config: &Config, content_id: &str, last_segment: &str) -> (targets: (
    Option<String>,
    Option<String>,
    &'static str,
))
    ensures
        (text::optional(targets.0), text::optional(targets.1), targets.2@) == targets_of(
            config@,
            content_id@,
            last_segment@,
        ),
{
    if !config.show_buttons || content_id.is_empty() {
        return (None, None, "");
    }
    let link = if text::same(config.link_target.as_str(), "web") {
        "https://web.stremio.com/#/detail".to_owned().concat(last_segment)
    } else {
        "stremio:///detail".to_owned().concat(last_segment)
    };
    match text::after_prefix(content_id, "kitsu:") {
        Some(id_part) => (
            Some("https://kitsu.app/anime/".to_owned().concat(id_part)),
            Some(link),
            "Kitsu",
        ),
        None => (
            Some("https://www.imdb.com/title/".to_owned().concat(content_id)),
            Some(link),
            "IMDb",
        ),
    }
}

/// Whether a route is that of the player.
pub open spec fn player_route(url: Seq<char>) -> bool {
    text::contains(url, "/player/"@)
}

/// Whether a route is that of the page about a title.
pub open spec fn detail_route(url: Seq<char>) -> bool {
    text::contains(url, "/detail/"@)
}

/// Whether a route is that of the player.
pub fn is_player_route(url: &str) -> (yes: bool)
    ensures
        yes == player_route(url@),
{
    text::find(url, "/player/").is_some()
}

/// Whether a route is that of the page about a title.
pub fn is_detail_route(url: &str) -> (yes: bool)
    ensures
        yes == detail_route(url@),
{
    text::find(url, "/detail/").is_some()
}

/// What a route is about.
pub struct Target {
    pub media_type: String,
    pub id: String,
    pub season: String,
    pub episode: String,
}

/// What a [`Target`] says.
#[verifier::ext_equal]
pub struct TargetView {
    pub media_type: Seq<char>,
    pub id: Seq<char>,
    pub season: Seq<char>,
    pub episode: Seq<char>,
}

impl View for Target {
    type V = TargetView;

    open spec fn view(&self) -> TargetView {
        TargetView {
            media_type: self.media_type@,
            id: self.id@,
            season: self.season@,
            episode: self.episode@,
        }
    }
}

/// The video id in the route of the player: its last part, without the query,
/// decoded.
pub open spec fn player_video_id(url: Seq<char>) -> Seq<char> {
    percent::decoded_or_raw(text::pieces(text::pieces(url, "/"@).last(), "?"@)[0])
}

/// What the route of the player is about.
pub open spec fn player_target(url: Seq<char>) -> TargetView {
    let parts = video_id_parts(player_video_id(url));
    TargetView { media_type: parts.0, id: parts.1, season: parts.2, episode: parts.3 }
}

/// The parts of the route of a page about a title, behind `/detail/` and
/// without the query.
pub open spec fn detail_parts(url: Seq<char>) -> Seq<Seq<char>> {
    text::pieces(text::pieces(text::pieces(url, "/detail/"@)[1], "?"@)[0], "/"@)
}

/// What a route is about: that of the player names a video; that of the page
/// about a title names its type and its id, where it has both.
pub open spec fn target_of(url: Seq<char>) -> Option<TargetView> {
    if player_route(url) {
        Some(player_target(url))
    } else if detail_route(url) && detail_parts(url).len() >= 2 {
        Some(
            TargetView {
                media_type: detail_parts(url)[0],
                id: percent::decoded_or_raw(detail_parts(url)[1]),
                season: Seq::empty(),
                episode: Seq::empty(),
            },
        )
    } else {
        None
    }
}

/// What an optional target says.
pub open spec fn target_view(target: Option<Target>) -> Option<TargetView> {
    match target {
        Some(t) => Some(t@),
        None => None,
    }
}

/// The video that the route of the player names.
fn video_of_player(url: &str) -> (target: Target)
    ensures
        target@ == player_target(url@),
{
    proof {
        reveal_strlit("/");
        reveal_strlit("?");
    }
    let parts = text::split(url, "/");
    let last = parts[parts.len() - 1];
    proof {
        assert(text::texts(parts@).last() == last@);
    }
    let heads = text::split(last, "?");
    proof {
        assert(text::texts(heads@)[0] == heads@[0]@);
    }
    let video_id = percent::percent_decode(heads[0]);
    let (media_type, id, season, episode) = parse_video_id(video_id.as_str());
    Target { media_type, id, season, episode }
}

/// The title that the route of a page about it names.
fn title_of_detail(url: &str) -> (target: Option<Target>)
    requires
        detail_route(url@),
        !player_route(url@),
    ensures
        target_view(target) == target_of(url@),
{
    proof {
        reveal_strlit("/");
        reveal_strlit("?");
        reveal_strlit("/detail/");
    }
    let parts = text::split(url, "/detail/");
    proof {
        text::lemma_position_found(url@, "/detail/"@, 0);
        let i = text::position(url@, "/detail/"@)->0;
        text::lemma_pieces_nonempty(url@.skip(i + 8), "/detail/"@);
        assert(text::texts(parts@).len() >= 2);
        assert(text::texts(parts@)[1] == parts@[1]@);
    }
    let heads = text::split(parts[1], "?");
    proof {
        assert(text::texts(heads@)[0] == heads@[0]@);
    }
    let fields = text::split(heads[0], "/");
    proof {
        assert(text::texts(fields@) == detail_parts(url@));
        assert(fields@.len() == detail_parts(url@).len());
    }
    if fields.len() < 2 {
        return None;
    }
    proof {
        assert(text::texts(fields@)[0] == fields@[0]@);
        assert(text::texts(fields@)[1] == fields@[1]@);
    }
    Some(
        Target {
            media_type: fields[0].to_owned(),
            id: percent::percent_decode(fields[1]),
            season: String::new(),
            episode: String::new(),
        },
    )
}

/// What a route is about.
pub fn route_target(url: &str) -> (target: Option<Target>)
    ensures
        target_view(target) == target_of(url@),
{
    if is_player_route(url) {
        Some(video_of_player(url))
    } else if is_detail_route(url) {
        title_of_detail(url)
    } else {
        None
    }
}

/// A video id reads back as the parts that it was put together from.
pub proof fn law_video_ids_read_back(id: Seq<char>, season: Seq<char>, episode: Seq<char>)
    requires
        text::lacks(id, ":"@),
        text::lacks(season, ":"@),
        text::lacks(episode, ":"@),
    ensures
        id != "kitsu"@ ==> {
            &&& video_id_parts(id) == ("movie"@, id, Seq::<char>::empty(), Seq::<char>::empty())
            &&& video_id_parts(id + ":"@ + season + ":"@ + episode) == (
                "series"@,
                id,
                season,
                episode,
            )
        },
        video_id_parts("kitsu"@ + ":"@ + id) == (
            "movie"@,
            "kitsu"@ + ":"@ + id,
            Seq::<char>::empty(),
            Seq::<char>::empty(),
        ),
        video_id_parts("kitsu"@ + ":"@ + id + ":"@ + episode) == (
            "series"@,
            "kitsu"@ + ":"@ + id,
            Seq::<char>::empty(),
            episode,
        ),
{
    reveal_strlit(":");
    reveal_strlit("kitsu");
    let p = ":"@;
    text::lemma_pieces_single(id, p);
    text::lemma_pieces_single(season, p);
    text::lemma_pieces_single(episode, p);
    text::lemma_pieces_join(season, p, episode);
    text::lemma_pieces_join(id, p, season + p + episode);
    assert(id + p + season + p + episode == id + p + (season + p + episode));
    assert(seq![id] + (seq![season] + seq![episode]) == seq![id, season, episode]);
    text::lemma_pieces_join("kitsu"@, p, id);
    assert(seq!["kitsu"@] + seq![id] == seq!["kitsu"@, id]);
    text::lemma_pieces_join(id, p, episode);
    text::lemma_pieces_join("kitsu"@, p, id + p + episode);
    assert("kitsu"@ + p + id + p + episode == "kitsu"@ + p + (id + p + episode));
    assert(seq!["kitsu"@] + (seq![id] + seq![episode]) == seq!["kitsu"@, id, episode]);
}

proof fn lemma_encoded_lacks(id: Seq<char>)
    ensures
        text::lacks(percent::url_encoded(id), "/"@),
        text::lacks(percent::url_encoded(id), "?"@),
{
    reveal_strlit("/");
    reveal_strlit("?");
    percent::law_encoded_characters(id);
    let e = percent::url_encoded(id);
    assert forall|i: int| 0 <= i < e.len() implies #[trigger] e[i] != '/' && e[i] != '?' by {
        let c: char = e[i];
        assert((c as u32) < 128 && (percent::unreserved(c as u8) || c == '%'));
    }
}

/// The route of the player leads back to the video whose encoded id it ends
/// in, with a query behind it or without.
pub proof fn law_player_route_names_video(route: Seq<char>, video_id: Seq<char>, query: Seq<char>)
    requires
        text::lacks(query, "/"@),
    ensures
        player_video_id(route + "/"@ + percent::url_encoded(video_id)) == video_id,
        player_video_id(route + "/"@ + (percent::url_encoded(video_id) + "?"@ + query))
            == video_id,
{
    reveal_strlit("/");
    reveal_strlit("?");
    let e = percent::url_encoded(video_id);
    lemma_encoded_lacks(video_id);
    percent::law_decode_encode(video_id);
    text::lemma_pieces_last(route, "/"@, e);
    text::lemma_pieces_single(e, "?"@);
    let tail = e + "?"@ + query;
    assert(text::lacks(tail, "/"@));
    text::lemma_pieces_last(route, "/"@, tail);
    text::lemma_pieces_join(e, "?"@, query);
}

/// Where `p` stands, its characters do.
proof fn lemma_occurs_holds(s: Seq<char>, p: Seq<char>, i: int, k: int)
    requires
        text::occurs_at(s, p, i),
        0 <= k < p.len(),
    ensures
        s[i + k] == p[k],
{
    assert(s.subrange(i, i + p.len())[k] == s[i + k]);
}

/// The route of a page about a title leads back to the type and the id that it
/// was made from.
pub proof fn law_detail_route_names_title(media_type: Seq<char>, id: Seq<char>)
    requires
        text::lacks(media_type, "/"@),
        text::lacks(media_type, "?"@),
        media_type != "player"@,
    ensures
        target_of("#/detail/"@ + media_type + "/"@ + percent::url_encoded(id)) == Some(
            TargetView { media_type, id, season: Seq::empty(), episode: Seq::empty() },
        ),
{
    reveal_strlit("#/detail/");
    reveal_strlit("/detail/");
    reveal_strlit("/player/");
    reveal_strlit("player");
    reveal_strlit("/");
    reveal_strlit("?");
    let e = percent::url_encoded(id);
    lemma_encoded_lacks(id);
    percent::law_decode_encode(id);
    let tail = media_type + "/"@ + e;
    let url = "#/detail/"@ + media_type + "/"@ + e;
    let slash = 9 + media_type.len();
    assert(url == "#/detail/"@ + tail);
    assert forall|i: int| 0 <= i < url.len() && #[trigger] url[i] == '/' implies i == 1 || i == 8
        || i == slash by {
        if 9 <= i < slash {
            assert(url[i] == media_type[i - 9]);
        } else if slash < i {
            assert(url[i] == e[i - slash - 1]);
        }
    }
    assert forall|i: int| !#[trigger] text::occurs_at(url, "/player/"@, i) by {
        if text::occurs_at(url, "/player/"@, i) {
            lemma_occurs_holds(url, "/player/"@, i, 0);
            lemma_occurs_holds(url, "/player/"@, i, 1);
            lemma_occurs_holds(url, "/player/"@, i, 7);
            assert(url[i] == '/' && url[i + 7] == '/');
            if i == 8 {
                assert forall|k: int| 0 <= k < 6 implies media_type[k] == "player"@[k] by {
                    lemma_occurs_holds(url, "/player/"@, i, k + 1);
                    assert(url[9 + k] == media_type[k]);
                }
                assert(media_type =~= "player"@);
            }
        }
    }
    text::lemma_position_none(url, "/player/"@, 0);
    assert(text::occurs_at(url, "/detail/"@, 1)) by {
        assert(url.subrange(1, 9) =~= "/detail/"@);
    }
    assert(!text::occurs_at(url, "/detail/"@, 0)) by {
        if text::occurs_at(url, "/detail/"@, 0) {
            lemma_occurs_holds(url, "/detail/"@, 0, 0);
        }
    }
    text::lemma_position_from(url, "/detail/"@, 0, 1);
    assert(url.skip(9) =~= tail);
    assert forall|i: int| 0 <= i implies !#[trigger] text::occurs_at(tail, "/detail/"@, i) by {
        if text::occurs_at(tail, "/detail/"@, i) {
            lemma_occurs_holds(tail, "/detail/"@, i, 0);
            lemma_occurs_holds(tail, "/detail/"@, i, 7);
            assert(url[9 + i] == tail[i] && url[9 + i + 7] == tail[i + 7]);
        }
    }
    text::lemma_position_none(tail, "/detail/"@, 0);
    assert(text::pieces(tail, "/detail/"@) == seq![tail]);
    assert(url.skip(1int + "/detail/"@.len()) == tail);
    assert(text::pieces(url, "/detail/"@) == seq![url.take(1)] + seq![tail]);
    assert forall|i: int| 0 <= i < tail.len() implies #[trigger] tail[i] != '?' by {
        if i < media_type.len() {
            assert(tail[i] == media_type[i]);
        } else if i > media_type.len() {
            assert(tail[i] == e[i - media_type.len() - 1]);
        }
    }
    text::lemma_pieces_single(tail, "?"@);
    text::lemma_pieces_join(media_type, "/"@, e);
    text::lemma_pieces_single(e, "/"@);
    assert(detail_parts(url) =~= seq![media_type, e]);
}

/// The segment of a title leads back to the id that it was made from.
pub proof fn law_segment_names_title(id: Seq<char>, rest: Seq<char>)
    requires
        id.len() > 0,
    ensures
        content_id_of("/series/"@ + (percent::url_encoded(id) + "/"@ + rest)) == id,
        content_id_of("/movie/"@ + (percent::url_encoded(id) + "/"@ + rest)) == id,
        content_id_of("/series/"@ + percent::url_encoded(id)) == id,
        content_id_of("/movie/"@ + percent::url_encoded(id)) == id,
{
    reveal_strlit("/");
    reveal_strlit("/series/");
    reveal_strlit("/movie/");
    let e = percent::url_encoded(id);
    lemma_encoded_lacks(id);
    percent::law_decode_encode(id);
    text::lemma_pieces_join(e, "/"@, rest);
    text::lemma_pieces_single(e, "/"@);
    assert(e.len() > 0) by {
        if e.len() == 0 {
            assert(percent::url_decoded(e) == Some(Seq::<char>::empty())) by {
                percent::law_decode_plain(e);
                assert(e == Seq::<char>::empty());
            }
        }
    }
    lemma_prefix_once("/series/"@, e);
    lemma_prefix_once("/movie/"@, e);
    lemma_prefix_once("/series/"@, e + "/"@ + rest);
    lemma_prefix_once("/movie/"@, e + "/"@ + rest);
    lemma_no_prefix("/series/"@, "/movie/"@ + e, 1);
    lemma_no_prefix("/series/"@, "/movie/"@ + (e + "/"@ + rest), 1);
    lemma_no_prefix("/movie/"@, e, 0);
    lemma_no_prefix("/movie/"@, e + "/"@ + rest, 0);
}

/// The route of a page about a title holds the segment of that title.
pub proof fn law_title_page_holds_segment(id: Seq<char>)
    ensures
        segment_of("#/detail/series/"@ + percent::url_encoded(id)) == "/series/"@
            + percent::url_encoded(id),
        segment_of("#/detail/movie/"@ + percent::url_encoded(id)) == "/movie/"@
            + percent::url_encoded(id),
{
    reveal_strlit("#/detail/series/");
    reveal_strlit("#/detail/movie/");
    reveal_strlit("/series/");
    reveal_strlit("/movie/");
    reveal_strlit("/");
    let e = percent::url_encoded(id);
    lemma_encoded_lacks(id);
    let series = "#/detail/series/"@ + e;
    assert(series.subrange(8, 16) =~= "/series/"@);
    assert forall|i: int| 0 <= i < 8 implies !#[trigger] text::occurs_at(
        series,
        "/series/"@,
        i,
    ) by {
        if text::occurs_at(series, "/series/"@, i) {
            lemma_occurs_holds(series, "/series/"@, i, 0);
            lemma_occurs_holds(series, "/series/"@, i, 1);
        }
    }
    text::lemma_position_from(series, "/series/"@, 0, 8);
    assert(series.skip(8) =~= "/series/"@ + e);
    let movie = "#/detail/movie/"@ + e;
    assert(movie.subrange(8, 15) =~= "/movie/"@);
    assert forall|i: int| 0 <= i < movie.len() && #[trigger] movie[i] == '/' implies i == 1 || i
        == 8 || i == 14 by {
        if i >= 15 {
            assert(movie[i] == e[i - 15]);
        }
    }
    assert forall|i: int| 0 <= i implies !#[trigger] text::occurs_at(movie, "/series/"@, i) by {
        if text::occurs_at(movie, "/series/"@, i) {
            lemma_occurs_holds(movie, "/series/"@, i, 0);
            lemma_occurs_holds(movie, "/series/"@, i, 1);
            lemma_occurs_holds(movie, "/series/"@, i, 7);
        }
    }
    text::lemma_position_none(movie, "/series/"@, 0);
    assert forall|i: int| 0 <= i < 8 implies !#[trigger] text::occurs_at(
        movie,
        "/movie/"@,
        i,
    ) by {
        if text::occurs_at(movie, "/movie/"@, i) {
            lemma_occurs_holds(movie, "/movie/"@, i, 0);
            lemma_occurs_holds(movie, "/movie/"@, i, 1);
        }
    }
    text::lemma_position_from(movie, "/movie/"@, 0, 8);
    assert(movie.skip(8) =~= "/movie/"@ + e);
}

proof fn lemma_no_prefix(p: Seq<char>, s: Seq<char>, i: int)
    requires
        0 <= i < p.len(),
        i < s.len(),
        s[i] != p[i],
    ensures
        text::without_prefixes(s, p) == s,
{
    if text::starts(s, p) {
        assert(s.take(p.len() as int)[i] == s[i]);
    }
}

proof fn lemma_prefix_once(p: Seq<char>, s: Seq<char>)
    requires
        p.len() > 0,
        p[0] == '/',
        s.len() > 0,
        s[0] != '/',
    ensures
        text::without_prefixes(p + s, p) == s,
{
    assert((p + s).take(p.len() as int) == p);
    assert((p + s).skip(p.len() as int) == s);
    lemma_no_prefix(p, s, 0);
}

/// An id with two parts, or more than three, and a Kitsu id without a number or
/// with more than an episode behind it, names nothing that is known.
pub proof fn law_other_ids_are_unknown(
    a: Seq<char>,
    b: Seq<char>,
    c: Seq<char>,
    rest: Seq<char>,
)
    requires
        text::lacks(a, ":"@),
        text::lacks(b, ":"@),
        text::lacks(c, ":"@),
    ensures
        ({
            let none = Seq::<char>::empty();
            let unknown = ("unknown"@, none, none, none);
            &&& a != "kitsu"@ ==> video_id_parts(a + ":"@ + b) == unknown
            &&& video_id_parts("kitsu"@) == unknown
            &&& video_id_parts(a + ":"@ + b + ":"@ + c + ":"@ + rest) == unknown
        }),
{
    reveal_strlit(":");
    reveal_strlit("kitsu");
    let p = ":"@;
    text::lemma_pieces_single(b, p);
    text::lemma_pieces_join(a, p, b);
    text::lemma_pieces_single("kitsu"@, p);
    text::lemma_pieces_nonempty(rest, p);
    text::lemma_pieces_join(c, p, rest);
    text::lemma_pieces_join(b, p, c + p + rest);
    text::lemma_pieces_join(a, p, b + p + (c + p + rest));
    assert(a + p + b + p + c + p + rest =~= a + p + (b + p + (c + p + rest)));
    let parts = text::pieces(a + p + b + p + c + p + rest, p);
    assert(parts.len() >= 4);
}

/// A route with `/player/` in it is that of the player, one with `/detail/` in it
/// is that of the page about a title, and one with neither is about nothing.
pub proof fn law_routes_are_told_apart(before: Seq<char>, after: Seq<char>, other: Seq<char>)
    ensures
        player_route(before + "/player/"@ + after),
        detail_route(before + "/detail/"@ + after),
        (forall|i: int|
            0 <= i && i + 8 <= other.len() ==> #[trigger] other.subrange(i, i + 8) != "/player/"@)
            ==> !player_route(other),
        (forall|i: int|
            0 <= i && i + 8 <= other.len() ==> #[trigger] other.subrange(i, i + 8) != "/detail/"@)
            ==> !detail_route(other),
        !player_route(other) && !detail_route(other) ==> target_of(other) is None,
{
    reveal_strlit("/player/");
    reveal_strlit("/detail/");
    text::law_contained_is_found(before, "/player/"@, after, other);
    text::law_contained_is_found(before, "/detail/"@, after, other);
}

/// The route of the player that ends in an encoded episode id is about that
/// episode of that season of that series; one that ends in the encoded id of a
/// film is about that film; and those of Kitsu likewise.
pub proof fn law_player_route_names_episode(
    route: Seq<char>,
    id: Seq<char>,
    season: Seq<char>,
    episode: Seq<char>,
    url: Seq<char>,
)
    requires
        text::lacks(id, ":"@),
        text::lacks(season, ":"@),
        text::lacks(episode, ":"@),
        player_route(url),
    ensures
        url == route + "/"@ + percent::url_encoded(id + ":"@ + season + ":"@ + episode) && id
            != "kitsu"@ ==> target_of(url) == Some(
            TargetView { media_type: "series"@, id, season, episode },
        ),
        url == route + "/"@ + percent::url_encoded(id) && id != "kitsu"@ ==> target_of(url)
            == Some(
            TargetView {
                media_type: "movie"@,
                id,
                season: Seq::empty(),
                episode: Seq::empty(),
            },
        ),
        url == route + "/"@ + percent::url_encoded("kitsu"@ + ":"@ + id + ":"@ + episode)
            ==> target_of(url) == Some(
            TargetView {
                media_type: "series"@,
                id: "kitsu"@ + ":"@ + id,
                season: Seq::empty(),
                episode,
            },
        ),
        url == route + "/"@ + percent::url_encoded("kitsu"@ + ":"@ + id) ==> target_of(url)
            == Some(
            TargetView {
                media_type: "movie"@,
                id: "kitsu"@ + ":"@ + id,
                season: Seq::empty(),
                episode: Seq::empty(),
            },
        ),
{
    reveal_strlit("/");
    let none = Seq::<char>::empty();
    assert(text::lacks(none, "/"@));
    law_video_ids_read_back(id, season, episode);
    law_player_route_names_video(route, id + ":"@ + season + ":"@ + episode, none);
    law_player_route_names_video(route, id, none);
    law_player_route_names_video(route, "kitsu"@ + ":"@ + id + ":"@ + episode, none);
    law_player_route_names_video(route, "kitsu"@ + ":"@ + id, none);
}

proof fn lemma_head_keeps_front(front: Seq<char>, rest: Seq<char>)
    requires
        text::lacks(front, "?"@),
        rest.len() > 0 ==> rest[0] == '/' || rest[0] == '?',
    ensures
        ({
            let head = text::pieces(front + rest, "?"@)[0];
            &&& head.len() >= front.len()
            &&& head.take(front.len() as int) == front
            &&& head.len() > front.len() ==> head[front.len() as int] == '/'
        }),
{
    reveal_strlit("?");
    let s = front + rest;
    let p = "?"@;
    text::lemma_position_found(s, p, 0);
    match text::position(s, p) {
        Some(k) => {
            text::lemma_occurs_char(s, p, k);
            if k < front.len() {
                assert(s[k] == front[k]);
            }
            assert(s.take(k).take(front.len() as int) =~= front);
            if k > front.len() {
                assert(s[front.len() as int] == rest[0]);
                if rest[0] == '?' {
                    text::lemma_occurs_char(s, p, front.len() as int);
                }
            }
        },
        None => {
            assert(s.take(front.len() as int) =~= front);
            if rest.len() > 0 {
                assert(s[front.len() as int] == rest[0]);
                text::lemma_occurs_char(s, p, front.len() as int);
            }
        },
    }
}

/// The segment of a route is its end, from where `/series/` stands first, or
/// `/movie/` where the other does not stand; without either it is empty.
pub proof fn law_segment_ends_route(before: Seq<char>, after: Seq<char>, url: Seq<char>)
    ensures
        url == before + "/series/"@ + after && (forall|i: int|
            0 <= i < before.len() ==> #[trigger] url.subrange(i, i + 8) != "/series/"@)
            ==> segment_of(url) == "/series/"@ + after,
        url == before + "/movie/"@ + after && (forall|i: int|
            0 <= i < before.len() ==> #[trigger] url.subrange(i, i + 7) != "/movie/"@) && (forall|
            i: int,
        |
            0 <= i && i + 8 <= url.len() ==> #[trigger] url.subrange(i, i + 8) != "/series/"@)
            ==> segment_of(url) == "/movie/"@ + after,
        (forall|i: int|
            0 <= i && i + 8 <= url.len() ==> #[trigger] url.subrange(i, i + 8) != "/series/"@) && (
        forall|i: int|
            0 <= i && i + 7 <= url.len() ==> #[trigger] url.subrange(i, i + 7) != "/movie/"@)
            ==> segment_of(url).len() == 0,
{
    reveal_strlit("/series/");
    reveal_strlit("/movie/");
    let none = Seq::<char>::empty();
    text::law_contained_is_found(none, "/series/"@, none, url);
    text::law_contained_is_found(none, "/movie/"@, none, url);
    if url == before + "/series/"@ + after && (forall|i: int|
        0 <= i < before.len() ==> #[trigger] url.subrange(i, i + 8) != "/series/"@) {
        let k = before.len() as int;
        assert(url.subrange(k, k + 8) =~= "/series/"@);
        text::lemma_position_from(url, "/series/"@, 0, k);
        assert(url.skip(k) =~= "/series/"@ + after);
    }
    if url == before + "/movie/"@ + after && (forall|i: int|
        0 <= i < before.len() ==> #[trigger] url.subrange(i, i + 7) != "/movie/"@) {
        let k = before.len() as int;
        assert(url.subrange(k, k + 7) =~= "/movie/"@);
        text::lemma_position_from(url, "/movie/"@, 0, k);
        assert(url.skip(k) =~= "/movie/"@ + after);
    }
}

/// The links for a title lead to the page about it, by its id, on Kitsu or on
/// IMDb, and to the title in the application or on the web, by its segment. There
/// are none where buttons are switched off or the id is empty.
pub proof fn law_links_lead_to_title(config: ConfigView, id: Seq<char>, segment: Seq<char>)
    ensures
        ({
            let (page, link, label) = targets_of(config, id, segment);
            let shown = config.show_buttons && id.len() > 0;
            let kitsu = id.len() >= 6 && id.subrange(0, 6) == "kitsu:"@;
            &&& !shown ==> page is None && link is None
            &&& shown && kitsu ==> label == "Kitsu"@ && page == Some(
                "https://kitsu.app/anime/"@ + id.skip(6),
            )
            &&& shown && !kitsu ==> label == "IMDb"@ && page == Some(
                "https://www.imdb.com/title/"@ + id,
            )
            &&& shown && config.link_target == "web"@ ==> link == Some(
                "https://web.stremio.com/#/detail"@ + segment,
            )
            &&& shown && config.link_target != "web"@ ==> link == Some(
                "stremio:///detail"@ + segment,
            )
        }),
{
    reveal_strlit("kitsu:");
    if id.len() >= 6 {
        assert(id.take(6) =~= id.subrange(0, 6));
    }
}

/// A query behind the route of the player does not count.
pub proof fn law_query_of_player_does_not_count(
    route: Seq<char>,
    last: Seq<char>,
    query: Seq<char>,
)
    requires
        player_route(route + "/"@ + last),
        text::lacks(last, "/"@),
        text::lacks(last, "?"@),
        text::lacks(query, "/"@),
    ensures
        target_of(route + "/"@ + (last + "?"@ + query)) == target_of(route + "/"@ + last),
{
    reveal_strlit("/");
    reveal_strlit("?");
    let short = route + "/"@ + last;
    let tail = last + "?"@ + query;
    let long = route + "/"@ + tail;
    text::lemma_position_found(short, "/player/"@, 0);
    let k = text::position(short, "/player/"@)->0;
    let n = "/player/"@.len() as int;
    assert(long.subrange(k, k + n) =~= short.subrange(k, k + n)) by {
        assert(long =~= short + ("?"@ + query));
    }
    text::lemma_position_found(long, "/player/"@, 0);
    assert(text::occurs_at(long, "/player/"@, k));
    assert(text::lacks(tail, "/"@));
    text::lemma_pieces_last(route, "/"@, last);
    text::lemma_pieces_last(route, "/"@, tail);
    text::lemma_pieces_single(last, "?"@);
    text::lemma_pieces_join(last, "?"@, query);
}

/// The id that a segment names is all that stands between the type and the next
/// slash, decoded.
pub proof fn law_segment_id_ends_at_slash(part: Seq<char>, rest: Seq<char>)
    requires
        part.len() > 0,
        text::lacks(part, "/"@),
    ensures
        content_id_of("/series/"@ + part) == percent::decoded_or_raw(part),
        content_id_of("/movie/"@ + part) == percent::decoded_or_raw(part),
        content_id_of("/series/"@ + (part + "/"@ + rest)) == percent::decoded_or_raw(part),
        content_id_of("/movie/"@ + (part + "/"@ + rest)) == percent::decoded_or_raw(part),
{
    reveal_strlit("/");
    reveal_strlit("/series/");
    reveal_strlit("/movie/");
    assert(part[0] != '/');
    text::lemma_pieces_join(part, "/"@, rest);
    text::lemma_pieces_single(part, "/"@);
    lemma_prefix_once("/series/"@, part);
    lemma_prefix_once("/movie/"@, part);
    lemma_prefix_once("/series/"@, part + "/"@ + rest);
    lemma_prefix_once("/movie/"@, part + "/"@ + rest);
    lemma_no_prefix("/series/"@, "/movie/"@ + part, 1);
    lemma_no_prefix("/series/"@, "/movie/"@ + (part + "/"@ + rest), 1);
    lemma_no_prefix("/movie/"@, part, 0);
    lemma_no_prefix("/movie/"@, part + "/"@ + rest, 0);
}

/// The video that the route of the player names is all that stands behind its
/// last slash and before a query, decoded.
pub proof fn law_player_video_is_last_part(
    route: Seq<char>,
    last: Seq<char>,
    query: Seq<char>,
    url: Seq<char>,
)
    requires
        text::lacks(last, "/"@),
        text::lacks(last, "?"@),
        text::lacks(query, "/"@),
        url == route + "/"@ + last || url == route + "/"@ + (last + "?"@ + query),
        player_route(url),
    ensures
        ({
            let parts = video_id_parts(percent::decoded_or_raw(last));
            target_of(url) == Some(
                TargetView { media_type: parts.0, id: parts.1, season: parts.2, episode: parts.3 },
            )
        }),
{
    reveal_strlit("/");
    reveal_strlit("?");
    let tail = last + "?"@ + query;
    assert(text::lacks(tail, "/"@));
    text::lemma_pieces_last(route, "/"@, last);
    text::lemma_pieces_last(route, "/"@, tail);
    text::lemma_pieces_single(last, "?"@);
    text::lemma_pieces_join(last, "?"@, query);
}

/// The id that the route of a page about a title names is all that stands behind
/// the type, up to the next slash or a query, decoded. A route without an id
/// names nothing.
pub proof fn law_detail_id_is_second_part(
    media_type: Seq<char>,
    part: Seq<char>,
    rest: Seq<char>,
    url: Seq<char>,
    short: Seq<char>,
)
    requires
        text::lacks(media_type, "/"@),
        text::lacks(media_type, "?"@),
        text::lacks(part, "/"@),
        text::lacks(part, "?"@),
        rest.len() > 0 ==> rest[0] == '/' || rest[0] == '?',
        url == "#/detail/"@ + (media_type + "/"@ + part + rest),
        !player_route(url),
        !text::contains(url.skip(9), "/detail/"@),
        short == "#/detail/"@ + media_type,
        !player_route(short),
        !text::contains(media_type, "/detail/"@),
    ensures
        target_of(url) == Some(
            TargetView {
                media_type,
                id: percent::decoded_or_raw(part),
                season: Seq::empty(),
                episode: Seq::empty(),
            },
        ),
        target_of(short) is None,
{
    reveal_strlit("/");
    reveal_strlit("?");
    let tail = media_type + "/"@ + part + rest;
    reveal_strlit("#/detail/");
    assert(url.skip(9) =~= tail);
    lemma_behind_detail(url, tail);
    let head = text::pieces(tail, "?"@)[0];
    let front = media_type + "/"@ + part;
    assert(text::lacks(front, "?"@)) by {
        assert forall|i: int| 0 <= i < front.len() implies #[trigger] front[i] != '?' by {
            if i < media_type.len() {
                assert(front[i] == media_type[i]);
            } else if i > media_type.len() {
                assert(front[i] == part[i - media_type.len() - 1]);
            }
        }
    }
    lemma_head_keeps_front(front, rest);
    let more = head.skip(front.len() as int);
    assert(head =~= media_type + "/"@ + (part + more));
    text::lemma_pieces_join(media_type, "/"@, part + more);
    if more.len() > 0 {
        assert(more[0] == '/');
        assert(part + more =~= part + "/"@ + more.skip(1));
        text::lemma_pieces_join(part, "/"@, more.skip(1));
        text::lemma_pieces_nonempty(more.skip(1), "/"@);
    } else {
        assert(part + more =~= part);
        text::lemma_pieces_single(part, "/"@);
    }
    let parts = detail_parts(url);
    assert(parts == seq![media_type] + text::pieces(part + more, "/"@));
    assert(parts[0] == media_type);
    assert(parts[1] == text::pieces(part + more, "/"@)[0]);
    lemma_behind_detail(short, media_type);
    text::lemma_pieces_single(media_type, "?"@);
    text::lemma_pieces_single(media_type, "/"@);
}

proof fn lemma_behind_detail(url: Seq<char>, tail: Seq<char>)
    requires
        url == "#/detail/"@ + tail,
        !text::contains(tail, "/detail/"@),
    ensures
        detail_route(url),
        text::pieces(url, "/detail/"@) == seq![url.take(1)] + seq![tail],
{
    reveal_strlit("#/detail/");
    reveal_strlit("/detail/");
    assert(url.skip(9) =~= tail);
    assert(text::occurs_at(url, "/detail/"@, 1)) by {
        assert(url.subrange(1, 9) =~= "/detail/"@);
    }
    assert(!text::occurs_at(url, "/detail/"@, 0)) by {
        if text::occurs_at(url, "/detail/"@, 0) {
            lemma_occurs_holds(url, "/detail/"@, 0, 0);
        }
    }
    text::lemma_position_from(url, "/detail/"@, 0, 1);
    assert(text::pieces(tail, "/detail/"@) == seq![tail]);
    assert(url.skip(1int + "/detail/"@.len()) == tail);
}

} // verus!
