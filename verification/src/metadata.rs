//! What is known of a title, and where to ask for it.
use crate::json;
use crate::json::Json;
use crate::json::JsonView;
use crate::text;
use vstd::hash_map::StringHashMap;
use vstd::prelude::*;
use vstd::string::*;

verus! {

/// Where titles are asked for.
pub const CINEMETA_ENDPOINT: &'static str = "https://v3-cinemeta.strem.io/meta";

/// Where titles of Kitsu are asked for.
pub const KITSU_ENDPOINT: &'static str = "https://anime-kitsu.strem.fun/meta";

/// What is known of a title.
#[derive(Debug)]
pub struct VideoInfo {
    pub poster: String,
    pub name: String,
    pub year: String,
    pub thumbnail: String,
    pub epname: String,
}

/// What a [`VideoInfo`] says.
#[verifier::ext_equal]
pub struct VideoInfoView {
    pub poster: Seq<char>,
    pub name: Seq<char>,
    pub year: Seq<char>,
    pub thumbnail: Seq<char>,
    pub epname: Seq<char>,
}

impl View for VideoInfo {
    type V = VideoInfoView;

    open spec fn view(&self) -> VideoInfoView {
        VideoInfoView {
            poster: self.poster@,
            name: self.name@,
            year: self.year@,
            thumbnail: self.thumbnail@,
            epname: self.epname@,
        }
    }
}

impl Default for VideoInfo {
    fn default() -> (info: VideoInfo)
        ensures
            info@ == (VideoInfoView {
                poster: Seq::empty(),
                name: Seq::empty(),
                year: Seq::empty(),
                thumbnail: Seq::empty(),
                epname: Seq::empty(),
            }),
    {
        VideoInfo {
            poster: String::new(),
            name: String::new(),
            year: String::new(),
            thumbnail: String::new(),
            epname: String::new(),
        }
    }
}

impl Clone for VideoInfo {
    fn clone(&self) -> (info: VideoInfo)
        ensures
            info@ == self@,
    {
        VideoInfo {
            poster: self.poster.clone(),
            name: self.name.clone(),
            year: self.year.clone(),
            thumbnail: self.thumbnail.clone(),
            epname: self.epname.clone(),
        }
    }
}

/// What an optional [`VideoInfo`] says.
pub open spec fn info_view(info: Option<VideoInfo>) -> Option<VideoInfoView> {
    match info {
        Some(i) => Some(i@),
        None => None,
    }
}

/// The id by which an episode goes in the list of videos.
pub open spec fn episode_id(id: Seq<char>, season: Seq<char>, episode: Seq<char>) -> Seq<char> {
    if season.len() == 0 {
        id + ":"@ + episode
    } else {
        id + ":"@ + season + ":"@ + episode
    }
}

/// The first video from position `i` on that goes by the id `wanted`.
pub open spec fn video_from(videos: Seq<JsonView>, wanted: Seq<char>, i: int) -> Option<JsonView>
    decreases videos.len() - i,
{
    if i < 0 || i >= videos.len() {
        None
    } else if videos[i].text_at("id"@) == Some(wanted) {
        Some(videos[i])
    } else {
        video_from(videos, wanted, i + 1)
    }
}

/// A text, or another where there is none.
pub open spec fn text_or(s: Option<Seq<char>>, fallback: Seq<char>) -> Seq<char> {
    match s {
        Some(t) => t,
        None => fallback,
    }
}

/// The video of an episode, in what is said of a series.
pub open spec fn episode_video(
    meta: JsonView,
    media_type: Seq<char>,
    id: Seq<char>,
    season: Seq<char>,
    episode: Seq<char>,
) -> Option<JsonView> {
    if media_type == "series"@ {
        match meta.member("videos"@) {
            Some(JsonView::Array(videos)) => video_from(
                videos,
                episode_id(id, season, episode),
                0,
            ),
            _ => None,
        }
    } else {
        None
    }
}

/// The name of an episode: its name, without one its title, without either the
/// name of the series.
pub open spec fn episode_name(video: JsonView, series: Seq<char>) -> Seq<char> {
    text_or(video.text_at("name"@), text_or(video.text_at("title"@), series))
}

/// What an answer says of a title.
pub open spec fn info_of(
    answer: JsonView,
    media_type: Seq<char>,
    id: Seq<char>,
    season: Seq<char>,
    episode: Seq<char>,
) -> Option<VideoInfoView> {
    if answer !is Object {
        None
    } else {
        match answer.member("meta"@) {
            Some(meta) => {
                let name = text_or(meta.text_at("name"@), "Unknown Title"@);
                let video = episode_video(meta, media_type, id, season, episode);
                Some(
                    VideoInfoView {
                        poster: text_or(meta.text_at("poster"@), Seq::empty()),
                        name,
                        year: text_or(meta.text_at("year"@), Seq::empty()),
                        thumbnail: match video {
                            Some(v) => text_or(v.text_at("thumbnail"@), Seq::empty()),
                            None => Seq::empty(),
                        },
                        epname: match video {
                            Some(v) => episode_name(v, name),
                            None => "Unknown Episode Name"@,
                        },
                    },
                )
            },
            None => Some(
                VideoInfoView {
                    poster: Seq::empty(),
                    name: "Unknown Title"@,
                    year: Seq::empty(),
                    thumbnail: Seq::empty(),
                    epname: "Unknown Episode Name"@,
                },
            ),
        }
    }
}

fn copy_or(s: Option<&str>, fallback: &str) -> (t: String)
    ensures
        t@ == text_or(
            match s {
                Some(x) => Some(x@),
                None => None,
            },
            fallback@,
        ),
{
    match s {
        Some(x) => x.to_owned(),
        None => fallback.to_owned(),
    }
}

/// The video of an episode, in what is said of a series.
fn find_episode<'a>(
    meta: &'a Json,
    media_type: &str,
    id: &str,
    season: &str,
    episode: &str,
) -> (video: Option<&'a Json>)
    ensures
        video is Some <==> episode_video(meta@, media_type@, id@, season@, episode@) is Some,
        video matches Some(v) ==> episode_video(meta@, media_type@, id@, season@, episode@)
            == Some(v@),
{
    if !text::same(media_type, "series") {
        return None;
    }
    let list = match meta.get("videos") {
        Some(list) => list,
        None => return None,
    };
    let videos = match list.as_array() {
        Some(videos) => videos,
        None => return None,
    };
    let wanted = if season.is_empty() {
        id.to_owned().concat(":").concat(episode)
    } else {
        id.to_owned().concat(":").concat(season).concat(":").concat(episode)
    };
    let ghost items = list@->Array_0;
    let mut i: usize = 0;
    while i < videos.len()
        invariant
            videos@.len() == items.len(),
            forall|j: int| 0 <= j < videos@.len() ==> #[trigger] items[j] == videos@[j]@,
            i <= videos@.len(),
            wanted@ == episode_id(id@, season@, episode@),
            episode_video(meta@, media_type@, id@, season@, episode@) == video_from(
                items,
                wanted@,
                i as int,
            ),
        decreases videos@.len() - i,
    {
        proof {
            assert(items[i as int] == videos@[i as int]@);
        }
        let found = match videos[i].str_at("id") {
            Some(video_id) => text::same(video_id, wanted.as_str()),
            None => false,
        };
        if found {
            return Some(&videos[i]);
        }
        i = i + 1;
    }
    None
}

/// What an answer says of a title.
pub fn video_info_from_json(
    answer: &Json,
    media_type: &str,
    id: &str,
    season: &str,
    episode: &str,
) -> (info: Option<VideoInfo>)
    ensures
        info_view(info) == info_of(answer@, media_type@, id@, season@, episode@),
{
    proof {
        reveal_strlit("");
        assert(""@ == Seq::<char>::empty());
    }
    if !answer.is_object() {
        return None;
    }
    let meta = match answer.get("meta") {
        Some(meta) => meta,
        None => {
            return Some(
                VideoInfo {
                    poster: String::new(),
                    name: "Unknown Title".to_owned(),
                    year: String::new(),
                    thumbnail: String::new(),
                    epname: "Unknown Episode Name".to_owned(),
                },
            );
        },
    };
    let poster = copy_or(meta.str_at("poster"), "");
    let name = copy_or(meta.str_at("name"), "Unknown Title");
    let year = copy_or(meta.str_at("year"), "");
    let (thumbnail, epname) = match find_episode(meta, media_type, id, season, episode) {
        Some(video) => {
            let thumbnail = copy_or(video.str_at("thumbnail"), "");
            let epname = match video.str_at("name") {
                Some(epname) => epname.to_owned(),
                None => copy_or(video.str_at("title"), name.as_str()),
            };
            (thumbnail, epname)
        },
        None => (String::new(), "Unknown Episode Name".to_owned()),
    };
    Some(VideoInfo { poster, name, year, thumbnail, epname })
}

/// What a reply says of a title. No reply, and one that is no JSON object, says
/// nothing.
pub open spec fn info_of_reply(
    reply: Option<Seq<char>>,
    media_type: Seq<char>,
    id: Seq<char>,
    season: Seq<char>,
    episode: Seq<char>,
) -> Option<VideoInfoView> {
    match reply {
        Some(s) => match json::parsed_json(s) {
            Some(answer) => info_of(answer, media_type, id, season, episode),
            None => None,
        },
        None => None,
    }
}

/// What a reply says of a title.
pub fn video_info_from_reply(
    reply: Option<&str>,
    media_type: &str,
    id: &str,
    season: &str,
    episode: &str,
) -> (info: Option<VideoInfo>)
    ensures
        info_view(info) == info_of_reply(
            match reply {
                Some(s) => Some(s@),
                None => None,
            },
            media_type@,
            id@,
            season@,
            episode@,
        ),
{
    match reply {
        Some(s) => match Json::parse(s) {
            Some(answer) => video_info_from_json(&answer, media_type, id, season, episode),
            None => None,
        },
        None => None,
    }
}

/// Whether an answer tells anything of the title.
pub open spec fn resolved(info: VideoInfoView) -> bool {
    info.poster.len() > 0 || info.name != "Unknown Title"@
}

/// Whether a title can be asked for.
pub open spec fn askable(media_type: Seq<char>, id: Seq<char>) -> bool {
    media_type.len() > 0 && id.len() > 0 && media_type != "unknown"@
}

/// Where a title is asked for.
pub open spec fn url_of(media_type: Seq<char>, id: Seq<char>) -> Seq<char> {
    let base = if text::starts(id, "kitsu"@) {
        KITSU_ENDPOINT@
    } else {
        CINEMETA_ENDPOINT@
    };
    base + "/"@ + media_type + "/"@ + id + ".json"@
}

/// Where a title is asked for.
pub fn metadata_url(media_type: &str, id: &str) -> (url: String)
    ensures
        url@ == url_of(media_type@, id@),
{
    let base = if text::starts_with(id, "kitsu") {
        KITSU_ENDPOINT
    } else {
        CINEMETA_ENDPOINT
    };
    base.to_owned().concat("/").concat(media_type).concat("/").concat(id).concat(".json")
}

/// Under what an answer is remembered.
pub open spec fn key_of(
    media_type: Seq<char>,
    id: Seq<char>,
    season: Seq<char>,
    episode: Seq<char>,
) -> Seq<char> {
    media_type + "|"@ + id + "|"@ + season + "|"@ + episode
}

fn cache_key(media_type: &str, id: &str, season: &str, episode: &str) -> (key: String)
    ensures
        key@ == key_of(media_type@, id@, season@, episode@),
{
    media_type.to_owned().concat("|").concat(id).concat("|").concat(season).concat("|").concat(
        episode,
    )
}

/// The answers that are remembered.
pub struct MetadataCache {
    entries: StringHashMap<VideoInfo>,
}

impl View for MetadataCache {
    type V = Map<Seq<char>, VideoInfoView>;

    closed spec fn view(&self) -> Map<Seq<char>, VideoInfoView> {
        self.entries@.map_values(|info: VideoInfo| info@)
    }
}

/// The answers with one more remembered. Where there are over 256, the others
/// are forgotten first.
pub open spec fn remembered(
    cache: Map<Seq<char>, VideoInfoView>,
    key: Seq<char>,
    info: VideoInfoView,
) -> Map<Seq<char>, VideoInfoView> {
    if cache.len() > 256 {
        Map::empty().insert(key, info)
    } else {
        cache.insert(key, info)
    }
}

impl MetadataCache {
    /// A memory without answers.
    pub fn new() -> (cache: MetadataCache)
        ensures
            cache@ == Map::<Seq<char>, VideoInfoView>::empty(),
    {
        let cache = MetadataCache { entries: StringHashMap::new() };
        proof {
            assert(cache@ =~= Map::<Seq<char>, VideoInfoView>::empty());
        }
        cache
    }

    /// The answer that is remembered under `key`.
    pub fn get(&self, key: &str) -> (info: Option<VideoInfo>)
        ensures
            info_view(info) == (if self@.dom().contains(key@) {
                Some(self@[key@])
            } else {
                None
            }),
    {
        match self.entries.get(key) {
            Some(info) => Some(info.clone()),
            None => None,
        }
    }

    /// Remembers an answer.
    pub fn remember(&mut self, key: String, info: &VideoInfo)
        ensures
            final(self)@ == remembered(old(self)@, key@, info@),
    {
        let ghost before = self.entries@;
        proof {
            assert(self@.dom() =~= before.dom());
        }
        if self.entries.len() > 256 {
            self.entries.clear();
        }
        let copy = info.clone();
        self.entries.insert(key, copy);
        proof {
            assert(self@ =~= remembered(old(self)@, key@, info@));
        }
    }
}

/// Where to ask for a title: nowhere, where it cannot be asked for or the
/// answer is remembered.
pub open spec fn request_of(
    cache: Map<Seq<char>, VideoInfoView>,
    media_type: Seq<char>,
    id: Seq<char>,
    season: Seq<char>,
    episode: Seq<char>,
) -> Option<Seq<char>> {
    if askable(media_type, id) && !cache.dom().contains(key_of(media_type, id, season, episode)) {
        Some(url_of(media_type, id))
    } else {
        None
    }
}

/// Where to ask for a title, where it has to be asked for.
pub fn metadata_request(
    cache: &MetadataCache,
    media_type: &str,
    id: &str,
    season: &str,
    episode: &str,
) -> (url: Option<String>)
    ensures
        text::optional(url) == request_of(cache@, media_type@, id@, season@, episode@),
{
    if media_type.is_empty() || id.is_empty() || text::same(media_type, "unknown") {
        return None;
    }
    let key = cache_key(media_type, id, season, episode);
    match cache.get(key.as_str()) {
        Some(_) => None,
        None => Some(metadata_url(media_type, id)),
    }
}

/// What is known of a title, given the reply to the request for it, and the
/// answers that are remembered then. A remembered answer counts before any
/// reply; an answer that tells nothing is not remembered.
pub open spec fn looked_up(
    cache: Map<Seq<char>, VideoInfoView>,
    media_type: Seq<char>,
    id: Seq<char>,
    season: Seq<char>,
    episode: Seq<char>,
    reply: Option<Seq<char>>,
) -> (Option<VideoInfoView>, Map<Seq<char>, VideoInfoView>) {
    let key = key_of(media_type, id, season, episode);
    if !askable(media_type, id) {
        (None, cache)
    } else if cache.dom().contains(key) {
        (Some(cache[key]), cache)
    } else {
        match info_of_reply(reply, media_type, id, season, episode) {
            Some(info) => (
                Some(info),
                if resolved(info) {
                    remembered(cache, key, info)
                } else {
                    cache
                },
            ),
            None => (None, cache),
        }
    }
}

/// What is known of a title. `reply` is the body of the reply to the request
/// that [`metadata_request`] asks for; `None` where it failed, or was refused.
pub fn getvidinfo(
    cache: &mut MetadataCache,
    media_type: &str,
    id: &str,
    season: &str,
    episode: &str,
    reply: Option<&str>,
) -> (info: Option<VideoInfo>)
    ensures
        (info_view(info), final(cache)@) == looked_up(
            old(cache)@,
            media_type@,
            id@,
            season@,
            episode@,
            match reply {
                Some(s) => Some(s@),
                None => None,
            },
        ),
{
    if media_type.is_empty() || id.is_empty() || text::same(media_type, "unknown") {
        return None;
    }
    let key = cache_key(media_type, id, season, episode);
    if let Some(hit) = cache.get(key.as_str()) {
        return Some(hit);
    }
    let info = match video_info_from_reply(reply, media_type, id, season, episode) {
        Some(info) => info,
        None => return None,
    };
    if !info.poster.as_str().is_empty() || !text::same(info.name.as_str(), "Unknown Title") {
        cache.remember(key, &info);
    }
    Some(info)
}

/// An answer that tells something is given again, and not asked for again,
/// whatever a later reply would say.
pub proof fn law_answers_are_remembered(
    cache: Map<Seq<char>, VideoInfoView>,
    media_type: Seq<char>,
    id: Seq<char>,
    season: Seq<char>,
    episode: Seq<char>,
    reply: Option<Seq<char>>,
    later: Option<Seq<char>>,
)
    ensures
        ({
            let (info, after) = looked_up(cache, media_type, id, season, episode, reply);
            info matches Some(i) && (resolved(i) || cache.dom().contains(
                key_of(media_type, id, season, episode),
            )) ==> {
                &&& looked_up(after, media_type, id, season, episode, later) == (info, after)
                &&& request_of(after, media_type, id, season, episode) is None
            }
        }),
{
}

/// Where nothing was learned of a title, nothing is remembered, and it is asked
/// for again.
pub proof fn law_failed_lookup_is_retried(
    cache: Map<Seq<char>, VideoInfoView>,
    media_type: Seq<char>,
    id: Seq<char>,
    season: Seq<char>,
    episode: Seq<char>,
    reply: Option<Seq<char>>,
)
    requires
        request_of(cache, media_type, id, season, episode) is Some,
    ensures
        ({
            let (info, after) = looked_up(cache, media_type, id, season, episode, reply);
            (info is None || !resolved(info->0)) ==> after == cache && request_of(
                after,
                media_type,
                id,
                season,
                episode,
            ) is Some
        }),
{
}

/// No more than 257 answers are remembered.
pub proof fn law_memory_is_bounded(
    cache: Map<Seq<char>, VideoInfoView>,
    media_type: Seq<char>,
    id: Seq<char>,
    season: Seq<char>,
    episode: Seq<char>,
    reply: Option<Seq<char>>,
)
    requires
        cache.dom().finite(),
        cache.len() <= 257,
    ensures
        looked_up(cache, media_type, id, season, episode, reply).1.dom().finite(),
        looked_up(cache, media_type, id, season, episode, reply).1.len() <= 257,
{
    let key = key_of(media_type, id, season, episode);
    if let Some(info) = info_of_reply(reply, media_type, id, season, episode) {
        let fresh = Map::<Seq<char>, VideoInfoView>::empty().insert(key, info);
        assert(fresh.dom() =~= Set::<Seq<char>>::empty().insert(key));
        assert(cache.insert(key, info).dom() =~= cache.dom().insert(key));
    }
}

proof fn lemma_video_from(videos: Seq<JsonView>, wanted: Seq<char>, i: int, k: int)
    requires
        0 <= i <= k < videos.len(),
        videos[k].text_at("id"@) == Some(wanted),
        forall|j: int| i <= j < k ==> (#[trigger] videos[j]).text_at("id"@) != Some(wanted),
    ensures
        video_from(videos, wanted, i) == Some(videos[k]),
    decreases k - i,
{
    if i < k {
        lemma_video_from(videos, wanted, i + 1, k);
    }
}

proof fn lemma_no_video_from(videos: Seq<JsonView>, wanted: Seq<char>, i: int)
    requires
        0 <= i,
        forall|j: int| i <= j < videos.len() ==> (#[trigger] videos[j]).text_at("id"@) != Some(
            wanted,
        ),
    ensures
        video_from(videos, wanted, i) is None,
    decreases videos.len() - i,
{
    if i < videos.len() {
        lemma_no_video_from(videos, wanted, i + 1);
    }
}

/// Of an episode the name and the thumbnail are told by the first video whose id
/// is made of the id of the series, the season where there is one, and the
/// episode, with colons in between. The name is that of the video, without one
/// its title, without either that of the series.
pub proof fn law_episode_is_told_by_its_video(
    answer: JsonView,
    meta: JsonView,
    videos: Seq<JsonView>,
    k: int,
    id: Seq<char>,
    season: Seq<char>,
    episode: Seq<char>,
    wanted: Seq<char>,
)
    requires
        answer is Object,
        answer.member("meta"@) == Some(meta),
        meta.member("videos"@) == Some(JsonView::Array(videos)),
        season.len() == 0 ==> wanted == id + ":"@ + episode,
        season.len() > 0 ==> wanted == id + ":"@ + season + ":"@ + episode,
        0 <= k < videos.len(),
        videos[k].text_at("id"@) == Some(wanted),
        forall|j: int| 0 <= j < k ==> (#[trigger] videos[j]).text_at("id"@) != Some(wanted),
    ensures
        info_of(answer, "series"@, id, season, episode) matches Some(info) && {
            &&& videos[k].text_at("name"@) matches Some(n) ==> info.epname == n
            &&& videos[k].text_at("name"@) is None ==> (videos[k].text_at("title"@) matches Some(t)
                ==> info.epname == t)
            &&& videos[k].text_at("name"@) is None && videos[k].text_at("title"@) is None
                ==> info.epname == info.name
            &&& videos[k].text_at("thumbnail"@) matches Some(t) ==> info.thumbnail == t
            &&& videos[k].text_at("thumbnail"@) is None ==> info.thumbnail.len() == 0
        },
{
    lemma_video_from(videos, wanted, 0, k);
}

/// Where no video has the id of the episode, where there is no list of videos,
/// and for anything but a series, no name of an episode and no thumbnail is told.
pub proof fn law_episode_without_video_is_unknown(
    answer: JsonView,
    meta: JsonView,
    media_type: Seq<char>,
    id: Seq<char>,
    season: Seq<char>,
    episode: Seq<char>,
    wanted: Seq<char>,
)
    requires
        answer is Object,
        answer.member("meta"@) == Some(meta),
        season.len() == 0 ==> wanted == id + ":"@ + episode,
        season.len() > 0 ==> wanted == id + ":"@ + season + ":"@ + episode,
        media_type != "series"@ || (meta.member("videos"@) matches Some(JsonView::Array(videos))
            ==> forall|j: int|
            0 <= j < videos.len() ==> (#[trigger] videos[j]).text_at("id"@) != Some(wanted)),
    ensures
        info_of(answer, media_type, id, season, episode) matches Some(info) && info.epname
            == "Unknown Episode Name"@ && info.thumbnail.len() == 0,
{
    if media_type == "series"@ {
        if let Some(JsonView::Array(videos)) = meta.member("videos"@) {
            lemma_no_video_from(videos, wanted, 0);
        }
    }
}

/// The name, the poster and the year of a title are those that the answer tells;
/// without a name the title is unknown, without a poster or a year there is none.
/// An answer that is no object tells nothing.
pub proof fn law_title_is_told_by_answer(
    answer: JsonView,
    media_type: Seq<char>,
    id: Seq<char>,
    season: Seq<char>,
    episode: Seq<char>,
)
    ensures
        answer is Object <==> info_of(answer, media_type, id, season, episode) is Some,
        info_of(answer, media_type, id, season, episode) matches Some(info) ==> {
            &&& answer.member("meta"@) matches Some(meta) ==> {
                &&& meta.text_at("name"@) matches Some(n) ==> info.name == n
                &&& meta.text_at("name"@) is None ==> info.name == "Unknown Title"@
                &&& meta.text_at("poster"@) matches Some(p) ==> info.poster == p
                &&& meta.text_at("poster"@) is None ==> info.poster.len() == 0
                &&& meta.text_at("year"@) matches Some(y) ==> info.year == y
                &&& meta.text_at("year"@) is None ==> info.year.len() == 0
            }
            &&& answer.member("meta"@) is None ==> info.name == "Unknown Title"@
                && info.poster.len() == 0 && info.year.len() == 0 && info.thumbnail.len() == 0
                && info.epname == "Unknown Episode Name"@
        },
{
}

/// A reply tells what the JSON value tells that it spells; no reply, and one that
/// spells none, tells nothing.
pub proof fn law_reply_tells_what_it_spells(
    reply: Seq<char>,
    media_type: Seq<char>,
    id: Seq<char>,
    season: Seq<char>,
    episode: Seq<char>,
)
    ensures
        info_of_reply(None, media_type, id, season, episode) is None,
        json::parsed_json(reply) is None ==> info_of_reply(
            Some(reply),
            media_type,
            id,
            season,
            episode,
        ) is None,
        json::parsed_json(reply) matches Some(answer) ==> info_of_reply(
            Some(reply),
            media_type,
            id,
            season,
            episode,
        ) == info_of(answer, media_type, id, season, episode),
{
}

/// A title with a type and an id is asked for where its answer is not
/// remembered: at the address of its type and id, on Kitsu's server where the id
/// begins with `kitsu`, on Cinemeta's otherwise. A title without a type or an id,
/// or of the type `unknown`, is not asked for.
pub proof fn law_title_is_asked_for_by_type_and_id(
    cache: Map<Seq<char>, VideoInfoView>,
    media_type: Seq<char>,
    id: Seq<char>,
    season: Seq<char>,
    episode: Seq<char>,
)
    ensures
        ({
            let request = request_of(cache, media_type, id, season, episode);
            let known = media_type.len() > 0 && media_type != "unknown"@ && id.len() > 0;
            let held = cache.dom().contains(key_of(media_type, id, season, episode));
            &&& request is Some <==> known && !held
            &&& request matches Some(url) ==> {
                &&& id.len() >= 5 && id.subrange(0, 5) == "kitsu"@ ==> url
                    == "https://anime-kitsu.strem.fun/meta/"@ + media_type + "/"@ + id + ".json"@
                &&& !(id.len() >= 5 && id.subrange(0, 5) == "kitsu"@) ==> url
                    == "https://v3-cinemeta.strem.io/meta/"@ + media_type + "/"@ + id + ".json"@
            }
        }),
{
    reveal_strlit("kitsu");
    reveal_strlit("/");
    reveal_strlit("https://anime-kitsu.strem.fun/meta/");
    reveal_strlit("https://anime-kitsu.strem.fun/meta");
    reveal_strlit("https://v3-cinemeta.strem.io/meta/");
    reveal_strlit("https://v3-cinemeta.strem.io/meta");
    assert(KITSU_ENDPOINT@ + "/"@ =~= "https://anime-kitsu.strem.fun/meta/"@);
    assert(CINEMETA_ENDPOINT@ + "/"@ =~= "https://v3-cinemeta.strem.io/meta/"@);
    if id.len() >= 5 {
        assert(id.take(5) =~= id.subrange(0, 5));
    }
}

/// Where two texts with a separator in them are the same, and the separator
/// stands in neither front part, the parts are the same.
proof fn lemma_parts_are_the_same(a: Seq<char>, x: Seq<char>, b: Seq<char>, y: Seq<char>)
    requires
        text::lacks(a, "|"@),
        text::lacks(b, "|"@),
        a + "|"@ + x == b + "|"@ + y,
    ensures
        a == b,
        x == y,
{
    reveal_strlit("|");
    let s = a + "|"@ + x;
    let t = b + "|"@ + y;
    assert(s[a.len() as int] == '|');
    assert(t[b.len() as int] == '|');
    if a.len() < b.len() {
        assert(t[a.len() as int] == b[a.len() as int]);
    } else if b.len() < a.len() {
        assert(s[b.len() as int] == a[b.len() as int]);
    }
    assert(a =~= s.take(a.len() as int));
    assert(b =~= t.take(b.len() as int));
    assert(x =~= s.skip(a.len() as int + 1));
    assert(y =~= t.skip(b.len() as int + 1));
}

/// Answers are kept apart: what was learned of one title, season and episode
/// is not given for another, nor does it keep another from being asked for.
pub proof fn law_answers_are_kept_apart(
    one: (Seq<char>, Seq<char>, Seq<char>, Seq<char>),
    two: (Seq<char>, Seq<char>, Seq<char>, Seq<char>),
    cache: Map<Seq<char>, VideoInfoView>,
    reply: Option<Seq<char>>,
)
    requires
        one != two,
        text::lacks(one.0, "|"@),
        text::lacks(one.1, "|"@),
        text::lacks(one.2, "|"@),
        text::lacks(two.0, "|"@),
        text::lacks(two.1, "|"@),
        text::lacks(two.2, "|"@),
        request_of(cache, two.0, two.1, two.2, two.3) is Some,
    ensures
        request_of(
            looked_up(cache, one.0, one.1, one.2, one.3, reply).1,
            two.0,
            two.1,
            two.2,
            two.3,
        ) is Some,
{
    let k = key_of(one.0, one.1, one.2, one.3);
    let l = key_of(two.0, two.1, two.2, two.3);
    if k == l {
        let bar = "|"@;
        assert(k =~= one.0 + bar + (one.1 + bar + (one.2 + bar + one.3)));
        assert(l =~= two.0 + bar + (two.1 + bar + (two.2 + bar + two.3)));
        lemma_parts_are_the_same(
            one.0,
            one.1 + bar + (one.2 + bar + one.3),
            two.0,
            two.1 + bar + (two.2 + bar + two.3),
        );
        lemma_parts_are_the_same(one.1, one.2 + bar + one.3, two.1, two.2 + bar + two.3);
        lemma_parts_are_the_same(one.2, one.3, two.2, two.3);
        assert(one == two);
    }
}

/// A lookup gives the remembered answer where there is one; else what the reply
/// tells, which is remembered where it tells a poster or a name. Up to 256
/// answers are kept beside a new one; where there are more, all are forgotten
/// for it. A title that cannot be asked for is not known, and changes nothing.
pub proof fn law_lookup_answers(
    cache: Map<Seq<char>, VideoInfoView>,
    media_type: Seq<char>,
    id: Seq<char>,
    season: Seq<char>,
    episode: Seq<char>,
    reply: Option<Seq<char>>,
    other: Seq<char>,
)
    ensures
        ({
            let (info, after) = looked_up(cache, media_type, id, season, episode, reply);
            let key = key_of(media_type, id, season, episode);
            let known = media_type.len() > 0 && media_type != "unknown"@ && id.len() > 0;
            let told = info_of_reply(reply, media_type, id, season, episode);
            &&& !known ==> info is None && after == cache
            &&& known && cache.dom().contains(key) ==> info == Some(cache[key]) && after == cache
            &&& known && !cache.dom().contains(key) ==> {
                &&& info == told
                &&& told is None ==> after == cache
                &&& told matches Some(t) ==> {
                    let tells = t.poster.len() > 0 || t.name != "Unknown Title"@;
                    &&& !tells ==> after == cache
                    &&& tells ==> after.dom().contains(key) && after[key] == t
                    &&& tells && other != key && cache.len() <= 256 ==> (after.dom().contains(other)
                        <==> cache.dom().contains(other)) && (cache.dom().contains(other)
                        ==> after[other] == cache[other])
                    &&& tells && other != key && cache.len() > 256 ==> !after.dom().contains(other)
                }
            }
        }),
{
}

} // verus!
