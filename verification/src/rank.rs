//! Player ranks from the rank tracker: which part of a profile answer is the
//! rank for a playlist, how profiles are requested, and the answers
//! remembered for the rest of the session.

pub mod playlist_id;

use vstd::prelude::*;
use crate::cache::{Duplicate, KeyedCache};
use crate::encoding::{url_encode, url_encoded};
use crate::text::{append_decimal, decimal_text, opt_text, str_eq};

verus! {

/// A player's rank in one playlist: the tier's icon and name, and the
/// division's name when the tracker gives one.
pub struct RankInfo {
    pub icon_url: String,
    pub tier_name: String,
    pub division_name: Option<String>,
}

/// The text of a rank: icon address, tier name, division name.
pub type RankText = (Seq<char>, Seq<char>, Option<Seq<char>>);

impl View for RankInfo {
    type V = RankText;

    open spec fn view(&self) -> RankText {
        (self.icon_url@, self.tier_name@, opt_text(self.division_name))
    }
}

/// The text of an optional rank.
pub open spec fn opt_rank_text(r: Option<RankInfo>) -> Option<RankText> {
    match r {
        Some(info) => Some(info@),
        None => None,
    }
}

fn copy_opt_string(s: &Option<String>) -> (copy: Option<String>)
    ensures
        copy == *s,
{
    match s {
        Some(v) => Some(v.clone()),
        None => None,
    }
}

impl Duplicate for RankInfo {
    fn duplicate(&self) -> (copy: Self) {
        RankInfo {
            icon_url: self.icon_url.clone(),
            tier_name: self.tier_name.clone(),
            division_name: copy_opt_string(&self.division_name),
        }
    }
}

impl Duplicate for Option<RankInfo> {
    fn duplicate(&self) -> (copy: Self) {
        match self {
            Some(info) => Some(info.duplicate()),
            None => None,
        }
    }
}

/// A tier or division entry's metadata.
pub struct TrnStatMetadata {
    pub icon_url: Option<String>,
    pub name: Option<String>,
}

/// A tier or division entry.
pub struct TrnStat {
    pub metadata: Option<TrnStatMetadata>,
}

/// The statistics of a profile segment.
pub struct TrnStats {
    pub tier: Option<TrnStat>,
    pub division: Option<TrnStat>,
}

/// The attributes of a profile segment.
pub struct TrnAttributes {
    pub playlist_id: Option<i64>,
}

/// One segment of a tracker profile.
pub struct TrnSegment {
    pub segment_type: Option<String>,
    pub attributes: Option<TrnAttributes>,
    pub stats: Option<TrnStats>,
}

/// The data of a tracker profile.
pub struct TrnData {
    pub segments: Option<Vec<TrnSegment>>,
}

/// A tracker profile answer.
pub struct TrnProfileResponse {
    pub data: Option<TrnData>,
}

/// The rank that a playlist segment holds: it needs statistics with a tier
/// whose metadata has an icon; a tier without a name is "Unranked"; the
/// division's name is taken when the division's metadata has one.
pub open spec fn segment_rank(segment: TrnSegment) -> Option<RankText> {
    match segment.stats {
        None => None,
        Some(stats) => match stats.tier {
            None => None,
            Some(tier) => match tier.metadata {
                None => None,
                Some(meta) => match meta.icon_url {
                    None => None,
                    Some(icon) => Some(
                        (
                            icon@,
                            match meta.name {
                                Some(n) => n@,
                                None => "Unranked"@,
                            },
                            match stats.division {
                                Some(d) => match d.metadata {
                                    Some(m) => opt_text(m.name),
                                    None => None,
                                },
                                None => None,
                            },
                        ),
                    ),
                },
            },
        },
    }
}

/// Whether a segment is a playlist segment.
pub open spec fn is_playlist_segment(segment: TrnSegment) -> bool {
    segment.segment_type matches Some(t) && t@ == "playlist"@
}

/// The rank for a playlist in a profile's segments: segments that are not
/// playlist segments are skipped; the first playlist segment without
/// attributes ends the search with nothing; playlist segments for other
/// playlists are skipped; the first one for the playlist gives its rank.
pub open spec fn rank_in_segments(segments: Seq<TrnSegment>, playlist: i64) -> Option<RankText>
    decreases segments.len(),
{
    if segments.len() == 0 {
        None
    } else {
        let s = segments[0];
        if !is_playlist_segment(s) {
            rank_in_segments(segments.drop_first(), playlist)
        } else {
            match s.attributes {
                None => None,
                Some(a) => if a.playlist_id != Some(playlist) {
                    rank_in_segments(segments.drop_first(), playlist)
                } else {
                    segment_rank(s)
                },
            }
        }
    }
}

/// The rank for a playlist in a profile answer.
pub open spec fn profile_rank(response: TrnProfileResponse, playlist: i64) -> Option<RankText> {
    match response.data {
        Some(data) => match data.segments {
            Some(segments) => rank_in_segments(segments@, playlist),
            None => None,
        },
        None => None,
    }
}

fn rank_of_segment(segment: &TrnSegment) -> (rank: Option<RankInfo>)
    ensures
        opt_rank_text(rank) == segment_rank(*segment),
{
    let stats = match &segment.stats {
        Some(s) => s,
        None => return None,
    };
    let tier = match &stats.tier {
        Some(t) => t,
        None => return None,
    };
    let meta = match &tier.metadata {
        Some(m) => m,
        None => return None,
    };
    let icon_url = match &meta.icon_url {
        Some(i) => i.clone(),
        None => return None,
    };
    let tier_name = match &meta.name {
        Some(n) => n.clone(),
        None => {
            proof {
                reveal_strlit("Unranked");
            }
            String::from_str("Unranked")
        },
    };
    let division_name = match &stats.division {
        Some(d) => match &d.metadata {
            Some(m) => copy_opt_string(&m.name),
            None => None,
        },
        None => None,
    };
    Some(RankInfo { icon_url, tier_name, division_name })
}

/// The rank for a playlist in a tracker profile answer.
pub fn rank_from_profile(response: &TrnProfileResponse, playlist: i64) -> (rank: Option<RankInfo>)
    ensures
        opt_rank_text(rank) == profile_rank(*response, playlist),
{
    let data = match &response.data {
        Some(d) => d,
        None => return None,
    };
    let segments = match &data.segments {
        Some(s) => s,
        None => return None,
    };
    let mut i: usize = 0;
    assert(segments@.skip(0) =~= segments@);
    while i < segments.len()
        invariant
            i <= segments@.len(),
            profile_rank(*response, playlist) == rank_in_segments(segments@.skip(i as int), playlist),
        decreases segments@.len() - i,
    {
        let ghost rest = segments@.skip(i as int);
        assert(rest[0] == segments@[i as int]);
        assert(rest.drop_first() =~= segments@.skip(i + 1));
        let segment = &segments[i];
        let is_playlist = match &segment.segment_type {
            Some(t) => {
                proof {
                    reveal_strlit("playlist");
                }
                str_eq(t.as_str(), "playlist")
            },
            None => false,
        };
        if is_playlist {
            match &segment.attributes {
                None => return None,
                Some(a) => {
                    let same = match a.playlist_id {
                        Some(p) => p == playlist,
                        None => false,
                    };
                    if same {
                        return rank_of_segment(segment);
                    }
                },
            }
        }
        i = i + 1;
    }
    None
}

/// The cache key of a rank lookup: platform, user name and playlist, joined
/// by colons.
pub open spec fn rank_key_text(platform: Seq<char>, username: Seq<char>, playlist: i64) -> Seq<
    char,
> {
    platform + ":"@ + username + ":"@ + decimal_text(playlist as int)
}

/// The tracker's profile address for a player, with the user name
/// percent-encoded.
pub open spec fn profile_url_text(platform: Seq<char>, username: Seq<char>) -> Seq<char> {
    "https://api.tracker.gg/api/v2/rocket-league/standard/profile/"@ + platform + "/"@
        + url_encoded(username)
}

/// The cache key of a rank lookup.
pub fn rank_cache_key(platform: &str, username: &str, playlist: i64) -> (key: String)
    ensures
        key@ == rank_key_text(platform@, username@, playlist),
{
    let mut key = String::from_str(platform);
    key.append(":");
    key.append(username);
    key.append(":");
    append_decimal(&mut key, playlist);
    key
}

/// The tracker's profile address for a player.
pub fn tracker_profile_url(platform: &str, username: &str) -> (url: String)
    ensures
        url@ == profile_url_text(platform@, username@),
{
    let mut url = String::from_str("https://api.tracker.gg/api/v2/rocket-league/standard/profile/");
    url.append(platform);
    url.append("/");
    let encoded = url_encode(username);
    url.append(encoded.as_str());
    url
}

/// Rank answers found so far, by lookup key; a failed lookup is remembered
/// as no rank.
pub type RankCache = KeyedCache<Option<RankInfo>>;

/// The answer a cache already holds for a lookup, if any.
pub open spec fn cached_rank(
    cache: Map<Seq<char>, Option<RankInfo>>,
    platform: Seq<char>,
    username: Seq<char>,
    playlist: i64,
) -> Option<Option<RankInfo>> {
    let key = rank_key_text(platform, username, playlist);
    if cache.contains_key(key) {
        Some(cache[key])
    } else {
        None
    }
}

/// How a rank lookup goes on.
pub enum RankLookup {
    /// The answer is already known.
    Cached(Option<RankInfo>),
    /// The profile has to be fetched from this address; its answer is then
    /// remembered under this key.
    Fetch { key: String, url: String },
}

/// Starts a rank lookup: a remembered answer is given at once, otherwise the
/// player's profile has to be fetched.
pub fn begin_rank_lookup(cache: &RankCache, platform: &str, username: &str, playlist: i64) -> (lookup:
    RankLookup)
    requires
        cache.wf(),
    ensures
        cached_rank(cache@, platform@, username@, playlist) matches Some(r) ==> lookup
            == RankLookup::Cached(r),
        cached_rank(cache@, platform@, username@, playlist) is None ==> (lookup matches RankLookup::Fetch {
            key: k,
            url: u,
        } && k@ == rank_key_text(platform@, username@, playlist) && u@ == profile_url_text(
            platform@,
            username@,
        )),
{
    let key = rank_cache_key(platform, username, playlist);
    match cache.get(key.as_str()) {
        Some(found) => RankLookup::Cached(found),
        None => RankLookup::Fetch { key, url: tracker_profile_url(platform, username) },
    }
}

/// Ends a rank lookup with the fetched profile (`None` when the request,
/// its status or its body failed): the rank for the playlist is taken from
/// the profile, remembered under the key, and returned.
pub fn finish_rank_lookup(
    cache: &mut RankCache,
    key: &str,
    playlist: i64,
    response: Option<TrnProfileResponse>,
) -> (rank: Option<RankInfo>)
    requires
        old(cache).wf(),
    ensures
        final(cache).wf(),
        final(cache)@ == old(cache)@.insert(key@, rank),
        opt_rank_text(rank) == match response {
            Some(r) => profile_rank(r, playlist),
            None => None,
        },
{
    let rank = match &response {
        Some(r) => rank_from_profile(r, playlist),
        None => None,
    };
    cache.set(key, rank.duplicate());
    rank
}

/// Once a lookup has ended (which remembers its answer under the lookup's
/// key), a new lookup for the same platform, user name and playlist gives the
/// same answer without fetching anything.
pub proof fn lemma_rank_answer_remembered(
    before: Map<Seq<char>, Option<RankInfo>>,
    platform: Seq<char>,
    username: Seq<char>,
    playlist: i64,
    rank: Option<RankInfo>,
)
    ensures
        cached_rank(
            before.insert(rank_key_text(platform, username, playlist), rank),
            platform,
            username,
            playlist,
        ) == Some(rank),
{
}

/// The profile address is the tracker's profile prefix, then the platform
/// exactly as configured, then "/", then the percent-encoded user name; for
/// one user name, different platforms give different addresses.
pub proof fn lemma_profile_url_keeps_platform(
    platform: Seq<char>,
    other_platform: Seq<char>,
    username: Seq<char>,
)
    ensures
        ({
            let prefix = "https://api.tracker.gg/api/v2/rocket-league/standard/profile/"@;
            let url = profile_url_text(platform, username);
            &&& url.len() == prefix.len() + platform.len() + 1 + url_encoded(username).len()
            &&& url.subrange(0, prefix.len() as int) == prefix
            &&& url.subrange(prefix.len() as int, (prefix.len() + platform.len()) as int) == platform
            &&& url[(prefix.len() + platform.len()) as int] == '/'
            &&& url.subrange((prefix.len() + platform.len() + 1) as int, url.len() as int) == url_encoded(
                username,
            )
        }),
        platform != other_platform ==> profile_url_text(platform, username) != profile_url_text(
            other_platform,
            username,
        ),
{
    reveal_strlit("/");
    let prefix = "https://api.tracker.gg/api/v2/rocket-league/standard/profile/"@;
    let e = url_encoded(username);
    let url = profile_url_text(platform, username);
    assert(url == prefix + platform + seq!['/'] + e);
    assert(url.subrange(0, prefix.len() as int) =~= prefix);
    assert(url.subrange(prefix.len() as int, (prefix.len() + platform.len()) as int) =~= platform);
    assert(url.subrange((prefix.len() + platform.len() + 1) as int, url.len() as int) =~= e);
    if platform != other_platform {
        let other = profile_url_text(other_platform, username);
        assert(other == prefix + other_platform + seq!['/'] + e);
        if url == other {
            assert(platform.len() == other_platform.len());
            assert(other.subrange(prefix.len() as int, (prefix.len() + other_platform.len()) as int)
                =~= other_platform);
        }
    }
}

} // verus!
