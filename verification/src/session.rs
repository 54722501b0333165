//! The state of the current match as the Stats API reports it, how each
//! reported event changes it, and the rich presence shown for it.

use vstd::prelude::*;
use crate::config::AppConfig;
use crate::maps::{lemma_no_asset_is_unknown_map, map_display, map_display_name};
use crate::playlist::{
    is_ranked_playlist, lemma_ranked_names, named_ranked, playlist_name, playlist_name_from_id, ranked, tracker_playlist,
    trn_playlist_id_from_internal,
};
use crate::rank::playlist_id;
use crate::rank::RankInfo;
use crate::text::{append_decimal, decimal_text, str_eq};

verus! {

/// What is known of the current match.
pub struct MatchState {
    pub playlist: String,
    pub internal_playlist_id: i64,
    pub trn_playlist_id: i64,
    pub map_asset: String,
    pub map_image_url: String,
    pub team_score: i64,
    pub opponent_score: i64,
    pub match_start_unix: i64,
    pub in_match: bool,
    pub rank: Option<RankInfo>,
}

impl MatchState {
    /// The state outside any match, started at `now`.
    pub open spec fn is_fresh_at(&self, now: i64) -> bool {
        &&& self.playlist@ == "Unknown Playlist"@
        &&& self.internal_playlist_id == -1
        &&& self.trn_playlist_id == playlist_id::CASUAL
        &&& self.map_asset@ == Seq::<char>::empty()
        &&& self.map_image_url@ == Seq::<char>::empty()
        &&& self.team_score == 0
        &&& self.opponent_score == 0
        &&& self.match_start_unix == now
        &&& !self.in_match
        &&& self.rank is None
    }

    /// A state outside any match, whose clock starts at `now` (seconds since
    /// the Unix epoch).
    pub fn fresh(now: i64) -> (state: Self)
        ensures
            state.is_fresh_at(now),
    {
        MatchState {
            playlist: String::from_str("Unknown Playlist"),
            internal_playlist_id: -1,
            trn_playlist_id: playlist_id::CASUAL,
            map_asset: String::new(),
            map_image_url: String::new(),
            team_score: 0,
            opponent_score: 0,
            match_start_unix: now,
            in_match: false,
            rank: None,
        }
    }
}

/// A "PlaylistId" entry of an event payload.
pub enum PlaylistField {
    /// The payload has no such entry.
    Missing,
    /// The entry is an integer.
    Int(i64),
    /// The entry is something else.
    NotInt,
}

/// The playlist id that an entry gives.
pub open spec fn field_id(field: PlaylistField) -> Option<i64> {
    match field {
        PlaylistField::Int(id) => Some(id),
        _ => None,
    }
}

/// The playlist id of a state update: the payload's own entry if it has one,
/// else the game's entry.
pub open spec fn update_playlist(own: PlaylistField, game: PlaylistField) -> Option<i64> {
    if own is Missing {
        field_id(game)
    } else {
        field_id(own)
    }
}

/// One team in a state update.
pub struct TeamReport {
    pub name: Option<String>,
    pub score: Option<i64>,
}

/// An event from the Stats API, as far as the presence depends on it.
pub enum StatsUpdate {
    MatchCreated { playlist_id: PlaylistField },
    UpdateState {
        arena: Option<String>,
        playlist_id: PlaylistField,
        game_playlist_id: PlaylistField,
        teams: Vec<TeamReport>,
    },
    /// The match ended or was destroyed.
    MatchFinished,
    Other,
}

/// An arena whose image is to be looked up.
pub struct MapImageRequest {
    pub asset: String,
    pub display_name: String,
}

/// What happens to the player's rank.
pub enum RankRefresh {
    /// Nothing is looked up.
    NoLookup,
    /// The playlist has no rank to show; the rank was cleared.
    Cleared,
    /// The rank is to be looked up for this platform, user and tracker
    /// playlist, and its answer becomes the state's rank.
    Fetch { platform: String, username: String, playlist_id: i64 },
}

/// The outside work that an event calls for.
pub struct EventEffects {
    /// The arena image to look up; its answer becomes the state's image.
    pub map_image: Option<MapImageRequest>,
    pub rank: RankRefresh,
    /// The presence is to be sent again.
    pub send: bool,
}

/// The score of the last team with this name and a score, or `current` if
/// there is none.
pub open spec fn last_score(teams: Seq<TeamReport>, side: Seq<char>, current: i64) -> i64
    decreases teams.len(),
{
    if teams.len() == 0 {
        current
    } else {
        let t = teams.last();
        if t.name matches Some(n) && n@ == side && t.score is Some {
            t.score->0
        } else {
            last_score(teams.drop_last(), side, current)
        }
    }
}

/// After an event that names playlist `id`, the state's playlist fields
/// follow it; without an id they stay.
pub open spec fn playlist_follows(before: MatchState, after: MatchState, id: Option<i64>) -> bool {
    match id {
        Some(i) => {
            &&& after.internal_playlist_id == i
            &&& after.playlist@ == playlist_name(i as int)
            &&& after.trn_playlist_id == tracker_playlist(i as int)
        },
        None => {
            &&& after.internal_playlist_id == before.internal_playlist_id
            &&& after.playlist@ == before.playlist@
            &&& after.trn_playlist_id == before.trn_playlist_id
        },
    }
}

fn set_playlist(state: &mut MatchState, id: i64)
    ensures
        playlist_follows(*old(state), *final(state), Some(id)),
        final(state).map_asset == old(state).map_asset,
        final(state).map_image_url == old(state).map_image_url,
        final(state).team_score == old(state).team_score,
        final(state).opponent_score == old(state).opponent_score,
        final(state).match_start_unix == old(state).match_start_unix,
        final(state).in_match == old(state).in_match,
        final(state).rank == old(state).rank,
{
    state.internal_playlist_id = id;
    state.playlist = String::from_str(playlist_name_from_id(id));
    state.trn_playlist_id = trn_playlist_id_from_internal(id);
}

fn playlist_of(field: &PlaylistField) -> (id: Option<i64>)
    ensures
        id == field_id(*field),
{
    match field {
        PlaylistField::Int(id) => Some(*id),
        _ => None,
    }
}

fn last_scores(teams: &Vec<TeamReport>, blue: i64, orange: i64) -> (scores: (i64, i64))
    ensures
        scores.0 == last_score(teams@, "Blue"@, blue),
        scores.1 == last_score(teams@, "Orange"@, orange),
{
    let mut team_score = blue;
    let mut opponent_score = orange;
    let mut i: usize = 0;
    while i < teams.len()
        invariant
            i <= teams@.len(),
            team_score == last_score(teams@.take(i as int), "Blue"@, blue),
            opponent_score == last_score(teams@.take(i as int), "Orange"@, orange),
        decreases teams@.len() - i,
    {
        let ghost next = teams@.take(i + 1);
        assert(next.drop_last() =~= teams@.take(i as int));
        assert(next.last() == teams@[i as int]);
        let team = &teams[i];
        match (&team.name, team.score) {
            (Some(name), Some(score)) => {
                proof {
                    reveal_strlit("Blue");
                    reveal_strlit("Orange");
                    assert("Blue"@.len() != "Orange"@.len());
                }
                if str_eq(name.as_str(), "Blue") {
                    team_score = score;
                } else if str_eq(name.as_str(), "Orange") {
                    opponent_score = score;
                }
            },
            _ => {},
        }
        i = i + 1;
    }
    assert(teams@.take(teams@.len() as int) =~= teams@);
    (team_score, opponent_score)
}

/// Applies a Stats API event to the match state, at time `now`, and says
/// what outside work it calls for.
///
/// A created match starts the clock, clears the score, takes the playlist if
/// the event names one, and is shown. A state update records the arena (its
/// image to be looked up), takes the playlist named by the payload or else by
/// the game, and, when that playlist differs from the current one, looks the
/// rank up for a ranked playlist if a tracker user name is set and clears it
/// otherwise; the last score reported for the blue team and for the orange
/// team are taken, the player is in a match, and the presence is sent. A
/// finished match resets the state. Any other event changes nothing.
pub fn handle_event(state: &mut MatchState, event: StatsUpdate, config: &AppConfig, now: i64) -> (effects:
    EventEffects)
    ensures
        match event {
            StatsUpdate::MatchCreated { playlist_id } => {
                &&& playlist_follows(*old(state), *final(state), field_id(playlist_id))
                &&& final(state).match_start_unix == now
                &&& final(state).in_match
                &&& final(state).team_score == 0
                &&& final(state).opponent_score == 0
                &&& final(state).map_asset == old(state).map_asset
                &&& final(state).map_image_url == old(state).map_image_url
                &&& final(state).rank == old(state).rank
                &&& effects.map_image is None
                &&& effects.rank is NoLookup
                &&& effects.send
            },
            StatsUpdate::UpdateState { arena, playlist_id, game_playlist_id, teams } => {
                let asset = match arena {
                    Some(a) => a@,
                    None => Seq::<char>::empty(),
                };
                let id = update_playlist(playlist_id, game_playlist_id);
                &&& final(state).map_asset@ == asset
                &&& (effects.map_image matches Some(req) && req.asset@ == asset
                    && req.display_name@ == map_display(asset))
                &&& final(state).map_image_url == old(state).map_image_url
                &&& playlist_follows(*old(state), *final(state), id)
                &&& if id is Some && id->0 != old(state).internal_playlist_id {
                    if ranked(id->0 as int) && config.tracker_username@.len() > 0 {
                        &&& effects.rank matches RankRefresh::Fetch {
                            platform,
                            username,
                            playlist_id: trn,
                        }
                        &&& platform@ == config.tracker_platform@
                        &&& username@ == config.tracker_username@
                        &&& trn == tracker_playlist(id->0 as int)
                        &&& final(state).rank == old(state).rank
                    } else {
                        &&& effects.rank is Cleared
                        &&& final(state).rank is None
                    }
                } else {
                    &&& effects.rank is NoLookup
                    &&& final(state).rank == old(state).rank
                }
                &&& final(state).team_score == last_score(
                    teams@,
                    "Blue"@,
                    old(state).team_score,
                )
                &&& final(state).opponent_score == last_score(
                    teams@,
                    "Orange"@,
                    old(state).opponent_score,
                )
                &&& final(state).match_start_unix == old(state).match_start_unix
                &&& final(state).in_match
                &&& effects.send
            },
            StatsUpdate::MatchFinished => {
                &&& final(state).is_fresh_at(now)
                &&& effects.map_image is None
                &&& effects.rank is NoLookup
                &&& effects.send
            },
            StatsUpdate::Other => {
                &&& *final(state) == *old(state)
                &&& effects.map_image is None
                &&& effects.rank is NoLookup
                &&& !effects.send
            },
        },
{
    match event {
        StatsUpdate::MatchCreated { playlist_id } => {
            match playlist_of(&playlist_id) {
                Some(id) => set_playlist(state, id),
                None => {},
            }
            state.match_start_unix = now;
            state.in_match = true;
            state.team_score = 0;
            state.opponent_score = 0;
            EventEffects { map_image: None, rank: RankRefresh::NoLookup, send: true }
        },
        StatsUpdate::UpdateState { arena, playlist_id, game_playlist_id, teams } => {
            let asset = match arena {
                Some(a) => a,
                None => String::new(),
            };
            let display = map_display_name(asset.as_str());
            let request = MapImageRequest {
                asset: asset.clone(),
                display_name: String::from_str(display),
            };
            state.map_asset = asset;
            let id = match playlist_id {
                PlaylistField::Missing => playlist_of(&game_playlist_id),
                _ => playlist_of(&playlist_id),
            };
            let mut rank = RankRefresh::NoLookup;
            match id {
                Some(id) => {
                    let is_new_playlist = state.internal_playlist_id != id;
                    set_playlist(state, id);
                    if is_new_playlist {
                        if is_ranked_playlist(id) && !config.tracker_username.as_str().is_empty() {
                            rank = RankRefresh::Fetch {
                                platform: config.tracker_platform.clone(),
                                username: config.tracker_username.clone(),
                                playlist_id: state.trn_playlist_id,
                            };
                        } else {
                            state.rank = None;
                            rank = RankRefresh::Cleared;
                        }
                    }
                },
                None => {},
            }
            let scores = last_scores(&teams, state.team_score, state.opponent_score);
            state.team_score = scores.0;
            state.opponent_score = scores.1;
            state.in_match = true;
            EventEffects { map_image: Some(request), rank, send: true }
        },
        StatsUpdate::MatchFinished => {
            *state = MatchState::fresh(now);
            EventEffects { map_image: None, rank: RankRefresh::NoLookup, send: true }
        },
        StatsUpdate::Other => EventEffects {
            map_image: None,
            rank: RankRefresh::NoLookup,
            send: false,
        },
    }
}

/// The rank shown beside the arena image: the tier icon and its name.
pub struct RankBadge {
    pub image: String,
    pub text: String,
}

/// The rich presence to show for a match state.
pub struct Presence {
    pub details: String,
    pub state: String,
    pub large_image: String,
    pub large_text: String,
    pub badge: Option<RankBadge>,
    pub start_unix: i64,
}

/// The presence's first line: the playlist in a match, else "In Menus".
pub open spec fn details_text(s: MatchState) -> Seq<char> {
    if s.in_match {
        s.playlist@
    } else {
        "In Menus"@
    }
}

/// The presence's second line: the score in a match, else "Idle".
pub open spec fn state_text(s: MatchState) -> Seq<char> {
    if s.in_match {
        "Score: "@ + decimal_text(s.team_score as int) + " - "@ + decimal_text(
            s.opponent_score as int,
        )
    } else {
        "Idle"@
    }
}

/// The large image: the arena's image, or the game's logo when there is
/// none.
pub open spec fn large_image_text(s: MatchState) -> Seq<char> {
    if s.map_image_url@.len() == 0 {
        "rl_logo"@
    } else {
        s.map_image_url@
    }
}

/// The rank badge is shown in a ranked match whose rank is known.
pub open spec fn shows_badge(s: MatchState) -> bool {
    s.in_match && ranked(s.internal_playlist_id as int) && s.rank is Some
}

/// The rich presence for a match state.
pub fn presence_for(state: &MatchState) -> (p: Presence)
    ensures
        p.details@ == details_text(*state),
        p.state@ == state_text(*state),
        p.large_image@ == large_image_text(*state),
        p.large_text@ == map_display(state.map_asset@),
        p.start_unix == state.match_start_unix,
        shows_badge(*state) <==> p.badge is Some,
        shows_badge(*state) ==> (p.badge matches Some(b) && b.image@ == state.rank->0.icon_url@
            && b.text@ == state.rank->0.tier_name@),
{
    let details = if state.in_match {
        state.playlist.clone()
    } else {
        String::from_str("In Menus")
    };
    let line = if state.in_match {
        let mut line = String::from_str("Score: ");
        append_decimal(&mut line, state.team_score);
        line.append(" - ");
        append_decimal(&mut line, state.opponent_score);
        line
    } else {
        String::from_str("Idle")
    };
    let large_image = if state.map_image_url.as_str().is_empty() {
        String::from_str("rl_logo")
    } else {
        state.map_image_url.clone()
    };
    let large_text = String::from_str(map_display_name(state.map_asset.as_str()));
    let badge = if state.in_match && is_ranked_playlist(state.internal_playlist_id) {
        match &state.rank {
            Some(rank) => Some(RankBadge { image: rank.icon_url.clone(), text: rank.tier_name.clone() }),
            None => None,
        }
    } else {
        None
    };
    Presence {
        details,
        state: line,
        large_image,
        large_text,
        badge,
        start_unix: state.match_start_unix,
    }
}

/// Whether a failed connection attempt is reported: the first one and every
/// fifth.
pub fn connect_failure_is_reported(attempt: u32) -> (report: bool)
    ensures
        report == (attempt == 1 || attempt % 5 == 0),
{
    attempt == 1 || attempt % 5 == 0
}

/// Outside a match (at start-up, and after a match has finished) the
/// presence reads "In Menus" and "Idle", shows the game's logo over an
/// unknown arena, no rank badge, and counts from the moment of the reset.
pub proof fn lemma_fresh_state_presence(s: MatchState, now: i64)
    requires
        s.is_fresh_at(now),
    ensures
        details_text(s) == "In Menus"@,
        state_text(s) == "Idle"@,
        large_image_text(s) == "rl_logo"@,
        map_display(s.map_asset@) == "Unknown Map"@,
        !shows_badge(s),
        s.match_start_unix == now,
{
    assert(s.map_asset@ =~= Seq::<char>::empty());
    lemma_no_asset_is_unknown_map();
}

/// A state update's score for a side is the score carried by the last team
/// of that name that carries one, whatever score was held before.
pub proof fn lemma_last_reported_score_wins(
    teams: Seq<TeamReport>,
    side: Seq<char>,
    current: i64,
    j: int,
)
    requires
        0 <= j < teams.len(),
        teams[j].name matches Some(n) && n@ == side,
        teams[j].score is Some,
        forall|k: int|
            j < k < teams.len() ==> !(#[trigger] teams[k].name matches Some(n) && n@ == side
                && teams[k].score is Some),
    ensures
        last_score(teams, side, current) == teams[j].score->0,
    decreases teams.len(),
{
    let last: int = teams.len() - 1;
    if j < last {
        let p = teams.drop_last();
        assert(teams.last() == teams[last]);
        assert forall|k: int| j < k < p.len() implies !(#[trigger] p[k].name matches Some(n) && n@
            == side && p[k].score is Some) by {
            assert(p[k] == teams[k]);
        }
        assert(p[j] == teams[j]);
        lemma_last_reported_score_wins(p, side, current, j);
    }
}

/// When no team of that name carries a score, the score held before is kept.
pub proof fn lemma_unreported_score_kept(teams: Seq<TeamReport>, side: Seq<char>, current: i64)
    requires
        forall|k: int|
            0 <= k < teams.len() ==> !(#[trigger] teams[k].name matches Some(n) && n@ == side
                && teams[k].score is Some),
    ensures
        last_score(teams, side, current) == current,
    decreases teams.len(),
{
    if teams.len() > 0 {
        let p = teams.drop_last();
        assert(teams.last() == teams[teams.len() - 1]);
        assert forall|k: int| 0 <= k < p.len() implies !(#[trigger] p[k].name matches Some(n) && n@
            == side && p[k].score is Some) by {
            assert(p[k] == teams[k]);
        }
        lemma_unreported_score_kept(p, side, current);
    }
}

/// A reported score replaces the held one: two states holding different
/// scores end with the same score after the same update naming that side.
pub proof fn lemma_reported_score_independent_of_held(
    teams: Seq<TeamReport>,
    side: Seq<char>,
    held_a: i64,
    held_b: i64,
    j: int,
)
    requires
        0 <= j < teams.len(),
        teams[j].name matches Some(n) && n@ == side,
        teams[j].score is Some,
    ensures
        last_score(teams, side, held_a) == last_score(teams, side, held_b),
    decreases teams.len(),
{
    let last: int = teams.len() - 1;
    let p = teams.drop_last();
    assert(teams.last() == teams[last]);
    if !(teams[last].name matches Some(n) && n@ == side && teams[last].score is Some) {
        assert(j < last);
        assert(p[j] == teams[j]);
        lemma_reported_score_independent_of_held(p, side, held_a, held_b, j);
    }
}

/// The rank badge is shown exactly in a match in one of the ranked playlists
/// (ids 10, 11, 13, 27, 28 and 30) whose rank is known; these are exactly the
/// playlists whose names begin with "Ranked ".
pub proof fn lemma_badge_in_ranked_playlists(s: MatchState)
    ensures
        shows_badge(s) <==> (s.in_match && s.rank is Some && (s.internal_playlist_id == 10
            || s.internal_playlist_id == 11 || s.internal_playlist_id == 13
            || s.internal_playlist_id == 27 || s.internal_playlist_id == 28
            || s.internal_playlist_id == 30)),
        shows_badge(s) <==> (s.in_match && s.rank is Some && named_ranked(
            playlist_name(s.internal_playlist_id as int),
        )),
{
    lemma_ranked_names(s.internal_playlist_id as int);
}

} // verus!
