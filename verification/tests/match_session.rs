use rl_discord_rpc::config::AppConfig;
use rl_discord_rpc::rank::RankInfo;
use rl_discord_rpc::session::{
    connect_failure_is_reported, handle_event, presence_for, MatchState, PlaylistField, RankRefresh,
    StatsUpdate, TeamReport,
};

fn config(user: &str) -> AppConfig {
    AppConfig {
        discord_client_id: "id".to_string(),
        tracker_platform: "epic".to_string(),
        tracker_username: user.to_string(),
        stats_api_port: 49123,
    }
}

fn team(name: Option<&str>, score: Option<i64>) -> TeamReport {
    TeamReport { name: name.map(|s| s.to_string()), score }
}

fn update(arena: Option<&str>, own: PlaylistField, game: PlaylistField, teams: Vec<TeamReport>) -> StatsUpdate {
    StatsUpdate::UpdateState { arena: arena.map(|s| s.to_string()), playlist_id: own, game_playlist_id: game, teams }
}

fn rank(icon: &str, tier: &str) -> RankInfo {
    RankInfo { icon_url: icon.to_string(), tier_name: tier.to_string(), division_name: None }
}

#[test]
fn fresh_state_shows_the_menus() {
    let s = MatchState::fresh(1000);
    assert_eq!(s.playlist, "Unknown Playlist");
    assert_eq!(s.internal_playlist_id, -1);
    assert_eq!(s.trn_playlist_id, 0);
    assert!(!s.in_match);
    let p = presence_for(&s);
    assert_eq!(p.details, "In Menus");
    assert_eq!(p.state, "Idle");
    assert_eq!(p.large_image, "rl_logo");
    assert_eq!(p.large_text, "Unknown Map");
    assert!(p.badge.is_none());
    assert_eq!(p.start_unix, 1000);
}

#[test]
fn created_match_starts_the_clock_and_takes_the_playlist() {
    let mut s = MatchState::fresh(1);
    s.team_score = 3;
    let e = handle_event(&mut s, StatsUpdate::MatchCreated { playlist_id: PlaylistField::Int(11) }, &config("me"), 50);
    assert!(e.send && e.map_image.is_none() && matches!(e.rank, RankRefresh::NoLookup));
    assert!(s.in_match);
    assert_eq!(s.match_start_unix, 50);
    assert_eq!((s.team_score, s.opponent_score), (0, 0));
    assert_eq!(s.playlist, "Ranked Doubles");
    assert_eq!(s.trn_playlist_id, 11);
    let mut t = MatchState::fresh(1);
    handle_event(&mut t, StatsUpdate::MatchCreated { playlist_id: PlaylistField::NotInt }, &config("me"), 7);
    assert_eq!(t.internal_playlist_id, -1);
    assert_eq!(t.playlist, "Unknown Playlist");
}

#[test]
fn update_records_arena_playlist_and_last_scores() {
    let mut s = MatchState::fresh(1);
    let teams = vec![
        team(Some("Blue"), Some(1)),
        team(Some("Orange"), Some(2)),
        team(Some("Blue"), None),
        team(None, Some(9)),
        team(Some("Green"), Some(8)),
        team(Some("Blue"), Some(4)),
    ];
    let e = handle_event(&mut s, update(Some("Park_P"), PlaylistField::Missing, PlaylistField::Int(13), teams), &config("me"), 9);
    assert!(e.send);
    let req = e.map_image.expect("an image lookup");
    assert_eq!(req.asset, "Park_P");
    assert_eq!(req.display_name, "Beckwith Park");
    assert_eq!(s.map_asset, "Park_P");
    assert_eq!((s.team_score, s.opponent_score), (4, 2));
    assert_eq!(s.internal_playlist_id, 13);
    match e.rank {
        RankRefresh::Fetch { platform, username, playlist_id } => {
            assert_eq!(platform, "epic");
            assert_eq!(username, "me");
            assert_eq!(playlist_id, 13);
        }
        _ => panic!("a new ranked playlist is looked up"),
    }
    assert!(s.in_match);
    assert_eq!(s.match_start_unix, 1);
}

#[test]
fn payload_playlist_entry_wins_over_the_games() {
    let mut s = MatchState::fresh(1);
    handle_event(&mut s, update(None, PlaylistField::Int(2), PlaylistField::Int(10), vec![]), &config(""), 0);
    assert_eq!(s.internal_playlist_id, 2);
    assert_eq!(s.map_asset, "");
    // A payload entry that is not an integer hides the game's entry.
    let mut t = MatchState::fresh(1);
    handle_event(&mut t, update(None, PlaylistField::NotInt, PlaylistField::Int(10), vec![]), &config(""), 0);
    assert_eq!(t.internal_playlist_id, -1);
}

#[test]
fn same_playlist_keeps_the_rank_and_unranked_clears_it() {
    let mut s = MatchState::fresh(1);
    s.internal_playlist_id = 10;
    s.rank = Some(rank("i", "Gold"));
    let e = handle_event(&mut s, update(None, PlaylistField::Int(10), PlaylistField::Missing, vec![]), &config("me"), 0);
    assert!(matches!(e.rank, RankRefresh::NoLookup));
    assert_eq!(s.rank.as_ref().map(|r| r.tier_name.clone()), Some("Gold".to_string()));
    let e = handle_event(&mut s, update(None, PlaylistField::Int(0), PlaylistField::Missing, vec![]), &config("me"), 0);
    assert!(matches!(e.rank, RankRefresh::Cleared));
    assert!(s.rank.is_none());
    // Without a tracker user name a ranked playlist is not looked up.
    s.rank = Some(rank("i", "Gold"));
    let e = handle_event(&mut s, update(None, PlaylistField::Int(27), PlaylistField::Missing, vec![]), &config(""), 0);
    assert!(matches!(e.rank, RankRefresh::Cleared));
    assert!(s.rank.is_none());
}

#[test]
fn finished_match_resets_and_other_events_change_nothing() {
    let mut s = MatchState::fresh(1);
    handle_event(&mut s, StatsUpdate::MatchCreated { playlist_id: PlaylistField::Int(10) }, &config("me"), 5);
    s.rank = Some(rank("i", "Gold"));
    let e = handle_event(&mut s, StatsUpdate::Other, &config("me"), 6);
    assert!(!e.send);
    assert_eq!(s.internal_playlist_id, 10);
    let e = handle_event(&mut s, StatsUpdate::MatchFinished, &config("me"), 77);
    assert!(e.send);
    assert!(!s.in_match);
    assert!(s.rank.is_none());
    assert_eq!(s.match_start_unix, 77);
    assert_eq!(s.playlist, "Unknown Playlist");
}

#[test]
fn presence_in_a_ranked_match_shows_score_and_badge() {
    let mut s = MatchState::fresh(1);
    handle_event(&mut s, StatsUpdate::MatchCreated { playlist_id: PlaylistField::Int(10) }, &config("me"), 5);
    s.team_score = 2;
    s.opponent_score = -1;
    s.map_asset = "Stadium_P".to_string();
    s.map_image_url = "https://img/x.png".to_string();
    s.rank = Some(rank("icon.png", "Champion I"));
    let p = presence_for(&s);
    assert_eq!(p.details, "Ranked Solo Duel");
    assert_eq!(p.state, "Score: 2 - -1");
    assert_eq!(p.large_image, "https://img/x.png");
    assert_eq!(p.large_text, "DFH Stadium");
    let b = p.badge.expect("a rank badge");
    assert_eq!(b.image, "icon.png");
    assert_eq!(b.text, "Champion I");
    assert_eq!(p.start_unix, 5);
    // A casual match shows no badge even with a known rank.
    s.internal_playlist_id = 0;
    assert!(presence_for(&s).badge.is_none());
    // A ranked match without a rank shows none either.
    s.internal_playlist_id = 10;
    s.rank = None;
    assert!(presence_for(&s).badge.is_none());
}

#[test]
fn connection_failures_are_reported_sparingly() {
    let reported: Vec<u32> = (1..=21).filter(|a| connect_failure_is_reported(*a)).collect();
    assert_eq!(reported, vec![1, 5, 10, 15, 20]);
}
