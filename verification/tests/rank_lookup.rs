use rl_discord_rpc::cache::KeyedCache;
use rl_discord_rpc::rank::{
    begin_rank_lookup, finish_rank_lookup, rank_cache_key, rank_from_profile, tracker_profile_url,
    RankCache, RankInfo, RankLookup, TrnAttributes, TrnData, TrnProfileResponse, TrnSegment, TrnStat,
    TrnStatMetadata, TrnStats,
};

fn meta(icon: Option<&str>, name: Option<&str>) -> Option<TrnStat> {
    Some(TrnStat {
        metadata: Some(TrnStatMetadata { icon_url: icon.map(|s| s.to_string()), name: name.map(|s| s.to_string()) }),
    })
}

fn segment(kind: Option<&str>, playlist: Option<Option<i64>>, stats: Option<TrnStats>) -> TrnSegment {
    TrnSegment {
        segment_type: kind.map(|s| s.to_string()),
        attributes: playlist.map(|p| TrnAttributes { playlist_id: p }),
        stats,
    }
}

fn profile(segments: Vec<TrnSegment>) -> TrnProfileResponse {
    TrnProfileResponse { data: Some(TrnData { segments: Some(segments) }) }
}

fn text(r: &Option<RankInfo>) -> Option<(String, String, Option<String>)> {
    r.as_ref().map(|r| (r.icon_url.clone(), r.tier_name.clone(), r.division_name.clone()))
}

#[test]
fn rank_comes_from_the_matching_playlist_segment() {
    let p = profile(vec![
        segment(Some("overview"), None, None),
        segment(Some("playlist"), Some(Some(10)), Some(TrnStats { tier: meta(Some("i10"), Some("Gold I")), division: None })),
        segment(Some("playlist"), Some(Some(11)), Some(TrnStats {
            tier: meta(Some("i11"), Some("Diamond II")),
            division: meta(None, Some("Division III")),
        })),
    ]);
    assert_eq!(
        text(&rank_from_profile(&p, 11)),
        Some(("i11".to_string(), "Diamond II".to_string(), Some("Division III".to_string())))
    );
    assert_eq!(text(&rank_from_profile(&p, 10)), Some(("i10".to_string(), "Gold I".to_string(), None)));
    assert_eq!(text(&rank_from_profile(&p, 13)), None);
}

#[test]
fn tier_without_name_is_unranked() {
    let p = profile(vec![segment(Some("playlist"), Some(Some(13)), Some(TrnStats { tier: meta(Some("u"), None), division: None }))]);
    assert_eq!(text(&rank_from_profile(&p, 13)), Some(("u".to_string(), "Unranked".to_string(), None)));
}

#[test]
fn missing_pieces_end_the_search_with_nothing() {
    // A playlist segment without attributes ends the search, even if a later one matches.
    let p = profile(vec![
        segment(Some("playlist"), None, None),
        segment(Some("playlist"), Some(Some(10)), Some(TrnStats { tier: meta(Some("i"), Some("t")), division: None })),
    ]);
    assert_eq!(text(&rank_from_profile(&p, 10)), None);
    // The matching segment without an icon gives nothing.
    let p = profile(vec![segment(Some("playlist"), Some(Some(10)), Some(TrnStats { tier: meta(None, Some("t")), division: None }))]);
    assert_eq!(text(&rank_from_profile(&p, 10)), None);
    // Segments without a type are skipped.
    let p = profile(vec![
        segment(None, None, None),
        segment(Some("playlist"), Some(None), None),
        segment(Some("playlist"), Some(Some(10)), Some(TrnStats { tier: meta(Some("i"), Some("t")), division: None })),
    ]);
    assert_eq!(text(&rank_from_profile(&p, 10)), Some(("i".to_string(), "t".to_string(), None)));
    assert_eq!(text(&rank_from_profile(&TrnProfileResponse { data: None }, 10)), None);
    assert_eq!(text(&rank_from_profile(&TrnProfileResponse { data: Some(TrnData { segments: None }) }, 10)), None);
}

#[test]
fn keys_and_addresses() {
    assert_eq!(rank_cache_key("epic", "Player One", 13), "epic:Player One:13");
    assert_eq!(rank_cache_key("steam", "x", -4), "steam:x:-4");
    assert_eq!(
        tracker_profile_url("epic", "Player One"),
        "https://api.tracker.gg/api/v2/rocket-league/standard/profile/epic/Player%20One"
    );
}

#[test]
fn lookups_are_remembered_even_when_they_fail() {
    let mut cache: RankCache = KeyedCache::new();
    let (key, url) = match begin_rank_lookup(&cache, "epic", "me", 11) {
        RankLookup::Fetch { key, url } => (key, url),
        RankLookup::Cached(_) => panic!("nothing is cached yet"),
    };
    assert_eq!(key, "epic:me:11");
    assert_eq!(url, "https://api.tracker.gg/api/v2/rocket-league/standard/profile/epic/me");
    let got = finish_rank_lookup(&mut cache, &key, 11, None);
    assert!(got.is_none());
    match begin_rank_lookup(&cache, "epic", "me", 11) {
        RankLookup::Cached(r) => assert!(r.is_none()),
        RankLookup::Fetch { .. } => panic!("the failed answer should be remembered"),
    }
    // Another playlist is still fetched.
    assert!(matches!(begin_rank_lookup(&cache, "epic", "me", 10), RankLookup::Fetch { .. }));
    let p = profile(vec![segment(Some("playlist"), Some(Some(10)), Some(TrnStats { tier: meta(Some("i"), Some("Champion")), division: None }))]);
    let got = finish_rank_lookup(&mut cache, "epic:me:10", 10, Some(p));
    assert_eq!(text(&got), Some(("i".to_string(), "Champion".to_string(), None)));
    match begin_rank_lookup(&cache, "epic", "me", 10) {
        RankLookup::Cached(r) => assert_eq!(text(&r), Some(("i".to_string(), "Champion".to_string(), None))),
        RankLookup::Fetch { .. } => panic!("the answer should be remembered"),
    }
}
