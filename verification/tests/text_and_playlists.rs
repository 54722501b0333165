use rl_discord_rpc::playlist::{is_ranked_playlist, playlist_name_from_id, trn_playlist_id_from_internal};
use rl_discord_rpc::rank::playlist_id;
use rl_discord_rpc::text::{append_decimal, str_eq};

#[test]
fn decimal_string_renders_like_format() {
    for n in [0i64, 7, 10, 42, -1, -305, 1234567890, i64::MAX, i64::MIN] {
        let mut s = String::from("n=");
        append_decimal(&mut s, n);
        assert_eq!(s, format!("n={}", n));
    }
}

#[test]
fn str_eq_compares_text() {
    assert!(str_eq("Blue", "Blue"));
    assert!(!str_eq("Blue", "blue"));
    assert!(!str_eq("Blue", "Blues"));
    assert!(str_eq("", ""));
    assert!(str_eq("héllo", "héllo"));
}

#[test]
fn playlist_names_follow_the_table() {
    assert_eq!(playlist_name_from_id(0), "Casual");
    assert_eq!(playlist_name_from_id(2), "Doubles (Casual 2v2)");
    assert_eq!(playlist_name_from_id(10), "Ranked Solo Duel");
    assert_eq!(playlist_name_from_id(30), "Ranked Snow Day");
    assert_eq!(playlist_name_from_id(54), "Knockout");
    assert_eq!(playlist_name_from_id(5), "Unknown Playlist");
    assert_eq!(playlist_name_from_id(-1), "Unknown Playlist");
}

#[test]
fn ranked_playlists_are_the_six_competitive_ones() {
    let ranked: Vec<i64> = (-5..100).filter(|id| is_ranked_playlist(*id)).collect();
    assert_eq!(ranked, vec![10, 11, 13, 27, 28, 30]);
}

#[test]
fn tracker_ids_of_ranked_playlists_are_their_own() {
    assert_eq!(trn_playlist_id_from_internal(10), playlist_id::RANKED_DUEL_1V1);
    assert_eq!(trn_playlist_id_from_internal(11), playlist_id::RANKED_DOUBLES_2V2);
    assert_eq!(trn_playlist_id_from_internal(13), playlist_id::RANKED_STANDARD_3V3);
    assert_eq!(trn_playlist_id_from_internal(27), playlist_id::HOOPS);
    assert_eq!(trn_playlist_id_from_internal(28), playlist_id::RUMBLE);
    assert_eq!(trn_playlist_id_from_internal(30), playlist_id::SNOWDAY);
    assert_eq!(trn_playlist_id_from_internal(29), playlist_id::CASUAL);
    assert_eq!(trn_playlist_id_from_internal(0), playlist_id::CASUAL);
}

#[test]
fn ranked_exactly_when_tracker_id_is_not_casual() {
    for id in -5..100 {
        assert_eq!(
            is_ranked_playlist(id),
            trn_playlist_id_from_internal(id) != playlist_id::CASUAL
        );
        if is_ranked_playlist(id) {
            assert_eq!(trn_playlist_id_from_internal(id), id);
        }
    }
}

#[test]
fn ranked_playlists_are_exactly_those_named_ranked() {
    for id in -5..100 {
        assert_eq!(is_ranked_playlist(id), playlist_name_from_id(id).starts_with("Ranked "));
    }
}
