//! The game's internal playlist ids: their names, which of them are ranked,
//! and how they map onto the rank tracker's playlist ids.

use vstd::prelude::*;
use crate::rank::playlist_id;

verus! {

/// The name shown for an internal playlist id.
pub open spec fn playlist_name(id: int) -> Seq<char> {
    if id == 0 {
        "Casual"@
    } else if id == 1 {
        "Duel (Casual 1v1)"@
    } else if id == 2 {
        "Doubles (Casual 2v2)"@
    } else if id == 3 {
        "Standard (Casual 3v3)"@
    } else if id == 4 {
        "Chaos (Casual 4v4)"@
    } else if id == 6 {
        "Private Match"@
    } else if id == 9 {
        "Training"@
    } else if id == 10 {
        "Ranked Solo Duel"@
    } else if id == 11 {
        "Ranked Doubles"@
    } else if id == 13 {
        "Ranked Standard"@
    } else if id == 15 {
        "Snow Day"@
    } else if id == 17 {
        "Hoops"@
    } else if id == 18 {
        "Rumble"@
    } else if id == 19 {
        "Workshop"@
    } else if id == 21 {
        "Custom Training"@
    } else if id == 22 {
        "Tournament"@
    } else if id == 23 {
        "Dropshot"@
    } else if id == 27 {
        "Ranked Hoops"@
    } else if id == 28 {
        "Ranked Rumble"@
    } else if id == 30 {
        "Ranked Snow Day"@
    } else if id == 32 {
        "Beach Ball"@
    } else if id == 35 {
        "Rocket Labs"@
    } else if id == 41 {
        "Boomer Ball"@
    } else if id == 48 {
        "Tactical Rumble"@
    } else if id == 49 {
        "Spring Loaded"@
    } else if id == 50 {
        "Speed Demon"@
    } else if id == 54 {
        "Knockout"@
    } else {
        "Unknown Playlist"@
    }
}

/// The ranked playlists: solo duel, doubles, standard, hoops, rumble and
/// snow day.
pub open spec fn ranked(id: int) -> bool {
    id == 10 || id == 11 || id == 13 || id == 27 || id == 28 || id == 30
}

/// The rank tracker's id for an internal playlist id; every playlist that is
/// not ranked counts as casual.
pub open spec fn tracker_playlist(id: int) -> i64 {
    if id == 10 {
        playlist_id::RANKED_DUEL_1V1
    } else if id == 11 {
        playlist_id::RANKED_DOUBLES_2V2
    } else if id == 13 {
        playlist_id::RANKED_STANDARD_3V3
    } else if id == 27 {
        playlist_id::HOOPS
    } else if id == 28 {
        playlist_id::RUMBLE
    } else if id == 30 {
        playlist_id::SNOWDAY
    } else {
        playlist_id::CASUAL
    }
}

/// The display name of a playlist; unknown ids give "Unknown Playlist".
pub fn playlist_name_from_id(id: i64) -> (name: &'static str)
    ensures
        name@ == playlist_name(id as int),
{
    match id {
        0 => "Casual",
        1 => "Duel (Casual 1v1)",
        2 => "Doubles (Casual 2v2)",
        3 => "Standard (Casual 3v3)",
        4 => "Chaos (Casual 4v4)",
        6 => "Private Match",
        9 => "Training",
        10 => "Ranked Solo Duel",
        11 => "Ranked Doubles",
        13 => "Ranked Standard",
        15 => "Snow Day",
        17 => "Hoops",
        18 => "Rumble",
        19 => "Workshop",
        21 => "Custom Training",
        22 => "Tournament",
        23 => "Dropshot",
        27 => "Ranked Hoops",
        28 => "Ranked Rumble",
        30 => "Ranked Snow Day",
        32 => "Beach Ball",
        35 => "Rocket Labs",
        41 => "Boomer Ball",
        48 => "Tactical Rumble",
        49 => "Spring Loaded",
        50 => "Speed Demon",
        54 => "Knockout",
        _ => "Unknown Playlist",
    }
}

/// Whether an internal playlist id is one of the ranked playlists.
pub fn is_ranked_playlist(internal_playlist_id: i64) -> (r: bool)
    ensures
        r == ranked(internal_playlist_id as int),
{
    internal_playlist_id == 10 || internal_playlist_id == 11 || internal_playlist_id == 13
        || internal_playlist_id == 27 || internal_playlist_id == 28 || internal_playlist_id == 30
}

/// The rank tracker's playlist id for an internal playlist id.
pub fn trn_playlist_id_from_internal(id: i64) -> (trn: i64)
    ensures
        trn == tracker_playlist(id as int),
{
    match id {
        10 => playlist_id::RANKED_DUEL_1V1,
        11 => playlist_id::RANKED_DOUBLES_2V2,
        13 => playlist_id::RANKED_STANDARD_3V3,
        27 => playlist_id::HOOPS,
        28 => playlist_id::RUMBLE,
        30 => playlist_id::SNOWDAY,
        _ => playlist_id::CASUAL,
    }
}

/// A ranked playlist keeps its own id at the rank tracker, and exactly the
/// playlists that are not ranked are looked up there as casual.
pub proof fn lemma_tracker_id_of_ranked(id: int)
    ensures
        ranked(id) ==> tracker_playlist(id) == id,
        ranked(id) <==> tracker_playlist(id) != playlist_id::CASUAL,
{
}

/// Whether a name begins with "Ranked ".
pub open spec fn named_ranked(name: Seq<char>) -> bool {
    name.len() >= 7 && name.take(7) == "Ranked "@
}

/// Exactly the ranked playlists carry names beginning with "Ranked ".
pub proof fn lemma_ranked_names(id: int)
    ensures
        ranked(id) <==> named_ranked(playlist_name(id)),
{
    reveal_strlit("Ranked ");
    reveal_strlit("Casual");
    reveal_strlit("Duel (Casual 1v1)");
    reveal_strlit("Doubles (Casual 2v2)");
    reveal_strlit("Standard (Casual 3v3)");
    reveal_strlit("Chaos (Casual 4v4)");
    reveal_strlit("Private Match");
    reveal_strlit("Training");
    reveal_strlit("Ranked Solo Duel");
    reveal_strlit("Ranked Doubles");
    reveal_strlit("Ranked Standard");
    reveal_strlit("Snow Day");
    reveal_strlit("Hoops");
    reveal_strlit("Rumble");
    reveal_strlit("Workshop");
    reveal_strlit("Custom Training");
    reveal_strlit("Tournament");
    reveal_strlit("Dropshot");
    reveal_strlit("Ranked Hoops");
    reveal_strlit("Ranked Rumble");
    reveal_strlit("Ranked Snow Day");
    reveal_strlit("Beach Ball");
    reveal_strlit("Rocket Labs");
    reveal_strlit("Boomer Ball");
    reveal_strlit("Tactical Rumble");
    reveal_strlit("Spring Loaded");
    reveal_strlit("Speed Demon");
    reveal_strlit("Knockout");
    reveal_strlit("Unknown Playlist");
    assert(named_ranked(playlist_name(id)) ==> ranked(id)) by {
        if named_ranked(playlist_name(id)) && !ranked(id) {
            let n = playlist_name(id);
            assert(n.take(7)[0] == 'R');
            assert(n.take(7)[1] == 'a');
            assert(n.take(7)[6] == ' ');
        }
    }
    if ranked(id) {
        assert(playlist_name(id).take(7) =~= "Ranked "@);
    }
}

/// Each known playlist id has the name the game gives it, and every other id
/// is an unknown playlist.
pub proof fn lemma_playlist_names(id: int)
    ensures
        playlist_name(0) == "Casual"@,
        playlist_name(1) == "Duel (Casual 1v1)"@,
        playlist_name(2) == "Doubles (Casual 2v2)"@,
        playlist_name(3) == "Standard (Casual 3v3)"@,
        playlist_name(4) == "Chaos (Casual 4v4)"@,
        playlist_name(6) == "Private Match"@,
        playlist_name(9) == "Training"@,
        playlist_name(10) == "Ranked Solo Duel"@,
        playlist_name(11) == "Ranked Doubles"@,
        playlist_name(13) == "Ranked Standard"@,
        playlist_name(15) == "Snow Day"@,
        playlist_name(17) == "Hoops"@,
        playlist_name(18) == "Rumble"@,
        playlist_name(19) == "Workshop"@,
        playlist_name(21) == "Custom Training"@,
        playlist_name(22) == "Tournament"@,
        playlist_name(23) == "Dropshot"@,
        playlist_name(27) == "Ranked Hoops"@,
        playlist_name(28) == "Ranked Rumble"@,
        playlist_name(30) == "Ranked Snow Day"@,
        playlist_name(32) == "Beach Ball"@,
        playlist_name(35) == "Rocket Labs"@,
        playlist_name(41) == "Boomer Ball"@,
        playlist_name(48) == "Tactical Rumble"@,
        playlist_name(49) == "Spring Loaded"@,
        playlist_name(50) == "Speed Demon"@,
        playlist_name(54) == "Knockout"@,
        !(id == 0 || id == 1 || id == 2 || id == 3 || id == 4 || id == 6 || id == 9 || id == 10 || id == 11 || id == 13 || id == 15 || id == 17 || id == 18 || id == 19 || id == 21 || id == 22 || id == 23 || id == 27 || id == 28 || id == 30 || id == 32 || id == 35 || id == 41 || id == 48 || id == 49 || id == 50 || id == 54) ==> playlist_name(id) == "Unknown Playlist"@,
{
}

/// Distinct known playlists have distinct names.
pub proof fn lemma_playlist_names_distinct(a: int, b: int)
    requires
        a != b,
        playlist_name(a) != "Unknown Playlist"@,
        playlist_name(b) != "Unknown Playlist"@,
    ensures
        playlist_name(a) != playlist_name(b),
{
    reveal_strlit("Casual");
    reveal_strlit("Duel (Casual 1v1)");
    reveal_strlit("Doubles (Casual 2v2)");
    reveal_strlit("Standard (Casual 3v3)");
    reveal_strlit("Chaos (Casual 4v4)");
    reveal_strlit("Private Match");
    reveal_strlit("Training");
    reveal_strlit("Ranked Solo Duel");
    reveal_strlit("Ranked Doubles");
    reveal_strlit("Ranked Standard");
    reveal_strlit("Snow Day");
    reveal_strlit("Hoops");
    reveal_strlit("Rumble");
    reveal_strlit("Workshop");
    reveal_strlit("Custom Training");
    reveal_strlit("Tournament");
    reveal_strlit("Dropshot");
    reveal_strlit("Ranked Hoops");
    reveal_strlit("Ranked Rumble");
    reveal_strlit("Ranked Snow Day");
    reveal_strlit("Beach Ball");
    reveal_strlit("Rocket Labs");
    reveal_strlit("Boomer Ball");
    reveal_strlit("Tactical Rumble");
    reveal_strlit("Spring Loaded");
    reveal_strlit("Speed Demon");
    reveal_strlit("Knockout");
    reveal_strlit("Unknown Playlist");
    let na = playlist_name(a);
    let nb = playlist_name(b);
    if na == nb {
        assert(na.len() == nb.len());
        assert(na[0] == nb[0]);
        assert(na[na.len() - 1] == nb[nb.len() - 1]);
    }
}

} // verus!
