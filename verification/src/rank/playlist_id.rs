//! Playlist ids as the rank tracker numbers them.

use vstd::prelude::*;

verus! {

pub const CASUAL: i64 = 0;

pub const RANKED_DUEL_1V1: i64 = 10;

pub const RANKED_DOUBLES_2V2: i64 = 11;

pub const RANKED_STANDARD_3V3: i64 = 13;

pub const HOOPS: i64 = 27;

pub const RUMBLE: i64 = 28;

pub const DROPSHOT: i64 = 29;

pub const SNOWDAY: i64 = 30;

pub const TOURNAMENT: i64 = 34;

pub const RANKED_4V4_QUADS: i64 = 61;

pub const HEATSEEKER: i64 = 63;

} // verus!
