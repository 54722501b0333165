//! Arena names: the display name of each map asset, and the search for a
//! picture of the arena (a static image, the fandom wiki, then an image
//! search), with the answers remembered per asset.

use vstd::prelude::*;
use crate::cache::KeyedCache;
use crate::encoding::{url_encode, url_encoded};
use crate::text::{opt_text, str_eq};

verus! {

/// Where the static arena images live.
pub const MAP_REPO_BASE: &'static str = "https://raw.githubusercontent.com/segalll/DiscordRPCPlugin/master/maps";

/// The fandom wiki's API endpoint.
pub const FANDOM_API_BASE: &'static str = "https://rocketleague.fandom.com/api.php";

/// The display name of a map asset; assets outside the table give
/// "Unknown Map". The table is kept by the length of the asset name.
pub open spec fn map_display(asset: Seq<char>) -> Seq<char> {
    let n: nat = asset.len();
    if n == 4 {
        if asset == "cs_p"@ {
            "Champions Field"@
        } else if asset == "bb_p"@ {
            "The Block"@
        } else {
            "Unknown Map"@
        }
    } else if n == 5 {
        if asset == "ARC_P"@ {
            "Core 707"@
        } else {
            "Unknown Map"@
        }
    } else if n == 6 {
        if asset == "Park_P"@ {
            "Beckwith Park"@
        } else if asset == "farm_p"@ {
            "Farmstead"@
        } else if asset == "random"@ {
            "Random Map"@
        } else {
            "Unknown Map"@
        }
    } else if n == 7 {
        if asset == "cs_hw_p"@ {
            "Rivals Arena"@
        } else if asset == "beach_P"@ {
            "Salty Shores"@
        } else if asset == "music_p"@ {
            "Neon Fields"@
        } else if asset == "Woods_P"@ {
            "Forbidden Temple"@
        } else {
            "Unknown Map"@
        }
    } else if n == 8 {
        if asset == "cs_day_p"@ {
            "Champions Field"@
        } else if asset == "outlaw_p"@ {
            "Deadeye Canyon"@
        } else if asset == "street_p"@ {
            "Sovereign Heights"@
        } else if asset == "UF_Day_P"@ {
            "Futura Garden"@
        } else if asset == "swoosh_p"@ {
            "Deadeye Canyon"@
        } else {
            "Unknown Map"@
        }
    } else if n == 9 {
        if asset == "Stadium_P"@ {
            "DFH Stadium"@
        } else if asset == "Farm_HW_P"@ {
            "Farmstead"@
        } else if asset == "FF_Dusk_P"@ {
            "Estadio Vida"@
        } else {
            "Unknown Map"@
        }
    } else if n == 10 {
        if asset == "NeoTokyo_P"@ {
            "Neo Tokyo"@
        } else if asset == "Farm_GRS_P"@ {
            "Farmstead"@
        } else if asset == "ARC_Darc_P"@ {
            "Core 707"@
        } else {
            "Unknown Map"@
        }
    } else if n == 11 {
        if asset == "park_bman_p"@ {
            "Beckwith Park"@
        } else if asset == "Wasteland_P"@ {
            "Badlands"@
        } else if asset == "KO_Carbon_P"@ {
            "Knockout Carbon"@
        } else {
            "Unknown Map"@
        }
    } else if n == 12 {
        if asset == "Underwater_P"@ {
            "AquaDome"@
        } else if asset == "Park_Night_P"@ {
            "Beckwith Park"@
        } else if asset == "Park_Rainy_P"@ {
            "Beckwith Park"@
        } else if asset == "Park_Snowy_P"@ {
            "Beckwith Park"@
        } else if asset == "Farm_Night_P"@ {
            "Farmstead"@
        } else if asset == "KO_Quadron_P"@ {
            "Knockout Quadron"@
        } else {
            "Unknown Map"@
        }
    } else if n == 13 {
        if asset == "EuroStadium_P"@ {
            "Mannfield"@
        } else if asset == "CHN_Stadium_P"@ {
            "Forbidden Temple"@
        } else if asset == "stadium_day_p"@ {
            "DFH Stadium"@
        } else if asset == "wasteland_s_p"@ {
            "Badlands"@
        } else if asset == "beach_night_p"@ {
            "Salty Shores"@
        } else if asset == "Woods_Night_P"@ {
            "Drift Woods"@
        } else if asset == "STADIUM_10A_P"@ {
            "Neon Fields"@
        } else if asset == "ShatterShot_P"@ {
            "Discotheque"@
        } else if asset == "KO_Calavera_P"@ {
            "Knockout Calavera"@
        } else if asset == "hoopsStreet_p"@ {
            "Dunk House"@
        } else if asset == "FNI_Stadium_P"@ {
            "DFH Stadium"@
        } else {
            "Unknown Map"@
        }
    } else if n == 14 {
        if asset == "NeoTokyo_Hax_P"@ {
            "Neo Tokyo"@
        } else if asset == "TrainStation_P"@ {
            "Urban Central"@
        } else if asset == "Outlaw_Oasis_P"@ {
            "Deadeye Canyon"@
        } else if asset == "arc_standard_p"@ {
            "Core 707"@
        } else if asset == "HoopsStadium_P"@ {
            "Dunk House"@
        } else {
            "Unknown Map"@
        }
    } else if n == 15 {
        if asset == "Stadium_Foggy_P"@ {
            "DFH Stadium"@
        } else if asset == "UtopiaStadium_P"@ {
            "Utopia Coliseum"@
        } else if asset == "NeoTokyo_Toon_p"@ {
            "Neo Tokyo"@
        } else if asset == "Wasteland_GRS_P"@ {
            "Badlands"@
        } else {
            "Unknown Map"@
        }
    } else if n == 16 {
        if asset == "Stadium_Winter_P"@ {
            "DFH Stadium"@
        } else if asset == "Underwater_GRS_P"@ {
            "AquaDome"@
        } else {
            "Unknown Map"@
        }
    } else if n == 17 {
        if asset == "CHN_Stadium_Day_P"@ {
            "Forbidden Temple"@
        } else if asset == "NeoTokyo_Arcade_P"@ {
            "Neo Tokyo"@
        } else if asset == "Wasteland_Night_P"@ {
            "Badlands"@
        } else if asset == "beach_night_grs_p"@ {
            "Salty Shores"@
        } else if asset == "throwbackhockey_p"@ {
            "Throwback Stadium"@
        } else {
            "Unknown Map"@
        }
    } else if n == 18 {
        if asset == "EuroStadium_Dusk_P"@ {
            "Mannfield"@
        } else if asset == "Stadium_Race_Day_p"@ {
            "DFH Stadium"@
        } else if asset == "throwbackstadium_P"@ {
            "Throwback Stadium"@
        } else {
            "Unknown Map"@
        }
    } else if n == 19 {
        if asset == "EuroStadium_Night_P"@ {
            "Mannfield"@
        } else if asset == "EuroStadium_Rainy_P"@ {
            "Mannfield"@
        } else if asset == "UtopiaStadium_Lux_P"@ {
            "Utopia Coliseum"@
        } else if asset == "NeoTokyo_Standard_P"@ {
            "Neo Tokyo"@
        } else if asset == "wasteland_Night_S_P"@ {
            "Badlands"@
        } else {
            "Unknown Map"@
        }
    } else if n == 20 {
        if asset == "UtopiaStadium_Dusk_P"@ {
            "Utopia Coliseum"@
        } else if asset == "UtopiaStadium_Snow_P"@ {
            "Utopia Coliseum"@
        } else if asset == "TrainStation_Night_P"@ {
            "Urban Central"@
        } else if asset == "TrainStation_Dawn_P'"@ {
            "Urban Central"@
        } else {
            "Unknown Map"@
        }
    } else if n == 22 {
        if asset == "Haunted_TrainStation_P"@ {
            "Urban Central"@
        } else {
            "Unknown Map"@
        }
    } else if n == 23 {
        if asset == "eurostadium_snownight_p"@ {
            "Mannfield"@
        } else {
            "Unknown Map"@
        }
    } else {
        "Unknown Map"@
    }
}

/// The display name for a map asset name, as the game reports it.
pub fn map_display_name(asset: &str) -> (name: &'static str)
    ensures
        name@ == map_display(asset@),
{
    let n: usize = asset.unicode_len();
    if n == 4 {
        if str_eq(asset, "cs_p") {
            "Champions Field"
        } else if str_eq(asset, "bb_p") {
            "The Block"
        } else {
            "Unknown Map"
        }
    } else if n == 5 {
        if str_eq(asset, "ARC_P") {
            "Core 707"
        } else {
            "Unknown Map"
        }
    } else if n == 6 {
        if str_eq(asset, "Park_P") {
            "Beckwith Park"
        } else if str_eq(asset, "farm_p") {
            "Farmstead"
        } else if str_eq(asset, "random") {
            "Random Map"
        } else {
            "Unknown Map"
        }
    } else if n == 7 {
        if str_eq(asset, "cs_hw_p") {
            "Rivals Arena"
        } else if str_eq(asset, "beach_P") {
            "Salty Shores"
        } else if str_eq(asset, "music_p") {
            "Neon Fields"
        } else if str_eq(asset, "Woods_P") {
            "Forbidden Temple"
        } else {
            "Unknown Map"
        }
    } else if n == 8 {
        if str_eq(asset, "cs_day_p") {
            "Champions Field"
        } else if str_eq(asset, "outlaw_p") {
            "Deadeye Canyon"
        } else if str_eq(asset, "street_p") {
            "Sovereign Heights"
        } else if str_eq(asset, "UF_Day_P") {
            "Futura Garden"
        } else if str_eq(asset, "swoosh_p") {
            "Deadeye Canyon"
        } else {
            "Unknown Map"
        }
    } else if n == 9 {
        if str_eq(asset, "Stadium_P") {
            "DFH Stadium"
        } else if str_eq(asset, "Farm_HW_P") {
            "Farmstead"
        } else if str_eq(asset, "FF_Dusk_P") {
            "Estadio Vida"
        } else {
            "Unknown Map"
        }
    } else if n == 10 {
        if str_eq(asset, "NeoTokyo_P") {
            "Neo Tokyo"
        } else if str_eq(asset, "Farm_GRS_P") {
            "Farmstead"
        } else if str_eq(asset, "ARC_Darc_P") {
            "Core 707"
        } else {
            "Unknown Map"
        }
    } else if n == 11 {
        if str_eq(asset, "park_bman_p") {
            "Beckwith Park"
        } else if str_eq(asset, "Wasteland_P") {
            "Badlands"
        } else if str_eq(asset, "KO_Carbon_P") {
            "Knockout Carbon"
        } else {
            "Unknown Map"
        }
    } else if n == 12 {
        if str_eq(asset, "Underwater_P") {
            "AquaDome"
        } else if str_eq(asset, "Park_Night_P") {
            "Beckwith Park"
        } else if str_eq(asset, "Park_Rainy_P") {
            "Beckwith Park"
        } else if str_eq(asset, "Park_Snowy_P") {
            "Beckwith Park"
        } else if str_eq(asset, "Farm_Night_P") {
            "Farmstead"
        } else if str_eq(asset, "KO_Quadron_P") {
            "Knockout Quadron"
        } else {
            "Unknown Map"
        }
    } else if n == 13 {
        if str_eq(asset, "EuroStadium_P") {
            "Mannfield"
        } else if str_eq(asset, "CHN_Stadium_P") {
            "Forbidden Temple"
        } else if str_eq(asset, "stadium_day_p") {
            "DFH Stadium"
        } else if str_eq(asset, "wasteland_s_p") {
            "Badlands"
        } else if str_eq(asset, "beach_night_p") {
            "Salty Shores"
        } else if str_eq(asset, "Woods_Night_P") {
            "Drift Woods"
        } else if str_eq(asset, "STADIUM_10A_P") {
            "Neon Fields"
        } else if str_eq(asset, "ShatterShot_P") {
            "Discotheque"
        } else if str_eq(asset, "KO_Calavera_P") {
            "Knockout Calavera"
        } else if str_eq(asset, "hoopsStreet_p") {
            "Dunk House"
        } else if str_eq(asset, "FNI_Stadium_P") {
            "DFH Stadium"
        } else {
            "Unknown Map"
        }
    } else if n == 14 {
        if str_eq(asset, "NeoTokyo_Hax_P") {
            "Neo Tokyo"
        } else if str_eq(asset, "TrainStation_P") {
            "Urban Central"
        } else if str_eq(asset, "Outlaw_Oasis_P") {
            "Deadeye Canyon"
        } else if str_eq(asset, "arc_standard_p") {
            "Core 707"
        } else if str_eq(asset, "HoopsStadium_P") {
            "Dunk House"
        } else {
            "Unknown Map"
        }
    } else if n == 15 {
        if str_eq(asset, "Stadium_Foggy_P") {
            "DFH Stadium"
        } else if str_eq(asset, "UtopiaStadium_P") {
            "Utopia Coliseum"
        } else if str_eq(asset, "NeoTokyo_Toon_p") {
            "Neo Tokyo"
        } else if str_eq(asset, "Wasteland_GRS_P") {
            "Badlands"
        } else {
            "Unknown Map"
        }
    } else if n == 16 {
        if str_eq(asset, "Stadium_Winter_P") {
            "DFH Stadium"
        } else if str_eq(asset, "Underwater_GRS_P") {
            "AquaDome"
        } else {
            "Unknown Map"
        }
    } else if n == 17 {
        if str_eq(asset, "CHN_Stadium_Day_P") {
            "Forbidden Temple"
        } else if str_eq(asset, "NeoTokyo_Arcade_P") {
            "Neo Tokyo"
        } else if str_eq(asset, "Wasteland_Night_P") {
            "Badlands"
        } else if str_eq(asset, "beach_night_grs_p") {
            "Salty Shores"
        } else if str_eq(asset, "throwbackhockey_p") {
            "Throwback Stadium"
        } else {
            "Unknown Map"
        }
    } else if n == 18 {
        if str_eq(asset, "EuroStadium_Dusk_P") {
            "Mannfield"
        } else if str_eq(asset, "Stadium_Race_Day_p") {
            "DFH Stadium"
        } else if str_eq(asset, "throwbackstadium_P") {
            "Throwback Stadium"
        } else {
            "Unknown Map"
        }
    } else if n == 19 {
        if str_eq(asset, "EuroStadium_Night_P") {
            "Mannfield"
        } else if str_eq(asset, "EuroStadium_Rainy_P") {
            "Mannfield"
        } else if str_eq(asset, "UtopiaStadium_Lux_P") {
            "Utopia Coliseum"
        } else if str_eq(asset, "NeoTokyo_Standard_P") {
            "Neo Tokyo"
        } else if str_eq(asset, "wasteland_Night_S_P") {
            "Badlands"
        } else {
            "Unknown Map"
        }
    } else if n == 20 {
        if str_eq(asset, "UtopiaStadium_Dusk_P") {
            "Utopia Coliseum"
        } else if str_eq(asset, "UtopiaStadium_Snow_P") {
            "Utopia Coliseum"
        } else if str_eq(asset, "TrainStation_Night_P") {
            "Urban Central"
        } else if str_eq(asset, "TrainStation_Dawn_P'") {
            "Urban Central"
        } else {
            "Unknown Map"
        }
    } else if n == 22 {
        if str_eq(asset, "Haunted_TrainStation_P") {
            "Urban Central"
        } else {
            "Unknown Map"
        }
    } else if n == 23 {
        if str_eq(asset, "eurostadium_snownight_p") {
            "Mannfield"
        } else {
            "Unknown Map"
        }
    } else {
        "Unknown Map"
    }
}

/// Spaces become underscores, as the wiki names its files.
pub open spec fn underscored(s: Seq<char>) -> Seq<char> {
    s.map_values(|c: char| if c == ' ' { '_' } else { c })
}

/// The file-name endings tried on the wiki, in order.
pub open spec fn fandom_suffix(i: int) -> Seq<char> {
    if i == 0 {
        ".jpg"@
    } else if i == 1 {
        ".png"@
    } else if i == 2 {
        "_arena.jpg"@
    } else {
        "_standard.jpg"@
    }
}

/// How many wiki file names are tried for an arena.
pub const FANDOM_CANDIDATES: usize = 4;

/// The `i`-th wiki file name tried for an arena's display name.
pub open spec fn fandom_candidate(display: Seq<char>, i: int) -> Seq<char> {
    underscored(display) + fandom_suffix(i)
}

/// The wiki page title of the `i`-th candidate file.
pub open spec fn fandom_title(display: Seq<char>, i: int) -> Seq<char> {
    "File:"@ + fandom_candidate(display, i)
}

/// The static image of an arena asset.
pub open spec fn static_map_url_text(asset: Seq<char>) -> Seq<char> {
    MAP_REPO_BASE@ + "/"@ + asset + ".png"@
}

/// The placeholder image used when nothing better is found.
pub open spec fn template_map_url_text() -> Seq<char> {
    MAP_REPO_BASE@ + "/Template.png"@
}

/// The image search query for an arena.
pub open spec fn search_query_text(display: Seq<char>) -> Seq<char> {
    display + " rocket league map"@
}

/// The image search request for a query and an API key.
pub open spec fn search_url_text(query: Seq<char>, api_key: Seq<char>) -> Seq<char> {
    "https://serpapi.com/search.json?engine=google_images&q="@ + url_encoded(query) + "&api_key="@
        + api_key
}

/// `s` with every space replaced by an underscore.
pub fn spaces_to_underscores(s: &str) -> (r: String)
    ensures
        r@ == underscored(s@),
{
    let n: usize = s.unicode_len();
    let mut r = String::new();
    let mut i: usize = 0;
    while i < n
        invariant
            n == s@.len(),
            i <= n,
            r@ == underscored(s@.take(i as int)),
        decreases n - i,
    {
        let c = s.get_char(i);
        if c == ' ' {
            proof {
                reveal_strlit("_");
            }
            r.append("_");
        } else {
            r.append(s.substring_char(i, i + 1));
            assert(s@.subrange(i as int, i + 1) =~= seq![c]);
        }
        assert(s@.take(i + 1) =~= s@.take(i as int).push(c));
        assert(underscored(s@.take(i + 1)) =~= underscored(s@.take(i as int)).push(
            if c == ' ' {
                '_'
            } else {
                c
            },
        ));
        assert(r@ =~= underscored(s@.take(i + 1)));
        i = i + 1;
    }
    assert(s@.take(n as int) =~= s@);
    r
}

/// The wiki file names tried for an arena, in order: the display name with
/// underscores for spaces, ending in `.jpg`, `.png`, `_arena.jpg` and
/// `_standard.jpg`.
pub fn fandom_filename_candidates(display_name: &str) -> (names: Vec<String>)
    ensures
        names@.len() == FANDOM_CANDIDATES,
        forall|i: int| 0 <= i < FANDOM_CANDIDATES ==> #[trigger] names@[i]@ == fandom_candidate(display_name@, i),
{
    let base = spaces_to_underscores(display_name);
    let mut names: Vec<String> = Vec::new();
    proof {
        reveal_strlit(".jpg");
        reveal_strlit(".png");
        reveal_strlit("_arena.jpg");
        reveal_strlit("_standard.jpg");
    }
    let mut a = base.clone();
    a.append(".jpg");
    names.push(a);
    let mut b = base.clone();
    b.append(".png");
    names.push(b);
    let mut c = base.clone();
    c.append("_arena.jpg");
    names.push(c);
    let mut d = base;
    d.append("_standard.jpg");
    names.push(d);
    names
}

/// The wiki page title for a candidate file name.
pub fn fandom_file_title(file_name: &str) -> (title: String)
    ensures
        title@ == "File:"@ + file_name@,
{
    let mut title = String::from_str("File:");
    title.append(file_name);
    title
}

/// The static image address of an arena asset.
pub fn static_map_url(asset: &str) -> (url: String)
    ensures
        url@ == static_map_url_text(asset@),
{
    let mut url = String::from_str(MAP_REPO_BASE);
    url.append("/");
    url.append(asset);
    url.append(".png");
    url
}

/// The placeholder image address.
pub fn template_map_url() -> (url: String)
    ensures
        url@ == template_map_url_text(),
{
    let mut url = String::from_str(MAP_REPO_BASE);
    url.append("/Template.png");
    url
}

/// The image search query for an arena's display name.
pub fn image_search_query(display_name: &str) -> (query: String)
    ensures
        query@ == search_query_text(display_name@),
{
    let mut query = String::from_str(display_name);
    query.append(" rocket league map");
    query
}

/// The image search request address, with the query percent-encoded.
pub fn image_search_url(query: &str, api_key: &str) -> (url: String)
    ensures
        url@ == search_url_text(query@, api_key@),
{
    let mut url = String::from_str("https://serpapi.com/search.json?engine=google_images&q=");
    let encoded = url_encode(query);
    url.append(encoded.as_str());
    url.append("&api_key=");
    url.append(api_key);
    url
}

/// One image description in a wiki answer.
pub struct FandomImageInfo {
    pub url: String,
}

/// One page in a wiki answer.
pub struct FandomPage {
    pub imageinfo: Option<Vec<FandomImageInfo>>,
}

/// The pages of a wiki answer, in the order in which they were walked.
pub struct FandomQuery {
    pub pages: Vec<FandomPage>,
}

/// A wiki image-info answer.
pub struct FandomApiResponse {
    pub query: Option<FandomQuery>,
}

/// The first image of the first page that has one.
pub open spec fn first_fandom_image(pages: Seq<FandomPage>) -> Option<Seq<char>>
    decreases pages.len(),
{
    if pages.len() == 0 {
        None
    } else {
        match pages[0].imageinfo {
            Some(infos) if infos@.len() > 0 => Some(infos@[0].url@),
            _ => first_fandom_image(pages.drop_first()),
        }
    }
}

/// The image that a wiki answer offers: the first image of the first page
/// that has any.
pub fn fandom_image_from_response(response: &FandomApiResponse) -> (url: Option<String>)
    ensures
        opt_text(url) == match response.query {
            Some(q) => first_fandom_image(q.pages@),
            None => None,
        },
{
    match &response.query {
        None => None,
        Some(q) => {
            let pages = &q.pages;
            let mut i: usize = 0;
            assert(pages@.skip(0) =~= pages@);
            while i < pages.len()
                invariant
                    i <= pages@.len(),
                    pages@ == q.pages@,
                    response.query == Some(*q),
                    first_fandom_image(pages@) == first_fandom_image(pages@.skip(i as int)),
                decreases pages@.len() - i,
            {
                assert(pages@.skip(i as int)[0] == pages@[i as int]);
                assert(pages@.skip(i as int).drop_first() =~= pages@.skip(i + 1));
                match &pages[i].imageinfo {
                    Some(infos) => {
                        if infos.len() > 0 {
                            assert(first_fandom_image(pages@.skip(i as int)) == Some(
                                infos@[0].url@,
                            ));
                            let u = infos[0].url.clone();
                            assert(u@ == infos@[0].url@);
                            assert(first_fandom_image(q.pages@) == Some(u@));
                            return Some(u);
                        }
                    },
                    None => {},
                }
                i = i + 1;
            }
            None
        },
    }
}

/// One image search result.
pub struct SerpImage {
    pub original: Option<String>,
    pub thumbnail: Option<String>,
}

/// An image search answer.
pub struct SerpResponse {
    pub images_results: Option<Vec<SerpImage>>,
}

/// The image that a search answer offers: the first result's original, or
/// else its thumbnail.
pub open spec fn first_search_image(response: SerpResponse) -> Option<Seq<char>> {
    match response.images_results {
        Some(results) if results@.len() > 0 => match results@[0].original {
            Some(u) => Some(u@),
            None => opt_text(results@[0].thumbnail),
        },
        _ => None,
    }
}

/// The image that an image search answer offers.
pub fn search_image_from_response(response: &SerpResponse) -> (url: Option<String>)
    ensures
        opt_text(url) == first_search_image(*response),
{
    match &response.images_results {
        Some(results) => {
            if results.len() > 0 {
                match &results[0].original {
                    Some(u) => Some(u.clone()),
                    None => match &results[0].thumbnail {
                        Some(t) => Some(t.clone()),
                        None => None,
                    },
                }
            } else {
                None
            }
        },
        None => None,
    }
}

/// Image addresses found so far, by map asset.
pub type ImageCache = KeyedCache<String>;

/// A question the image search needs answered from outside.
pub enum ImageQuery {
    /// Does this address answer a HEAD request with success?
    Probe { url: String },
    /// The first image on this wiki page, if any.
    Fandom { title: String },
    /// The first image that an image search for this query finds, if any.
    Search { query: String },
}

/// What the image search does next.
pub enum ImageStep {
    Ask(ImageQuery),
    Resolved(String),
}

/// The answer to the pending question.
pub enum ImageAnswer {
    /// Whether a probed address answered with success.
    Reachable(bool),
    /// The image found by a wiki or search question, if any.
    Found(Option<String>),
}

/// How far an image search has come.
pub enum LookupStage {
    Probe,
    Fandom(usize),
    Search,
    Done,
}

/// The image search for one arena, one question at a time.
pub struct MapImageLookup {
    asset: String,
    display: String,
    candidates: Vec<String>,
    stage: LookupStage,
}

/// `step` asks for a wiki lookup of this title.
pub open spec fn asks_fandom(step: ImageStep, title: Seq<char>) -> bool {
    step matches ImageStep::Ask(ImageQuery::Fandom { title: t }) && t@ == title
}

/// `step` asks for an image search with this query.
pub open spec fn asks_search(step: ImageStep, query: Seq<char>) -> bool {
    step matches ImageStep::Ask(ImageQuery::Search { query: q }) && q@ == query
}

/// `step` asks whether this address is reachable.
pub open spec fn asks_probe(step: ImageStep, url: Seq<char>) -> bool {
    step matches ImageStep::Ask(ImageQuery::Probe { url: u }) && u@ == url
}

/// `step` ends the search with this address.
pub open spec fn resolves_to(step: ImageStep, url: Seq<char>) -> bool {
    step matches ImageStep::Resolved(u) && u@ == url
}

/// The stage a search moves to when the pending question at `stage` gets
/// `answer`: a reachable static image, or any image found, ends it; a probe
/// that did not succeed moves on to the first wiki file; a wiki file without
/// an image moves on to the next one, and after the last one to the image
/// search; the image search always ends it (with the placeholder if it found
/// nothing).
pub open spec fn next_stage(stage: LookupStage, answer: ImageAnswer) -> LookupStage {
    match stage {
        LookupStage::Probe => if answer == ImageAnswer::Reachable(true) {
            LookupStage::Done
        } else {
            LookupStage::Fandom(0)
        },
        LookupStage::Fandom(i) => if answer matches ImageAnswer::Found(Some(_)) {
            LookupStage::Done
        } else if i + 1 < FANDOM_CANDIDATES {
            LookupStage::Fandom((i + 1) as usize)
        } else {
            LookupStage::Search
        },
        LookupStage::Search => LookupStage::Done,
        LookupStage::Done => LookupStage::Done,
    }
}

/// The address a cache already holds for an asset, if any.
pub open spec fn cached_image(cache: Map<Seq<char>, String>, asset: Seq<char>) -> Option<String> {
    if cache.contains_key(asset) {
        Some(cache[asset])
    } else {
        None
    }
}

/// Questions left at most before a search at this stage is done.
pub open spec fn questions_left(stage: LookupStage) -> int {
    match stage {
        LookupStage::Probe => 1 + FANDOM_CANDIDATES + 1,
        LookupStage::Fandom(i) => FANDOM_CANDIDATES - i + 1,
        LookupStage::Search => 1,
        LookupStage::Done => 0,
    }
}

impl MapImageLookup {
    /// The asset whose image is searched.
    pub closed spec fn asset(&self) -> Seq<char> {
        self.asset@
    }

    /// The arena's display name.
    pub closed spec fn display(&self) -> Seq<char> {
        self.display@
    }

    /// The stage the search is at.
    pub closed spec fn stage(&self) -> LookupStage {
        self.stage
    }

    /// The candidate wiki files are those of the display name, and a wiki
    /// stage points at one of them.
    pub closed spec fn wf(&self) -> bool {
        &&& self.candidates@.len() == FANDOM_CANDIDATES
        &&& forall|i: int|
            0 <= i < FANDOM_CANDIDATES ==> #[trigger] self.candidates@[i]@ == fandom_candidate(
                self.display@,
                i,
            )
        &&& (self.stage matches LookupStage::Fandom(i) ==> i < FANDOM_CANDIDATES)
    }

    /// Starts the search for an arena's image: a cached address ends it at
    /// once; otherwise the static image is probed first.
    pub fn begin(cache: &ImageCache, asset: &str, display_name: &str) -> (started: (
        MapImageLookup,
        ImageStep,
    ))
        requires
            cache.wf(),
        ensures
            started.0.wf(),
            started.0.asset() == asset@,
            started.0.display() == display_name@,
            cached_image(cache@, asset@) matches Some(url) ==> started.0.stage() is Done
                && started.1 == ImageStep::Resolved(url),
            cached_image(cache@, asset@) is None ==> started.0.stage() is Probe && asks_probe(
                started.1,
                static_map_url_text(asset@),
            ),
    {
        let candidates = fandom_filename_candidates(display_name);
        match cache.get(asset) {
            Some(url) => {
                let lookup = MapImageLookup {
                    asset: String::from_str(asset),
                    display: String::from_str(display_name),
                    candidates,
                    stage: LookupStage::Done,
                };
                (lookup, ImageStep::Resolved(url))
            },
            None => {
                let lookup = MapImageLookup {
                    asset: String::from_str(asset),
                    display: String::from_str(display_name),
                    candidates,
                    stage: LookupStage::Probe,
                };
                (lookup, ImageStep::Ask(ImageQuery::Probe { url: static_map_url(asset) }))
            },
        }
    }

    /// Whether the search has ended.
    pub fn is_finished(&self) -> (done: bool)
        ensures
            done == (self.stage() is Done),
    {
        match self.stage {
            LookupStage::Done => true,
            _ => false,
        }
    }

    fn ask_fandom(&mut self, i: usize) -> (step: ImageStep)
        requires
            old(self).wf(),
            i < FANDOM_CANDIDATES,
        ensures
            final(self).wf(),
            final(self).asset() == old(self).asset(),
            final(self).display() == old(self).display(),
            final(self).stage() == LookupStage::Fandom(i),
            asks_fandom(step, fandom_title(old(self).display(), i as int)),
    {
        self.stage = LookupStage::Fandom(i);
        let title = fandom_file_title(self.candidates[i].as_str());
        ImageStep::Ask(ImageQuery::Fandom { title })
    }

    fn resolve(&mut self, cache: &mut ImageCache, url: String) -> (step: ImageStep)
        requires
            old(self).wf(),
            old(cache).wf(),
        ensures
            final(self).wf(),
            final(self).asset() == old(self).asset(),
            final(self).display() == old(self).display(),
            final(self).stage() is Done,
            final(cache).wf(),
            final(cache)@ == old(cache)@.insert(old(self).asset(), url),
            step == ImageStep::Resolved(url),
    {
        self.stage = LookupStage::Done;
        cache.set(self.asset.as_str(), url.clone());
        ImageStep::Resolved(url)
    }

    /// Takes the answer to the pending question and says what comes next:
    /// a reachable static image is taken; otherwise each wiki file name is
    /// tried in turn, then an image search, and the placeholder image if that
    /// finds nothing. Whatever the search ends with is cached for the asset.
    /// An answer of the wrong kind counts as a failed lookup.
    pub fn advance(&mut self, cache: &mut ImageCache, answer: ImageAnswer) -> (step: ImageStep)
        requires
            old(self).wf(),
            old(cache).wf(),
            !(old(self).stage() is Done),
        ensures
            final(self).wf(),
            final(cache).wf(),
            final(self).asset() == old(self).asset(),
            final(self).display() == old(self).display(),
            final(self).stage() == next_stage(old(self).stage(), answer),
            questions_left(final(self).stage()) < questions_left(old(self).stage()),
            match step {
                ImageStep::Resolved(u) => final(self).stage() is Done && final(cache)@ == old(
                    cache,
                )@.insert(old(self).asset(), u),
                ImageStep::Ask(_) => !(final(self).stage() is Done) && final(cache)@ == old(
                    cache,
                )@,
            },
            match old(self).stage() {
                LookupStage::Probe => if answer == ImageAnswer::Reachable(true) {
                    resolves_to(step, static_map_url_text(old(self).asset()))
                } else {
                    asks_fandom(step, fandom_title(old(self).display(), 0))
                },
                LookupStage::Fandom(i) => match answer {
                    ImageAnswer::Found(Some(u)) => step == ImageStep::Resolved(u),
                    _ => if i + 1 < FANDOM_CANDIDATES {
                        asks_fandom(step, fandom_title(old(self).display(), i + 1))
                    } else {
                        asks_search(step, search_query_text(old(self).display()))
                    },
                },
                LookupStage::Search => match answer {
                    ImageAnswer::Found(Some(u)) => step == ImageStep::Resolved(u),
                    _ => resolves_to(step, template_map_url_text()),
                },
                LookupStage::Done => false,
            },
    {
        match self.stage {
            LookupStage::Probe => {
                let reachable = match answer {
                    ImageAnswer::Reachable(ok) => ok,
                    ImageAnswer::Found(_) => false,
                };
                if reachable {
                    let url = static_map_url(self.asset.as_str());
                    self.resolve(cache, url)
                } else {
                    self.ask_fandom(0)
                }
            },
            LookupStage::Fandom(i) => {
                let found = match answer {
                    ImageAnswer::Found(f) => f,
                    ImageAnswer::Reachable(_) => None,
                };
                match found {
                    Some(url) => self.resolve(cache, url),
                    None => {
                        if i + 1 < FANDOM_CANDIDATES {
                            self.ask_fandom(i + 1)
                        } else {
                            self.stage = LookupStage::Search;
                            let query = image_search_query(self.display.as_str());
                            ImageStep::Ask(ImageQuery::Search { query })
                        }
                    },
                }
            },
            LookupStage::Search => {
                let found = match answer {
                    ImageAnswer::Found(f) => f,
                    ImageAnswer::Reachable(_) => None,
                };
                match found {
                    Some(url) => self.resolve(cache, url),
                    None => {
                        let url = template_map_url();
                        self.resolve(cache, url)
                    },
                }
            },
            LookupStage::Done => vstd::pervasive::unreached(),
        }
    }
}

/// Once a search has ended with an address (which caches it under the
/// asset), a new search for the same asset ends at once with that address,
/// asking nothing.
pub proof fn lemma_image_answer_remembered(before: Map<Seq<char>, String>, asset: Seq<char>, url: String)
    ensures
        cached_image(before.insert(asset, url), asset) == Some(url),
{
}

/// The order of the search when nothing is found: the static image is
/// probed, then each wiki file name is tried in turn, then the image search,
/// and the placeholder ends it. Until then the search is never done, so each
/// answer may be handed to `advance`.
pub proof fn lemma_search_order_when_nothing_is_found()
    ensures
        next_stage(LookupStage::Probe, ImageAnswer::Reachable(false)) == LookupStage::Fandom(0),
        forall|i: usize|
            i + 1 < FANDOM_CANDIDATES ==> #[trigger] next_stage(
                LookupStage::Fandom(i),
                ImageAnswer::Found(None),
            ) == LookupStage::Fandom((i + 1) as usize),
        next_stage(LookupStage::Fandom((FANDOM_CANDIDATES - 1) as usize), ImageAnswer::Found(None))
            == LookupStage::Search,
        next_stage(LookupStage::Search, ImageAnswer::Found(None)) == LookupStage::Done,
        questions_left(LookupStage::Probe) == 1 + FANDOM_CANDIDATES + 1,
{
}

/// An empty asset name, as before any arena is known, is an unknown map.
pub proof fn lemma_no_asset_is_unknown_map()
    ensures
        map_display(Seq::<char>::empty()) == "Unknown Map"@,
{
}

proof fn lemma_arena_entry_0()
    ensures
        map_display("EuroStadium_P"@) == "Mannfield"@,
{
    reveal_strlit("EuroStadium_P");
    assert("EuroStadium_P"@.len() == 13);
}

proof fn lemma_arena_entry_1()
    ensures
        map_display("EuroStadium_Dusk_P"@) == "Mannfield"@,
{
    reveal_strlit("EuroStadium_Dusk_P");
    assert("EuroStadium_Dusk_P"@.len() == 18);
}

proof fn lemma_arena_entry_2()
    ensures
        map_display("EuroStadium_Night_P"@) == "Mannfield"@,
{
    reveal_strlit("EuroStadium_Night_P");
    assert("EuroStadium_Night_P"@.len() == 19);
}

proof fn lemma_arena_entry_3()
    ensures
        map_display("EuroStadium_Rainy_P"@) == "Mannfield"@,
{
    reveal_strlit("EuroStadium_Rainy_P");
    assert("EuroStadium_Rainy_P"@.len() == 19);
    reveal_strlit("EuroStadium_Night_P");
    assert("EuroStadium_Night_P"@[12] != "EuroStadium_Rainy_P"@[12]);
}

proof fn lemma_arena_entry_4()
    ensures
        map_display("eurostadium_snownight_p"@) == "Mannfield"@,
{
    reveal_strlit("eurostadium_snownight_p");
    assert("eurostadium_snownight_p"@.len() == 23);
}

proof fn lemma_arena_entry_5()
    ensures
        map_display("CHN_Stadium_P"@) == "Forbidden Temple"@,
{
    reveal_strlit("CHN_Stadium_P");
    assert("CHN_Stadium_P"@.len() == 13);
    reveal_strlit("EuroStadium_P");
    assert("EuroStadium_P"@[0] != "CHN_Stadium_P"@[0]);
}

proof fn lemma_arena_entry_6()
    ensures
        map_display("CHN_Stadium_Day_P"@) == "Forbidden Temple"@,
{
    reveal_strlit("CHN_Stadium_Day_P");
    assert("CHN_Stadium_Day_P"@.len() == 17);
}

proof fn lemma_arena_entry_7()
    ensures
        map_display("Stadium_P"@) == "DFH Stadium"@,
{
    reveal_strlit("Stadium_P");
    assert("Stadium_P"@.len() == 9);
}

proof fn lemma_arena_entry_8()
    ensures
        map_display("stadium_day_p"@) == "DFH Stadium"@,
{
    reveal_strlit("stadium_day_p");
    assert("stadium_day_p"@.len() == 13);
    reveal_strlit("EuroStadium_P");
    assert("EuroStadium_P"@[0] != "stadium_day_p"@[0]);
    reveal_strlit("CHN_Stadium_P");
    assert("CHN_Stadium_P"@[0] != "stadium_day_p"@[0]);
}

proof fn lemma_arena_entry_9()
    ensures
        map_display("Stadium_Foggy_P"@) == "DFH Stadium"@,
{
    reveal_strlit("Stadium_Foggy_P");
    assert("Stadium_Foggy_P"@.len() == 15);
}

proof fn lemma_arena_entry_10()
    ensures
        map_display("Stadium_Winter_P"@) == "DFH Stadium"@,
{
    reveal_strlit("Stadium_Winter_P");
    assert("Stadium_Winter_P"@.len() == 16);
}

proof fn lemma_arena_entry_11()
    ensures
        map_display("Stadium_Race_Day_p"@) == "DFH Stadium"@,
{
    reveal_strlit("Stadium_Race_Day_p");
    assert("Stadium_Race_Day_p"@.len() == 18);
    reveal_strlit("EuroStadium_Dusk_P");
    assert("EuroStadium_Dusk_P"@[0] != "Stadium_Race_Day_p"@[0]);
}

proof fn lemma_arena_entry_12()
    ensures
        map_display("UtopiaStadium_P"@) == "Utopia Coliseum"@,
{
    reveal_strlit("UtopiaStadium_P");
    assert("UtopiaStadium_P"@.len() == 15);
    reveal_strlit("Stadium_Foggy_P");
    assert("Stadium_Foggy_P"@[0] != "UtopiaStadium_P"@[0]);
}

proof fn lemma_arena_entry_13()
    ensures
        map_display("UtopiaStadium_Dusk_P"@) == "Utopia Coliseum"@,
{
    reveal_strlit("UtopiaStadium_Dusk_P");
    assert("UtopiaStadium_Dusk_P"@.len() == 20);
}

proof fn lemma_arena_entry_14()
    ensures
        map_display("UtopiaStadium_Snow_P"@) == "Utopia Coliseum"@,
{
    reveal_strlit("UtopiaStadium_Snow_P");
    assert("UtopiaStadium_Snow_P"@.len() == 20);
    reveal_strlit("UtopiaStadium_Dusk_P");
    assert("UtopiaStadium_Dusk_P"@[14] != "UtopiaStadium_Snow_P"@[14]);
}

proof fn lemma_arena_entry_15()
    ensures
        map_display("UtopiaStadium_Lux_P"@) == "Utopia Coliseum"@,
{
    reveal_strlit("UtopiaStadium_Lux_P");
    assert("UtopiaStadium_Lux_P"@.len() == 19);
    reveal_strlit("EuroStadium_Night_P");
    assert("EuroStadium_Night_P"@[0] != "UtopiaStadium_Lux_P"@[0]);
    reveal_strlit("EuroStadium_Rainy_P");
    assert("EuroStadium_Rainy_P"@[0] != "UtopiaStadium_Lux_P"@[0]);
}

proof fn lemma_arena_entry_16()
    ensures
        map_display("Underwater_P"@) == "AquaDome"@,
{
    reveal_strlit("Underwater_P");
    assert("Underwater_P"@.len() == 12);
}

proof fn lemma_arena_entry_17()
    ensures
        map_display("Underwater_GRS_P"@) == "AquaDome"@,
{
    reveal_strlit("Underwater_GRS_P");
    assert("Underwater_GRS_P"@.len() == 16);
    reveal_strlit("Stadium_Winter_P");
    assert("Stadium_Winter_P"@[0] != "Underwater_GRS_P"@[0]);
}

proof fn lemma_arena_entry_18()
    ensures
        map_display("NeoTokyo_Standard_P"@) == "Neo Tokyo"@,
{
    reveal_strlit("NeoTokyo_Standard_P");
    assert("NeoTokyo_Standard_P"@.len() == 19);
    reveal_strlit("EuroStadium_Night_P");
    assert("EuroStadium_Night_P"@[0] != "NeoTokyo_Standard_P"@[0]);
    reveal_strlit("EuroStadium_Rainy_P");
    assert("EuroStadium_Rainy_P"@[0] != "NeoTokyo_Standard_P"@[0]);
    reveal_strlit("UtopiaStadium_Lux_P");
    assert("UtopiaStadium_Lux_P"@[0] != "NeoTokyo_Standard_P"@[0]);
}

proof fn lemma_arena_entry_19()
    ensures
        map_display("NeoTokyo_P"@) == "Neo Tokyo"@,
{
    reveal_strlit("NeoTokyo_P");
    assert("NeoTokyo_P"@.len() == 10);
}

proof fn lemma_arena_entry_20()
    ensures
        map_display("NeoTokyo_Arcade_P"@) == "Neo Tokyo"@,
{
    reveal_strlit("NeoTokyo_Arcade_P");
    assert("NeoTokyo_Arcade_P"@.len() == 17);
    reveal_strlit("CHN_Stadium_Day_P");
    assert("CHN_Stadium_Day_P"@[0] != "NeoTokyo_Arcade_P"@[0]);
}

proof fn lemma_arena_entry_21()
    ensures
        map_display("NeoTokyo_Hax_P"@) == "Neo Tokyo"@,
{
    reveal_strlit("NeoTokyo_Hax_P");
    assert("NeoTokyo_Hax_P"@.len() == 14);
}

proof fn lemma_arena_entry_22()
    ensures
        map_display("NeoTokyo_Toon_p"@) == "Neo Tokyo"@,
{
    reveal_strlit("NeoTokyo_Toon_p");
    assert("NeoTokyo_Toon_p"@.len() == 15);
    reveal_strlit("Stadium_Foggy_P");
    assert("Stadium_Foggy_P"@[0] != "NeoTokyo_Toon_p"@[0]);
    reveal_strlit("UtopiaStadium_P");
    assert("UtopiaStadium_P"@[0] != "NeoTokyo_Toon_p"@[0]);
}

proof fn lemma_arena_entry_23()
    ensures
        map_display("cs_p"@) == "Champions Field"@,
{
    reveal_strlit("cs_p");
    assert("cs_p"@.len() == 4);
}

proof fn lemma_arena_entry_24()
    ensures
        map_display("cs_day_p"@) == "Champions Field"@,
{
    reveal_strlit("cs_day_p");
    assert("cs_day_p"@.len() == 8);
}

proof fn lemma_arena_entry_25()
    ensures
        map_display("cs_hw_p"@) == "Rivals Arena"@,
{
    reveal_strlit("cs_hw_p");
    assert("cs_hw_p"@.len() == 7);
}

proof fn lemma_arena_entry_26()
    ensures
        map_display("Park_P"@) == "Beckwith Park"@,
{
    reveal_strlit("Park_P");
    assert("Park_P"@.len() == 6);
}

proof fn lemma_arena_entry_27()
    ensures
        map_display("Park_Night_P"@) == "Beckwith Park"@,
{
    reveal_strlit("Park_Night_P");
    assert("Park_Night_P"@.len() == 12);
    reveal_strlit("Underwater_P");
    assert("Underwater_P"@[0] != "Park_Night_P"@[0]);
}

proof fn lemma_arena_entry_28()
    ensures
        map_display("Park_Rainy_P"@) == "Beckwith Park"@,
{
    reveal_strlit("Park_Rainy_P");
    assert("Park_Rainy_P"@.len() == 12);
    reveal_strlit("Underwater_P");
    assert("Underwater_P"@[0] != "Park_Rainy_P"@[0]);
    reveal_strlit("Park_Night_P");
    assert("Park_Night_P"@[5] != "Park_Rainy_P"@[5]);
}

proof fn lemma_arena_entry_29()
    ensures
        map_display("Park_Snowy_P"@) == "Beckwith Park"@,
{
    reveal_strlit("Park_Snowy_P");
    assert("Park_Snowy_P"@.len() == 12);
    reveal_strlit("Underwater_P");
    assert("Underwater_P"@[0] != "Park_Snowy_P"@[0]);
    reveal_strlit("Park_Night_P");
    assert("Park_Night_P"@[5] != "Park_Snowy_P"@[5]);
    reveal_strlit("Park_Rainy_P");
    assert("Park_Rainy_P"@[5] != "Park_Snowy_P"@[5]);
}

proof fn lemma_arena_entry_30()
    ensures
        map_display("park_bman_p"@) == "Beckwith Park"@,
{
    reveal_strlit("park_bman_p");
    assert("park_bman_p"@.len() == 11);
}

proof fn lemma_arena_entry_31()
    ensures
        map_display("TrainStation_P"@) == "Urban Central"@,
{
    reveal_strlit("TrainStation_P");
    assert("TrainStation_P"@.len() == 14);
    reveal_strlit("NeoTokyo_Hax_P");
    assert("NeoTokyo_Hax_P"@[0] != "TrainStation_P"@[0]);
}

proof fn lemma_arena_entry_32()
    ensures
        map_display("TrainStation_Night_P"@) == "Urban Central"@,
{
    reveal_strlit("TrainStation_Night_P");
    assert("TrainStation_Night_P"@.len() == 20);
    reveal_strlit("UtopiaStadium_Dusk_P");
    assert("UtopiaStadium_Dusk_P"@[0] != "TrainStation_Night_P"@[0]);
    reveal_strlit("UtopiaStadium_Snow_P");
    assert("UtopiaStadium_Snow_P"@[0] != "TrainStation_Night_P"@[0]);
}

proof fn lemma_arena_entry_33()
    ensures
        map_display("TrainStation_Dawn_P'"@) == "Urban Central"@,
{
    reveal_strlit("TrainStation_Dawn_P'");
    assert("TrainStation_Dawn_P'"@.len() == 20);
    reveal_strlit("UtopiaStadium_Dusk_P");
    assert("UtopiaStadium_Dusk_P"@[0] != "TrainStation_Dawn_P'"@[0]);
    reveal_strlit("UtopiaStadium_Snow_P");
    assert("UtopiaStadium_Snow_P"@[0] != "TrainStation_Dawn_P'"@[0]);
    reveal_strlit("TrainStation_Night_P");
    assert("TrainStation_Night_P"@[13] != "TrainStation_Dawn_P'"@[13]);
}

proof fn lemma_arena_entry_34()
    ensures
        map_display("Haunted_TrainStation_P"@) == "Urban Central"@,
{
    reveal_strlit("Haunted_TrainStation_P");
    assert("Haunted_TrainStation_P"@.len() == 22);
}

proof fn lemma_arena_entry_35()
    ensures
        map_display("Wasteland_P"@) == "Badlands"@,
{
    reveal_strlit("Wasteland_P");
    assert("Wasteland_P"@.len() == 11);
    reveal_strlit("park_bman_p");
    assert("park_bman_p"@[0] != "Wasteland_P"@[0]);
}

proof fn lemma_arena_entry_36()
    ensures
        map_display("Wasteland_Night_P"@) == "Badlands"@,
{
    reveal_strlit("Wasteland_Night_P");
    assert("Wasteland_Night_P"@.len() == 17);
    reveal_strlit("CHN_Stadium_Day_P");
    assert("CHN_Stadium_Day_P"@[0] != "Wasteland_Night_P"@[0]);
    reveal_strlit("NeoTokyo_Arcade_P");
    assert("NeoTokyo_Arcade_P"@[0] != "Wasteland_Night_P"@[0]);
}

proof fn lemma_arena_entry_37()
    ensures
        map_display("Wasteland_GRS_P"@) == "Badlands"@,
{
    reveal_strlit("Wasteland_GRS_P");
    assert("Wasteland_GRS_P"@.len() == 15);
    reveal_strlit("Stadium_Foggy_P");
    assert("Stadium_Foggy_P"@[0] != "Wasteland_GRS_P"@[0]);
    reveal_strlit("UtopiaStadium_P");
    assert("UtopiaStadium_P"@[0] != "Wasteland_GRS_P"@[0]);
    reveal_strlit("NeoTokyo_Toon_p");
    assert("NeoTokyo_Toon_p"@[0] != "Wasteland_GRS_P"@[0]);
}

proof fn lemma_arena_entry_38()
    ensures
        map_display("wasteland_s_p"@) == "Badlands"@,
{
    reveal_strlit("wasteland_s_p");
    assert("wasteland_s_p"@.len() == 13);
    reveal_strlit("EuroStadium_P");
    assert("EuroStadium_P"@[0] != "wasteland_s_p"@[0]);
    reveal_strlit("CHN_Stadium_P");
    assert("CHN_Stadium_P"@[0] != "wasteland_s_p"@[0]);
    reveal_strlit("stadium_day_p");
    assert("stadium_day_p"@[0] != "wasteland_s_p"@[0]);
}

proof fn lemma_arena_entry_39()
    ensures
        map_display("wasteland_Night_S_P"@) == "Badlands"@,
{
    reveal_strlit("wasteland_Night_S_P");
    assert("wasteland_Night_S_P"@.len() == 19);
    reveal_strlit("EuroStadium_Night_P");
    assert("EuroStadium_Night_P"@[0] != "wasteland_Night_S_P"@[0]);
    reveal_strlit("EuroStadium_Rainy_P");
    assert("EuroStadium_Rainy_P"@[0] != "wasteland_Night_S_P"@[0]);
    reveal_strlit("UtopiaStadium_Lux_P");
    assert("UtopiaStadium_Lux_P"@[0] != "wasteland_Night_S_P"@[0]);
    reveal_strlit("NeoTokyo_Standard_P");
    assert("NeoTokyo_Standard_P"@[0] != "wasteland_Night_S_P"@[0]);
}

proof fn lemma_arena_entry_40()
    ensures
        map_display("Farm_GRS_P"@) == "Farmstead"@,
{
    reveal_strlit("Farm_GRS_P");
    assert("Farm_GRS_P"@.len() == 10);
    reveal_strlit("NeoTokyo_P");
    assert("NeoTokyo_P"@[0] != "Farm_GRS_P"@[0]);
}

proof fn lemma_arena_entry_41()
    ensures
        map_display("Farm_HW_P"@) == "Farmstead"@,
{
    reveal_strlit("Farm_HW_P");
    assert("Farm_HW_P"@.len() == 9);
    reveal_strlit("Stadium_P");
    assert("Stadium_P"@[0] != "Farm_HW_P"@[0]);
}

proof fn lemma_arena_entry_42()
    ensures
        map_display("Farm_Night_P"@) == "Farmstead"@,
{
    reveal_strlit("Farm_Night_P");
    assert("Farm_Night_P"@.len() == 12);
    reveal_strlit("Underwater_P");
    assert("Underwater_P"@[0] != "Farm_Night_P"@[0]);
    reveal_strlit("Park_Night_P");
    assert("Park_Night_P"@[0] != "Farm_Night_P"@[0]);
    reveal_strlit("Park_Rainy_P");
    assert("Park_Rainy_P"@[0] != "Farm_Night_P"@[0]);
    reveal_strlit("Park_Snowy_P");
    assert("Park_Snowy_P"@[0] != "Farm_Night_P"@[0]);
}

proof fn lemma_arena_entry_43()
    ensures
        map_display("farm_p"@) == "Farmstead"@,
{
    reveal_strlit("farm_p");
    assert("farm_p"@.len() == 6);
    reveal_strlit("Park_P");
    assert("Park_P"@[0] != "farm_p"@[0]);
}

proof fn lemma_arena_entry_44()
    ensures
        map_display("beach_P"@) == "Salty Shores"@,
{
    reveal_strlit("beach_P");
    assert("beach_P"@.len() == 7);
    reveal_strlit("cs_hw_p");
    assert("cs_hw_p"@[0] != "beach_P"@[0]);
}

proof fn lemma_arena_entry_45()
    ensures
        map_display("beach_night_p"@) == "Salty Shores"@,
{
    reveal_strlit("beach_night_p");
    assert("beach_night_p"@.len() == 13);
    reveal_strlit("EuroStadium_P");
    assert("EuroStadium_P"@[0] != "beach_night_p"@[0]);
    reveal_strlit("CHN_Stadium_P");
    assert("CHN_Stadium_P"@[0] != "beach_night_p"@[0]);
    reveal_strlit("stadium_day_p");
    assert("stadium_day_p"@[0] != "beach_night_p"@[0]);
    reveal_strlit("wasteland_s_p");
    assert("wasteland_s_p"@[0] != "beach_night_p"@[0]);
}

proof fn lemma_arena_entry_46()
    ensures
        map_display("beach_night_grs_p"@) == "Salty Shores"@,
{
    reveal_strlit("beach_night_grs_p");
    assert("beach_night_grs_p"@.len() == 17);
    reveal_strlit("CHN_Stadium_Day_P");
    assert("CHN_Stadium_Day_P"@[0] != "beach_night_grs_p"@[0]);
    reveal_strlit("NeoTokyo_Arcade_P");
    assert("NeoTokyo_Arcade_P"@[0] != "beach_night_grs_p"@[0]);
    reveal_strlit("Wasteland_Night_P");
    assert("Wasteland_Night_P"@[0] != "beach_night_grs_p"@[0]);
}

proof fn lemma_arena_entry_47()
    ensures
        map_display("music_p"@) == "Neon Fields"@,
{
    reveal_strlit("music_p");
    assert("music_p"@.len() == 7);
    reveal_strlit("cs_hw_p");
    assert("cs_hw_p"@[0] != "music_p"@[0]);
    reveal_strlit("beach_P");
    assert("beach_P"@[0] != "music_p"@[0]);
}

proof fn lemma_arena_entry_48()
    ensures
        map_display("outlaw_p"@) == "Deadeye Canyon"@,
{
    reveal_strlit("outlaw_p");
    assert("outlaw_p"@.len() == 8);
    reveal_strlit("cs_day_p");
    assert("cs_day_p"@[0] != "outlaw_p"@[0]);
}

proof fn lemma_arena_entry_49()
    ensures
        map_display("Outlaw_Oasis_P"@) == "Deadeye Canyon"@,
{
    reveal_strlit("Outlaw_Oasis_P");
    assert("Outlaw_Oasis_P"@.len() == 14);
    reveal_strlit("NeoTokyo_Hax_P");
    assert("NeoTokyo_Hax_P"@[0] != "Outlaw_Oasis_P"@[0]);
    reveal_strlit("TrainStation_P");
    assert("TrainStation_P"@[0] != "Outlaw_Oasis_P"@[0]);
}

proof fn lemma_arena_entry_50()
    ensures
        map_display("street_p"@) == "Sovereign Heights"@,
{
    reveal_strlit("street_p");
    assert("street_p"@.len() == 8);
    reveal_strlit("cs_day_p");
    assert("cs_day_p"@[0] != "street_p"@[0]);
    reveal_strlit("outlaw_p");
    assert("outlaw_p"@[0] != "street_p"@[0]);
}

proof fn lemma_arena_entry_51()
    ensures
        map_display("FF_Dusk_P"@) == "Estadio Vida"@,
{
    reveal_strlit("FF_Dusk_P");
    assert("FF_Dusk_P"@.len() == 9);
    reveal_strlit("Stadium_P");
    assert("Stadium_P"@[0] != "FF_Dusk_P"@[0]);
    reveal_strlit("Farm_HW_P");
    assert("Farm_HW_P"@[1] != "FF_Dusk_P"@[1]);
}

proof fn lemma_arena_entry_52()
    ensures
        map_display("Woods_P"@) == "Forbidden Temple"@,
{
    reveal_strlit("Woods_P");
    assert("Woods_P"@.len() == 7);
    reveal_strlit("cs_hw_p");
    assert("cs_hw_p"@[0] != "Woods_P"@[0]);
    reveal_strlit("beach_P");
    assert("beach_P"@[0] != "Woods_P"@[0]);
    reveal_strlit("music_p");
    assert("music_p"@[0] != "Woods_P"@[0]);
}

proof fn lemma_arena_entry_53()
    ensures
        map_display("Woods_Night_P"@) == "Drift Woods"@,
{
    reveal_strlit("Woods_Night_P");
    assert("Woods_Night_P"@.len() == 13);
    reveal_strlit("EuroStadium_P");
    assert("EuroStadium_P"@[0] != "Woods_Night_P"@[0]);
    reveal_strlit("CHN_Stadium_P");
    assert("CHN_Stadium_P"@[0] != "Woods_Night_P"@[0]);
    reveal_strlit("stadium_day_p");
    assert("stadium_day_p"@[0] != "Woods_Night_P"@[0]);
    reveal_strlit("wasteland_s_p");
    assert("wasteland_s_p"@[0] != "Woods_Night_P"@[0]);
    reveal_strlit("beach_night_p");
    assert("beach_night_p"@[0] != "Woods_Night_P"@[0]);
}

proof fn lemma_arena_entry_54()
    ensures
        map_display("UF_Day_P"@) == "Futura Garden"@,
{
    reveal_strlit("UF_Day_P");
    assert("UF_Day_P"@.len() == 8);
    reveal_strlit("cs_day_p");
    assert("cs_day_p"@[0] != "UF_Day_P"@[0]);
    reveal_strlit("outlaw_p");
    assert("outlaw_p"@[0] != "UF_Day_P"@[0]);
    reveal_strlit("street_p");
    assert("street_p"@[0] != "UF_Day_P"@[0]);
}

proof fn lemma_arena_entry_55()
    ensures
        map_display("ARC_P"@) == "Core 707"@,
{
    reveal_strlit("ARC_P");
    assert("ARC_P"@.len() == 5);
}

proof fn lemma_arena_entry_56()
    ensures
        map_display("ARC_Darc_P"@) == "Core 707"@,
{
    reveal_strlit("ARC_Darc_P");
    assert("ARC_Darc_P"@.len() == 10);
    reveal_strlit("NeoTokyo_P");
    assert("NeoTokyo_P"@[0] != "ARC_Darc_P"@[0]);
    reveal_strlit("Farm_GRS_P");
    assert("Farm_GRS_P"@[0] != "ARC_Darc_P"@[0]);
}

proof fn lemma_arena_entry_57()
    ensures
        map_display("arc_standard_p"@) == "Core 707"@,
{
    reveal_strlit("arc_standard_p");
    assert("arc_standard_p"@.len() == 14);
    reveal_strlit("NeoTokyo_Hax_P");
    assert("NeoTokyo_Hax_P"@[0] != "arc_standard_p"@[0]);
    reveal_strlit("TrainStation_P");
    assert("TrainStation_P"@[0] != "arc_standard_p"@[0]);
    reveal_strlit("Outlaw_Oasis_P");
    assert("Outlaw_Oasis_P"@[0] != "arc_standard_p"@[0]);
}

proof fn lemma_arena_entry_58()
    ensures
        map_display("STADIUM_10A_P"@) == "Neon Fields"@,
{
    reveal_strlit("STADIUM_10A_P");
    assert("STADIUM_10A_P"@.len() == 13);
    reveal_strlit("EuroStadium_P");
    assert("EuroStadium_P"@[0] != "STADIUM_10A_P"@[0]);
    reveal_strlit("CHN_Stadium_P");
    assert("CHN_Stadium_P"@[0] != "STADIUM_10A_P"@[0]);
    reveal_strlit("stadium_day_p");
    assert("stadium_day_p"@[0] != "STADIUM_10A_P"@[0]);
    reveal_strlit("wasteland_s_p");
    assert("wasteland_s_p"@[0] != "STADIUM_10A_P"@[0]);
    reveal_strlit("beach_night_p");
    assert("beach_night_p"@[0] != "STADIUM_10A_P"@[0]);
    reveal_strlit("Woods_Night_P");
    assert("Woods_Night_P"@[0] != "STADIUM_10A_P"@[0]);
}

proof fn lemma_arena_entry_59()
    ensures
        map_display("ShatterShot_P"@) == "Discotheque"@,
{
    reveal_strlit("ShatterShot_P");
    assert("ShatterShot_P"@.len() == 13);
    reveal_strlit("EuroStadium_P");
    assert("EuroStadium_P"@[0] != "ShatterShot_P"@[0]);
    reveal_strlit("CHN_Stadium_P");
    assert("CHN_Stadium_P"@[0] != "ShatterShot_P"@[0]);
    reveal_strlit("stadium_day_p");
    assert("stadium_day_p"@[0] != "ShatterShot_P"@[0]);
    reveal_strlit("wasteland_s_p");
    assert("wasteland_s_p"@[0] != "ShatterShot_P"@[0]);
    reveal_strlit("beach_night_p");
    assert("beach_night_p"@[0] != "ShatterShot_P"@[0]);
    reveal_strlit("Woods_Night_P");
    assert("Woods_Night_P"@[0] != "ShatterShot_P"@[0]);
    reveal_strlit("STADIUM_10A_P");
    assert("STADIUM_10A_P"@[1] != "ShatterShot_P"@[1]);
}

proof fn lemma_arena_entry_60()
    ensures
        map_display("KO_Calavera_P"@) == "Knockout Calavera"@,
{
    reveal_strlit("KO_Calavera_P");
    assert("KO_Calavera_P"@.len() == 13);
    reveal_strlit("EuroStadium_P");
    assert("EuroStadium_P"@[0] != "KO_Calavera_P"@[0]);
    reveal_strlit("CHN_Stadium_P");
    assert("CHN_Stadium_P"@[0] != "KO_Calavera_P"@[0]);
    reveal_strlit("stadium_day_p");
    assert("stadium_day_p"@[0] != "KO_Calavera_P"@[0]);
    reveal_strlit("wasteland_s_p");
    assert("wasteland_s_p"@[0] != "KO_Calavera_P"@[0]);
    reveal_strlit("beach_night_p");
    assert("beach_night_p"@[0] != "KO_Calavera_P"@[0]);
    reveal_strlit("Woods_Night_P");
    assert("Woods_Night_P"@[0] != "KO_Calavera_P"@[0]);
    reveal_strlit("STADIUM_10A_P");
    assert("STADIUM_10A_P"@[0] != "KO_Calavera_P"@[0]);
    reveal_strlit("ShatterShot_P");
    assert("ShatterShot_P"@[0] != "KO_Calavera_P"@[0]);
}

proof fn lemma_arena_entry_61()
    ensures
        map_display("KO_Carbon_P"@) == "Knockout Carbon"@,
{
    reveal_strlit("KO_Carbon_P");
    assert("KO_Carbon_P"@.len() == 11);
    reveal_strlit("park_bman_p");
    assert("park_bman_p"@[0] != "KO_Carbon_P"@[0]);
    reveal_strlit("Wasteland_P");
    assert("Wasteland_P"@[0] != "KO_Carbon_P"@[0]);
}

proof fn lemma_arena_entry_62()
    ensures
        map_display("KO_Quadron_P"@) == "Knockout Quadron"@,
{
    reveal_strlit("KO_Quadron_P");
    assert("KO_Quadron_P"@.len() == 12);
    reveal_strlit("Underwater_P");
    assert("Underwater_P"@[0] != "KO_Quadron_P"@[0]);
    reveal_strlit("Park_Night_P");
    assert("Park_Night_P"@[0] != "KO_Quadron_P"@[0]);
    reveal_strlit("Park_Rainy_P");
    assert("Park_Rainy_P"@[0] != "KO_Quadron_P"@[0]);
    reveal_strlit("Park_Snowy_P");
    assert("Park_Snowy_P"@[0] != "KO_Quadron_P"@[0]);
    reveal_strlit("Farm_Night_P");
    assert("Farm_Night_P"@[0] != "KO_Quadron_P"@[0]);
}

proof fn lemma_arena_entry_63()
    ensures
        map_display("swoosh_p"@) == "Deadeye Canyon"@,
{
    reveal_strlit("swoosh_p");
    assert("swoosh_p"@.len() == 8);
    reveal_strlit("cs_day_p");
    assert("cs_day_p"@[0] != "swoosh_p"@[0]);
    reveal_strlit("outlaw_p");
    assert("outlaw_p"@[0] != "swoosh_p"@[0]);
    reveal_strlit("street_p");
    assert("street_p"@[1] != "swoosh_p"@[1]);
    reveal_strlit("UF_Day_P");
    assert("UF_Day_P"@[0] != "swoosh_p"@[0]);
}

proof fn lemma_arena_entry_64()
    ensures
        map_display("throwbackstadium_P"@) == "Throwback Stadium"@,
{
    reveal_strlit("throwbackstadium_P");
    assert("throwbackstadium_P"@.len() == 18);
    reveal_strlit("EuroStadium_Dusk_P");
    assert("EuroStadium_Dusk_P"@[0] != "throwbackstadium_P"@[0]);
    reveal_strlit("Stadium_Race_Day_p");
    assert("Stadium_Race_Day_p"@[0] != "throwbackstadium_P"@[0]);
}

proof fn lemma_arena_entry_65()
    ensures
        map_display("throwbackhockey_p"@) == "Throwback Stadium"@,
{
    reveal_strlit("throwbackhockey_p");
    assert("throwbackhockey_p"@.len() == 17);
    reveal_strlit("CHN_Stadium_Day_P");
    assert("CHN_Stadium_Day_P"@[0] != "throwbackhockey_p"@[0]);
    reveal_strlit("NeoTokyo_Arcade_P");
    assert("NeoTokyo_Arcade_P"@[0] != "throwbackhockey_p"@[0]);
    reveal_strlit("Wasteland_Night_P");
    assert("Wasteland_Night_P"@[0] != "throwbackhockey_p"@[0]);
    reveal_strlit("beach_night_grs_p");
    assert("beach_night_grs_p"@[0] != "throwbackhockey_p"@[0]);
}

proof fn lemma_arena_entry_66()
    ensures
        map_display("hoopsStreet_p"@) == "Dunk House"@,
{
    reveal_strlit("hoopsStreet_p");
    assert("hoopsStreet_p"@.len() == 13);
    reveal_strlit("EuroStadium_P");
    assert("EuroStadium_P"@[0] != "hoopsStreet_p"@[0]);
    reveal_strlit("CHN_Stadium_P");
    assert("CHN_Stadium_P"@[0] != "hoopsStreet_p"@[0]);
    reveal_strlit("stadium_day_p");
    assert("stadium_day_p"@[0] != "hoopsStreet_p"@[0]);
    reveal_strlit("wasteland_s_p");
    assert("wasteland_s_p"@[0] != "hoopsStreet_p"@[0]);
    reveal_strlit("beach_night_p");
    assert("beach_night_p"@[0] != "hoopsStreet_p"@[0]);
    reveal_strlit("Woods_Night_P");
    assert("Woods_Night_P"@[0] != "hoopsStreet_p"@[0]);
    reveal_strlit("STADIUM_10A_P");
    assert("STADIUM_10A_P"@[0] != "hoopsStreet_p"@[0]);
    reveal_strlit("ShatterShot_P");
    assert("ShatterShot_P"@[0] != "hoopsStreet_p"@[0]);
    reveal_strlit("KO_Calavera_P");
    assert("KO_Calavera_P"@[0] != "hoopsStreet_p"@[0]);
}

proof fn lemma_arena_entry_67()
    ensures
        map_display("HoopsStadium_P"@) == "Dunk House"@,
{
    reveal_strlit("HoopsStadium_P");
    assert("HoopsStadium_P"@.len() == 14);
    reveal_strlit("NeoTokyo_Hax_P");
    assert("NeoTokyo_Hax_P"@[0] != "HoopsStadium_P"@[0]);
    reveal_strlit("TrainStation_P");
    assert("TrainStation_P"@[0] != "HoopsStadium_P"@[0]);
    reveal_strlit("Outlaw_Oasis_P");
    assert("Outlaw_Oasis_P"@[0] != "HoopsStadium_P"@[0]);
    reveal_strlit("arc_standard_p");
    assert("arc_standard_p"@[0] != "HoopsStadium_P"@[0]);
}

proof fn lemma_arena_entry_68()
    ensures
        map_display("bb_p"@) == "The Block"@,
{
    reveal_strlit("bb_p");
    assert("bb_p"@.len() == 4);
    reveal_strlit("cs_p");
    assert("cs_p"@[0] != "bb_p"@[0]);
}

proof fn lemma_arena_entry_69()
    ensures
        map_display("FNI_Stadium_P"@) == "DFH Stadium"@,
{
    reveal_strlit("FNI_Stadium_P");
    assert("FNI_Stadium_P"@.len() == 13);
    reveal_strlit("EuroStadium_P");
    assert("EuroStadium_P"@[0] != "FNI_Stadium_P"@[0]);
    reveal_strlit("CHN_Stadium_P");
    assert("CHN_Stadium_P"@[0] != "FNI_Stadium_P"@[0]);
    reveal_strlit("stadium_day_p");
    assert("stadium_day_p"@[0] != "FNI_Stadium_P"@[0]);
    reveal_strlit("wasteland_s_p");
    assert("wasteland_s_p"@[0] != "FNI_Stadium_P"@[0]);
    reveal_strlit("beach_night_p");
    assert("beach_night_p"@[0] != "FNI_Stadium_P"@[0]);
    reveal_strlit("Woods_Night_P");
    assert("Woods_Night_P"@[0] != "FNI_Stadium_P"@[0]);
    reveal_strlit("STADIUM_10A_P");
    assert("STADIUM_10A_P"@[0] != "FNI_Stadium_P"@[0]);
    reveal_strlit("ShatterShot_P");
    assert("ShatterShot_P"@[0] != "FNI_Stadium_P"@[0]);
    reveal_strlit("KO_Calavera_P");
    assert("KO_Calavera_P"@[0] != "FNI_Stadium_P"@[0]);
    reveal_strlit("hoopsStreet_p");
    assert("hoopsStreet_p"@[0] != "FNI_Stadium_P"@[0]);
}

proof fn lemma_arena_entry_70()
    ensures
        map_display("random"@) == "Random Map"@,
{
    reveal_strlit("random");
    assert("random"@.len() == 6);
    reveal_strlit("Park_P");
    assert("Park_P"@[0] != "random"@[0]);
    reveal_strlit("farm_p");
    assert("farm_p"@[0] != "random"@[0]);
}

/// Every asset of the arena table has the display name paired with it there.
pub proof fn lemma_arena_table()
    ensures
        map_display("EuroStadium_P"@) == "Mannfield"@,
        map_display("EuroStadium_Dusk_P"@) == "Mannfield"@,
        map_display("EuroStadium_Night_P"@) == "Mannfield"@,
        map_display("EuroStadium_Rainy_P"@) == "Mannfield"@,
        map_display("eurostadium_snownight_p"@) == "Mannfield"@,
        map_display("CHN_Stadium_P"@) == "Forbidden Temple"@,
        map_display("CHN_Stadium_Day_P"@) == "Forbidden Temple"@,
        map_display("Stadium_P"@) == "DFH Stadium"@,
        map_display("stadium_day_p"@) == "DFH Stadium"@,
        map_display("Stadium_Foggy_P"@) == "DFH Stadium"@,
        map_display("Stadium_Winter_P"@) == "DFH Stadium"@,
        map_display("Stadium_Race_Day_p"@) == "DFH Stadium"@,
        map_display("UtopiaStadium_P"@) == "Utopia Coliseum"@,
        map_display("UtopiaStadium_Dusk_P"@) == "Utopia Coliseum"@,
        map_display("UtopiaStadium_Snow_P"@) == "Utopia Coliseum"@,
        map_display("UtopiaStadium_Lux_P"@) == "Utopia Coliseum"@,
        map_display("Underwater_P"@) == "AquaDome"@,
        map_display("Underwater_GRS_P"@) == "AquaDome"@,
        map_display("NeoTokyo_Standard_P"@) == "Neo Tokyo"@,
        map_display("NeoTokyo_P"@) == "Neo Tokyo"@,
        map_display("NeoTokyo_Arcade_P"@) == "Neo Tokyo"@,
        map_display("NeoTokyo_Hax_P"@) == "Neo Tokyo"@,
        map_display("NeoTokyo_Toon_p"@) == "Neo Tokyo"@,
        map_display("cs_p"@) == "Champions Field"@,
        map_display("cs_day_p"@) == "Champions Field"@,
        map_display("cs_hw_p"@) == "Rivals Arena"@,
        map_display("Park_P"@) == "Beckwith Park"@,
        map_display("Park_Night_P"@) == "Beckwith Park"@,
        map_display("Park_Rainy_P"@) == "Beckwith Park"@,
        map_display("Park_Snowy_P"@) == "Beckwith Park"@,
        map_display("park_bman_p"@) == "Beckwith Park"@,
        map_display("TrainStation_P"@) == "Urban Central"@,
        map_display("TrainStation_Night_P"@) == "Urban Central"@,
        map_display("TrainStation_Dawn_P'"@) == "Urban Central"@,
        map_display("Haunted_TrainStation_P"@) == "Urban Central"@,
        map_display("Wasteland_P"@) == "Badlands"@,
        map_display("Wasteland_Night_P"@) == "Badlands"@,
        map_display("Wasteland_GRS_P"@) == "Badlands"@,
        map_display("wasteland_s_p"@) == "Badlands"@,
        map_display("wasteland_Night_S_P"@) == "Badlands"@,
        map_display("Farm_GRS_P"@) == "Farmstead"@,
        map_display("Farm_HW_P"@) == "Farmstead"@,
        map_display("Farm_Night_P"@) == "Farmstead"@,
        map_display("farm_p"@) == "Farmstead"@,
        map_display("beach_P"@) == "Salty Shores"@,
        map_display("beach_night_p"@) == "Salty Shores"@,
        map_display("beach_night_grs_p"@) == "Salty Shores"@,
        map_display("music_p"@) == "Neon Fields"@,
        map_display("outlaw_p"@) == "Deadeye Canyon"@,
        map_display("Outlaw_Oasis_P"@) == "Deadeye Canyon"@,
        map_display("street_p"@) == "Sovereign Heights"@,
        map_display("FF_Dusk_P"@) == "Estadio Vida"@,
        map_display("Woods_P"@) == "Forbidden Temple"@,
        map_display("Woods_Night_P"@) == "Drift Woods"@,
        map_display("UF_Day_P"@) == "Futura Garden"@,
        map_display("ARC_P"@) == "Core 707"@,
        map_display("ARC_Darc_P"@) == "Core 707"@,
        map_display("arc_standard_p"@) == "Core 707"@,
        map_display("STADIUM_10A_P"@) == "Neon Fields"@,
        map_display("ShatterShot_P"@) == "Discotheque"@,
        map_display("KO_Calavera_P"@) == "Knockout Calavera"@,
        map_display("KO_Carbon_P"@) == "Knockout Carbon"@,
        map_display("KO_Quadron_P"@) == "Knockout Quadron"@,
        map_display("swoosh_p"@) == "Deadeye Canyon"@,
        map_display("throwbackstadium_P"@) == "Throwback Stadium"@,
        map_display("throwbackhockey_p"@) == "Throwback Stadium"@,
        map_display("hoopsStreet_p"@) == "Dunk House"@,
        map_display("HoopsStadium_P"@) == "Dunk House"@,
        map_display("bb_p"@) == "The Block"@,
        map_display("FNI_Stadium_P"@) == "DFH Stadium"@,
        map_display("random"@) == "Random Map"@,
{
    lemma_arena_entry_0();
    lemma_arena_entry_1();
    lemma_arena_entry_2();
    lemma_arena_entry_3();
    lemma_arena_entry_4();
    lemma_arena_entry_5();
    lemma_arena_entry_6();
    lemma_arena_entry_7();
    lemma_arena_entry_8();
    lemma_arena_entry_9();
    lemma_arena_entry_10();
    lemma_arena_entry_11();
    lemma_arena_entry_12();
    lemma_arena_entry_13();
    lemma_arena_entry_14();
    lemma_arena_entry_15();
    lemma_arena_entry_16();
    lemma_arena_entry_17();
    lemma_arena_entry_18();
    lemma_arena_entry_19();
    lemma_arena_entry_20();
    lemma_arena_entry_21();
    lemma_arena_entry_22();
    lemma_arena_entry_23();
    lemma_arena_entry_24();
    lemma_arena_entry_25();
    lemma_arena_entry_26();
    lemma_arena_entry_27();
    lemma_arena_entry_28();
    lemma_arena_entry_29();
    lemma_arena_entry_30();
    lemma_arena_entry_31();
    lemma_arena_entry_32();
    lemma_arena_entry_33();
    lemma_arena_entry_34();
    lemma_arena_entry_35();
    lemma_arena_entry_36();
    lemma_arena_entry_37();
    lemma_arena_entry_38();
    lemma_arena_entry_39();
    lemma_arena_entry_40();
    lemma_arena_entry_41();
    lemma_arena_entry_42();
    lemma_arena_entry_43();
    lemma_arena_entry_44();
    lemma_arena_entry_45();
    lemma_arena_entry_46();
    lemma_arena_entry_47();
    lemma_arena_entry_48();
    lemma_arena_entry_49();
    lemma_arena_entry_50();
    lemma_arena_entry_51();
    lemma_arena_entry_52();
    lemma_arena_entry_53();
    lemma_arena_entry_54();
    lemma_arena_entry_55();
    lemma_arena_entry_56();
    lemma_arena_entry_57();
    lemma_arena_entry_58();
    lemma_arena_entry_59();
    lemma_arena_entry_60();
    lemma_arena_entry_61();
    lemma_arena_entry_62();
    lemma_arena_entry_63();
    lemma_arena_entry_64();
    lemma_arena_entry_65();
    lemma_arena_entry_66();
    lemma_arena_entry_67();
    lemma_arena_entry_68();
    lemma_arena_entry_69();
    lemma_arena_entry_70();
}

/// Every asset outside the arena table is an unknown map.
pub proof fn lemma_unknown_arenas(asset: Seq<char>)
    requires
        !(asset == "EuroStadium_P"@ || asset == "EuroStadium_Dusk_P"@ || asset == "EuroStadium_Night_P"@ || asset == "EuroStadium_Rainy_P"@ || asset == "eurostadium_snownight_p"@ || asset == "CHN_Stadium_P"@ || asset == "CHN_Stadium_Day_P"@ || asset == "Stadium_P"@ || asset == "stadium_day_p"@ || asset == "Stadium_Foggy_P"@ || asset == "Stadium_Winter_P"@ || asset == "Stadium_Race_Day_p"@ || asset == "UtopiaStadium_P"@ || asset == "UtopiaStadium_Dusk_P"@ || asset == "UtopiaStadium_Snow_P"@ || asset == "UtopiaStadium_Lux_P"@ || asset == "Underwater_P"@ || asset == "Underwater_GRS_P"@ || asset == "NeoTokyo_Standard_P"@ || asset == "NeoTokyo_P"@ || asset == "NeoTokyo_Arcade_P"@ || asset == "NeoTokyo_Hax_P"@ || asset == "NeoTokyo_Toon_p"@ || asset == "cs_p"@ || asset == "cs_day_p"@ || asset == "cs_hw_p"@ || asset == "Park_P"@ || asset == "Park_Night_P"@ || asset == "Park_Rainy_P"@ || asset == "Park_Snowy_P"@ || asset == "park_bman_p"@ || asset == "TrainStation_P"@ || asset == "TrainStation_Night_P"@ || asset == "TrainStation_Dawn_P'"@ || asset == "Haunted_TrainStation_P"@ || asset == "Wasteland_P"@ || asset == "Wasteland_Night_P"@ || asset == "Wasteland_GRS_P"@ || asset == "wasteland_s_p"@ || asset == "wasteland_Night_S_P"@ || asset == "Farm_GRS_P"@ || asset == "Farm_HW_P"@ || asset == "Farm_Night_P"@ || asset == "farm_p"@ || asset == "beach_P"@ || asset == "beach_night_p"@ || asset == "beach_night_grs_p"@ || asset == "music_p"@ || asset == "outlaw_p"@ || asset == "Outlaw_Oasis_P"@ || asset == "street_p"@ || asset == "FF_Dusk_P"@ || asset == "Woods_P"@ || asset == "Woods_Night_P"@ || asset == "UF_Day_P"@ || asset == "ARC_P"@ || asset == "ARC_Darc_P"@ || asset == "arc_standard_p"@ || asset == "STADIUM_10A_P"@ || asset == "ShatterShot_P"@ || asset == "KO_Calavera_P"@ || asset == "KO_Carbon_P"@ || asset == "KO_Quadron_P"@ || asset == "swoosh_p"@ || asset == "throwbackstadium_P"@ || asset == "throwbackhockey_p"@ || asset == "hoopsStreet_p"@ || asset == "HoopsStadium_P"@ || asset == "bb_p"@ || asset == "FNI_Stadium_P"@ || asset == "random"@),
    ensures
        map_display(asset) == "Unknown Map"@,
{
}

} // verus!
