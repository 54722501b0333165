use rl_discord_rpc::cache::KeyedCache;
use rl_discord_rpc::maps::{
    fandom_file_title, fandom_filename_candidates, fandom_image_from_response, image_search_query,
    image_search_url, map_display_name, search_image_from_response, spaces_to_underscores,
    static_map_url, template_map_url, FandomApiResponse, FandomImageInfo, FandomPage, FandomQuery,
    ImageAnswer, ImageCache, ImageQuery, ImageStep, MapImageLookup, SerpImage, SerpResponse,
};

const BASE: &str = "https://raw.githubusercontent.com/segalll/DiscordRPCPlugin/master/maps";

#[test]
fn display_names_follow_the_table() {
    assert_eq!(map_display_name("EuroStadium_P"), "Mannfield");
    assert_eq!(map_display_name("eurostadium_snownight_p"), "Mannfield");
    assert_eq!(map_display_name("Woods_P"), "Forbidden Temple");
    assert_eq!(map_display_name("Woods_Night_P"), "Drift Woods");
    assert_eq!(map_display_name("STADIUM_10A_P"), "Neon Fields");
    assert_eq!(map_display_name("TrainStation_Dawn_P'"), "Urban Central");
    assert_eq!(map_display_name("random"), "Random Map");
    assert_eq!(map_display_name("FNI_Stadium_P"), "DFH Stadium");
}

#[test]
fn unknown_assets_are_unknown_maps() {
    assert_eq!(map_display_name(""), "Unknown Map");
    assert_eq!(map_display_name("eurostadium_p"), "Unknown Map");
    assert_eq!(map_display_name("TrainStation_Dawn_P"), "Unknown Map");
}

#[test]
fn fandom_candidates_in_order() {
    let names = fandom_filename_candidates("DFH Stadium");
    assert_eq!(
        names,
        vec!["DFH_Stadium.jpg", "DFH_Stadium.png", "DFH_Stadium_arena.jpg", "DFH_Stadium_standard.jpg"]
    );
    assert_eq!(spaces_to_underscores("a  b c"), "a__b_c");
    assert_eq!(fandom_file_title("Neo_Tokyo.png"), "File:Neo_Tokyo.png");
}

#[test]
fn addresses_and_queries() {
    assert_eq!(static_map_url("Park_P"), format!("{}/Park_P.png", BASE));
    assert_eq!(template_map_url(), format!("{}/Template.png", BASE));
    assert_eq!(image_search_query("Neo Tokyo"), "Neo Tokyo rocket league map");
}

#[test]
fn search_url_percent_encodes_the_query() {
    assert_eq!(
        image_search_url("Neo Tokyo rocket league map", "k3y"),
        "https://serpapi.com/search.json?engine=google_images&q=Neo%20Tokyo%20rocket%20league%20map&api_key=k3y"
    );
    assert_eq!(
        image_search_url("a-b_c.d~é&", "x"),
        "https://serpapi.com/search.json?engine=google_images&q=a-b_c.d~%C3%A9%26&api_key=x"
    );
}

fn page(urls: Option<Vec<&str>>) -> FandomPage {
    FandomPage {
        imageinfo: urls.map(|v| v.into_iter().map(|u| FandomImageInfo { url: u.to_string() }).collect()),
    }
}

#[test]
fn wiki_answer_gives_first_image_of_first_page_with_one() {
    let none = FandomApiResponse { query: None };
    assert_eq!(fandom_image_from_response(&none), None);
    let r = FandomApiResponse {
        query: Some(FandomQuery {
            pages: vec![page(None), page(Some(vec![])), page(Some(vec!["u1", "u2"])), page(Some(vec!["u3"]))],
        }),
    };
    assert_eq!(fandom_image_from_response(&r), Some("u1".to_string()));
    let empty = FandomApiResponse { query: Some(FandomQuery { pages: vec![page(None)] }) };
    assert_eq!(fandom_image_from_response(&empty), None);
}

#[test]
fn search_answer_prefers_original_then_thumbnail() {
    let img = |o: Option<&str>, t: Option<&str>| SerpImage {
        original: o.map(|s| s.to_string()),
        thumbnail: t.map(|s| s.to_string()),
    };
    let r = SerpResponse { images_results: Some(vec![img(Some("o"), Some("t")), img(Some("x"), None)]) };
    assert_eq!(search_image_from_response(&r), Some("o".to_string()));
    let r = SerpResponse { images_results: Some(vec![img(None, Some("t"))]) };
    assert_eq!(search_image_from_response(&r), Some("t".to_string()));
    let r = SerpResponse { images_results: Some(vec![img(None, None), img(Some("o2"), None)]) };
    assert_eq!(search_image_from_response(&r), None);
    assert_eq!(search_image_from_response(&SerpResponse { images_results: Some(vec![]) }), None);
    assert_eq!(search_image_from_response(&SerpResponse { images_results: None }), None);
}

fn url_of(step: &ImageStep) -> Option<String> {
    match step {
        ImageStep::Resolved(u) => Some(u.clone()),
        _ => None,
    }
}

#[test]
fn reachable_static_image_is_taken_and_cached() {
    let mut cache: ImageCache = KeyedCache::new();
    let (mut lookup, step) = MapImageLookup::begin(&cache, "Park_P", "Beckwith Park");
    match step {
        ImageStep::Ask(ImageQuery::Probe { url }) => assert_eq!(url, format!("{}/Park_P.png", BASE)),
        _ => panic!("expected a probe"),
    }
    let step = lookup.advance(&mut cache, ImageAnswer::Reachable(true));
    assert_eq!(url_of(&step), Some(format!("{}/Park_P.png", BASE)));
    assert!(lookup.is_finished());
    assert_eq!(cache.get("Park_P"), Some(format!("{}/Park_P.png", BASE)));
    // A second search is answered from the cache at once.
    let (again, step) = MapImageLookup::begin(&cache, "Park_P", "Beckwith Park");
    assert!(again.is_finished());
    assert_eq!(url_of(&step), Some(format!("{}/Park_P.png", BASE)));
}

#[test]
fn wiki_titles_are_tried_in_turn_then_search_then_template() {
    let mut cache: ImageCache = KeyedCache::new();
    let (mut lookup, _) = MapImageLookup::begin(&cache, "NeoTokyo_P", "Neo Tokyo");
    let mut titles = Vec::new();
    let mut step = lookup.advance(&mut cache, ImageAnswer::Reachable(false));
    loop {
        match step {
            ImageStep::Ask(ImageQuery::Fandom { title }) => {
                assert!(!lookup.is_finished());
                titles.push(title);
                step = lookup.advance(&mut cache, ImageAnswer::Found(None));
            }
            ImageStep::Ask(ImageQuery::Search { query }) => {
                assert_eq!(query, "Neo Tokyo rocket league map");
                step = lookup.advance(&mut cache, ImageAnswer::Found(None));
            }
            ImageStep::Ask(ImageQuery::Probe { .. }) => panic!("probed twice"),
            ImageStep::Resolved(url) => {
                assert!(lookup.is_finished());
                assert_eq!(url, format!("{}/Template.png", BASE));
                break;
            }
        }
    }
    assert_eq!(
        titles,
        vec!["File:Neo_Tokyo.jpg", "File:Neo_Tokyo.png", "File:Neo_Tokyo_arena.jpg", "File:Neo_Tokyo_standard.jpg"]
    );
    assert_eq!(cache.get("NeoTokyo_P"), Some(format!("{}/Template.png", BASE)));
}

#[test]
fn wiki_and_search_answers_end_the_search() {
    let mut cache: ImageCache = KeyedCache::new();
    let (mut lookup, _) = MapImageLookup::begin(&cache, "cs_p", "Champions Field");
    let _ = lookup.advance(&mut cache, ImageAnswer::Reachable(false));
    let _ = lookup.advance(&mut cache, ImageAnswer::Found(None));
    let step = lookup.advance(&mut cache, ImageAnswer::Found(Some("wiki.png".to_string())));
    assert_eq!(url_of(&step), Some("wiki.png".to_string()));
    assert_eq!(cache.get("cs_p"), Some("wiki.png".to_string()));

    let (mut lookup, _) = MapImageLookup::begin(&cache, "bb_p", "The Block");
    let mut step = lookup.advance(&mut cache, ImageAnswer::Reachable(false));
    for _ in 0..4 {
        step = lookup.advance(&mut cache, ImageAnswer::Found(None));
    }
    assert!(matches!(step, ImageStep::Ask(ImageQuery::Search { .. })));
    let step = lookup.advance(&mut cache, ImageAnswer::Found(Some("found.jpg".to_string())));
    assert_eq!(url_of(&step), Some("found.jpg".to_string()));
    assert_eq!(cache.get("bb_p"), Some("found.jpg".to_string()));
    assert_eq!(cache.get("cs_p"), Some("wiki.png".to_string()));
}

#[test]
fn cache_gives_back_what_was_last_written() {
    let mut cache: KeyedCache<String> = KeyedCache::new();
    assert_eq!(cache.get("a"), None);
    cache.set("a", "1".to_string());
    cache.set("b", "2".to_string());
    cache.set("a", "3".to_string());
    assert_eq!(cache.get("a"), Some("3".to_string()));
    assert_eq!(cache.get("b"), Some("2".to_string()));
    assert_eq!(cache.get("c"), None);
}
