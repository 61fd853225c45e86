use std::collections::HashMap;

use steam_workshop_api::batch::split_chunks;
use steam_workshop_api::client::Workshop;
use steam_workshop_api::error::ApiError;
use steam_workshop_api::interfaces::i_published_file_service::{
    query_files, search_full_request, search_full_result, search_ids_request, search_ids_result,
    SearchResponse, WorkshopItemList as SearchItemList,
};
use steam_workshop_api::interfaces::i_steam_remote_storage::{
    get_collection_details_request, get_collection_details_result,
    get_published_file_details_request, get_published_file_details_result, CollectionBody,
    CollectionChild, CollectionResponse, CollectionResponseBody, DetailsResponse,
    WorkshopItemList as DetailsItemList,
};
use steam_workshop_api::interfaces::i_steam_user::{
    absorb_player_summaries, get_player_summaries_requests, player_names, Player, PlayerList,
    SummariesResponse,
};
use steam_workshop_api::interfaces::{item_ids, WorkshopItem, WorkshopItemTag};
use steam_workshop_api::request::{
    build_request, decimal, endpoint_url, indexed_params, join, HttpMethod,
};
use steam_workshop_api::{STEAM_API_URL, USER_AGENT};

fn strings(v: &[&str]) -> Vec<String> {
    v.iter().map(|s| s.to_string()).collect()
}

fn pairs(v: &[(&str, &str)]) -> Vec<(String, String)> {
    v.iter().map(|(k, x)| (k.to_string(), x.to_string())).collect()
}

fn item(id: &str) -> WorkshopItem {
    WorkshopItem {
        result: 1,
        publishedfileid: id.to_string(),
        creator: None,
        creator_app_id: Some(550),
        consumer_app_id: Some(550),
        filename: None,
        file_size: Some(1024),
        file_url: None,
        hcontent_file: None,
        preview_url: None,
        hcontent_preview: None,
        title: Some(format!("item {id}")),
        description: None,
        time_created: Some(1600000000),
        time_updated: None,
        visibility: Some(0),
        banned: Some(0),
        ban_reason: None,
        subscriptions: Some(3),
        favorited: None,
        lifetime_subscriptions: None,
        lifetime_favorited: None,
        views: Some(10),
        tags: Some(vec![WorkshopItemTag { tag: "Campaigns".to_string() }]),
    }
}

fn player(id: &str, name: &str) -> Player {
    Player {
        steamid: id.to_string(),
        communityvisibilitystate: 3,
        profilestate: 1,
        personaname: name.to_string(),
        profileurl: format!("https://steamcommunity.com/profiles/{id}/"),
        avatar: String::new(),
        avatarmedium: String::new(),
        avatarfull: String::new(),
        avatarhash: String::new(),
        personastate: 0,
    }
}

fn keyed_handle() -> Workshop {
    let mut w = Workshop::new(None);
    w.set_apikey(Some("SECRET-REDACTED".to_string()));
    w
}

fn malformed_json_message() -> String {
    serde_json::from_str::<serde_json::Value>("{\"response\": [1, 2").unwrap_err().to_string()
}

#[test]
fn decimal_writes_digits() {
    assert_eq!(decimal(0), "0");
    assert_eq!(decimal(7), "7");
    assert_eq!(decimal(10), "10");
    assert_eq!(decimal(12345), "12345");
    assert_eq!(decimal(u64::MAX), "18446744073709551615");
}

#[test]
fn join_puts_separator_between_items() {
    assert_eq!(join(&[], ","), "");
    assert_eq!(join(&strings(&["a"]), ","), "a");
    assert_eq!(join(&strings(&["a", "b", "c"]), ","), "a,b,c");
}

#[test]
fn indexed_params_encode_three_ids() {
    let r = indexed_params("publishedfileids", &strings(&["1", "2", "3"]));
    assert_eq!(
        r,
        pairs(&[
            ("publishedfileids[0]", "1"),
            ("publishedfileids[1]", "2"),
            ("publishedfileids[2]", "3"),
        ])
    );
}

#[test]
fn indexed_params_past_ten() {
    let ids: Vec<String> = (0..12).map(|i| format!("id{i}")).collect();
    let r = indexed_params("publishedfileids", &ids);
    assert_eq!(r.len(), 12);
    assert_eq!(r[11], ("publishedfileids[11]".to_string(), "id11".to_string()));
}

#[test]
fn endpoint_url_shape() {
    assert_eq!(
        endpoint_url("ISteamUser", "GetPlayerSummaries", "v2"),
        "https://api.steampowered.com/ISteamUser/GetPlayerSummaries/v2/"
    );
    assert_eq!(STEAM_API_URL, "https://api.steampowered.com");
}

#[test]
fn build_request_headers_and_status_check() {
    let get = build_request(HttpMethod::Get, "u".to_string(), pairs(&[("a", "1")]));
    assert_eq!(
        get.headers,
        pairs(&[
            ("User-Agent", USER_AGENT),
            ("Content-Type", "application/x-www-form-urlencoded"),
        ])
    );
    assert!(!get.check_status);
    let post = build_request(HttpMethod::Post, "u".to_string(), vec![]);
    assert_eq!(post.headers, pairs(&[("User-Agent", USER_AGENT)]));
    assert!(post.check_status);
    assert_eq!(post.method, HttpMethod::Post);
}

#[test]
fn split_chunks_edges() {
    assert!(split_chunks(&[], 100).is_empty());
    assert!(split_chunks(&strings(&["a", "b"]), 0).is_empty());
    let exact = split_chunks(&strings(&["a", "b", "c", "d"]), 2);
    assert_eq!(exact, vec![strings(&["a", "b"]), strings(&["c", "d"])]);
}

#[test]
fn split_chunks_count_and_order() {
    let ids: Vec<String> = (0..7).map(|i| i.to_string()).collect();
    let chunks = split_chunks(&ids, 3);
    assert_eq!(chunks.len(), 3);
    assert_eq!(chunks.iter().map(|c| c.len()).collect::<Vec<_>>(), vec![3, 3, 1]);
    assert_eq!(chunks.concat(), ids);
}

#[test]
fn player_summaries_250_ids_three_requests() {
    let w = keyed_handle();
    let ids: Vec<String> = (0..250).map(|i| format!("7656119800000{i:04}")).collect();
    let reqs = get_player_summaries_requests(&w, &ids).unwrap();
    assert_eq!(reqs.len(), 3);
    let mut seen: Vec<String> = Vec::new();
    let mut sizes = Vec::new();
    for r in &reqs {
        assert_eq!(r.method, HttpMethod::Get);
        assert_eq!(r.url, "https://api.steampowered.com/ISteamUser/GetPlayerSummaries/v2/");
        assert_eq!(r.params[0], ("key".to_string(), "SECRET-REDACTED".to_string()));
        assert_eq!(r.params[1].0, "steamids");
        let part: Vec<String> = r.params[1].1.split(',').map(|s| s.to_string()).collect();
        sizes.push(part.len());
        seen.extend(part);
    }
    assert_eq!(sizes, vec![100, 100, 50]);
    assert_eq!(seen, ids);
}

#[test]
fn player_summaries_empty_list_no_request() {
    let w = keyed_handle();
    assert!(get_player_summaries_requests(&w, &[]).unwrap().is_empty());
}

#[test]
fn player_summaries_need_api_key() {
    let w = Workshop::new(None);
    let r = get_player_summaries_requests(&w, &strings(&["1"]));
    assert!(matches!(r, Err(ApiError::Configuration(_))));
}

#[test]
fn player_names_maps_ids() {
    let players = vec![player("A", "Alice"), player("B", "Bob")];
    let names: HashMap<String, String> = player_names(&players).into_iter().collect();
    let mut expected = HashMap::new();
    expected.insert("A".to_string(), "Alice".to_string());
    expected.insert("B".to_string(), "Bob".to_string());
    assert_eq!(names, expected);
}

#[test]
fn absorb_player_summaries_appends_in_order() {
    let mut acc = vec![player("A", "Alice")];
    let page = SummariesResponse { response: PlayerList { players: vec![player("B", "Bob"), player("C", "Cy")] } };
    assert!(absorb_player_summaries(&mut acc, Ok(page)).is_ok());
    let ids: Vec<&str> = acc.iter().map(|p| p.steamid.as_str()).collect();
    assert_eq!(ids, vec!["A", "B", "C"]);
    let r = absorb_player_summaries(&mut acc, Err(malformed_json_message()));
    assert!(matches!(r, Err(ApiError::Parse(_))));
    assert_eq!(acc.len(), 3);
}

#[test]
fn search_needs_api_key() {
    let w = Workshop::new(None);
    assert!(matches!(search_ids_request(&w, 550, "tank", 10, false), Err(ApiError::Configuration(_))));
    let r = search_full_request(&w, 550, "tank", 10, false);
    match r {
        Err(e) => assert_eq!(e.message(), "Missing api key for authed-only method: search_full"),
        Ok(_) => panic!("expected a configuration error"),
    }
}

#[test]
fn search_request_direct_parameters() {
    let w = keyed_handle();
    let r = search_full_request(&w, 550, "tank", 25, false).unwrap();
    assert_eq!(r.method, HttpMethod::Get);
    assert_eq!(r.url, "https://api.steampowered.com/IPublishedFileService/QueryFiles/v1/");
    assert_eq!(
        r.params,
        pairs(&[
            ("page", "1"),
            ("numperpage", "25"),
            ("search_text", "tank"),
            ("appid", "550"),
            ("return_metadata", "1"),
            ("key", "SECRET-REDACTED"),
        ])
    );
    assert!(!r.check_status);
    let ids = search_ids_request(&w, 550, "tank", 25, false).unwrap();
    assert_eq!(ids.params.len(), 5);
    assert_eq!(ids.params[4].0, "key");
}

#[test]
fn proxy_without_url_fails() {
    let w = keyed_handle();
    assert!(matches!(search_ids_request(&w, 550, "tank", 10, true), Err(ApiError::Configuration(_))));
    assert!(matches!(query_files(&w, vec![], true), Err(ApiError::Configuration(_))));
}

#[test]
fn proxy_url_is_target() {
    let mut w = keyed_handle();
    w.set_proxy_url(Some("https://relay.example/search.php".to_string()));
    assert_eq!(w.proxy_url().as_deref(), Some("https://relay.example/search.php"));
    let r = search_ids_request(&w, 550, "tank", 10, true).unwrap();
    assert_eq!(r.url, "https://relay.example/search.php");
    assert_eq!(r.method, HttpMethod::Get);
    let direct = query_files(&w, pairs(&[("a", "b")]), false).unwrap();
    assert_eq!(direct.url, "https://api.steampowered.com/IPublishedFileService/QueryFiles/v1/");
}

#[test]
fn search_total_zero_is_empty() {
    let present = SearchResponse {
        response: Some(SearchItemList { publishedfiledetails: vec![item("1")] }),
        total: 0,
    };
    assert_eq!(search_ids_result(Ok(present.clone())).unwrap(), None);
    assert!(search_full_result(Ok(present)).unwrap().is_empty());
    let absent = SearchResponse { response: None, total: 4 };
    assert_eq!(search_ids_result(Ok(absent.clone())).unwrap(), None);
    assert!(search_full_result(Ok(absent)).unwrap().is_empty());
}

#[test]
fn search_results_unwrapped() {
    let resp = SearchResponse {
        response: Some(SearchItemList { publishedfiledetails: vec![item("11"), item("22")] }),
        total: 2,
    };
    assert_eq!(search_ids_result(Ok(resp.clone())).unwrap(), Some(strings(&["11", "22"])));
    assert_eq!(search_full_result(Ok(resp)).unwrap(), vec![item("11"), item("22")]);
    assert_eq!(item_ids(&vec![item("5"), item("6")]), strings(&["5", "6"]));
}

#[test]
fn malformed_json_is_parse_error() {
    let m = malformed_json_message();
    assert!(matches!(search_ids_result(Err(m.clone())), Err(ApiError::Parse(_))));
    assert!(matches!(search_full_result(Err(m.clone())), Err(ApiError::Parse(_))));
    assert!(matches!(get_published_file_details_result(Err(m.clone())), Err(ApiError::Parse(_))));
    match get_collection_details_result(Err(m.clone())) {
        Err(e) => assert_eq!(e.message(), &m),
        Ok(_) => panic!("expected a parse error"),
    }
}

#[test]
fn details_request_form() {
    let r = get_published_file_details_request(&strings(&["1", "2", "3"]));
    assert_eq!(r.method, HttpMethod::Post);
    assert!(r.check_status);
    assert_eq!(
        r.url,
        "https://api.steampowered.com/ISteamRemoteStorage/GetPublishedFileDetails/v1/"
    );
    assert_eq!(
        r.params,
        pairs(&[
            ("itemcount", "3"),
            ("publishedfileids[0]", "1"),
            ("publishedfileids[1]", "2"),
            ("publishedfileids[2]", "3"),
        ])
    );
}

#[test]
fn details_result_items() {
    let resp = DetailsResponse { response: DetailsItemList { publishedfiledetails: vec![item("9")] } };
    assert_eq!(get_published_file_details_result(Ok(resp)).unwrap(), vec![item("9")]);
}

#[test]
fn collection_request_form() {
    let r = get_collection_details_request("42");
    assert_eq!(r.method, HttpMethod::Post);
    assert_eq!(r.url, "https://api.steampowered.com/ISteamRemoteStorage/GetCollectionDetails/v1/");
    assert_eq!(r.params, pairs(&[("collectioncount", "1"), ("publishedfileids[0]", "42")]));
}

fn collection(resultcount: u64, children: &[&str]) -> CollectionResponse {
    CollectionResponse {
        response: CollectionResponseBody {
            result: 1,
            resultcount,
            collectiondetails: vec![CollectionBody {
                publishedfileid: "42".to_string(),
                result: 1,
                children: children
                    .iter()
                    .enumerate()
                    .map(|(i, c)| CollectionChild {
                        publishedfileid: c.to_string(),
                        sortorder: i as u32,
                        filetype: 0,
                    })
                    .collect(),
            }],
        },
    }
}

#[test]
fn collection_zero_count_is_empty() {
    assert_eq!(get_collection_details_result(Ok(collection(0, &["a"]))).unwrap(), None);
    let none_listed = CollectionResponse {
        response: CollectionResponseBody { result: 1, resultcount: 1, collectiondetails: vec![] },
    };
    assert_eq!(get_collection_details_result(Ok(none_listed)).unwrap(), None);
}

#[test]
fn collection_children_in_order() {
    let r = get_collection_details_result(Ok(collection(1, &["7", "3", "5"]))).unwrap();
    assert_eq!(r, Some(strings(&["7", "3", "5"])));
}

#[test]
fn handle_setters() {
    let mut w = Workshop::new(None);
    assert!(w.apikey().is_none());
    assert!(w.proxy_url().is_none());
    w.set_apikey(Some("k".to_string()));
    assert_eq!(w.apikey().as_deref(), Some("k"));
    assert_eq!(w.require_apikey("m").unwrap(), "k");
    w.set_apikey(None);
    assert!(matches!(w.require_apikey("m"), Err(ApiError::Configuration(_))));
}
