//! `IPublishedFileService`: searching the Workshop.
use vstd::prelude::*;

use crate::client::Workshop;
use crate::error::ApiError;
use crate::interfaces::{item_ids, item_ids_spec, WorkshopItem};
use crate::request::{
    build_request, decimal, decimal_spec, endpoint_url, endpoint_url_spec, headers_spec, pair,
    pairs_view, HttpMethod, HttpRequest,
};

verus! {

/// Name of the remote interface.
pub const INTERFACE_NAME: &'static str = "IPublishedFileService";

/// The items of a search reply.
#[derive(Debug, Clone, PartialEq)]
pub struct WorkshopItemList {
    pub publishedfiledetails: Vec<WorkshopItem>,
}

/// A search reply: the payload, absent when nothing matched, and the number
/// of matches.
#[derive(Debug, Clone, PartialEq)]
pub struct SearchResponse {
    pub response: Option<WorkshopItemList>,
    pub total: u64,
}

/// Address of `QueryFiles` on the API host.
pub open spec fn query_files_url() -> Seq<char> {
    endpoint_url_spec(INTERFACE_NAME@, "QueryFiles"@, "v1"@)
}

/// Parameters of a search for `query` among the items of `appid`, first page
/// of `count`; with `return_metadata`, the items come with their metadata.
pub open spec fn search_params_spec(
    appid: nat,
    query: Seq<char>,
    count: nat,
    key: Seq<char>,
    return_metadata: bool,
) -> Seq<(Seq<char>, Seq<char>)> {
    seq![
        ("page"@, "1"@),
        ("numperpage"@, decimal_spec(count)),
        ("search_text"@, query),
        ("appid"@, decimal_spec(appid)),
    ] + (if return_metadata {
        seq![("return_metadata"@, "1"@)]
    } else {
        Seq::empty()
    }) + seq![("key"@, key)]
}

/// The payload of a search reply, or `None` where the reply carries none or
/// counts no match.
pub open spec fn search_payload(r: SearchResponse) -> Option<WorkshopItemList> {
    if r.total == 0 {
        None
    } else {
        r.response
    }
}

/// Whether `req` is a `QueryFiles` request with parameters `params`, sent by
/// GET to `url`.
pub open spec fn is_query_files_request(
    req: HttpRequest,
    url: Seq<char>,
    params: Seq<(Seq<char>, Seq<char>)>,
) -> bool {
    &&& req.method == HttpMethod::Get
    &&& req.url@ == url
    &&& pairs_view(req.params@) == params
    &&& pairs_view(req.headers@) == headers_spec(params.len() > 0)
    &&& !req.check_status
}

/// What a `QueryFiles` request with these parameters must look like for this
/// handle: `Some(url)` of its target, `None` where it cannot be sent.
pub open spec fn query_files_target(client: &Workshop, use_proxy: bool) -> Option<Seq<char>> {
    if use_proxy {
        match client.proxy_url_spec() {
            Some(p) => Some(p@),
            None => None,
        }
    } else {
        Some(query_files_url())
    }
}

fn search_params(appid: u64, query: &str, count: usize, key: &String, return_metadata: bool) -> (r:
    Vec<(String, String)>)
    ensures
        pairs_view(r@) == search_params_spec(
            appid as nat,
            query@,
            count as nat,
            key@,
            return_metadata,
        ),
{
    let mut r: Vec<(String, String)> = Vec::new();
    r.push(pair("page", "1"));
    r.push(pair("numperpage", decimal(count as u64).as_str()));
    r.push(pair("search_text", query));
    r.push(pair("appid", decimal(appid).as_str()));
    if return_metadata {
        r.push(pair("return_metadata", "1"));
    }
    r.push(pair("key", key.as_str()));
    proof {
        assert(pairs_view(r@) =~= search_params_spec(
            appid as nat,
            query@,
            count as nat,
            key@,
            return_metadata,
        ));
    }
    r
}

/// A `QueryFiles` request with parameters `query`: sent by GET to the API
/// host, or to the handle's relay when `use_proxy` is set. Asking for the relay
/// on a handle without one fails with a configuration error.
pub fn query_files(client: &Workshop, query: Vec<(String, String)>, use_proxy: bool) -> (r: Result<
    HttpRequest,
    ApiError,
>)
    ensures
        match query_files_target(client, use_proxy) {
            Some(url) => (r matches Ok(req) && is_query_files_request(req, url, pairs_view(query@))),
            None => r matches Err(ApiError::Configuration(_)),
        },
{
    let direct = endpoint_url(INTERFACE_NAME, "QueryFiles", "v1");
    let url = client.target_url(use_proxy, direct)?;
    Ok(build_request(HttpMethod::Get, url, query))
}

fn search_request(
    client: &Workshop,
    appid: u64,
    query: &str,
    count: usize,
    use_proxy: bool,
    return_metadata: bool,
    method_name: &str,
) -> (r: Result<HttpRequest, ApiError>)
    ensures
        match client.apikey_spec() {
            None => r matches Err(ApiError::Configuration(_)),
            Some(k) => match query_files_target(client, use_proxy) {
                Some(url) => (r matches Ok(req) && is_query_files_request(
                    req,
                    url,
                    search_params_spec(appid as nat, query@, count as nat, k@, return_metadata),
                )),
                None => r matches Err(ApiError::Configuration(_)),
            },
        },
{
    let key = client.require_apikey(method_name)?;
    let params = search_params(appid, query, count, &key, return_metadata);
    query_files(client, params, use_proxy)
}

/// The request of a search that returns item identifiers only. It needs the
/// handle's API key: without one it fails with a configuration error before
/// anything is sent, as it does when the relay is asked for and not set.
pub fn search_ids_request(
    client: &Workshop,
    appid: u64,
    query: &str,
    count: usize,
    use_proxy: bool,
) -> (r: Result<HttpRequest, ApiError>)
    ensures
        match client.apikey_spec() {
            None => r matches Err(ApiError::Configuration(_)),
            Some(k) => match query_files_target(client, use_proxy) {
                Some(url) => (r matches Ok(req) && is_query_files_request(
                    req,
                    url,
                    search_params_spec(appid as nat, query@, count as nat, k@, false),
                )),
                None => r matches Err(ApiError::Configuration(_)),
            },
        },
{
    search_request(client, appid, query, count, use_proxy, false, "search_ids")
}

/// The request of a search that returns the items with their metadata; it
/// fails as `search_ids_request` does.
pub fn search_full_request(
    client: &Workshop,
    appid: u64,
    query: &str,
    count: usize,
    use_proxy: bool,
) -> (r: Result<HttpRequest, ApiError>)
    ensures
        match client.apikey_spec() {
            None => r matches Err(ApiError::Configuration(_)),
            Some(k) => match query_files_target(client, use_proxy) {
                Some(url) => (r matches Ok(req) && is_query_files_request(
                    req,
                    url,
                    search_params_spec(appid as nat, query@, count as nat, k@, true),
                )),
                None => r matches Err(ApiError::Configuration(_)),
            },
        },
{
    search_request(client, appid, query, count, use_proxy, true, "search_full")
}

/// The identifiers found by a search, from its decoded reply: `None` where the
/// reply carries no payload or counts no match. A reply that could not be
/// decoded (`Err` with the decoder's message) is a parse error.
pub fn search_ids_result(parsed: Result<SearchResponse, String>) -> (r: Result<
    Option<Vec<String>>,
    ApiError,
>)
    ensures
        match parsed {
            Err(m) => (r matches Err(ApiError::Parse(e)) && e@ == m@),
            Ok(resp) => match search_payload(resp) {
                None => r matches Ok(None),
                Some(list) => (r matches Ok(Some(ids)) && crate::request::strings_view(ids@)
                    == item_ids_spec(list.publishedfiledetails@)),
            },
        },
{
    match parsed {
        Err(m) => Err(ApiError::Parse(m)),
        Ok(resp) => {
            if resp.total == 0 {
                Ok(None)
            } else {
                match resp.response {
                    None => Ok(None),
                    Some(list) => Ok(Some(item_ids(&list.publishedfiledetails))),
                }
            }
        },
    }
}

/// The items found by a search, from its decoded reply: empty where the reply
/// carries no payload or counts no match. A reply that could not be decoded is
/// a parse error.
pub fn search_full_result(parsed: Result<SearchResponse, String>) -> (r: Result<
    Vec<WorkshopItem>,
    ApiError,
>)
    ensures
        match parsed {
            Err(m) => (r matches Err(ApiError::Parse(e)) && e@ == m@),
            Ok(resp) => match search_payload(resp) {
                None => (r matches Ok(items) && items@.len() == 0),
                Some(list) => (r matches Ok(items) && items@ == list.publishedfiledetails@),
            },
        },
{
    match parsed {
        Err(m) => Err(ApiError::Parse(m)),
        Ok(resp) => {
            if resp.total == 0 {
                Ok(Vec::new())
            } else {
                match resp.response {
                    None => Ok(Vec::new()),
                    Some(list) => Ok(list.publishedfiledetails),
                }
            }
        },
    }
}

} // verus!
