//! `ISteamRemoteStorage`: item details and collection contents.
use vstd::prelude::*;

use crate::error::ApiError;
use crate::interfaces::WorkshopItem;
use crate::request::{
    build_request, decimal, decimal_spec, endpoint_url, endpoint_url_spec, headers_spec,
    indexed_params, indexed_params_spec, pair, pairs_view, strings_view, HttpMethod, HttpRequest,
};

verus! {

/// Name of the remote interface.
pub const INTERFACE_NAME: &'static str = "ISteamRemoteStorage";

/// The items of a details reply.
#[derive(Debug, Clone, PartialEq)]
pub struct WorkshopItemList {
    pub publishedfiledetails: Vec<WorkshopItem>,
}

/// A details reply.
#[derive(Debug, Clone, PartialEq)]
pub struct DetailsResponse {
    pub response: WorkshopItemList,
}

/// A collection reply.
#[derive(Debug, Clone, PartialEq)]
pub struct CollectionResponse {
    pub response: CollectionResponseBody,
}

/// The body of a collection reply: how many collections were found, and each
/// one's contents.
#[derive(Debug, Clone, PartialEq)]
pub struct CollectionResponseBody {
    pub result: u8,
    pub resultcount: u64,
    pub collectiondetails: Vec<CollectionBody>,
}

/// A collection and its children.
#[derive(Debug, Clone, PartialEq)]
pub struct CollectionBody {
    pub publishedfileid: String,
    pub result: u8,
    pub children: Vec<CollectionChild>,
}

/// A member of a collection, with its place and its file type.
#[derive(Debug, Clone, PartialEq)]
pub struct CollectionChild {
    pub publishedfileid: String,
    pub sortorder: u32,
    pub filetype: u8,
}

/// Whether `req` is a form POST to `url` with parameters `params`, its reply
/// status checked.
pub open spec fn is_post_request(
    req: HttpRequest,
    url: Seq<char>,
    params: Seq<(Seq<char>, Seq<char>)>,
) -> bool {
    &&& req.method == HttpMethod::Post
    &&& req.url@ == url
    &&& pairs_view(req.params@) == params
    &&& pairs_view(req.headers@) == headers_spec(params.len() > 0)
    &&& req.check_status
}

/// Parameters of a details request: the count, then each identifier under
/// `publishedfileids[i]`.
pub open spec fn details_params_spec(ids: Seq<Seq<char>>) -> Seq<(Seq<char>, Seq<char>)> {
    seq![("itemcount"@, decimal_spec(ids.len()))] + indexed_params_spec("publishedfileids"@, ids)
}

/// Parameters of a collection request for one collection.
pub open spec fn collection_params_spec(fileid: Seq<char>) -> Seq<(Seq<char>, Seq<char>)> {
    seq![("collectioncount"@, "1"@), ("publishedfileids[0]"@, fileid)]
}

/// The identifiers of the children of a collection, in order.
pub open spec fn children_ids_spec(children: Seq<CollectionChild>) -> Seq<Seq<char>> {
    children.map_values(|c: CollectionChild| c.publishedfileid@)
}

/// The request for the details of each of `fileids`.
pub fn get_published_file_details_request(fileids: &[String]) -> (r: HttpRequest)
    ensures
        is_post_request(
            r,
            endpoint_url_spec(INTERFACE_NAME@, "GetPublishedFileDetails"@, "v1"@),
            details_params_spec(strings_view(fileids@)),
        ),
{
    let url = endpoint_url(INTERFACE_NAME, "GetPublishedFileDetails", "v1");
    let mut params: Vec<(String, String)> = Vec::new();
    params.push(pair("itemcount", decimal(fileids.len() as u64).as_str()));
    let mut ids = indexed_params("publishedfileids", fileids);
    params.append(&mut ids);
    proof {
        assert(pairs_view(params@) =~= details_params_spec(strings_view(fileids@)));
    }
    build_request(HttpMethod::Post, url, params)
}

/// The items of a decoded details reply, in the order of the reply. A reply
/// that could not be decoded is a parse error.
pub fn get_published_file_details_result(parsed: Result<DetailsResponse, String>) -> (r: Result<
    Vec<WorkshopItem>,
    ApiError,
>)
    ensures
        match parsed {
            Err(m) => (r matches Err(ApiError::Parse(e)) && e@ == m@),
            Ok(resp) => (r matches Ok(items) && items@ == resp.response.publishedfiledetails@),
        },
{
    match parsed {
        Err(m) => Err(ApiError::Parse(m)),
        Ok(resp) => Ok(resp.response.publishedfiledetails),
    }
}

/// The request for the children of the collection `fileid`.
pub fn get_collection_details_request(fileid: &str) -> (r: HttpRequest)
    ensures
        is_post_request(
            r,
            endpoint_url_spec(INTERFACE_NAME@, "GetCollectionDetails"@, "v1"@),
            collection_params_spec(fileid@),
        ),
{
    let url = endpoint_url(INTERFACE_NAME, "GetCollectionDetails", "v1");
    let mut params: Vec<(String, String)> = Vec::new();
    params.push(pair("collectioncount", "1"));
    params.push(pair("publishedfileids[0]", fileid));
    proof {
        assert(pairs_view(params@) =~= collection_params_spec(fileid@));
    }
    build_request(HttpMethod::Post, url, params)
}

/// The children of a collection, from a decoded collection reply: the
/// identifiers of the first collection's children, or `None` where the reply
/// counts no collection or lists none. A reply that could not be decoded is a
/// parse error.
pub fn get_collection_details_result(parsed: Result<CollectionResponse, String>) -> (r: Result<
    Option<Vec<String>>,
    ApiError,
>)
    ensures
        match parsed {
            Err(m) => (r matches Err(ApiError::Parse(e)) && e@ == m@),
            Ok(resp) => if resp.response.resultcount == 0
                || resp.response.collectiondetails@.len() == 0 {
                r matches Ok(None)
            } else {
                r matches Ok(Some(ids)) && strings_view(ids@) == children_ids_spec(
                    resp.response.collectiondetails@[0].children@,
                )
            },
        },
{
    match parsed {
        Err(m) => Err(ApiError::Parse(m)),
        Ok(resp) => {
            if resp.response.resultcount == 0 || resp.response.collectiondetails.len() == 0 {
                Ok(None)
            } else {
                let children = &resp.response.collectiondetails[0].children;
                let mut ids: Vec<String> = Vec::new();
                let mut i: usize = 0;
                while i < children.len()
                    invariant
                        i <= children@.len(),
                        strings_view(ids@) =~= children_ids_spec(children@.take(i as int)),
                    decreases children@.len() - i,
                {
                    ids.push(children[i].publishedfileid.clone());
                    proof {
                        assert(children_ids_spec(children@.take(i + 1)) =~= children_ids_spec(
                            children@.take(i as int),
                        ).push(children@[i as int].publishedfileid@));
                    }
                    i += 1;
                }
                proof {
                    assert(children@.take(children@.len() as int) =~= children@);
                }
                Ok(Some(ids))
            }
        },
    }
}

} // verus!
