//! The records that the API returns, and one module per remote interface.
use vstd::prelude::*;

pub mod i_published_file_service;
pub mod i_steam_remote_storage;
pub mod i_steam_user;

verus! {

/// A published Workshop item and its metadata.
#[derive(Debug, Clone, PartialEq)]
pub struct WorkshopItem {
    pub result: i8,
    pub publishedfileid: String,
    pub creator: Option<String>,
    pub creator_app_id: Option<u32>,
    pub consumer_app_id: Option<u32>,
    pub filename: Option<String>,
    pub file_size: Option<u64>,
    pub file_url: Option<String>,
    pub hcontent_file: Option<String>,
    pub preview_url: Option<String>,
    pub hcontent_preview: Option<String>,
    pub title: Option<String>,
    pub description: Option<String>,
    pub time_created: Option<usize>,
    pub time_updated: Option<usize>,
    pub visibility: Option<u32>,
    pub banned: Option<u32>,
    pub ban_reason: Option<String>,
    pub subscriptions: Option<u32>,
    pub favorited: Option<u32>,
    pub lifetime_subscriptions: Option<u32>,
    pub lifetime_favorited: Option<u32>,
    pub views: Option<u32>,
    pub tags: Option<Vec<WorkshopItemTag>>,
}

/// A tag of a Workshop item.
#[derive(Debug, Clone, PartialEq)]
pub struct WorkshopItemTag {
    pub tag: String,
}

/// The identifiers of a list of items, in order.
pub open spec fn item_ids_spec(items: Seq<WorkshopItem>) -> Seq<Seq<char>> {
    items.map_values(|it: WorkshopItem| it.publishedfileid@)
}

/// The identifier of each item, in order.
pub fn item_ids(items: &Vec<WorkshopItem>) -> (r: Vec<String>)
    ensures
        crate::request::strings_view(r@) == item_ids_spec(items@),
{
    let mut r: Vec<String> = Vec::new();
    let mut i: usize = 0;
    while i < items.len()
        invariant
            i <= items@.len(),
            crate::request::strings_view(r@) =~= item_ids_spec(items@.take(i as int)),
        decreases items@.len() - i,
    {
        r.push(items[i].publishedfileid.clone());
        proof {
            assert(item_ids_spec(items@.take(i + 1)) =~= item_ids_spec(items@.take(i as int)).push(
                items@[i as int].publishedfileid@,
            ));
        }
        i += 1;
    }
    proof {
        assert(items@.take(items@.len() as int) =~= items@);
    }
    r
}

} // verus!
