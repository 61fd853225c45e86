//! `ISteamUser`: player profile summaries, fetched in capped batches.
use vstd::prelude::*;

use crate::batch::{chunk_count, chunks_spec, lemma_chunks_len, split_chunks};
use crate::client::Workshop;
use crate::error::ApiError;
use crate::request::{
    build_request, endpoint_url, endpoint_url_spec, headers_spec, join, join_spec, pair,
    pairs_view, strings_view, HttpMethod, HttpRequest,
};

verus! {

/// Name of the remote interface.
pub const INTERFACE_NAME: &'static str = "ISteamUser";

/// Most identifiers that one summaries request may carry.
pub const SUMMARIES_PER_REQUEST: usize = 100;

/// The players of a summaries reply.
#[derive(Debug, Clone)]
pub struct PlayerList {
    pub players: Vec<Player>,
}

/// A player's public profile.
#[derive(Debug, Clone)]
pub struct Player {
    pub steamid: String,
    pub communityvisibilitystate: u32,
    pub profilestate: u32,
    pub personaname: String,
    pub profileurl: String,
    pub avatar: String,
    pub avatarmedium: String,
    pub avatarfull: String,
    pub avatarhash: String,
    pub personastate: u32,
}

/// A summaries reply.
#[derive(Debug, Clone)]
pub struct SummariesResponse {
    pub response: PlayerList,
}

/// Address of `GetPlayerSummaries` on the API host.
pub open spec fn summaries_url() -> Seq<char> {
    endpoint_url_spec(INTERFACE_NAME@, "GetPlayerSummaries"@, "v2"@)
}

/// Whether `req` asks, with `key`, for the summaries of the players `ids`.
pub open spec fn is_summaries_request(req: HttpRequest, key: Seq<char>, ids: Seq<Seq<char>>) -> bool {
    let params = seq![("key"@, key), ("steamids"@, join_spec(ids, ","@))];
    &&& req.method == HttpMethod::Get
    &&& req.url@ == summaries_url()
    &&& pairs_view(req.params@) == params
    &&& pairs_view(req.headers@) == headers_spec(true)
    &&& !req.check_status
}

/// Each player's identifier paired with its display name, in order.
pub open spec fn names_spec(players: Seq<Player>) -> Seq<(Seq<char>, Seq<char>)> {
    players.map_values(|p: Player| (p.steamid@, p.personaname@))
}

/// The requests for the summaries of `steam_ids`: one per chunk of at most
/// `SUMMARIES_PER_REQUEST` identifiers, in the order of the list, and none for
/// an empty list. They need the handle's API key: without one this fails with
/// a configuration error and no request is made.
pub fn get_player_summaries_requests(workshop: &Workshop, steam_ids: &[String]) -> (r: Result<
    Vec<HttpRequest>,
    ApiError,
>)
    ensures
        match workshop.apikey_spec() {
            None => r matches Err(ApiError::Configuration(_)),
            Some(k) => (r matches Ok(reqs) && reqs@.len() == chunk_count(
                steam_ids@.len(),
                SUMMARIES_PER_REQUEST as nat,
            ) && reqs@.len() == chunks_spec(
                steam_ids@,
                SUMMARIES_PER_REQUEST as nat,
            ).len() && forall|i: int|
                0 <= i < reqs@.len() ==> is_summaries_request(
                    #[trigger] reqs@[i],
                    k@,
                    strings_view(chunks_spec(steam_ids@, SUMMARIES_PER_REQUEST as nat)[i]),
                )),
        },
{
    let key = workshop.require_apikey("get_player_summaries")?;
    let chunks = split_chunks(steam_ids, SUMMARIES_PER_REQUEST);
    let ghost all = chunks_spec(steam_ids@, SUMMARIES_PER_REQUEST as nat);
    proof {
        lemma_chunks_len(steam_ids@, SUMMARIES_PER_REQUEST as nat);
    }
    let mut reqs: Vec<HttpRequest> = Vec::new();
    let mut i: usize = 0;
    while i < chunks.len()
        invariant
            i <= chunks@.len(),
            chunks@.len() == all.len(),
            forall|j: int| 0 <= j < chunks@.len() ==> (#[trigger] chunks@[j])@ == all[j],
            reqs@.len() == i,
            forall|j: int|
                0 <= j < i ==> is_summaries_request(#[trigger] reqs@[j], key@, strings_view(all[j])),
        decreases chunks@.len() - i,
    {
        let url = endpoint_url(INTERFACE_NAME, "GetPlayerSummaries", "v2");
        let ids = join(chunks[i].as_slice(), ",");
        let mut params: Vec<(String, String)> = Vec::new();
        params.push(pair("key", key.as_str()));
        params.push(pair("steamids", ids.as_str()));
        let req = build_request(HttpMethod::Get, url, params);
        proof {
            assert(chunks@[i as int]@ == all[i as int]);
            assert(pairs_view(req.params@) =~= seq![
                ("key"@, key@),
                ("steamids"@, join_spec(strings_view(all[i as int]), ","@)),
            ]);
        }
        reqs.push(req);
        i += 1;
    }
    Ok(reqs)
}

/// Adds the players of one decoded summaries reply to those gathered so far.
/// A reply that could not be decoded is a parse error, which ends the batch:
/// what was gathered is then left as it was.
pub fn absorb_player_summaries(
    players: &mut Vec<Player>,
    parsed: Result<SummariesResponse, String>,
) -> (r: Result<(), ApiError>)
    ensures
        match parsed {
            Err(m) => (r matches Err(ApiError::Parse(e)) && e@ == m@) && final(players)@ == old(
                players,
            )@,
            Ok(resp) => r is Ok && final(players)@ == old(players)@ + resp.response.players@,
        },
{
    match parsed {
        Err(m) => Err(ApiError::Parse(m)),
        Ok(resp) => {
            let mut more = resp.response.players;
            players.append(&mut more);
            Ok(())
        },
    }
}

/// Each player's identifier paired with its display name, in the order of
/// `players`.
pub fn player_names(players: &[Player]) -> (r: Vec<(String, String)>)
    ensures
        pairs_view(r@) == names_spec(players@),
{
    let mut r: Vec<(String, String)> = Vec::new();
    let mut i: usize = 0;
    while i < players.len()
        invariant
            i <= players@.len(),
            pairs_view(r@) =~= names_spec(players@.take(i as int)),
        decreases players@.len() - i,
    {
        r.push((players[i].steamid.clone(), players[i].personaname.clone()));
        proof {
            assert(names_spec(players@.take(i + 1)) =~= names_spec(players@.take(i as int)).push(
                (players@[i as int].steamid@, players@[i as int].personaname@),
            ));
        }
        i += 1;
    }
    proof {
        assert(players@.take(players@.len() as int) =~= players@);
    }
    r
}

} // verus!
