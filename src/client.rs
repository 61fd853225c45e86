//! The session handle: API key, relay address and the HTTP client.
use vstd::prelude::*;

use crate::error::ApiError;
use reqwest::blocking::Client;

verus! {

#[verifier::external_type_specification]
#[verifier::external_body]
pub struct ExClient(Client);

/// Relies on `reqwest::blocking::Client::new`: a client with the default
/// settings. It panics where no client can be built on this machine (no TLS
/// backend, or a call from inside an async runtime).
#[verifier::external_body]
fn default_client() -> (r: Client) {
    Client::new()
}

/// A session with the API: the key that authenticated calls send, the address
/// of an optional relay, and the HTTP client that carries the requests.
#[derive(Debug)]
pub struct Workshop {
    apikey: Option<String>,
    client: Client,
    proxy_url: Option<String>,
}

/// The text of an optional string.
pub open spec fn opt_view(o: Option<String>) -> Option<Seq<char>> {
    match o {
        Some(s) => Some(s@),
        None => None,
    }
}

impl Workshop {
    /// The API key, if one is set.
    pub closed spec fn apikey_spec(&self) -> Option<String> {
        self.apikey
    }

    /// The relay address, if one is set.
    pub closed spec fn proxy_url_spec(&self) -> Option<String> {
        self.proxy_url
    }

    /// The HTTP client.
    pub closed spec fn client_spec(&self) -> Client {
        self.client
    }

    /// A handle with no API key and no relay, on `client` or else on a new
    /// default client.
    pub fn new(client: Option<Client>) -> (r: Self)
        ensures
            r.apikey_spec() is None,
            r.proxy_url_spec() is None,
            client matches Some(c) ==> r.client_spec() == c,
    {
        let client = match client {
            Some(client) => client,
            None => default_client(),
        };
        Workshop { apikey: None, client, proxy_url: None }
    }

    pub fn apikey(&self) -> (r: &Option<String>)
        ensures
            *r == self.apikey_spec(),
    {
        &self.apikey
    }

    pub fn set_apikey(&mut self, apikey: Option<String>)
        ensures
            final(self).apikey_spec() == apikey,
            final(self).proxy_url_spec() == old(self).proxy_url_spec(),
            final(self).client_spec() == old(self).client_spec(),
    {
        self.apikey = apikey;
    }

    pub fn proxy_url(&self) -> (r: &Option<String>)
        ensures
            *r == self.proxy_url_spec(),
    {
        &self.proxy_url
    }

    pub fn set_proxy_url(&mut self, proxy_url: Option<String>)
        ensures
            final(self).proxy_url_spec() == proxy_url,
            final(self).apikey_spec() == old(self).apikey_spec(),
            final(self).client_spec() == old(self).client_spec(),
    {
        self.proxy_url = proxy_url;
    }

    pub fn client(&self) -> (r: &Client)
        ensures
            *r == self.client_spec(),
    {
        &self.client
    }

    pub fn set_client(&mut self, client: Client)
        ensures
            final(self).client_spec() == client,
            final(self).apikey_spec() == old(self).apikey_spec(),
            final(self).proxy_url_spec() == old(self).proxy_url_spec(),
    {
        self.client = client;
    }

    /// The API key that an authenticated call sends; without one the call
    /// fails here, before anything is sent.
    pub fn require_apikey(&self, method_name: &str) -> (r: Result<String, ApiError>)
        ensures
            match self.apikey_spec() {
                Some(k) => r matches Ok(v) && v@ == k@,
                None => r matches Err(ApiError::Configuration(_)),
            },
    {
        match &self.apikey {
            Some(k) => Ok(k.clone()),
            None => {
                let mut m = String::from_str("Missing api key for authed-only method: ");
                m.append(method_name);
                Err(ApiError::Configuration(m))
            },
        }
    }

    /// Where a call goes: the relay when `use_proxy` is set, else `direct`.
    /// Asking for the relay on a handle without one fails; there is no
    /// fallback to the direct address.
    pub fn target_url(&self, use_proxy: bool, direct: String) -> (r: Result<String, ApiError>)
        ensures
            !use_proxy ==> (r matches Ok(u) && u@ == direct@),
            use_proxy ==> match self.proxy_url_spec() {
                Some(p) => r matches Ok(u) && u@ == p@,
                None => r matches Err(ApiError::Configuration(_)),
            },
    {
        if use_proxy {
            match &self.proxy_url {
                Some(p) => Ok(p.clone()),
                None => Err(
                    ApiError::Configuration(
                        String::from_str("Trying to use a proxy but no proxy url has been found."),
                    ),
                ),
            }
        } else {
            Ok(direct)
        }
    }
}

} // verus!
