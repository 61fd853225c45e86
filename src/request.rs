//! Building requests: endpoint addresses, parameter encoding and headers.
use vstd::prelude::*;

use crate::{STEAM_API_URL, USER_AGENT};

verus! {

/// HTTP method of a request.
#[derive(Debug, Clone, Copy, PartialEq, Eq, Structural)]
pub enum HttpMethod {
    Get,
    Post,
}

/// A request, addressed and encoded, ready to be sent.
#[derive(Debug, Clone)]
pub struct HttpRequest {
    pub method: HttpMethod,
    pub url: String,
    pub headers: Vec<(String, String)>,
    /// Sent as the query string of a `Get`, as a url-encoded form body of a `Post`.
    pub params: Vec<(String, String)>,
    /// Whether a reply whose status is not 2xx fails before its body is read.
    pub check_status: bool,
}

/// The text of each string in a list.
pub open spec fn strings_view(s: Seq<String>) -> Seq<Seq<char>> {
    s.map_values(|x: String| x@)
}

/// The text of each key/value pair in a list.
pub open spec fn pairs_view(p: Seq<(String, String)>) -> Seq<(Seq<char>, Seq<char>)> {
    p.map_values(|kv: (String, String)| (kv.0@, kv.1@))
}

/// The decimal digit `d`, for `d < 10`.
pub open spec fn digit_spec(d: nat) -> Seq<char> {
    if d == 0 {
        "0"@
    } else if d == 1 {
        "1"@
    } else if d == 2 {
        "2"@
    } else if d == 3 {
        "3"@
    } else if d == 4 {
        "4"@
    } else if d == 5 {
        "5"@
    } else if d == 6 {
        "6"@
    } else if d == 7 {
        "7"@
    } else if d == 8 {
        "8"@
    } else {
        "9"@
    }
}

/// `n` written in decimal, without leading zeros.
pub open spec fn decimal_spec(n: nat) -> Seq<char>
    decreases n,
{
    if n < 10 {
        digit_spec(n)
    } else {
        decimal_spec(n / 10) + digit_spec(n % 10)
    }
}

/// The items of `s` with `sep` between each two neighbours.
pub open spec fn join_spec(s: Seq<Seq<char>>, sep: Seq<char>) -> Seq<char>
    decreases s.len(),
{
    if s.len() == 0 {
        Seq::empty()
    } else if s.len() == 1 {
        s[0]
    } else {
        join_spec(s.drop_last(), sep) + sep + s.last()
    }
}

/// The key under which item `i` of a list parameter `name` is sent: `name[i]`.
pub open spec fn indexed_key(name: Seq<char>, i: nat) -> Seq<char> {
    name + "["@ + decimal_spec(i) + "]"@
}

/// A list parameter as indexed pairs: `name[0]=v0`, `name[1]=v1`, ...
pub open spec fn indexed_params_spec(name: Seq<char>, values: Seq<Seq<char>>) -> Seq<
    (Seq<char>, Seq<char>),
> {
    Seq::new(values.len(), |i: int| (indexed_key(name, i as nat), values[i]))
}

/// Address of an operation on the API host: `host/interface/operation/version/`.
pub open spec fn endpoint_url_spec(
    interface: Seq<char>,
    operation: Seq<char>,
    version: Seq<char>,
) -> Seq<char> {
    STEAM_API_URL@ + "/"@ + interface + "/"@ + operation + "/"@ + version + "/"@
}

/// Headers of every request; parameter-bearing ones also declare the form encoding.
pub open spec fn headers_spec(has_params: bool) -> Seq<(Seq<char>, Seq<char>)> {
    if has_params {
        seq![
            ("User-Agent"@, USER_AGENT@),
            ("Content-Type"@, "application/x-www-form-urlencoded"@),
        ]
    } else {
        seq![("User-Agent"@, USER_AGENT@)]
    }
}

fn digit(d: u64) -> (r: &'static str)
    requires
        d < 10,
    ensures
        r@ == digit_spec(d as nat),
{
    if d == 0 {
        "0"
    } else if d == 1 {
        "1"
    } else if d == 2 {
        "2"
    } else if d == 3 {
        "3"
    } else if d == 4 {
        "4"
    } else if d == 5 {
        "5"
    } else if d == 6 {
        "6"
    } else if d == 7 {
        "7"
    } else if d == 8 {
        "8"
    } else {
        "9"
    }
}

/// Writes `n` in decimal.
pub fn decimal(n: u64) -> (r: String)
    ensures
        r@ == decimal_spec(n as nat),
    decreases n,
{
    if n < 10 {
        String::from_str(digit(n))
    } else {
        let mut s = decimal(n / 10);
        s.append(digit(n % 10));
        s
    }
}

/// Joins `items` with `sep` between each two neighbours.
pub fn join(items: &[String], sep: &str) -> (r: String)
    ensures
        r@ == join_spec(strings_view(items@), sep@),
{
    let mut r = String::new();
    let mut i: usize = 0;
    while i < items.len()
        invariant
            i <= items@.len(),
            r@ == join_spec(strings_view(items@.take(i as int)), sep@),
        decreases items@.len() - i,
    {
        if i > 0 {
            r.append(sep);
        }
        r.append(items[i].as_str());
        proof {
            let prev = strings_view(items@.take(i as int));
            let next = strings_view(items@.take(i + 1));
            assert(next.drop_last() =~= prev);
            assert(next.last() == items@[i as int]@);
            if i == 0 {
                assert(r@ =~= next[0]);
            }
        }
        i += 1;
    }
    proof {
        assert(items@.take(items@.len() as int) =~= items@);
    }
    r
}

/// Encodes a list parameter as one pair per item, keyed `name[index]` from 0 up.
pub fn indexed_params(name: &str, values: &[String]) -> (r: Vec<(String, String)>)
    ensures
        pairs_view(r@) == indexed_params_spec(name@, strings_view(values@)),
{
    let mut r: Vec<(String, String)> = Vec::new();
    let mut i: usize = 0;
    while i < values.len()
        invariant
            i <= values@.len(),
            r@.len() == i,
            forall|j: int|
                0 <= j < i ==> (#[trigger] r@[j]).0@ == indexed_key(name@, j as nat)
                    && r@[j].1@ == values@[j]@,
        decreases values@.len() - i,
    {
        let mut key = String::from_str(name);
        key.append("[");
        let index = decimal(i as u64);
        key.append(index.as_str());
        key.append("]");
        let value = values[i].clone();
        proof {
            assert(key@ =~= indexed_key(name@, i as nat));
        }
        r.push((key, value));
        proof {
            assert(r@[i as int].1@ == values@[i as int]@);
            assert(r@[i as int].0@ == indexed_key(name@, i as nat));
        }
        i += 1;
    }
    proof {
        assert(pairs_view(r@) =~= indexed_params_spec(name@, strings_view(values@)));
    }
    r
}

/// The address of an operation on the API host.
pub fn endpoint_url(interface: &str, operation: &str, version: &str) -> (r: String)
    ensures
        r@ == endpoint_url_spec(interface@, operation@, version@),
{
    let mut r = String::from_str(STEAM_API_URL);
    r.append("/");
    r.append(interface);
    r.append("/");
    r.append(operation);
    r.append("/");
    r.append(version);
    r.append("/");
    r
}

/// Makes a pair of owned strings.
pub fn pair(key: &str, value: &str) -> (r: (String, String))
    ensures
        r.0@ == key@,
        r.1@ == value@,
{
    (String::from_str(key), String::from_str(value))
}

/// Addresses a request and attaches the headers that every request carries.
/// Only a `Post` has its reply status checked.
pub fn build_request(method: HttpMethod, url: String, params: Vec<(String, String)>) -> (r:
    HttpRequest)
    ensures
        r.method == method,
        r.url@ == url@,
        r.params@ == params@,
        pairs_view(r.headers@) == headers_spec(params@.len() > 0),
        r.check_status == (method == HttpMethod::Post),
{
    let mut headers: Vec<(String, String)> = Vec::new();
    headers.push(pair("User-Agent", USER_AGENT));
    if params.len() > 0 {
        headers.push(pair("Content-Type", "application/x-www-form-urlencoded"));
    }
    proof {
        assert(pairs_view(headers@) =~= headers_spec(params@.len() > 0));
    }
    let check_status = match method {
        HttpMethod::Post => true,
        HttpMethod::Get => false,
    };
    HttpRequest { method, url, headers, params, check_status }
}

} // verus!
