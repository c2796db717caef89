//! What the adapter is configured with, and the endpoints derived from it.

use vstd::prelude::*;
use vstd::string::StringExecFns;
use crate::raw::{find_value, lookup};

verus! {

#[derive(Debug, PartialEq, Eq)]
pub struct OneBotConfig {
    /// Base address of the service; the two connections hang below it.
    pub ws_url: String,
    /// Stable identity of this adapter instance.
    pub self_id: String,
}

/// The adapter's identity as the host sees it.
#[derive(Debug, PartialEq, Eq)]
pub struct OneBotGenericId {
    pub self_id: String,
}

/// The host's identity of an adapter instance: key/value pairs of text.
#[derive(Debug, PartialEq, Eq)]
pub struct GenericId {
    pub kv: Vec<(String, String)>,
}

fn value_is(v: Option<String>, text: &str) -> (r: bool)
    ensures
        r == (v matches Some(s) && s@ == text@),
{
    match v {
        Some(s) => s == String::from_str(text),
        None => false,
    }
}

impl OneBotGenericId {
    pub fn from_config(config: &OneBotConfig) -> (r: Self)
        ensures
            r.self_id@ == config.self_id@,
    {
        OneBotGenericId { self_id: config.self_id.clone() }
    }

    /// The identity read from a host id; an id without "self_id" is refused.
    pub fn ensure_generic_id(id: &GenericId) -> (r: Result<Self, String>)
        ensures
            match lookup(id.kv@, "self_id"@) {
                Some(v) => r matches Ok(g) && g.self_id@ == v,
                None => r matches Err(e) && e@ == "self_id not found"@,
            },
    {
        match find_value(&id.kv, "self_id") {
            Some(v) => Ok(OneBotGenericId { self_id: v }),
            None => Err(String::from_str("self_id not found")),
        }
    }

    /// Whether a host id addresses this adapter: both its "self_id" and its
    /// "type" must be "onebot".
    pub fn match_adapter(id: &GenericId) -> (r: bool)
        ensures
            r == (lookup(id.kv@, "self_id"@) == Some("onebot"@) && lookup(id.kv@, "type"@) == Some("onebot"@)),
    {
        let self_id = find_value(&id.kv, "self_id");
        if !value_is(self_id, "onebot") {
            return false;
        }
        let ty = find_value(&id.kv, "type");
        value_is(ty, "onebot")
    }

    /// The host id of this adapter: type "onebot" and its own self id.
    pub fn to_generic_id(&self) -> (r: GenericId)
        ensures
            r.kv@.len() == 2,
            r.kv@[0].0@ == "type"@ && r.kv@[0].1@ == "onebot"@,
            r.kv@[1].0@ == "self_id"@ && r.kv@[1].1@ == self.self_id@,
    {
        let mut kv: Vec<(String, String)> = Vec::new();
        kv.push((String::from_str("type"), String::from_str("onebot")));
        kv.push((String::from_str("self_id"), self.self_id.clone()));
        GenericId { kv }
    }
}

/// `path` appended to `url`, with a '/' between them unless `url` already ends with one.
pub open spec fn joined_url(url: Seq<char>, path: Seq<char>) -> Seq<char> {
    if url.len() > 0 && url.last() == '/' {
        url + path
    } else {
        url + "/"@ + path
    }
}

pub fn join_url(url: &str, path: &str) -> (r: String)
    ensures
        r@ == joined_url(url@, path@),
{
    let n = url.unicode_len();
    let mut s = String::from_str(url);
    if n > 0 && url.get_char(n - 1) == '/' {
        s.append(path);
    } else {
        s.append("/");
        s.append(path);
    }
    s
}

/// Endpoint of the call connection.
pub fn api_endpoint(config: &OneBotConfig) -> (r: String)
    ensures
        r@ == joined_url(config.ws_url@, "/api"@),
{
    join_url(config.ws_url.as_str(), "/api")
}

/// Endpoint of the event connection.
pub fn event_endpoint(config: &OneBotConfig) -> (r: String)
    ensures
        r@ == joined_url(config.ws_url@, "/event"@),
{
    join_url(config.ws_url.as_str(), "/event")
}

} // verus!
