use vstd::prelude::*;

use crate::endpoint::{
    is_base_endpoint, is_plain_path_char, is_relative_path, join_url, joined_url, parse_url, parsed_url,
};
use crate::error::Error;
use crate::json::{bool_member, boolean, field, json_of, json_text_parses, Json};
use crate::lang::chat::{request_json, ChatRequest};
use crate::request::{Method, OutgoingRequest};

verus! {

/// Resolved client configuration, shared read-only by every operation.
#[derive(Debug, Clone)]
pub struct Config {
    /// Credential, when the gateway asks for one.
    pub api_key: Option<String>,
    /// Value of the identifying header, fixed at construction.
    pub user_agent: String,
    /// Serialization of the base endpoint.
    pub base_url: String,
}

/// Both absent, or both present with the same characters.
pub open spec fn same_text(a: Option<String>, b: Option<String>) -> bool {
    match (a, b) {
        (Some(x), Some(y)) => x@ == y@,
        (None, None) => true,
        _ => false,
    }
}

fn copy_text(s: &Option<String>) -> (r: Option<String>)
    ensures
        same_text(r, *s),
{
    match s {
        Some(x) => Some(x.clone()),
        None => None,
    }
}

/// Path of the health operation.
pub open spec fn health_path() -> Seq<char> {
    "v1/health/"@
}

/// Path of the router listing.
pub open spec fn list_path() -> Seq<char> {
    "v1/language/"@
}

/// Path of a router's chat operation.
pub open spec fn chat_path(router: Seq<char>) -> Seq<char> {
    "v1/language/"@ + router + "/chat"@
}

/// Path of a router's streaming chat channel.
pub open spec fn stream_path(router: Seq<char>) -> Seq<char> {
    "v1/language/"@ + router + "/chatStream"@
}

/// `q` is the request of an operation at `path` under `config`, before its
/// body and upgrade are set.
pub open spec fn is_request_for(q: OutgoingRequest, config: Config, method: Method, path: Seq<char>) -> bool {
    &&& q.method == method
    &&& q.url@ == joined_url(config.base_url@, path)->0
    &&& q.user_agent@ == config.user_agent@
    &&& same_text(q.bearer, config.api_key)
}

fn router_path(router: &str, tail: &str) -> (r: String)
    ensures
        r@ == "v1/language/"@ + router@ + tail@,
{
    let mut p = String::from_str("v1/language/");
    p.append(router);
    p.append(tail);
    p
}

impl Config {
    /// Creates a configuration; `None` when the base endpoint is not a URL.
    pub fn new(base_url: &str, user_agent: &str, api_key: Option<&str>) -> (r: Option<Config>)
        ensures
            r is Some <==> parsed_url(base_url@) is Some,
            r matches Some(c) ==> {
                &&& c.base_url@ == parsed_url(base_url@)->0
                &&& c.user_agent@ == user_agent@
                &&& match api_key {
                    Some(k) => c.api_key matches Some(x) && x@ == k@,
                    None => c.api_key is None,
                }
            },
    {
        match parse_url(base_url) {
            Some(base) => {
                let key = match api_key {
                    Some(k) => Some(String::from_str(k)),
                    None => None,
                };
                Some(Config { api_key: key, user_agent: String::from_str(user_agent), base_url: base })
            },
            None => None,
        }
    }

    /// Creates the request for `method` at `path`, resolved against the base
    /// endpoint; `None` when the path does not resolve to a URL.
    pub fn create(&self, method: Method, path: &str) -> (r: Option<OutgoingRequest>)
        ensures
            r is Some <==> joined_url(self.base_url@, path@) is Some,
            r matches Some(q) ==> {
                &&& q.method == method
                &&& q.url@ == joined_url(self.base_url@, path@)->0
                &&& q.user_agent@ == self.user_agent@
                &&& same_text(q.bearer, self.api_key)
                &&& q.body is None
                &&& !q.upgrade
            },
            is_base_endpoint(self.base_url@) && is_relative_path(path@) ==> (r matches Some(q)
                && q.url@ == self.base_url@ + path@ && self.base_url@.is_prefix_of(q.url@)),
    {
        match join_url(self.base_url.as_str(), path) {
            Some(url) => {
                proof {
                    if is_base_endpoint(self.base_url@) && is_relative_path(path@) {
                        assert(self.base_url@ =~= url@.take(self.base_url@.len() as int));
                    }
                }
                Some(
                    OutgoingRequest {
                        method,
                        url,
                        user_agent: self.user_agent.clone(),
                        bearer: copy_text(&self.api_key),
                        body: None,
                        upgrade: false,
                    },
                )
            },
            None => None,
        }
    }

    /// `GET v1/health/`.
    pub fn health_request(&self) -> (r: Option<OutgoingRequest>)
        ensures
            r is Some <==> joined_url(self.base_url@, health_path()) is Some,
            r matches Some(q) ==> is_request_for(q, *self, Method::Get, health_path())
                && q.body is None && !q.upgrade,
            is_base_endpoint(self.base_url@) ==> (r matches Some(q) && q.url@ == self.base_url@
                + health_path()),
    {
        proof {
            reveal_strlit("v1/health/");
        }
        self.create(Method::Get, "v1/health/")
    }

    /// `GET v1/language/`: the router listing.
    pub fn list_request(&self) -> (r: Option<OutgoingRequest>)
        ensures
            r is Some <==> joined_url(self.base_url@, list_path()) is Some,
            r matches Some(q) ==> is_request_for(q, *self, Method::Get, list_path())
                && q.body is None && !q.upgrade,
            is_base_endpoint(self.base_url@) ==> (r matches Some(q) && q.url@ == self.base_url@
                + list_path()),
    {
        proof {
            reveal_strlit("v1/language/");
        }
        self.create(Method::Get, "v1/language/")
    }

    /// `POST v1/language/{router}/chat` with the request's JSON body.
    pub fn chat_request(&self, router: &str, data: &ChatRequest) -> (r: Option<OutgoingRequest>)
        ensures
            r is Some <==> joined_url(self.base_url@, chat_path(router@)) is Some,
            r matches Some(q) ==> is_request_for(q, *self, Method::Post, chat_path(router@))
                && (q.body matches Some(b) && b@ == request_json(*data)) && !q.upgrade,
            is_base_endpoint(self.base_url@) && is_relative_path(router@) ==> (r matches Some(q)
                && q.url@ == self.base_url@ + chat_path(router@)),
    {
        let path = router_path(router, "/chat");
        proof {
            if is_relative_path(router@) {
                assert(is_relative_path(path@)) by {
                    reveal_strlit("v1/language/");
                    reveal_strlit("/chat");
                    assert forall|i: int| 0 <= i < path@.len() implies is_plain_path_char(
                        #[trigger] path@[i],
                    ) by {
                        if 12 <= i < 12 + router@.len() {
                            assert(path@[i] == router@[i - 12]);
                        }
                    }
                    assert forall|i: int| 0 <= i < path@.len() && #[trigger] path@[i] == '.' implies i
                        > 0 && path@[i - 1] != '/' by {
                        if 12 <= i < 12 + router@.len() {
                            assert(path@[i] == router@[i - 12]);
                            assert(router@[i - 12] == '.');
                            if i > 12 {
                                assert(path@[i - 1] == router@[i - 13]);
                            }
                        }
                    }
                }
            }
        }
        match self.create(Method::Post, path.as_str()) {
            Some(q) => Some(OutgoingRequest { body: Some(data.to_json()), ..q }),
            None => None,
        }
    }

    /// `GET v1/language/{router}/chatStream`, asking for a WebSocket upgrade.
    pub fn stream_request(&self, router: &str) -> (r: Option<OutgoingRequest>)
        ensures
            r is Some <==> joined_url(self.base_url@, stream_path(router@)) is Some,
            r matches Some(q) ==> is_request_for(q, *self, Method::Get, stream_path(router@))
                && q.body is None && q.upgrade,
            is_base_endpoint(self.base_url@) && is_relative_path(router@) ==> (r matches Some(q)
                && q.url@ == self.base_url@ + stream_path(router@)),
    {
        let path = router_path(router, "/chatStream");
        proof {
            if is_relative_path(router@) {
                assert(is_relative_path(path@)) by {
                    reveal_strlit("v1/language/");
                    reveal_strlit("/chatStream");
                    assert forall|i: int| 0 <= i < path@.len() implies is_plain_path_char(
                        #[trigger] path@[i],
                    ) by {
                        if 12 <= i < 12 + router@.len() {
                            assert(path@[i] == router@[i - 12]);
                        }
                    }
                    assert forall|i: int| 0 <= i < path@.len() && #[trigger] path@[i] == '.' implies i
                        > 0 && path@[i - 1] != '/' by {
                        if 12 <= i < 12 + router@.len() {
                            assert(path@[i] == router@[i - 12]);
                            assert(router@[i - 12] == '.');
                            if i > 12 {
                                assert(path@[i - 1] == router@[i - 13]);
                            }
                        }
                    }
                }
            }
        }
        match self.create(Method::Get, path.as_str()) {
            Some(q) => Some(OutgoingRequest { upgrade: true, ..q }),
            None => None,
        }
    }
}

/// The health reply: `{"healthy": bool}`; anything else is a decode error.
pub fn health_from_json(j: &Json) -> (r: Result<bool, Error>)
    ensures
        match boolean(field(*j, "healthy"@)) {
            Some(b) => r == Ok::<bool, Error>(b),
            None => r matches Err(Error::Decode(_)),
        },
{
    match bool_member(j, "healthy") {
        Some(b) => Ok(b),
        None => Err(Error::Decode(String::from_str("unexpected health reply shape"))),
    }
}

/// The health reply, from the body text of a successful reply.
pub fn decode_health(text: &str) -> (r: Result<bool, Error>)
    ensures
        !json_text_parses(text@) ==> r matches Err(Error::Decode(_)),
        json_text_parses(text@) ==> match boolean(field(json_of(text@), "healthy"@)) {
            Some(b) => r == Ok::<bool, Error>(b),
            None => r matches Err(Error::Decode(_)),
        },
{
    match Json::parse(text) {
        Ok(j) => health_from_json(&j),
        Err(m) => Err(Error::Decode(m)),
    }
}

} // verus!
