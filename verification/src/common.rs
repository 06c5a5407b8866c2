//! The stored form of a Responses API object and the rules that every service
//! applies to it: keys, identifiers, status checks and the objects built from requests.
use vstd::prelude::*;

use crate::json::{
    field, fields, indexable, is_empty_array, same_fields_except, text_field, Json, JsonObject,
};
use crate::text::{
    ascii_lower, ascii_lowercase, chars_of, char_ascii_lower, char_is_ascii_alnum, has_prefix,
    is_ascii_alnum, opt_text, owned, parse_u64, same_text, to_ascii_lowercase, unsigned_decimal,
};

verus! {

/// A Responses API object as the response store keeps it.
#[derive(Debug)]
pub struct StoredResponse {
    /// Base URL of the model upstream that serves the response.
    pub upstream: String,
    /// The response object returned to clients.
    pub response: Json,
    /// The materialized conversation input.
    pub input: Vec<Json>,
    /// The request still to be sent upstream, while a background response waits.
    pub pending_upstream_request: Option<Json>,
    /// The authorization header to forward upstream with the pending request.
    pub upstream_authorization: Option<String>,
    /// Unix seconds at which a background response was queued.
    pub enqueued_at: Option<i64>,
}

/// Where the response store lives and how it names and keeps its entries.
pub struct ResponseStoreConfig {
    pub url: String,
    pub key_prefix: String,
    pub ttl_seconds: u64,
}

/// The store key of a response: the prefix, a colon, then the response id.
pub open spec fn store_key(prefix: Seq<char>, response_id: Seq<char>) -> Seq<char> {
    prefix + ":"@ + response_id
}

/// The store key of `response_id` under `prefix`.
pub fn response_store_key(prefix: &str, response_id: &str) -> (key: String)
    ensures
        key@ == store_key(prefix@, response_id@),
{
    let mut key = owned(prefix);
    key.push_str(":");
    key.push_str(response_id);
    key
}

impl ResponseStoreConfig {
    /// The store settings from the values of `RESPONSE_ID_STORE_URL`,
    /// `RESPONSE_ID_STORE_KEY_PREFIX` and `RESPONSE_ID_STORE_TTL_SECONDS`;
    /// an absent or unreadable value falls back to its default.
    pub fn from_env_values(url: Option<&str>, key_prefix: Option<&str>, ttl_seconds: Option<&str>) -> (c: ResponseStoreConfig)
        ensures
            c.url@ == (match url { Some(u) => u@, None => "redis://valkey:6379"@ }),
            c.key_prefix@ == (match key_prefix { Some(p) => p@, None => "duihua:responses"@ }),
            c.ttl_seconds == (match ttl_seconds {
                Some(t) => if unsigned_decimal(t@) is Some && unsigned_decimal(t@)->0 <= u64::MAX {
                    unsigned_decimal(t@)->0 as u64
                } else {
                    86_400
                },
                None => 86_400,
            }),
    {
        let url = match url {
            Some(u) => owned(u),
            None => owned("redis://valkey:6379"),
        };
        let key_prefix = match key_prefix {
            Some(p) => owned(p),
            None => owned("duihua:responses"),
        };
        let ttl_seconds = match ttl_seconds {
            Some(t) => match parse_u64(t) {
                Some(v) => v,
                None => 86_400,
            },
            None => 86_400,
        };
        ResponseStoreConfig { url, key_prefix, ttl_seconds }
    }

    /// The store key of `response_id`.
    pub fn key(&self, response_id: &str) -> (key: String)
        ensures
            key@ == store_key(self.key_prefix@, response_id@),
    {
        response_store_key(self.key_prefix.as_str(), response_id)
    }
}

/// The prefix that every Responses API id starts with.
pub open spec fn response_prefix() -> Seq<char> {
    seq!['r', 'e', 's', 'p', '_']
}

/// `id` is a Responses API id.
pub open spec fn is_response_id(id: Seq<char>) -> bool {
    response_prefix().is_prefix_of(id)
}

/// The Responses API id that a response object, or a streaming event that wraps one
/// under `response`, carries.
pub open spec fn response_id_in(value: Json) -> Option<Seq<char>> {
    let direct = text_field(value, "id"@);
    if direct is Some && is_response_id(direct->0) {
        direct
    } else {
        let nested = match field(value, "response"@) {
            Some(inner) => text_field(inner, "id"@),
            None => None,
        };
        if nested is Some && is_response_id(nested->0) {
            nested
        } else {
            None
        }
    }
}

/// Whether `s` starts with `resp_`.
fn starts_with_response_prefix(s: &str) -> (r: bool)
    ensures
        r == is_response_id(s@),
{
    proof {
        reveal_strlit("resp_");
    }
    has_prefix(s, "resp_")
}

/// The Responses API id of a response object or of a streaming event that wraps one.
pub fn response_id_from_value(value: &Json) -> (r: Option<String>)
    ensures
        opt_text(r) == response_id_in(*value),
{
    if let Some(id) = value.get("id") {
        if let Some(s) = id.as_str() {
            if starts_with_response_prefix(s) {
                return Some(owned(s));
            }
        }
    }
    if let Some(inner) = value.get("response") {
        if let Some(id) = inner.get("id") {
            if let Some(s) = id.as_str() {
                if starts_with_response_prefix(s) {
                    return Some(owned(s));
                }
            }
        }
    }
    None
}

/// The status of a stored response object.
pub open spec fn status_of(stored: StoredResponse) -> Option<Seq<char>> {
    text_field(stored.response, "status"@)
}

/// The status string of the stored response object.
pub fn stored_response_status(stored: &StoredResponse) -> (r: Option<&str>)
    ensures
        match r {
            Some(s) => status_of(*stored) == Some(s@),
            None => status_of(*stored) is None,
        },
{
    match stored.response.get("status") {
        Some(v) => v.as_str(),
        None => None,
    }
}

/// Whether the stored status is `status`.
pub fn has_status(stored: &StoredResponse, status: &str) -> (r: bool)
    ensures
        r == (status_of(*stored) == Some(status@)),
{
    match stored_response_status(stored) {
        Some(s) => same_text(s, status),
        None => false,
    }
}

/// A background response that still waits for, or is being served by, a worker.
pub open spec fn in_flight(stored: StoredResponse) -> bool {
    stored.pending_upstream_request is Some || status_of(stored) == Some("queued"@) || status_of(stored)
        == Some("in_progress"@)
}

/// Whether a background response is still in flight.
pub fn is_in_flight_background(stored: &StoredResponse) -> (r: bool)
    ensures
        r == in_flight(*stored),
{
    stored.pending_upstream_request.is_some() || has_status(stored, "queued") || has_status(stored, "in_progress")
}

/// `c` is a lower-case hexadecimal digit.
pub open spec fn is_lower_hex(c: char) -> bool {
    ('0' <= c && c <= '9') || ('a' <= c && c <= 'f')
}

/// `c` is a hexadecimal digit of the RFC 4122 variant: `8`, `9`, `a` or `b`.
pub open spec fn is_rfc4122_variant_digit(c: char) -> bool {
    c == '8' || c == '9' || c == 'a' || c == 'b'
}

/// `uuid::Uuid::new_v4` written in its simple form: 32 lower-case hexadecimal digits
/// of a random version 4 UUID, whose thirteenth digit is the version, `4`, and whose
/// seventeenth holds the RFC 4122 variant. Which random digits come is not stated.
#[verifier::external_body]
fn new_uuid_v4_simple() -> (s: String)
    ensures
        s@.len() == 32,
        forall|i: int| 0 <= i < 32 ==> is_lower_hex(#[trigger] s@[i]),
        s@[12] == '4',
        is_rfc4122_variant_digit(s@[16]),
{
    uuid::Uuid::new_v4().simple().to_string()
}

/// A fresh Responses API id: `resp_` followed by the 32 hexadecimal digits of a random
/// version 4 UUID.
pub fn generate_response_id() -> (id: String)
    ensures
        is_response_id(id@),
        id@.len() == 37,
        forall|i: int| 5 <= i < 37 ==> is_lower_hex(#[trigger] id@[i]),
        id@[17] == '4',
        is_rfc4122_variant_digit(id@[21]),
{
    let suffix = new_uuid_v4_simple();
    let mut id = owned("resp_");
    id.push_str(suffix.as_str());
    proof {
        reveal_strlit("resp_");
        assert(response_prefix() =~= id@.subrange(0, 5));
        assert forall|i: int| 5 <= i < 37 implies is_lower_hex(#[trigger] id@[i]) by {
            assert(id@[i] == suffix@[i - 5]);
        }
    }
    id
}

/// The keys that response objects are built from are pairwise distinct.
pub proof fn lemma_response_keys_distinct()
    ensures
        "id"@ != "object"@,
        "id"@ != "status"@,
        "id"@ != "model"@,
        "id"@ != "background"@,
        "id"@ != "output"@,
        "id"@ != "input"@,
        "id"@ != "error"@,
        "id"@ != "deleted"@,
        "object"@ != "status"@,
        "object"@ != "model"@,
        "object"@ != "background"@,
        "object"@ != "output"@,
        "object"@ != "input"@,
        "object"@ != "error"@,
        "object"@ != "deleted"@,
        "status"@ != "model"@,
        "status"@ != "background"@,
        "status"@ != "output"@,
        "status"@ != "input"@,
        "status"@ != "error"@,
        "status"@ != "deleted"@,
        "model"@ != "background"@,
        "model"@ != "output"@,
        "model"@ != "input"@,
        "background"@ != "output"@,
        "background"@ != "input"@,
        "background"@ != "error"@,
        "background"@ != "deleted"@,
        "output"@ != "input"@,
        "error"@ != "deleted"@,
        "message"@ != "type"@,
{
    reveal_strlit("id");
    reveal_strlit("object");
    reveal_strlit("status");
    reveal_strlit("model");
    reveal_strlit("background");
    reveal_strlit("output");
    reveal_strlit("input");
    reveal_strlit("error");
    reveal_strlit("deleted");
    reveal_strlit("message");
    reveal_strlit("type");
    assert("id"@.len() == 2);
    assert("background"@.len() == 10);
    assert("input"@.len() == 5);
    assert("status"@[0] != "output"@[0]);
    assert("object"@[0] != "output"@[1]);
    assert("object"@[1] != "output"@[1]);
    assert("status"@[0] != "deleted"@[0]);
    assert("status"@[0] != "object"@[0]);
    assert("output"@[0] != "deleted"@[0]);
    assert("object"@[0] != "deleted"@[0]);
    assert("model"@[0] != "input"@[0]);
    assert("model"@[0] != "error"@[0]);
    assert("error"@[0] != "input"@[0]);
    assert("message"@[0] != "type"@[0]);
}

/// The keys of a queued response object, besides `input`.
pub open spec fn queued_response_keys() -> Set<Seq<char>> {
    set!["id"@, "object"@, "status"@, "model"@, "background"@, "output"@]
}

/// The `queued` response object returned for a background request. The request's
/// `input`, when it has one, moves into the response.
pub fn build_queued_response(response_id: &str, model: &str, request: Json) -> (r: Json)
    ensures
        r is Object,
        fields(r).dom() == (if field(request, "input"@) is Some {
            queued_response_keys().insert("input"@)
        } else {
            queued_response_keys()
        }),
        text_field(r, "id"@) == Some(response_id@),
        text_field(r, "object"@) == Some("response"@),
        text_field(r, "status"@) == Some("queued"@),
        text_field(r, "model"@) == Some(model@),
        field(r, "background"@) == Some(Json::Bool(true)),
        field(r, "output"@) matches Some(output) && is_empty_array(output),
        field(request, "input"@) is Some ==> field(r, "input"@) == field(request, "input"@),
{
    proof {
        reveal_strlit("id");
        reveal_strlit("object");
        reveal_strlit("status");
        reveal_strlit("model");
        reveal_strlit("background");
        reveal_strlit("output");
        reveal_strlit("input");
    }
    let ghost req = request;
    let input = match request {
        Json::Object(mut o) => o.remove("input"),
        _ => None,
    };
    let id_value = Json::text(response_id);
    let object_value = Json::text("response");
    let status_value = Json::text("queued");
    let model_value = Json::text(model);
    let ghost (idv, objv, stv, mv) = (id_value, object_value, status_value, model_value);
    let mut o = JsonObject::new();
    o.insert(owned("id"), id_value);
    o.insert(owned("object"), object_value);
    o.insert(owned("status"), status_value);
    o.insert(owned("model"), model_value);
    o.insert(owned("background"), Json::Bool(true));
    o.insert(owned("output"), Json::Array(Vec::new()));
    proof {
        lemma_response_keys_distinct();
    }
    assert(o@["id"@] == idv);
    assert(o@["object"@] == objv);
    assert(o@["status"@] == stv);
    assert(o@["model"@] == mv);
    match input {
        Some(v) => {
            o.insert(owned("input"), v);
            assert(o@.dom() =~= queued_response_keys().insert("input"@));
        },
        None => {
            assert(o@.dom() =~= queued_response_keys());
        },
    }
    Json::Object(o)
}

/// The request sent upstream for a background response: a stateless copy of the client
/// request, without `background` and `previous_response_id`, with `store` set to false.
pub fn build_upstream_request(request: Json) -> (r: Json)
    ensures
        match request {
            Json::Object(o) => r is Object && fields(r) == o@.remove("background"@).remove(
                "previous_response_id"@,
            ).insert("store"@, Json::Bool(false)),
            _ => r == request,
        },
{
    match request {
        Json::Object(mut o) => {
            o.remove("background");
            o.remove("previous_response_id");
            o.insert(owned("store"), Json::Bool(false));
            Json::Object(o)
        },
        other => other,
    }
}

/// The response object of a cancelled background response: the stored object with
/// its id, status `cancelled` and `background: true` written over it.
pub fn build_cancelled_response(stored: StoredResponse, response_id: &str) -> (r: Json)
    requires
        indexable(stored.response),
    ensures
        r is Object,
        text_field(r, "id"@) == Some(response_id@),
        text_field(r, "status"@) == Some("cancelled"@),
        field(r, "background"@) == Some(Json::Bool(true)),
        same_fields_except(r, stored.response, set!["id"@, "status"@, "background"@]),
{
    proof {
        reveal_strlit("id");
        reveal_strlit("status");
        reveal_strlit("background");
    }
    let id_value = Json::text(response_id);
    let status_value = Json::text("cancelled");
    let ghost (idv, stv) = (id_value, status_value);
    proof {
        lemma_response_keys_distinct();
    }
    let response = stored.response;
    let response = response.with_field(owned("id"), id_value);
    let response = response.with_field(owned("status"), status_value);
    let r = response.with_field(owned("background"), Json::Bool(true));
    assert(fields(r)["id"@] == idv);
    assert(fields(r)["status"@] == stv);
    r
}

/// `id` with every leading `resp_` taken off, as `trim_start_matches` does.
pub open spec fn strip_response_prefixes(id: Seq<char>) -> Seq<char>
    decreases id.len(),
{
    if response_prefix().is_prefix_of(id) {
        strip_response_prefixes(id.skip(5))
    } else {
        id
    }
}

/// The character a job name holds in place of `c`: ASCII letters and digits in lower
/// case, a hyphen for anything else.
pub open spec fn job_name_char(c: char) -> char {
    if is_ascii_alnum(c) {
        ascii_lower(c)
    } else {
        '-'
    }
}

/// The longest name a Kubernetes object may have.
pub open spec fn max_job_name_len() -> int {
    63
}

/// The name of the background job that serves `id`: `duihua-bg-` followed by the id
/// without its `resp_` prefixes, in job-name characters, cut to 63 characters.
pub open spec fn job_name_of(id: Seq<char>) -> Seq<char> {
    let full = "duihua-bg-"@ + strip_response_prefixes(id).map_values(|c: char| job_name_char(c));
    if full.len() <= max_job_name_len() {
        full
    } else {
        full.take(max_job_name_len())
    }
}

/// Whether `v` holds `resp_` from position `at` on.
fn response_prefix_at(v: &Vec<char>, at: usize) -> (r: bool)
    requires
        at <= v@.len(),
    ensures
        r == response_prefix().is_prefix_of(v@.skip(at as int)),
{
    if v.len() - at < 5 {
        return false;
    }
    let r = v[at] == 'r' && v[at + 1] == 'e' && v[at + 2] == 's' && v[at + 3] == 'p' && v[at + 4] == '_';
    proof {
        if r {
            assert(response_prefix() =~= v@.skip(at as int).subrange(0, 5));
        } else {
            let w = v@.skip(at as int);
            if response_prefix().is_prefix_of(w) {
                assert(w[0] == 'r' && w[1] == 'e' && w[2] == 's' && w[3] == 'p' && w[4] == '_');
            }
        }
    }
    r
}

/// The character a job name holds in place of `c`.
fn job_char(c: char) -> (r: char)
    ensures
        r == job_name_char(c),
{
    if char_is_ascii_alnum(c) {
        char_ascii_lower(c)
    } else {
        '-'
    }
}

/// The name of the background job that serves `response_id`.
pub fn background_job_name(response_id: &str) -> (name: String)
    ensures
        name@ == job_name_of(response_id@),
{
    let v = chars_of(response_id);
    let mut start: usize = 0;
    assert(v@.skip(0) =~= v@);
    while response_prefix_at(&v, start)
        invariant
            v@ == response_id@,
            start <= v@.len(),
            strip_response_prefixes(response_id@) == strip_response_prefixes(v@.skip(start as int)),
        decreases v@.len() - start,
    {
        proof {
            assert(response_prefix().len() == 5);
            assert(v@.skip(start as int).len() >= 5);
            assert(start + 5 <= v.len());
            assert(v@.skip(start as int).skip(5) =~= v@.skip(start + 5));
        }
        start = start + 5;
    }
    let ghost stripped = v@.skip(start as int);
    let ghost full = "duihua-bg-"@ + stripped.map_values(|c: char| job_name_char(c));
    proof {
        reveal_strlit("duihua-bg-");
        assert(strip_response_prefixes(response_id@) == stripped);
    }
    let mut name = owned("duihua-bg-");
    let mut count: usize = 10;
    let mut i: usize = start;
    while i < v.len() && count < 63
        invariant
            v@ == response_id@,
            start <= i <= v@.len(),
            count == 10 + (i - start),
            count <= 63,
            stripped == v@.skip(start as int),
            full == "duihua-bg-"@ + stripped.map_values(|c: char| job_name_char(c)),
            "duihua-bg-"@.len() == 10,
            name@ == full.take(count as int),
        decreases v@.len() - i,
    {
        let c = job_char(v[i]);
        proof {
            assert(full[count as int] == job_name_char(v@[i as int]));
        }
        name.push(c);
        i = i + 1;
        count = count + 1;
        assert(name@ =~= full.take(count as int));
    }
    proof {
        if i == v.len() {
            assert(full.len() == count);
            assert(full.take(count as int) =~= full);
        } else {
            assert(full.len() >= 63);
        }
    }
    name
}

/// What a boolean setting reads as: `1`, `true`, `yes` and `on` are true, `0`, `false`,
/// `no` and `off` are false, in any ASCII case; anything else, or no value, is `default`.
pub open spec fn bool_setting(value: Option<Seq<char>>, default: bool) -> bool {
    match value {
        Some(v) => {
            let l = ascii_lowercase(v);
            if l == "1"@ || l == "true"@ || l == "yes"@ || l == "on"@ {
                true
            } else if l == "0"@ || l == "false"@ || l == "no"@ || l == "off"@ {
                false
            } else {
                default
            }
        },
        None => default,
    }
}

/// The value of a boolean setting such as `RESPONSES_API_STORE_ENABLED`.
pub fn parse_bool_setting(value: Option<&str>, default: bool) -> (r: bool)
    ensures
        r == bool_setting(
            match value {
                Some(v) => Some(v@),
                None => None,
            },
            default,
        ),
{
    match value {
        Some(v) => {
            let l = to_ascii_lowercase(v);
            let l = l.as_str();
            if same_text(l, "1") || same_text(l, "true") || same_text(l, "yes") || same_text(l, "on") {
                true
            } else if same_text(l, "0") || same_text(l, "false") || same_text(l, "no") || same_text(l, "off") {
                false
            } else {
                default
            }
        },
        None => default,
    }
}

} // verus!
