//! The states of external entities: which requests a poll makes, what a
//! response says, and how polled states enter the cache.
//!
//! Sending the requests is done outside this library, in parallel; a
//! request that fails simply contributes nothing.

use vstd::prelude::*;
use crate::strings::{concat2, concat3, owned};
use crate::table::StringMap;
use serde_json::Value;

verus! {

/// Seconds after which a state request is given up.
pub const FETCH_TIMEOUT_SECS: u64 = 3;

/// The address of the state source where none is configured.
pub fn default_base_url() -> (url: &'static str)
    ensures
        url@ == "http://homeassistant.local:8123"@,
{
    "http://homeassistant.local:8123"
}

/// One request of a poll.
#[derive(Debug, Clone, PartialEq, Eq)]
pub struct StateRequest {
    /// The entity asked about.
    pub entity: String,
    /// The address to get.
    pub url: String,
}

/// The requests of a poll and the credential they carry.
#[derive(Debug, Clone, PartialEq, Eq)]
pub struct FetchPlan {
    /// One request per entity, in the order of the entities.
    pub requests: Vec<StateRequest>,
    /// The value of the `Authorization` header.
    pub authorization: String,
}

/// The address at which the state of `entity` is found.
pub open spec fn state_url(base: Seq<char>, entity: Seq<char>) -> Seq<char> {
    base + "/api/states/"@ + entity
}

/// The base address to use: the configured one, else the default.
pub open spec fn base_or_default(base_url: Option<&str>) -> Seq<char> {
    match base_url {
        Some(url) => url@,
        None => "http://homeassistant.local:8123"@,
    }
}

/// Whether a poll is made at all: only for some entity, and only with a
/// credential that is not empty.
pub open spec fn polls(entities: Seq<String>, token: Option<&str>) -> bool {
    entities.len() > 0 && token is Some && token.unwrap()@.len() > 0
}

/// Plans a poll of the given entities. Without entities or without a
/// credential there is nothing to ask, and the poll's result is empty.
pub fn plan_fetch(entities: &Vec<String>, token: Option<&str>, base_url: Option<&str>) -> (plan:
    Option<FetchPlan>)
    ensures
        plan is Some == polls(entities@, token),
        plan matches Some(p) ==> {
            &&& p.authorization@ == "Bearer "@ + token.unwrap()@
            &&& p.requests@.len() == entities@.len()
            &&& forall|i: int|
                0 <= i < entities@.len() ==> (#[trigger] p.requests@[i]).entity@ == entities@[i]@
                    && p.requests@[i].url@ == state_url(base_or_default(base_url), entities@[i]@)
        },
{
    if entities.len() == 0 {
        return None;
    }
    let token: &str = match token {
        Some(t) => t,
        None => {
            return None;
        },
    };
    if token.is_empty() {
        return None;
    }
    let base: &str = match base_url {
        Some(url) => url,
        None => default_base_url(),
    };
    let mut requests: Vec<StateRequest> = Vec::new();
    let mut i: usize = 0;
    while i < entities.len()
        invariant
            i <= entities@.len(),
            requests@.len() == i,
            base@ == base_or_default(base_url),
            forall|j: int|
                0 <= j < i ==> (#[trigger] requests@[j]).entity@ == entities@[j]@
                    && requests@[j].url@ == state_url(base_or_default(base_url), entities@[j]@),
        decreases entities@.len() - i,
    {
        let entity = entities[i].clone();
        let url = concat3(base, "/api/states/", entity.as_str());
        requests.push(StateRequest { entity, url });
        i += 1;
    }
    Some(FetchPlan { requests, authorization: concat2("Bearer ", token) })
}

/// The text that a JSON document holds under `field`: the document is a
/// JSON object, it has the field, and the field's value is a string.
/// `None` for every other sequence of bytes.
pub uninterp spec fn json_text_field(body: Seq<u8>, field: Seq<char>) -> Option<Seq<char>>;

/// Calls `serde_json::from_slice` for a `serde_json::Value`, then
/// `Value::get` with the field's name and `Value::as_str`, and copies the
/// string. The result depends on the bytes and the name alone.
#[verifier::external_body]
fn text_field(body: &[u8], field: &str) -> (text: Option<String>)
    ensures
        match text {
            Some(t) => json_text_field(body@, field@) == Some(t@),
            None => json_text_field(body@, field@) is None,
        },
{
    let value: Value = serde_json::from_slice(body).ok()?;
    value.get(field)?.as_str().map(|s| s.to_string())
}

/// What a response says of its entity, given the text of the response's
/// state field: the entity's state where the request succeeded and the
/// field is there.
pub open spec fn reported(entity: Seq<char>, success: bool, state: Option<Seq<char>>) -> Option<
    (Seq<char>, Seq<char>),
> {
    if success {
        match state {
            Some(s) => Some((entity, s)),
            None => None,
        }
    } else {
        None
    }
}

/// An optional pair of strings as a mathematical value.
pub open spec fn pair_view(pair: Option<(String, String)>) -> Option<(Seq<char>, Seq<char>)> {
    match pair {
        Some((a, b)) => Some((a@, b@)),
        None => None,
    }
}

/// Pairs an entity with the state that its response reported, if the
/// request succeeded and reported one.
pub fn report(entity: &str, success: bool, state: Option<String>) -> (found: Option<
    (String, String),
>)
    ensures
        pair_view(found) == reported(
            entity@,
            success,
            match state {
                Some(s) => Some(s@),
                None => None,
            },
        ),
{
    if success {
        match state {
            Some(s) => Some((owned(entity), s)),
            None => None,
        }
    } else {
        None
    }
}

/// Reads the response to a state request: where the request succeeded
/// and the body is a JSON object with a string under "state", the entity
/// with that state. Anything else reports nothing.
pub fn read_response(entity: &str, success: bool, body: &[u8]) -> (found: Option<
    (String, String),
>)
    ensures
        pair_view(found) == reported(entity@, success, json_text_field(body@, "state"@)),
{
    if success {
        report(entity, true, text_field(body, "state"))
    } else {
        None
    }
}

/// The states that a list of reports amounts to: each report sets its
/// entity's state, so of two reports on one entity the later one stays.
pub open spec fn collected(found: Seq<Option<(String, String)>>) -> Map<Seq<char>, Seq<char>>
    decreases found.len(),
{
    if found.len() == 0 {
        Map::empty()
    } else {
        let before = collected(found.drop_last());
        match found.last() {
            Some((entity, state)) => before.insert(entity@, state@),
            None => before,
        }
    }
}

/// Gathers the reports of a poll into a table of states.
pub fn collect_states(found: &Vec<Option<(String, String)>>) -> (states: StringMap<String>)
    ensures
        states.texts() == collected(found@),
{
    let mut states: StringMap<String> = StringMap::new();
    assert(states.texts() =~= Map::<Seq<char>, Seq<char>>::empty());
    let mut i: usize = 0;
    while i < found.len()
        invariant
            i <= found@.len(),
            states.texts() == collected(found@.take(i as int)),
        decreases found@.len() - i,
    {
        proof {
            assert(found@.take(i + 1).drop_last() == found@.take(i as int));
            assert(found@.take(i + 1).last() == found@[i as int]);
        }
        match &found[i] {
            Some((entity, state)) => {
                states.set_text(entity.clone(), state.clone());
            },
            None => {},
        }
        i += 1;
    }
    assert(found@.take(found@.len() as int) == found@);
    states
}

/// Takes the states of a poll into the cache, where they overwrite what
/// was cached or predicted, and returns the states to draw from: the
/// cache after that.
pub fn absorb_poll(cache: &mut StringMap<String>, polled: &StringMap<String>) -> (states: StringMap<
    String,
>)
    ensures
        final(cache).texts() == old(cache).texts().union_prefer_right(polled.texts()),
        states.texts() == final(cache).texts(),
{
    cache.merge_from(polled);
    cache.duplicate()
}

} // verus!
