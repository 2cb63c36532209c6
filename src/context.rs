//! The request-context store: inbound request metadata kept per unit of work,
//! under an explicit key, from `provide` until `clear`.
use vstd::prelude::*;
use dashmap::DashMap;
use crate::text::{join2, owned};

verus! {

#[verifier::external_type_specification]
#[verifier::external_body]
#[verifier::reject_recursive_types(K)]
#[verifier::reject_recursive_types(V)]
#[verifier::reject_recursive_types(S)]
pub struct ExDashMap<K, V, S>(DashMap<K, V, S>);

/// The metadata of one inbound request that business logic may read.
#[derive(Debug, Clone, PartialEq, Eq)]
pub struct RequestParts {
    /// The request method, as sent.
    pub method: String,
    /// The request target (path and query).
    pub uri: String,
    /// Header names and values, in the order received.
    pub headers: Vec<(String, String)>,
}

/// Why an extraction from the store failed.
#[derive(Debug, Clone, PartialEq, Eq)]
pub enum ExtractError {
    /// No request parts were provided under the key.
    MissingParts(String),
    /// The stored parts could not be projected to the wanted value.
    ExtractionFailed(String),
}

/// One change made to the store, as recorded in its history.
#[derive(Debug, Clone, Copy, PartialEq, Eq, Structural)]
pub enum StoreEvent {
    Provide(u64),
    Clear(u64),
}

/// The map behind a store: context key to request parts.
pub type PartsMap = DashMap<u64, RequestParts>;

/// What the map holds, key by key.
pub uninterp spec fn entries_of(m: PartsMap) -> Map<u64, RequestParts>;

/// The empty map of request parts.
pub open spec fn no_parts() -> Map<u64, RequestParts> {
    Map::empty()
}

/// Relies on `DashMap::new`: a new map holds no entry.
#[verifier::external_body]
fn new_entries() -> (r: PartsMap)
    ensures
        entries_of(r) == no_parts(),
{
    DashMap::new()
}

/// Relies on `DashMap::insert`: the key then maps to the value, replacing any earlier one.
#[verifier::external_body]
fn insert_entry(m: &mut PartsMap, key: u64, value: RequestParts)
    ensures
        entries_of(*final(m)) == entries_of(*old(m)).insert(key, value),
{
    m.insert(key, value);
}

/// Relies on `DashMap::remove`: the key then maps to nothing.
#[verifier::external_body]
fn remove_entry(m: &mut PartsMap, key: u64)
    ensures
        entries_of(*final(m)) == entries_of(*old(m)).remove(key),
{
    m.remove(&key);
}

/// Relies on `DashMap::get`: a copy of the value under the key, if there is one.
#[verifier::external_body]
fn get_entry(m: &PartsMap, key: u64) -> (r: Option<RequestParts>)
    ensures
        r == (if entries_of(*m).contains_key(key) {
            Some(entries_of(*m)[key])
        } else {
            None
        }),
{
    match m.get(&key) {
        Some(entry) => Some(entry.value().clone()),
        None => None,
    }
}

/// Per-key store of request metadata. Each key stands for one unit of work;
/// concurrent units of work must use distinct keys.
pub struct RequestStore {
    entries: PartsMap,
    history: Ghost<Seq<StoreEvent>>,
}

impl View for RequestStore {
    type V = Map<u64, RequestParts>;

    closed spec fn view(&self) -> Map<u64, RequestParts> {
        entries_of(self.entries)
    }
}

impl RequestStore {
    /// Every `provide` and `clear` made on this store, oldest first.
    pub closed spec fn events(&self) -> Seq<StoreEvent> {
        self.history@
    }

    /// A store with no entry and no history.
    pub fn new() -> (r: RequestStore)
        ensures
            r@ == Map::<u64, RequestParts>::empty(),
            r.events() == Seq::<StoreEvent>::empty(),
    {
        RequestStore { entries: new_entries(), history: Ghost(Seq::empty()) }
    }
}

/// The message carried by `MissingParts`.
pub open spec fn missing_parts_message() -> Seq<char> {
    "Request parts not found. Make sure provide_request_parts() was called."@
}

/// `r` is the `MissingParts` error with its standard message.
pub open spec fn is_missing_parts<T>(r: Result<T, ExtractError>) -> bool {
    match r {
        Err(ExtractError::MissingParts(m)) => m@ == missing_parts_message(),
        _ => false,
    }
}

/// `r` is what `extract` returns under `key` from a store whose entries are `m`.
pub open spec fn extracted(m: Map<u64, RequestParts>, key: u64, r: Result<RequestParts, ExtractError>) -> bool {
    if m.contains_key(key) {
        r == Ok::<RequestParts, ExtractError>(m[key])
    } else {
        is_missing_parts(r)
    }
}

/// How a projection's own result is reported by `extract_with_state`.
pub open spec fn lift_projection<T>(out: Result<T, String>) -> Result<T, ExtractError> {
    match out {
        Ok(v) => Ok(v),
        Err(e) => Err(ExtractError::ExtractionFailed(e)),
    }
}

fn missing_parts<T>() -> (r: Result<T, ExtractError>)
    ensures
        is_missing_parts(r),
{
    let s = owned("Request parts not found. Make sure provide_request_parts() was called.");
    proof {
        reveal_strlit("Request parts not found. Make sure provide_request_parts() was called.");
    }
    Err(ExtractError::MissingParts(s))
}

/// Stores `parts` under `key` for the unit of work it stands for, replacing
/// any entry already there.
pub fn provide_request_parts(store: &mut RequestStore, key: u64, parts: RequestParts)
    ensures
        final(store)@ == old(store)@.insert(key, parts),
        final(store).events() == old(store).events().push(StoreEvent::Provide(key)),
{
    insert_entry(&mut store.entries, key, parts);
    store.history = Ghost(store.history@.push(StoreEvent::Provide(key)));
}

/// Removes the entry under `key`, if there is one.
pub fn clear_request_parts(store: &mut RequestStore, key: u64)
    ensures
        final(store)@ == old(store)@.remove(key),
        final(store).events() == old(store).events().push(StoreEvent::Clear(key)),
{
    remove_entry(&mut store.entries, key);
    store.history = Ghost(store.history@.push(StoreEvent::Clear(key)));
}

/// A copy of the parts stored under `key`; `MissingParts` if none are.
/// The entry stays in place.
pub fn extract(store: &RequestStore, key: u64) -> (r: Result<RequestParts, ExtractError>)
    ensures
        extracted(store@, key, r),
{
    match get_entry(&store.entries, key) {
        Some(parts) => Ok(parts),
        None => missing_parts(),
    }
}

/// Projects the parts stored under `key` through `project`, which also sees
/// `state`. `MissingParts` if nothing is stored; a projection error becomes
/// `ExtractionFailed` with the projection's message.
pub fn extract_with_state<T, S, F>(store: &RequestStore, key: u64, state: &S, project: F) -> (r:
    Result<T, ExtractError>) where F: FnOnce(RequestParts, &S) -> Result<T, String>
    requires
        forall|p: RequestParts| project.requires((p, state)),
    ensures
        !store@.contains_key(key) ==> is_missing_parts(r),
        store@.contains_key(key) ==> exists|out: Result<T, String>|
            project.ensures((store@[key], state), out) && r == lift_projection(out),
{
    match get_entry(&store.entries, key) {
        None => missing_parts(),
        Some(parts) => {
            let out = project(parts, state);
            let ghost seen = out;
            assert(project.ensures((store@[key], state), seen));
            let r = match out {
                Ok(v) => Ok(v),
                Err(e) => Err(ExtractError::ExtractionFailed(e)),
            };
            assert(r == lift_projection(seen));
            r
        },
    }
}

impl ExtractError {
    /// The human-readable description of the error.
    pub fn message(&self) -> (r: String)
        ensures
            r@ == match self {
                ExtractError::MissingParts(m) => "Missing request parts: "@ + m@,
                ExtractError::ExtractionFailed(m) => "Extraction failed: "@ + m@,
            },
    {
        match self {
            ExtractError::MissingParts(m) => join2("Missing request parts: ", m.as_str()),
            ExtractError::ExtractionFailed(m) => join2("Extraction failed: ", m.as_str()),
        }
    }
}

/// The store's lifecycle for one key: nothing can be extracted before a
/// `provide`, the provided parts come back after it, and nothing again after
/// a `clear`.
pub proof fn lemma_provide_extract_clear(
    m: Map<u64, RequestParts>,
    key: u64,
    parts: RequestParts,
    before: Result<RequestParts, ExtractError>,
    during: Result<RequestParts, ExtractError>,
    after: Result<RequestParts, ExtractError>,
)
    requires
        !m.contains_key(key),
        extracted(m, key, before),
        extracted(m.insert(key, parts), key, during),
        extracted(m.insert(key, parts).remove(key), key, after),
    ensures
        is_missing_parts(before),
        during == Ok::<RequestParts, ExtractError>(parts),
        is_missing_parts(after),
{
}

} // verus!
