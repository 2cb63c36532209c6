//! What a generated server handler does with one inbound request: provide its
//! metadata, run the business logic on the decoded parameters, and clear the
//! metadata on every way out.
use vstd::prelude::*;
use crate::context::{
    RequestParts, RequestStore, StoreEvent, clear_request_parts, provide_request_parts,
};
use crate::method::Encoding;
use crate::text::join2;

verus! {

/// The result of handling one request.
#[derive(Debug, Clone, PartialEq, Eq)]
pub enum HandlerOutcome<O, E> {
    /// The parameters could not be decoded; carries the message for a 400 response.
    BadRequest(String),
    /// The business logic succeeded with this payload.
    Success(O),
    /// The business logic failed with this error, left to the framework to map.
    Failure(E),
}

/// The status sent for a decode failure.
pub const BAD_REQUEST: u16 = 400;

/// The status sent with a success payload.
pub const OK: u16 = 200;

/// The message of a 400 response, for the encoding that failed to decode.
pub open spec fn decode_failure_message(encoding: Encoding, detail: Seq<char>) -> Seq<char> {
    match encoding {
        Encoding::QueryString => "Invalid query parameters: "@ + detail,
        Encoding::BodyJson => "Invalid request: "@ + detail,
    }
}

/// Builds the message of a 400 response from the decoder's own message.
pub fn decode_failure(encoding: Encoding, detail: &str) -> (r: String)
    ensures
        r@ == decode_failure_message(encoding, detail@),
        r@.len() > 0,
{
    proof {
        reveal_strlit("Invalid query parameters: ");
        reveal_strlit("Invalid request: ");
    }
    match encoding {
        Encoding::QueryString => join2("Invalid query parameters: ", detail),
        Encoding::BodyJson => join2("Invalid request: ", detail),
    }
}

impl<O, E> HandlerOutcome<O, E> {
    /// The HTTP status this outcome is sent with, where the handler decides it;
    /// `None` for a business error, whose mapping belongs to the framework.
    pub fn status(&self) -> (r: Option<u16>)
        ensures
            r == match self {
                HandlerOutcome::BadRequest(_) => Some(BAD_REQUEST),
                HandlerOutcome::Success(_) => Some(OK),
                HandlerOutcome::Failure(_) => None::<u16>,
            },
    {
        match self {
            HandlerOutcome::BadRequest(_) => Some(BAD_REQUEST),
            HandlerOutcome::Success(_) => Some(OK),
            HandlerOutcome::Failure(_) => None,
        }
    }
}

/// How the business logic's own result is reported.
pub open spec fn outcome_of<O, E>(out: Result<O, E>) -> HandlerOutcome<O, E> {
    match out {
        Ok(v) => HandlerOutcome::Success(v),
        Err(e) => HandlerOutcome::Failure(e),
    }
}

/// How many times `key` was cleared in a store history.
pub open spec fn clears_of(events: Seq<StoreEvent>, key: u64) -> nat
    decreases events.len(),
{
    if events.len() == 0 {
        0
    } else {
        clears_of(events.drop_last(), key) + if events.last() == StoreEvent::Clear(key) {
            1nat
        } else {
            0nat
        }
    }
}

/// The context entry of one request in flight. It is made only by
/// `open_scope` and consumed by `close_scope`, so an entry that was provided
/// is cleared at most once; a handler closes it on every way out.
pub struct RequestScope {
    key: u64,
}

impl RequestScope {
    /// The key the request's metadata is stored under.
    pub closed spec fn spec_key(&self) -> u64 {
        self.key
    }

    /// The key the request's metadata is stored under.
    pub fn key(&self) -> (r: u64)
        ensures
            r == self.spec_key(),
    {
        self.key
    }
}

/// Starts handling a request: its metadata is provided under `key` before
/// anything else runs.
pub fn open_scope(store: &mut RequestStore, key: u64, parts: RequestParts) -> (r: RequestScope)
    ensures
        r.spec_key() == key,
        final(store)@ == old(store)@.insert(key, parts),
        final(store).events() == old(store).events().push(StoreEvent::Provide(key)),
{
    provide_request_parts(store, key, parts);
    RequestScope { key }
}

/// Ends handling a request: its metadata is cleared.
pub fn close_scope(store: &mut RequestStore, scope: RequestScope)
    ensures
        final(store)@ == old(store)@.remove(scope.spec_key()),
        final(store).events() == old(store).events().push(StoreEvent::Clear(scope.spec_key())),
{
    clear_request_parts(store, scope.key);
}

/// Checks the decoded parameters: the parameters to run the logic on, or
/// the 400 outcome that ends the request without running it.
pub fn decode_step<P, O, E>(encoding: Encoding, decoded: Result<P, String>) -> (r: Result<
    P,
    HandlerOutcome<O, E>,
>)
    ensures
        match decoded {
            Ok(p) => r == Ok::<P, HandlerOutcome<O, E>>(p),
            Err(detail) => r matches Err(HandlerOutcome::BadRequest(m)) && m@
                == decode_failure_message(encoding, detail@) && m@.len() > 0,
        },
{
    match decoded {
        Ok(p) => Ok(p),
        Err(detail) => Err(HandlerOutcome::BadRequest(decode_failure(encoding, detail.as_str()))),
    }
}

/// Reports the business logic's own result.
pub fn settle<O, E>(out: Result<O, E>) -> (r: HandlerOutcome<O, E>)
    ensures
        r == outcome_of(out),
{
    match out {
        Ok(v) => HandlerOutcome::Success(v),
        Err(e) => HandlerOutcome::Failure(e),
    }
}

/// Handles one request under `key`. `parts` is the request's metadata and
/// `decoded` the parameter container as the decoder for `encoding` produced it.
/// The metadata is provided before anything else and cleared exactly once on
/// the way out, whether decoding failed or the logic succeeded or failed; the
/// logic runs only on decoded parameters and sees the metadata in the store.
pub fn handle_request<P, O, E, F>(
    store: &mut RequestStore,
    key: u64,
    parts: RequestParts,
    encoding: Encoding,
    decoded: Result<P, String>,
    logic: F,
) -> (r: HandlerOutcome<O, E>) where F: FnOnce(&RequestStore, P) -> Result<O, E>
    requires
        forall|s: &RequestStore, p: P| logic.requires((s, p)),
    ensures
        final(store)@ == old(store)@.insert(key, parts).remove(key),
        final(store).events() == old(store).events() + seq![
            StoreEvent::Provide(key),
            StoreEvent::Clear(key),
        ],
        clears_of(final(store).events(), key) == clears_of(old(store).events(), key) + 1,
        match decoded {
            Err(detail) => r matches HandlerOutcome::BadRequest(m) && m@ == decode_failure_message(
                encoding,
                detail@,
            ) && m@.len() > 0,
            Ok(p) => exists|s: RequestStore, out: Result<O, E>|
                s@ == old(store)@.insert(key, parts) && logic.ensures((&s, p), out) && r
                    == outcome_of(out),
        },
{
    let ghost start = store.events();
    let scope = open_scope(store, key, parts);
    let r = match decode_step(encoding, decoded) {
        Err(bad) => bad,
        Ok(p) => {
            let ghost gp = p;
            let out = logic(&*store, p);
            let ghost seen = out;
            assert(logic.ensures((&*store, gp), seen));
            settle(out)
        },
    };
    close_scope(store, scope);
    proof {
        assert(store.events() =~= start + seq![StoreEvent::Provide(key), StoreEvent::Clear(key)]);
        lemma_handler_clears_once(start, key);
    }
    r
}

/// Handling a request clears its key exactly once, whatever the outcome:
/// a history extended by one handler run has one more clear of that key.
pub proof fn lemma_handler_clears_once(events: Seq<StoreEvent>, key: u64)
    ensures
        clears_of(events + seq![StoreEvent::Provide(key), StoreEvent::Clear(key)], key)
            == clears_of(events, key) + 1,
{
    let with_provide = events.push(StoreEvent::Provide(key));
    let both = events + seq![StoreEvent::Provide(key), StoreEvent::Clear(key)];
    assert(both.drop_last() =~= with_provide);
    assert(with_provide.drop_last() =~= events);
    assert(both.last() == StoreEvent::Clear(key));
    assert(with_provide.last() == StoreEvent::Provide(key));
    assert(clears_of(both, key) == clears_of(with_provide, key) + 1);
    assert(clears_of(with_provide, key) == clears_of(events, key));
}

} // verus!
