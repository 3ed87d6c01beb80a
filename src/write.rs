use vstd::prelude::*;
use crate::chunk::{chunk_frame, frame_of, last_chunk, terminator};
use crate::unit::{idempotent_method, is_idempotent, Unit};
use vstd::slice::slice_to_vec;
use vstd::string::StringExecFns;

verus! {

/// What the response parser reported about the head of a response.
pub struct ResponseHead {
    pub status: u16,
    /// The status line could not be read (the parser's synthetic error).
    pub bad_status_read: bool,
    /// The raw `Location` header, if present.
    pub location: Option<String>,
}

/// Hard failures of the finishing step.
pub enum FinishError {
    TooManyRedirects,
    /// The `Location` header (held here) could not be resolved.
    BadUrl(String),
}

/// The model of a request writer.
pub struct WriterState {
    pub unit: Unit,
    /// No non-empty buffer has been written.
    pub body_empty: bool,
    /// The current connection came from the reuse pool.
    pub recycled: bool,
    /// The finishing step has started.
    pub finished: bool,
    /// The stream has moved into the response.
    pub handed_off: bool,
}

/// The request writer: owns one attempt from its first body byte to the
/// hand-off of the connection. The socket itself stays with the caller, who
/// sends the bytes this type produces and reports what came back.
pub struct RequestWrite {
    unit: Unit,
    body_empty: bool,
    connection_is_recycled: bool,
    finished: bool,
    handed_off: bool,
}

impl View for RequestWrite {
    type V = WriterState;

    closed spec fn view(&self) -> WriterState {
        WriterState {
            unit: self.unit,
            body_empty: self.body_empty,
            recycled: self.connection_is_recycled,
            finished: self.finished,
            handed_off: self.handed_off,
        }
    }
}

/// The stream moves out only at the end of the finishing step.
pub open spec fn well_formed(s: WriterState) -> bool {
    s.handed_off ==> s.finished
}

/// An attempt may be sent again: idempotent method and nothing written.
pub open spec fn retryable(s: WriterState) -> bool {
    idempotent_method(s.unit.method@) && s.body_empty
}

/// What each finishing attempt sends before reading the response.
pub open spec fn attempt_bytes(s: WriterState) -> Seq<u8> {
    if s.unit.is_chunked {
        terminator()
    } else {
        Seq::empty()
    }
}

pub open spec fn bytes_of(r: Option<Vec<u8>>) -> Option<Seq<u8>> {
    match r {
        Some(v) => Some(v@),
        None => None,
    }
}

/// The finish-once guard: the bytes to send (if the step starts) and the
/// state after it.
pub open spec fn finish_outcome(s: WriterState) -> (Option<Seq<u8>>, WriterState) {
    if s.finished {
        (None, s)
    } else {
        (Some(attempt_bytes(s)), WriterState { finished: true, ..s })
    }
}

/// The response is a broken reply on a reused connection that may be resent.
pub open spec fn retry_due(s: WriterState, head: ResponseHead) -> bool {
    head.bad_status_read && retryable(s) && s.recycled
}

/// The writer after a fresh connection for the same unit replaced the old one.
pub open spec fn reconnected(s: WriterState, recycled: bool) -> WriterState {
    WriterState { recycled, ..s }
}

pub open spec fn is_redirect_status(status: u16) -> bool {
    300 <= status <= 399
}

pub open spec fn is_followed_status(status: u16) -> bool {
    301 <= status <= 303
}

/// The redirect decision after cookies are saved: `Ok(Some(loc))` asks for
/// `loc` to be resolved against the current URL, `Ok(None)` keeps the response.
pub open spec fn plan_of(s: WriterState, head: ResponseHead) -> Result<Option<String>, FinishError> {
    if is_redirect_status(head.status) && s.unit.redirects > 0 {
        if s.unit.redirects == 1 {
            Err(FinishError::TooManyRedirects)
        } else {
            Ok(head.location)
        }
    } else {
        Ok(None)
    }
}

/// What a resolved (or unresolvable) `Location` leads to: the unit of the
/// next hop, or `Ok(None)` when the response goes back to the caller as is.
pub open spec fn follow_outcome(
    s: WriterState,
    status: u16,
    location: String,
    resolved: Option<String>,
) -> Result<Option<Unit>, FinishError> {
    match resolved {
        None => Err(FinishError::BadUrl(location)),
        Some(url) => if is_followed_status(status) {
            Ok(Some(Unit { url, redirects: (s.unit.redirects - 1) as u32, ..s.unit }))
        } else {
            Ok(None)
        },
    }
}

impl RequestWrite {
    /// A writer for `unit` over a connection just obtained for it.
    pub fn new(unit: Unit, connection_is_recycled: bool) -> (r: RequestWrite)
        ensures
            r@ == (WriterState {
                unit,
                body_empty: true,
                recycled: connection_is_recycled,
                finished: false,
                handed_off: false,
            }),
            well_formed(r@),
    {
        RequestWrite { unit, body_empty: true, connection_is_recycled, finished: false, handed_off: false }
    }

    /// "RequestWrite(<method> <url>)", for diagnostics.
    pub fn describe(&self) -> (r: String)
        ensures
            r@ == "RequestWrite("@ + self@.unit.method@ + " "@ + self@.unit.url@ + ")"@,
    {
        let r = String::from_str("RequestWrite(");
        let r = r.concat(self.unit.method.as_str());
        let r = r.concat(" ");
        let r = r.concat(self.unit.url.as_str());
        r.concat(")")
    }

    pub fn unit(&self) -> (r: &Unit)
        ensures
            *r == self@.unit,
    {
        &self.unit
    }

    pub fn body_empty(&self) -> (r: bool)
        ensures
            r == self@.body_empty,
    {
        self.body_empty
    }

    pub fn connection_is_recycled(&self) -> (r: bool)
        ensures
            r == self@.recycled,
    {
        self.connection_is_recycled
    }

    pub fn is_finished(&self) -> (r: bool)
        ensures
            r == self@.finished,
    {
        self.finished
    }

    pub fn is_handed_off(&self) -> (r: bool)
        ensures
            r == self@.handed_off,
    {
        self.handed_off
    }

    /// Whether this attempt, with the body written so far, may be retried.
    pub fn is_retryable(&self) -> (r: bool)
        ensures
            r == retryable(self@),
    {
        let idempotent = is_idempotent(&self.unit.method);
        idempotent && self.body_empty
    }

    /// Accepts one body buffer and returns the bytes to put on the stream:
    /// one chunk frame when chunked, the buffer itself otherwise. An empty
    /// buffer sends nothing and leaves the writer as it was.
    pub fn write(&mut self, buf: &[u8]) -> (r: Vec<u8>)
        ensures
            buf@.len() == 0 ==> r@ == Seq::<u8>::empty() && final(self)@ == old(self)@,
            buf@.len() > 0 ==> final(self)@ == (WriterState { body_empty: false, ..old(self)@ }),
            buf@.len() > 0 && old(self)@.unit.is_chunked ==> r@ == frame_of(buf@),
            buf@.len() > 0 && !old(self)@.unit.is_chunked ==> r@ == buf@,
    {
        if buf.len() > 0 {
            self.body_empty = false;
            if self.unit.is_chunked {
                chunk_frame(buf)
            } else {
                slice_to_vec(buf)
            }
        } else {
            Vec::new()
        }
    }

    /// One finishing attempt starts: the writer is marked finished and the
    /// bytes that close the body (the last chunk, when chunked) are returned.
    /// A retry runs this again on the new connection.
    pub fn do_finish(&mut self) -> (r: Vec<u8>)
        ensures
            r@ == attempt_bytes(old(self)@),
            final(self)@ == (WriterState { finished: true, ..old(self)@ }),
    {
        self.finished = true;
        if self.unit.is_chunked {
            last_chunk()
        } else {
            Vec::new()
        }
    }

    /// The finish-once guard, for an explicit finish and for a writer that
    /// is dropped: starts the finishing step only on a writer not finished yet.
    pub fn finish(&mut self) -> (r: Option<Vec<u8>>)
        ensures
            (bytes_of(r), final(self)@) == finish_outcome(old(self)@),
    {
        if self.finished {
            None
        } else {
            Some(self.do_finish())
        }
    }

    /// Whether the parsed response calls for reconnecting and running the
    /// finishing step again on the same unit.
    pub fn should_retry(&self, head: &ResponseHead) -> (r: bool)
        ensures
            r == retry_due(self@, *head),
    {
        head.bad_status_read && self.is_retryable() && self.connection_is_recycled
    }

    /// A new connection for the same unit replaced the current one.
    pub fn reconnect(&mut self, recycled: bool)
        ensures
            final(self)@ == reconnected(old(self)@, recycled),
    {
        self.connection_is_recycled = recycled;
    }

    /// The redirect decision, taken after the response's cookies are saved.
    pub fn redirect_plan(&self, head: &ResponseHead) -> (r: Result<Option<String>, FinishError>)
        ensures
            r == plan_of(self@, *head),
    {
        if head.status >= 300 && head.status <= 399 && self.unit.redirects > 0 {
            if self.unit.redirects == 1 {
                Err(FinishError::TooManyRedirects)
            } else {
                match &head.location {
                    Some(l) => Ok(Some(l.clone())),
                    None => Ok(None),
                }
            }
        } else {
            Ok(None)
        }
    }

    /// Given the outcome of resolving `location` against the current URL,
    /// the unit of the next hop (301, 302, 303), or `Ok(None)` for a status
    /// that is not followed.
    pub fn follow(&self, status: u16, location: &String, resolved: Option<String>) -> (r: Result<
        Option<Unit>,
        FinishError,
    >)
        requires
            self@.unit.redirects > 1,
        ensures
            r == follow_outcome(self@, status, *location, resolved),
    {
        match resolved {
            None => Err(FinishError::BadUrl(location.clone())),
            Some(url) => {
                if status >= 301 && status <= 303 {
                    Ok(Some(self.unit.redirect_to(url)))
                } else {
                    Ok(None)
                }
            },
        }
    }

    /// Moves the stream out to the response: returns the final URL and a
    /// copy of the unit, and marks the writer's stream as gone.
    pub fn hand_off(&mut self) -> (r: (String, Unit))
        requires
            old(self)@.finished,
        ensures
            r.0 == old(self)@.unit.url,
            r.1 == old(self)@.unit,
            final(self)@ == (WriterState { handed_off: true, ..old(self)@ }),
            well_formed(final(self)@),
    {
        self.handed_off = true;
        (self.unit.url.clone(), self.unit.duplicate())
    }
}

/// An idempotent method with nothing written is retryable; once a non-empty
/// buffer has been written, no method is.
pub proof fn lemma_retryable_iff_idempotent_and_empty(s: WriterState)
    ensures
        idempotent_method(s.unit.method@) && s.body_empty ==> retryable(s),
        !s.body_empty ==> !retryable(s),
{
}

/// Writing an empty buffer changes nothing, so whether the attempt is
/// retryable is decided as if no body had been sent.
pub proof fn lemma_empty_write_keeps_retryable(s: WriterState)
    requires
        s.body_empty,
    ensures
        retryable(s) == idempotent_method(s.unit.method@),
{
}

/// The finishing step runs at most once: a second finish on the same writer
/// sends nothing and leaves it as it was.
pub proof fn lemma_finish_runs_once(s: WriterState)
    ensures
        finish_outcome(s).1.finished,
        finish_outcome(finish_outcome(s).1) == (Option::<Seq<u8>>::None, finish_outcome(s).1),
{
}

/// A writer that was never finished (explicitly or not) still closes its
/// body when the guard runs: the last chunk when chunked, and the stream is
/// still there to be handed off.
pub proof fn lemma_unfinished_writer_closes_body(s: WriterState)
    requires
        !s.finished,
    ensures
        finish_outcome(s).0 == Some(attempt_bytes(s)),
        s.unit.is_chunked ==> finish_outcome(s).0 == Some(terminator()),
        finish_outcome(s).1 == (WriterState { finished: true, ..s }),
{
}

/// A broken status line is retried only on a reused connection, for a
/// retryable attempt; after one retry over a fresh connection, no response
/// triggers another.
pub proof fn lemma_retry_at_most_once(s: WriterState, head: ResponseHead, next: ResponseHead)
    ensures
        retry_due(s, head) <==> head.bad_status_read && s.recycled && idempotent_method(s.unit.method@)
            && s.body_empty,
        !s.recycled ==> !retry_due(s, head),
        !s.body_empty ==> !retry_due(s, head),
        !retry_due(reconnected(s, false), next),
{
}

/// On a redirect status, a budget of one fails with too many redirects; a
/// budget of two with a resolvable `Location` on 301, 302 or 303 follows one
/// redirect, to a unit whose budget is one.
pub proof fn lemma_redirect_budget_boundary(
    s: WriterState,
    head: ResponseHead,
    resolved: String,
)
    requires
        is_redirect_status(head.status),
    ensures
        s.unit.redirects == 1 ==> plan_of(s, head) == Err::<Option<String>, FinishError>(
            FinishError::TooManyRedirects,
        ),
        s.unit.redirects == 2 && head.location.is_some() && is_followed_status(head.status) ==> {
            &&& plan_of(s, head) == Ok::<Option<String>, FinishError>(head.location)
            &&& follow_outcome(s, head.status, head.location.unwrap(), Some(resolved)) == Ok::<
                Option<Unit>,
                FinishError,
            >(Some(Unit { url: resolved, redirects: 1, ..s.unit }))
        },
{
}

/// With a resolvable `Location`, 301, 302 and 303 lead to a request for the
/// resolved URL with one less hop of budget; 307 and 308 return the response
/// unchanged, with no second request.
pub proof fn lemma_followed_statuses(s: WriterState, status: u16, location: String, resolved: String)
    requires
        s.unit.redirects > 1,
    ensures
        301 <= status <= 303 ==> follow_outcome(s, status, location, Some(resolved)) == Ok::<
            Option<Unit>,
            FinishError,
        >(Some(Unit { url: resolved, redirects: (s.unit.redirects - 1) as u32, ..s.unit })),
        status == 307 || status == 308 ==> follow_outcome(s, status, location, Some(resolved))
            == Ok::<Option<Unit>, FinishError>(None),
{
}

} // verus!
