use vstd::prelude::*;
use crate::errors::Error;
use crate::manifest::MinimalResource;
use crate::protocol::{failure_for, is_success, response_error, success};
use vstd::string::StringExecFns;
use crate::routes::{resolve, url_join_of};

verus! {

/// An HTTP verb the upsert protocol issues.
#[derive(PartialEq, Eq, Structural, Clone, Copy, Debug)]
pub enum Method {
    Get,
    Post,
    Put,
}

/// A request to issue; `Post` and `Put` carry the manifest's full body.
#[derive(Debug)]
pub struct Request {
    pub method: Method,
    pub url: String,
}

impl Request {
    pub open spec fn view(&self) -> (Method, Seq<char>) {
        (self.method, self.url@)
    }
}

/// Where an upsert stands.
#[derive(PartialEq, Eq, Structural, Clone, Copy, Debug)]
pub enum Phase {
    /// `apply` waits for the answer to its existence probe.
    Probe,
    /// `apply` waits for the answer to its create.
    Create,
    /// `replace` waits for the answer to its replacement.
    Replace,
    /// No answer is awaited.
    Done,
}

/// What to do after an answer.
#[derive(Debug)]
pub enum Step {
    /// Issue this request, then hand its answer back.
    Send(Request),
    /// The answer just received is the result: decode its body.
    Return,
    /// The answer just received is a failure: decode its body as a Status.
    Fail,
}

/// The meaning of a `Step`.
pub enum Move {
    Send(Method, Seq<char>),
    Return,
    Fail,
}

impl Step {
    pub open spec fn view(&self) -> Move {
        match self {
            Step::Send(q) => Move::Send(q.method, q.url@),
            Step::Return => Move::Return,
            Step::Fail => Move::Fail,
        }
    }
}

/// The transition on an answer with HTTP code `code`. A probe answered 404
/// creates at the collection URL; a probe answered with a success returns
/// that answer; a create or a replacement ends with its own answer.
pub open spec fn next(phase: Phase, collection: Seq<char>, item: Seq<char>, code: u16) -> (Phase, Move) {
    match phase {
        Phase::Probe => {
            if code == 404 {
                (Phase::Create, Move::Send(Method::Post, collection))
            } else if is_success(code) {
                (Phase::Done, Move::Return)
            } else {
                (Phase::Done, Move::Fail)
            }
        },
        Phase::Create | Phase::Replace => {
            if is_success(code) {
                (Phase::Done, Move::Return)
            } else {
                (Phase::Done, Move::Fail)
            }
        },
        Phase::Done => (Phase::Done, Move::Fail),
    }
}

/// The requests issued after the first one, when the answers carry
/// `codes` in turn; answers that come once the upsert is done issue nothing.
pub open spec fn calls_after(phase: Phase, collection: Seq<char>, item: Seq<char>, codes: Seq<u16>) -> Seq<(Method, Seq<char>)>
    decreases codes.len(),
{
    if codes.len() == 0 || phase == Phase::Done {
        Seq::empty()
    } else {
        let (p, m) = next(phase, collection, item, codes[0]);
        let rest = calls_after(p, collection, item, codes.drop_first());
        match m {
            Move::Send(v, u) => seq![(v, u)] + rest,
            _ => rest,
        }
    }
}

/// Every request an upsert issues, its first included, when the answers
/// carry `codes` in turn.
pub open spec fn session_calls(replace: bool, collection: Seq<char>, item: Seq<char>, codes: Seq<u16>) -> Seq<(Method, Seq<char>)> {
    if replace {
        seq![(Method::Put, item)] + calls_after(Phase::Replace, collection, item, codes)
    } else {
        seq![(Method::Get, item)] + calls_after(Phase::Probe, collection, item, codes)
    }
}

/// The two URLs a manifest is routed to.
#[derive(Debug)]
pub struct Target {
    pub collection_url: String,
    pub item_url: String,
}

/// Joins a manifest's collection and item paths onto `base_url`. The
/// manifest must name its resource. Fails with `ErrorKind::Url` exactly
/// where either join fails.
pub fn target_for(base_url: &str, m: &MinimalResource) -> (r: Result<Target, Error>)
    requires
        m.name is Some,
    ensures
        match (url_join_of(base_url@, m.spec_collection_path()), url_join_of(base_url@, m.spec_item_path())) {
            (Some(c), Some(i)) => r matches Ok(t) && t.collection_url@ == c && t.item_url@ == i,
            _ => r matches Err(e) && e.spec_kind() is Url,
        },
{
    let collection_path = m.collection_path();
    let mut item_path = collection_path.clone();
    item_path.append("/");
    match &m.name {
        Some(n) => item_path.append(n.as_str()),
        None => {},
    }
    let collection_url = resolve(base_url, collection_path.as_str(), &None)?;
    let item_url = resolve(base_url, item_path.as_str(), &None)?;
    Ok(Target { collection_url, item_url })
}

/// An `apply` or `replace` of one manifest, driven by the answers to the
/// requests it asks for.
pub struct Upsert {
    collection_url: String,
    item_url: String,
    phase: Phase,
}

impl Upsert {
    pub closed spec fn spec_collection(&self) -> Seq<char> {
        self.collection_url@
    }

    pub closed spec fn spec_item(&self) -> Seq<char> {
        self.item_url@
    }

    pub closed spec fn spec_phase(&self) -> Phase {
        self.phase
    }

    /// Starts an `apply`: probe the item URL first.
    pub fn apply(t: &Target) -> (r: (Upsert, Request))
        ensures
            r.0.spec_collection() == t.collection_url@,
            r.0.spec_item() == t.item_url@,
            r.0.spec_phase() == Phase::Probe,
            r.1.view() == (Method::Get, t.item_url@),
    {
        let u = Upsert { collection_url: t.collection_url.clone(), item_url: t.item_url.clone(), phase: Phase::Probe };
        let q = Request { method: Method::Get, url: t.item_url.clone() };
        (u, q)
    }

    /// Starts a `replace`: send the full body to the item URL, with no probe.
    pub fn replace(t: &Target) -> (r: (Upsert, Request))
        ensures
            r.0.spec_collection() == t.collection_url@,
            r.0.spec_item() == t.item_url@,
            r.0.spec_phase() == Phase::Replace,
            r.1.view() == (Method::Put, t.item_url@),
    {
        let u = Upsert { collection_url: t.collection_url.clone(), item_url: t.item_url.clone(), phase: Phase::Replace };
        let q = Request { method: Method::Put, url: t.item_url.clone() };
        (u, q)
    }

    /// Whether no answer is awaited.
    pub fn is_done(&self) -> (r: bool)
        ensures
            r == (self.spec_phase() == Phase::Done),
    {
        self.phase == Phase::Done
    }

    /// Takes the HTTP code of the answer to the last request.
    pub fn on_response(&mut self, code: u16) -> (r: Step)
        ensures
            final(self).spec_collection() == old(self).spec_collection(),
            final(self).spec_item() == old(self).spec_item(),
            (final(self).spec_phase(), r.view())
                == next(old(self).spec_phase(), old(self).spec_collection(), old(self).spec_item(), code),
    {
        match self.phase {
            Phase::Probe => {
                if code == 404 {
                    self.phase = Phase::Create;
                    Step::Send(Request { method: Method::Post, url: self.collection_url.clone() })
                } else if success(code) {
                    self.phase = Phase::Done;
                    Step::Return
                } else {
                    self.phase = Phase::Done;
                    Step::Fail
                }
            },
            Phase::Create | Phase::Replace => {
                self.phase = Phase::Done;
                if success(code) {
                    Step::Return
                } else {
                    Step::Fail
                }
            },
            Phase::Done => Step::Fail,
        }
    }
}

/// The result an upsert ends with, once a step says it is over: the body of
/// the last answer, or the error that the body describes.
pub fn conclude(step: &Step, code: u16, body: Vec<u8>) -> (r: Option<Result<Vec<u8>, Error>>)
    ensures
        match step.view() {
            Move::Send(_, _) => r is None,
            Move::Return => r == Some(Ok::<Vec<u8>, Error>(body)),
            Move::Fail => r matches Some(Err(e)) && failure_for(code, body@, e),
        },
{
    match step {
        Step::Send(_) => None,
        Step::Return => Some(Ok(body)),
        Step::Fail => Some(Err(response_error(code, body.as_slice()))),
    }
}

/// `apply` of a manifest whose resource does not exist: the probe is
/// answered 404, so exactly one GET of the item URL and then exactly one
/// POST to the collection URL are issued, whatever answers follow; the
/// POST's answer is the result when it is a success.
pub proof fn lemma_apply_creates_when_absent(collection: Seq<char>, item: Seq<char>, code: u16, rest: Seq<u16>)
    ensures
        session_calls(false, collection, item, seq![404u16, code] + rest)
            == seq![(Method::Get, item), (Method::Post, collection)],
        next(Phase::Create, collection, item, code).1 == (if is_success(code) { Move::Return } else { Move::Fail }),
{
    let codes = seq![404u16, code] + rest;
    let tail = codes.drop_first();
    assert(codes[0] == 404u16);
    assert(tail[0] == code);
    let tail2 = tail.drop_first();
    assert(calls_after(Phase::Done, collection, item, tail2) == Seq::<(Method, Seq<char>)>::empty());
    assert(calls_after(Phase::Create, collection, item, tail) == Seq::<(Method, Seq<char>)>::empty());
    assert(calls_after(Phase::Probe, collection, item, codes) == seq![(Method::Post, collection)]);
}

/// `apply` of a manifest whose resource exists: the probe is answered with
/// a success, so exactly one GET is issued, no POST or PUT, and the probe's
/// own answer is the result.
pub proof fn lemma_apply_returns_existing(collection: Seq<char>, item: Seq<char>, code: u16, rest: Seq<u16>)
    requires
        is_success(code),
    ensures
        session_calls(false, collection, item, seq![code] + rest) == seq![(Method::Get, item)],
        next(Phase::Probe, collection, item, code).1 == Move::Return,
{
    let codes = seq![code] + rest;
    assert(codes[0] == code);
    assert(calls_after(Phase::Done, collection, item, codes.drop_first()) == Seq::<(Method, Seq<char>)>::empty());
    assert(calls_after(Phase::Probe, collection, item, codes) == Seq::<(Method, Seq<char>)>::empty());
    assert(seq![(Method::Get, item)] + Seq::<(Method, Seq<char>)>::empty() == seq![(Method::Get, item)]);
}

/// `replace` issues exactly one PUT, to the item URL, whatever it is
/// answered and whether or not the resource existed.
pub proof fn lemma_replace_puts_once(collection: Seq<char>, item: Seq<char>, code: u16, rest: Seq<u16>)
    ensures
        session_calls(true, collection, item, seq![code] + rest) == seq![(Method::Put, item)],
{
    let codes = seq![code] + rest;
    assert(codes[0] == code);
    assert(calls_after(Phase::Done, collection, item, codes.drop_first()) == Seq::<(Method, Seq<char>)>::empty());
    assert(calls_after(Phase::Replace, collection, item, codes) == Seq::<(Method, Seq<char>)>::empty());
    assert(seq![(Method::Put, item)] + Seq::<(Method, Seq<char>)>::empty() == seq![(Method::Put, item)]);
}

} // verus!
