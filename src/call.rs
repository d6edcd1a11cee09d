//! The life of one parse call, as a state machine that the caller drives.
//!
//! The caller performs each step the machine hands out (invoke the engine, release its
//! result) and feeds back what happened. The machine decides the outcome from copies of
//! the engine's result, and its invariant ties every finished call that reached the
//! engine to exactly one release.
use vstd::prelude::*;
use vstd::string::StringSliceAdditionalSpecFns;
use crate::decode::{decode, parse_result_of};
use crate::error::Error;
use crate::request::{first_nul_at, nul_free, terminated};
use crate::tree::ParseResult;

verus! {

/// Which of the engine's two entry points a call uses.
#[derive(Debug, Clone, Copy, PartialEq, Eq, Structural)]
pub enum Encoding {
    /// The textual tree.
    Text,
    /// The structured-message tree.
    Tree,
}

/// Copies of what the engine's result held, taken before it is released.
#[derive(Debug)]
pub enum Reply {
    /// The engine reported an error with this message.
    Failed(String),
    /// The textual tree.
    Text(String),
    /// The structured payload, as many bytes as the result declared.
    Tree(Vec<u8>),
}

/// What a successful call returns.
#[derive(Debug)]
pub enum Parsed {
    Text(String),
    Tree(ParseResult),
}

/// What the caller must do next.
#[derive(Debug)]
pub enum Step {
    /// Call the engine's entry point for this encoding on these NUL-terminated bytes.
    Invoke(Encoding, Vec<u8>),
    /// Release the engine's result.
    Release,
    /// The call is over; its outcome is ready.
    Finish,
}

#[derive(Debug, Clone, Copy, PartialEq, Eq, Structural)]
pub enum Phase {
    /// The engine has been invoked; its reply is awaited.
    Awaiting,
    /// The outcome is known; the engine's result is still to be released.
    Releasing,
    /// Nothing is left to do.
    Done,
}

/// The outcome that a reply of the engine calls for.
pub open spec fn outcome_of(reply: Reply, r: Result<Parsed, Error>) -> bool {
    match reply {
        Reply::Failed(m) => r matches Err(Error::Parse(m2)) && m2@ == m@,
        Reply::Text(t) => r matches Ok(Parsed::Text(t2)) && t2@ == t@,
        Reply::Tree(b) => match parse_result_of(b@) {
            Some(v) => r matches Ok(Parsed::Tree(t)) && t@ == v,
            None => r matches Err(Error::Decode(_)),
        },
    }
}

/// Turns a reply of the engine into the call's outcome.
pub fn outcome(reply: Reply) -> (r: Result<Parsed, Error>)
    ensures
        outcome_of(reply, r),
{
    match reply {
        Reply::Failed(m) => Err(Error::Parse(m)),
        Reply::Text(t) => Ok(Parsed::Text(t)),
        Reply::Tree(b) => match decode(b.as_slice()) {
            Ok(t) => Ok(Parsed::Tree(t)),
            Err(e) => Err(Error::Decode(e)),
        },
    }
}

/// One parse call: where it stands, its outcome once decided, and a record of what was
/// done with the engine.
pub struct ParseCall {
    pub phase: Phase,
    pub outcome: Option<Result<Parsed, Error>>,
    /// Whether the engine was invoked.
    pub invoked: Ghost<bool>,
    /// How many times the engine's result was released.
    pub releases: Ghost<nat>,
}

/// What starting a call on a statement with bytes `b` leads to. Bytes without NUL go to
/// the engine, terminated; a NUL byte ends the call at once with `Conversion`, and the
/// engine is never invoked.
pub open spec fn started(b: Seq<u8>, encoding: Encoding, c: ParseCall, s: Step) -> bool {
    &&& c.wf()
    &&& nul_free(b) ==> {
        &&& c.phase == Phase::Awaiting
        &&& s matches Step::Invoke(enc, input)
        &&& enc == encoding
        &&& input@ == b.push(0u8)
    }
    &&& !nul_free(b) ==> {
        &&& c.phase == Phase::Done
        &&& !c.invoked@
        &&& s is Finish
        &&& c.outcome matches Some(Err(Error::Conversion(e)))
        &&& first_nul_at(b, e.position as int)
        &&& e.bytes@ == b
    }
}

impl ParseCall {
    /// The engine's result is held exactly while the call awaits the reply or the
    /// release, and a finished call released it once if it invoked the engine.
    pub open spec fn wf(&self) -> bool {
        match self.phase {
            Phase::Awaiting => self.invoked@ && self.releases@ == 0 && self.outcome is None,
            Phase::Releasing => self.invoked@ && self.releases@ == 0 && self.outcome is Some,
            Phase::Done => self.outcome is Some && self.releases@ == (if self.invoked@ {
                1nat
            } else {
                0nat
            }),
        }
    }

    /// Starts a call on `statement` for the given encoding.
    pub fn start(statement: &str, encoding: Encoding) -> (r: (ParseCall, Step))
        ensures
            started(statement.spec_bytes(), encoding, r.0, r.1),
    {
        match terminated(statement) {
            Ok(input) => (
                ParseCall {
                    phase: Phase::Awaiting,
                    outcome: None,
                    invoked: Ghost(true),
                    releases: Ghost(0),
                },
                Step::Invoke(encoding, input),
            ),
            Err(e) => (
                ParseCall {
                    phase: Phase::Done,
                    outcome: Some(Err(Error::Conversion(e))),
                    invoked: Ghost(false),
                    releases: Ghost(0),
                },
                Step::Finish,
            ),
        }
    }

    /// Takes the copies of the engine's result and decides the outcome; the result must
    /// be released next.
    pub fn on_reply(&mut self, reply: Reply) -> (s: Step)
        requires
            old(self).wf(),
            old(self).phase == Phase::Awaiting,
        ensures
            final(self).wf(),
            final(self).phase == Phase::Releasing,
            final(self).invoked == old(self).invoked,
            final(self).releases == old(self).releases,
            final(self).outcome matches Some(o) && outcome_of(reply, o),
            s is Release,
    {
        self.outcome = Some(outcome(reply));
        self.phase = Phase::Releasing;
        Step::Release
    }

    /// Records that the engine's result was released; the call is then over.
    pub fn on_released(&mut self) -> (s: Step)
        requires
            old(self).wf(),
            old(self).phase == Phase::Releasing,
        ensures
            final(self).wf(),
            final(self).phase == Phase::Done,
            final(self).invoked == old(self).invoked,
            final(self).releases@ == old(self).releases@ + 1,
            final(self).releases@ == 1,
            final(self).outcome == old(self).outcome,
            s is Finish,
    {
        self.phase = Phase::Done;
        self.releases = Ghost(self.releases@ + 1);
        Step::Finish
    }

    /// The outcome of a finished call.
    pub fn finish(self) -> (r: Result<Parsed, Error>)
        requires
            self.wf(),
            self.phase == Phase::Done,
        ensures
            self.outcome == Some(r),
    {
        self.outcome.unwrap()
    }
}

/// A finished call released the engine's result exactly once if it invoked the engine,
/// and never otherwise: no path leaks the result or releases it twice.
pub proof fn lemma_release_exactly_once(c: ParseCall)
    requires
        c.wf(),
        c.phase == Phase::Done,
    ensures
        c.invoked@ ==> c.releases@ == 1,
        !c.invoked@ ==> c.releases@ == 0,
{
}

/// Equal payloads lead to equal outcomes: structurally equal trees, or a decode error
/// both times.
pub proof fn lemma_tree_outcome_deterministic(
    x: Vec<u8>,
    y: Vec<u8>,
    r1: Result<Parsed, Error>,
    r2: Result<Parsed, Error>,
)
    requires
        x@ == y@,
        outcome_of(Reply::Tree(x), r1),
        outcome_of(Reply::Tree(y), r2),
    ensures
        r1 matches Ok(Parsed::Tree(t1)) ==> r2 matches Ok(Parsed::Tree(t2)) && t1@ == t2@,
        r1 is Err <==> r2 is Err,
{
}

} // verus!
