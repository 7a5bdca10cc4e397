//! The streaming parser engine: feeds one chunk of a command to a parser,
//! reads what the parser says of it, and decides what becomes of the parse
//! and what the host is told.

use crate::failure::Failure;
use crate::output::OutputBuffer;
use vstd::prelude::*;

verus! {

/// A directive that a parser gives outside the ordinary course of a parse.
#[derive(Clone, Copy, Debug, PartialEq, Eq, Structural)]
pub enum OutOfBand {
    /// The input is refused, by the user or by the parser's own rules.
    Reject,
}

/// What a parser hands back after a chunk.
#[derive(Debug)]
pub struct Parsed<'a, S> {
    /// The state in which the chunk left the parse.
    pub state: S,
    /// The result of the parse, once there is one.
    pub result: Option<OutputBuffer>,
    /// What the parser says of the chunk.
    ///
    /// `Ok(rest)` says that the parse is complete and that `rest`, the end of
    /// the chunk, was not needed. `Err((directive, rest))` says that it is
    /// not complete: with no directive and an empty `rest` the parser waits
    /// for the next chunk.
    pub answer: Result<&'a [u8], (Option<OutOfBand>, &'a [u8])>,
}

/// A parser that takes its input a chunk at a time.
///
/// The engine asks nothing of an implementation: whatever `init` and `parse`
/// return, every function of this library keeps its contract.
pub trait ChunkParser {
    /// What the parser remembers between two chunks.
    type State;

    /// The state in which a parse begins.
    fn init(&self) -> Self::State;

    /// Consumes bytes from the front of `chunk`, going on from `state`.
    fn parse<'a>(&self, state: Self::State, chunk: &'a [u8]) -> Parsed<'a, Self::State>;
}

/// The four things a parser can have said of a chunk.
#[derive(Clone, Copy, Debug, PartialEq, Eq, Structural)]
pub enum Outcome {
    /// The parser gave the directive to reject.
    Reject,
    /// The parser consumed the whole chunk and waits for more.
    NeedMore,
    /// The parser stopped inside the chunk without finishing and without a
    /// directive.
    NotFullyConsumed,
    /// The parser finished, leaving `trailing` bytes of the chunk unread.
    Complete { trailing: usize },
}

/// The outcome that a parser's answer amounts to.
pub open spec fn outcome_of(answer: Result<&[u8], (Option<OutOfBand>, &[u8])>) -> Outcome {
    match answer {
        Err((Some(OutOfBand::Reject), _)) => Outcome::Reject,
        Err((None, rest)) => if rest@.len() == 0 {
            Outcome::NeedMore
        } else {
            Outcome::NotFullyConsumed
        },
        Ok(rest) => Outcome::Complete { trailing: rest@.len() as usize },
    }
}

/// What is kept of a parse after `outcome`: its state where the parser waits
/// for more input, nothing in every other case.
pub open spec fn retained<S>(state: S, outcome: Outcome) -> Option<S> {
    match outcome {
        Outcome::Reject => None,
        Outcome::NeedMore => Some(state),
        Outcome::NotFullyConsumed => None,
        Outcome::Complete { .. } => None,
    }
}

/// What the host is told after `outcome`, where `result` is the bytes that
/// the parser left as its result, if it left any: `Ok` with the bytes of the
/// response, or the failure.
///
/// Only a parse that finished exactly at the end of the chunk and left a
/// result succeeds with bytes. A parser that waits for more is acknowledged
/// with an empty response. Everything else is a protocol error, also a
/// finished parse with a result but with bytes left over.
pub open spec fn reply_of(outcome: Outcome, result: Option<Seq<u8>>) -> Result<Seq<u8>, Failure> {
    match outcome {
        Outcome::Reject => Err(Failure::Unknown),
        Outcome::NeedMore => Ok(Seq::empty()),
        Outcome::NotFullyConsumed => Err(Failure::Unknown),
        Outcome::Complete { trailing } => if trailing == 0 && result is Some {
            Ok(result->Some_0)
        } else {
            Err(Failure::Unknown)
        },
    }
}

/// The bytes of a reply: those of its buffer, or its failure.
pub open spec fn reply_bytes(reply: Result<OutputBuffer, Failure>) -> Result<Seq<u8>, Failure> {
    match reply {
        Ok(buffer) => Ok(buffer@),
        Err(failure) => Err(failure),
    }
}

/// The bytes of a parser's result, if it left one.
pub open spec fn result_bytes(result: Option<OutputBuffer>) -> Option<Seq<u8>> {
    match result {
        Some(buffer) => Some(buffer@),
        None => None,
    }
}

/// Whether `parser.init()` may return `state`: whether `state` is one in
/// which `parser` begins a parse.
pub open spec fn begins<P: ChunkParser>(parser: &P, state: P::State) -> bool {
    call_ensures(P::init, (parser,), state)
}

/// Whether `parser.parse(state, chunk)` may return `parsed`.
pub open spec fn parses<P: ChunkParser>(
    parser: &P,
    state: P::State,
    chunk: &[u8],
    parsed: Parsed<'_, P::State>,
) -> bool {
    call_ensures(P::parse, (parser, state, chunk), parsed)
}

/// What one step of the engine does to the place of an instruction in the
/// parser state, `before` and `after`, and what it tells the host, `reply`.
///
/// The parser is called once. It goes on from the state in `before`, or
/// from a state in which it begins where `before` holds none, and it gets
/// the whole chunk. Its answer decides: the state it left is kept as
/// [`retained`] says, and the host is told what [`reply_of`] says.
pub open spec fn stepped<P: ChunkParser>(
    parser: &P,
    chunk: &[u8],
    before: Option<P::State>,
    after: Option<P::State>,
    reply: Result<Seq<u8>, Failure>,
) -> bool {
    exists|from: P::State, parsed: Parsed<'_, P::State>|
        (match before {
            Some(kept) => from == kept,
            None => begins(parser, from),
        }) && #[trigger] parses(parser, from, chunk, parsed) && after == retained(
            parsed.state,
            outcome_of(parsed.answer),
        ) && reply == reply_of(outcome_of(parsed.answer), result_bytes(parsed.result))
}

/// Reads a parser's answer.
pub fn classify(answer: &Result<&[u8], (Option<OutOfBand>, &[u8])>) -> (outcome: Outcome)
    ensures
        outcome == outcome_of(*answer),
{
    match answer {
        Err((Some(OutOfBand::Reject), _)) => Outcome::Reject,
        Err((None, rest)) => {
            if rest.len() == 0 {
                Outcome::NeedMore
            } else {
                Outcome::NotFullyConsumed
            }
        },
        Ok(rest) => Outcome::Complete { trailing: rest.len() },
    }
}

/// One step of a parse, as the engine leaves it.
#[derive(Debug)]
pub struct Step<S> {
    /// The state of the parse if it goes on with the next chunk, `None` if
    /// the parse is over.
    pub state: Option<S>,
    /// What the host is told.
    pub reply: Result<OutputBuffer, Failure>,
}

/// Decides what becomes of a parse after its parser handed back `parsed`.
///
/// The parse goes on only where the parser consumed the whole chunk and
/// asked for more; the host is then acknowledged with an empty response. In
/// every other case the parse is over and its state dropped. The host gets
/// the result where the parser finished exactly at the end of the chunk and
/// left one, and the protocol error otherwise.
pub fn settle<S>(parsed: Parsed<'_, S>) -> (step: Step<S>)
    ensures
        step.state == retained(parsed.state, outcome_of(parsed.answer)),
        reply_bytes(step.reply) == reply_of(
            outcome_of(parsed.answer),
            result_bytes(parsed.result),
        ),
        step.reply is Ok && !(outcome_of(parsed.answer) is NeedMore) ==> step.reply == Ok::<
            OutputBuffer,
            Failure,
        >(parsed.result->Some_0),
{
    match classify(&parsed.answer) {
        Outcome::Reject => Step { state: None, reply: Err(Failure::Unknown) },
        Outcome::NeedMore => Step { state: Some(parsed.state), reply: Ok(OutputBuffer::new()) },
        Outcome::NotFullyConsumed => Step { state: None, reply: Err(Failure::Unknown) },
        Outcome::Complete { trailing } => {
            if trailing == 0 {
                match parsed.result {
                    Some(buffer) => Step { state: None, reply: Ok(buffer) },
                    None => Step { state: None, reply: Err(Failure::Unknown) },
                }
            } else {
                Step { state: None, reply: Err(Failure::Unknown) }
            }
        },
    }
}

/// The state from which a parser takes the next chunk: that of the parse in
/// progress where `slot` holds one, and otherwise a state in which `parser`
/// begins a parse. The slot is left empty.
pub fn resume<P: ChunkParser>(slot: &mut Option<P::State>, parser: &P) -> (state: P::State)
    ensures
        (*final(slot)) is None,
        match *old(slot) {
            Some(kept) => state == kept,
            None => begins(parser, state),
        },
{
    match slot.take() {
        Some(kept) => kept,
        None => parser.init(),
    }
}

/// Feeds `chunk` to `parser` and settles the parse.
///
/// `slot` is the place of the parser's instruction in the parser state: the
/// state of its parse while one is in progress, `None` otherwise. The parser
/// goes on from the state that [`resume`] gives. It is called once, with all
/// of `chunk`, and [`settle`] decides on what it hands back: see
/// [`stepped`].
///
/// Whatever the parser answers, a parse is left in progress only together
/// with an empty acknowledgement, and the only failure is the protocol
/// error, which leaves no parse in progress.
pub fn run_parser_apdu<P: ChunkParser>(slot: &mut Option<P::State>, parser: &P, chunk: &[u8]) -> (reply:
    Result<OutputBuffer, Failure>)
    ensures
        stepped(parser, chunk, *old(slot), *final(slot), reply_bytes(reply)),
        (*final(slot)) is Some ==> reply_bytes(reply) == Ok::<Seq<u8>, Failure>(Seq::empty()),
        reply is Err ==> (*final(slot)) is None && reply == Err::<OutputBuffer, Failure>(
            Failure::Unknown,
        ),
{
    let state = resume(slot, parser);
    let parsed = parser.parse(state, chunk);
    assert(parses(parser, state, chunk, parsed));
    let step = settle(parsed);
    *slot = step.state;
    step.reply
}

/// Of the four outcomes, waiting for more input is the only one after which
/// a parse is still in progress, and it is acknowledged without a byte of
/// output. A rejection and a stop inside the chunk fail. A finished parse
/// succeeds exactly if nothing of the chunk is left and a result is there.
/// The only failure is the protocol error.
pub proof fn lemma_only_need_more_retains<S>(state: S, outcome: Outcome, result: Option<Seq<u8>>)
    ensures
        outcome is NeedMore <==> retained(state, outcome) is Some,
        outcome is NeedMore ==> retained(state, outcome) == Some(state) && reply_of(outcome, result)
            == Ok::<Seq<u8>, Failure>(Seq::empty()),
        outcome is Reject || outcome is NotFullyConsumed ==> reply_of(outcome, result) == Err::<
            Seq<u8>,
            Failure,
        >(Failure::Unknown),
        outcome matches Outcome::Complete { trailing } ==> (reply_of(outcome, result) is Ok <==> trailing
            == 0 && result is Some),
        reply_of(outcome, result) is Err ==> reply_of(outcome, result) == Err::<Seq<u8>, Failure>(
            Failure::Unknown,
        ),
{
}

/// Whatever parser is plugged in and whatever it answers, a step of the
/// engine leaves a parse in progress only if it acknowledges the chunk with
/// an empty response, and it fails only with the protocol error and then
/// leaves no parse in progress.
pub proof fn lemma_step_outcomes<P: ChunkParser>(
    parser: &P,
    chunk: &[u8],
    before: Option<P::State>,
    after: Option<P::State>,
    reply: Result<Seq<u8>, Failure>,
)
    requires
        stepped(parser, chunk, before, after, reply),
    ensures
        after is Some ==> reply == Ok::<Seq<u8>, Failure>(Seq::empty()),
        reply is Err ==> after is None && reply == Err::<Seq<u8>, Failure>(Failure::Unknown),
{
}

} // verus!
