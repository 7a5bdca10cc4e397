//! The command dispatcher: checks an incoming command, applies the policy of
//! its instruction, and either answers it from fixed data or hands its
//! payload to the instruction's parser.

use crate::engine::{run_parser_apdu, stepped, ChunkParser};
use crate::failure::Failure;
use crate::instruction::Ins;
use crate::output::OutputBuffer;
use crate::settings::Settings;
use crate::state::ParsersState;
use crate::version::{
    version_bytes, version_response, version_text_bytes, version_text_response,
};
use vstd::prelude::*;

verus! {

/// The five parsers, one for each instruction that is served by a parser.
pub struct Parsers<VA, GP, SG, SH, MT> {
    /// Serves `VerifyAddress`.
    pub verify_address: VA,
    /// Serves `GetPubkey`.
    pub get_pubkey: GP,
    /// Serves `Sign`.
    pub sign: SG,
    /// Serves `SignHash`.
    pub sign_hash: SH,
    /// Serves `MakeTransferTx`.
    pub make_transfer_tx: MT,
}

/// What a command that succeeded asks of the transport.
#[derive(Debug, PartialEq, Eq)]
pub enum Response {
    /// Acknowledge the command and send the bytes of the buffer with the
    /// acknowledgement. The buffer is empty where a parser waits for the
    /// next chunk.
    Ack(OutputBuffer),
    /// End the process with the success status, without answering.
    Exit,
}

/// The bytes of an acknowledgement, or the failure. `None` for a request to
/// end the process, which carries neither.
pub open spec fn response_bytes(r: Result<Response, Failure>) -> Option<Result<Seq<u8>, Failure>> {
    match r {
        Ok(Response::Ack(out)) => Some(Ok(out@)),
        Ok(Response::Exit) => None,
        Err(failure) => Some(Err(failure)),
    }
}

/// Whether `ins` goes to its parser under `settings`: it is served by one,
/// and it is not the signing of a bare hash while blind signing is
/// forbidden.
pub open spec fn reaches_parser(ins: Ins, settings: Settings) -> bool {
    ins.is_parser_backed() && !(ins is SignHash && !settings.blind_signing_enabled())
}

/// What it means that the chunk `data` of `ins` went to the parser of `ins`
/// in `parsers`, between the parser state `before` and `after` and with the
/// bytes or failure `reply` for the host.
///
/// The engine took one step on the place of `ins` in the parser state, as
/// [`stepped`] says: the parser went on from the parse of `ins` if that was
/// in progress and began a new one otherwise. Whatever else was in progress
/// is abandoned: afterwards the parse of `ins` is in progress, or none.
pub open spec fn parsed<VA, GP, SG, SH, MT>(
    data: &[u8],
    ins: Ins,
    parsers: &Parsers<VA, GP, SG, SH, MT>,
    before: ParsersState<VA::State, GP::State, SG::State, SH::State, MT::State>,
    after: ParsersState<VA::State, GP::State, SG::State, SH::State, MT::State>,
    reply: Result<Seq<u8>, Failure>,
) -> bool where VA: ChunkParser, GP: ChunkParser, SG: ChunkParser, SH: ChunkParser, MT: ChunkParser {
    &&& after.is_idle() || after.parsing(ins)
    &&& match ins {
        Ins::VerifyAddress => stepped(
            &parsers.verify_address,
            data,
            before.verify_address_slot(),
            after.verify_address_slot(),
            reply,
        ),
        Ins::GetPubkey => stepped(
            &parsers.get_pubkey,
            data,
            before.get_pubkey_slot(),
            after.get_pubkey_slot(),
            reply,
        ),
        Ins::Sign => stepped(&parsers.sign, data, before.sign_slot(), after.sign_slot(), reply),
        Ins::SignHash => stepped(
            &parsers.sign_hash,
            data,
            before.sign_hash_slot(),
            after.sign_hash_slot(),
            reply,
        ),
        Ins::MakeTransferTx => stepped(
            &parsers.make_transfer_tx,
            data,
            before.make_transfer_tx_slot(),
            after.make_transfer_tx_slot(),
            reply,
        ),
        Ins::GetVersion => false,
        Ins::GetVersionStr => false,
        Ins::Exit => false,
    }
}

/// What [`handle_apdu`] does with a command of `ins` and payload `data`,
/// between the parser state `before` and `after` and with the result `r`.
///
/// * Without payload the command fails with `NothingReceived`.
/// * An instruction that reaches its parser is [`parsed`].
/// * `GetVersion` and `GetVersionStr` are acknowledged with their fixed
///   bytes, `Exit` asks for the process to end, and a `SignHash` that does
///   not reach its parser fails with `NotSupported`.
///
/// Only the second case touches the parser state.
pub open spec fn dispatched<VA, GP, SG, SH, MT>(
    data: &[u8],
    ins: Ins,
    settings: Settings,
    parsers: &Parsers<VA, GP, SG, SH, MT>,
    before: ParsersState<VA::State, GP::State, SG::State, SH::State, MT::State>,
    after: ParsersState<VA::State, GP::State, SG::State, SH::State, MT::State>,
    r: Result<Response, Failure>,
) -> bool where VA: ChunkParser, GP: ChunkParser, SG: ChunkParser, SH: ChunkParser, MT: ChunkParser {
    if data@.len() == 0 {
        r == Err::<Response, Failure>(Failure::NothingReceived) && after == before
    } else if reaches_parser(ins, settings) {
        response_bytes(r) matches Some(reply) && parsed(data, ins, parsers, before, after, reply)
    } else {
        &&& after == before
        &&& match ins {
            Ins::GetVersion => r matches Ok(Response::Ack(out)) && out@ == version_bytes(),
            Ins::GetVersionStr => r matches Ok(Response::Ack(out)) && out@
                == version_text_bytes(),
            Ins::Exit => r == Ok::<Response, Failure>(Response::Exit),
            _ => r == Err::<Response, Failure>(Failure::NotSupported),
        }
    }
}

/// Turns the engine's reply into the dispatcher's.
fn acknowledge(reply: Result<OutputBuffer, Failure>) -> (r: Result<Response, Failure>)
    ensures
        r == (match reply {
            Ok(out) => Ok::<Response, Failure>(Response::Ack(out)),
            Err(failure) => Err(failure),
        }),
{
    match reply {
        Ok(out) => Ok(Response::Ack(out)),
        Err(failure) => Err(failure),
    }
}

/// Handles one command: the instruction `ins` with the payload `data`.
///
/// * A command without payload fails with `NothingReceived`, whatever its
///   instruction.
/// * `GetVersion` and `GetVersionStr` are acknowledged with their fixed
///   bytes, and `Exit` asks for the process to end.
/// * `SignHash` fails with `NotSupported` unless the settings permit blind
///   signing.
/// * Every other instruction, and `SignHash` where permitted, hands `data`
///   to its parser in `parsers`. If the parse of that very instruction is in
///   progress it goes on; otherwise a new one begins and whatever else was
///   in progress is abandoned.
///
/// Only the last case touches the parser state.
pub fn handle_apdu<VA, GP, SG, SH, MT>(
    data: &[u8],
    ins: Ins,
    states: &mut ParsersState<VA::State, GP::State, SG::State, SH::State, MT::State>,
    settings: &Settings,
    parsers: &Parsers<VA, GP, SG, SH, MT>,
) -> (r: Result<Response, Failure>) where
    VA: ChunkParser,
    GP: ChunkParser,
    SG: ChunkParser,
    SH: ChunkParser,
    MT: ChunkParser,

    ensures
        dispatched(data, ins, *settings, parsers, *old(states), *final(states), r),
        r == Err::<Response, Failure>(Failure::NothingReceived) <==> data@.len() == 0,
        r == Err::<Response, Failure>(Failure::NotSupported) <==> data@.len() > 0 && ins is SignHash
            && !settings.blind_signing_enabled(),
        r == Ok::<Response, Failure>(Response::Exit) <==> data@.len() > 0 && ins is Exit,
        r == Err::<Response, Failure>(Failure::Unknown) ==> final(states).is_idle()
            && data@.len() > 0 && reaches_parser(ins, *settings),
        !(data@.len() > 0 && reaches_parser(ins, *settings)) ==> *final(states) == *old(states),
        data@.len() > 0 && reaches_parser(ins, *settings) && !final(states).is_idle()
            ==> final(states).parsing(ins) && (r matches Ok(Response::Ack(out)) && out@.len()
            == 0),
{
    if data.len() == 0 {
        return Err(Failure::NothingReceived);
    }
    match ins {
        Ins::GetVersion => Ok(Response::Ack(version_response())),
        Ins::VerifyAddress => {
            let mut slot = states.take_verify_address_state();
            let reply = run_parser_apdu(&mut slot, &parsers.verify_address, data);
            if let Some(state) = slot {
                *states = ParsersState::VerifyAddressState(state);
            }
            acknowledge(reply)
        },
        Ins::GetPubkey => {
            let mut slot = states.take_get_pubkey_state();
            let reply = run_parser_apdu(&mut slot, &parsers.get_pubkey, data);
            if let Some(state) = slot {
                *states = ParsersState::GetPubkeyState(state);
            }
            acknowledge(reply)
        },
        Ins::Sign => {
            let mut slot = states.take_sign_state();
            let reply = run_parser_apdu(&mut slot, &parsers.sign, data);
            if let Some(state) = slot {
                *states = ParsersState::SignState(state);
            }
            acknowledge(reply)
        },
        Ins::SignHash => {
            if !settings.permits_blind_signing() {
                return Err(Failure::NotSupported);
            }
            let mut slot = states.take_sign_hash_state();
            let reply = run_parser_apdu(&mut slot, &parsers.sign_hash, data);
            if let Some(state) = slot {
                *states = ParsersState::SignHashState(state);
            }
            acknowledge(reply)
        },
        Ins::MakeTransferTx => {
            let mut slot = states.take_make_transfer_tx_state();
            let reply = run_parser_apdu(&mut slot, &parsers.make_transfer_tx, data);
            if let Some(state) = slot {
                *states = ParsersState::MakeTransferTxState(state);
            }
            acknowledge(reply)
        },
        Ins::GetVersionStr => Ok(Response::Ack(version_text_response())),
        Ins::Exit => Ok(Response::Exit),
    }
}

/// The policy gate: while blind signing is forbidden, a `SignHash` command
/// with a payload fails with `NotSupported` and leaves the parser state as
/// it was. In particular it begins no parse of `SignHash`.
pub proof fn lemma_policy_gate<VA, GP, SG, SH, MT>(
    data: &[u8],
    settings: Settings,
    parsers: &Parsers<VA, GP, SG, SH, MT>,
    before: ParsersState<VA::State, GP::State, SG::State, SH::State, MT::State>,
    after: ParsersState<VA::State, GP::State, SG::State, SH::State, MT::State>,
    r: Result<Response, Failure>,
) where VA: ChunkParser, GP: ChunkParser, SG: ChunkParser, SH: ChunkParser, MT: ChunkParser
    requires
        dispatched(data, Ins::SignHash, settings, parsers, before, after, r),
        !settings.blind_signing_enabled(),
        data@.len() > 0,
    ensures
        r == Err::<Response, Failure>(Failure::NotSupported),
        after == before,
        !before.parsing(Ins::SignHash) ==> !after.parsing(Ins::SignHash),
{
}

/// Whatever the parsers are and whatever they answer, a command that
/// reached its parser leaves either no parse in progress or the parse of
/// its own instruction. In the second case the parser waits for more input
/// and the chunk was acknowledged with an empty response. If the command
/// failed, it failed with the protocol error and no parse is in progress.
pub proof fn lemma_parsed_outcomes<VA, GP, SG, SH, MT>(
    data: &[u8],
    ins: Ins,
    parsers: &Parsers<VA, GP, SG, SH, MT>,
    before: ParsersState<VA::State, GP::State, SG::State, SH::State, MT::State>,
    after: ParsersState<VA::State, GP::State, SG::State, SH::State, MT::State>,
    reply: Result<Seq<u8>, Failure>,
) where VA: ChunkParser, GP: ChunkParser, SG: ChunkParser, SH: ChunkParser, MT: ChunkParser
    requires
        parsed(data, ins, parsers, before, after, reply),
    ensures
        ins.is_parser_backed(),
        after.is_idle() || after.parsing(ins),
        !after.is_idle() ==> reply == Ok::<Seq<u8>, Failure>(Seq::empty()),
        reply is Err ==> after.is_idle() && reply == Err::<Seq<u8>, Failure>(Failure::Unknown),
{
}

} // verus!
