//! The parser state store: which instruction's parse is in progress, if any,
//! and how far it has come.

use crate::instruction::Ins;
use vstd::prelude::*;

verus! {

/// The state of the one parse that may be in progress.
///
/// There is one variant for each instruction that is served by a parser,
/// holding the state of that instruction's parser, and one for "no parse in
/// progress". The type parameters are the five parsers' state types; the
/// store never looks inside them.
///
/// A value is in exactly one variant, so two parses are never in progress
/// together: [`lemma_single_active_parse`] states this over [`Self::active`].
#[derive(Debug)]
pub enum ParsersState<A, K, S, H, T> {
    /// No parse is in progress.
    NoState,
    /// A `VerifyAddress` command has been begun and not finished.
    VerifyAddressState(A),
    /// A `GetPubkey` command has been begun and not finished.
    GetPubkeyState(K),
    /// A `Sign` command has been begun and not finished.
    SignState(S),
    /// A `SignHash` command has been begun and not finished.
    SignHashState(H),
    /// A `MakeTransferTx` command has been begun and not finished.
    MakeTransferTxState(T),
}

impl<A, K, S, H, T> ParsersState<A, K, S, H, T> {
    /// The instruction whose parse is in progress, `None` where none is.
    pub open spec fn active(self) -> Option<Ins> {
        match self {
            ParsersState::NoState => None,
            ParsersState::VerifyAddressState(_) => Some(Ins::VerifyAddress),
            ParsersState::GetPubkeyState(_) => Some(Ins::GetPubkey),
            ParsersState::SignState(_) => Some(Ins::Sign),
            ParsersState::SignHashState(_) => Some(Ins::SignHash),
            ParsersState::MakeTransferTxState(_) => Some(Ins::MakeTransferTx),
        }
    }

    /// Whether no parse is in progress.
    pub open spec fn is_idle(self) -> bool {
        self is NoState
    }

    /// Whether the parse of `ins` is in progress.
    pub open spec fn parsing(self, ins: Ins) -> bool {
        self.active() == Some(ins)
    }

    /// The place of `VerifyAddress` in the store: the state of its parse
    /// where that is the parse in progress, `None` otherwise.
    pub open spec fn verify_address_slot(self) -> Option<A> {
        match self {
            ParsersState::NoState => None,
            ParsersState::VerifyAddressState(state) => Some(state),
            ParsersState::GetPubkeyState(_) => None,
            ParsersState::SignState(_) => None,
            ParsersState::SignHashState(_) => None,
            ParsersState::MakeTransferTxState(_) => None,
        }
    }

    /// The place of `GetPubkey` in the store: the state of its parse
    /// where that is the parse in progress, `None` otherwise.
    pub open spec fn get_pubkey_slot(self) -> Option<K> {
        match self {
            ParsersState::NoState => None,
            ParsersState::VerifyAddressState(_) => None,
            ParsersState::GetPubkeyState(state) => Some(state),
            ParsersState::SignState(_) => None,
            ParsersState::SignHashState(_) => None,
            ParsersState::MakeTransferTxState(_) => None,
        }
    }

    /// The place of `Sign` in the store: the state of its parse
    /// where that is the parse in progress, `None` otherwise.
    pub open spec fn sign_slot(self) -> Option<S> {
        match self {
            ParsersState::NoState => None,
            ParsersState::VerifyAddressState(_) => None,
            ParsersState::GetPubkeyState(_) => None,
            ParsersState::SignState(state) => Some(state),
            ParsersState::SignHashState(_) => None,
            ParsersState::MakeTransferTxState(_) => None,
        }
    }

    /// The place of `SignHash` in the store: the state of its parse
    /// where that is the parse in progress, `None` otherwise.
    pub open spec fn sign_hash_slot(self) -> Option<H> {
        match self {
            ParsersState::NoState => None,
            ParsersState::VerifyAddressState(_) => None,
            ParsersState::GetPubkeyState(_) => None,
            ParsersState::SignState(_) => None,
            ParsersState::SignHashState(state) => Some(state),
            ParsersState::MakeTransferTxState(_) => None,
        }
    }

    /// The place of `MakeTransferTx` in the store: the state of its parse
    /// where that is the parse in progress, `None` otherwise.
    pub open spec fn make_transfer_tx_slot(self) -> Option<T> {
        match self {
            ParsersState::NoState => None,
            ParsersState::VerifyAddressState(_) => None,
            ParsersState::GetPubkeyState(_) => None,
            ParsersState::SignState(_) => None,
            ParsersState::SignHashState(_) => None,
            ParsersState::MakeTransferTxState(state) => Some(state),
        }
    }

    /// What a reset leaves: no parse in progress, whatever was there before.
    pub open spec fn after_reset(self) -> Self {
        ParsersState::NoState
    }

    /// The state at start-up: no parse in progress.
    pub fn new() -> (state: Self)
        ensures
            state == ParsersState::<A, K, S, H, T>::NoState,
    {
        ParsersState::NoState
    }

    /// The instruction whose parse is in progress, `None` where none is.
    pub fn active_instruction(&self) -> (ins: Option<Ins>)
        ensures
            ins == self.active(),
    {
        match self {
            ParsersState::NoState => None,
            ParsersState::VerifyAddressState(_) => Some(Ins::VerifyAddress),
            ParsersState::GetPubkeyState(_) => Some(Ins::GetPubkey),
            ParsersState::SignState(_) => Some(Ins::Sign),
            ParsersState::SignHashState(_) => Some(Ins::SignHash),
            ParsersState::MakeTransferTxState(_) => Some(Ins::MakeTransferTx),
        }
    }

    /// Whether no parse is in progress.
    pub fn idle(&self) -> (idle: bool)
        ensures
            idle == self.is_idle(),
    {
        match self {
            ParsersState::NoState => true,
            ParsersState::VerifyAddressState(_) => false,
            ParsersState::GetPubkeyState(_) => false,
            ParsersState::SignState(_) => false,
            ParsersState::SignHashState(_) => false,
            ParsersState::MakeTransferTxState(_) => false,
        }
    }

    /// Moves the whole state out and leaves "no parse in progress" behind.
    pub fn take(&mut self) -> (taken: Self)
        ensures
            taken == *old(self),
            *final(self) == ParsersState::<A, K, S, H, T>::NoState,
    {
        let mut taken = ParsersState::NoState;
        core::mem::swap(self, &mut taken);
        taken
    }

    /// Moves the state of the `VerifyAddress` parse out, if that is the
    /// parse in progress. Whatever was in progress is abandoned: the store
    /// is left idle.
    pub fn take_verify_address_state(&mut self) -> (slot: Option<A>)
        ensures
            slot == old(self).verify_address_slot(),
            *final(self) == ParsersState::<A, K, S, H, T>::NoState,
    {
        match self.take() {
            ParsersState::NoState => None,
            ParsersState::VerifyAddressState(state) => Some(state),
            ParsersState::GetPubkeyState(_) => None,
            ParsersState::SignState(_) => None,
            ParsersState::SignHashState(_) => None,
            ParsersState::MakeTransferTxState(_) => None,
        }
    }

    /// Moves the state of the `GetPubkey` parse out, if that is the parse in
    /// progress. Whatever was in progress is abandoned: the store is left
    /// idle.
    pub fn take_get_pubkey_state(&mut self) -> (slot: Option<K>)
        ensures
            slot == old(self).get_pubkey_slot(),
            *final(self) == ParsersState::<A, K, S, H, T>::NoState,
    {
        match self.take() {
            ParsersState::NoState => None,
            ParsersState::VerifyAddressState(_) => None,
            ParsersState::GetPubkeyState(state) => Some(state),
            ParsersState::SignState(_) => None,
            ParsersState::SignHashState(_) => None,
            ParsersState::MakeTransferTxState(_) => None,
        }
    }

    /// Moves the state of the `Sign` parse out, if that is the parse in
    /// progress. Whatever was in progress is abandoned: the store is left
    /// idle.
    pub fn take_sign_state(&mut self) -> (slot: Option<S>)
        ensures
            slot == old(self).sign_slot(),
            *final(self) == ParsersState::<A, K, S, H, T>::NoState,
    {
        match self.take() {
            ParsersState::NoState => None,
            ParsersState::VerifyAddressState(_) => None,
            ParsersState::GetPubkeyState(_) => None,
            ParsersState::SignState(state) => Some(state),
            ParsersState::SignHashState(_) => None,
            ParsersState::MakeTransferTxState(_) => None,
        }
    }

    /// Moves the state of the `SignHash` parse out, if that is the parse in
    /// progress. Whatever was in progress is abandoned: the store is left
    /// idle.
    pub fn take_sign_hash_state(&mut self) -> (slot: Option<H>)
        ensures
            slot == old(self).sign_hash_slot(),
            *final(self) == ParsersState::<A, K, S, H, T>::NoState,
    {
        match self.take() {
            ParsersState::NoState => None,
            ParsersState::VerifyAddressState(_) => None,
            ParsersState::GetPubkeyState(_) => None,
            ParsersState::SignState(_) => None,
            ParsersState::SignHashState(state) => Some(state),
            ParsersState::MakeTransferTxState(_) => None,
        }
    }

    /// Moves the state of the `MakeTransferTx` parse out, if that is the
    /// parse in progress. Whatever was in progress is abandoned: the store
    /// is left idle.
    pub fn take_make_transfer_tx_state(&mut self) -> (slot: Option<T>)
        ensures
            slot == old(self).make_transfer_tx_slot(),
            *final(self) == ParsersState::<A, K, S, H, T>::NoState,
    {
        match self.take() {
            ParsersState::NoState => None,
            ParsersState::VerifyAddressState(_) => None,
            ParsersState::GetPubkeyState(_) => None,
            ParsersState::SignState(_) => None,
            ParsersState::SignHashState(_) => None,
            ParsersState::MakeTransferTxState(state) => Some(state),
        }
    }
}

/// Abandons whatever parse is in progress. On an idle store this changes
/// nothing, so it is safe to call at any time and any number of times.
pub fn reset_parsers_state<A, K, S, H, T>(state: &mut ParsersState<A, K, S, H, T>)
    ensures
        *final(state) == old(state).after_reset(),
        final(state).is_idle(),
        old(state).is_idle() ==> *final(state) == *old(state),
{
    *state = ParsersState::NoState;
}

/// At most one parse is in progress: of any state, whatever events led to
/// it, two instructions that are both being parsed are the same instruction.
pub proof fn lemma_single_active_parse<A, K, S, H, T>(state: ParsersState<A, K, S, H, T>)
    ensures
        forall|a: Ins, b: Ins| state.parsing(a) && state.parsing(b) ==> a == b,
        state.is_idle() <==> forall|ins: Ins| !state.parsing(ins),
        state.active() matches Some(ins) ==> ins.is_parser_backed(),
{
    if !state.is_idle() {
        assert(state.parsing(state.active().unwrap()));
    }
}

/// A reset of an idle store is a no-op, and a second reset changes nothing
/// that the first left.
pub proof fn lemma_reset_idempotent<A, K, S, H, T>(state: ParsersState<A, K, S, H, T>)
    ensures
        state.after_reset().is_idle(),
        state.is_idle() ==> state.after_reset() == state,
        state.after_reset().after_reset() == state.after_reset(),
{
}

} // verus!
