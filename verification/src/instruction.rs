//! The instructions a host can send.

use vstd::prelude::*;

verus! {

/// The closed set of instructions. Each command carries exactly one, decoded
/// once by the transport before the command reaches this library.
#[derive(Clone, Copy, Debug, PartialEq, Eq, Structural)]
pub enum Ins {
    /// Asks for the version triple and the application's name.
    GetVersion,
    /// Derives an address and has the user confirm it.
    VerifyAddress,
    /// Derives a public key without asking the user.
    GetPubkey,
    /// Signs a transaction that is shown to the user.
    Sign,
    /// Signs a bare hash. Permitted only while blind signing is enabled.
    SignHash,
    /// Builds and signs a transfer transaction.
    MakeTransferTx,
    /// Asks for the name and version as one line of text.
    GetVersionStr,
    /// Ends the application.
    Exit,
}

impl Ins {
    /// Whether the instruction is served by an incremental parser, and so
    /// may take several chunks and hold parser state between them. The
    /// others are answered at once from fixed data.
    pub open spec fn is_parser_backed(self) -> bool {
        self is VerifyAddress || self is GetPubkey || self is Sign || self is SignHash
            || self is MakeTransferTx
    }

    /// Executable form of [`Ins::is_parser_backed`].
    #[verifier::when_used_as_spec(is_parser_backed)]
    pub fn parser_backed(self) -> (backed: bool)
        ensures
            backed == self.is_parser_backed(),
    {
        match self {
            Ins::VerifyAddress => true,
            Ins::GetPubkey => true,
            Ins::Sign => true,
            Ins::SignHash => true,
            Ins::MakeTransferTx => true,
            Ins::GetVersion => false,
            Ins::GetVersionStr => false,
            Ins::Exit => false,
        }
    }
}

} // verus!
