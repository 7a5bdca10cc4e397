//! The failures a command can end in.

use vstd::prelude::*;

verus! {

/// The first line of the prompt that explains a refused hash signing.
pub const BLIND_SIGNING_PROMPT_TITLE: &'static str = "Blind Signing must";

/// The second line of the prompt that explains a refused hash signing.
pub const BLIND_SIGNING_PROMPT_BODY: &'static str = "be enabled";

/// Why a command failed. The transport turns each into the status it sends
/// to the host; none of them ends the application.
#[derive(Clone, Copy, Debug, PartialEq, Eq, Structural)]
pub enum Failure {
    /// The command arrived without any payload. Nothing was begun.
    NothingReceived,
    /// The generic protocol error: the input was rejected, was malformed or
    /// over-long, or a parser broke its own contract. The parse that was in
    /// progress is abandoned and the host has to start again.
    Unknown,
    /// The operation is switched off in the settings. The user is to be told
    /// so in a blocking prompt before the host is answered.
    NotSupported,
}

/// The two lines of a blocking prompt.
#[derive(Clone, Copy, Debug, PartialEq, Eq)]
pub struct Prompt {
    /// The first line.
    pub title: &'static str,
    /// The second line.
    pub body: &'static str,
}

impl Failure {
    /// Whether the user has to be shown a blocking prompt that explains the
    /// failure before the host is answered.
    pub open spec fn needs_prompt(self) -> bool {
        self is NotSupported
    }

    /// Executable form of [`Failure::needs_prompt`].
    #[verifier::when_used_as_spec(needs_prompt)]
    pub fn prompts_user(self) -> (prompt: bool)
        ensures
            prompt == self.needs_prompt(),
    {
        match self {
            Failure::NothingReceived => false,
            Failure::Unknown => false,
            Failure::NotSupported => true,
        }
    }

    /// The prompt the user has to be shown before the host is answered, for
    /// the failure that calls for one: "Blind Signing must / be enabled".
    pub fn prompt(self) -> (prompt: Option<Prompt>)
        ensures
            prompt is Some <==> self.needs_prompt(),
            prompt matches Some(lines) ==> lines.title@ == BLIND_SIGNING_PROMPT_TITLE@
                && lines.body@ == BLIND_SIGNING_PROMPT_BODY@,
    {
        match self {
            Failure::NothingReceived => None,
            Failure::Unknown => None,
            Failure::NotSupported => Some(
                Prompt { title: BLIND_SIGNING_PROMPT_TITLE, body: BLIND_SIGNING_PROMPT_BODY },
            ),
        }
    }
}

} // verus!
