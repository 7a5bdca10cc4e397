//! The fixed data that identifies the application: its name and version, and
//! the two responses made of them.

use crate::output::OutputBuffer;
use vstd::prelude::*;
use vstd::string::*;

verus! {

/// The major number of the version.
pub const VERSION_MAJOR: u8 = 0;

/// The minor number of the version.
pub const VERSION_MINOR: u8 = 2;

/// The patch number of the version.
pub const VERSION_PATCH: u8 = 1;

/// The name of the application.
pub const APP_NAME: &'static str = "Kadena";

/// The name and the version in one line.
pub const VERSION_TEXT: &'static str = "Kadena 0.2.1";

/// The name of the application as bytes: `Kadena`.
pub open spec fn app_name_bytes() -> Seq<u8> {
    seq![0x4bu8, 0x61u8, 0x64u8, 0x65u8, 0x6eu8, 0x61u8]
}

/// The response to `GetVersion`: the major, minor and patch number, one byte
/// each, and then the name.
pub open spec fn version_bytes() -> Seq<u8> {
    seq![VERSION_MAJOR, VERSION_MINOR, VERSION_PATCH] + app_name_bytes()
}

/// The response to `GetVersionStr`: the text `Kadena 0.2.1`.
pub open spec fn version_text_bytes() -> Seq<u8> {
    app_name_bytes() + seq![0x20u8, 0x30u8, 0x2eu8, 0x32u8, 0x2eu8, 0x31u8]
}

/// Builds the response to `GetVersion`.
pub fn version_response() -> (out: OutputBuffer)
    ensures
        out@ == version_bytes(),
{
    let mut out = OutputBuffer::new();
    let numbers: [u8; 3] = [VERSION_MAJOR, VERSION_MINOR, VERSION_PATCH];
    let name = APP_NAME.as_bytes();
    proof {
        reveal_strlit("Kadena");
        assert(is_ascii(APP_NAME));
        assert(name@ =~= app_name_bytes());
    }
    let numbered = out.append(numbers.as_slice());
    let named = out.append(name);
    assert(numbered && named);
    out
}

/// Builds the response to `GetVersionStr`.
pub fn version_text_response() -> (out: OutputBuffer)
    ensures
        out@ == version_text_bytes(),
{
    let mut out = OutputBuffer::new();
    let text = VERSION_TEXT.as_bytes();
    proof {
        reveal_strlit("Kadena 0.2.1");
        assert(is_ascii(VERSION_TEXT));
        assert(text@ =~= version_text_bytes());
    }
    let written = out.append(text);
    assert(written);
    out
}

} // verus!
