//! The command and response core of the Kadena hardware-wallet application.
//!
//! A host sends commands in chunks; each chunk carries an instruction and a
//! payload. The core parses the payload incrementally, keeps the state of
//! the one parse that may be in progress, and says what the host is to be
//! told and what is to be drawn on the screen. It touches neither the
//! transport nor the screen: the application around it delivers events and
//! carries out directives.
//!
//! * [`state`]: the parser state store.
//! * [`engine`]: the streaming parser engine, which drives one parser over
//!   one chunk, and the interface of a parser.
//! * [`dispatch`]: the command dispatcher, which applies the policy of each
//!   instruction and routes a command to its parser.
//! * [`reconciler`]: the decisions of the event loop.
//! * [`output`]: the fixed-capacity output buffer.
//! * [`instruction`], [`failure`], [`settings`], [`version`]: the
//!   instructions, the failures, the settings consulted, and the fixed
//!   responses.

pub mod dispatch;
pub mod engine;
pub mod failure;
pub mod instruction;
pub mod output;
pub mod reconciler;
pub mod settings;
pub mod state;
pub mod version;
