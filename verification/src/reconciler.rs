//! The menu and event reconciler: the decisions of the application's one
//! control loop.
//!
//! The loop itself waits for events, draws menus and talks to the host, none
//! of which this library does. It hands each event to [`handle_event`],
//! which updates the parser state and returns a [`Directive`]: what to send,
//! what to draw, whether to end.

use crate::dispatch::{dispatched, handle_apdu, Parsers, Response};
use crate::engine::ChunkParser;
use crate::failure::Failure;
use crate::instruction::Ins;
use crate::output::OutputBuffer;
use crate::settings::Settings;
use crate::state::{reset_parsers_state, ParsersState};
use vstd::prelude::*;

verus! {

/// The two menus. Which one is on screen, and which one a button press goes
/// to, follows from the parser state alone: see [`menu_of`].
#[derive(Clone, Copy, Debug, PartialEq, Eq, Structural)]
pub enum Menu {
    /// The menu shown while no parse is in progress.
    Idle,
    /// The menu shown while a parse is in progress.
    Busy,
}

/// What a menu can make of a button press, beyond moving within itself.
#[derive(Clone, Copy, Debug, PartialEq, Eq, Structural)]
pub enum MenuAction {
    /// The user chose to leave the application.
    Exit,
    /// The user chose to cancel what is going on.
    Cancel,
}

/// One event of the loop.
#[derive(Clone, Copy, Debug)]
pub enum Event<'a> {
    /// The host sent a command, or the next chunk of one: the instruction
    /// `ins` with the payload `data`.
    Command { ins: Ins, data: &'a [u8] },
    /// A button was pressed. The menu on screen has seen the press already,
    /// and this is the action it made of it, if any.
    Button(Option<MenuAction>),
    /// Time passed.
    Ticker,
}

/// What the loop is to do after an event.
#[derive(Debug, PartialEq, Eq)]
pub enum Directive {
    /// Answer the host with `result`, after the blocking prompt where the
    /// failure calls for one, then draw `menu`.
    Reply { result: Result<OutputBuffer, Failure>, menu: Menu },
    /// Draw `menu`. The host is not answered.
    Redraw { menu: Menu },
    /// End the process with the success status. No further event is
    /// handled and the host is not answered.
    Exit,
    /// Nothing is to be done.
    Nothing,
}

/// The menu that belongs to a parser state: the idle menu while no parse is
/// in progress, the busy menu otherwise.
pub open spec fn menu_of<A, K, S, H, T>(states: ParsersState<A, K, S, H, T>) -> Menu {
    if states.is_idle() {
        Menu::Idle
    } else {
        Menu::Busy
    }
}

/// The parser state after a button press that the menu on screen turned
/// into `action`: a cancellation abandons the parse in progress, and nothing
/// else changes anything.
pub open spec fn state_after_button<A, K, S, H, T>(
    before: ParsersState<A, K, S, H, T>,
    action: Option<MenuAction>,
) -> ParsersState<A, K, S, H, T> {
    if !before.is_idle() && action == Some(MenuAction::Cancel) {
        before.after_reset()
    } else {
        before
    }
}

/// The directive after a button press that the menu on screen turned into
/// `action`: the idle menu's exit ends the process, and after everything
/// else the menu of the new state is drawn.
pub open spec fn directive_after_button<A, K, S, H, T>(
    before: ParsersState<A, K, S, H, T>,
    action: Option<MenuAction>,
) -> Directive {
    if before.is_idle() && action == Some(MenuAction::Exit) {
        Directive::Exit
    } else {
        Directive::Redraw { menu: menu_of(state_after_button(before, action)) }
    }
}

/// The directive that a command's result calls for once the parser state is
/// `after`.
pub open spec fn directive_of<A, K, S, H, T>(
    r: Result<Response, Failure>,
    after: ParsersState<A, K, S, H, T>,
) -> Directive {
    match r {
        Ok(Response::Exit) => Directive::Exit,
        Ok(Response::Ack(out)) => Directive::Reply { result: Ok(out), menu: menu_of(after) },
        Err(failure) => Directive::Reply { result: Err(failure), menu: menu_of(after) },
    }
}

/// The result of the command that `directive` answers or obeys, for the
/// directives that come of a command.
pub open spec fn command_result(directive: Directive) -> Option<Result<Response, Failure>> {
    match directive {
        Directive::Reply { result: Ok(out), .. } => Some(Ok(Response::Ack(out))),
        Directive::Reply { result: Err(failure), .. } => Some(Err(failure)),
        Directive::Exit => Some(Ok(Response::Exit)),
        Directive::Redraw { .. } => None,
        Directive::Nothing => None,
    }
}

/// What [`handle_command`] does with a command of `ins` and payload `data`,
/// between the parser state `before` and `after`: the command is
/// [`dispatched`], and the directive is the one its result calls for.
pub open spec fn commanded<VA, GP, SG, SH, MT>(
    data: &[u8],
    ins: Ins,
    settings: Settings,
    parsers: &Parsers<VA, GP, SG, SH, MT>,
    before: ParsersState<VA::State, GP::State, SG::State, SH::State, MT::State>,
    after: ParsersState<VA::State, GP::State, SG::State, SH::State, MT::State>,
    directive: Directive,
) -> bool where VA: ChunkParser, GP: ChunkParser, SG: ChunkParser, SH: ChunkParser, MT: ChunkParser {
    command_result(directive) matches Some(r) && dispatched(
        data,
        ins,
        settings,
        parsers,
        before,
        after,
        r,
    ) && directive == directive_of(r, after)
}

impl Directive {
    /// Whether the busy menu is to be put back to its first entry. It is
    /// whenever the idle menu is drawn: while no parse is in progress the
    /// busy menu rests at its first entry, so that the next busy phase
    /// starts from there.
    pub open spec fn resets_busy_menu(self) -> bool {
        match self {
            Directive::Reply { menu, .. } => menu is Idle,
            Directive::Redraw { menu } => menu is Idle,
            Directive::Exit => false,
            Directive::Nothing => false,
        }
    }

    /// Executable form of [`Directive::resets_busy_menu`].
    pub fn busy_menu_reset(&self) -> (reset: bool)
        ensures
            reset == self.resets_busy_menu(),
    {
        match self {
            Directive::Reply { result: _, menu: Menu::Idle } => true,
            Directive::Reply { result: _, menu: Menu::Busy } => false,
            Directive::Redraw { menu: Menu::Idle } => true,
            Directive::Redraw { menu: Menu::Busy } => false,
            Directive::Exit => false,
            Directive::Nothing => false,
        }
    }
}

/// The menu that is on screen, and that the next button press goes to.
pub fn active_menu<A, K, S, H, T>(states: &ParsersState<A, K, S, H, T>) -> (menu: Menu)
    ensures
        menu == menu_of(*states),
{
    if states.idle() {
        Menu::Idle
    } else {
        Menu::Busy
    }
}

/// Handles a button press that the menu on screen, [`active_menu`], turned
/// into `action`.
///
/// While no parse is in progress only `Exit` has an effect: it ends the
/// process. While one is in progress only `Cancel` has an effect: it
/// abandons the parse. The host is never answered.
pub fn handle_button<A, K, S, H, T>(
    states: &mut ParsersState<A, K, S, H, T>,
    action: Option<MenuAction>,
) -> (directive: Directive)
    ensures
        *final(states) == state_after_button(*old(states), action),
        directive == directive_after_button(*old(states), action),
{
    if states.idle() {
        match action {
            Some(MenuAction::Exit) => Directive::Exit,
            Some(MenuAction::Cancel) => Directive::Redraw { menu: Menu::Idle },
            None => Directive::Redraw { menu: Menu::Idle },
        }
    } else {
        match action {
            Some(MenuAction::Cancel) => {
                reset_parsers_state(states);
                Directive::Redraw { menu: Menu::Idle }
            },
            Some(MenuAction::Exit) => Directive::Redraw { menu: Menu::Busy },
            None => Directive::Redraw { menu: Menu::Busy },
        }
    }
}

/// Handles a command: dispatches it with [`handle_apdu`] and says what the
/// loop owes the host and the screen afterwards.
pub fn handle_command<VA, GP, SG, SH, MT>(
    data: &[u8],
    ins: Ins,
    states: &mut ParsersState<VA::State, GP::State, SG::State, SH::State, MT::State>,
    settings: &Settings,
    parsers: &Parsers<VA, GP, SG, SH, MT>,
) -> (directive: Directive) where
    VA: ChunkParser,
    GP: ChunkParser,
    SG: ChunkParser,
    SH: ChunkParser,
    MT: ChunkParser,

    ensures
        commanded(data, ins, *settings, parsers, *old(states), *final(states), directive),
        directive is Exit <==> data@.len() > 0 && ins is Exit,
        !(directive is Exit) ==> directive is Reply,
        directive matches Directive::Reply { menu, .. } ==> menu == menu_of(*final(states)),
{
    match handle_apdu(data, ins, states, settings, parsers) {
        Ok(Response::Exit) => Directive::Exit,
        Ok(Response::Ack(out)) => Directive::Reply { result: Ok(out), menu: active_menu(states) },
        Err(failure) => Directive::Reply { result: Err(failure), menu: active_menu(states) },
    }
}

/// Handles one event of the loop.
///
/// * A command is dispatched, and the host is owed its result.
/// * A button press acts on the parser state as [`handle_button`] says.
/// * A tick changes nothing and asks for nothing.
///
/// Apart from `Exit` and `Nothing`, every directive names the menu of the
/// state the event left. The process is asked to end only by an `Exit`
/// command with a payload and by the exit of the idle menu.
pub fn handle_event<VA, GP, SG, SH, MT>(
    event: Event<'_>,
    states: &mut ParsersState<VA::State, GP::State, SG::State, SH::State, MT::State>,
    settings: &Settings,
    parsers: &Parsers<VA, GP, SG, SH, MT>,
) -> (directive: Directive) where
    VA: ChunkParser,
    GP: ChunkParser,
    SG: ChunkParser,
    SH: ChunkParser,
    MT: ChunkParser,

    ensures
        match event {
            Event::Command { ins, data } => commanded(
                data,
                ins,
                *settings,
                parsers,
                *old(states),
                *final(states),
                directive,
            ),
            Event::Button(action) => *final(states) == state_after_button(*old(states), action)
                && directive == directive_after_button(*old(states), action),
            Event::Ticker => *final(states) == *old(states) && directive == Directive::Nothing,
        },
        directive matches Directive::Reply { menu, .. } ==> menu == menu_of(*final(states)),
        directive matches Directive::Redraw { menu } ==> menu == menu_of(*final(states)),
        directive is Reply <==> event is Command && !(directive is Exit),
        directive is Exit <==> (event matches Event::Command { ins, data } && ins is Exit
            && data@.len() > 0) || (event matches Event::Button(action) && old(states).is_idle()
            && action == Some(MenuAction::Exit)),
{
    match event {
        Event::Command { ins, data } => handle_command(data, ins, states, settings, parsers),
        Event::Button(action) => handle_button(states, action),
        Event::Ticker => Directive::Nothing,
    }
}

/// Cancelling is safe. From a state with a parse in progress it leads to the
/// idle state; from the idle state it changes nothing. Either way the host
/// is not answered, so no output is produced, and the idle menu is drawn.
pub proof fn lemma_cancel_is_safe<A, K, S, H, T>(before: ParsersState<A, K, S, H, T>)
    ensures
        state_after_button(before, Some(MenuAction::Cancel)).is_idle(),
        before.is_idle() ==> state_after_button(before, Some(MenuAction::Cancel)) == before,
        directive_after_button(before, Some(MenuAction::Cancel)) == (Directive::Redraw {
            menu: Menu::Idle,
        }),
{
}

/// The process ends on a button press only where the idle menu's exit was
/// chosen, and a press that ends it or that the menu kept to itself leaves
/// the parser state alone.
pub proof fn lemma_exit_only_when_idle<A, K, S, H, T>(
    before: ParsersState<A, K, S, H, T>,
    action: Option<MenuAction>,
)
    ensures
        directive_after_button(before, action) is Exit <==> before.is_idle() && action == Some(
            MenuAction::Exit,
        ),
        action != Some(MenuAction::Cancel) ==> state_after_button(before, action) == before,
{
}

} // verus!
