//! The shortcut registry: the one global shortcut that is bound at a time.
//!
//! Binding happens in two steps around the system's hotkey facility: first
//! every binding is dropped and the text is read, then the system's answer to
//! the new binding is recorded.
use vstd::prelude::*;
use crate::shortcut::{ParseError, ParseFailure, ShortcutSpec, parse_model, parse_shortcut};

verus! {

/// The transition that a key event reports.
#[derive(Clone, Copy, Debug, PartialEq, Eq, Structural)]
pub enum KeyState {
    Pressed,
    Released,
}

/// Why a shortcut could not be bound.
#[derive(Clone, Debug, PartialEq, Eq)]
pub enum RegistrationError {
    /// The text is no valid shortcut.
    InvalidSpec(ParseError),
    /// The system refused the binding, with its message.
    OsRejected(String),
}

/// The binding left once every binding is dropped.
pub open spec fn cleared(before: Option<ShortcutSpec>) -> Option<ShortcutSpec> {
    None
}

/// The binding left once the system has answered a request to bind `sc`.
pub open spec fn answered(cur: Option<ShortcutSpec>, sc: ShortcutSpec, accepted: bool) -> Option<
    ShortcutSpec,
> {
    if accepted {
        Some(sc)
    } else {
        None
    }
}

/// Whether a key event fires while `active` is bound: only a press of the
/// bound shortcut does.
pub open spec fn fires(active: Option<ShortcutSpec>, sc: ShortcutSpec, state: KeyState) -> bool {
    active == Some(sc) && state == KeyState::Pressed
}

/// Holds the one global shortcut that is bound, if any.
pub struct ShortcutRegistry {
    active: Option<ShortcutSpec>,
}

impl View for ShortcutRegistry {
    type V = Option<ShortcutSpec>;

    closed spec fn view(&self) -> Option<ShortcutSpec> {
        self.active
    }
}

impl ShortcutRegistry {
    /// A registry with nothing bound.
    pub fn new() -> (r: ShortcutRegistry)
        ensures
            r@ is None,
    {
        ShortcutRegistry { active: None }
    }

    /// The shortcut that is bound, if any.
    pub fn active(&self) -> (r: Option<ShortcutSpec>)
        ensures
            r == self@,
    {
        self.active
    }

    /// Drops every binding, then reads `shortcut_str`. On success the caller
    /// asks the system to bind the shortcut returned and reports its answer
    /// to `finish_register`.
    pub fn begin_register(&mut self, shortcut_str: &str) -> (r: Result<ShortcutSpec, RegistrationError>)
        ensures
            final(self)@ == cleared(old(self)@),
            match r {
                Ok(sc) => parse_model(shortcut_str@) == Ok::<ShortcutSpec, ParseFailure>(sc),
                Err(RegistrationError::InvalidSpec(e)) => parse_model(shortcut_str@) == Err::<
                    ShortcutSpec,
                    ParseFailure,
                >(e@),
                Err(RegistrationError::OsRejected(_)) => false,
            },
    {
        self.active = None;
        match parse_shortcut(shortcut_str) {
            Ok(sc) => Ok(sc),
            Err(e) => Err(RegistrationError::InvalidSpec(e)),
        }
    }

    /// Records the system's answer to the request to bind `sc`: bound when it
    /// accepted, nothing bound when it refused.
    pub fn finish_register(&mut self, sc: ShortcutSpec, answer: Result<(), String>) -> (r: Result<
        (),
        RegistrationError,
    >)
        requires
            old(self)@ is None,
        ensures
            final(self)@ == answered(old(self)@, sc, answer is Ok),
            match answer {
                Ok(_) => r is Ok,
                Err(m) => r == Err::<(), RegistrationError>(RegistrationError::OsRejected(m)),
            },
    {
        match answer {
            Ok(_) => {
                self.active = Some(sc);
                Ok(())
            },
            Err(m) => Err(RegistrationError::OsRejected(m)),
        }
    }

    /// Whether a key event of the system brings up the capture window: only
    /// the press of the bound shortcut does.
    pub fn fires_on(&self, sc: ShortcutSpec, state: KeyState) -> (r: bool)
        ensures
            r == fires(self@, sc, state),
    {
        match self.active {
            Some(a) => a == sc && state == KeyState::Pressed,
            None => false,
        }
    }
}

/// Binding a valid shortcut text again leaves exactly that shortcut bound
/// once the system accepts it, whatever was bound before.
pub proof fn lemma_rebind_leaves_one(before: Option<ShortcutSpec>, s: Seq<char>)
    requires
        parse_model(s) is Ok,
    ensures
        answered(cleared(before), parse_model(s)->Ok_0, true) == Some(parse_model(s)->Ok_0),
{
}

/// Two saves in a row, both accepted, leave only the second shortcut bound,
/// and only a press of it fires.
pub proof fn lemma_second_save_wins(
    before: Option<ShortcutSpec>,
    first: Seq<char>,
    second: Seq<char>,
    pressed: ShortcutSpec,
)
    requires
        parse_model(first) is Ok,
        parse_model(second) is Ok,
    ensures
        ({
            let after = answered(
                cleared(answered(cleared(before), parse_model(first)->Ok_0, true)),
                parse_model(second)->Ok_0,
                true,
            );
            &&& after == Some(parse_model(second)->Ok_0)
            &&& fires(after, pressed, KeyState::Pressed) <==> pressed == parse_model(second)->Ok_0
            &&& !fires(after, pressed, KeyState::Released)
        }),
{
}

} // verus!
