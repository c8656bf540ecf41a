//! The control-loop logic: decoding key events into commands, deciding when
//! a tick is due, and applying one loop iteration's event and tick to the
//! session. The host runs the loop itself (drawing, polling the input source,
//! reading the clock) and hands the results in as plain values.

use vstd::prelude::*;

use crate::session::App;
use crate::session::Command;

verus! {

/// The identity of a pressed key, as far as the loop cares: the quit key,
/// the activation key and the cancel key are a character or escape; every
/// other key is ignored.
#[derive(Clone, Copy, Debug, PartialEq, Eq, Structural)]
pub enum KeyInput {
    Character(char),
    Escape,
    Other,
}

/// Whether a key event is a press or a release; only presses act.
#[derive(Clone, Copy, Debug, PartialEq, Eq, Structural)]
pub enum PressKind {
    Press,
    Release,
}

/// One key event from the input source.
#[derive(Clone, Copy, Debug, PartialEq, Eq, Structural)]
pub struct KeyEvent {
    pub key: KeyInput,
    pub kind: PressKind,
}

/// What `key_command` returns: releases and unbound keys map to nothing;
/// `q` asks to quit, space toggles the timer, escape goes back.
pub open spec fn spec_key_command(ev: KeyEvent) -> Option<Command> {
    if ev.kind is Release {
        None
    } else {
        match ev.key {
            KeyInput::Character(c) => if c == 'q' {
                Some(Command::Quit)
            } else if c == ' ' {
                Some(Command::Toggle)
            } else {
                None
            },
            KeyInput::Escape => Some(Command::Back),
            KeyInput::Other => None,
        }
    }
}

/// Decode one key event into a command, if the key is bound: on a press,
/// `q` is `Quit`, space is `Toggle` and escape is `Back`; a release or any
/// other key is ignored.
pub fn key_command(ev: KeyEvent) -> (cmd: Option<Command>)
    ensures
        cmd == spec_key_command(ev),
{
    match ev.kind {
        PressKind::Release => None,
        PressKind::Press => match ev.key {
            KeyInput::Character(c) => {
                if c == 'q' {
                    Some(Command::Quit)
                } else if c == ' ' {
                    Some(Command::Toggle)
                } else {
                    None
                }
            }
            KeyInput::Escape => Some(Command::Back),
            KeyInput::Other => None,
        },
    }
}

/// How long the loop may wait for input before the next tick is due: the
/// tick period minus the time already spent since the last tick, clamped at
/// zero.
pub fn tick_timeout_ms(period_ms: u64, since_last_tick_ms: u64) -> (t: u64)
    ensures
        t == if since_last_tick_ms >= period_ms {
            0u64
        } else {
            (period_ms - since_last_tick_ms) as u64
        },
{
    if since_last_tick_ms >= period_ms {
        0
    } else {
        period_ms - since_last_tick_ms
    }
}

/// Whether a full tick period has passed since the last tick fired.
pub fn tick_due(period_ms: u64, since_last_tick_ms: u64) -> (due: bool)
    ensures
        due == (since_last_tick_ms >= period_ms),
{
    since_last_tick_ms >= period_ms
}

/// The state an event leaves the session in, before any tick: nothing for no
/// event or an unbound key, else one command applied.
pub open spec fn spec_after_event(s: App, event: Option<KeyEvent>) -> App {
    match event {
        None => s,
        Some(ev) => match spec_key_command(ev) {
            None => s,
            Some(cmd) => s.spec_handle_command(cmd),
        },
    }
}

/// Law: an event that decodes to no command — a release, or an unbound key —
/// leaves every field of the state unchanged.
pub proof fn lemma_unbound_event_changes_nothing(s: App, ev: KeyEvent)
    requires
        spec_key_command(ev) is None,
    ensures
        spec_after_event(s, Some(ev)) == s,
{
}

impl App {
    /// Apply one control-loop iteration's mutations: at most one command,
    /// from the event the input source handed back within the timeout (if
    /// any), and then one tick if the tick period has passed — the tick fires
    /// whether or not a command did. Returns whether the audio cue should
    /// fire.
    pub fn loop_step(&mut self, event: Option<KeyEvent>, tick_is_due: bool) -> (cue: bool)
        requires
            old(self).wf(),
            tick_is_due ==> spec_after_event(*old(self), event).tick_counter_ok(),
        ensures
            tick_is_due ==> *final(self) == spec_after_event(*old(self), event).spec_on_tick().0
                && cue == spec_after_event(*old(self), event).spec_on_tick().1,
            !tick_is_due ==> *final(self) == spec_after_event(*old(self), event) && cue == false,
            final(self).wf(),
    {
        if let Some(ev) = event {
            if let Some(cmd) = key_command(ev) {
                self.handle_command(cmd);
            }
        }
        if tick_is_due {
            self.on_tick()
        } else {
            false
        }
    }
}

} // verus!
