//! Commands chosen from the tray menu, handed from the tray thread to the window.
use std::sync::atomic::{AtomicU8, Ordering};
use std::sync::Arc;
use vstd::prelude::*;

verus! {

/// A tray menu command.
#[derive(Clone, Copy, Debug, PartialEq, Eq, Structural)]
pub enum TrayCommand {
    /// No command is waiting.
    NoCommand,
    Show,
    OpenSettings,
    Hide,
    Quit,
}

impl TrayCommand {
    /// The command that a stored code stands for; unknown codes stand for none.
    pub open spec fn spec_from_code(code: u8) -> TrayCommand {
        if code == 1 {
            TrayCommand::Show
        } else if code == 2 {
            TrayCommand::OpenSettings
        } else if code == 3 {
            TrayCommand::Hide
        } else if code == 4 {
            TrayCommand::Quit
        } else {
            TrayCommand::NoCommand
        }
    }

    /// The code under which a command is stored.
    pub open spec fn spec_code(self) -> u8 {
        match self {
            TrayCommand::NoCommand => 0,
            TrayCommand::Show => 1,
            TrayCommand::OpenSettings => 2,
            TrayCommand::Hide => 3,
            TrayCommand::Quit => 4,
        }
    }

    pub fn from_code(code: u8) -> (c: TrayCommand)
        ensures
            c == Self::spec_from_code(code),
    {
        match code {
            1 => TrayCommand::Show,
            2 => TrayCommand::OpenSettings,
            3 => TrayCommand::Hide,
            4 => TrayCommand::Quit,
            _ => TrayCommand::NoCommand,
        }
    }

    pub fn code(self) -> (code: u8)
        ensures
            code == self.spec_code(),
    {
        match self {
            TrayCommand::NoCommand => 0,
            TrayCommand::Show => 1,
            TrayCommand::OpenSettings => 2,
            TrayCommand::Hide => 3,
            TrayCommand::Quit => 4,
        }
    }
}

/// A command stored under its code is read back as the same command.
pub proof fn lemma_command_code_round_trip(c: TrayCommand)
    ensures
        TrayCommand::spec_from_code(c.spec_code()) == c,
{
}

/// The mailbox between the tray menu and the window: the tray stores the
/// latest command, the window takes it.
#[derive(Default)]
pub struct TrayController {
    command: Arc<AtomicU8>,
}

impl Clone for TrayController {
    /// Another handle to the same mailbox.
    fn clone(&self) -> Self {
        TrayController { command: self.command.clone() }
    }
}

impl TrayController {
    /// An empty mailbox. The code is kept in std's `AtomicU8`, whose stored
    /// value vstd does not specify, so no contract can say that it starts at
    /// 0; `take_command` on a fresh mailbox gives `NoCommand` (tested).
    pub fn new() -> Self {
        TrayController { command: Arc::new(AtomicU8::new(0)) }
    }

    /// Stores `command`, replacing any command not yet taken.
    pub fn request(&self, command: TrayCommand) {
        self.command.store(command.code(), Ordering::SeqCst);
    }

    /// Takes the stored command, leaving none behind. Which command comes
    /// back depends on what the tray thread stored last, which this code
    /// cannot see (vstd specifies no value for std's `AtomicU8::swap`); the
    /// decoding itself is [`TrayCommand::from_code`], whose contract is exact.
    pub fn take_command(&self) -> TrayCommand {
        let code = self.command.swap(0, Ordering::SeqCst);
        TrayCommand::from_code(code)
    }
}

} // verus!
