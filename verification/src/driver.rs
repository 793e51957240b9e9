//! The session driver: the order in which the terminal is taken, the loop
//! is run and the terminal is given back. The driver decides; the caller
//! carries each command out and reports how it went.

use vstd::prelude::*;

use crate::session::Effect;

verus! {

/// What the driver is waiting on.
#[derive(Clone, Copy, Debug, PartialEq, Eq, Structural)]
pub enum Phase {
    /// The task list is being read.
    Loading,
    /// Raw input mode is being switched on.
    EnablingRaw,
    /// The alternate screen is being entered.
    EnteringScreen,
    /// A frame is being drawn.
    Drawing,
    /// Input is awaited, for a bounded time.
    Polling,
    /// The task list is being written back.
    Saving,
    /// Raw input mode is being switched off.
    DisablingRaw,
    /// The alternate screen is being left.
    LeavingScreen,
    /// The cursor is being shown again.
    ShowingCursor,
    /// The session is over.
    Finished,
}

/// How a session ended.
#[derive(Clone, Copy, Debug, PartialEq, Eq, Structural)]
pub enum Ending {
    /// The user quit.
    Quit,
    /// The task list could not be read or the terminal failed; the error is
    /// to be passed on.
    Fatal,
}

/// What the caller is to do next.
#[derive(Clone, Copy, Debug, PartialEq, Eq, Structural)]
pub enum Command {
    /// Read the whole task list.
    Load,
    EnableRaw,
    EnterScreen,
    /// Render the current state and draw it.
    Draw,
    /// Wait for input up to the poll timeout and hand a key to the session.
    Poll,
    /// Write the whole task list back.
    Save,
    DisableRaw,
    LeaveScreen,
    ShowCursor,
    /// Stop; the terminal is as it was found.
    Exit(Ending),
}

/// How the last command went.
#[derive(Clone, Copy, Debug, PartialEq, Eq, Structural)]
pub enum Signal {
    /// It was carried out.
    Done,
    /// It failed.
    Failed,
    /// A key arrived and the session handled it, with this effect.
    Handled(Effect),
    /// No key arrived in time.
    Idle,
}

/// The longest wait for input, in milliseconds.
pub const POLL_TIMEOUT_MS: u64 = 200;

/// The driver's state.
#[derive(Clone, Copy, Debug, PartialEq, Eq, Structural)]
pub struct Driver {
    pub phase: Phase,
    /// Raw input mode is on and has not been given back.
    pub raw: bool,
    /// The alternate screen is shown and has not been left.
    pub screen: bool,
    /// The cursor may be hidden and has not been shown again.
    pub cursor: bool,
    /// The terminal has failed.
    pub fatal: bool,
    /// The last save failed: the list on disk is behind the one in memory.
    pub unsaved: bool,
}

/// The state and the command that a step leaves.
pub ghost struct Step {
    pub driver: Driver,
    pub command: Command,
}

/// The first state: nothing is held, the task list is asked for.
pub open spec fn first() -> Step {
    Step {
        driver: Driver {
            phase: Phase::Loading,
            raw: false,
            screen: false,
            cursor: false,
            fatal: false,
            unsaved: false,
        },
        command: Command::Load,
    }
}

/// Gives back what is still held, one thing per step and each marked as
/// given back when its command goes out: raw mode, then the screen, then the
/// cursor. With nothing left the session ends.
pub open spec fn release(driver: Driver) -> Step {
    if driver.raw {
        Step {
            driver: Driver { phase: Phase::DisablingRaw, raw: false, ..driver },
            command: Command::DisableRaw,
        }
    } else if driver.screen {
        Step {
            driver: Driver { phase: Phase::LeavingScreen, screen: false, ..driver },
            command: Command::LeaveScreen,
        }
    } else if driver.cursor {
        Step {
            driver: Driver { phase: Phase::ShowingCursor, cursor: false, ..driver },
            command: Command::ShowCursor,
        }
    } else {
        Step {
            driver: Driver { phase: Phase::Finished, ..driver },
            command: Command::Exit(
                if driver.fatal {
                    Ending::Fatal
                } else {
                    Ending::Quit
                },
            ),
        }
    }
}

/// A frame is drawn next.
pub open spec fn draw(driver: Driver) -> Step {
    Step { driver: Driver { phase: Phase::Drawing, ..driver }, command: Command::Draw }
}

/// The transition table. A task list that cannot be read and a failure of
/// the terminal are fatal: what is held is given back and the session ends.
/// A failed save is not: the session goes on and remembers that the disk is
/// behind.
pub open spec fn next(driver: Driver, signal: Signal) -> Step {
    let failed = Driver { fatal: true, ..driver };
    match driver.phase {
        Phase::Loading => if signal is Failed {
            release(failed)
        } else {
            Step {
                driver: Driver { phase: Phase::EnablingRaw, ..driver },
                command: Command::EnableRaw,
            }
        },
        Phase::EnablingRaw => if signal is Failed {
            release(failed)
        } else {
            Step {
                driver: Driver { phase: Phase::EnteringScreen, raw: true, ..driver },
                command: Command::EnterScreen,
            }
        },
        Phase::EnteringScreen => if signal is Failed {
            release(failed)
        } else {
            draw(Driver { screen: true, cursor: true, ..driver })
        },
        Phase::Drawing => if signal is Failed {
            release(failed)
        } else {
            Step { driver: Driver { phase: Phase::Polling, ..driver }, command: Command::Poll }
        },
        Phase::Polling => match signal {
            Signal::Failed => release(failed),
            Signal::Handled(Effect::Quit) => release(driver),
            Signal::Handled(Effect::Persist) => Step {
                driver: Driver { phase: Phase::Saving, ..driver },
                command: Command::Save,
            },
            _ => draw(driver),
        },
        Phase::Saving => draw(Driver { unsaved: signal is Failed, ..driver }),
        Phase::DisablingRaw | Phase::LeavingScreen | Phase::ShowingCursor => if signal is Failed {
            release(failed)
        } else {
            release(driver)
        },
        Phase::Finished => release(driver),
    }
}

impl Driver {
    /// Starts a session: the driver and its first command.
    pub fn start() -> (begun: (Driver, Command))
        ensures
            begun.0 == first().driver,
            begun.1 == first().command,
    {
        (
            Driver {
                phase: Phase::Loading,
                raw: false,
                screen: false,
                cursor: false,
                fatal: false,
                unsaved: false,
            },
            Command::Load,
        )
    }

    fn give_back(&mut self) -> (command: Command)
        ensures
            *final(self) == release(*old(self)).driver,
            command == release(*old(self)).command,
    {
        if self.raw {
            self.phase = Phase::DisablingRaw;
            self.raw = false;
            Command::DisableRaw
        } else if self.screen {
            self.phase = Phase::LeavingScreen;
            self.screen = false;
            Command::LeaveScreen
        } else if self.cursor {
            self.phase = Phase::ShowingCursor;
            self.cursor = false;
            Command::ShowCursor
        } else {
            self.phase = Phase::Finished;
            if self.fatal {
                Command::Exit(Ending::Fatal)
            } else {
                Command::Exit(Ending::Quit)
            }
        }
    }

    /// Takes the report on the last command and gives the next one.
    pub fn step(&mut self, signal: Signal) -> (command: Command)
        ensures
            *final(self) == next(*old(self), signal).driver,
            command == next(*old(self), signal).command,
    {
        let failed = match signal {
            Signal::Failed => true,
            _ => false,
        };
        match self.phase {
            Phase::Loading => {
                if failed {
                    self.fatal = true;
                    self.give_back()
                } else {
                    self.phase = Phase::EnablingRaw;
                    Command::EnableRaw
                }
            },
            Phase::EnablingRaw => {
                if failed {
                    self.fatal = true;
                    self.give_back()
                } else {
                    self.phase = Phase::EnteringScreen;
                    self.raw = true;
                    Command::EnterScreen
                }
            },
            Phase::EnteringScreen => {
                if failed {
                    self.fatal = true;
                    self.give_back()
                } else {
                    self.phase = Phase::Drawing;
                    self.screen = true;
                    self.cursor = true;
                    Command::Draw
                }
            },
            Phase::Drawing => {
                if failed {
                    self.fatal = true;
                    self.give_back()
                } else {
                    self.phase = Phase::Polling;
                    Command::Poll
                }
            },
            Phase::Polling => match signal {
                Signal::Failed => {
                    self.fatal = true;
                    self.give_back()
                },
                Signal::Handled(Effect::Quit) => self.give_back(),
                Signal::Handled(Effect::Persist) => {
                    self.phase = Phase::Saving;
                    Command::Save
                },
                _ => {
                    self.phase = Phase::Drawing;
                    Command::Draw
                },
            },
            Phase::Saving => {
                self.unsaved = failed;
                self.phase = Phase::Drawing;
                Command::Draw
            },
            Phase::DisablingRaw | Phase::LeavingScreen | Phase::ShowingCursor => {
                if failed {
                    self.fatal = true;
                }
                self.give_back()
            },
            Phase::Finished => self.give_back(),
        }
    }

    /// The warning to show while the disk is behind.
    pub fn notice(&self) -> (warning: Option<&'static str>)
        ensures
            warning is Some <==> self.unsaved,
            warning matches Some(text) ==> text@ == unsaved_warning(),
    {
        if self.unsaved {
            Some("Save failed: the task list on disk is out of date")
        } else {
            None
        }
    }
}

/// The warning that a failed save leaves on the screen.
pub open spec fn unsaved_warning() -> Seq<char> {
    "Save failed: the task list on disk is out of date"@
}

/// How often each part of the terminal was taken and given back.
pub ghost struct Ledger {
    pub raw_taken: nat,
    pub raw_given_back: nat,
    pub screen_taken: nat,
    pub screen_given_back: nat,
}

/// The ledger after one more step: a part counts as taken when the command
/// that takes it is reported done, and as given back when the command that
/// gives it back goes out.
pub open spec fn booked(ledger: Ledger, driver: Driver, signal: Signal) -> Ledger {
    let command = next(driver, signal).command;
    Ledger {
        raw_taken: ledger.raw_taken + if driver.phase == Phase::EnablingRaw && !(signal is Failed) {
            1nat
        } else {
            0nat
        },
        raw_given_back: ledger.raw_given_back + if command == Command::DisableRaw {
            1nat
        } else {
            0nat
        },
        screen_taken: ledger.screen_taken + if driver.phase == Phase::EnteringScreen && !(signal
            is Failed) {
            1nat
        } else {
            0nat
        },
        screen_given_back: ledger.screen_given_back + if command == Command::LeaveScreen {
            1nat
        } else {
            0nat
        },
    }
}

/// The driver and the ledger after a run of reports.
pub open spec fn after_run(driver: Driver, ledger: Ledger, signals: Seq<Signal>) -> (Driver, Ledger)
    decreases signals.len(),
{
    if signals.len() == 0 {
        (driver, ledger)
    } else {
        let before = after_run(driver, ledger, signals.drop_last());
        (next(before.0, signals.last()).driver, booked(before.1, before.0, signals.last()))
    }
}

/// The driver's flags agree with the ledger: a part is held exactly when it
/// was taken once and not given back, and nothing is taken or given back
/// twice.
pub open spec fn balanced(driver: Driver, ledger: Ledger) -> bool {
    &&& ledger.raw_taken == ledger.raw_given_back + if driver.raw {
        1nat
    } else {
        0nat
    }
    &&& ledger.screen_taken == ledger.screen_given_back + if driver.screen {
        1nat
    } else {
        0nat
    }
    &&& ledger.raw_taken <= 1
    &&& ledger.screen_taken <= 1
    &&& driver.screen ==> driver.cursor
    &&& match driver.phase {
        Phase::Loading | Phase::EnablingRaw => !driver.raw && !driver.screen && !driver.cursor
            && ledger.raw_taken == 0 && ledger.screen_taken == 0,
        Phase::EnteringScreen => driver.raw && ledger.screen_taken == 0,
        Phase::Drawing | Phase::Polling | Phase::Saving => driver.raw && driver.screen,
        Phase::DisablingRaw => !driver.raw,
        Phase::LeavingScreen => !driver.raw && !driver.screen,
        Phase::ShowingCursor | Phase::Finished => !driver.raw && !driver.screen && !driver.cursor,
    }
}

/// One step keeps the books balanced.
pub proof fn lemma_step_keeps_balance(driver: Driver, ledger: Ledger, signal: Signal)
    requires
        balanced(driver, ledger),
    ensures
        balanced(next(driver, signal).driver, booked(ledger, driver, signal)),
{
}

/// Whatever is reported, in whatever order: raw mode and the alternate
/// screen are each taken at most once, and given back exactly as often as
/// they were taken by the time the session is over, on the way out through
/// a quit as through a failure. While the loop runs both are held, and
/// before the task list is read neither is.
pub proof fn lemma_terminal_is_given_back(signals: Seq<Signal>)
    ensures
        ({
            let start = Ledger { raw_taken: 0, raw_given_back: 0, screen_taken: 0, screen_given_back: 0 };
            let end = after_run(first().driver, start, signals);
            &&& balanced(end.0, end.1)
            &&& end.1.raw_given_back <= end.1.raw_taken <= 1
            &&& end.1.screen_given_back <= end.1.screen_taken <= 1
            &&& end.0.phase == Phase::Finished ==> end.1.raw_given_back == end.1.raw_taken
                && end.1.screen_given_back == end.1.screen_taken
        }),
    decreases signals.len(),
{
    let start = Ledger { raw_taken: 0, raw_given_back: 0, screen_taken: 0, screen_given_back: 0 };
    if signals.len() > 0 {
        lemma_terminal_is_given_back(signals.drop_last());
        let before = after_run(first().driver, start, signals.drop_last());
        lemma_step_keeps_balance(before.0, before.1, signals.last());
    }
}

/// A session that is ending ends: from any state, once the way out is taken,
/// the exit command comes within four steps, whatever is reported.
pub proof fn lemma_release_ends(driver: Driver, a: Signal, b: Signal, c: Signal)
    ensures
        ({
            let one = release(driver);
            let two = next(one.driver, a);
            let three = next(two.driver, b);
            let four = next(three.driver, c);
            one.driver.phase == Phase::Finished || two.driver.phase == Phase::Finished
                || three.driver.phase == Phase::Finished || four.driver.phase == Phase::Finished
        }),
{
}

/// No command but `Exit` goes out of a finished session, and `Exit` goes out
/// of no other.
pub proof fn lemma_exit_is_last(driver: Driver, signal: Signal)
    ensures
        next(driver, signal).command matches Command::Exit(_) <==> next(
            driver,
            signal,
        ).driver.phase == Phase::Finished,
        next(driver, signal).driver.phase == Phase::Finished ==> !next(driver, signal).driver.raw
            && !next(driver, signal).driver.screen && !next(driver, signal).driver.cursor,
{
}

} // verus!
