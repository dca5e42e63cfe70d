//! The bus transfers that the driver asks its host to perform, and the
//! steps of a driver operation.
//!
//! Every operation of the driver is a small state machine: it starts with a
//! `Step`, and whenever the step is `Next(job, command)` the host performs
//! `command` on the bus and resumes `job` with what the command read (nothing
//! for a write or a delay), until the step is `Done`.
use crate::sensor::Error;
use vstd::prelude::*;

verus! {

/// One bus transfer or pause.
#[derive(Debug)]
pub enum Command {
    /// Send these bytes: the register address, then the data.
    Write(Vec<u8>),
    /// Read `len` data bytes starting at register `reg`.
    Read { reg: u8, len: usize },
    /// Pause for this many microseconds.
    DelayUs(u32),
    /// Pause for this many milliseconds.
    DelayMs(u32),
}

/// A `Command` as a mathematical value.
pub enum CommandView {
    Write(Seq<u8>),
    Read { reg: u8, len: nat },
    DelayUs(u32),
    DelayMs(u32),
}

impl View for Command {
    type V = CommandView;

    open spec fn view(&self) -> CommandView {
        match self {
            Command::Write(bytes) => CommandView::Write(bytes@),
            Command::Read { reg, len } => CommandView::Read { reg: *reg, len: *len as nat },
            Command::DelayUs(us) => CommandView::DelayUs(*us),
            Command::DelayMs(ms) => CommandView::DelayMs(*ms),
        }
    }
}

impl CommandView {
    /// How many bytes the host hands back after performing the command.
    pub open spec fn reply_len(self) -> nat {
        match self {
            CommandView::Read { reg, len } => len,
            _ => 0,
        }
    }
}

/// Where an operation stands: it needs `Command` performed before `J`
/// resumes, or it is finished with its result.
#[derive(Debug)]
pub enum Step<J, T, E> {
    Next(J, Command),
    Done(Result<T, Error<E>>),
}

/// A `Step` as a mathematical value.
pub enum StepView<J, T, E> {
    Next(J, CommandView),
    Done(Result<T, Error<E>>),
}

impl<J, T, E> View for Step<J, T, E> {
    type V = StepView<J, T, E>;

    open spec fn view(&self) -> StepView<J, T, E> {
        match self {
            Step::Next(job, command) => StepView::Next(*job, command@),
            Step::Done(result) => StepView::Done(*result),
        }
    }
}

} // verus!
