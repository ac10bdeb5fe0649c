//! Starting, stopping, suspending and resuming the bot.

use vstd::prelude::*;

use crate::api::{Operation, OperationUpdate};

verus! {

/// What the bot is doing, as far as the buttons tell it apart.
pub open spec fn running_kind(operation: Option<Operation>) -> OperationUpdate {
    match operation {
        None | Some(Operation::Halting) => OperationUpdate::Halt,
        Some(Operation::TemporaryHalting(_)) => OperationUpdate::TemporaryHalt,
        Some(Operation::Running) | Some(Operation::RunUntil(_)) => OperationUpdate::Run,
    }
}

pub fn kind(operation: Option<Operation>) -> (res: OperationUpdate)
    ensures
        res == running_kind(operation),
{
    match operation {
        None | Some(Operation::Halting) => OperationUpdate::Halt,
        Some(Operation::TemporaryHalting(_)) => OperationUpdate::TemporaryHalt,
        Some(Operation::Running) | Some(Operation::RunUntil(_)) => OperationUpdate::Run,
    }
}

/// Whether the bot can be started at all.
pub fn is_disabled(has_map: bool, has_character: bool) -> (res: bool)
    ensures
        res == (!has_map || !has_character),
{
    !has_map || !has_character
}

pub fn start_stop_text(kind: OperationUpdate) -> (res: &'static str)
    ensures
        res@ == match kind {
            OperationUpdate::Run | OperationUpdate::TemporaryHalt => "Stop"@,
            OperationUpdate::Halt => "Start"@,
        },
{
    match kind {
        OperationUpdate::Run | OperationUpdate::TemporaryHalt => "Stop",
        OperationUpdate::Halt => "Start",
    }
}

pub fn suspend_resume_text(operation: Option<Operation>) -> (res: &'static str)
    ensures
        res@ == match operation {
            Some(Operation::TemporaryHalting(_)) => "Resume"@,
            _ => "Suspend"@,
        },
{
    match operation {
        Some(Operation::TemporaryHalting(_)) => "Resume",
        _ => "Suspend",
    }
}

/// Only what ends by itself can be suspended and resumed. As long as nothing is known of the bot,
/// the button is enabled together with the one to start it.
pub fn is_suspend_resume_disabled(disabled: bool, operation: Option<Operation>) -> (res: bool)
    ensures
        res == (disabled || match operation {
            Some(Operation::Halting) | Some(Operation::Running) => true,
            _ => false,
        }),
{
    if disabled {
        return true;
    }
    match operation {
        Some(Operation::TemporaryHalting(_)) | Some(Operation::RunUntil(_)) => false,
        Some(_) => true,
        None => false,
    }
}

/// What the first button asks for.
pub open spec fn started_or_stopped(kind: OperationUpdate) -> OperationUpdate {
    match kind {
        OperationUpdate::Halt => OperationUpdate::Run,
        OperationUpdate::TemporaryHalt | OperationUpdate::Run => OperationUpdate::Halt,
    }
}

pub fn start_or_stop(kind: OperationUpdate) -> (res: OperationUpdate)
    ensures
        res == started_or_stopped(kind),
{
    match kind {
        OperationUpdate::Halt => OperationUpdate::Run,
        OperationUpdate::TemporaryHalt | OperationUpdate::Run => OperationUpdate::Halt,
    }
}

/// What the second button asks for.
pub open spec fn suspended_or_resumed(kind: OperationUpdate) -> OperationUpdate {
    match kind {
        OperationUpdate::Run => OperationUpdate::TemporaryHalt,
        OperationUpdate::TemporaryHalt | OperationUpdate::Halt => OperationUpdate::Run,
    }
}

pub fn suspend_or_resume(kind: OperationUpdate) -> (res: OperationUpdate)
    ensures
        res == suspended_or_resumed(kind),
{
    match kind {
        OperationUpdate::Run => OperationUpdate::TemporaryHalt,
        OperationUpdate::TemporaryHalt | OperationUpdate::Halt => OperationUpdate::Run,
    }
}

/// Each button undoes what it did, as long as the bot is running or does what the button asked for.
pub proof fn law_buttons_undo_themselves(kind: OperationUpdate)
    ensures
        kind != OperationUpdate::TemporaryHalt ==> started_or_stopped(started_or_stopped(kind))
            == kind,
        kind != OperationUpdate::Halt ==> suspended_or_resumed(suspended_or_resumed(kind)) == kind,
{
}

/// The first button starts what is halted and stops anything else. The second one suspends what runs
/// and resumes anything else. A bot that nothing is known of is taken to be halted.
pub proof fn law_buttons_change_what_the_bot_does(operation: Option<Operation>)
    ensures
        ({
            let kind = running_kind(operation);
            let halted = operation is None || operation->0 is Halting;
            let running = operation is Some && (operation->0 is Running || operation->0
                is RunUntil);
            &&& kind is Halt <==> halted
            &&& kind is Run <==> running
            &&& started_or_stopped(kind) == if halted {
                OperationUpdate::Run
            } else {
                OperationUpdate::Halt
            }
            &&& suspended_or_resumed(kind) == if running {
                OperationUpdate::TemporaryHalt
            } else {
                OperationUpdate::Run
            }
        }),
{
}

} // verus!
