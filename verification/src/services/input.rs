//! Keys that are pressed while the bot is running.

use vstd::prelude::*;

use crate::api::OperationUpdate;
use crate::bridge::KeyKind;
use crate::ecs::Resources;
use crate::models::stored::Settings;

verus! {

#[derive(Clone, Copy, PartialEq, Eq, Debug, Structural)]
pub enum InputEvent {
    KeyReceived(KeyKind),
}

/// What a key that was pressed does to the operation: the key that is set up for it resumes an
/// operation that is halting and halts any other one.
pub open spec fn toggled(settings: Settings, key: KeyKind, halting: bool) -> Option<OperationUpdate> {
    if settings.toggle_actions_key.enabled && settings.toggle_actions_key.key == key {
        if halting {
            Some(OperationUpdate::Run)
        } else {
            Some(OperationUpdate::TemporaryHalt)
        }
    } else {
        None
    }
}

pub struct InputEventHandler;

impl InputEventHandler {
    /// What a key that was received does to the operation, if anything.
    pub fn handle(&self, resources: &Resources, settings: &Settings, event: InputEvent) -> (res: Option<
        OperationUpdate,
    >)
        ensures
            res == match event {
                InputEvent::KeyReceived(key) => toggled(
                    *settings,
                    key,
                    resources.operation.halts(),
                ),
            },
    {
        match event {
            InputEvent::KeyReceived(received_key) => {
                let toggle_actions_key = settings.toggle_actions_key;
                if !toggle_actions_key.enabled {
                    return None;
                }
                if toggle_actions_key.key != received_key {
                    return None;
                }
                if resources.operation.halting() {
                    Some(OperationUpdate::Run)
                } else {
                    Some(OperationUpdate::TemporaryHalt)
                }
            },
        }
    }
}

/// Pressing the key twice, with the operation following each time, undoes what it does.
pub proof fn law_toggling_twice_is_undone(settings: Settings, key: KeyKind, halting: bool)
    requires
        toggled(settings, key, halting) is Some,
    ensures
        toggled(settings, key, halting) != toggled(settings, key, !halting),
        toggled(settings, key, !halting) is Some,
{
}

/// Only the key that is set up does anything, and only while it is enabled: it runs what halts and
/// halts what runs.
pub proof fn law_only_the_enabled_key_toggles(settings: Settings, key: KeyKind, halting: bool)
    ensures
        toggled(settings, key, halting) is Some <==> settings.toggle_actions_key.enabled
            && settings.toggle_actions_key.key == key,
        toggled(settings, key, halting) == Some(OperationUpdate::Run) ==> halting,
        toggled(settings, key, halting) == Some(OperationUpdate::TemporaryHalt) ==> !halting,
        toggled(settings, key, halting) != Some(OperationUpdate::Halt),
{
}

} // verus!
