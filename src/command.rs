use vstd::prelude::*;

verus! {

/// Linux input event type of key and button transitions.
pub const EV_KEY: u16 = 1;

/// Linux input event code of the left mouse button.
pub const BTN_LEFT: u16 = 0x110;

/// A logical command for the recording controller.
#[derive(Clone, Copy, Debug, PartialEq, Eq, Structural)]
pub enum RecordingCommand {
    Start,
    Stop,
}

/// A raw input event as read from the device: its type, code and value.
#[derive(Clone, Copy, Debug, PartialEq, Eq, Structural)]
pub struct RawEvent {
    pub event_type: u16,
    pub code: u16,
    pub value: i32,
}

/// The command that a raw event stands for: a press of the designated
/// button starts, a release stops, everything else is ignored.
pub open spec fn command_of(ev: RawEvent) -> Option<RecordingCommand> {
    if ev.event_type == EV_KEY && ev.code == BTN_LEFT {
        if ev.value == 1 {
            Some(RecordingCommand::Start)
        } else if ev.value == 0 {
            Some(RecordingCommand::Stop)
        } else {
            None
        }
    } else {
        None
    }
}

impl RawEvent {
    pub fn new(event_type: u16, code: u16, value: i32) -> (r: RawEvent)
        ensures
            r == (RawEvent { event_type, code, value }),
    {
        RawEvent { event_type, code, value }
    }

    /// Translates this event into a command, if it is one.
    pub fn command(&self) -> (r: Option<RecordingCommand>)
        ensures
            r == command_of(*self),
    {
        if self.event_type == EV_KEY && self.code == BTN_LEFT {
            if self.value == 1 {
                Some(RecordingCommand::Start)
            } else if self.value == 0 {
                Some(RecordingCommand::Stop)
            } else {
                None
            }
        } else {
            None
        }
    }
}

} // verus!
