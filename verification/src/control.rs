//! The actuator control loop: from a tightening command to the duty that is
//! submitted to the motor.

use crate::command::CommandChannel;
use vstd::prelude::*;

verus! {

/// Command that loosens the shoe.
pub const LOOSEN: i8 = -1;

/// Command that stops the motor.
pub const STOP: i8 = 0;

/// Command that tightens the shoe.
pub const TIGHTEN: i8 = 1;

/// Whether `command` is one of loosen, stop and tighten.
pub open spec fn spec_valid_command(command: i8) -> bool {
    command == LOOSEN || command == STOP || command == TIGHTEN
}

/// Signed duty, in percent, that the motor is driven with for `command`.
/// The signs follow the wiring of the bridge: loosening drives forward at
/// full duty, tightening drives backward at full duty. An unknown command
/// has no duty.
pub open spec fn spec_duty(command: i8) -> Option<i8> {
    if command == LOOSEN {
        Some(100i8)
    } else if command == STOP {
        Some(0i8)
    } else if command == TIGHTEN {
        Some(-100i8)
    } else {
        None
    }
}

/// Drive state after the control loop has seen `command`: the duty of a
/// valid command, the state as it was for any other.
pub open spec fn spec_drive_after(drive: i8, command: i8) -> i8 {
    match spec_duty(command) {
        Some(percent) => percent,
        None => drive,
    }
}

/// Drive state after one turn of the control loop on a channel that holds
/// `pending`.
pub open spec fn spec_drive_after_poll(drive: i8, pending: Option<i8>) -> i8 {
    match pending {
        Some(command) => spec_drive_after(drive, command),
        None => drive,
    }
}

/// Duty submitted to the motor in one turn of the control loop on a channel
/// that holds `pending`.
pub open spec fn spec_submitted(pending: Option<i8>) -> Option<i8> {
    match pending {
        Some(command) => spec_duty(command),
        None => None,
    }
}

/// The duty for `command`, or `None` for a command outside the valid three.
pub fn duty(command: i8) -> (percent: Option<i8>)
    ensures
        percent == spec_duty(command),
        percent is Some <==> spec_valid_command(command),
{
    if command == LOOSEN {
        Some(100)
    } else if command == STOP {
        Some(0)
    } else if command == TIGHTEN {
        Some(-100)
    } else {
        None
    }
}

/// The control loop's own state: the duty last submitted to the motor.
#[derive(Debug)]
pub struct ControlLoop {
    drive: i8,
}

impl View for ControlLoop {
    type V = i8;

    /// The drive state, a signed percentage.
    closed spec fn view(&self) -> i8 {
        self.drive
    }
}

impl ControlLoop {
    #[verifier::type_invariant]
    spec fn in_range(self) -> bool {
        -100 <= self.drive <= 100
    }

    /// A control loop over a motor at rest.
    pub fn new() -> (control: ControlLoop)
        ensures
            control@ == 0,
    {
        ControlLoop { drive: 0 }
    }

    /// The drive state, always within `-100..=100`.
    pub fn drive(&self) -> (drive: i8)
        ensures
            drive == self@,
            -100 <= drive <= 100,
    {
        proof {
            use_type_invariant(self);
        }
        self.drive
    }

    /// Applies one command. A valid command replaces the drive state at once
    /// and its duty is returned for the motor; any other command changes
    /// nothing and returns `None`.
    pub fn process(&mut self, command: i8) -> (submitted: Option<i8>)
        ensures
            submitted == spec_duty(command),
            final(self)@ == spec_drive_after(old(self)@, command),
    {
        let percent = duty(command);
        if let Some(value) = percent {
            self.drive = value;
        }
        percent
    }

    /// One turn of the loop: takes the pending command, if there is one, and
    /// applies it. The channel is empty afterwards.
    pub fn poll(&mut self, commands: &mut CommandChannel) -> (submitted: Option<i8>)
        ensures
            submitted == spec_submitted(old(commands)@),
            final(self)@ == spec_drive_after_poll(old(self)@, old(commands)@),
            final(commands)@ is None,
    {
        match commands.try_take() {
            Some(command) => self.process(command),
            None => None,
        }
    }
}

/// Every valid command sets the drive state to its fixed duty, whatever the
/// state was: loosen to +100, stop to 0, tighten to -100.
pub proof fn lemma_valid_command_overrides(drive: i8, command: i8)
    requires
        spec_valid_command(command),
    ensures
        command == LOOSEN ==> spec_drive_after(drive, command) == 100,
        command == STOP ==> spec_drive_after(drive, command) == 0,
        command == TIGHTEN ==> spec_drive_after(drive, command) == -100,
        spec_duty(command) == Some(spec_drive_after(drive, command)),
{
}

/// A command outside the valid three leaves the drive state untouched and
/// submits nothing.
pub proof fn lemma_invalid_command_ignored(drive: i8, command: i8)
    requires
        !spec_valid_command(command),
    ensures
        spec_drive_after(drive, command) == drive,
        spec_duty(command) is None,
{
}

/// The drive state stays a percentage in `-100..=100` under every command.
pub proof fn lemma_drive_in_range(drive: i8, command: i8)
    requires
        -100 <= drive <= 100,
    ensures
        -100 <= spec_drive_after(drive, command) <= 100,
{
}

} // verus!
