//! The GATT event dispatcher: what each attribute event on the one active
//! connection does to the characteristic values, to the command channel and
//! to the connection's life cycle, and which response it is owed.

use crate::battery::{read_battery, BatteryCell};
use crate::command::{spec_deliver, CommandChannel};
use crate::control::STOP;
use trouble_host::types::gatt_traits::{FromGatt, FromGattError};
use vstd::prelude::*;

verus! {

/// The two characteristics that the application gives a meaning to.
#[derive(Clone, Copy, Debug, PartialEq, Eq)]
pub enum Characteristic {
    /// The tightening command, a signed octet.
    Tightening,
    /// The battery level, a percentage.
    BatteryLevel,
}

/// The attribute handles of the two characteristics, fixed when the
/// attribute server is built. The two handles differ.
#[derive(Clone, Copy, Debug)]
pub struct HandleTable {
    tightening: u16,
    battery_level: u16,
}

impl HandleTable {
    /// Whether the two handles differ, as they do in every table that
    /// [`HandleTable::new`] hands out.
    #[verifier::type_invariant]
    pub closed spec fn wf(self) -> bool {
        self.tightening != self.battery_level
    }

    /// The handle under which `characteristic` is registered.
    pub closed spec fn spec_handle_of(self, characteristic: Characteristic) -> u16 {
        match characteristic {
            Characteristic::Tightening => self.tightening,
            Characteristic::BatteryLevel => self.battery_level,
        }
    }

    /// The characteristic registered under `handle`, if there is one.
    pub open spec fn role(self, handle: u16) -> Option<Characteristic> {
        if handle == self.spec_handle_of(Characteristic::Tightening) {
            Some(Characteristic::Tightening)
        } else if handle == self.spec_handle_of(Characteristic::BatteryLevel) {
            Some(Characteristic::BatteryLevel)
        } else {
            None
        }
    }

    /// A table of the two handles; `None` if they are the same handle.
    pub fn new(tightening: u16, battery_level: u16) -> (table: Option<HandleTable>)
        ensures
            table is Some <==> tightening != battery_level,
            table matches Some(t) ==> t.wf() && t.spec_handle_of(Characteristic::Tightening)
                == tightening && t.spec_handle_of(Characteristic::BatteryLevel) == battery_level,
    {
        if tightening != battery_level {
            Some(HandleTable { tightening, battery_level })
        } else {
            None
        }
    }

    /// The handle under which `characteristic` is registered. Looking that
    /// handle up leads back to the characteristic.
    pub fn handle_of(&self, characteristic: Characteristic) -> (handle: u16)
        ensures
            self.wf(),
            handle == self.spec_handle_of(characteristic),
            self.role(handle) == Some(characteristic),
    {
        proof {
            use_type_invariant(self);
        }
        match characteristic {
            Characteristic::Tightening => self.tightening,
            Characteristic::BatteryLevel => self.battery_level,
        }
    }

    /// The characteristic registered under `handle`, if there is one.
    pub fn lookup(&self, handle: u16) -> (found: Option<Characteristic>)
        ensures
            found == self.role(handle),
    {
        if handle == self.tightening {
            Some(Characteristic::Tightening)
        } else if handle == self.battery_level {
            Some(Characteristic::BatteryLevel)
        } else {
            None
        }
    }
}

/// In a well-formed table each characteristic is found again under its own
/// handle, and a handle leads to at most one characteristic.
pub proof fn lemma_lookup_inverts_handle_of(table: HandleTable, characteristic: Characteristic)
    requires
        table.wf(),
    ensures
        table.role(table.spec_handle_of(characteristic)) == Some(characteristic),
{
}

/// An event on the active connection, as the transport delivers it.
#[derive(Debug, PartialEq, Eq)]
pub enum GattEvent {
    /// A central reads the attribute `handle`.
    Read { handle: u16 },
    /// A central writes `data` to the attribute `handle`.
    Write { handle: u16, data: Vec<u8> },
    /// An attribute event that the protocol layer could not process.
    Malformed,
    /// A connection event that carries no attribute request.
    Other,
    /// The link is gone; `reason` is the controller's status code.
    Disconnected { reason: u8 },
}

/// Whether the dispatcher still serves its connection.
#[derive(Clone, Copy, Debug, PartialEq, Eq)]
pub enum Lifecycle {
    /// The connection is up and events are processed.
    Active,
    /// The connection ended with `reason`; nothing is processed any more.
    Terminated { reason: u8 },
}

/// The attribute-protocol response that an event is owed.
#[derive(Clone, Copy, Debug, PartialEq, Eq)]
pub enum Reply {
    /// Answer a read of the tightening characteristic with this value.
    Tightening(i8),
    /// Answer a read of the battery level with this value.
    BatteryLevel(u8),
    /// Acknowledge a write.
    WriteAck,
    /// A read of an attribute that the application gives no meaning to: the
    /// attribute server answers with what it stores.
    Stored,
    /// No response is owed.
    Nothing,
}

/// What one event leads to outside the dispatcher.
#[derive(Clone, Copy, Debug, PartialEq, Eq)]
pub struct Outcome {
    /// The command to put into the command channel, if any.
    pub forward: Option<i8>,
    /// The response to send before the next event is looked at.
    pub reply: Reply,
}

/// The signed value of an octet in two's complement.
pub open spec fn spec_signed(octet: u8) -> i8 {
    if octet < 128 {
        octet as i8
    } else {
        (octet - 256) as i8
    }
}

/// The command that a write payload carries: the payload must be exactly
/// one octet, read as a signed number.
pub open spec fn spec_command(payload: Seq<u8>) -> Option<i8> {
    if payload.len() == 1 {
        Some(spec_signed(payload[0]))
    } else {
        None
    }
}

/// The conversion error of trouble-host, carried through without looking
/// inside.
#[verifier::external_type_specification]
#[verifier::external_body]
pub struct ExFromGattError(FromGattError);

/// `FromGatt::from_gatt` of trouble-host for `i8`: succeeds exactly on a
/// payload of one octet and then returns that octet as a signed number.
#[verifier::external_body]
fn command_from_gatt(payload: &[u8]) -> (value: Result<i8, FromGattError>)
    ensures
        value is Ok <==> payload@.len() == 1,
        value matches Ok(v) ==> v == spec_signed(payload@[0]),
{
    <i8 as FromGatt>::from_gatt(payload)
}

/// The dispatcher as contracts see it.
pub struct DispatcherView {
    /// Handles of the two characteristics.
    pub handles: HandleTable,
    /// Last value written to the tightening characteristic.
    pub tightening: i8,
    /// Battery level last handed out to a reader.
    pub battery_level: u8,
    /// Whether the connection is still served.
    pub lifecycle: Lifecycle,
}

impl DispatcherView {
    /// The life cycle after the link was lost with `reason`. A dispatcher
    /// that had already terminated keeps its first reason.
    pub open spec fn terminated(self, reason: u8) -> Lifecycle {
        match self.lifecycle {
            Lifecycle::Active => Lifecycle::Terminated { reason },
            Lifecycle::Terminated { reason: first } => Lifecycle::Terminated { reason: first },
        }
    }

    /// What a read of `handle` does while the connection is active.
    pub open spec fn on_read(self, handle: u16, battery: u8) -> (DispatcherView, Outcome) {
        match self.handles.role(handle) {
            Some(Characteristic::Tightening) => (
                self,
                Outcome { forward: None, reply: Reply::Tightening(self.tightening) },
            ),
            Some(Characteristic::BatteryLevel) => (
                DispatcherView { battery_level: battery, ..self },
                Outcome { forward: None, reply: Reply::BatteryLevel(battery) },
            ),
            None => (self, Outcome { forward: None, reply: Reply::Stored }),
        }
    }

    /// What a write of `payload` to `handle` does while the connection is
    /// active.
    pub open spec fn on_write(self, handle: u16, payload: Seq<u8>) -> (DispatcherView, Outcome) {
        match (self.handles.role(handle), spec_command(payload)) {
            (Some(Characteristic::Tightening), Some(command)) => (
                DispatcherView { tightening: command, ..self },
                Outcome { forward: Some(command), reply: Reply::WriteAck },
            ),
            _ => (self, Outcome { forward: None, reply: Reply::WriteAck }),
        }
    }

    /// The dispatcher after `event`, and what the event leads to, when the
    /// battery cell holds `battery` at that moment.
    pub open spec fn step(self, event: GattEvent, battery: u8) -> (DispatcherView, Outcome) {
        match event {
            GattEvent::Disconnected { reason } => (
                DispatcherView { lifecycle: self.terminated(reason), ..self },
                Outcome { forward: Some(STOP), reply: Reply::Nothing },
            ),
            GattEvent::Read { handle } if self.lifecycle is Active => self.on_read(handle, battery),
            GattEvent::Write { handle, data } if self.lifecycle is Active => self.on_write(
                handle,
                data@,
            ),
            _ => (self, Outcome { forward: None, reply: Reply::Nothing }),
        }
    }
}

/// State of a run of events: the dispatcher, the command channel and the
/// responses sent so far, oldest first.
pub struct Session {
    pub dispatcher: DispatcherView,
    pub pending: Option<i8>,
    pub replies: Seq<Reply>,
}

/// The session after `events` have been dispatched one after the other, in
/// the order given, with nobody reading the command channel in between.
pub open spec fn spec_serve(
    start: DispatcherView,
    pending: Option<i8>,
    events: Seq<GattEvent>,
    battery: u8,
) -> Session
    decreases events.len(),
{
    if events.len() == 0 {
        Session { dispatcher: start, pending, replies: Seq::empty() }
    } else {
        let before = spec_serve(start, pending, events.drop_last(), battery);
        let (next, outcome) = before.dispatcher.step(events.last(), battery);
        Session {
            dispatcher: next,
            pending: spec_deliver(before.pending, outcome.forward),
            replies: before.replies.push(outcome.reply),
        }
    }
}

/// The per-connection event dispatcher together with the characteristic
/// values that it keeps.
#[derive(Debug)]
pub struct Dispatcher {
    handles: HandleTable,
    tightening: i8,
    battery_level: u8,
    lifecycle: Lifecycle,
}

impl View for Dispatcher {
    type V = DispatcherView;

    closed spec fn view(&self) -> DispatcherView {
        DispatcherView {
            handles: self.handles,
            tightening: self.tightening,
            battery_level: self.battery_level,
            lifecycle: self.lifecycle,
        }
    }
}

impl Dispatcher {
    /// A dispatcher for a fresh connection, with both characteristic values
    /// at zero.
    pub fn new(handles: HandleTable) -> (dispatcher: Dispatcher)
        ensures
            dispatcher@ == (DispatcherView {
                handles,
                tightening: 0,
                battery_level: 0,
                lifecycle: Lifecycle::Active,
            }),
    {
        Dispatcher { handles, tightening: 0, battery_level: 0, lifecycle: Lifecycle::Active }
    }

    /// Binds the dispatcher to the next connection. The characteristic
    /// values stay as the last connection left them.
    pub fn reconnect(&mut self)
        ensures
            final(self)@ == (DispatcherView { lifecycle: Lifecycle::Active, ..old(self)@ }),
    {
        self.lifecycle = Lifecycle::Active;
    }

    pub fn handles(&self) -> (handles: HandleTable)
        ensures
            handles == self@.handles,
    {
        self.handles
    }

    pub fn tightening(&self) -> (value: i8)
        ensures
            value == self@.tightening,
    {
        self.tightening
    }

    pub fn battery_level(&self) -> (value: u8)
        ensures
            value == self@.battery_level,
    {
        self.battery_level
    }

    pub fn lifecycle(&self) -> (lifecycle: Lifecycle)
        ensures
            lifecycle == self@.lifecycle,
    {
        self.lifecycle
    }

    pub fn is_active(&self) -> (active: bool)
        ensures
            active == (self@.lifecycle is Active),
    {
        match self.lifecycle {
            Lifecycle::Active => true,
            Lifecycle::Terminated { .. } => false,
        }
    }

    /// Decides what `event` does, given the battery level at this moment.
    ///
    /// A read of the tightening characteristic echoes the stored value. A
    /// read of the battery level stores and echoes `battery`. A write to the
    /// tightening characteristic is acknowledged; if its payload is a single
    /// octet, that command is stored and forwarded, otherwise it is dropped.
    /// Losing the link terminates the dispatcher and always forwards the
    /// stop command. Everything else changes nothing, and once terminated
    /// the dispatcher ignores all but a further loss of the link.
    pub fn handle_event(&mut self, event: &GattEvent, battery: u8) -> (outcome: Outcome)
        ensures
            (final(self)@, outcome) == old(self)@.step(*event, battery),
    {
        let active = self.is_active();
        match event {
            GattEvent::Disconnected { reason } => {
                if active {
                    self.lifecycle = Lifecycle::Terminated { reason: *reason };
                }
                Outcome { forward: Some(STOP), reply: Reply::Nothing }
            },
            GattEvent::Read { handle } => {
                if !active {
                    return Outcome { forward: None, reply: Reply::Nothing };
                }
                match self.handles.lookup(*handle) {
                    Some(Characteristic::Tightening) => Outcome {
                        forward: None,
                        reply: Reply::Tightening(self.tightening),
                    },
                    Some(Characteristic::BatteryLevel) => {
                        self.battery_level = battery;
                        Outcome { forward: None, reply: Reply::BatteryLevel(battery) }
                    },
                    None => Outcome { forward: None, reply: Reply::Stored },
                }
            },
            GattEvent::Write { handle, data } => {
                if !active {
                    return Outcome { forward: None, reply: Reply::Nothing };
                }
                match self.handles.lookup(*handle) {
                    Some(Characteristic::Tightening) => match command_from_gatt(data.as_slice()) {
                        Ok(command) => {
                            self.tightening = command;
                            Outcome { forward: Some(command), reply: Reply::WriteAck }
                        },
                        Err(_) => Outcome { forward: None, reply: Reply::WriteAck },
                    },
                    _ => Outcome { forward: None, reply: Reply::WriteAck },
                }
            },
            GattEvent::Malformed => Outcome { forward: None, reply: Reply::Nothing },
            GattEvent::Other => Outcome { forward: None, reply: Reply::Nothing },
        }
    }

    /// Dispatches `event` against the shared state: reads the battery cell,
    /// decides as [`Dispatcher::handle_event`] does, and puts a forwarded
    /// command into the channel, where it replaces an unread one.
    pub fn dispatch(
        &mut self,
        event: &GattEvent,
        battery: &BatteryCell,
        commands: &mut CommandChannel,
    ) -> (reply: Reply)
        ensures
            final(self)@ == old(self)@.step(*event, battery@).0,
            reply == old(self)@.step(*event, battery@).1.reply,
            final(commands)@ == spec_deliver(
                old(commands)@,
                old(self)@.step(*event, battery@).1.forward,
            ),
    {
        let level = read_battery(battery);
        let outcome = self.handle_event(event, level);
        if let Some(command) = outcome.forward {
            commands.signal(command);
        }
        outcome.reply
    }

    /// Dispatches `events` strictly in the order given and returns the
    /// responses in that same order, one for each event.
    pub fn serve(
        &mut self,
        events: &Vec<GattEvent>,
        battery: &BatteryCell,
        commands: &mut CommandChannel,
    ) -> (replies: Vec<Reply>)
        ensures
            replies@.len() == events@.len(),
            (Session { dispatcher: final(self)@, pending: final(commands)@, replies: replies@ })
                == spec_serve(old(self)@, old(commands)@, events@, battery@),
    {
        let mut replies: Vec<Reply> = Vec::new();
        let mut i: usize = 0;
        while i < events.len()
            invariant
                i <= events@.len(),
                replies@.len() == i,
                (Session { dispatcher: self@, pending: commands@, replies: replies@ })
                    == spec_serve(old(self)@, old(commands)@, events@.take(i as int), battery@),
            decreases events@.len() - i,
        {
            assert(events@.take(i + 1).drop_last() == events@.take(i as int));
            let reply = self.dispatch(&events[i], battery, commands);
            replies.push(reply);
            i += 1;
        }
        assert(events@.take(i as int) == events@);
        replies
    }
}

} // verus!
