//! Laws that hold across the components: what the dispatcher, the command
//! channel, the battery cell and the control loop guarantee together.

use crate::battery::spec_percent;
use crate::command::spec_deliver;
use crate::control::{spec_drive_after_poll, spec_submitted, STOP};
use crate::gatt::{
    spec_command, spec_serve, Characteristic, DispatcherView, GattEvent, Lifecycle, Reply,
};
use vstd::prelude::*;

verus! {

/// Whether `event` is a write of a one-octet payload to the tightening
/// characteristic of `view`: a write that carries a command.
pub open spec fn spec_is_command_write(view: DispatcherView, event: GattEvent) -> bool {
    event matches GattEvent::Write { handle, data } && view.handles.role(handle) == Some(
        Characteristic::Tightening,
    ) && data@.len() == 1
}

/// The command that a command write carries.
pub open spec fn spec_written_command(event: GattEvent) -> Option<i8> {
    match event {
        GattEvent::Write { handle, data } => spec_command(data@),
        _ => None,
    }
}

/// Whether `event` is a request that the central waits on: a read or a
/// write.
pub open spec fn spec_is_request(event: GattEvent) -> bool {
    event is Read || event is Write
}

/// Fail-safe stop. When the link is lost, whatever the dispatcher's state,
/// whatever command was pending and whatever the motor was doing, the stop
/// command is what waits in the channel, and the next turn of the control
/// loop brings the drive state to zero and submits zero to the motor.
pub proof fn lemma_disconnect_stops_motor(
    view: DispatcherView,
    battery: u8,
    reason: u8,
    pending: Option<i8>,
    drive: i8,
)
    ensures
        ({
            let (next, outcome) = view.step(GattEvent::Disconnected { reason }, battery);
            let delivered = spec_deliver(pending, outcome.forward);
            &&& next.lifecycle is Terminated
            &&& delivered == Some(STOP)
            &&& spec_drive_after_poll(drive, delivered) == 0
            &&& spec_submitted(delivered) == Some(0i8)
        }),
{
}

/// The same at the end of a run of events: if the run ends with the loss of
/// the link, the stop command is what the control loop finds.
pub proof fn lemma_run_ending_in_disconnect_stops_motor(
    start: DispatcherView,
    pending: Option<i8>,
    events: Seq<GattEvent>,
    battery: u8,
    drive: i8,
)
    requires
        events.len() > 0,
        events.last() is Disconnected,
    ensures
        spec_serve(start, pending, events, battery).pending == Some(STOP),
        spec_serve(start, pending, events, battery).dispatcher.lifecycle is Terminated,
        spec_drive_after_poll(drive, spec_serve(start, pending, events, battery).pending) == 0,
{
}

/// A run of events leaves the handle table alone, and an active dispatcher
/// stays active as long as the link is not lost.
pub proof fn lemma_run_of_requests_stays_active(
    start: DispatcherView,
    pending: Option<i8>,
    events: Seq<GattEvent>,
    battery: u8,
)
    requires
        start.lifecycle is Active,
        forall|i: int| 0 <= i < events.len() ==> !(#[trigger] events[i] is Disconnected),
    ensures
        spec_serve(start, pending, events, battery).dispatcher.lifecycle is Active,
        spec_serve(start, pending, events, battery).dispatcher.handles == start.handles,
    decreases events.len(),
{
    if events.len() > 0 {
        let front = events.drop_last();
        assert forall|i: int| 0 <= i < front.len() implies !(#[trigger] front[i] is Disconnected) by {
            assert(front[i] == events[i]);
        }
        lemma_run_of_requests_stays_active(start, pending, front, battery);
        assert(!(events[events.len() - 1] is Disconnected));
    }
}

/// Coalescing. After a burst of command writes that the control loop did
/// not get to read in between, the channel holds the command of the last
/// write and nothing of the earlier ones; that command is also what a read
/// of the tightening characteristic now returns.
pub proof fn lemma_burst_coalesces(
    start: DispatcherView,
    pending: Option<i8>,
    events: Seq<GattEvent>,
    battery: u8,
)
    requires
        start.lifecycle is Active,
        events.len() > 0,
        forall|i: int| 0 <= i < events.len() ==> spec_is_command_write(start, #[trigger] events[i]),
    ensures
        spec_written_command(events.last()) is Some,
        spec_serve(start, pending, events, battery).pending == spec_written_command(events.last()),
        Some(spec_serve(start, pending, events, battery).dispatcher.tightening)
            == spec_written_command(events.last()),
{
    let front = events.drop_last();
    assert forall|i: int| 0 <= i < front.len() implies !(#[trigger] front[i] is Disconnected) by {
        assert(front[i] == events[i]);
        assert(spec_is_command_write(start, events[i]));
    }
    lemma_run_of_requests_stays_active(start, pending, front, battery);
    assert(spec_is_command_write(start, events[events.len() - 1]));
}

/// Freshness. A read of the battery level on an active connection returns
/// the level that the publisher last put into the cell, that level is what
/// the latest sample scales to, and it is a percentage.
pub proof fn lemma_battery_read_is_fresh(
    view: DispatcherView,
    handle: u16,
    raw: u32,
    min: u32,
    max: u32,
)
    requires
        view.lifecycle is Active,
        view.handles.role(handle) == Some(Characteristic::BatteryLevel),
        min < max,
    ensures
        ({
            let published = spec_percent(raw as int, min as int, max as int);
            let (next, outcome) = view.step(GattEvent::Read { handle }, published as u8);
            &&& 0 <= published <= 100
            &&& outcome.reply == Reply::BatteryLevel(published as u8)
            &&& next.battery_level == published
            &&& outcome.forward is None
        }),
{
    crate::battery::lemma_percent_in_range(raw as int, min as int, max as int);
}

/// Reads have no side effect on the command path: no read ever forwards a
/// command, and a read of the tightening characteristic changes nothing at
/// all.
pub proof fn lemma_reads_forward_nothing(view: DispatcherView, handle: u16, battery: u8)
    ensures
        view.step(GattEvent::Read { handle }, battery).1.forward is None,
        view.handles.role(handle) == Some(Characteristic::Tightening) ==> view.step(
            GattEvent::Read { handle },
            battery,
        ).0 == view,
{
}

/// A write whose payload is not exactly one octet is dropped: nothing is
/// forwarded and nothing is stored, yet the write is acknowledged.
pub proof fn lemma_unparseable_write_is_dropped(
    view: DispatcherView,
    handle: u16,
    data: Vec<u8>,
    battery: u8,
)
    requires
        view.lifecycle is Active,
        data@.len() != 1,
    ensures
        view.step(GattEvent::Write { handle, data }, battery) == (
            view,
            crate::gatt::Outcome { forward: None, reply: Reply::WriteAck },
        ),
{
}

/// Every request on an active connection is owed a response, whether or
/// not the dispatcher could make sense of it; events that are no requests
/// are owed none.
pub proof fn lemma_requests_are_answered(view: DispatcherView, event: GattEvent, battery: u8)
    requires
        view.lifecycle is Active,
    ensures
        spec_is_request(event) <==> view.step(event, battery).1.reply != Reply::Nothing,
{
}

/// Events that are malformed or carry no request leave the dispatcher as
/// it was, and active.
pub proof fn lemma_noise_is_absorbed(view: DispatcherView, event: GattEvent, battery: u8)
    requires
        event is Malformed || event is Other,
    ensures
        view.step(event, battery) == (
            view,
            crate::gatt::Outcome { forward: None, reply: Reply::Nothing },
        ),
{
}

/// Once terminated, the dispatcher stays terminated with the reason it
/// first saw, and forwards no command but the stop of a further loss of
/// the link.
pub proof fn lemma_terminated_is_final(
    view: DispatcherView,
    event: GattEvent,
    battery: u8,
    reason: u8,
)
    requires
        view.lifecycle == (Lifecycle::Terminated { reason }),
    ensures
        view.step(event, battery).0 == view,
        view.step(event, battery).1.forward == if event is Disconnected {
            Some(STOP)
        } else {
            None
        },
        view.step(event, battery).1.reply == Reply::Nothing,
{
}

} // verus!
