//! Verified core of a line-oriented serial-to-websocket relay.
//!
//! Client text frames travel to a serial device as raw writes; device
//! output is reassembled into newline-delimited lines and travels back
//! to the client as text frames.  This crate holds the relay's logic:
//! the line framer, the bounded command and response queues, the
//! per-connection session state machine, and the lifecycle rules that
//! order the shutdown of the device-facing tasks.  The asynchronous
//! transports themselves (websocket, serial port) live in the hosting
//! process, which drives these types from its event loops.

use vstd::prelude::*;

pub mod channel;
pub mod framer;
pub mod link;
pub mod session;

use crate::channel::BoundedChannel;
use crate::link::DeviceConfig;
use crate::link::LinkLifecycle;
use crate::link::ReaderPhase;
use crate::link::WriterPhase;
use crate::session::Session;
use crate::session::SessionModel;
use crate::session::SessionState;

verus! {

/// Entry point for the upgrade collaborator: everything one accepted
/// connection needs, freshly assembled.  The session starts active,
/// counting the client as alive at `now`, with the default heartbeat
/// configuration; the link comes up on the given device with both
/// tasks running and the handle held; the command and response queues
/// start empty at their fixed capacities.
pub fn begin_session(config: DeviceConfig, now: u64) -> (out: (
    Session,
    LinkLifecycle,
    BoundedChannel,
    BoundedChannel,
))
    ensures
        out.0.model() == (SessionModel {
            state: SessionState::Active,
            last_heartbeat: now as nat,
            heartbeat_interval: session::HEARTBEAT_INTERVAL as nat,
            client_timeout: session::CLIENT_TIMEOUT as nat,
        }),
        out.1.wf(),
        out.1.spec_path() == config.path@,
        out.1.spec_baud() == config.baud,
        out.1.writer_phase() == WriterPhase::Running,
        out.1.reader_phase() == ReaderPhase::Running,
        !out.1.device_released(),
        out.2@ == Seq::<Seq<char>>::empty(),
        out.2.spec_capacity() == channel::COMMAND_CAPACITY,
        out.3@ == Seq::<Seq<char>>::empty(),
        out.3.spec_capacity() == channel::RESPONSE_CAPACITY,
{
    let session = Session::new(now);
    let link = LinkLifecycle::new(config);
    let commands = channel::command_channel();
    let responses = channel::response_channel();
    (session, link, commands, responses)
}

} // verus!
