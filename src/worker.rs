//! The worker's decisions: what to ask of the audio service for each request,
//! and which event each answer leads to.
//!
//! The worker owns the only connection to the service and serves one request
//! at a time. A request is handed to `submit`; while the worker is busy, the
//! caller performs the `Command` it returned and hands the service's answer to
//! `resume`, until a step comes back without a command.
use vstd::prelude::*;

use crate::adapter::{attached_to, streams_on, AdapterError, StreamRecord};
use crate::protocol::{default_event, is_data_request, list_event, Message};
use crate::types::{DeviceInfo, DeviceKind, ServerInfo};

verus! {

/// An operation to perform on the service.
#[derive(Debug, Clone)]
pub enum Command {
    /// Read the server information (also the liveness probe).
    ServerInfo,
    /// Connect and complete the handshake.
    Connect,
    /// List all devices of a kind.
    ListDevices(DeviceKind),
    /// Read the device of a kind with this name.
    LookupDevice(DeviceKind, String),
    /// Set the per-channel volumes of the named device.
    SetVolume(DeviceKind, String, Vec<u32>),
    /// List the streams (sink inputs or source outputs) with their devices.
    ListStreams(DeviceKind),
    /// Make the named device the default of its kind.
    AssignDefault(DeviceKind, String),
    /// Move the stream with this index to the named device.
    MoveStream(DeviceKind, u32, String),
}

/// The service's answer to a command.
#[derive(Debug)]
pub enum Reply {
    Server(Result<ServerInfo, AdapterError>),
    Connection(Result<(), AdapterError>),
    Devices(Result<Vec<DeviceInfo>, AdapterError>),
    Device(Result<DeviceInfo, AdapterError>),
    Streams(Vec<StreamRecord>),
    /// Whether a volume change, default assignment or stream move succeeded.
    Flag(bool),
}

/// Why a default device is being read.
#[derive(Debug, Clone)]
pub enum Goal {
    /// To report it to the consumer.
    Report,
    /// To switch the default to this device, which has this name.
    Switch(DeviceInfo, String),
}

/// What the worker is waiting for.
#[derive(Debug, Clone)]
pub enum Task {
    Idle,
    Probing,
    Connecting,
    Listing(DeviceKind),
    Volume,
    ReadingDefault(DeviceKind, Goal),
    LookingUp(DeviceKind, Goal),
    /// Listing the streams on the old default, whose index is given.
    Streams(DeviceKind, DeviceInfo, String, u32),
    /// Assigning the new default; the streams to move afterwards are given.
    Assigning(DeviceKind, DeviceInfo, String, Vec<u32>),
    /// Moving streams; the position of the next one to move is given.
    Moving(DeviceKind, DeviceInfo, String, Vec<u32>, usize),
}

/// The worker: whether a connection exists, and what it is waiting for.
#[derive(Debug, Clone)]
pub struct Worker {
    pub connected: bool,
    pub task: Task,
}

/// What a step asks for: an operation to perform next, and an event to emit.
#[derive(Debug, Clone)]
pub struct Step {
    pub command: Option<Command>,
    pub event: Option<Message>,
}

/// A step that asks for nothing and emits nothing.
pub open spec fn quiet() -> Step {
    Step { command: None, event: None }
}

/// A step that only asks for an operation.
pub open spec fn ask(c: Command) -> Step {
    Step { command: Some(c), event: None }
}

/// A step that only emits an event.
pub open spec fn emit(m: Message) -> Step {
    Step { command: None, event: Some(m) }
}

/// A worker waiting for a request.
pub open spec fn idle(connected: bool) -> Worker {
    Worker { connected, task: Task::Idle }
}

/// A connected worker waiting for an answer.
pub open spec fn busy(task: Task) -> Worker {
    Worker { connected: true, task }
}

/// A failure while connected: the connection is dropped and reported lost.
pub open spec fn lost() -> (Worker, Step) {
    (idle(false), emit(Message::Disconnected))
}

impl Worker {
    /// Whether the worker waits for a request.
    pub open spec fn is_idle(self) -> bool {
        self.task is Idle
    }

    /// The well-formed worker: busy only while connected or connecting, and
    /// a stream move position within its list.
    pub open spec fn wf(self) -> bool {
        &&& (self.task is Connecting ==> !self.connected)
        &&& (!(self.task is Idle) && !(self.task is Connecting) ==> self.connected)
        &&& (self.task matches Task::Moving(_, _, _, mv, i) ==> i <= mv@.len())
    }
}

/// How an idle worker takes a request.
pub open spec fn submit_spec(w: Worker, req: Message) -> (Worker, Step) {
    match req {
        Message::UpdateConnection => if w.connected {
            (busy(Task::Probing), ask(Command::ServerInfo))
        } else {
            (Worker { connected: false, task: Task::Connecting }, ask(Command::Connect))
        },
        _ => if !w.connected {
            (w, quiet())
        } else {
            match req {
                Message::GetSinks => (
                    busy(Task::Listing(DeviceKind::Sink)),
                    ask(Command::ListDevices(DeviceKind::Sink)),
                ),
                Message::GetSources => (
                    busy(Task::Listing(DeviceKind::Source)),
                    ask(Command::ListDevices(DeviceKind::Source)),
                ),
                Message::GetDefaultSink => (
                    busy(Task::ReadingDefault(DeviceKind::Sink, Goal::Report)),
                    ask(Command::ServerInfo),
                ),
                Message::GetDefaultSource => (
                    busy(Task::ReadingDefault(DeviceKind::Source, Goal::Report)),
                    ask(Command::ServerInfo),
                ),
                Message::SetSinkVolumeByName(n, v) => (
                    busy(Task::Volume),
                    ask(Command::SetVolume(DeviceKind::Sink, n, v)),
                ),
                Message::SetSourceVolumeByName(n, v) => (
                    busy(Task::Volume),
                    ask(Command::SetVolume(DeviceKind::Source, n, v)),
                ),
                Message::SetDefaultSink(d) => match d.name {
                    Some(n) => (
                        busy(Task::ReadingDefault(DeviceKind::Sink, Goal::Switch(d, n))),
                        ask(Command::ServerInfo),
                    ),
                    None => (w, quiet()),
                },
                Message::SetDefaultSource(d) => match d.name {
                    Some(n) => (
                        busy(Task::ReadingDefault(DeviceKind::Source, Goal::Switch(d, n))),
                        ask(Command::ServerInfo),
                    ),
                    None => (w, quiet()),
                },
                _ => (w, quiet()),
            }
        },
    }
}

/// The step after the streams are known, or after one of them was moved:
/// move the stream at position `i`, or report the new default when none is
/// left.
pub open spec fn move_from(
    k: DeviceKind,
    t: DeviceInfo,
    n: String,
    mv: Vec<u32>,
    i: usize,
) -> (Worker, Step) {
    if i < mv@.len() {
        (
            busy(Task::Moving(k, t, n, mv, (i + 1) as usize)),
            ask(Command::MoveStream(k, mv@[i as int], n)),
        )
    } else {
        (idle(true), emit(default_event(k, t)))
    }
}

/// How a busy worker takes the answer to its command, for every task but
/// `Streams`, whose next state holds a vector built from the reply (see
/// `resume_rel`).
pub open spec fn resume_spec(w: Worker, reply: Reply) -> (Worker, Step) {
    match w.task {
        Task::Idle => (w, quiet()),
        Task::Probing => match reply {
            Reply::Server(Ok(_)) => (idle(true), quiet()),
            _ => lost(),
        },
        Task::Connecting => match reply {
            Reply::Connection(Ok(())) => (idle(true), emit(Message::Connected)),
            _ => (idle(false), quiet()),
        },
        Task::Listing(k) => match reply {
            Reply::Devices(Ok(l)) => (idle(true), emit(list_event(k, l))),
            _ => lost(),
        },
        Task::Volume => (idle(true), quiet()),
        Task::ReadingDefault(k, g) => match reply {
            Reply::Server(Ok(info)) => match default_name_field(info, k) {
                Some(name) => (busy(Task::LookingUp(k, g)), ask(Command::LookupDevice(k, name))),
                None => lost(),
            },
            _ => lost(),
        },
        Task::LookingUp(k, g) => match reply {
            Reply::Device(Ok(d)) => match g {
                Goal::Report => (idle(true), emit(default_event(k, d))),
                Goal::Switch(t, n) => (
                    busy(Task::Streams(k, t, n, d.index)),
                    ask(Command::ListStreams(k)),
                ),
            },
            _ => lost(),
        },
        Task::Streams(_, _, _, _) => (w, quiet()),
        Task::Assigning(k, t, n, mv) => match reply {
            Reply::Flag(true) => move_from(k, t, n, mv, 0),
            _ => (idle(true), quiet()),
        },
        Task::Moving(k, t, n, mv, i) => move_from(k, t, n, mv, i),
    }
}

/// The server's default device name of a kind.
pub open spec fn default_name_field(info: ServerInfo, k: DeviceKind) -> Option<String> {
    match k {
        DeviceKind::Sink => info.default_sink_name,
        DeviceKind::Source => info.default_source_name,
    }
}

/// How a busy worker takes the answer to its command.
///
/// Once the streams on the old default are listed, the worker keeps the
/// indices of those attached to it, in listing order, and asks to assign the
/// new default; an answer of another shape counts as no streams.
pub open spec fn resume_rel(w: Worker, reply: Reply, w2: Worker, s: Step) -> bool {
    match w.task {
        Task::Streams(k, t, n, old_index) => {
            let found = match reply {
                Reply::Streams(l) => attached_to(l@, old_index),
                _ => Seq::empty(),
            };
            &&& s == ask(Command::AssignDefault(k, n))
            &&& w2.connected
            &&& w2.task matches Task::Assigning(k2, t2, n2, mv) && k2 == k && t2 == t && n2 == n
                && mv@ == found
        },
        _ => (w2, s) == resume_spec(w, reply),
    }
}

impl Worker {
    /// A worker without a connection, waiting for a request.
    pub fn new() -> (r: Worker)
        ensures
            r == idle(false),
            r.wf(),
    {
        Worker { connected: false, task: Task::Idle }
    }

    /// Whether the worker waits for a request (rather than for an answer).
    pub fn ready(&self) -> (r: bool)
        ensures
            r == self.is_idle(),
    {
        match self.task {
            Task::Idle => true,
            _ => false,
        }
    }

    /// Takes a request. `UpdateConnection` probes a live connection or
    /// starts a new one; any other request is dropped, with no command and no
    /// event, while there is no connection. A default switch to a device
    /// without a name is dropped too. Otherwise the first operation of the
    /// request is returned.
    pub fn submit(&mut self, req: Message) -> (r: Step)
        requires
            old(self).is_idle(),
            old(self).wf(),
        ensures
            (*final(self), r) == submit_spec(*old(self), req),
            final(self).wf(),
            !old(self).connected && is_data_request(req) ==> *final(self) == *old(self) && r
                == quiet(),
    {
        match req {
            Message::UpdateConnection => {
                if self.connected {
                    self.task = Task::Probing;
                    Step { command: Some(Command::ServerInfo), event: None }
                } else {
                    self.task = Task::Connecting;
                    Step { command: Some(Command::Connect), event: None }
                }
            },
            _ => {
                if !self.connected {
                    return Step { command: None, event: None };
                }
                match req {
                    Message::GetSinks => {
                        self.task = Task::Listing(DeviceKind::Sink);
                        Step { command: Some(Command::ListDevices(DeviceKind::Sink)), event: None }
                    },
                    Message::GetSources => {
                        self.task = Task::Listing(DeviceKind::Source);
                        Step {
                            command: Some(Command::ListDevices(DeviceKind::Source)),
                            event: None,
                        }
                    },
                    Message::GetDefaultSink => {
                        self.task = Task::ReadingDefault(DeviceKind::Sink, Goal::Report);
                        Step { command: Some(Command::ServerInfo), event: None }
                    },
                    Message::GetDefaultSource => {
                        self.task = Task::ReadingDefault(DeviceKind::Source, Goal::Report);
                        Step { command: Some(Command::ServerInfo), event: None }
                    },
                    Message::SetSinkVolumeByName(n, v) => {
                        self.task = Task::Volume;
                        Step { command: Some(Command::SetVolume(DeviceKind::Sink, n, v)), event: None }
                    },
                    Message::SetSourceVolumeByName(n, v) => {
                        self.task = Task::Volume;
                        Step {
                            command: Some(Command::SetVolume(DeviceKind::Source, n, v)),
                            event: None,
                        }
                    },
                    Message::SetDefaultSink(d) => self.begin_switch(DeviceKind::Sink, d),
                    Message::SetDefaultSource(d) => self.begin_switch(DeviceKind::Source, d),
                    _ => Step { command: None, event: None },
                }
            },
        }
    }

    /// Starts a default switch to `d`, unless it has no name.
    fn begin_switch(&mut self, k: DeviceKind, d: DeviceInfo) -> (r: Step)
        requires
            old(self).is_idle(),
            old(self).connected,
        ensures
            match d.name {
                Some(n) => *final(self) == busy(Task::ReadingDefault(k, Goal::Switch(d, n))) && r
                    == ask(Command::ServerInfo),
                None => *final(self) == *old(self) && r == quiet(),
            },
    {
        let n = match &d.name {
            Some(n) => n.clone(),
            None => {
                return Step { command: None, event: None };
            },
        };
        self.task = Task::ReadingDefault(k, Goal::Switch(d, n));
        Step { command: Some(Command::ServerInfo), event: None }
    }

    /// Moves the stream at position `i`, or reports the switch done.
    fn next_move(&mut self, k: DeviceKind, t: DeviceInfo, n: String, mv: Vec<u32>, i: usize) -> (r:
        Step)
        requires
            i <= mv@.len(),
        ensures
            (*final(self), r) == move_from(k, t, n, mv, i),
            final(self).wf(),
    {
        self.connected = true;
        if i < mv.len() {
            let index = mv[i];
            let name = n.clone();
            self.task = Task::Moving(k, t, n, mv, i + 1);
            Step { command: Some(Command::MoveStream(k, index, name)), event: None }
        } else {
            self.task = Task::Idle;
            let ev = match k {
                DeviceKind::Sink => Message::SetDefaultSink(t),
                DeviceKind::Source => Message::SetDefaultSource(t),
            };
            Step { command: None, event: Some(ev) }
        }
    }

    /// Takes the service's answer to the last command. A failed probe, device
    /// listing, server read or device lookup, or a server that names no
    /// default device of the kind asked for, drops the connection and emits
    /// `Disconnected`; a failed connection attempt emits nothing. A default
    /// switch asks for the new default only after the old default and its
    /// streams are known, moves the streams only once the new default is
    /// assigned, whatever each move came to, and then reports the new
    /// default.
    pub fn resume(&mut self, reply: Reply) -> (r: Step)
        requires
            !old(self).is_idle(),
            old(self).wf(),
        ensures
            resume_rel(*old(self), reply, *final(self), r),
            final(self).wf(),
    {
        let mut task = Task::Idle;
        std::mem::swap(&mut task, &mut self.task);
        match task {
            Task::Idle => Step { command: None, event: None },
            Task::Probing => match reply {
                Reply::Server(Ok(_)) => Step { command: None, event: None },
                _ => self.drop_connection(),
            },
            Task::Connecting => match reply {
                Reply::Connection(Ok(())) => {
                    self.connected = true;
                    Step { command: None, event: Some(Message::Connected) }
                },
                _ => Step { command: None, event: None },
            },
            Task::Listing(k) => match reply {
                Reply::Devices(Ok(l)) => {
                    let ev = match k {
                        DeviceKind::Sink => Message::SetSinks(l),
                        DeviceKind::Source => Message::SetSources(l),
                    };
                    Step { command: None, event: Some(ev) }
                },
                _ => self.drop_connection(),
            },
            Task::Volume => Step { command: None, event: None },
            Task::ReadingDefault(k, g) => match reply {
                Reply::Server(Ok(info)) => {
                    let field = match k {
                        DeviceKind::Sink => info.default_sink_name,
                        DeviceKind::Source => info.default_source_name,
                    };
                    match field {
                        Some(name) => {
                            self.task = Task::LookingUp(k, g);
                            Step { command: Some(Command::LookupDevice(k, name)), event: None }
                        },
                        None => self.drop_connection(),
                    }
                },
                _ => self.drop_connection(),
            },
            Task::LookingUp(k, g) => match reply {
                Reply::Device(Ok(d)) => match g {
                    Goal::Report => {
                        let ev = match k {
                            DeviceKind::Sink => Message::SetDefaultSink(d),
                            DeviceKind::Source => Message::SetDefaultSource(d),
                        };
                        Step { command: None, event: Some(ev) }
                    },
                    Goal::Switch(t, n) => {
                        self.task = Task::Streams(k, t, n, d.index);
                        Step { command: Some(Command::ListStreams(k)), event: None }
                    },
                },
                _ => self.drop_connection(),
            },
            Task::Streams(k, t, n, old_index) => {
                let found = match reply {
                    Reply::Streams(l) => streams_on(&l, old_index),
                    _ => Vec::new(),
                };
                let name = n.clone();
                self.task = Task::Assigning(k, t, n, found);
                Step { command: Some(Command::AssignDefault(k, name)), event: None }
            },
            Task::Assigning(k, t, n, mv) => match reply {
                Reply::Flag(true) => self.next_move(k, t, n, mv, 0),
                _ => Step { command: None, event: None },
            },
            Task::Moving(k, t, n, mv, i) => self.next_move(k, t, n, mv, i),
        }
    }

    /// Forgets the connection and reports it lost.
    fn drop_connection(&mut self) -> (r: Step)
        ensures
            (*final(self), r) == lost(),
    {
        self.connected = false;
        self.task = Task::Idle;
        Step { command: None, event: Some(Message::Disconnected) }
    }
}

} // verus!
