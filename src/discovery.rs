use vstd::prelude::*;
use crate::channel::MessageChannel;

verus! {

/// Port on which schedulers listen for probes and accept connections.
pub const SCHEDULER_PORT: u16 = 8765;

/// Discovery timeout where none is given, in milliseconds.
pub const DEFAULT_TIMEOUT_MS: u32 = 2000;

/// Where discovery stands.
#[derive(Clone, Copy, Debug, PartialEq, Eq, Structural)]
pub enum Phase {
    /// Waiting for a scheduler to answer a broadcast probe.
    Probing,
    /// A connection to a scheduler is being opened.
    Connecting,
    /// Connected over the socket `fd`; the channel has not been taken yet.
    Connected(i32),
    /// The channel has been handed out.
    Taken,
}

/// Something that happened to the discovery's sockets or clock.
pub enum DiscoveryEvent {
    /// Milliseconds since discovery started.
    Tick(u64),
    /// The broadcast socket was opened.
    ListenOpened(i32),
    /// A connection attempt was started on this socket.
    ConnectStarted(i32),
    /// A scheduler answered a probe.
    Reply { netname: String, host: String, port: u16 },
    /// The connection attempt completed.
    Connected,
    /// The connection attempt failed.
    ConnectFailed,
}

/// What the caller should do next.
#[derive(Debug)]
pub enum DiscoveryAction {
    /// Send a broadcast probe for this network.
    Broadcast { netname: String },
    /// Open a connection to this scheduler.
    Connect { host: String, port: u16 },
    /// Nothing to do until the next event.
    Wait,
}

/// Model of a discoverer.
pub struct DiscoveryView {
    pub netname: Seq<char>,
    pub scheduler: Option<Seq<char>>,
    pub timeout_ms: u32,
    pub elapsed_ms: u64,
    pub phase: Phase,
    pub listen_fd: i32,
    pub connect_fd: i32,
}

/// Scheduler discovery, polled by the caller: it decides what to do on each
/// event, while the caller opens sockets, sends probes and keeps time.
pub struct ScheduleDiscoverer {
    netname: String,
    scheduler: Option<String>,
    timeout_ms: u32,
    elapsed_ms: u64,
    phase: Phase,
    listen_fd: i32,
    connect_fd: i32,
}

pub open spec fn opt_view(s: Option<String>) -> Option<Seq<char>> {
    match s {
        Some(x) => Some(x@),
        None => None,
    }
}

impl View for ScheduleDiscoverer {
    type V = DiscoveryView;

    closed spec fn view(&self) -> DiscoveryView {
        DiscoveryView {
            netname: self.netname@,
            scheduler: opt_view(self.scheduler),
            timeout_ms: self.timeout_ms,
            elapsed_ms: self.elapsed_ms,
            phase: self.phase,
            listen_fd: self.listen_fd,
            connect_fd: self.connect_fd,
        }
    }
}

/// A scheduler has been found and connected.
pub open spec fn found(v: DiscoveryView) -> bool {
    v.phase is Connected || v.phase is Taken
}

/// More time than the timeout has passed and no scheduler was found.
pub open spec fn is_timed_out(v: DiscoveryView) -> bool {
    !found(v) && v.elapsed_ms > v.timeout_ms
}

/// A reply from network `netname` is for this discovery: any network where
/// no name was given, else only the named one.
pub open spec fn accepts_network(v: DiscoveryView, netname: Seq<char>) -> bool {
    v.netname.len() == 0 || netname == v.netname
}

/// The action is a broadcast probe for `netname`.
pub open spec fn broadcast_for(a: DiscoveryAction, netname: Seq<char>) -> bool {
    a matches DiscoveryAction::Broadcast { netname: n } && n@ == netname
}

/// The action is a connection to `host` on `port`.
pub open spec fn connect_to(a: DiscoveryAction, host: Seq<char>, port: u16) -> bool {
    a matches DiscoveryAction::Connect { host: h, port: p } && h@ == host && p == port
}

/// The first thing to do: connect to the configured scheduler, or else
/// broadcast a probe.
pub open spec fn start_action(v: DiscoveryView, a: DiscoveryAction) -> bool {
    match v.scheduler {
        Some(h) => connect_to(a, h, SCHEDULER_PORT),
        None => broadcast_for(a, v.netname),
    }
}

/// The model after an event, and what the action must be.
pub open spec fn step(
    v: DiscoveryView,
    e: DiscoveryEvent,
    a: DiscoveryAction,
    w: DiscoveryView,
) -> bool {
    match e {
        DiscoveryEvent::Tick(t) => w == (DiscoveryView {
            elapsed_ms: if t > v.elapsed_ms { t } else { v.elapsed_ms },
            ..v
        }) && a is Wait,
        DiscoveryEvent::ListenOpened(fd) => {
            w == (DiscoveryView { listen_fd: fd, ..v }) && a is Wait
        },
        DiscoveryEvent::ConnectStarted(fd) => {
            w == (DiscoveryView { connect_fd: fd, ..v }) && a is Wait
        },
        DiscoveryEvent::Reply { netname, host, port } => if v.phase is Probing
            && v.scheduler is None && accepts_network(v, netname@) && !is_timed_out(v) {
            w == (DiscoveryView { phase: Phase::Connecting, ..v }) && connect_to(a, host@, port)
        } else {
            w == v && a is Wait
        },
        DiscoveryEvent::Connected => if v.phase is Connecting && !is_timed_out(v) {
            w == (DiscoveryView { phase: Phase::Connected(v.connect_fd), ..v }) && a is Wait
        } else {
            w == v && a is Wait
        },
        DiscoveryEvent::ConnectFailed => if v.phase is Connecting && !is_timed_out(v) {
            match v.scheduler {
                Some(h) => w == v && connect_to(a, h, SCHEDULER_PORT),
                None => {
                    &&& w == (DiscoveryView { phase: Phase::Probing, ..v })
                    &&& broadcast_for(a, v.netname)
                },
            }
        } else {
            w == v && a is Wait
        },
    }
}

impl ScheduleDiscoverer {
    /// Discovery by broadcast on the network `netname` (or the default
    /// network), with the default timeout.
    pub fn new(netname: Option<&String>) -> (r: ScheduleDiscoverer)
        ensures
            r@.netname == (match netname {
                Some(n) => n@,
                None => Seq::<char>::empty(),
            }),
            r@.scheduler is None,
            r@.timeout_ms == DEFAULT_TIMEOUT_MS,
            r@.elapsed_ms == 0,
            r@.phase == (if r@.scheduler is Some { Phase::Connecting } else { Phase::Probing }),
            r@.listen_fd == -1,
            r@.connect_fd == -1,
    {
        let name = match netname {
            Some(n) => n.clone(),
            None => String::new(),
        };
        ScheduleDiscoverer {
            netname: name,
            scheduler: None,
            timeout_ms: DEFAULT_TIMEOUT_MS,
            elapsed_ms: 0,
            phase: Phase::Probing,
            listen_fd: -1,
            connect_fd: -1,
        }
    }

    /// Discovery on `netname` with a timeout in milliseconds; a non-empty
    /// `scheduler` names the scheduler's host, which is then connected to
    /// directly instead of broadcasting.
    pub fn new_with_options(netname: &str, scheduler: &str, timeout: u32) -> (r: ScheduleDiscoverer)
        ensures
            r@.netname == netname@,
            r@.scheduler == (if scheduler@.len() == 0 {
                None
            } else {
                Some(scheduler@)
            }),
            r@.timeout_ms == timeout,
            r@.elapsed_ms == 0,
            r@.phase == (if r@.scheduler is Some { Phase::Connecting } else { Phase::Probing }),
            r@.listen_fd == -1,
            r@.connect_fd == -1,
    {
        let host = if scheduler.is_empty() {
            None
        } else {
            Some(scheduler.to_owned())
        };
        let phase = if scheduler.is_empty() {
            Phase::Probing
        } else {
            Phase::Connecting
        };
        ScheduleDiscoverer {
            netname: netname.to_owned(),
            scheduler: host,
            timeout_ms: timeout,
            elapsed_ms: 0,
            phase,
            listen_fd: -1,
            connect_fd: -1,
        }
    }

    /// What to do first: a direct connection where a scheduler is
    /// configured, else a broadcast probe.
    pub fn first_action(&self) -> (r: DiscoveryAction)
        ensures
            start_action(self@, r),
    {
        match &self.scheduler {
            Some(h) => DiscoveryAction::Connect { host: h.clone(), port: SCHEDULER_PORT },
            None => DiscoveryAction::Broadcast { netname: self.netname.clone() },
        }
    }

    /// Takes one event and says what to do next. Late or duplicate replies
    /// are ignored: the first valid reply wins.
    pub fn on_event(&mut self, e: DiscoveryEvent) -> (r: DiscoveryAction)
        ensures
            step(old(self)@, e, r, final(self)@),
    {
        let timed_out = self.timed_out();
        match e {
            DiscoveryEvent::Tick(t) => {
                if t > self.elapsed_ms {
                    self.elapsed_ms = t;
                }
                DiscoveryAction::Wait
            },
            DiscoveryEvent::ListenOpened(fd) => {
                self.listen_fd = fd;
                DiscoveryAction::Wait
            },
            DiscoveryEvent::ConnectStarted(fd) => {
                self.connect_fd = fd;
                DiscoveryAction::Wait
            },
            DiscoveryEvent::Reply { netname, host, port } => {
                let accepted = self.netname.as_str().is_empty() || netname == self.netname;
                if self.phase == Phase::Probing && self.scheduler.is_none() && accepted
                    && !timed_out {
                    self.phase = Phase::Connecting;
                    DiscoveryAction::Connect { host, port }
                } else {
                    DiscoveryAction::Wait
                }
            },
            DiscoveryEvent::Connected => {
                if self.phase == Phase::Connecting && !timed_out {
                    self.phase = Phase::Connected(self.connect_fd);
                }
                DiscoveryAction::Wait
            },
            DiscoveryEvent::ConnectFailed => {
                if self.phase == Phase::Connecting && !timed_out {
                    match &self.scheduler {
                        Some(h) => {
                            DiscoveryAction::Connect { host: h.clone(), port: SCHEDULER_PORT }
                        },
                        None => {
                            self.phase = Phase::Probing;
                            DiscoveryAction::Broadcast { netname: self.netname.clone() }
                        },
                    }
                } else {
                    DiscoveryAction::Wait
                }
            },
        }
    }

    /// More than the timeout has passed and no scheduler was found.
    pub fn timed_out(&self) -> (r: bool)
        ensures
            r == is_timed_out(self@),
    {
        let found = match self.phase {
            Phase::Connected(_) | Phase::Taken => true,
            _ => false,
        };
        !found && self.elapsed_ms > self.timeout_ms as u64
    }

    /// The channel to the scheduler once connected, handed out once.
    pub fn try_get_scheduler(&mut self) -> (r: Option<MessageChannel>)
        ensures
            match old(self)@.phase {
                Phase::Connected(fd) => {
                    &&& final(self)@ == (DiscoveryView { phase: Phase::Taken, ..old(self)@ })
                    &&& r matches Some(c) && c@ == MessageChannel::from_raw_ptr_view(fd)
                },
                _ => final(self)@ == old(self)@ && r is None,
            },
    {
        match self.phase {
            Phase::Connected(fd) => {
                self.phase = Phase::Taken;
                Some(MessageChannel::from_raw_ptr(fd))
            },
            _ => None,
        }
    }

    /// The broadcast socket, or -1.
    pub fn listen_fd(&self) -> (r: i32)
        ensures
            r == self@.listen_fd,
    {
        self.listen_fd
    }

    /// The socket of the connection attempt, or -1.
    pub fn connect_fd(&self) -> (r: i32)
        ensures
            r == self@.connect_fd,
    {
        self.connect_fd
    }
}

/// A discoverer configured with a scheduler never asks for a broadcast,
/// from its first action on through every event.
pub proof fn lemma_explicit_scheduler_never_broadcasts(
    v: DiscoveryView,
    e: DiscoveryEvent,
    a: DiscoveryAction,
    w: DiscoveryView,
    first: DiscoveryAction,
)
    requires
        v.scheduler is Some,
        start_action(v, first),
        step(v, e, a, w),
    ensures
        !(first is Broadcast),
        !(a is Broadcast),
        w.scheduler == v.scheduler,
{
}

/// Without a completed connection, discovery finds nothing: it reports a
/// time-out exactly when more than the timeout has passed, never earlier,
/// and hands out no channel.
pub proof fn lemma_timeout_without_scheduler(
    v: DiscoveryView,
    e: DiscoveryEvent,
    a: DiscoveryAction,
    w: DiscoveryView,
)
    requires
        !found(v),
        !(e is Connected),
        step(v, e, a, w),
    ensures
        !found(w),
        is_timed_out(w) <==> w.elapsed_ms > w.timeout_ms,
        is_timed_out(w) ==> w.elapsed_ms > v.timeout_ms,
        w.timeout_ms == v.timeout_ms,
        w.elapsed_ms >= v.elapsed_ms,
{
}

} // verus!
