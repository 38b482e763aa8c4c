use vstd::prelude::*;
use bstr::ByteSlice;
use crate::codec::{
    completion_pause_ms, duration_of, encode, encoding, estimated_duration_ms, MAX_MOVES,
};
use crate::face_rotation::{rotation_at, FaceRotation, ROTATION_COUNT};

verus! {

/// Where a session with the peripheral stands.
#[derive(Debug, PartialEq, Eq, Structural, Clone, Copy)]
pub enum SessionState {
    Idle,
    Scanning,
    Found,
    Connecting,
    Connected,
    WritingMoves,
    AwaitingCompletion,
}

/// Why a session ended.
#[derive(Debug, PartialEq, Eq, Structural, Clone, Copy)]
pub enum SessionError {
    /// No advertisement matched the device name before the scan timed out.
    DiscoveryTimeout,
    /// Connecting, resolving the characteristics, or a read or write failed.
    TransportFailure,
    /// A batch holds more moves than one buffer carries.
    EncodingPrecondition,
}

/// Connection parameters requested right after connecting.
#[derive(Debug, PartialEq, Eq, Structural, Clone, Copy)]
pub struct ConnParams {
    pub min_interval: u16,
    pub max_interval: u16,
    pub latency: u16,
    pub supervision_timeout: u16,
}

/// How a session scans, connects, and paces its work.
#[derive(Debug)]
pub struct SessionConfig {
    /// Fragment that an advertised name must contain.
    pub device_name: Vec<u8>,
    pub scan_timeout_ms: u64,
    pub scan_interval: u16,
    pub scan_window: u16,
    pub conn: ConnParams,
    /// Pause between two idle ticks, and between two status reads.
    pub poll_interval_ms: u32,
    /// Moves drawn per trigger.
    pub batch_size: usize,
    /// Whether to wait for the status byte to clear after each write.
    pub wait_for_completion: bool,
}

/// How long a scan looks for the device, in milliseconds.
pub const SCAN_TIMEOUT_MS: u64 = 10000;

/// Scan interval handed to the transport.
pub const SCAN_INTERVAL: u16 = 100;

/// Scan window handed to the transport.
pub const SCAN_WINDOW: u16 = 99;

/// Connection interval requested, as both lower and upper bound.
pub const CONN_INTERVAL: u16 = 120;

/// Connection events the peripheral may skip.
pub const CONN_LATENCY: u16 = 0;

/// Supervision timeout requested for the connection.
pub const CONN_SUPERVISION_TIMEOUT: u16 = 60;

/// Pause between idle ticks and between status reads, in milliseconds.
pub const POLL_INTERVAL_MS: u32 = 100;

impl SessionConfig {
    /// A configuration with the usual timings for the given device name,
    /// batch size and completion policy; a batch larger than one buffer
    /// carries is refused.
    pub fn new(device_name: Vec<u8>, batch_size: usize, wait_for_completion: bool) -> (r: Result<
        SessionConfig,
        SessionError,
    >)
        ensures
            batch_size <= MAX_MOVES <==> r is Ok,
            batch_size > MAX_MOVES ==> r == Err::<SessionConfig, _>(
                SessionError::EncodingPrecondition,
            ),
            r matches Ok(c) ==> {
                &&& c.device_name@ == device_name@
                &&& c.batch_size == batch_size
                &&& c.wait_for_completion == wait_for_completion
                &&& c.scan_timeout_ms == SCAN_TIMEOUT_MS
                &&& c.scan_interval == SCAN_INTERVAL
                &&& c.scan_window == SCAN_WINDOW
                &&& c.conn == (ConnParams {
                    min_interval: CONN_INTERVAL,
                    max_interval: CONN_INTERVAL,
                    latency: CONN_LATENCY,
                    supervision_timeout: CONN_SUPERVISION_TIMEOUT,
                })
                &&& c.poll_interval_ms == POLL_INTERVAL_MS
            },
    {
        if batch_size > MAX_MOVES {
            return Err(SessionError::EncodingPrecondition);
        }
        Ok(SessionConfig {
            device_name,
            scan_timeout_ms: SCAN_TIMEOUT_MS,
            scan_interval: SCAN_INTERVAL,
            scan_window: SCAN_WINDOW,
            conn: ConnParams {
                min_interval: CONN_INTERVAL,
                max_interval: CONN_INTERVAL,
                latency: CONN_LATENCY,
                supervision_timeout: CONN_SUPERVISION_TIMEOUT,
            },
            poll_interval_ms: POLL_INTERVAL_MS,
            batch_size,
            wait_for_completion,
        })
    }
}

/// What happened since the last step.
#[derive(Debug)]
pub enum Event {
    /// The session is asked to begin.
    Start,
    /// An advertisement was seen, `elapsed_ms` after the scan began.
    Advertisement { name: Option<Vec<u8>>, elapsed_ms: u64 },
    /// The scan ended without a device.
    ScanTimeout,
    /// The last action completed.
    Done,
    /// An idle tick: whether the trigger input was active, and the random
    /// draws taken for a batch when it was.
    Tick { trigger: bool, draws: Vec<u32> },
    /// The status characteristic was read.
    Status { payload: Vec<u8> },
    /// The transport reported an error.
    TransportFailure,
}

/// What the session asks its driver to do next.
#[derive(Debug)]
pub enum Action {
    /// Nothing to do for this event.
    Nothing,
    StartScan { timeout_ms: u64, interval: u16, window: u16 },
    KeepScanning,
    StopScan,
    /// Connect, request the parameters, then resolve the characteristics.
    Connect { params: ConnParams },
    /// Show the ready indicator, wait the poll interval, then sample the trigger.
    Ready { poll_ms: u32 },
    /// Write the buffer to the move characteristic, once.
    Write { bytes: [u8; 18], moves: Vec<FaceRotation> },
    /// Wait, then read the status characteristic.
    PollStatus { delay_ms: u64 },
    /// End the session with this error.
    Fail { error: SessionError },
}

/// A session: its configuration, its state, and the estimated duration of
/// the batch last written.
pub struct Session {
    pub config: SessionConfig,
    pub state: SessionState,
    pub pending_ms: usize,
}

/// Whether `needle` occurs in `hay` as a contiguous run.
pub open spec fn contains_bytes(hay: Seq<u8>, needle: Seq<u8>) -> bool {
    exists|i: int|
        0 <= i && i + needle.len() <= hay.len() && #[trigger] hay.subrange(i, i + needle.len())
            == needle
}

/// Whether an advertised name (if any) contains the device name fragment.
pub open spec fn name_matches(name: Option<Vec<u8>>, fragment: Seq<u8>) -> bool {
    match name {
        Some(n) => contains_bytes(n@, fragment),
        None => false,
    }
}

/// Relies on bstr's `ByteSlice::contains_str`: true if and only if the
/// needle occurs in the haystack.
#[verifier::external_body]
fn bytes_contain(hay: &[u8], needle: &[u8]) -> (r: bool)
    ensures
        r == contains_bytes(hay@, needle@),
{
    hay.contains_str(needle)
}

/// Whether an advertisement with this name is the peripheral sought.
pub fn advertisement_matches(name: Option<&[u8]>, fragment: &[u8]) -> (r: bool)
    ensures
        r == match name {
            Some(n) => contains_bytes(n@, fragment@),
            None => false,
        },
{
    match name {
        Some(n) => bytes_contain(n, fragment),
        None => false,
    }
}

/// The moves that a list of random draws selects, one per draw.
pub open spec fn drawn(draws: Seq<u32>) -> Seq<FaceRotation> {
    draws.map_values(|d: u32| rotation_at((d % ROTATION_COUNT) as int))
}

/// Turns random draws into moves, one per draw, in order.
pub fn pick_moves(draws: &[u32]) -> (r: Vec<FaceRotation>)
    ensures
        r@ == drawn(draws@),
{
    let mut moves: Vec<FaceRotation> = Vec::new();
    let mut i: usize = 0;
    while i < draws.len()
        invariant
            i <= draws@.len(),
            moves@ =~= drawn(draws@.subrange(0, i as int)),
        decreases draws@.len() - i,
    {
        moves.push(FaceRotation::from_draw(draws[i]));
        i = i + 1;
        assert(moves@ =~= drawn(draws@.subrange(0, i as int)));
    }
    assert(draws@.subrange(0, i as int) =~= draws@);
    moves
}

/// An event that the current state has no use for changes nothing.
pub open spec fn ignored(
    s: SessionState,
    pending: usize,
    s2: SessionState,
    pending2: usize,
    a: Action,
) -> bool {
    s2 == s && pending2 == pending && a == Action::Nothing
}

/// The session moves to `s2` with `pending2` and asks for `a`, the
/// estimated duration of the batch in flight unchanged.
pub open spec fn goes_to(
    pending: usize,
    s2: SessionState,
    pending2: usize,
    a: Action,
    t: SessionState,
    b: Action,
) -> bool {
    s2 == t && pending2 == pending && a == b
}

/// One step of a session: from state `s`, with `pending` the estimated
/// duration of the batch in flight, event `e` leads to state `s2`, with
/// `pending2`, and to action `a`.
pub open spec fn step_relation(
    cfg: SessionConfig,
    s: SessionState,
    pending: usize,
    e: Event,
    s2: SessionState,
    pending2: usize,
    a: Action,
) -> bool {
    match e {
        Event::TransportFailure => goes_to(
            pending,
            s2,
            pending2,
            a,
            SessionState::Idle,
            Action::Fail { error: SessionError::TransportFailure },
        ),
        Event::Start => if s == SessionState::Idle {
            goes_to(
                pending,
                s2,
                pending2,
                a,
                SessionState::Scanning,
                Action::StartScan {
                    timeout_ms: cfg.scan_timeout_ms,
                    interval: cfg.scan_interval,
                    window: cfg.scan_window,
                },
            )
        } else {
            ignored(s, pending, s2, pending2, a)
        },
        Event::Advertisement { name, elapsed_ms } => if s != SessionState::Scanning {
            ignored(s, pending, s2, pending2, a)
        } else if elapsed_ms > cfg.scan_timeout_ms {
            goes_to(
                pending,
                s2,
                pending2,
                a,
                SessionState::Idle,
                Action::Fail { error: SessionError::DiscoveryTimeout },
            )
        } else if name_matches(name, cfg.device_name@) {
            goes_to(pending, s2, pending2, a, SessionState::Found, Action::StopScan)
        } else {
            goes_to(pending, s2, pending2, a, SessionState::Scanning, Action::KeepScanning)
        },
        Event::ScanTimeout => if s == SessionState::Scanning {
            goes_to(
                pending,
                s2,
                pending2,
                a,
                SessionState::Idle,
                Action::Fail { error: SessionError::DiscoveryTimeout },
            )
        } else {
            ignored(s, pending, s2, pending2, a)
        },
        Event::Done => if s == SessionState::Found {
            goes_to(
                pending,
                s2,
                pending2,
                a,
                SessionState::Connecting,
                Action::Connect { params: cfg.conn },
            )
        } else if s == SessionState::Connecting || (s == SessionState::WritingMoves
            && !cfg.wait_for_completion) {
            goes_to(
                pending,
                s2,
                pending2,
                a,
                SessionState::Connected,
                Action::Ready { poll_ms: cfg.poll_interval_ms },
            )
        } else if s == SessionState::WritingMoves {
            goes_to(
                pending,
                s2,
                pending2,
                a,
                SessionState::AwaitingCompletion,
                Action::PollStatus { delay_ms: (pending * 3 / 4) as u64 },
            )
        } else {
            ignored(s, pending, s2, pending2, a)
        },
        Event::Tick { trigger, draws } => if s != SessionState::Connected {
            ignored(s, pending, s2, pending2, a)
        } else if !trigger {
            goes_to(
                pending,
                s2,
                pending2,
                a,
                SessionState::Connected,
                Action::Ready { poll_ms: cfg.poll_interval_ms },
            )
        } else if draws@.len() > MAX_MOVES {
            goes_to(
                pending,
                s2,
                pending2,
                a,
                SessionState::Idle,
                Action::Fail { error: SessionError::EncodingPrecondition },
            )
        } else {
            &&& s2 == SessionState::WritingMoves
            &&& pending2 == duration_of(drawn(draws@))
            &&& match a {
                Action::Write { bytes, moves } => bytes@ == encoding(drawn(draws@)) && moves@
                    == drawn(draws@),
                _ => false,
            }
        },
        Event::Status { payload } => if s != SessionState::AwaitingCompletion {
            ignored(s, pending, s2, pending2, a)
        } else if payload@.len() == 0 {
            goes_to(
                pending,
                s2,
                pending2,
                a,
                SessionState::Idle,
                Action::Fail { error: SessionError::TransportFailure },
            )
        } else if payload@[0] == 0 {
            goes_to(
                pending,
                s2,
                pending2,
                a,
                SessionState::Connected,
                Action::Ready { poll_ms: cfg.poll_interval_ms },
            )
        } else {
            goes_to(
                pending,
                s2,
                pending2,
                a,
                SessionState::AwaitingCompletion,
                Action::PollStatus { delay_ms: cfg.poll_interval_ms as u64 },
            )
        },
    }
}

/// Writes come one per trigger. Only a triggered tick in the connected state
/// asks for a write, and that step leaves the session writing. A session that
/// is writing or awaiting completion asks for no write. When completion is
/// awaited, a writing session moves on only to awaiting completion or to a
/// failure, and a session awaiting completion returns to the connected state
/// only on a status whose first byte is zero.
pub proof fn lemma_one_write_per_trigger(
    cfg: SessionConfig,
    s: SessionState,
    pending: usize,
    e: Event,
    s2: SessionState,
    pending2: usize,
    a: Action,
)
    requires
        step_relation(cfg, s, pending, e, s2, pending2, a),
    ensures
        a is Write ==> s == SessionState::Connected && s2 == SessionState::WritingMoves && (
        e matches Event::Tick { trigger, .. } && trigger),
        s == SessionState::Connected && (e matches Event::Tick { trigger, draws } && trigger
            && draws@.len() <= MAX_MOVES) ==> a is Write,
        s == SessionState::WritingMoves || s == SessionState::AwaitingCompletion ==> a !is Write,
        cfg.wait_for_completion && s == SessionState::WritingMoves ==> s2
            == SessionState::WritingMoves || s2 == SessionState::AwaitingCompletion || s2
            == SessionState::Idle,
        s == SessionState::AwaitingCompletion ==> s2 == SessionState::AwaitingCompletion || s2
            == SessionState::Connected || s2 == SessionState::Idle,
        s == SessionState::AwaitingCompletion && s2 == SessionState::Connected ==> (e matches Event::Status {
            payload,
        } && payload@.len() > 0 && payload@[0] == 0),
{
}

/// Whether the sequences record a run of steps: step `i` takes `states[i]`
/// and `pendings[i]` to `states[i + 1]` and `pendings[i + 1]` on `events[i]`,
/// and asks for `actions[i]`.
pub open spec fn is_run(
    cfg: SessionConfig,
    states: Seq<SessionState>,
    pendings: Seq<usize>,
    events: Seq<Event>,
    actions: Seq<Action>,
) -> bool {
    &&& states.len() == events.len() + 1
    &&& pendings.len() == states.len()
    &&& actions.len() == events.len()
    &&& forall|i: int|
        0 <= i < events.len() ==> step_relation(
            cfg,
            states[i],
            pendings[i],
            #[trigger] events[i],
            states[i + 1],
            pendings[i + 1],
            actions[i],
        )
}

/// Whether a batch is in flight: written, or awaiting its completion.
pub open spec fn is_busy(s: SessionState) -> bool {
    s == SessionState::WritingMoves || s == SessionState::AwaitingCompletion
}

/// Whether step `j` of a run ends the wait for a batch: a status whose first
/// byte is zero, read while awaiting completion, or the end of the session.
pub open spec fn releases(states: Seq<SessionState>, events: Seq<Event>, j: int) -> bool {
    ||| states[j + 1] == SessionState::Idle
    ||| {
        &&& states[j] == SessionState::AwaitingCompletion
        &&& states[j + 1] == SessionState::Connected
        &&& events[j] matches Event::Status { payload } && payload@.len() > 0 && payload@[0] == 0
    }
}

proof fn lemma_busy_until_released(
    cfg: SessionConfig,
    states: Seq<SessionState>,
    pendings: Seq<usize>,
    events: Seq<Event>,
    actions: Seq<Action>,
    i: int,
    m: int,
)
    requires
        cfg.wait_for_completion,
        is_run(cfg, states, pendings, events, actions),
        0 <= i < m <= events.len(),
        states[i + 1] == SessionState::WritingMoves,
    ensures
        is_busy(states[m]) || exists|j: int| i < j < m && releases(states, events, j),
    decreases m - i,
{
    if m > i + 1 {
        lemma_busy_until_released(cfg, states, pendings, events, actions, i, m - 1);
        let j = m - 1;
        if is_busy(states[j]) {
            lemma_one_write_per_trigger(
                cfg,
                states[j],
                pendings[j],
                events[j],
                states[j + 1],
                pendings[j + 1],
                actions[j],
            );
            if !is_busy(states[m]) {
                assert(releases(states, events, j));
            }
        }
    }
}

/// When completion is awaited, two writes in one run are separated by a
/// status whose first byte is zero, read while awaiting completion, or by
/// the end of the session.
pub proof fn lemma_no_write_while_awaiting(
    cfg: SessionConfig,
    states: Seq<SessionState>,
    pendings: Seq<usize>,
    events: Seq<Event>,
    actions: Seq<Action>,
    i: int,
    k: int,
)
    requires
        cfg.wait_for_completion,
        is_run(cfg, states, pendings, events, actions),
        0 <= i < k < events.len(),
        actions[i] is Write,
        actions[k] is Write,
    ensures
        exists|j: int| i < j < k && releases(states, events, j),
{
    assert(step_relation(
        cfg,
        states[i],
        pendings[i],
        events[i],
        states[i + 1],
        pendings[i + 1],
        actions[i],
    ));
    assert(step_relation(
        cfg,
        states[k],
        pendings[k],
        events[k],
        states[k + 1],
        pendings[k + 1],
        actions[k],
    ));
    lemma_one_write_per_trigger(
        cfg,
        states[i],
        pendings[i],
        events[i],
        states[i + 1],
        pendings[i + 1],
        actions[i],
    );
    lemma_one_write_per_trigger(
        cfg,
        states[k],
        pendings[k],
        events[k],
        states[k + 1],
        pendings[k + 1],
        actions[k],
    );
    lemma_busy_until_released(cfg, states, pendings, events, actions, i, k);
}

/// A scan that runs past its timeout without a match ends the session with a
/// discovery timeout; the only way into the found state is a matching
/// advertisement seen, while scanning, within the timeout.
pub proof fn lemma_scan_timeout(
    cfg: SessionConfig,
    s: SessionState,
    pending: usize,
    e: Event,
    s2: SessionState,
    pending2: usize,
    a: Action,
)
    requires
        step_relation(cfg, s, pending, e, s2, pending2, a),
    ensures
        s == SessionState::Scanning && (e is ScanTimeout || (e matches Event::Advertisement {
            elapsed_ms,
            ..
        } && elapsed_ms > cfg.scan_timeout_ms)) ==> s2 == SessionState::Idle && a == (Action::Fail {
            error: SessionError::DiscoveryTimeout,
        }),
        s2 == SessionState::Found && s != SessionState::Found ==> s == SessionState::Scanning && (
        e matches Event::Advertisement { name, elapsed_ms } && elapsed_ms <= cfg.scan_timeout_ms
            && name_matches(name, cfg.device_name@)),
{
}

impl Session {
    /// A session that has not started yet.
    pub fn new(config: SessionConfig) -> (r: Session)
        ensures
            r.config == config,
            r.state == SessionState::Idle,
            r.pending_ms == 0,
    {
        Session { config, state: SessionState::Idle, pending_ms: 0 }
    }

    /// Moves the session on by one event and returns what to do next.
    pub fn step(&mut self, event: Event) -> (a: Action)
        ensures
            final(self).config == old(self).config,
            step_relation(
                old(self).config,
                old(self).state,
                old(self).pending_ms,
                event,
                final(self).state,
                final(self).pending_ms,
                a,
            ),
    {
        match event {
            Event::TransportFailure => {
                self.state = SessionState::Idle;
                Action::Fail { error: SessionError::TransportFailure }
            },
            Event::Start => {
                if self.state == SessionState::Idle {
                    self.state = SessionState::Scanning;
                    Action::StartScan {
                        timeout_ms: self.config.scan_timeout_ms,
                        interval: self.config.scan_interval,
                        window: self.config.scan_window,
                    }
                } else {
                    Action::Nothing
                }
            },
            Event::Advertisement { name, elapsed_ms } => {
                if self.state != SessionState::Scanning {
                    Action::Nothing
                } else if elapsed_ms > self.config.scan_timeout_ms {
                    self.state = SessionState::Idle;
                    Action::Fail { error: SessionError::DiscoveryTimeout }
                } else {
                    let found = match &name {
                        Some(n) => advertisement_matches(
                            Some(n.as_slice()),
                            self.config.device_name.as_slice(),
                        ),
                        None => false,
                    };
                    if found {
                        self.state = SessionState::Found;
                        Action::StopScan
                    } else {
                        Action::KeepScanning
                    }
                }
            },
            Event::ScanTimeout => {
                if self.state == SessionState::Scanning {
                    self.state = SessionState::Idle;
                    Action::Fail { error: SessionError::DiscoveryTimeout }
                } else {
                    Action::Nothing
                }
            },
            Event::Done => {
                if self.state == SessionState::Found {
                    self.state = SessionState::Connecting;
                    Action::Connect { params: self.config.conn }
                } else if self.state == SessionState::Connecting || (self.state
                    == SessionState::WritingMoves && !self.config.wait_for_completion) {
                    self.state = SessionState::Connected;
                    Action::Ready { poll_ms: self.config.poll_interval_ms }
                } else if self.state == SessionState::WritingMoves {
                    self.state = SessionState::AwaitingCompletion;
                    let pause: usize = completion_pause_ms(self.pending_ms);
                    Action::PollStatus { delay_ms: pause as u64 }
                } else {
                    Action::Nothing
                }
            },
            Event::Tick { trigger, draws } => {
                if self.state != SessionState::Connected {
                    Action::Nothing
                } else if !trigger {
                    Action::Ready { poll_ms: self.config.poll_interval_ms }
                } else if draws.len() > MAX_MOVES {
                    self.state = SessionState::Idle;
                    Action::Fail { error: SessionError::EncodingPrecondition }
                } else {
                    let moves = pick_moves(draws.as_slice());
                    let bytes = encode(moves.as_slice());
                    self.pending_ms = estimated_duration_ms(moves.as_slice());
                    self.state = SessionState::WritingMoves;
                    Action::Write { bytes, moves }
                }
            },
            Event::Status { payload } => {
                if self.state != SessionState::AwaitingCompletion {
                    Action::Nothing
                } else if payload.len() == 0 {
                    self.state = SessionState::Idle;
                    Action::Fail { error: SessionError::TransportFailure }
                } else if payload[0] == 0 {
                    self.state = SessionState::Connected;
                    Action::Ready { poll_ms: self.config.poll_interval_ms }
                } else {
                    Action::PollStatus { delay_ms: self.config.poll_interval_ms as u64 }
                }
            },
        }
    }
}

} // verus!
