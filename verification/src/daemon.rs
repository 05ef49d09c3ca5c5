//! The rotation daemon's decisions: which epoch is current, when keys rotate, how commands
//! change the schedule, and what is reported. Reading commands, sleeping, writing files and
//! printing events are left to the caller, which feeds each outcome back as an input.
use vstd::prelude::*;
use crate::i2p::{generate_i2p_keys, i2p_keys_of, I2pKeys};
use crate::kdf::{derive_epoch_seed, spec_epoch_seed, MasterKey, NetworkTag};
use crate::tor::{generate_tor_keys, tor_keys_of, TorKeys};

verus! {

/// The smallest epoch length, in seconds, that the daemon accepts.
pub const MIN_VALIDITY: u64 = 60;

/// A command read from the daemon's input.
#[derive(Clone, Copy, Debug, PartialEq, Eq, Structural)]
pub enum Command {
    SetValidity { seconds: u64 },
    Status,
    Shutdown,
    ForceRotate,
}

/// An event the daemon reports.
pub enum Event {
    Started { epoch: u64, validity: u64 },
    Rotated {
        epoch: u64,
        validity: u64,
        tor_onion: Option<String>,
        i2p_b32: Option<String>,
        path: Option<String>,
    },
    ValidityChanged { new_validity: u64, effective_epoch: u64 },
    Status { epoch: u64, validity: u64, next_rotation_in: u64 },
    Error { msg: String },
    Shutdown,
}

/// What the daemon was started with.
pub struct DaemonArgs {
    pub gen_tor: bool,
    pub gen_i2p: bool,
    pub validity: u64,
    pub output_dir: std::path::PathBuf,
    pub overwrite: bool,
}

/// The record written to `status.json`.
pub struct StatusRecord {
    pub epoch: u64,
    pub validity: u64,
    pub next_rotation_in: u64,
    pub tor_onion: Option<String>,
    pub i2p_b32: Option<String>,
}

/// What happened while the daemon waited.
#[derive(Clone, Copy, Debug, PartialEq, Eq, Structural)]
pub enum DaemonInput {
    /// The wait ran out; `now` is the Unix time read afterwards.
    Timeout { now: u64 },
    /// A command arrived; `now` is the Unix time read on its arrival.
    Received { cmd: Command, now: u64 },
    /// Every command source has gone away.
    Disconnected,
    /// The command input reached its end.
    InputClosed,
}

/// What the caller does next.
pub enum DaemonAction {
    /// Nothing.
    Idle,
    /// Derive and write the keys of `epoch`, then report them with `DaemonState::rotated`.
    Rotate { epoch: u64 },
    /// Emit the event.
    Emit { event: Event },
    /// Emit the event and write `status.json` as of `now`.
    Report { event: Event, now: u64 },
    /// Emit `Event::Shutdown` and stop.
    Stop,
}

/// The daemon's schedule and the addresses of the current epoch.
pub struct DaemonState {
    /// Length of an epoch in seconds.
    pub validity: u64,
    /// A new epoch length that takes effect at the next rotation.
    pub pending_validity: Option<u64>,
    pub current_epoch: u64,
    pub tor_onion: Option<String>,
    pub i2p_b32: Option<String>,
}

impl DaemonState {
    /// The schedule is usable: epochs have a length, and a pending length was accepted.
    pub open spec fn wf(&self) -> bool {
        &&& self.validity > 0
        &&& (self.pending_validity matches Some(v) ==> v >= MIN_VALIDITY)
    }

    /// The next epoch number and its start, `(current_epoch + 1) * validity`, fit in a `u64`.
    pub open spec fn can_schedule(&self) -> bool {
        &&& self.current_epoch < u64::MAX
        &&& (self.current_epoch + 1) * self.validity <= u64::MAX
    }

    /// Start of the next epoch in Unix seconds.
    pub open spec fn spec_next_epoch_start(&self) -> int {
        (self.current_epoch + 1) * self.validity
    }

    /// Seconds until the next rotation as of `now`: zero once it is due.
    pub open spec fn spec_next_rotation_in(&self, now: u64) -> u64 {
        if self.spec_next_epoch_start() > now {
            (self.spec_next_epoch_start() - now) as u64
        } else {
            0
        }
    }

    /// The state after an input.
    pub open spec fn spec_next(self, input: DaemonInput) -> DaemonState {
        match input {
            DaemonInput::Timeout { now } => {
                if now / self.validity > self.current_epoch {
                    DaemonState {
                        validity: match self.pending_validity {
                            Some(v) => v,
                            None => self.validity,
                        },
                        pending_validity: None,
                        current_epoch: now / self.validity,
                        ..self
                    }
                } else {
                    self
                }
            },
            DaemonInput::Received { cmd, now } => match cmd {
                Command::ForceRotate => DaemonState {
                    current_epoch: (self.current_epoch + 1) as u64,
                    ..self
                },
                Command::SetValidity { seconds } => {
                    if seconds < MIN_VALIDITY {
                        self
                    } else {
                        DaemonState { pending_validity: Some(seconds), ..self }
                    }
                },
                Command::Status => self,
                Command::Shutdown => self,
            },
            DaemonInput::Disconnected => self,
            DaemonInput::InputClosed => self,
        }
    }

    /// `action` is what the daemon does on `input` from this state.
    pub open spec fn spec_action(self, input: DaemonInput, action: DaemonAction) -> bool {
        match input {
            DaemonInput::Timeout { now } => {
                if now / self.validity > self.current_epoch {
                    action == (DaemonAction::Rotate { epoch: now / self.validity })
                } else {
                    action is Idle
                }
            },
            DaemonInput::Received { cmd, now } => match cmd {
                Command::ForceRotate => action == (DaemonAction::Rotate {
                    epoch: (self.current_epoch + 1) as u64,
                }),
                Command::SetValidity { seconds } => {
                    if seconds < MIN_VALIDITY {
                        action matches DaemonAction::Emit { event: Event::Error { msg } }
                            && msg@ == "validity must be >= 60 seconds"@
                    } else {
                        action == (DaemonAction::Emit {
                            event: Event::ValidityChanged {
                                new_validity: seconds,
                                effective_epoch: (self.current_epoch + 1) as u64,
                            },
                        })
                    }
                },
                Command::Status => action == (DaemonAction::Report {
                    event: Event::Status {
                        epoch: self.current_epoch,
                        validity: self.validity,
                        next_rotation_in: self.spec_next_rotation_in(now),
                    },
                    now,
                }),
                Command::Shutdown => action is Stop,
            },
            DaemonInput::Disconnected => action is Stop,
            DaemonInput::InputClosed => action is Stop,
        }
    }

    /// The schedule at start-up: the epoch that `now` falls in, no addresses yet.
    pub fn new(validity: u64, now: u64) -> (r: DaemonState)
        requires
            validity > 0,
        ensures
            r.wf(),
            r.validity == validity,
            r.pending_validity is None,
            r.current_epoch == now / validity,
            r.tor_onion is None,
            r.i2p_b32 is None,
    {
        DaemonState {
            validity,
            pending_validity: None,
            current_epoch: now / validity,
            tor_onion: None,
            i2p_b32: None,
        }
    }

    /// The start of the next epoch in Unix seconds, `None` when it does not fit in a `u64`.
    pub fn next_epoch_start(&self) -> (r: Option<u64>)
        ensures
            r is Some <==> self.can_schedule(),
            r matches Some(v) ==> v == self.spec_next_epoch_start(),
    {
        match self.current_epoch.checked_add(1) {
            Some(next) => next.checked_mul(self.validity),
            None => None,
        }
    }

    /// Seconds until the next rotation as of `now`, zero once it is due.
    pub fn next_rotation_in(&self, now: u64) -> (r: u64)
        requires
            self.can_schedule(),
        ensures
            r == self.spec_next_rotation_in(now),
    {
        ((self.current_epoch + 1) * self.validity).saturating_sub(now)
    }

    /// How long to wait for a command before looking at the clock again: until the next epoch
    /// starts, and at least one second.
    pub fn sleep_secs(&self, now: u64) -> (r: u64)
        requires
            self.can_schedule(),
        ensures
            r == if self.spec_next_rotation_in(now) == 0 { 1 } else { self.spec_next_rotation_in(now) },
    {
        let secs = self.next_rotation_in(now);
        if secs == 0 {
            1
        } else {
            secs
        }
    }

    /// The event that reports start-up.
    pub fn started_event(&self) -> (r: Event)
        ensures
            r == (Event::Started { epoch: self.current_epoch, validity: self.validity }),
    {
        Event::Started { epoch: self.current_epoch, validity: self.validity }
    }

    /// Decide what an input means: the next state, and what the caller does next.
    pub fn step(&mut self, input: DaemonInput) -> (r: DaemonAction)
        requires
            old(self).wf(),
            old(self).can_schedule(),
        ensures
            *final(self) == old(self).spec_next(input),
            old(self).spec_action(input, r),
            final(self).wf(),
    {
        match input {
            DaemonInput::Timeout { now } => {
                let new_epoch = now / self.validity;
                if new_epoch > self.current_epoch {
                    match self.pending_validity {
                        Some(v) => {
                            self.validity = v;
                        },
                        None => {},
                    }
                    self.pending_validity = None;
                    self.current_epoch = new_epoch;
                    DaemonAction::Rotate { epoch: new_epoch }
                } else {
                    DaemonAction::Idle
                }
            },
            DaemonInput::Received { cmd, now } => match cmd {
                Command::ForceRotate => {
                    let new_epoch = self.current_epoch + 1;
                    self.current_epoch = new_epoch;
                    DaemonAction::Rotate { epoch: new_epoch }
                },
                Command::SetValidity { seconds } => {
                    if seconds < MIN_VALIDITY {
                        let msg = "validity must be >= 60 seconds".to_owned();
                        DaemonAction::Emit { event: Event::Error { msg } }
                    } else {
                        self.pending_validity = Some(seconds);
                        DaemonAction::Emit {
                            event: Event::ValidityChanged {
                                new_validity: seconds,
                                effective_epoch: self.current_epoch + 1,
                            },
                        }
                    }
                },
                Command::Status => {
                    let next_rotation_in = self.next_rotation_in(now);
                    DaemonAction::Report {
                        event: Event::Status {
                            epoch: self.current_epoch,
                            validity: self.validity,
                            next_rotation_in,
                        },
                        now,
                    }
                },
                Command::Shutdown => DaemonAction::Stop,
            },
            DaemonInput::Disconnected => DaemonAction::Stop,
            DaemonInput::InputClosed => DaemonAction::Stop,
        }
    }
    /// Record the addresses of the epoch just rotated to, and the event that reports them.
    pub fn rotated(
        &mut self,
        tor_onion: Option<String>,
        i2p_b32: Option<String>,
        path: Option<String>,
    ) -> (r: Event)
        ensures
            final(self).validity == old(self).validity,
            final(self).pending_validity == old(self).pending_validity,
            final(self).current_epoch == old(self).current_epoch,
            final(self).tor_onion == tor_onion,
            final(self).i2p_b32 == i2p_b32,
            r == (Event::Rotated {
                epoch: old(self).current_epoch,
                validity: old(self).validity,
                tor_onion,
                i2p_b32,
                path,
            }),
    {
        let event = Event::Rotated {
            epoch: self.current_epoch,
            validity: self.validity,
            tor_onion: clone_text(&tor_onion),
            i2p_b32: clone_text(&i2p_b32),
            path,
        };
        self.tor_onion = tor_onion;
        self.i2p_b32 = i2p_b32;
        event
    }

    /// The `status.json` record as of `now`.
    pub fn status_record(&self, now: u64) -> (r: StatusRecord)
        requires
            self.can_schedule(),
        ensures
            r.epoch == self.current_epoch,
            r.validity == self.validity,
            r.next_rotation_in == self.spec_next_rotation_in(now),
            r.tor_onion == self.tor_onion,
            r.i2p_b32 == self.i2p_b32,
    {
        StatusRecord {
            epoch: self.current_epoch,
            validity: self.validity,
            next_rotation_in: self.next_rotation_in(now),
            tor_onion: clone_text(&self.tor_onion),
            i2p_b32: clone_text(&self.i2p_b32),
        }
    }
}

/// A copy of an optional text.
fn clone_text(s: &Option<String>) -> (r: Option<String>)
    ensures
        r == *s,
{
    match s {
        Some(t) => Some(t.clone()),
        None => None,
    }
}

/// The first `N` bytes of a seed as an array.
fn seed_array<const N: usize>(v: &Vec<u8>) -> (r: [u8; N])
    requires
        v@.len() == N,
    ensures
        r@ == v@,
{
    let mut a = [0u8; N];
    for i in 0..N
        invariant
            v@.len() == N,
            forall|j: int| 0 <= j < i ==> a@[j] == v@[j],
    {
        a[i] = v[i];
    }
    assert(a@ =~= v@);
    a
}

/// The keys of an epoch: each requested network's keys, generated from its epoch seed.
pub fn derive_epoch_keys(master: &MasterKey, epoch: u64, gen_tor: bool, gen_i2p: bool) -> (r: (
    Option<TorKeys>,
    Option<I2pKeys>,
))
    ensures
        r.0 is Some <==> gen_tor,
        r.1 is Some <==> gen_i2p,
        r.0 matches Some(k) ==> tor_keys_of(k, spec_epoch_seed(master@, epoch, NetworkTag::Tor)),
        r.1 matches Some(k) ==> i2p_keys_of(k, spec_epoch_seed(master@, epoch, NetworkTag::I2p)),
{
    let tor = if gen_tor {
        let seed = derive_epoch_seed(master, epoch, NetworkTag::Tor);
        let seed_arr: [u8; 32] = seed_array(&seed);
        Some(generate_tor_keys(&seed_arr))
    } else {
        None
    };
    let i2p = if gen_i2p {
        let seed = derive_epoch_seed(master, epoch, NetworkTag::I2p);
        let seed_arr: [u8; 64] = seed_array(&seed);
        Some(generate_i2p_keys(&seed_arr))
    } else {
        None
    };
    (tor, i2p)
}

/// The current epoch never moves backwards, whatever the input.
pub proof fn lemma_epoch_never_decreases(s: DaemonState, input: DaemonInput)
    requires
        s.wf(),
        s.can_schedule(),
    ensures
        s.spec_next(input).current_epoch >= s.current_epoch,
{
}

/// Every input keeps the schedule well formed.
pub proof fn lemma_step_keeps_wf(s: DaemonState, input: DaemonInput)
    requires
        s.wf(),
    ensures
        s.spec_next(input).wf(),
{
}

/// A new epoch length never changes the current epoch or its length: an accepted one
/// (at least `MIN_VALIDITY` seconds) waits as pending, a refused one changes nothing.
pub proof fn lemma_set_validity_is_deferred(s: DaemonState, seconds: u64, now: u64)
    ensures
        ({
            let n = s.spec_next(DaemonInput::Received { cmd: Command::SetValidity { seconds }, now });
            &&& n.validity == s.validity
            &&& n.current_epoch == s.current_epoch
            &&& seconds >= MIN_VALIDITY ==> n.pending_validity == Some(seconds)
            &&& seconds < MIN_VALIDITY ==> n == s
        }),
{
}

/// When the clock passes into a later epoch, the keys rotate to the epoch the time falls in
/// (measured with the old length), and a pending epoch length takes effect from then on.
pub proof fn lemma_rotation_applies_pending_validity(s: DaemonState, now: u64)
    requires
        s.wf(),
        now / s.validity > s.current_epoch,
    ensures
        ({
            let n = s.spec_next(DaemonInput::Timeout { now });
            &&& n.current_epoch == now / s.validity
            &&& n.pending_validity is None
            &&& n.validity == match s.pending_validity {
                Some(v) => v,
                None => s.validity,
            }
        }),
        s.spec_action(
            DaemonInput::Timeout { now },
            DaemonAction::Rotate { epoch: now / s.validity },
        ),
{
}

/// While the clock stays within the current epoch, waking up changes nothing and nothing is done.
pub proof fn lemma_no_rotation_within_epoch(s: DaemonState, now: u64)
    requires
        s.wf(),
        now / s.validity <= s.current_epoch,
    ensures
        s.spec_next(DaemonInput::Timeout { now }) == s,
        s.spec_action(DaemonInput::Timeout { now }, DaemonAction::Idle),
{
}

/// A forced rotation moves to exactly the next epoch and leaves the schedule as it is.
pub proof fn lemma_force_rotate_advances_one_epoch(s: DaemonState, now: u64)
    requires
        s.can_schedule(),
    ensures
        ({
            let n = s.spec_next(DaemonInput::Received { cmd: Command::ForceRotate, now });
            &&& n.current_epoch == s.current_epoch + 1
            &&& n.validity == s.validity
            &&& n.pending_validity == s.pending_validity
        }),
{
}

/// A status query and a shutdown leave the state as it is; a shutdown, the end of the command
/// input, and the loss of every command source stop the daemon.
pub proof fn lemma_queries_and_shutdown_keep_state(s: DaemonState, now: u64)
    ensures
        s.spec_next(DaemonInput::Received { cmd: Command::Status, now }) == s,
        s.spec_next(DaemonInput::Received { cmd: Command::Shutdown, now }) == s,
        s.spec_next(DaemonInput::Disconnected) == s,
        s.spec_next(DaemonInput::InputClosed) == s,
        s.spec_action(DaemonInput::InputClosed, DaemonAction::Stop),
        s.spec_action(DaemonInput::Received { cmd: Command::Shutdown, now }, DaemonAction::Stop),
        s.spec_action(DaemonInput::Disconnected, DaemonAction::Stop),
{
}

/// A status report is consistent with itself: it names the current epoch, and the query time
/// plus the reported wait reaches the start of the epoch after the reported one, measured in the
/// reported length (or the wait is zero once that start has passed).
pub proof fn lemma_status_report_consistent(s: DaemonState, now: u64, action: DaemonAction)
    requires
        s.wf(),
        s.can_schedule(),
        s.spec_action(DaemonInput::Received { cmd: Command::Status, now }, action),
    ensures
        action matches DaemonAction::Report {
            event: Event::Status { epoch, validity, next_rotation_in },
            now: t,
        } && t == now && epoch == s.current_epoch && (now < (epoch + 1) * validity ==> now
            + next_rotation_in == (epoch + 1) * validity) && (now >= (epoch + 1) * validity
            ==> next_rotation_in == 0),
{
}

/// A new epoch length does not show in a status report before it takes effect: after an
/// accepted change, the status still reports the epoch and the length from before the change.
pub proof fn lemma_status_after_set_validity(
    s: DaemonState,
    seconds: u64,
    now1: u64,
    now2: u64,
    action: DaemonAction,
)
    requires
        s.wf(),
        s.can_schedule(),
        s.spec_next(DaemonInput::Received { cmd: Command::SetValidity { seconds }, now: now1 }).spec_action(
            DaemonInput::Received { cmd: Command::Status, now: now2 },
            action,
        ),
    ensures
        action matches DaemonAction::Report { event: Event::Status { epoch, validity, .. }, .. }
            && epoch == s.current_epoch && validity == s.validity,
{
}

/// The wait before the next rotation ends exactly when the clock reaches the next epoch: while
/// the next epoch has not begun, the wait is positive, a wake-up when it has run out rotates, and
/// a wake-up one second earlier does not.
pub proof fn lemma_rotation_when_wait_ends(s: DaemonState, now: u64)
    requires
        s.wf(),
        s.can_schedule(),
        now < (s.current_epoch + 1) * s.validity,
    ensures
        s.spec_next_rotation_in(now) > 0,
        spec_rotation(
            s,
            DaemonInput::Timeout { now: (now + s.spec_next_rotation_in(now)) as u64 },
        ) == Some((s.current_epoch + 1) as u64),
        spec_rotation(
            s,
            DaemonInput::Timeout { now: (now + s.spec_next_rotation_in(now) - 1) as u64 },
        ) is None,
{
    let e = s.current_epoch as int;
    let v = s.validity as int;
    let n = s.spec_next_rotation_in(now) as int;
    assert(now + n == (e + 1) * v);
    let t1 = now + n;
    let t0 = now + n - 1;
    assert(t1 / v == e + 1 && t0 / v == e) by (nonlinear_arith)
        requires
            v >= 1,
            e >= 0,
            t1 == (e + 1) * v,
            t0 == (e + 1) * v - 1,
    ;
}

/// The states of a run from `s`: `s`, then the state after each input in turn.
pub open spec fn spec_trace(s: DaemonState, inputs: Seq<DaemonInput>) -> Seq<DaemonState>
    decreases inputs.len(),
{
    if inputs.len() == 0 {
        seq![s]
    } else {
        let t = spec_trace(s, inputs.drop_last());
        t.push(t.last().spec_next(inputs.last()))
    }
}

/// The epoch that an input makes the daemon rotate to, if it rotates.
pub open spec fn spec_rotation(s: DaemonState, input: DaemonInput) -> Option<u64> {
    match input {
        DaemonInput::Timeout { now } => {
            if now / s.validity > s.current_epoch {
                Some(now / s.validity)
            } else {
                None
            }
        },
        DaemonInput::Received { cmd: Command::ForceRotate, now } => Some(
            (s.current_epoch + 1) as u64,
        ),
        _ => None,
    }
}

/// The inputs that stop the daemon: a shutdown command, the end of the command input, and the
/// loss of every command source.
pub open spec fn is_stop_input(input: DaemonInput) -> bool {
    ||| input matches DaemonInput::Received { cmd: Command::Shutdown, .. }
    ||| input is Disconnected
    ||| input is InputClosed
}

/// The number of forced rotations among `inputs`.
pub open spec fn force_count(inputs: Seq<DaemonInput>) -> nat
    decreases inputs.len(),
{
    if inputs.len() == 0 {
        0
    } else {
        force_count(inputs.drop_last()) + if inputs.last() matches DaemonInput::Received {
            cmd: Command::ForceRotate,
            ..
        } {
            1nat
        } else {
            0nat
        }
    }
}

/// An input within the bounds under which a run never overflows: the clock reads below 2^32 and
/// a new epoch length is at most 2^31 seconds.
pub open spec fn is_bounded_input(input: DaemonInput) -> bool {
    match input {
        DaemonInput::Timeout { now } => now < 0x1_0000_0000,
        DaemonInput::Received { cmd, now } => {
            &&& now < 0x1_0000_0000
            &&& (cmd matches Command::SetValidity { seconds } ==> seconds <= 0x8000_0000)
        },
        _ => true,
    }
}

/// A run's states: one more than inputs, starting at `s`, each the step of the one before.
pub proof fn lemma_trace_steps(s: DaemonState, inputs: Seq<DaemonInput>)
    ensures
        spec_trace(s, inputs).len() == inputs.len() + 1,
        spec_trace(s, inputs)[0] == s,
        forall|k: int|
            0 <= k < inputs.len() ==> #[trigger] spec_trace(s, inputs)[k + 1] == spec_trace(
                s,
                inputs,
            )[k].spec_next(inputs[k]),
        inputs.len() > 0 ==> forall|k: int|
            0 <= k < inputs.len() ==> #[trigger] spec_trace(s, inputs.drop_last())[k]
                == spec_trace(s, inputs)[k],
    decreases inputs.len(),
{
    if inputs.len() > 0 {
        lemma_trace_steps(s, inputs.drop_last());
        let t = spec_trace(s, inputs.drop_last());
        assert forall|k: int| 0 <= k < inputs.len() implies #[trigger] spec_trace(s, inputs)[k + 1]
            == spec_trace(s, inputs)[k].spec_next(inputs[k]) by {
            if k < inputs.len() - 1 {
                assert(inputs.drop_last()[k] == inputs[k]);
                assert(t[k + 1] == t[k].spec_next(inputs.drop_last()[k]));
            }
        }
    }
}

/// The action of an input is a rotation exactly when `spec_rotation` says so, and to that epoch.
pub proof fn lemma_rotation_action(s: DaemonState, input: DaemonInput, action: DaemonAction)
    requires
        s.spec_action(input, action),
    ensures
        action matches DaemonAction::Rotate { epoch } ==> spec_rotation(s, input) == Some(epoch),
        spec_rotation(s, input) matches Some(e) ==> action == (DaemonAction::Rotate { epoch: e }),
        action is Stop <==> is_stop_input(input),
{
}

/// Along a run in which every step could be taken, the current epoch never decreases.
proof fn lemma_trace_epochs_monotone(s: DaemonState, inputs: Seq<DaemonInput>)
    requires
        forall|k: int| 0 <= k < inputs.len() ==> (#[trigger] spec_trace(s, inputs)[k]).can_schedule(),
    ensures
        forall|k: int, m: int|
            0 <= k <= m <= inputs.len() ==> (#[trigger] spec_trace(s, inputs)[k]).current_epoch
                <= (#[trigger] spec_trace(s, inputs)[m]).current_epoch,
    decreases inputs.len(),
{
    lemma_trace_steps(s, inputs);
    if inputs.len() > 0 {
        let d = inputs.drop_last();
        lemma_trace_steps(s, d);
        assert forall|k: int| 0 <= k < d.len() implies (#[trigger] spec_trace(s, d)[k]).can_schedule() by {
            assert(spec_trace(s, d)[k] == spec_trace(s, inputs)[k]);
        }
        lemma_trace_epochs_monotone(s, d);
        let t = spec_trace(s, inputs);
        let n = inputs.len() as int;
        assert(t[n] == t[n - 1].spec_next(inputs[n - 1]));
        assert(t[n].current_epoch >= t[n - 1].current_epoch);
        assert forall|k: int, m: int| 0 <= k <= m <= n implies (#[trigger] t[k]).current_epoch
            <= (#[trigger] t[m]).current_epoch by {
            if m < n {
                assert(spec_trace(s, d)[k] == t[k]);
                assert(spec_trace(s, d)[m] == t[m]);
            } else if k < n {
                assert(spec_trace(s, d)[k] == t[k]);
                assert(spec_trace(s, d)[n - 1] == t[n - 1]);
                assert(spec_trace(s, d)[k].current_epoch <= spec_trace(s, d)[n - 1].current_epoch);
            }
        }
    }
}

/// Over a whole run in which every step could be taken: the epochs that the daemon rotates to
/// strictly increase, and when only the last input may stop the daemon, as the caller's loop
/// ends at the first stop, no action before the last is a stop and the last is one exactly when
/// its input is a stopping input.
pub proof fn lemma_run_rotations_increase_and_stop_is_last(
    s: DaemonState,
    inputs: Seq<DaemonInput>,
)
    requires
        forall|k: int| 0 <= k < inputs.len() ==> (#[trigger] spec_trace(s, inputs)[k]).can_schedule(),
    ensures
        forall|i: int, j: int|
            0 <= i < j < inputs.len() && (#[trigger] spec_rotation(spec_trace(s, inputs)[i], inputs[i])) is Some
                && (#[trigger] spec_rotation(spec_trace(s, inputs)[j], inputs[j])) is Some
                ==> spec_rotation(spec_trace(s, inputs)[i], inputs[i])->0 < spec_rotation(
                spec_trace(s, inputs)[j],
                inputs[j],
            )->0,
        (forall|k: int| 0 <= k < inputs.len() - 1 ==> !is_stop_input(#[trigger] inputs[k]))
            ==> forall|k: int, a: DaemonAction|
            0 <= k < inputs.len() && #[trigger] spec_trace(s, inputs)[k].spec_action(inputs[k], a) ==> (
            a is Stop <==> (k == inputs.len() - 1 && is_stop_input(inputs[k]))),
{
    lemma_trace_steps(s, inputs);
    lemma_trace_epochs_monotone(s, inputs);
    let t = spec_trace(s, inputs);
    assert forall|i: int, j: int|
        0 <= i < j < inputs.len() && (#[trigger] spec_rotation(t[i], inputs[i])) is Some
            && (#[trigger] spec_rotation(t[j], inputs[j])) is Some implies spec_rotation(
        t[i],
        inputs[i],
    )->0 < spec_rotation(t[j], inputs[j])->0 by {
        assert(t[i + 1] == t[i].spec_next(inputs[i]));
        assert(t[j + 1] == t[j].spec_next(inputs[j]));
        assert(t[i + 1].current_epoch <= t[j].current_epoch);
    }
    if forall|k: int| 0 <= k < inputs.len() - 1 ==> !is_stop_input(#[trigger] inputs[k]) {
        assert forall|k: int, a: DaemonAction|
            0 <= k < inputs.len() && #[trigger] t[k].spec_action(inputs[k], a) implies (a is Stop
            <==> (k == inputs.len() - 1 && is_stop_input(inputs[k]))) by {
            lemma_rotation_action(t[k], inputs[k], a);
        }
    }
}

/// The bounds that a bounded run keeps, `start` being its first epoch length and `forced` an
/// upper bound on its forced rotations so far: lengths of at least 60 seconds, a pending length
/// of at most 2^31 seconds, and either a length of at most 2^31 seconds with an epoch below
/// 2^32 + `forced`, or the first length with an epoch start below 2^32 + `forced` lengths.
pub open spec fn within_bounds(s: DaemonState, start: u64, forced: nat) -> bool {
    &&& MIN_VALIDITY <= s.validity
    &&& (s.pending_validity matches Some(v) ==> MIN_VALIDITY <= v <= 0x8000_0000)
    &&& {
        ||| s.validity <= 0x8000_0000 && s.current_epoch < 0x1_0000_0000 + forced
        ||| s.validity == start && s.current_epoch * s.validity < 0x1_0000_0000 + forced
            * s.validity
    }
}

proof fn lemma_within_bounds_relax(s: DaemonState, start: u64, a: nat, b: nat)
    requires
        within_bounds(s, start, a),
        a <= b,
    ensures
        within_bounds(s, start, b),
{
    let v = s.validity as int;
    assert(a * v <= b * v) by (nonlinear_arith)
        requires
            a <= b,
            0 <= v,
    ;
}

proof fn lemma_bounded_trace(s: DaemonState, start: u64, inputs: Seq<DaemonInput>)
    requires
        within_bounds(s, start, 0),
        forall|k: int| 0 <= k < inputs.len() ==> is_bounded_input(#[trigger] inputs[k]),
        force_count(inputs) < 0x4000_0000,
    ensures
        forall|k: int|
            0 <= k <= inputs.len() ==> within_bounds(
                #[trigger] spec_trace(s, inputs)[k],
                start,
                force_count(inputs),
            ),
    decreases inputs.len(),
{
    lemma_trace_steps(s, inputs);
    let t = spec_trace(s, inputs);
    if inputs.len() > 0 {
        let d = inputs.drop_last();
        let n = inputs.len() as int;
        assert forall|k: int| 0 <= k < d.len() implies is_bounded_input(#[trigger] d[k]) by {
            assert(d[k] == inputs[k]);
        }
        lemma_bounded_trace(s, start, d);
        lemma_trace_steps(s, d);
        let fd = force_count(d);
        let f = force_count(inputs);
        assert(fd <= f);
        let p = t[n - 1];
        assert(p == spec_trace(s, d)[n - 1]);
        assert(within_bounds(p, start, fd));
        let q = t[n];
        assert(q == p.spec_next(inputs[n - 1]));
        assert(is_bounded_input(inputs[n - 1]));
        let pv = p.validity as int;
        let pe = p.current_epoch as int;
        match inputs[n - 1] {
            DaemonInput::Timeout { now } => {
                let ne = now / p.validity;
                let nw = now as int;
                let nei = ne as int;
                assert(nei <= nw && nei * pv <= nw) by (nonlinear_arith)
                    requires
                        pv >= 1,
                        nei == nw / pv,
                        nw >= 0,
                ;
                if ne > p.current_epoch {
                    assert(within_bounds(q, start, fd));
                } else {
                    assert(q == p);
                }
                lemma_within_bounds_relax(q, start, fd, f);
            },
            DaemonInput::Received { cmd: Command::ForceRotate, now } => {
                assert(f == fd + 1);
                let fdi = fd as int;
                assert(pe < 0x1_0000_0000 + 0x4000_0000) by (nonlinear_arith)
                    requires
                        pv >= 1,
                        pe >= 0,
                        fdi < 0x4000_0000,
                        pv <= 0x8000_0000 && pe < 0x1_0000_0000 + fdi || pe * pv < 0x1_0000_0000
                            + fdi * pv,
                ;
                assert((pe + 1) * pv == pe * pv + pv && (fd + 1) * pv == fd * pv + pv)
                    by (nonlinear_arith);
                assert(within_bounds(q, start, f));
            },
            _ => {
                assert(within_bounds(q, start, fd));
                lemma_within_bounds_relax(q, start, fd, f);
            },
        }
        assert forall|k: int| 0 <= k <= n implies within_bounds(#[trigger] t[k], start, f) by {
            if k < n {
                assert(spec_trace(s, d)[k] == t[k]);
                lemma_within_bounds_relax(t[k], start, fd, f);
            }
        }
    }
}

/// Under bounded inputs the daemon's arithmetic never overflows or divides by zero. A run starts
/// with an epoch length `v` of at least 60 seconds, a pending length (if any) of at most 2^31
/// seconds, and an epoch start below 2^32 (or `v` at most 2^31 and an epoch below 2^32). Every
/// clock reading is below 2^32, every new epoch length is at most 2^31 seconds, there are fewer
/// than 2^30 forced rotations, and `v` times one more than their number leaves room for 2^32
/// below 2^64. Then every state of the run is well formed, keeps an epoch length of at least 60
/// seconds, and can compute the start of its next epoch in a `u64`.
pub proof fn lemma_bounded_run_never_overflows(s: DaemonState, inputs: Seq<DaemonInput>)
    requires
        MIN_VALIDITY <= s.validity,
        s.pending_validity matches Some(v) ==> MIN_VALIDITY <= v <= 0x8000_0000,
        (s.validity <= 0x8000_0000 && s.current_epoch < 0x1_0000_0000) || s.current_epoch
            * s.validity < 0x1_0000_0000,
        forall|k: int| 0 <= k < inputs.len() ==> is_bounded_input(#[trigger] inputs[k]),
        force_count(inputs) < 0x4000_0000,
        (force_count(inputs) + 1) * s.validity <= 0xFFFF_FFFF_0000_0000,
    ensures
        forall|k: int|
            0 <= k <= inputs.len() ==> {
                &&& (#[trigger] spec_trace(s, inputs)[k]).wf()
                &&& spec_trace(s, inputs)[k].validity >= MIN_VALIDITY
                &&& spec_trace(s, inputs)[k].can_schedule()
            },
{
    let start = s.validity;
    lemma_bounded_trace(s, start, inputs);
    let f = force_count(inputs);
    assert forall|k: int| 0 <= k <= inputs.len() implies {
        &&& (#[trigger] spec_trace(s, inputs)[k]).wf()
        &&& spec_trace(s, inputs)[k].validity >= MIN_VALIDITY
        &&& spec_trace(s, inputs)[k].can_schedule()
    } by {
        let st = spec_trace(s, inputs)[k];
        assert(within_bounds(st, start, f));
        let e = st.current_epoch as int;
        let v = st.validity as int;
        let ff = f as int;
        if v <= 0x8000_0000 && e < 0x1_0000_0000 + ff {
            assert((e + 1) * v <= u64::MAX) by (nonlinear_arith)
                requires
                    0 <= e < 0x1_0000_0000 + 0x4000_0000,
                    0 <= v <= 0x8000_0000,
            ;
        } else {
            assert(v == start);
            assert((e + 1) * v <= u64::MAX && e + 1 <= (e + 1) * v) by (nonlinear_arith)
                requires
                    e >= 0,
                    v >= 1,
                    e * v < 0x1_0000_0000 + ff * v,
                    (ff + 1) * v <= 0xFFFF_FFFF_0000_0000,
            ;
        }
    }
}

} // verus!
