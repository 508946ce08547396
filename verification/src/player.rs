//! Session state machine of the playback worker.
//!
//! The background worker owns one optional decoder subprocess and reacts to
//! commands from the interactive caller. Everything the worker decides —
//! which process to kill, which to spawn, when to leave the loop, what to
//! emit when the stream ends — is computed here, over plain values. The
//! unverified shell around this crate only performs the returned effects
//! (spawn, kill-and-reap, send, sleep) and feeds outcomes back in.
//!
//! The ghost types [`SessionV`], [`CmdV`], [`SpawnV`] and [`EffectV`] are the
//! mathematical model; [`step`] and [`effect_of`] say exactly what each
//! command does. The lemmas at the bottom state the session-level laws:
//! process exclusivity, in-order application, idempotence of stop, seek
//! exclusion during playback, seek determinism, and teardown on shutdown.

use vstd::prelude::*;

use crate::frame::blank_byte;
use crate::frame::blank_frame;
use crate::frame::DecodedFrame;
use crate::frame::FRAME_BYTES;

verus! {

/// Target interval between two emitted frames during continuous playback
/// (about 30 frames per second).
pub const TARGET_FRAME_INTERVAL_MS: u64 = 33;

/// Micro-sleep at the end of a tick while playing.
pub const PLAYING_TICK_SLEEP_MS: u64 = 1;

/// Longer sleep at the end of a tick while idle, to avoid busy-waiting;
/// responsiveness to new commands only needs to be interactive.
pub const IDLE_TICK_SLEEP_MS: u64 = 10;

/// Control-plane commands sent from the interactive caller to the worker.
pub enum PlayerCommand {
    /// Declare the active media file and its trimmed playable window
    /// (absolute offsets in milliseconds within the file). Invalidates any
    /// in-flight decode.
    LoadClip { path: String, trim_start_ms: u32, trim_end_ms: u32 },
    /// Begin continuous decoding at `trim_start + timestamp_ms`;
    /// `timestamp_ms` is relative to the trimmed window.
    StartPlayback { timestamp_ms: u32 },
    /// Halt continuous decoding, release the decoder process, keep the
    /// loaded source.
    StopPlayback,
    /// Produce exactly one frame at `trim_start + timestamp_ms`; only
    /// honored while not in continuous playback (scrubbing).
    Seek { timestamp_ms: u32 },
    /// Terminate the worker and any child process; terminal command.
    Stop,
}

/// Zero-payload signal: continuous playback reached the end of the trimmed
/// window or the decoder exited.
pub struct PlaybackEnded;

/// The loaded source: media path plus the trimmed playable window.
pub struct Source {
    pub path: String,
    pub trim_start_ms: u32,
    pub trim_end_ms: u32,
}

/// Whether the worker is consuming continuous decoder output.
#[derive(Clone, Copy, PartialEq, Eq, Structural, Debug)]
pub enum Mode {
    Idle,
    Playing,
}

/// The worker's private session state. It is created once when the worker
/// starts, mutated only by the worker in response to commands, and torn
/// down when `Stop` is processed.
pub struct SessionState {
    /// The active source, absent until the first `LoadClip`.
    pub clip: Option<Source>,
    /// Playback mode; `Playing` means a continuous decoder is attached.
    pub mode: Mode,
    /// Whether a decoder subprocess is currently held by the worker.
    pub decoder_attached: bool,
}

/// A request, handed to the unverified shell, to launch the external
/// decoder. Offsets are absolute milliseconds within the file; they are
/// widened to 64 bits so that `trim_start + position` never overflows.
pub enum SpawnRequest {
    /// Long-lived process streaming raw frames from `start_ms` to `end_ms`.
    Continuous { path: String, start_ms: u64, end_ms: u64 },
    /// Short-lived process producing exactly one frame at `at_ms`.
    OneShot { path: String, at_ms: u64 },
}

/// What the shell must do after a command was applied, in this order:
/// kill and reap the current child if `kill`, then perform `spawn` if any,
/// then leave the loop if `exit`.
pub struct CommandEffect {
    pub kill: bool,
    pub spawn: Option<SpawnRequest>,
    pub exit: bool,
}

/// Mathematical model of a loaded source.
pub ghost struct SourceV {
    pub path: Seq<char>,
    pub trim_start_ms: u32,
    pub trim_end_ms: u32,
}

/// Mathematical model of a command.
pub ghost enum CmdV {
    LoadClip { path: Seq<char>, trim_start_ms: u32, trim_end_ms: u32 },
    StartPlayback { timestamp_ms: u32 },
    StopPlayback,
    Seek { timestamp_ms: u32 },
    Stop,
}

/// Mathematical model of a spawn request.
pub ghost enum SpawnV {
    Continuous { path: Seq<char>, start_ms: int, end_ms: int },
    OneShot { path: Seq<char>, at_ms: int },
}

/// Mathematical model of a command's effect.
pub ghost struct EffectV {
    pub kill: bool,
    pub spawn: Option<SpawnV>,
    pub exit: bool,
}

/// Mathematical model of the session state.
pub ghost struct SessionV {
    pub clip: Option<SourceV>,
    pub mode: Mode,
    pub decoder_attached: bool,
}

impl View for Source {
    type V = SourceV;

    open spec fn view(&self) -> SourceV {
        SourceV {
            path: self.path@,
            trim_start_ms: self.trim_start_ms,
            trim_end_ms: self.trim_end_ms,
        }
    }
}

impl View for PlayerCommand {
    type V = CmdV;

    open spec fn view(&self) -> CmdV {
        match self {
            PlayerCommand::LoadClip { path, trim_start_ms, trim_end_ms } => CmdV::LoadClip {
                path: path@,
                trim_start_ms: *trim_start_ms,
                trim_end_ms: *trim_end_ms,
            },
            PlayerCommand::StartPlayback { timestamp_ms } => CmdV::StartPlayback {
                timestamp_ms: *timestamp_ms,
            },
            PlayerCommand::StopPlayback => CmdV::StopPlayback,
            PlayerCommand::Seek { timestamp_ms } => CmdV::Seek { timestamp_ms: *timestamp_ms },
            PlayerCommand::Stop => CmdV::Stop,
        }
    }
}

impl View for SpawnRequest {
    type V = SpawnV;

    open spec fn view(&self) -> SpawnV {
        match self {
            SpawnRequest::Continuous { path, start_ms, end_ms } => SpawnV::Continuous {
                path: path@,
                start_ms: *start_ms as int,
                end_ms: *end_ms as int,
            },
            SpawnRequest::OneShot { path, at_ms } => SpawnV::OneShot {
                path: path@,
                at_ms: *at_ms as int,
            },
        }
    }
}

impl View for CommandEffect {
    type V = EffectV;

    open spec fn view(&self) -> EffectV {
        EffectV {
            kill: self.kill,
            spawn: match self.spawn {
                Some(ref sp) => Some(sp@),
                None => None,
            },
            exit: self.exit,
        }
    }
}

impl View for SessionState {
    type V = SessionV;

    open spec fn view(&self) -> SessionV {
        SessionV {
            clip: match self.clip {
                Some(ref c) => Some(c@),
                None => None,
            },
            mode: self.mode,
            decoder_attached: self.decoder_attached,
        }
    }
}

impl SessionV {
    /// Session invariant: a decoder process is held exactly while in
    /// continuous playback, and playing requires a loaded source. At most
    /// one decoder is ever attached — the state has room for no more.
    pub open spec fn wf(self) -> bool {
        &&& self.decoder_attached <==> self.mode is Playing
        &&& self.mode is Playing ==> self.clip is Some
    }
}

/// The state the worker starts in: nothing loaded, idle, no child process.
pub open spec fn init_session() -> SessionV {
    SessionV { clip: None, mode: Mode::Idle, decoder_attached: false }
}

/// An effect that asks the shell to do nothing.
pub open spec fn no_effect() -> EffectV {
    EffectV { kill: false, spawn: None, exit: false }
}

/// State after applying one command. `StartPlayback` does not enter
/// `Playing` here: the spawn can fail, so the mode changes only in
/// [`SessionState::confirm_playback_started`].
pub open spec fn step(s: SessionV, c: CmdV) -> SessionV {
    match c {
        CmdV::LoadClip { path, trim_start_ms, trim_end_ms } => SessionV {
            clip: Some(SourceV { path, trim_start_ms, trim_end_ms }),
            mode: Mode::Idle,
            decoder_attached: false,
        },
        CmdV::StartPlayback { .. } => s,
        CmdV::StopPlayback => SessionV { mode: Mode::Idle, decoder_attached: false, ..s },
        CmdV::Seek { .. } => s,
        CmdV::Stop => SessionV { mode: Mode::Idle, decoder_attached: false, ..s },
    }
}

/// Orders to the shell for one command: which process to kill and reap,
/// what to spawn, whether to leave the loop.
///
/// - `LoadClip`, `StopPlayback` and `Stop` kill exactly when a process was
///   held; nothing is spawned.
/// - `StartPlayback` is ignored while already playing (no double start) and
///   without a loaded source; otherwise it requests a continuous decoder at
///   `trim_start + timestamp`.
/// - `Seek` is ignored while playing and without a source; otherwise it
///   requests a one-shot decode at `trim_start + timestamp`.
pub open spec fn effect_of(s: SessionV, c: CmdV) -> EffectV {
    match c {
        CmdV::LoadClip { .. } => EffectV {
            kill: s.decoder_attached,
            spawn: None,
            exit: false,
        },
        CmdV::StartPlayback { timestamp_ms } => if s.mode is Playing {
            no_effect()
        } else {
            match s.clip {
                Some(src) => EffectV {
                    kill: s.decoder_attached,
                    spawn: Some(
                        SpawnV::Continuous {
                            path: src.path,
                            start_ms: src.trim_start_ms + timestamp_ms,
                            end_ms: src.trim_end_ms as int,
                        },
                    ),
                    exit: false,
                },
                None => no_effect(),
            }
        },
        CmdV::StopPlayback => EffectV { kill: s.decoder_attached, spawn: None, exit: false },
        CmdV::Seek { timestamp_ms } => if s.mode is Playing {
            no_effect()
        } else {
            match s.clip {
                Some(src) => EffectV {
                    kill: false,
                    spawn: Some(
                        SpawnV::OneShot {
                            path: src.path,
                            at_ms: src.trim_start_ms + timestamp_ms,
                        },
                    ),
                    exit: false,
                },
                None => no_effect(),
            }
        },
        CmdV::Stop => EffectV { kill: s.decoder_attached, spawn: None, exit: true },
    }
}

/// State after the shell reports whether the continuous spawn succeeded:
/// on success the session is playing with a decoder attached; on failure
/// it is unchanged (the caller observes no frame and may retry).
pub open spec fn confirm(s: SessionV, spawned: bool) -> SessionV {
    if spawned {
        SessionV { mode: Mode::Playing, decoder_attached: true, ..s }
    } else {
        s
    }
}

/// State after the end-of-stream condition: back to idle, process released,
/// source kept.
pub open spec fn stream_end(s: SessionV) -> SessionV {
    SessionV { mode: Mode::Idle, decoder_attached: false, ..s }
}

impl SessionState {
    /// Fresh worker session.
    pub fn new() -> (s: SessionState)
        ensures
            s@ == init_session(),
            s@.wf(),
    {
        SessionState { clip: None, mode: Mode::Idle, decoder_attached: false }
    }

    /// Applies one command and returns the orders for the shell. Commands
    /// always take priority over frame pacing: the worker calls this at the
    /// start of a tick, before any frame work, and applies at most one
    /// command per tick.
    pub fn apply_command(&mut self, cmd: PlayerCommand) -> (eff: CommandEffect)
        requires
            old(self)@.wf(),
        ensures
            final(self)@ == step(old(self)@, cmd@),
            eff@ == effect_of(old(self)@, cmd@),
            final(self)@.wf(),
    {
        match cmd {
            PlayerCommand::LoadClip { path, trim_start_ms, trim_end_ms } => {
                let kill = self.decoder_attached;
                self.clip = Some(Source { path, trim_start_ms, trim_end_ms });
                self.mode = Mode::Idle;
                self.decoder_attached = false;
                CommandEffect { kill, spawn: None, exit: false }
            },
            PlayerCommand::StartPlayback { timestamp_ms } => {
                match self.mode {
                    Mode::Playing => CommandEffect { kill: false, spawn: None, exit: false },
                    Mode::Idle => {
                        match &self.clip {
                            Some(src) => {
                                let start_ms = src.trim_start_ms as u64 + timestamp_ms as u64;
                                CommandEffect {
                                    kill: self.decoder_attached,
                                    spawn: Some(
                                        SpawnRequest::Continuous {
                                            path: src.path.clone(),
                                            start_ms,
                                            end_ms: src.trim_end_ms as u64,
                                        },
                                    ),
                                    exit: false,
                                }
                            },
                            None => CommandEffect { kill: false, spawn: None, exit: false },
                        }
                    },
                }
            },
            PlayerCommand::StopPlayback => {
                let kill = self.decoder_attached;
                self.mode = Mode::Idle;
                self.decoder_attached = false;
                CommandEffect { kill, spawn: None, exit: false }
            },
            PlayerCommand::Seek { timestamp_ms } => {
                match self.mode {
                    Mode::Playing => CommandEffect { kill: false, spawn: None, exit: false },
                    Mode::Idle => {
                        match &self.clip {
                            Some(src) => {
                                let at_ms = src.trim_start_ms as u64 + timestamp_ms as u64;
                                CommandEffect {
                                    kill: false,
                                    spawn: Some(
                                        SpawnRequest::OneShot { path: src.path.clone(), at_ms },
                                    ),
                                    exit: false,
                                }
                            },
                            None => CommandEffect { kill: false, spawn: None, exit: false },
                        }
                    },
                }
            },
            PlayerCommand::Stop => {
                let kill = self.decoder_attached;
                self.mode = Mode::Idle;
                self.decoder_attached = false;
                CommandEffect { kill, spawn: None, exit: true }
            },
        }
    }

    /// Records the outcome of the continuous spawn the last `StartPlayback`
    /// requested. A failed spawn leaves the session idle, exactly as before;
    /// the condition is the shell's to log.
    pub fn confirm_playback_started(&mut self, spawned: bool)
        requires
            old(self)@.wf(),
            old(self)@.mode is Idle,
            old(self)@.clip is Some,
        ensures
            final(self)@ == confirm(old(self)@, spawned),
            final(self)@.wf(),
    {
        if spawned {
            self.mode = Mode::Playing;
            self.decoder_attached = true;
        }
    }

    /// Handles a short or failed read of the continuous stream — the
    /// playback-end condition, whether end of media or decoder exit. The
    /// session returns to idle; the signal tells the shell to reap the
    /// child and carries the one cleared frame and the one
    /// [`PlaybackEnded`] event to deliver.
    pub fn on_stream_end(&mut self) -> (r: StreamEndSignal)
        requires
            old(self)@.wf(),
            old(self)@.mode is Playing,
        ensures
            final(self)@ == stream_end(old(self)@),
            final(self)@.wf(),
            r.reap == old(self)@.decoder_attached,
            r.frame.wf(),
            r.frame.timestamp_ms == 0,
            forall|i: int| 0 <= i < r.frame.pixels@.len() ==> r.frame.pixels@[i] == blank_byte(i),
    {
        let reap = self.decoder_attached;
        self.mode = Mode::Idle;
        self.decoder_attached = false;
        StreamEndSignal { reap, frame: blank_frame(), ended: PlaybackEnded }
    }
}

/// Everything the shell must deliver when continuous playback ends: reap
/// the child if one was held, send the cleared frame, send the event —
/// exactly once each.
pub struct StreamEndSignal {
    pub reap: bool,
    pub frame: DecodedFrame,
    pub ended: PlaybackEnded,
}

/// Result of a one-shot (scrubbing) decode, explicit about failure: a
/// truncated read is reported as `Unavailable`, never swallowed and never
/// turned into a partial frame.
pub enum SeekOutcome {
    Frame(DecodedFrame),
    Unavailable,
}

/// Wraps what the one-shot decoder delivered. `bytes` is `Some` only when
/// the shell read a full frame before the stream closed; anything less
/// yields `Unavailable`.
pub fn seek_result(bytes: Option<Vec<u8>>, timestamp_ms: u32) -> (r: SeekOutcome)
    ensures
        r is Frame <==> (bytes is Some && bytes->Some_0@.len() == FRAME_BYTES),
        r matches SeekOutcome::Frame(f) ==> {
            &&& f.wf()
            &&& f.pixels@ == bytes->Some_0@
            &&& f.timestamp_ms == timestamp_ms
        },
{
    match bytes {
        Some(buf) => {
            match crate::frame::frame_from_rgba(buf, timestamp_ms) {
                Some(frame) => SeekOutcome::Frame(frame),
                None => SeekOutcome::Unavailable,
            }
        },
        None => SeekOutcome::Unavailable,
    }
}

/// How long to wait before reading the next continuous frame, so that
/// frames are paced to the target interval: the remainder of the interval,
/// or nothing if it has already passed.
pub fn pace_wait_ms(elapsed_ms: u64) -> (r: u64)
    ensures
        r == if elapsed_ms < TARGET_FRAME_INTERVAL_MS {
            TARGET_FRAME_INTERVAL_MS - elapsed_ms
        } else {
            0
        },
{
    if elapsed_ms < TARGET_FRAME_INTERVAL_MS {
        TARGET_FRAME_INTERVAL_MS - elapsed_ms
    } else {
        0
    }
}

/// End-of-tick sleep: short while playing, longer while idle to avoid
/// busy-waiting.
pub fn tick_sleep_ms(mode: Mode) -> (r: u64)
    ensures
        r == if mode is Playing {
            PLAYING_TICK_SLEEP_MS
        } else {
            IDLE_TICK_SLEEP_MS
        },
{
    match mode {
        Mode::Playing => PLAYING_TICK_SLEEP_MS,
        Mode::Idle => IDLE_TICK_SLEEP_MS,
    }
}

/// State after applying a whole queue of commands, first to last.
pub open spec fn steps(s: SessionV, cmds: Seq<CmdV>) -> SessionV
    decreases cmds.len(),
{
    if cmds.len() == 0 {
        s
    } else {
        steps(step(s, cmds[0]), cmds.skip(1))
    }
}

/// Exclusivity: at most one decoder process is alive at any instant. A
/// held process is never replaced or let go without the order to kill and
/// reap it first: whenever the old session held a decoder and the command
/// either requests a new spawn or leaves the decoder detached, the effect
/// orders kill-and-reap. The invariant `wf` (one boolean slot for the
/// process, attached exactly while playing) is preserved by every command.
pub proof fn lemma_exclusivity(s: SessionV, c: CmdV)
    requires
        s.wf(),
    ensures
        s.decoder_attached && (effect_of(s, c).spawn is Some || !step(s, c).decoder_attached)
            ==> effect_of(s, c).kill,
        step(s, c).wf(),
{
}

/// Ordering: a queue of commands is applied strictly in queue order —
/// running `a + b` from any state is running all of `a`, then all of `b`.
/// Every frame decision after the queue is drained is a function of the
/// resulting state alone, so it observes all commands of the queue.
pub proof fn lemma_commands_in_order(s: SessionV, a: Seq<CmdV>, b: Seq<CmdV>)
    ensures
        steps(s, a + b) == steps(steps(s, a), b),
    decreases a.len(),
{
    if a.len() == 0 {
        assert(a + b =~= b);
    } else {
        assert((a + b).skip(1) =~= a.skip(1) + b);
        lemma_commands_in_order(step(s, a[0]), a.skip(1), b);
    }
}

/// The session invariant holds after any queue of commands.
pub proof fn lemma_steps_wf(s: SessionV, cmds: Seq<CmdV>)
    requires
        s.wf(),
    ensures
        steps(s, cmds).wf(),
    decreases cmds.len(),
{
    if cmds.len() > 0 {
        lemma_exclusivity(s, cmds[0]);
        lemma_steps_wf(step(s, cmds[0]), cmds.skip(1));
    }
}

/// Idempotence of stop: `StopPlayback` while already idle leaves the state
/// unchanged, kills nothing and spawns nothing.
pub proof fn lemma_stop_idempotent(s: SessionV)
    requires
        s.wf(),
        s.mode is Idle,
    ensures
        step(s, CmdV::StopPlayback) == s,
        effect_of(s, CmdV::StopPlayback) == no_effect(),
{
}

/// Seek exclusion: a `Seek` issued while playing is rejected without side
/// effects — the state is untouched, nothing is killed or spawned, so
/// continuous playback is undisturbed.
pub proof fn lemma_seek_excluded_while_playing(s: SessionV, pos: u32)
    requires
        s.wf(),
        s.mode is Playing,
    ensures
        step(s, CmdV::Seek { timestamp_ms: pos }) == s,
        effect_of(s, CmdV::Seek { timestamp_ms: pos }) == no_effect(),
{
}

/// Seek determinism: two `Seek`s at the same position against the same
/// loaded source produce the same effect — the identical one-shot decoder
/// invocation — whatever else the two idle sessions differ in.
pub proof fn lemma_seek_deterministic(s1: SessionV, s2: SessionV, pos: u32)
    requires
        s1.wf(),
        s2.wf(),
        s1.mode is Idle,
        s2.mode is Idle,
        s1.clip == s2.clip,
    ensures
        effect_of(s1, CmdV::Seek { timestamp_ms: pos }) == effect_of(
            s2,
            CmdV::Seek { timestamp_ms: pos },
        ),
        step(s1, CmdV::Seek { timestamp_ms: pos }) == s1,
        step(s2, CmdV::Seek { timestamp_ms: pos }) == s2,
{
}

/// Teardown: `Stop` from any state — playing included — orders the child
/// killed and reaped exactly when one was held, and orders the loop to
/// exit, leaving no process attached.
pub proof fn lemma_shutdown_teardown(s: SessionV)
    requires
        s.wf(),
    ensures
        effect_of(s, CmdV::Stop).kill == s.decoder_attached,
        s.mode is Playing ==> effect_of(s, CmdV::Stop).kill,
        effect_of(s, CmdV::Stop).exit,
        !step(s, CmdV::Stop).decoder_attached,
        step(s, CmdV::Stop).mode is Idle,
{
}

} // verus!
