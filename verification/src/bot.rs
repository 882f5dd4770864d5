//! The playback supervisor behind the operator commands.
//!
//! Given a relay key the supervisor takes the pending bundle from the
//! registry, spawns the player with the bundle on its standard input,
//! wires the player's output through the resampler, and hands the
//! resampler's output to the voice transport.  Spawning and the voice
//! calls are the caller's job; the supervisor decides what to spawn, and
//! its state machine guarantees that a failed second spawn never leaves
//! the first child orphaned.

use vstd::prelude::*;

use crate::player_events::MsgHandle;

verus! {

/// Options of the receiver's command front end.
#[derive(Clone, Debug)]
pub struct BotOptions {
    /// Path of the player executable the supervisor spawns.
    pub player_path: String,
    /// Authentication token of the chat session.
    pub discord_token: String,
}

/// A running playback pipeline: its correlation token, the per-session
/// authorization token its status posts carry, both child process ids,
/// and — once the calling context has published one — the status message
/// handle.
#[derive(Clone, Debug)]
pub struct PlaybackSession {
    pub correlation_token: String,
    pub auth_token: String,
    pub player_pid: u32,
    pub resampler_pid: u32,
    pub status_msg: Option<MsgHandle>,
}

impl PlaybackSession {
    /// The session recorded right after both children spawned.  Both
    /// tokens were generated at spawn time and handed to the player via
    /// its launch arguments.  No status message exists yet; it is
    /// attached later, and events arriving in between are dropped by the
    /// status relay.
    pub fn new(
        correlation_token: String,
        auth_token: String,
        player_pid: u32,
        resampler_pid: u32,
    ) -> (s: Self)
        ensures
            s.correlation_token == correlation_token,
            s.auth_token == auth_token,
            s.player_pid == player_pid,
            s.resampler_pid == resampler_pid,
            s.status_msg is None,
    {
        PlaybackSession { correlation_token, auth_token, player_pid, resampler_pid, status_msg: None }
    }

    /// Attach the status message handle once the calling context has
    /// created the placeholder message.
    pub fn attach_status_msg(&mut self, handle: MsgHandle)
        ensures
            final(self).status_msg == Some(handle),
            final(self).correlation_token == old(self).correlation_token,
            final(self).auth_token == old(self).auth_token,
            final(self).player_pid == old(self).player_pid,
            final(self).resampler_pid == old(self).resampler_pid,
    {
        self.status_msg = Some(handle);
    }
}

/// How far the two-stage spawn has come.
#[derive(Clone, Copy, Debug, PartialEq, Eq, Structural)]
pub enum PipelineState {
    /// Nothing spawned yet.
    Idle,
    /// The player is up; the resampler is not.
    PlayerRunning { player_pid: u32 },
    /// Both children are up and wired together.
    Running { player_pid: u32, resampler_pid: u32 },
    /// A spawn failed; whatever had started has been ordered terminated.
    Aborted,
}

/// What the caller observed while building the pipeline.
#[derive(Clone, Copy, Debug, PartialEq, Eq, Structural)]
pub enum SpawnEvent {
    PlayerSpawned(u32),
    PlayerFailed,
    ResamplerSpawned(u32),
    ResamplerFailed,
}

/// What the caller must do next.
#[derive(Clone, Copy, Debug, PartialEq, Eq, Structural)]
pub enum PipelineAction {
    /// Spawn the resampler with the player's output as its input.
    SpawnResampler,
    /// The spawn attempt is over with nothing running.
    Fail,
    /// Terminate the already-running player: its sibling failed to spawn
    /// and no orphan may be left behind.
    TerminatePlayer(u32),
    /// Both children run; attach the combined output to the voice
    /// transport.
    AttachOutput { player_pid: u32, resampler_pid: u32 },
}

/// Whether the event can occur in the state: the player spawn resolves
/// first, then the resampler spawn.
pub open spec fn spec_event_fits(state: PipelineState, event: SpawnEvent) -> bool {
    match event {
        SpawnEvent::PlayerSpawned(_) | SpawnEvent::PlayerFailed => state is Idle,
        SpawnEvent::ResamplerSpawned(_) | SpawnEvent::ResamplerFailed => state is PlayerRunning,
    }
}

impl PipelineState {
    /// Drive the spawn sequence one step.  A failed player spawn ends the
    /// attempt at once; a failed resampler spawn ends it too, but only
    /// after ordering the already-spawned player terminated, so no spawn
    /// failure leaves an orphaned child behind.
    pub fn step(&mut self, event: SpawnEvent) -> (a: PipelineAction)
        requires
            spec_event_fits(*old(self), event),
        ensures
            match event {
                SpawnEvent::PlayerSpawned(p) => *final(self) == (PipelineState::PlayerRunning {
                    player_pid: p,
                }) && a is SpawnResampler,
                SpawnEvent::PlayerFailed => *final(self) == PipelineState::Aborted && a is Fail,
                SpawnEvent::ResamplerSpawned(r) => {
                    &&& *final(self) == (PipelineState::Running {
                        player_pid: old(self)->PlayerRunning_player_pid,
                        resampler_pid: r,
                    })
                    &&& a == (PipelineAction::AttachOutput {
                        player_pid: old(self)->PlayerRunning_player_pid,
                        resampler_pid: r,
                    })
                },
                SpawnEvent::ResamplerFailed => *final(self) == PipelineState::Aborted && a
                    == PipelineAction::TerminatePlayer(old(self)->PlayerRunning_player_pid),
            },
    {
        match event {
            SpawnEvent::PlayerSpawned(p) => {
                *self = PipelineState::PlayerRunning { player_pid: p };
                PipelineAction::SpawnResampler
            },
            SpawnEvent::PlayerFailed => {
                *self = PipelineState::Aborted;
                PipelineAction::Fail
            },
            SpawnEvent::ResamplerSpawned(r) => {
                let p = self.player_pid_of();
                *self = PipelineState::Running { player_pid: p, resampler_pid: r };
                PipelineAction::AttachOutput { player_pid: p, resampler_pid: r }
            },
            SpawnEvent::ResamplerFailed => {
                let p = self.player_pid_of();
                *self = PipelineState::Aborted;
                PipelineAction::TerminatePlayer(p)
            },
        }
    }

    /// The player pid while the player alone is running.
    fn player_pid_of(&self) -> (p: u32)
        requires
            self is PlayerRunning,
        ensures
            p == self->PlayerRunning_player_pid,
    {
        match self {
            PipelineState::PlayerRunning { player_pid } => *player_pid,
            _ => 0,
        }
    }
}

/// The argument list of the resampling stage: read raw 44.1kHz stereo
/// 16-bit PCM on standard input, resample to 48kHz, write to standard
/// output.
pub open spec fn spec_resampler_args() -> Seq<Seq<char>> {
    seq![
        "filesrc"@,
        "location=/dev/stdin"@,
        "!"@,
        "rawaudioparse"@,
        "use-sink-caps=false"@,
        "format=pcm"@,
        "pcm-format=s16le"@,
        "sample-rate=44100"@,
        "num-channels=2"@,
        "!"@,
        "audioconvert"@,
        "!"@,
        "audioresample"@,
        "!"@,
        "audio/x-raw,"@,
        "rate=48000"@,
        "!"@,
        "filesink"@,
        "location=/dev/stdout"@,
    ]
}

/// The program the resampling stage runs.
pub fn resampler_program() -> (r: &'static str)
    ensures
        r@ == "gst-launch-1.0"@,
{
    "gst-launch-1.0"
}

/// The exact arguments to hand the resampler program.
pub fn resampler_args() -> (r: Vec<String>)
    ensures
        crate::player_events::strs_view(r@) == spec_resampler_args(),
{
    let mut v: Vec<String> = Vec::new();
    v.push(String::from_str("filesrc"));
    v.push(String::from_str("location=/dev/stdin"));
    v.push(String::from_str("!"));
    v.push(String::from_str("rawaudioparse"));
    v.push(String::from_str("use-sink-caps=false"));
    v.push(String::from_str("format=pcm"));
    v.push(String::from_str("pcm-format=s16le"));
    v.push(String::from_str("sample-rate=44100"));
    v.push(String::from_str("num-channels=2"));
    v.push(String::from_str("!"));
    v.push(String::from_str("audioconvert"));
    v.push(String::from_str("!"));
    v.push(String::from_str("audioresample"));
    v.push(String::from_str("!"));
    v.push(String::from_str("audio/x-raw,"));
    v.push(String::from_str("rate=48000"));
    v.push(String::from_str("!"));
    v.push(String::from_str("filesink"));
    v.push(String::from_str("location=/dev/stdout"));
    proof {
        assert(crate::player_events::strs_view(v@) =~= spec_resampler_args());
    }
    v
}

/// The reply when no pending bundle is stored under the key.
pub fn no_stream_message(key: &str) -> (r: String)
    ensures
        r@ == "No stream found for "@ + key@,
{
    let mut s = String::from_str("No stream found for ");
    s.append(key);
    s
}

} // verus!
