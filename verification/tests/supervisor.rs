use spotify_remote::bot::{
    no_stream_message, resampler_args, resampler_program, PipelineAction, PipelineState,
    PlaybackSession, SpawnEvent,
};
use spotify_remote::player_events::MsgHandle;
use spotify_remote::server::{ForwardResponse, Server};
use spotify_remote::creds_registry::CredsRegistry;
use spotify_remote::protocol::{Credentials, ForwardCreds};

#[test]
fn pipeline_happy_path_attaches_both_children() {
    let mut st = PipelineState::Idle;
    assert_eq!(
        st.step(SpawnEvent::PlayerSpawned(100)),
        PipelineAction::SpawnResampler
    );
    assert_eq!(st, PipelineState::PlayerRunning { player_pid: 100 });
    assert_eq!(
        st.step(SpawnEvent::ResamplerSpawned(200)),
        PipelineAction::AttachOutput { player_pid: 100, resampler_pid: 200 }
    );
    assert_eq!(
        st,
        PipelineState::Running { player_pid: 100, resampler_pid: 200 }
    );
}

#[test]
fn failed_player_spawn_aborts_with_nothing_running() {
    let mut st = PipelineState::Idle;
    assert_eq!(st.step(SpawnEvent::PlayerFailed), PipelineAction::Fail);
    assert_eq!(st, PipelineState::Aborted);
}

#[test]
fn failed_resampler_spawn_terminates_the_player() {
    let mut st = PipelineState::Idle;
    st.step(SpawnEvent::PlayerSpawned(4242));
    assert_eq!(
        st.step(SpawnEvent::ResamplerFailed),
        PipelineAction::TerminatePlayer(4242),
        "the already-spawned player must not be left orphaned"
    );
    assert_eq!(st, PipelineState::Aborted);
}

#[test]
fn resampler_invocation_is_the_fixed_pipeline() {
    assert_eq!(resampler_program(), "gst-launch-1.0");
    let args = resampler_args();
    let expected = vec![
        "filesrc",
        "location=/dev/stdin",
        "!",
        "rawaudioparse",
        "use-sink-caps=false",
        "format=pcm",
        "pcm-format=s16le",
        "sample-rate=44100",
        "num-channels=2",
        "!",
        "audioconvert",
        "!",
        "audioresample",
        "!",
        "audio/x-raw,",
        "rate=48000",
        "!",
        "filesink",
        "location=/dev/stdout",
    ];
    assert_eq!(args, expected);
}

#[test]
fn session_records_tokens_and_pids_and_attaches_handle_later() {
    let mut session = PlaybackSession::new("corr-1".to_string(), "auth-1".to_string(), 11, 22);
    assert_eq!(session.correlation_token, "corr-1");
    assert_eq!(session.auth_token, "auth-1");
    assert_eq!(session.player_pid, 11);
    assert_eq!(session.resampler_pid, 22);
    assert!(session.status_msg.is_none());
    let handle = MsgHandle { msg_id: 5, channel_id: 6 };
    session.attach_status_msg(handle);
    assert_eq!(session.status_msg, Some(handle));
    assert_eq!(session.player_pid, 11);
    assert_eq!(session.auth_token, "auth-1");
}

#[test]
fn missing_key_message_names_the_key() {
    assert_eq!(no_stream_message("brad12"), "No stream found for brad12");
}

#[test]
fn server_accepts_then_conflicts_on_same_key() {
    let mut srv = Server::new(CredsRegistry::default());
    let req = ForwardCreds {
        device_name: "den".to_string(),
        key: "beans77".to_string(),
        creds: Credentials {
            username: "u".to_string(),
            auth_type: 1,
            auth_data: vec![1, 2, 3],
        },
    };
    let first = srv.handle_forward_creds(req.clone());
    assert_eq!(first, ForwardResponse::Accepted);
    assert_eq!(first.status_code(), 200);
    let second = srv.handle_forward_creds(req);
    assert_eq!(second, ForwardResponse::Conflict);
    assert_eq!(second.status_code(), 409);
    // the stored bundle is the first one and can be taken through the registry
    let stored = srv.registry.take("beans77").expect("bundle stored");
    assert_eq!(stored.device_name, "den");
    assert!(srv.registry.take("beans77").is_none());
}
