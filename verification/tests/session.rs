use obs_cmd::command::{
    Cli, Commands, ObsWebsocket, Recording, Replay, SceneAction, Streaming, StudioModeAction,
    VirtualCamera,
};
use obs_cmd::protocol::{Reply, Request};
use obs_cmd::session::{Next, Outcome, Stage, Step};
use std::str::FromStr;

fn s(text: &str) -> String {
    text.to_string()
}

fn cli(command: Commands) -> Cli {
    Cli { websocket: None, command }
}

fn failed() -> Reply {
    Reply::Failed(s("Api { code: ResourceNotFound, message: None }"))
}

fn default_connect() -> Request {
    Request::Connect { hostname: s("localhost"), port: 4455, password: Some(s("secret")) }
}

struct Run {
    lines: Vec<String>,
    calls: Vec<Request>,
    outcome: Outcome,
}

/// Drives a run: answers each call with the next of `replies`, and checks
/// that the run asks for exactly as many calls as there are replies.
fn run(cli: &Cli, replies: Vec<Reply>) -> Run {
    let mut lines = Vec::new();
    let mut calls = Vec::new();
    let mut replies = replies.into_iter();
    let mut step = cli.begin();
    loop {
        lines.extend(step.lines);
        match step.next {
            Next::End(outcome) => {
                assert_eq!(replies.next(), None, "a reply was left over");
                return Run { lines, calls, outcome };
            }
            Next::Call { request, stage } => {
                assert_eq!(cli.pending(&stage), Some(request.clone()));
                let reply = replies.next().expect("the run asked for one call more");
                assert!(reply.answers(&request), "{:?} to {:?}", reply, request);
                calls.push(request);
                step = cli.advance(&stage, &reply);
            }
        }
    }
}

fn filter(verb: &str) -> Cli {
    cli(Commands::Filter { command: s(verb), source: s("Mic"), filter: s("Noise Gate") })
}

fn scene_item(verb: &str) -> Cli {
    cli(Commands::SceneItem { command: s(verb), scene: s("Main"), source: s("Webcam") })
}

#[test]
fn default_address_is_localhost_4455_secret() {
    let step = cli(Commands::Info).begin();
    assert_eq!(step.lines, Vec::<String>::new());
    assert_eq!(step.next, Next::Call { request: default_connect(), stage: Stage::Connecting });
    assert_eq!(cli(Commands::Info).connect(), default_connect());
    assert_eq!(
        cli(Commands::Info).address(),
        ObsWebsocket { hostname: s("localhost"), port: 4455, password: Some(s("secret")) }
    );
}

#[test]
fn given_address_is_used() {
    let given = Cli {
        websocket: Some(ObsWebsocket { hostname: s("studio"), port: 9000, password: None }),
        command: Commands::Info,
    };
    let expected = Request::Connect { hostname: s("studio"), port: 9000, password: None };
    assert_eq!(given.connect(), expected);
    assert_eq!(
        given.address(),
        ObsWebsocket { hostname: s("studio"), port: 9000, password: None }
    );
    assert_eq!(
        given.begin(),
        Step {
            lines: vec![],
            next: Next::Call { request: expected, stage: Stage::Connecting },
        }
    );
    let with_password = Cli {
        websocket: Some(ObsWebsocket { hostname: s("studio"), port: 1, password: Some(s("pw")) }),
        command: Commands::Info,
    };
    assert_eq!(
        with_password.connect(),
        Request::Connect { hostname: s("studio"), port: 1, password: Some(s("pw")) }
    );
}

#[test]
fn parsed_address_reaches_the_connection() {
    let address = ObsWebsocket::from_str("obsws://studio.example:4460/s3cret").unwrap();
    let given = Cli { websocket: Some(address), command: Commands::Info };
    assert_eq!(
        given.connect(),
        Request::Connect { hostname: s("studio.example"), port: 4460, password: Some(s("s3cret")) }
    );
}

#[test]
fn failed_connection_ends_every_run() {
    let commands = vec![
        Commands::Info,
        Commands::Scene { action: SceneAction::Get },
        Commands::Recording(Recording::Start),
        Commands::Filter { command: s("nonsense"), source: s("Mic"), filter: s("Gate") },
        Commands::SceneItem { command: s("toggle"), scene: s("Main"), source: s("Cam") },
    ];
    for command in commands {
        let r = run(&cli(command), vec![failed()]);
        assert_eq!(r.calls, vec![default_connect()]);
        assert_eq!(r.lines, Vec::<String>::new());
        assert_eq!(r.outcome, Outcome::Failure);
    }
}

#[test]
fn info_prints_version() {
    let r = run(&cli(Commands::Info), vec![Reply::Done, Reply::Report(s("Version { obs: 30 }"))]);
    assert_eq!(r.calls, vec![default_connect(), Request::Version]);
    assert_eq!(r.lines, vec![s("Version: Version { obs: 30 }")]);
    assert_eq!(r.outcome, Outcome::Success);
}

#[test]
fn info_failure_is_fatal() {
    let r = run(&cli(Commands::Info), vec![Reply::Done, failed()]);
    assert_eq!(r.calls, vec![default_connect(), Request::Version]);
    assert_eq!(r.lines, Vec::<String>::new());
    assert_eq!(r.outcome, Outcome::Failure);
}

#[test]
fn scene_preview_reports_result() {
    let command = Commands::Scene { action: SceneAction::Preview { scene_name: s("Be \"right\" back") } };
    let r = run(&cli(command.clone()), vec![Reply::Done, Reply::Done]);
    assert_eq!(
        r.calls,
        vec![default_connect(), Request::SetCurrentPreviewScene { scene: s("Be \"right\" back") }]
    );
    assert_eq!(
        r.lines,
        vec![s("Switched preview to scene: \"Be \\\"right\\\" back\""), s("Result: Ok(())")]
    );
    assert_eq!(r.outcome, Outcome::Success);

    let r = run(&cli(command), vec![Reply::Done, failed()]);
    assert_eq!(
        r.lines,
        vec![
            s("Switched preview to scene: \"Be \\\"right\\\" back\""),
            s("Result: Err(Api { code: ResourceNotFound, message: None })"),
        ]
    );
    assert_eq!(r.outcome, Outcome::Success);
}

#[test]
fn scene_get_combines_program_and_preview() {
    let r = run(
        &cli(Commands::Scene { action: SceneAction::Get }),
        vec![Reply::Done, Reply::Text(s("Main")), Reply::Text(s("Intro"))],
    );
    assert_eq!(
        r.calls,
        vec![default_connect(), Request::CurrentProgramScene, Request::CurrentPreviewScene]
    );
    assert_eq!(r.lines, vec![s("Scenes: {\"preview\":\"Intro\",\"program\":\"Main\"}")]);
    assert_eq!(r.outcome, Outcome::Success);
}

#[test]
fn scene_get_without_studio_mode_has_empty_preview() {
    let r = run(
        &cli(Commands::Scene { action: SceneAction::Get }),
        vec![Reply::Done, Reply::Text(s("Main")), failed()],
    );
    assert_eq!(
        r.calls,
        vec![default_connect(), Request::CurrentProgramScene, Request::CurrentPreviewScene]
    );
    assert_eq!(r.lines, vec![s("Scenes: {\"preview\":\"\",\"program\":\"Main\"}")]);
    assert_eq!(r.outcome, Outcome::Success);
}

#[test]
fn scene_get_escapes_names_as_json() {
    let r = run(
        &cli(Commands::Scene { action: SceneAction::Get }),
        vec![Reply::Done, Reply::Text(s("A \"live\" one\\two")), Reply::Text(s("line\nbreak"))],
    );
    assert_eq!(
        r.lines,
        vec![s("Scenes: {\"preview\":\"line\\nbreak\",\"program\":\"A \\\"live\\\" one\\\\two\"}")]
    );
}

#[test]
fn scene_get_program_failure_is_fatal() {
    let r = run(&cli(Commands::Scene { action: SceneAction::Get }), vec![Reply::Done, failed()]);
    assert_eq!(r.calls, vec![default_connect(), Request::CurrentProgramScene]);
    assert_eq!(r.lines, Vec::<String>::new());
    assert_eq!(r.outcome, Outcome::Failure);
}

#[test]
fn scene_list_prints_scenes() {
    let command = Commands::Scene { action: SceneAction::List };
    let r = run(&cli(command.clone()), vec![Reply::Done, Reply::Report(s("Scenes { scenes: [] }"))]);
    assert_eq!(r.calls, vec![default_connect(), Request::ListScenes]);
    assert_eq!(r.lines, vec![s("Scenes: Scenes { scenes: [] }")]);
    assert_eq!(r.outcome, Outcome::Success);

    let r = run(&cli(command), vec![Reply::Done, failed()]);
    assert_eq!(r.lines, Vec::<String>::new());
    assert_eq!(r.outcome, Outcome::Failure);
}

#[test]
fn scene_switch_reports_result() {
    let command = Commands::Scene { action: SceneAction::Switch { scene_name: s("Main \"A\"") } };
    let r = run(&cli(command.clone()), vec![Reply::Done, Reply::Done]);
    assert_eq!(
        r.calls,
        vec![default_connect(), Request::SetCurrentProgramScene { scene: s("Main \"A\"") }]
    );
    assert_eq!(r.lines, vec![s("Switched to scene: Main \"A\""), s("Result: Ok(())")]);
    assert_eq!(r.outcome, Outcome::Success);

    let r = run(&cli(command), vec![Reply::Done, Reply::Failed(s("Disconnected"))]);
    assert_eq!(r.lines, vec![s("Switched to scene: Main \"A\""), s("Result: Err(Disconnected)")]);
    assert_eq!(r.outcome, Outcome::Success);
}

#[test]
fn scene_collection_prints_both_words() {
    let command = Commands::SceneCollection {
        switch_placeholder: s("switch"),
        scene_collection_name: s("Live Show"),
    };
    let r = run(&cli(command), vec![Reply::Done, Reply::Done]);
    assert_eq!(
        r.calls,
        vec![default_connect(), Request::SetCurrentSceneCollection { name: s("Live Show") }]
    );
    assert_eq!(
        r.lines,
        vec![s("Set current scene collection: switch Live Show"), s("Result: Ok(())")]
    );
    assert_eq!(r.outcome, Outcome::Success);
}

#[test]
fn studio_mode_enable_and_disable() {
    let enable = cli(Commands::StudioMode { action: StudioModeAction::Enable });
    let r = run(&enable, vec![Reply::Done, Reply::Done]);
    assert_eq!(r.calls, vec![default_connect(), Request::SetStudioModeEnabled { enabled: true }]);
    assert_eq!(r.lines, vec![s("Enable Studio Mode"), s("Result: Ok(())")]);
    assert_eq!(r.outcome, Outcome::Success);

    let disable = cli(Commands::StudioMode { action: StudioModeAction::Disable });
    let r = run(&disable, vec![Reply::Done, Reply::Done]);
    assert_eq!(r.calls, vec![default_connect(), Request::SetStudioModeEnabled { enabled: false }]);
    assert_eq!(r.lines, vec![s("Disable Studio Mode"), s("Scene: Ok(())")]);
    assert_eq!(r.outcome, Outcome::Success);

    let r = run(&disable, vec![Reply::Done, Reply::Failed(s("Disconnected"))]);
    assert_eq!(r.lines, vec![s("Disable Studio Mode"), s("Scene: Err(Disconnected)")]);
    assert_eq!(r.outcome, Outcome::Success);
}

#[test]
fn studio_mode_toggle_when_enabled_disables() {
    let toggle = cli(Commands::StudioMode { action: StudioModeAction::Toggle });
    let r = run(&toggle, vec![Reply::Done, Reply::Flag(true), Reply::Done]);
    assert_eq!(
        r.calls,
        vec![
            default_connect(),
            Request::StudioModeEnabled,
            Request::SetStudioModeEnabled { enabled: false },
        ]
    );
    assert_eq!(r.lines, vec![s("Toggle Studio Mode: Disabled"), s("Result: ()")]);
    assert_eq!(r.outcome, Outcome::Success);
}

#[test]
fn studio_mode_toggle_when_disabled_enables() {
    let toggle = cli(Commands::StudioMode { action: StudioModeAction::Toggle });
    let r = run(&toggle, vec![Reply::Done, Reply::Flag(false), Reply::Done]);
    assert_eq!(
        r.calls,
        vec![
            default_connect(),
            Request::StudioModeEnabled,
            Request::SetStudioModeEnabled { enabled: true },
        ]
    );
    assert_eq!(r.lines, vec![s("Toggle Studio Mode: Enabled"), s("Result: ()")]);
    assert_eq!(r.outcome, Outcome::Success);
}

#[test]
fn studio_mode_toggle_failures_are_fatal() {
    let toggle = cli(Commands::StudioMode { action: StudioModeAction::Toggle });
    let r = run(&toggle, vec![Reply::Done, failed()]);
    assert_eq!(r.calls, vec![default_connect(), Request::StudioModeEnabled]);
    assert_eq!(r.lines, Vec::<String>::new());
    assert_eq!(r.outcome, Outcome::Failure);

    let r = run(&toggle, vec![Reply::Done, Reply::Flag(true), failed()]);
    assert_eq!(r.calls.len(), 3);
    assert_eq!(r.lines, Vec::<String>::new());
    assert_eq!(r.outcome, Outcome::Failure);
}

#[test]
fn studio_mode_status_prints_state() {
    let status = cli(Commands::StudioMode { action: StudioModeAction::Status });
    let r = run(&status, vec![Reply::Done, Reply::Flag(true)]);
    assert_eq!(r.calls, vec![default_connect(), Request::StudioModeEnabled]);
    assert_eq!(r.lines, vec![s("Studio Mode: true")]);
    assert_eq!(r.outcome, Outcome::Success);

    let r = run(&status, vec![Reply::Done, Reply::Flag(false)]);
    assert_eq!(r.lines, vec![s("Studio Mode: false")]);

    let r = run(&status, vec![Reply::Done, failed()]);
    assert_eq!(r.lines, Vec::<String>::new());
    assert_eq!(r.outcome, Outcome::Failure);
}

#[test]
fn recording_commands_report_results() {
    let r = run(&cli(Commands::Recording(Recording::Start)), vec![Reply::Done, Reply::Done]);
    assert_eq!(r.calls, vec![default_connect(), Request::Recording(Recording::Start)]);
    assert_eq!(r.lines, vec![s("Recording Start"), s("Recording started"), s("Result: Ok(())")]);
    assert_eq!(r.outcome, Outcome::Success);

    let r = run(
        &cli(Commands::Recording(Recording::Stop)),
        vec![Reply::Done, Reply::Text(s("/home/me/My \"Show\".mkv"))],
    );
    assert_eq!(r.calls, vec![default_connect(), Request::Recording(Recording::Stop)]);
    assert_eq!(
        r.lines,
        vec![
            s("Recording Stop"),
            s("Recording stopped"),
            s("Result: Ok(\"/home/me/My \\\"Show\\\".mkv\")"),
        ]
    );

    let r = run(&cli(Commands::Recording(Recording::Toggle)), vec![Reply::Done, Reply::Flag(true)]);
    assert_eq!(r.calls, vec![default_connect(), Request::Recording(Recording::Toggle)]);
    assert_eq!(r.lines, vec![s("Recording Toggle"), s("Recording toggled"), s("Result: Ok(true)")]);

    let r = run(&cli(Commands::Recording(Recording::Toggle)), vec![Reply::Done, failed()]);
    assert_eq!(
        r.lines,
        vec![
            s("Recording Toggle"),
            s("Recording toggled"),
            s("Result: Err(Api { code: ResourceNotFound, message: None })"),
        ]
    );
    assert_eq!(r.outcome, Outcome::Success);
}

#[test]
fn streaming_commands_report_results() {
    let r = run(&cli(Commands::Streaming(Streaming::Start)), vec![Reply::Done, Reply::Done]);
    assert_eq!(r.calls, vec![default_connect(), Request::Streaming(Streaming::Start)]);
    assert_eq!(r.lines, vec![s("Streaming Start"), s("Streaming started"), s("Result: Ok(())")]);

    let r = run(&cli(Commands::Streaming(Streaming::Stop)), vec![Reply::Done, failed()]);
    assert_eq!(
        r.lines,
        vec![
            s("Streaming Stop"),
            s("Streaming stopped"),
            s("Result: Err(Api { code: ResourceNotFound, message: None })"),
        ]
    );
    assert_eq!(r.outcome, Outcome::Success);
}

#[test]
fn streaming_toggle_prints_bare_state_and_fails_hard() {
    let toggle = cli(Commands::Streaming(Streaming::Toggle));
    let r = run(&toggle, vec![Reply::Done, Reply::Flag(false)]);
    assert_eq!(r.calls, vec![default_connect(), Request::Streaming(Streaming::Toggle)]);
    assert_eq!(r.lines, vec![s("Streaming Toggle"), s("Streaming toggled"), s("Result: false")]);
    assert_eq!(r.outcome, Outcome::Success);

    let r = run(&toggle, vec![Reply::Done, failed()]);
    assert_eq!(r.lines, vec![s("Streaming Toggle")]);
    assert_eq!(r.outcome, Outcome::Failure);
}

#[test]
fn virtual_camera_commands_report_results() {
    let r = run(&cli(Commands::VirtualCamera(VirtualCamera::Start)), vec![Reply::Done, Reply::Done]);
    assert_eq!(r.calls, vec![default_connect(), Request::VirtualCamera(VirtualCamera::Start)]);
    assert_eq!(r.lines, vec![s("VirtualCamera Start"), s("Result: Ok(())")]);

    let r = run(&cli(Commands::VirtualCamera(VirtualCamera::Stop)), vec![Reply::Done, failed()]);
    assert_eq!(
        r.lines,
        vec![
            s("VirtualCamera Stop"),
            s("Result: Err(Api { code: ResourceNotFound, message: None })"),
        ]
    );
    assert_eq!(r.outcome, Outcome::Success);

    let toggle = cli(Commands::VirtualCamera(VirtualCamera::Toggle));
    let r = run(&toggle, vec![Reply::Done, Reply::Flag(true)]);
    assert_eq!(r.lines, vec![s("VirtualCamera Toggle"), s("Result: true")]);
    assert_eq!(r.outcome, Outcome::Success);

    let r = run(&toggle, vec![Reply::Done, failed()]);
    assert_eq!(r.lines, vec![s("VirtualCamera Toggle")]);
    assert_eq!(r.outcome, Outcome::Failure);
}

#[test]
fn replay_commands_report_results() {
    let r = run(&cli(Commands::Replay(Replay::Start)), vec![Reply::Done, Reply::Done]);
    assert_eq!(r.calls, vec![default_connect(), Request::Replay(Replay::Start)]);
    assert_eq!(r.lines, vec![s("Replay Start"), s("Replay Buffer started"), s("Result: Ok(())")]);

    let r = run(&cli(Commands::Replay(Replay::Stop)), vec![Reply::Done, Reply::Done]);
    assert_eq!(r.lines, vec![s("Replay Stop"), s("Replay Buffer stopped"), s("Result: Ok(())")]);

    let r = run(&cli(Commands::Replay(Replay::Save)), vec![Reply::Done, failed()]);
    assert_eq!(r.calls, vec![default_connect(), Request::Replay(Replay::Save)]);
    assert_eq!(
        r.lines,
        vec![
            s("Replay Save"),
            s("Buffer saved"),
            s("Result: Err(Api { code: ResourceNotFound, message: None })"),
        ]
    );
    assert_eq!(r.outcome, Outcome::Success);

    let toggle = cli(Commands::Replay(Replay::Toggle));
    let r = run(&toggle, vec![Reply::Done, Reply::Flag(true)]);
    assert_eq!(r.lines, vec![s("Replay Toggle"), s("Replay Buffer toggled"), s("Result: true")]);
    assert_eq!(r.outcome, Outcome::Success);

    let r = run(&toggle, vec![Reply::Done, failed()]);
    assert_eq!(r.lines, vec![s("Replay Toggle")]);
    assert_eq!(r.outcome, Outcome::Failure);
}

#[test]
fn toggle_mute_reports_result() {
    let command = cli(Commands::ToggleMute { device: s("Mic/Aux") });
    let r = run(&command, vec![Reply::Done, Reply::Flag(true)]);
    assert_eq!(r.calls, vec![default_connect(), Request::ToggleMute { device: s("Mic/Aux") }]);
    assert_eq!(r.lines, vec![s("Toggling mute on device: \"Mic/Aux\"  "), s("Result: Ok(true)")]);
    assert_eq!(r.outcome, Outcome::Success);

    let r = run(&command, vec![Reply::Done, failed()]);
    assert_eq!(
        r.lines,
        vec![
            s("Toggling mute on device: \"Mic/Aux\"  "),
            s("Result: Err(Api { code: ResourceNotFound, message: None })"),
        ]
    );
    assert_eq!(r.outcome, Outcome::Success);
}

#[test]
fn filter_enable_sets_true() {
    let r = run(&filter("enable"), vec![Reply::Done, Reply::Done]);
    assert_eq!(
        r.calls,
        vec![
            default_connect(),
            Request::SetFilterEnabled { source: s("Mic"), filter: s("Noise Gate"), enabled: true },
        ]
    );
    assert_eq!(
        r.lines,
        vec![s("Filter: \"enable\" \"Mic\" \"Noise Gate\""), s("Result: Ok(())")]
    );
    assert_eq!(r.outcome, Outcome::Success);
}

#[test]
fn filter_disable_sets_false() {
    let r = run(&filter("disable"), vec![Reply::Done, failed()]);
    assert_eq!(
        r.calls,
        vec![
            default_connect(),
            Request::SetFilterEnabled { source: s("Mic"), filter: s("Noise Gate"), enabled: false },
        ]
    );
    assert_eq!(
        r.lines,
        vec![
            s("Filter: \"disable\" \"Mic\" \"Noise Gate\""),
            s("Result: Err(Api { code: ResourceNotFound, message: None })"),
        ]
    );
    assert_eq!(r.outcome, Outcome::Success);
}

#[test]
fn filter_toggle_sets_opposite_of_state_read() {
    for current in [false, true] {
        let r = run(&filter("toggle"), vec![Reply::Done, Reply::Flag(current), Reply::Done]);
        assert_eq!(
            r.calls,
            vec![
                default_connect(),
                Request::FilterEnabled { source: s("Mic"), filter: s("Noise Gate") },
                Request::SetFilterEnabled {
                    source: s("Mic"),
                    filter: s("Noise Gate"),
                    enabled: !current,
                },
            ]
        );
        assert_eq!(
            r.lines,
            vec![s("Filter: \"toggle\" \"Mic\" \"Noise Gate\""), s("Result: Ok(())")]
        );
        assert_eq!(r.outcome, Outcome::Success);
    }
}

#[test]
fn filter_toggle_read_failure_is_fatal() {
    let r = run(&filter("toggle"), vec![Reply::Done, failed()]);
    assert_eq!(r.calls.len(), 2);
    assert_eq!(r.lines, vec![s("Filter: \"toggle\" \"Mic\" \"Noise Gate\"")]);
    assert_eq!(r.outcome, Outcome::Failure);
}

#[test]
fn filter_with_unknown_verb_makes_no_call() {
    let r = run(&filter("flip"), vec![Reply::Done]);
    assert_eq!(r.calls, vec![default_connect()]);
    assert_eq!(
        r.lines,
        vec![s("Filter: \"flip\" \"Mic\" \"Noise Gate\""), s("Invalid filter command: flip")]
    );
    assert_eq!(r.outcome, Outcome::Success);
}

#[test]
fn scene_item_enable_and_disable_use_the_looked_up_id() {
    let r = run(&scene_item("enable"), vec![Reply::Done, Reply::Id(42), Reply::Done]);
    assert_eq!(
        r.calls,
        vec![
            default_connect(),
            Request::SceneItemId { scene: s("Main"), source: s("Webcam"), search_offset: 0 },
            Request::SetSceneItemEnabled { scene: s("Main"), item_id: 42, enabled: true },
        ]
    );
    assert_eq!(
        r.lines,
        vec![s("Scene Item: \"enable\" \"Main\" \"Webcam\""), s("Result: Ok(())")]
    );
    assert_eq!(r.outcome, Outcome::Success);

    let r = run(&scene_item("disable"), vec![Reply::Done, Reply::Id(-3), failed()]);
    assert_eq!(
        r.calls[2],
        Request::SetSceneItemEnabled { scene: s("Main"), item_id: -3, enabled: false }
    );
    assert_eq!(
        r.lines,
        vec![
            s("Scene Item: \"disable\" \"Main\" \"Webcam\""),
            s("Result: Err(Api { code: ResourceNotFound, message: None })"),
        ]
    );
    assert_eq!(r.outcome, Outcome::Success);
}

#[test]
fn scene_item_toggle_reads_then_sets_opposite() {
    for current in [false, true] {
        let r = run(
            &scene_item("toggle"),
            vec![Reply::Done, Reply::Id(i64::MAX), Reply::Flag(current), Reply::Done],
        );
        assert_eq!(
            r.calls,
            vec![
                default_connect(),
                Request::SceneItemId { scene: s("Main"), source: s("Webcam"), search_offset: 0 },
                Request::SceneItemEnabled { scene: s("Main"), item_id: i64::MAX },
                Request::SetSceneItemEnabled {
                    scene: s("Main"),
                    item_id: i64::MAX,
                    enabled: !current,
                },
            ]
        );
        assert_eq!(
            r.lines,
            vec![s("Scene Item: \"toggle\" \"Main\" \"Webcam\""), s("Result: Ok(())")]
        );
        assert_eq!(r.outcome, Outcome::Success);
    }
}

#[test]
fn scene_item_lookup_failure_aborts_without_setting() {
    for verb in ["enable", "disable", "toggle", "flip"] {
        let r = run(&scene_item(verb), vec![Reply::Done, failed()]);
        assert_eq!(
            r.calls,
            vec![
                default_connect(),
                Request::SceneItemId { scene: s("Main"), source: s("Webcam"), search_offset: 0 },
            ]
        );
        assert_eq!(r.lines, vec![format!("Scene Item: {:?} \"Main\" \"Webcam\"", verb)]);
        assert_eq!(r.outcome, Outcome::Failure);
    }
}

#[test]
fn scene_item_toggle_read_failure_is_fatal() {
    let r = run(&scene_item("toggle"), vec![Reply::Done, Reply::Id(5), failed()]);
    assert_eq!(r.calls.len(), 3);
    assert_eq!(r.lines, vec![s("Scene Item: \"toggle\" \"Main\" \"Webcam\"")]);
    assert_eq!(r.outcome, Outcome::Failure);
}

#[test]
fn scene_item_with_unknown_verb_sets_nothing() {
    let r = run(&scene_item("Toggle"), vec![Reply::Done, Reply::Id(5)]);
    assert_eq!(
        r.calls,
        vec![
            default_connect(),
            Request::SceneItemId { scene: s("Main"), source: s("Webcam"), search_offset: 0 },
        ]
    );
    assert_eq!(
        r.lines,
        vec![
            s("Scene Item: \"Toggle\" \"Main\" \"Webcam\""),
            s("Invalid scene item command: Toggle"),
        ]
    );
    assert_eq!(r.outcome, Outcome::Success);
}

#[test]
fn reply_of_wrong_kind_ends_the_run() {
    let status = cli(Commands::StudioMode { action: StudioModeAction::Status });
    assert_eq!(status.advance(&Stage::Calling, &Reply::Done), Step::halted());
    assert_eq!(status.advance(&Stage::Calling, &Reply::Text(s("true"))), Step::halted());
    assert_eq!(status.advance(&Stage::Connecting, &Reply::Flag(true)), Step::halted());
    let item = scene_item("enable");
    assert_eq!(item.advance(&Stage::ItemId, &Reply::Flag(true)), Step::halted());
    assert_eq!(item.advance(&Stage::ItemId, &Reply::Done), Step::halted());
}

#[test]
fn stage_of_another_command_ends_the_run() {
    let info = cli(Commands::Info);
    assert_eq!(info.pending(&Stage::FilterState), None);
    assert_eq!(info.pending(&Stage::StudioFlip { was: true }), None);
    assert_eq!(info.advance(&Stage::FilterState, &Reply::Flag(true)), Step::halted());
    assert_eq!(info.advance(&Stage::ItemSet { item_id: 1, enabled: true }, &Reply::Done), Step::halted());
    assert_eq!(filter("enable").pending(&Stage::FilterState), None);
    assert_eq!(filter("enable").pending(&Stage::FilterSet { enabled: false }), None);
    assert_eq!(filter("flip").pending(&Stage::FilterSet { enabled: true }), None);
    assert_eq!(scene_item("disable").pending(&Stage::ItemSet { item_id: 1, enabled: true }), None);
    assert_eq!(scene_item("disable").pending(&Stage::ItemState { item_id: 1 }), None);
    assert_eq!(cli(Commands::Scene { action: SceneAction::Get }).pending(&Stage::Calling), None);
    assert_eq!(filter("enable").advance(&Stage::Calling, &Reply::Done), Step::halted());
}

#[test]
fn pending_names_the_call_that_is_out() {
    assert_eq!(cli(Commands::Info).pending(&Stage::Connecting), Some(default_connect()));
    assert_eq!(cli(Commands::Info).pending(&Stage::Calling), Some(Request::Version));
    assert_eq!(
        filter("toggle").pending(&Stage::FilterSet { enabled: false }),
        Some(Request::SetFilterEnabled {
            source: s("Mic"),
            filter: s("Noise Gate"),
            enabled: false,
        })
    );
    assert_eq!(
        scene_item("toggle").pending(&Stage::ItemState { item_id: 9 }),
        Some(Request::SceneItemEnabled { scene: s("Main"), item_id: 9 })
    );
    assert_eq!(
        cli(Commands::StudioMode { action: StudioModeAction::Toggle })
            .pending(&Stage::StudioFlip { was: true }),
        Some(Request::SetStudioModeEnabled { enabled: false })
    );
    assert_eq!(
        cli(Commands::Scene { action: SceneAction::Get })
            .pending(&Stage::PreviewScene { program: s("Main") }),
        Some(Request::CurrentPreviewScene)
    );
}

#[test]
fn reply_texts() {
    assert_eq!(Reply::Done.shown(), Some(s("Ok(())")));
    assert_eq!(Reply::Flag(false).shown(), Some(s("Ok(false)")));
    assert_eq!(Reply::Text(s("a\tb")).shown(), Some(s("Ok(\"a\\tb\")")));
    assert_eq!(Reply::Failed(s("NoPassword")).shown(), Some(s("Err(NoPassword)")));
    assert_eq!(Reply::Id(1).shown(), None);
    assert_eq!(Reply::Report(s("x")).shown(), None);
    assert_eq!(Reply::Flag(true).bare(), Some(s("true")));
    assert_eq!(Reply::Report(s("Version { .. }")).bare(), Some(s("Version { .. }")));
    assert_eq!(Reply::Done.bare(), None);
    assert_eq!(Reply::Failed(s("NoPassword")).bare(), None);
    assert_eq!(Reply::Text(s("Intro")).preview_name(), s("Intro"));
    assert_eq!(failed().preview_name(), s(""));
}

#[test]
fn shown_matches_debug_of_result() {
    let unit: Result<(), ()> = Ok(());
    assert_eq!(Reply::Done.shown(), Some(format!("{:?}", unit)));
    let flag: Result<bool, ()> = Ok(true);
    assert_eq!(Reply::Flag(true).shown(), Some(format!("{:?}", flag)));
    let text: Result<String, ()> = Ok(s("C:\\rec \"1\".mkv"));
    assert_eq!(Reply::Text(s("C:\\rec \"1\".mkv")).shown(), Some(format!("{:?}", text)));
}

#[test]
fn single_call_commands() {
    let info = Commands::Info;
    assert_eq!(info.single_call(), Some(Request::Version));
    assert!(info.strict());
    assert_eq!(info.label(), "Version: ");
    assert_eq!(info.heading(), Vec::<String>::new());
    assert_eq!(info.announcement(), Vec::<String>::new());
    assert_eq!(Commands::Scene { action: SceneAction::Get }.single_call(), None);
    assert_eq!(Commands::StudioMode { action: StudioModeAction::Toggle }.single_call(), None);
    assert_eq!(filter("enable").command.single_call(), None);
    assert_eq!(scene_item("enable").command.single_call(), None);
    assert!(!Commands::Recording(Recording::Toggle).strict());
    assert!(Commands::Streaming(Streaming::Toggle).strict());
    assert!(!Commands::Streaming(Streaming::Start).strict());
    assert_eq!(Commands::StudioMode { action: StudioModeAction::Disable }.label(), "Scene: ");
    assert_eq!(Commands::StudioMode { action: StudioModeAction::Enable }.label(), "Result: ");
}

#[test]
fn runs_make_at_most_three_calls_once_connected() {
    let r = run(
        &scene_item("toggle"),
        vec![Reply::Done, Reply::Id(1), Reply::Flag(true), Reply::Done],
    );
    assert_eq!(r.calls.len(), 4);
    assert_eq!(r.calls.iter().filter(|c| matches!(c, Request::Connect { .. })).count(), 1);
}
