use ffmpeg_gateway::copier::compose_remote_path;
use ffmpeg_gateway::copier::copy_targets;
use ffmpeg_gateway::copier::copy_verdict;
use ffmpeg_gateway::descriptor::parse_descriptor;
use ffmpeg_gateway::descriptor::Registry;
use ffmpeg_gateway::engine::absorb_cleanup_failure;
use ffmpeg_gateway::engine::ffprobe_args;
use ffmpeg_gateway::engine::output_is_streaming;
use ffmpeg_gateway::engine::plan_invocation;
use ffmpeg_gateway::engine::probe_gate;
use ffmpeg_gateway::engine::settle_copy;
use ffmpeg_gateway::engine::settle_copy_gate;
use ffmpeg_gateway::engine::settle_spawn_failure;
use ffmpeg_gateway::engine::settle_streaming;
use ffmpeg_gateway::engine::InvocationError;
use ffmpeg_gateway::engine::ToolStatus;
use ffmpeg_gateway::engine::TransferMode;
use ffmpeg_gateway::request::example_ffmpeg_request;
use ffmpeg_gateway::request::example_ffmpeg_response;
use ffmpeg_gateway::request::example_ffprobe_request;
use ffmpeg_gateway::request::example_ffprobe_response;
use ffmpeg_gateway::request::FfmpegRequest;
use ffmpeg_gateway::request::FfprobeRequest;
use ffmpeg_gateway::request::Output;

fn strings(items: &[&str]) -> Vec<String> {
    items.iter().map(|s| String::from(*s)).collect()
}

fn s3_registry() -> Registry {
    let mut registry = Registry::new();
    registry.register(String::from("s3"));
    registry.register(String::from("fs"));
    registry
}

fn request(args: &[&str], destination: &str) -> FfmpegRequest {
    FfmpegRequest {
        args: strings(args),
        output: Output { location: parse_descriptor(destination).unwrap() },
    }
}

#[test]
fn copy_path_request_plans_copy_to_bucket_root() {
    // Tool writes output.mp4 into the workspace; destination is the
    // bucket root, so the relative path is empty.
    let registry = s3_registry();
    let req = request(&["-i", "input.mp4", "-vf", "scale=-1:720", "output.mp4"], "s3://bucket/");
    let plan = plan_invocation(&registry, &req).unwrap();
    assert_eq!(plan.mode, TransferMode::Copy);
    assert_eq!(plan.backend_key, "s3://bucket");
    assert_eq!(plan.relative_path, "");
    assert_eq!(
        plan.argv,
        strings(&["-nostdin", "-y", "-i", "input.mp4", "-vf", "scale=-1:720", "output.mp4"])
    );
    // The produced file lands directly under the bucket root.
    assert_eq!(compose_remote_path(&plan.relative_path, "output.mp4"), "output.mp4");
}

#[test]
fn streaming_request_plans_streaming_to_object() {
    let registry = s3_registry();
    let req = request(&["-i", "input.mp4", "-f", "mp4", "-"], "s3://bucket/clip.mp4");
    let plan = plan_invocation(&registry, &req).unwrap();
    assert_eq!(plan.mode, TransferMode::Streaming);
    assert_eq!(plan.backend_key, "s3://bucket");
    assert_eq!(plan.relative_path, "clip.mp4");
    assert_eq!(plan.argv[0], "-nostdin");
    assert_eq!(plan.argv[1], "-y");
    assert_eq!(plan.argv[2..], strings(&["-i", "input.mp4", "-f", "mp4", "-"])[..]);
}

#[test]
fn streaming_success_returns_full_diagnostics() {
    let diagnostics = "frame=  100 fps= 25\nvideo summary line\n";
    let settled = settle_streaming(
        ToolStatus { code: 0 },
        String::from(diagnostics),
        Ok(()),
    );
    assert!(!settled.release_workspace);
    let response = settled.response.unwrap();
    assert_eq!(response.stderr, diagnostics);
}

#[test]
fn streaming_tool_failure_wins_over_completed_transfer() {
    // The tool exited nonzero after emitting partial bytes: the
    // invocation fails with the diagnostics even though the transfer
    // task reported success.
    let settled = settle_streaming(
        ToolStatus { code: 1 },
        String::from("error while decoding"),
        Ok(()),
    );
    match settled.response {
        Err(InvocationError::Tool { tool, diagnostics }) => {
            assert_eq!(tool, "ffmpeg");
            assert_eq!(diagnostics, "error while decoding");
        }
        other => panic!("expected a tool failure, got {:?}", other),
    }
}

#[test]
fn streaming_transfer_failure_fails_successful_exit() {
    let settled = settle_streaming(
        ToolStatus { code: 0 },
        String::from("all fine"),
        Err(String::from("connection reset while closing writer")),
    );
    match settled.response {
        Err(InvocationError::Transfer { message, diagnostics }) => {
            assert_eq!(message, "connection reset while closing writer");
            assert_eq!(diagnostics, "all fine");
        }
        other => panic!("expected a transfer failure, got {:?}", other),
    }
}

#[test]
fn copy_gate_passes_diagnostics_on_success() {
    let gate = settle_copy_gate(ToolStatus { code: 0 }, String::from("ok run"));
    assert_eq!(gate.unwrap(), "ok run");
}

#[test]
fn copy_gate_fails_without_copying_and_releases_workspace() {
    let gate = settle_copy_gate(ToolStatus { code: 2 }, String::from("no such filter"));
    let settled = gate.unwrap_err();
    assert!(settled.release_workspace);
    match settled.response {
        Err(InvocationError::Tool { tool, diagnostics }) => {
            assert_eq!(tool, "ffmpeg");
            assert_eq!(diagnostics, "no such filter");
        }
        other => panic!("expected a tool failure, got {:?}", other),
    }
}

#[test]
fn copy_success_returns_diagnostics_and_releases_workspace() {
    let settled = settle_copy(String::from("copied run"), Ok(()));
    assert!(settled.release_workspace);
    assert_eq!(settled.response.unwrap().stderr, "copied run");
}

#[test]
fn copy_failure_releases_workspace_too() {
    let settled = settle_copy(
        String::from("fine run"),
        Err(String::from("bucket rejected write")),
    );
    assert!(settled.release_workspace);
    match settled.response {
        Err(InvocationError::Transfer { message, diagnostics }) => {
            assert_eq!(message, "bucket rejected write");
            assert_eq!(diagnostics, "fine run");
        }
        other => panic!("expected a transfer failure, got {:?}", other),
    }
}

#[test]
fn unknown_scheme_fails_before_spawn() {
    // No backend is registered for ftp: resolution fails immediately
    // and no plan — hence no spawned tool — exists.
    let registry = s3_registry();
    let req = request(&["-i", "input.mp4", "out.mp4"], "ftp://bucket/x");
    match plan_invocation(&registry, &req) {
        Err(InvocationError::Resolution { scheme }) => assert_eq!(scheme, "ftp"),
        other => panic!("expected a resolution failure, got {:?}", other),
    }
}

#[test]
fn spawn_failure_reports_message_and_workspace() {
    let settled = settle_spawn_failure(TransferMode::Copy, String::from("executable not found"));
    assert!(settled.release_workspace);
    match settled.response {
        Err(InvocationError::Spawn { message }) => assert_eq!(message, "executable not found"),
        other => panic!("expected a spawn failure, got {:?}", other),
    }
    let streaming = settle_spawn_failure(TransferMode::Streaming, String::from("denied"));
    assert!(!streaming.release_workspace);
}

#[test]
fn cleanup_failure_does_not_override_outcome() {
    let settled = settle_copy(String::from("done"), Ok(()));
    let absorbed = absorb_cleanup_failure(settled, false);
    assert_eq!(absorbed.response.unwrap().stderr, "done");
    assert!(!absorbed.release_workspace);
}

#[test]
fn error_messages_name_the_cause() {
    let transcode = InvocationError::Tool {
        tool: String::from("ffmpeg"),
        diagnostics: String::from("boom"),
    };
    assert_eq!(transcode.message(), "ffmpeg failed: boom");
    let inspect = InvocationError::Tool {
        tool: String::from("ffprobe"),
        diagnostics: String::from("bad input"),
    };
    assert_eq!(inspect.message(), "ffprobe failed: bad input");
    let resolution = InvocationError::Resolution { scheme: String::from("ftp") };
    assert_eq!(resolution.message(), "no storage backend for scheme: ftp");
    let spawn = InvocationError::Spawn { message: String::from("not found") };
    assert_eq!(spawn.message(), "failed to start tool: not found");
    let transfer = InvocationError::Transfer {
        message: String::from("reset"),
        diagnostics: String::from("log"),
    };
    assert_eq!(transfer.message(), "transfer failed: reset");
}

#[test]
fn streaming_sentinel_is_the_trailing_dash() {
    assert!(output_is_streaming(&strings(&["-i", "in.mp4", "-"])));
    assert!(!output_is_streaming(&strings(&["-i", "in.mp4", "out.mp4"])));
    assert!(!output_is_streaming(&strings(&["-", "out.mp4"])));
    assert!(!output_is_streaming(&strings(&[])));
}

#[test]
fn remote_paths_preserve_relative_structure() {
    assert_eq!(compose_remote_path("", "output.mp4"), "output.mp4");
    assert_eq!(compose_remote_path("exports", "output.mp4"), "exports/output.mp4");
    assert_eq!(compose_remote_path("exports/", "output.mp4"), "exports/output.mp4");
    assert_eq!(compose_remote_path("a/b", "c/d.bin"), "a/b/c/d.bin");
}

#[test]
fn copy_targets_pair_every_entry() {
    let entries = strings(&["output.mp4", "cover.png"]);
    let targets = copy_targets(&entries, "exports");
    assert_eq!(targets.len(), 2);
    assert_eq!(targets[0], (String::from("output.mp4"), String::from("exports/output.mp4")));
    assert_eq!(targets[1], (String::from("cover.png"), String::from("exports/cover.png")));
    // Zero entries are an empty transfer, not an error.
    assert_eq!(copy_targets(&Vec::new(), "exports").len(), 0);
}

#[test]
fn copy_verdict_aborts_on_first_failure() {
    let all_ok: Vec<Result<(), String>> = vec![Ok(()), Ok(())];
    assert!(copy_verdict(&all_ok).is_ok());
    let mixed: Vec<Result<(), String>> = vec![
        Ok(()),
        Err(String::from("entry two failed")),
        Err(String::from("entry three failed")),
    ];
    assert_eq!(copy_verdict(&mixed).unwrap_err(), "entry two failed");
    let empty: Vec<Result<(), String>> = Vec::new();
    assert!(copy_verdict(&empty).is_ok());
}

#[test]
fn probe_arguments_follow_request_flags() {
    let both = FfprobeRequest {
        input: String::from("https://example.org/movie.mov"),
        show_format: true,
        show_streams: true,
    };
    assert_eq!(
        ffprobe_args(&both),
        strings(&[
            "-v",
            "quiet",
            "-print_format",
            "json",
            "-show_format",
            "-show_streams",
            "https://example.org/movie.mov",
        ])
    );
    let neither = FfprobeRequest {
        input: String::from("in.mp4"),
        show_format: false,
        show_streams: false,
    };
    assert_eq!(ffprobe_args(&neither), strings(&["-v", "quiet", "-print_format", "json", "in.mp4"]));
}

#[test]
fn example_values_are_the_documented_ones() {
    let req = example_ffmpeg_request();
    assert_eq!(req.args, strings(&["-i", "input.mp4", "-vf", "scale=-1:720", "output.mp4"]));
    assert_eq!(req.output.location.scheme, "s3");
    assert_eq!(req.output.location.authority, "bucket");
    assert_eq!(req.output.location.path, "");
    assert_eq!(example_ffmpeg_response().stderr, "");
    let probe = example_ffprobe_request();
    assert!(probe.show_format && probe.show_streams);
    assert!(probe.input.starts_with("https://download.blender.org/"));
    let resp = example_ffprobe_response();
    assert!(resp.format.is_none() && resp.streams.is_none());
}

#[test]
fn probe_gate_follows_exit_status() {
    assert!(probe_gate(ToolStatus { code: 0 }, String::from("")).is_ok());
    match probe_gate(ToolStatus { code: 1 }, String::from("could not open")) {
        Err(e) => {
            match &e {
                InvocationError::Tool { tool, diagnostics } => {
                    assert_eq!(tool, "ffprobe");
                    assert_eq!(diagnostics, "could not open");
                }
                other => panic!("expected a tool failure, got {:?}", other),
            }
            // A failed inspection names its own tool, not the transcoder.
            assert_eq!(e.message(), "ffprobe failed: could not open");
        }
        Ok(()) => panic!("expected a tool failure, got success"),
    }
}
