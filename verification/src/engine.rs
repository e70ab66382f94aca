//! The invocation engine: planning one run of the external tool and
//! judging the joined results of its concurrent tasks.
//!
//! An invocation follows one of two delivery paths, decided once at
//! planning time. On the streaming path the tool's primary output stream
//! is copied live to the destination while the process runs; on the copy
//! path the tool writes files into a scratch workspace whose contents are
//! copied out after a successful exit. The unverified shell performs the
//! spawning, the pipe draining and the transfers, and feeds what it saw
//! into the settle functions below, which alone decide the outcome.
use vstd::prelude::*;

use crate::descriptor::backend_key_spec;
use crate::descriptor::Registry;
use crate::request::FfmpegRequest;
use crate::request::FfmpegResponse;
use crate::request::FfprobeRequest;
use crate::text::str_eq;

verus! {

/// Exit report of one run of the external tool: a numeric status where
/// zero means success.
#[derive(Clone, Copy, PartialEq, Eq, Structural, Debug)]
pub struct ToolStatus {
    pub code: i32,
}

impl ToolStatus {
    /// The tool reports success exactly when its exit code is zero.
    pub open spec fn is_success(self) -> bool {
        self.code == 0
    }

    pub fn success(&self) -> (r: bool)
        ensures
            r == self.is_success(),
    {
        self.code == 0
    }
}

/// Why an invocation failed. Every variant carries what the caller needs
/// to see: the tool's diagnostic text where any was captured by the time
/// the failure was decided.
#[derive(Clone, Debug)]
pub enum InvocationError {
    /// The executable could not be started; nothing was transferred.
    Spawn { message: String },
    /// A tool exited nonzero; which one, and its full diagnostic text.
    Tool { tool: String, diagnostics: String },
    /// No storage backend is registered for the destination's scheme;
    /// detected before the tool is spawned.
    Resolution { scheme: String },
    /// Writing to or closing the destination failed, or the bulk copy
    /// failed; carries the underlying cause and the diagnostics.
    Transfer { message: String, diagnostics: String },
}

impl InvocationError {
    /// Human-readable account of the failure.
    pub open spec fn message_spec(self) -> Seq<char> {
        match self {
            InvocationError::Spawn { message } => "failed to start tool: "@ + message@,
            InvocationError::Tool { tool, diagnostics } => tool@ + " failed: "@ + diagnostics@,
            InvocationError::Resolution { scheme } => "no storage backend for scheme: "@
                + scheme@,
            InvocationError::Transfer { message, diagnostics } => "transfer failed: "@
                + message@,
        }
    }

    pub fn message(&self) -> (r: String)
        ensures
            r@ == self.message_spec(),
    {
        match self {
            InvocationError::Spawn { message } => {
                let mut s = "failed to start tool: ".to_owned();
                s.append(message.as_str());
                s
            },
            InvocationError::Tool { tool, diagnostics } => {
                let mut s = tool.clone();
                s.append(" failed: ");
                s.append(diagnostics.as_str());
                s
            },
            InvocationError::Resolution { scheme } => {
                let mut s = "no storage backend for scheme: ".to_owned();
                s.append(scheme.as_str());
                s
            },
            InvocationError::Transfer { message, diagnostics: _ } => {
                let mut s = "transfer failed: ".to_owned();
                s.append(message.as_str());
                s
            },
        }
    }
}

/// How the tool's result leaves the invocation: live from its primary
/// output stream, or gathered from the scratch workspace after exit.
#[derive(Clone, Copy, PartialEq, Eq, Structural, Debug)]
pub enum TransferMode {
    Streaming,
    Copy,
}

/// Everything decided before the tool is spawned: the delivery path, the
/// resolved backend key and relative path, and the full argument vector.
#[derive(Clone, Debug)]
pub struct Plan {
    pub mode: TransferMode,
    pub backend_key: String,
    pub relative_path: String,
    pub argv: Vec<String>,
}

/// The caller asks for the streaming path by ending the argument list
/// with the output sentinel `-`.
pub open spec fn streaming_requested(args: Seq<String>) -> bool {
    args.len() > 0 && args.last()@ == seq!['-']
}

/// Decides the delivery path from the request's argument list.
pub fn output_is_streaming(args: &Vec<String>) -> (r: bool)
    ensures
        r == streaming_requested(args@),
{
    if args.len() == 0 {
        return false;
    }
    proof {
        reveal_strlit("-");
        assert("-"@ =~= seq!['-']);
    }
    str_eq(args[args.len() - 1].as_str(), "-")
}

/// Prepends the fixed non-interactive safety flags — no prompting, force
/// overwrite — to the caller's arguments, which follow verbatim.
pub fn command_args(args: &Vec<String>) -> (r: Vec<String>)
    ensures
        r@.len() == args@.len() + 2,
        r@[0]@ == "-nostdin"@,
        r@[1]@ == "-y"@,
        forall|i: int| 0 <= i < args@.len() ==> r@[i + 2] == args@[i],
{
    let mut v: Vec<String> = Vec::new();
    v.push("-nostdin".to_owned());
    v.push("-y".to_owned());
    let mut i: usize = 0;
    while i < args.len()
        invariant
            i <= args@.len(),
            v@.len() == i + 2,
            v@[0]@ == "-nostdin"@,
            v@[1]@ == "-y"@,
            forall|k: int| 0 <= k < i ==> v@[k + 2] == args@[k],
        decreases args@.len() - i,
    {
        v.push(args[i].clone());
        i += 1;
    }
    v
}

/// What a plan promises about the request it was made from.
pub open spec fn plan_matches(req: FfmpegRequest, p: Plan) -> bool {
    &&& p.mode == (if streaming_requested(req.args@) {
        TransferMode::Streaming
    } else {
        TransferMode::Copy
    })
    &&& p.backend_key@ == backend_key_spec(req.output.location)
    &&& p.relative_path@ == req.output.location.path@
    &&& p.argv@.len() == req.args@.len() + 2
    &&& p.argv@[0]@ == "-nostdin"@
    &&& p.argv@[1]@ == "-y"@
    &&& forall|i: int| 0 <= i < req.args@.len() ==> p.argv@[i + 2] == req.args@[i]
}

/// Law: the delivery path, the resolved destination and the argument
/// vector are decided once, by the request alone — any two plans made
/// from the same request agree on all of them.
pub proof fn lemma_plan_decided_once(req: FfmpegRequest, p1: Plan, p2: Plan)
    requires
        plan_matches(req, p1),
        plan_matches(req, p2),
    ensures
        p1.mode == p2.mode,
        p1.backend_key@ == p2.backend_key@,
        p1.relative_path@ == p2.relative_path@,
        p1.argv@.len() == p2.argv@.len(),
        forall|i: int| 0 <= i < p1.argv@.len() ==> p1.argv@[i]@ == p2.argv@[i]@,
{
    assert forall|i: int| 0 <= i < p1.argv@.len() implies p1.argv@[i]@ == p2.argv@[i]@ by {
        if 2 <= i {
            assert(p1.argv@[i] == req.args@[i - 2]);
            assert(p2.argv@[i] == req.args@[i - 2]);
        }
    }
}

/// Plans one invocation: resolves the destination and fixes the delivery
/// path and argument vector. Fails — before any tool is spawned — exactly
/// when no backend is registered for the destination's scheme.
pub fn plan_invocation(registry: &Registry, req: &FfmpegRequest) -> (r: Result<
    Plan,
    InvocationError,
>)
    ensures
        r is Ok <==> registry.registers(req.output.location.scheme@),
        r matches Ok(p) ==> plan_matches(*req, p),
        r matches Err(e) ==> (e matches InvocationError::Resolution { scheme } && scheme@
            == req.output.location.scheme@),
{
    if !registry.is_registered(req.output.location.scheme.as_str()) {
        return Err(InvocationError::Resolution { scheme: req.output.location.scheme.clone() });
    }
    let (backend_key, relative_path) = req.output.location.split();
    let mode = if output_is_streaming(&req.args) {
        TransferMode::Streaming
    } else {
        TransferMode::Copy
    };
    let argv = command_args(&req.args);
    Ok(Plan { mode, backend_key, relative_path, argv })
}

/// A finished invocation: what the caller is told, and whether a scratch
/// workspace now has to be released. The shell removes the workspace
/// exactly when `release_workspace` says so.
#[derive(Debug)]
pub struct Settled {
    pub response: Result<FfmpegResponse, InvocationError>,
    pub release_workspace: bool,
}

/// The outcome rule of the streaming path, applied to the results of the
/// three-way join (process exit, diagnostic drain, payload transfer):
/// a nonzero exit fails the invocation with the full diagnostics whatever
/// the transfer did; a zero exit takes the transfer's own result.
pub open spec fn streaming_verdict(
    status: ToolStatus,
    diagnostics: String,
    transfer: Result<(), String>,
    r: Result<FfmpegResponse, InvocationError>,
) -> bool {
    if !status.is_success() {
        match r {
            Err(InvocationError::Tool { tool, diagnostics: d }) => tool@ == "ffmpeg"@ && d@
                == diagnostics@,
            _ => false,
        }
    } else {
        match (transfer, r) {
            (Ok(()), Ok(resp)) => resp.stderr@ == diagnostics@,
            (Err(m), Err(InvocationError::Transfer { message, diagnostics: d })) => message@ == m@
                && d@ == diagnostics@,
            _ => false,
        }
    }
}

/// Settles a streaming-path invocation from the joined task results.
/// No scratch workspace exists on this path, so none is released.
pub fn settle_streaming(
    status: ToolStatus,
    diagnostics: String,
    transfer: Result<(), String>,
) -> (s: Settled)
    ensures
        streaming_verdict(status, diagnostics, transfer, s.response),
        !s.release_workspace,
{
    if !status.success() {
        Settled {
            response: Err(
                InvocationError::Tool { tool: "ffmpeg".to_owned(), diagnostics },
            ),
            release_workspace: false,
        }
    } else {
        match transfer {
            Ok(()) => Settled {
                response: Ok(FfmpegResponse { stderr: diagnostics }),
                release_workspace: false,
            },
            Err(m) => Settled {
                response: Err(InvocationError::Transfer { message: m, diagnostics }),
                release_workspace: false,
            },
        }
    }
}

/// Judgment of the copy path's two-way join: a nonzero exit ends the
/// invocation at once — the workspace contents are not trustworthy and
/// no copy is attempted — while a zero exit hands the diagnostics on to
/// the copy stage.
pub open spec fn copy_gate_verdict(
    status: ToolStatus,
    diagnostics: String,
    r: Result<String, Settled>,
) -> bool {
    match r {
        Ok(d) => status.is_success() && d@ == diagnostics@,
        Err(s) => !status.is_success() && s.release_workspace && match s.response {
            Err(InvocationError::Tool { tool, diagnostics: d }) => tool@ == "ffmpeg"@ && d@
                == diagnostics@,
            _ => false,
        },
    }
}

/// Applies the copy-path gate. `Ok` carries the diagnostics on to the
/// copy stage; `Err` is the settled invocation, its workspace due for
/// release.
pub fn settle_copy_gate(status: ToolStatus, diagnostics: String) -> (r: Result<String, Settled>)
    ensures
        copy_gate_verdict(status, diagnostics, r),
{
    if status.success() {
        Ok(diagnostics)
    } else {
        Err(
            Settled {
                response: Err(InvocationError::Tool { tool: "ffmpeg".to_owned(), diagnostics }),
                release_workspace: true,
            },
        )
    }
}

/// The ending of a copy path whose gate passed: the bulk copy's result
/// decides, and the workspace is released either way.
pub open spec fn copy_end_verdict(
    diagnostics: String,
    copy_result: Result<(), String>,
    s: Settled,
) -> bool {
    &&& s.release_workspace
    &&& match (copy_result, s.response) {
        (Ok(()), Ok(resp)) => resp.stderr@ == diagnostics@,
        (Err(m), Err(InvocationError::Transfer { message, diagnostics: d })) => message@ == m@
            && d@ == diagnostics@,
        _ => false,
    }
}

/// Settles a copy-path invocation whose gate passed, from the bulk
/// copy's result.
pub fn settle_copy(diagnostics: String, copy_result: Result<(), String>) -> (s: Settled)
    ensures
        copy_end_verdict(diagnostics, copy_result, s),
{
    match copy_result {
        Ok(()) => Settled {
            response: Ok(FfmpegResponse { stderr: diagnostics }),
            release_workspace: true,
        },
        Err(m) => Settled {
            response: Err(InvocationError::Transfer { message: m, diagnostics }),
            release_workspace: true,
        },
    }
}

/// Settles an invocation whose tool could not be spawned: fatal, no
/// transfer is attempted, and the workspace — created only on the copy
/// path — is released if it exists.
pub fn settle_spawn_failure(mode: TransferMode, message: String) -> (s: Settled)
    ensures
        s.response matches Err(InvocationError::Spawn { message: m }) && m@ == message@,
        s.release_workspace == (mode is Copy),
{
    let release = match mode {
        TransferMode::Streaming => false,
        TransferMode::Copy => true,
    };
    Settled { response: Err(InvocationError::Spawn { message }), release_workspace: release }
}

/// A workspace-removal error is logged and never overrides the settled
/// outcome, successful or failed.
pub fn absorb_cleanup_failure(s: Settled, _cleanup_ok: bool) -> (r: Settled)
    ensures
        r.response == s.response,
        !r.release_workspace,
{
    Settled { response: s.response, release_workspace: false }
}

/// Law: on every successful streaming invocation the returned diagnostic
/// text is exactly what was captured — complete, never truncated.
pub proof fn lemma_streaming_diagnostics_complete(
    status: ToolStatus,
    diagnostics: String,
    transfer: Result<(), String>,
    r: Result<FfmpegResponse, InvocationError>,
)
    requires
        streaming_verdict(status, diagnostics, transfer, r),
        r is Ok,
    ensures
        r matches Ok(resp) && resp.stderr@ == diagnostics@,
{
}

/// Law: on every successful copy-path invocation the returned diagnostic
/// text is exactly what was captured — complete, never truncated.
pub proof fn lemma_copy_diagnostics_complete(
    diagnostics: String,
    copy_result: Result<(), String>,
    s: Settled,
)
    requires
        copy_end_verdict(diagnostics, copy_result, s),
        s.response is Ok,
    ensures
        s.response matches Ok(resp) && resp.stderr@ == diagnostics@,
{
}

/// Law: a tool that exits nonzero fails the invocation with its full
/// diagnostics attached, whatever the payload transfer reported — bytes
/// already written at the destination are never presented as a committed
/// result.
pub proof fn lemma_tool_failure_supersedes_transfer(
    status: ToolStatus,
    diagnostics: String,
    transfer: Result<(), String>,
    r: Result<FfmpegResponse, InvocationError>,
)
    requires
        streaming_verdict(status, diagnostics, transfer, r),
        !status.is_success(),
    ensures
        r matches Err(InvocationError::Tool { tool, diagnostics: d }) && tool@ == "ffmpeg"@ && d@
            == diagnostics@,
{
}

/// Law: on the copy path a tool that exits nonzero ends the invocation
/// before any copy stage is reached — the invocation fails with the full
/// diagnostics and the unreliable workspace contents are never
/// transferred.
pub proof fn lemma_tool_failure_skips_copy(
    status: ToolStatus,
    diagnostics: String,
    gate: Result<String, Settled>,
)
    requires
        copy_gate_verdict(status, diagnostics, gate),
        !status.is_success(),
    ensures
        gate matches Err(s) && (s.response matches Err(InvocationError::Tool {
            tool,
            diagnostics: d,
        }) && tool@ == "ffmpeg"@ && d@ == diagnostics@),
{
}

/// Law: every ending of a copy-path invocation — tool failure at the
/// gate, copy failure, or success — releases the scratch workspace.
pub proof fn lemma_copy_path_releases_workspace(
    status: ToolStatus,
    diagnostics: String,
    gate: Result<String, Settled>,
    copy_result: Result<(), String>,
    end: Settled,
)
    requires
        copy_gate_verdict(status, diagnostics, gate),
        gate matches Ok(d) ==> copy_end_verdict(d, copy_result, end),
        gate matches Err(s) ==> end == s,
    ensures
        end.release_workspace,
{
}

/// Assembles the inspection tool's argument vector: quiet, structured
/// output, the requested record sections, then the input.
pub open spec fn probe_argv(req: FfprobeRequest) -> Seq<Seq<char>> {
    let base = seq!["-v"@, "quiet"@, "-print_format"@, "json"@];
    let with_format = if req.show_format {
        base.push("-show_format"@)
    } else {
        base
    };
    let with_streams = if req.show_streams {
        with_format.push("-show_streams"@)
    } else {
        with_format
    };
    with_streams.push(req.input@)
}

/// Builds the inspection tool's argument vector for a request.
pub fn ffprobe_args(req: &FfprobeRequest) -> (r: Vec<String>)
    ensures
        r@.map_values(|s: String| s@) == probe_argv(*req),
{
    let mut v: Vec<String> = Vec::new();
    v.push("-v".to_owned());
    v.push("quiet".to_owned());
    v.push("-print_format".to_owned());
    v.push("json".to_owned());
    if req.show_format {
        v.push("-show_format".to_owned());
    }
    if req.show_streams {
        v.push("-show_streams".to_owned());
    }
    v.push(req.input.clone());
    proof {
        assert(v@.map_values(|s: String| s@) =~= probe_argv(*req));
    }
    v
}

/// Judgment of an inspection's exit: nonzero fails with the diagnostic
/// text, zero hands the tool's structured output on to be decoded.
pub fn probe_gate(status: ToolStatus, diagnostics: String) -> (r: Result<(), InvocationError>)
    ensures
        status.is_success() <==> r is Ok,
        r matches Err(e) ==> (e matches InvocationError::Tool { tool, diagnostics: d } && tool@
            == "ffprobe"@ && d@ == diagnostics@),
{
    if status.success() {
        Ok(())
    } else {
        Err(InvocationError::Tool { tool: "ffprobe".to_owned(), diagnostics })
    }
}

} // verus!
