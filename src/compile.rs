//! Compile orchestration: the commands that prepare and run a build, the
//! optional interface-description step, and the report handed back.
use vstd::prelude::*;

use crate::json::{is_json_text, parse_json};
use crate::models::{push_lit, text, views, Command, CompileDetails, CompileResponse, ProcessOutput};

verus! {

/// `program args...` in the current directory.
pub open spec fn is_command(c: Command, program: Seq<char>, args: Seq<Seq<char>>) -> bool {
    c.program@ == program && views(c.args@) == args && c.working_dir is None
}

/// The best-effort commands that install the compilation targets, in order.
pub fn prerequisite_commands() -> (r: Vec<Command>)
    ensures
        r.len() == 2,
        is_command(r[0], "rustup"@, seq!["target"@, "add"@, "wasm32v1-none"@]),
        is_command(r[1], "rustup"@, seq!["target"@, "add"@, "wasm32-unknown-unknown"@]),
{
    let mut first: Vec<String> = Vec::new();
    push_lit(&mut first, "target");
    push_lit(&mut first, "add");
    push_lit(&mut first, "wasm32v1-none");
    let mut second: Vec<String> = Vec::new();
    push_lit(&mut second, "target");
    push_lit(&mut second, "add");
    push_lit(&mut second, "wasm32-unknown-unknown");
    assert(views(first@) =~= seq!["target"@, "add"@, "wasm32v1-none"@]);
    assert(views(second@) =~= seq!["target"@, "add"@, "wasm32-unknown-unknown"@]);
    let mut r: Vec<Command> = Vec::new();
    r.push(Command { program: text("rustup"), args: first, working_dir: None });
    r.push(Command { program: text("rustup"), args: second, working_dir: None });
    r
}

/// The build command, run inside the project directory.
pub fn build_command(project_dir: &str) -> (r: Command)
    ensures
        r.program@ == "stellar"@,
        views(r.args@) == seq!["contract"@, "build"@],
        r.working_dir matches Some(d) && d@ == project_dir@,
{
    let mut a: Vec<String> = Vec::new();
    push_lit(&mut a, "contract");
    push_lit(&mut a, "build");
    assert(views(a@) =~= seq!["contract"@, "build"@]);
    Command { program: text("stellar"), args: a, working_dir: Some(text(project_dir)) }
}

/// The command that derives the interface description of a built artifact.
pub fn bindings_command(wasm_path: &str) -> (r: Command)
    ensures
        is_command(r, "stellar"@, seq!["contract"@, "bindings"@, "json"@, "--wasm"@, wasm_path@]),
{
    let mut a: Vec<String> = Vec::new();
    push_lit(&mut a, "contract");
    push_lit(&mut a, "bindings");
    push_lit(&mut a, "json");
    push_lit(&mut a, "--wasm");
    push_lit(&mut a, wasm_path);
    assert(views(a@) =~= seq!["contract"@, "bindings"@, "json"@, "--wasm"@, wasm_path@]);
    Command { program: text("stellar"), args: a, working_dir: None }
}

/// The interface description from the bindings command: its stdout as JSON
/// when it succeeded and printed a JSON document, none otherwise.
pub fn contract_spec(out: &ProcessOutput) -> (r: Option<serde_json::Value>)
    ensures
        r is Some <==> out.succeeded() && is_json_text(out.stdout@),
{
    if out.success() {
        parse_json(out.stdout.as_str())
    } else {
        None
    }
}

/// The build report. Success is the build command's exit status alone; an
/// exit without a code is reported as `-1`.
pub fn compile_response(
    build: ProcessOutput,
    compilation_millis: u64,
    project_path: String,
    wasm_size: Option<u64>,
    spec: Option<serde_json::Value>,
) -> (r: CompileResponse)
    ensures
        r.success == build.succeeded(),
        r.exit_code == (match build.exit_code {
            Some(c) => c,
            None => -1i32,
        }),
        r.stdout@ == build.stdout@,
        r.stderr@ == build.stderr@,
        r.details.status@ == (if build.succeeded() {
            "success"@
        } else {
            "failed"@
        }),
        r.details.compilation_millis == compilation_millis,
        r.details.project_path@ == project_path@,
        r.details.wasm_size == wasm_size,
        r.details.optimized,
        r.spec == spec,
{
    let success = build.success();
    let exit_code: i32 = match build.exit_code {
        Some(c) => c,
        None => -1,
    };
    let status = if success {
        text("success")
    } else {
        text("failed")
    };
    CompileResponse {
        success,
        exit_code,
        stdout: build.stdout,
        stderr: build.stderr,
        details: CompileDetails {
            status,
            compilation_millis,
            project_path,
            wasm_size,
            optimized: true,
        },
        spec,
    }
}

} // verus!
