use stellar_backend::compile::{bindings_command, build_command, compile_response, contract_spec, prerequisite_commands};
use stellar_backend::models::{ApiResponse, ProcessOutput};
use stellar_backend::workspace::{
    copy_from_template, entry_path, plan_setup, project_dir, release_dir, source_path, SetupStep,
};

#[test]
fn project_layout() {
    let dir = project_dir("alice", "proj1");
    assert_eq!(dir, "projects/alice/proj1");
    assert_eq!(source_path(&dir), "projects/alice/proj1/contracts/hello-world/src/lib.rs");
    assert_eq!(release_dir(&dir), "projects/alice/proj1/target/wasm32v1-none/release");
    assert_eq!(entry_path("a/b", "c.wasm"), "a/b/c.wasm");
}

#[test]
fn template_copy_skips_build_output_and_vcs() {
    assert!(!copy_from_template("target", true));
    assert!(!copy_from_template(".git", true));
    assert!(copy_from_template("target", false));
    assert!(copy_from_template("contracts", true));
}

#[test]
fn new_project_is_copied_then_written() {
    let steps = plan_setup(false);
    assert_eq!(steps.len(), 3);
    assert!(matches!(steps[0], SetupStep::CreateUserDir));
    assert!(matches!(steps[1], SetupStep::CopyTemplate));
    assert!(matches!(steps[2], SetupStep::WriteSource));
}

#[test]
fn existing_project_is_only_written() {
    let steps = plan_setup(true);
    assert_eq!(steps.len(), 1);
    assert!(matches!(steps[0], SetupStep::WriteSource));
}

#[test]
fn build_commands() {
    let pre = prerequisite_commands();
    assert_eq!(pre[0].program, "rustup");
    assert_eq!(pre[0].args, vec!["target", "add", "wasm32v1-none"]);
    assert_eq!(pre[1].args, vec!["target", "add", "wasm32-unknown-unknown"]);
    let b = build_command("projects/u/p");
    assert_eq!(b.args, vec!["contract", "build"]);
    assert_eq!(b.working_dir, Some("projects/u/p".to_string()));
    let s = bindings_command("x.wasm");
    assert_eq!(s.args, vec!["contract", "bindings", "json", "--wasm", "x.wasm"]);
}

fn out(code: Option<i32>, stdout: &str) -> ProcessOutput {
    ProcessOutput { exit_code: code, stdout: stdout.to_string(), stderr: String::new() }
}

#[test]
fn spec_needs_success_and_json() {
    assert!(contract_spec(&out(Some(0), "[{\"name\":\"get_count\"}]")).is_some());
    assert!(contract_spec(&out(Some(0), "not json")).is_none());
    assert!(contract_spec(&out(Some(1), "[]")).is_none());
}

#[test]
fn failed_build_is_reported() {
    let r = compile_response(out(None, "log"), 12, "projects/u/p".to_string(), None, None);
    assert!(!r.success);
    assert_eq!(r.exit_code, -1);
    assert_eq!(r.details.status, "failed");
    assert_eq!(r.details.compilation_millis, 12);
    assert!(r.details.optimized);
}

#[test]
fn api_envelopes() {
    let ok = ApiResponse::success(5u32);
    assert!(ok.success);
    assert_eq!(ok.message, "Success");
    assert_eq!(ok.data, Some(5));
    let err = ApiResponse::<()>::error("DEPLOYMENT_ERROR", "Failed to deploy contract", Some("x".to_string()));
    assert!(!err.success);
    let e = err.error.unwrap();
    assert_eq!(e.code, "DEPLOYMENT_ERROR");
    assert_eq!(e.message, "Failed to deploy contract");
    assert_eq!(e.details, Some("x".to_string()));
}
