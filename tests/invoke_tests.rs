use stellar_backend::invoke::{invoke_outcome, marshal_args, plan_invoke, CallArgs, JsonArg};
use stellar_backend::models::{CoreError, InvokeValue, ProcessOutput};

const HASH: &str = "0123456789abcdef0123456789abcdef0123456789abcdef0123456789abcdef";

fn out(code: Option<i32>, stdout: &str, stderr: &str) -> ProcessOutput {
    ProcessOutput { exit_code: code, stdout: stdout.to_string(), stderr: stderr.to_string() }
}

#[test]
fn named_args_become_flags_in_order() {
    let args = CallArgs::Named(vec![
        ("amount".to_string(), JsonArg::Number("42".to_string())),
        ("to".to_string(), JsonArg::Text("GABC".to_string())),
    ]);
    assert_eq!(marshal_args(&args), vec!["--amount", "42", "--to", "GABC"]);
}

#[test]
fn positional_args_become_tokens() {
    let args = CallArgs::Positional(vec![
        JsonArg::Text("x".to_string()),
        JsonArg::Text("y".to_string()),
    ]);
    assert_eq!(marshal_args(&args), vec!["x", "y"]);
}

#[test]
fn scalar_and_compound_tokens() {
    let args = CallArgs::Named(vec![
        ("flag".to_string(), JsonArg::Bool(true)),
        ("off".to_string(), JsonArg::Bool(false)),
        ("none".to_string(), JsonArg::Null),
        ("list".to_string(), JsonArg::Compound("[1,2]".to_string())),
    ]);
    assert_eq!(
        marshal_args(&args),
        vec!["--flag", "true", "--off", "false", "--none", "null", "--list", "[1,2]"]
    );
    assert!(marshal_args(&CallArgs::Absent).is_empty());
}

fn some(s: &str) -> Option<String> {
    Some(s.to_string())
}

#[test]
fn view_call_simulates_without_verbose() {
    let args = CallArgs::Positional(vec![]);
    let plan = plan_invoke("CID", "get_count", &args, "view", None, some("SKEY"), some("http://rpc"), some("pass"))
        .ok()
        .unwrap();
    assert!(plan.simulate);
    assert_eq!(plan.command.program, "stellar");
    assert_eq!(
        plan.command.args,
        vec![
            "contract", "invoke", "--id", "CID", "--source", "SKEY", "--rpc-url", "http://rpc",
            "--network-passphrase", "pass", "--send", "no", "--", "get_count"
        ]
    );
}

#[test]
fn submitted_call_is_verbose_and_prefers_explicit_account() {
    let args = CallArgs::Named(vec![("n".to_string(), JsonArg::Number("3".to_string()))]);
    let plan = plan_invoke("CID", "set_count", &args, "call", some("MINE"), some("SKEY"), some("r"), some("p"))
        .ok()
        .unwrap();
    assert!(!plan.simulate);
    assert_eq!(
        plan.command.args,
        vec![
            "contract", "invoke", "--id", "CID", "--source", "MINE", "--rpc-url", "r",
            "--network-passphrase", "p", "--send", "yes", "--verbose", "--", "set_count", "--n", "3"
        ]
    );
}

#[test]
fn missing_configuration_is_config_error() {
    let args = CallArgs::Absent;
    assert!(matches!(plan_invoke("C", "m", &args, "view", None, some("S"), None, some("p")), Err(CoreError::Config(_))));
    assert!(matches!(plan_invoke("C", "m", &args, "view", None, some("S"), some("r"), None), Err(CoreError::Config(_))));
    assert!(matches!(plan_invoke("C", "m", &args, "view", None, None, some("r"), some("p")), Err(CoreError::Config(_))));
}

#[test]
fn view_outcome_has_no_hash_even_when_stderr_has_one() {
    let stderr = format!("Signing transaction: {}", HASH);
    let r = invoke_outcome(true, &out(Some(0), "5\n", &stderr));
    assert!(r.success);
    assert!(r.transaction_hash.is_none());
    assert!(matches!(r.result, Some(InvokeValue::Json(_))));
    assert_eq!(r.raw_output, Some("5\n".to_string()));
}

#[test]
fn submitted_outcome_carries_hash() {
    let stderr = format!("Signing transaction: {}", HASH);
    let r = invoke_outcome(false, &out(Some(0), "\"ok\"", &stderr));
    assert!(r.success);
    assert_eq!(r.transaction_hash, Some(HASH.to_string()));
}

#[test]
fn submitted_outcome_without_hash_still_succeeds() {
    let r = invoke_outcome(false, &out(Some(0), "1", "nothing here"));
    assert!(r.success);
    assert!(r.transaction_hash.is_none());
}

#[test]
fn non_json_output_is_kept_as_trimmed_text() {
    let r = invoke_outcome(true, &out(Some(0), "  hello world \n", ""));
    match r.result {
        Some(InvokeValue::Text(t)) => assert_eq!(t, "hello world"),
        _ => panic!("expected text"),
    }
}

#[test]
fn failed_call_is_reported_not_raised() {
    let r = invoke_outcome(false, &out(Some(1), "", "error: no such method"));
    assert!(!r.success);
    assert!(r.result.is_none());
    assert!(r.transaction_hash.is_none());
    assert_eq!(r.error, Some("error: no such method".to_string()));
    assert_eq!(r.raw_output, Some("error: no such method".to_string()));
}
