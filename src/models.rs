//! Requests taken and results handed back by the core, the response envelope,
//! the error taxonomy and the outcome of one external command.
use vstd::prelude::*;

use crate::invoke::CallArgs;

verus! {

/// Compile `code` into the project `(user_id, project_id)`.
pub struct CompileRequest {
    pub user_id: String,
    pub project_id: String,
    pub code: String,
}

/// Deploy the artifact last built in the project `(user_id, project_id)`.
pub struct DeployRequest {
    pub user_id: String,
    pub project_id: String,
    pub account_secret: Option<String>,
}

/// Call `method_name` on a deployed contract.
pub struct InvokeRequest {
    pub contract_id: String,
    pub method_name: String,
    pub args: CallArgs,
    /// `"view"` simulates the call; anything else submits a transaction.
    pub method_type: String,
    pub source_account: Option<String>,
}

/// The envelope around every answer.
pub struct ApiResponse<T> {
    pub success: bool,
    pub message: String,
    pub data: Option<T>,
    pub error: Option<ApiError>,
}

/// A structured error with a stable code.
pub struct ApiError {
    pub code: String,
    pub message: String,
    pub details: Option<String>,
}

impl<T> ApiResponse<T> {
    /// A successful envelope around `data`.
    pub fn success(data: T) -> (r: Self)
        ensures
            r.success,
            r.message@ == "Success"@,
            r.data == Some(data),
            r.error is None,
    {
        ApiResponse { success: true, message: String::from_str("Success"), data: Some(data), error: None }
    }

    /// A failed envelope carrying `code`, `message` and optional details.
    pub fn error(code: &str, message: &str, details: Option<String>) -> (r: ApiResponse<()>)
        ensures
            !r.success,
            r.message@ == message@,
            r.data is None,
            r.error matches Some(e) && e.code@ == code@ && e.message@ == message@ && e.details
                == details,
    {
        ApiResponse {
            success: false,
            message: String::from_str(message),
            data: None,
            error: Some(
                ApiError {
                    code: String::from_str(code),
                    message: String::from_str(message),
                    details,
                },
            ),
        }
    }
}

/// What the core reports after a build.
pub struct CompileResponse {
    pub success: bool,
    pub exit_code: i32,
    pub stdout: String,
    pub stderr: String,
    pub details: CompileDetails,
    /// The contract's interface description, when it could be derived.
    pub spec: Option<serde_json::Value>,
}

pub struct CompileDetails {
    /// `"success"` or `"failed"`.
    pub status: String,
    /// Wall-clock time of the build command, in milliseconds.
    pub compilation_millis: u64,
    pub project_path: String,
    pub wasm_size: Option<u64>,
    pub optimized: bool,
}

/// What the core reports after a deployment.
pub struct DeployResponse {
    pub success: bool,
    pub transaction_hash: String,
    pub contract_id: String,
    pub explorer_url: String,
    pub fee: Option<String>,
    pub proof_tx_hash: Option<String>,
    pub details: DeployDetails,
}

pub struct DeployDetails {
    pub network: String,
    pub ledger_sequence: u32,
    /// Seconds since the Unix epoch, UTC.
    pub timestamp: i64,
    pub deployer_address: String,
}

/// The value a successful call returned.
pub enum InvokeValue {
    /// The call printed a JSON document.
    Json(serde_json::Value),
    /// The call printed something else: its trimmed text.
    Text(String),
}

/// What the core reports after a contract call.
pub struct InvokeResponse {
    pub success: bool,
    pub result: Option<InvokeValue>,
    pub transaction_hash: Option<String>,
    pub logs: Vec<String>,
    pub fee: Option<String>,
    pub error: Option<String>,
    pub raw_output: Option<String>,
}

/// Why an operation was abandoned.
pub enum CoreError {
    /// A required configuration value is missing.
    Config(String),
    /// The project or its build artifact does not exist.
    NotFound(String),
    /// The external executable could not be started.
    Spawn(String),
    /// The workspace could not be provisioned.
    Workspace(String),
    /// The external command exited unsuccessfully; its stderr.
    Toolchain(String),
    /// An expected identifier or hash could not be recovered from the output.
    Extraction(String),
}

/// An external command to run: the program, its arguments, and the directory
/// to run it in (the current one when absent).
pub struct Command {
    pub program: String,
    pub args: Vec<String>,
    pub working_dir: Option<String>,
}

/// What a finished external command left behind.
pub struct ProcessOutput {
    /// The exit code; absent when the process was ended by a signal.
    pub exit_code: Option<i32>,
    pub stdout: String,
    pub stderr: String,
}

impl ProcessOutput {
    pub open spec fn succeeded(&self) -> bool {
        self.exit_code == Some(0i32)
    }

    /// The command exited with code zero.
    pub fn success(&self) -> (r: bool)
        ensures
            r == self.succeeded(),
    {
        match self.exit_code {
            Some(c) => c == 0,
            None => false,
        }
    }
}

/// The strings `args` as character sequences.
pub open spec fn views(args: Seq<String>) -> Seq<Seq<char>> {
    args.map_values(|a: String| a@)
}

/// An optional string as an optional character sequence.
pub open spec fn opt_view(o: Option<String>) -> Option<Seq<char>> {
    match o {
        Some(s) => Some(s@),
        None => None,
    }
}

/// Appends one argument.
pub fn push_arg(args: &mut Vec<String>, a: String)
    ensures
        views(final(args)@) == views(old(args)@).push(a@),
{
    args.push(a);
    assert(views(args@) =~= views(old(args)@).push(a@));
}

/// Appends a literal argument.
pub fn push_lit(args: &mut Vec<String>, a: &str)
    ensures
        views(final(args)@) == views(old(args)@).push(a@),
{
    push_arg(args, text(a));
}

/// Appends every argument of `more`, in order.
pub fn push_all(args: &mut Vec<String>, more: Vec<String>)
    ensures
        views(final(args)@) == views(old(args)@) + views(more@),
{
    let ghost start = views(args@);
    let mut i: usize = 0;
    while i < more.len()
        invariant
            i <= more.len(),
            views(args@) == start + views(more@.take(i as int)),
        decreases more.len() - i,
    {
        push_arg(args, more[i].clone());
        assert(views(more@.take(i + 1)) =~= views(more@.take(i as int)).push(more@[i as int]@));
        assert(start + views(more@.take(i + 1)) =~= (start + views(more@.take(i as int))).push(more@[i as int]@));
        i = i + 1;
    }
    assert(more@.take(more.len() as int) =~= more@);
}

/// A string built from a literal.
pub fn text(s: &str) -> (r: String)
    ensures
        r@ == s@,
{
    String::from_str(s)
}

} // verus!
