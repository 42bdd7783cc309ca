//! Invoke orchestration: marshal call arguments into the toolchain's argument
//! grammar, choose simulation or submission, and interpret the outcome.
use vstd::prelude::*;

use crate::extract::{extract_transaction_hash, transaction_hash_of};
use crate::json::{is_json_text, parse_json};
use crate::models::{
    opt_view, push_all, push_arg, push_lit, text, views, Command, CoreError, InvokeResponse,
    InvokeValue, ProcessOutput,
};
use crate::text::{trim, trimmed};

verus! {

/// One call argument, as its JSON kind and the text that stands for it.
pub enum JsonArg {
    Null,
    Bool(bool),
    /// A number, as its decimal text.
    Number(String),
    Text(String),
    /// An array or an object, as its JSON text.
    Compound(String),
}

/// The arguments of a call: named (a JSON object), positional (a JSON array),
/// or none (any other JSON value).
pub enum CallArgs {
    Named(Vec<(String, JsonArg)>),
    Positional(Vec<JsonArg>),
    Absent,
}

/// The command-line token for one argument value.
pub open spec fn arg_text(a: JsonArg) -> Seq<char> {
    match a {
        JsonArg::Null => "null"@,
        JsonArg::Bool(b) => if b {
            "true"@
        } else {
            "false"@
        },
        JsonArg::Number(n) => n@,
        JsonArg::Text(s) => s@,
        JsonArg::Compound(j) => j@,
    }
}

/// `--key value` for each entry, in order.
pub open spec fn named_flags(entries: Seq<(String, JsonArg)>) -> Seq<Seq<char>>
    decreases entries.len(),
{
    if entries.len() == 0 {
        Seq::empty()
    } else {
        named_flags(entries.drop_last()) + seq![
            "--"@ + entries.last().0@,
            arg_text(entries.last().1),
        ]
    }
}

/// The tokens that stand for `args` on the command line.
pub open spec fn marshaled(args: CallArgs) -> Seq<Seq<char>> {
    match args {
        CallArgs::Named(entries) => named_flags(entries@),
        CallArgs::Positional(values) => values@.map_values(|v: JsonArg| arg_text(v)),
        CallArgs::Absent => Seq::empty(),
    }
}

/// The token for one argument value.
pub fn arg_token(a: &JsonArg) -> (r: String)
    ensures
        r@ == arg_text(*a),
{
    match a {
        JsonArg::Null => text("null"),
        JsonArg::Bool(b) => if *b {
            text("true")
        } else {
            text("false")
        },
        JsonArg::Number(n) => n.clone(),
        JsonArg::Text(s) => s.clone(),
        JsonArg::Compound(j) => j.clone(),
    }
}

/// Marshals call arguments: each entry of an object becomes `--key value`,
/// each element of an array a positional token.
pub fn marshal_args(args: &CallArgs) -> (r: Vec<String>)
    ensures
        views(r@) == marshaled(*args),
{
    let mut out: Vec<String> = Vec::new();
    match args {
        CallArgs::Named(entries) => {
            let mut i: usize = 0;
            while i < entries.len()
                invariant
                    i <= entries.len(),
                    views(out@) == named_flags(entries@.take(i as int)),
                decreases entries.len() - i,
            {
                let mut flag = text("--");
                flag.append(entries[i].0.as_str());
                push_arg(&mut out, flag);
                push_arg(&mut out, arg_token(&entries[i].1));
                assert(entries@.take(i + 1).drop_last() =~= entries@.take(i as int));
                i = i + 1;
            }
            assert(entries@.take(entries.len() as int) =~= entries@);
        },
        CallArgs::Positional(values) => {
            let mut i: usize = 0;
            while i < values.len()
                invariant
                    i <= values.len(),
                    views(out@) == values@.take(i as int).map_values(|v: JsonArg| arg_text(v)),
                decreases values.len() - i,
            {
                push_arg(&mut out, arg_token(&values[i]));
                assert(values@.take(i + 1).map_values(|v: JsonArg| arg_text(v)) =~= values@.take(
                    i as int,
                ).map_values(|v: JsonArg| arg_text(v)).push(arg_text(values@[i as int])));
                i = i + 1;
            }
            assert(values@.take(values.len() as int) =~= values@);
        },
        CallArgs::Absent => {
            assert(views(out@) =~= Seq::<Seq<char>>::empty());
        },
    }
    out
}

/// A call planned for the toolchain.
pub struct InvokePlan {
    pub command: Command,
    /// Simulate only (a read-only call); otherwise submit a transaction.
    pub simulate: bool,
}

/// The toolchain arguments of a call.
pub open spec fn invoke_args(
    contract_id: Seq<char>,
    secret: Seq<char>,
    rpc_url: Seq<char>,
    passphrase: Seq<char>,
    simulate: bool,
    method: Seq<char>,
    args: CallArgs,
) -> Seq<Seq<char>> {
    seq![
        "contract"@,
        "invoke"@,
        "--id"@,
        contract_id,
        "--source"@,
        secret,
        "--rpc-url"@,
        rpc_url,
        "--network-passphrase"@,
        passphrase,
        "--send"@,
        if simulate {
            "no"@
        } else {
            "yes"@
        },
    ] + (if simulate {
        Seq::empty()
    } else {
        seq!["--verbose"@]
    }) + seq!["--"@, method] + marshaled(args)
}

/// Plans a call: resolves the endpoint, the passphrase and the signing secret
/// (the explicit `source_account` before `default_secret`), picks simulation
/// for `"view"` and submission otherwise, and builds the command.
pub fn plan_invoke(
    contract_id: &str,
    method_name: &str,
    args: &CallArgs,
    method_type: &str,
    source_account: Option<String>,
    default_secret: Option<String>,
    rpc_url: Option<String>,
    network_passphrase: Option<String>,
) -> (r: Result<InvokePlan, CoreError>)
    ensures
        rpc_url is None ==> r matches Err(CoreError::Config(_)),
        network_passphrase is None ==> r matches Err(CoreError::Config(_)),
        source_account is None && default_secret is None ==> r matches Err(CoreError::Config(_)),
        r is Ok <==> (rpc_url is Some && network_passphrase is Some && (source_account is Some
            || default_secret is Some)),
        r matches Ok(plan) ==> {
            let secret = if source_account is Some {
                source_account->0@
            } else {
                default_secret->0@
            };
            &&& plan.simulate == (method_type@ == "view"@)
            &&& plan.command.program@ == "stellar"@
            &&& plan.command.working_dir is None
            &&& views(plan.command.args@) == invoke_args(
                contract_id@,
                secret,
                rpc_url->0@,
                network_passphrase->0@,
                plan.simulate,
                method_name@,
                *args,
            )
        },
{
    let rpc = match rpc_url {
        Some(u) => u,
        None => {
            return Err(CoreError::Config(text("STELLAR_RPC_URL not found in environment")));
        },
    };
    let passphrase = match network_passphrase {
        Some(p) => p,
        None => {
            return Err(
                CoreError::Config(text("STELLAR_NETWORK_PASSPHRASE not found in environment")),
            );
        },
    };
    let secret = match source_account {
        Some(s) => s,
        None => match default_secret {
            Some(d) => d,
            None => {
                return Err(
                    CoreError::Config(
                        text("No source account provided and STELLAR_SECRET_KEY not found"),
                    ),
                );
            },
        },
    };
    let simulate = text(method_type) == text("view");
    let mut a: Vec<String> = Vec::new();
    push_lit(&mut a, "contract");
    push_lit(&mut a, "invoke");
    push_lit(&mut a, "--id");
    push_arg(&mut a, text(contract_id));
    push_lit(&mut a, "--source");
    push_arg(&mut a, secret);
    push_lit(&mut a, "--rpc-url");
    push_arg(&mut a, rpc);
    push_lit(&mut a, "--network-passphrase");
    push_arg(&mut a, passphrase);
    push_lit(&mut a, "--send");
    if simulate {
        push_lit(&mut a, "no");
    } else {
        push_lit(&mut a, "yes");
        push_lit(&mut a, "--verbose");
    }
    push_lit(&mut a, "--");
    push_arg(&mut a, text(method_name));
    push_all(&mut a, marshal_args(args));
    assert(views(a@) =~= invoke_args(
        contract_id@,
        secret@,
        rpc@,
        passphrase@,
        simulate,
        method_name@,
        *args,
    ));
    Ok(InvokePlan { command: Command { program: text("stellar"), args: a, working_dir: None }, simulate })
}

/// Interprets a finished call. A failed call is reported, not raised: its
/// stderr becomes the error and the raw output. A successful one returns its
/// trimmed stdout as JSON when it is a JSON document and as text otherwise,
/// and, when it was submitted, the transaction hash found in its stderr.
pub fn invoke_outcome(simulate: bool, out: &ProcessOutput) -> (r: InvokeResponse)
    ensures
        r.success == out.succeeded(),
        simulate ==> r.transaction_hash is None,
        r.logs@.len() == 0,
        r.fee is None,
        out.succeeded() ==> {
            &&& r.error is None
            &&& opt_view(r.raw_output) == Some(out.stdout@)
            &&& r.result is Some
            &&& (r.result matches Some(InvokeValue::Json(_)) <==> is_json_text(
                trimmed(out.stdout@),
            ))
            &&& (r.result matches Some(InvokeValue::Text(t)) ==> t@ == trimmed(out.stdout@))
            &&& !simulate ==> opt_view(r.transaction_hash) == transaction_hash_of(out.stderr@)
        },
        !out.succeeded() ==> {
            &&& r.result is None
            &&& r.transaction_hash is None
            &&& opt_view(r.error) == Some(out.stderr@)
            &&& opt_view(r.raw_output) == Some(out.stderr@)
        },
{
    if out.success() {
        let t = trim(out.stdout.as_str());
        let result = match parse_json(t.as_str()) {
            Some(v) => InvokeValue::Json(v),
            None => InvokeValue::Text(t),
        };
        let transaction_hash = if simulate {
            None
        } else {
            extract_transaction_hash(out.stderr.as_str())
        };
        InvokeResponse {
            success: true,
            result: Some(result),
            transaction_hash,
            logs: Vec::new(),
            fee: None,
            error: None,
            raw_output: Some(out.stdout.clone()),
        }
    } else {
        InvokeResponse {
            success: false,
            result: None,
            transaction_hash: None,
            logs: Vec::new(),
            fee: None,
            error: Some(out.stderr.clone()),
            raw_output: Some(out.stderr.clone()),
        }
    }
}

} // verus!
