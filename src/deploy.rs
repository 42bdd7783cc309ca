//! Deploy orchestration as a state machine: from the configuration and what
//! the last external command left behind, decide the next command to run,
//! the deployment record, or the error that ends the attempt.
use vstd::prelude::*;

use crate::extract::{extract_transaction_hash, is_hash, transaction_hash_of, HASH_LEN};
use crate::models::{
    opt_view, push_arg, push_lit, text, views, Command, CoreError, DeployDetails, DeployResponse,
    ProcessOutput,
};
use crate::text::{chars_of, hex_digit, is_hex_digit, substring, trim, trim_bounds, trimmed};

verus! {

/// The network settings a deployment signs and submits with.
pub struct DeployConfig {
    pub secret_key: String,
    pub rpc_url: String,
    pub network_passphrase: String,
    pub network: String,
    /// Where the proof transaction goes; the deployer itself when absent.
    pub proof_destination: Option<String>,
}

/// Resolves the deployment settings. The secret, the endpoint and the
/// passphrase are required; the network name defaults to `testnet`.
pub fn deploy_config(
    secret_key: Option<String>,
    rpc_url: Option<String>,
    network_passphrase: Option<String>,
    network: Option<String>,
    proof_destination: Option<String>,
) -> (r: Result<DeployConfig, CoreError>)
    ensures
        r is Ok <==> (secret_key is Some && rpc_url is Some && network_passphrase is Some),
        r matches Err(e) ==> e is Config,
        r matches Ok(c) ==> {
            &&& c.secret_key@ == secret_key->0@
            &&& c.rpc_url@ == rpc_url->0@
            &&& c.network_passphrase@ == network_passphrase->0@
            &&& c.network@ == (if network is Some {
                network->0@
            } else {
                "testnet"@
            })
            &&& c.proof_destination == proof_destination
        },
{
    let secret_key = match secret_key {
        Some(s) => s,
        None => {
            return Err(CoreError::Config(text("STELLAR_SECRET_KEY not found in environment")));
        },
    };
    let rpc_url = match rpc_url {
        Some(u) => u,
        None => {
            return Err(CoreError::Config(text("STELLAR_RPC_URL not found in environment")));
        },
    };
    let network_passphrase = match network_passphrase {
        Some(p) => p,
        None => {
            return Err(
                CoreError::Config(text("STELLAR_NETWORK_PASSPHRASE not found in environment")),
            );
        },
    };
    let network = match network {
        Some(n) => n,
        None => text("testnet"),
    };
    Ok(DeployConfig { secret_key, rpc_url, network_passphrase, network, proof_destination })
}

/// The last non-blank line of `t` from index `i` on, trimmed, where the current
/// line began at `start` and `found` is the last one before it.
pub open spec fn last_line_from(
    t: Seq<char>,
    start: int,
    i: int,
    found: Option<Seq<char>>,
) -> Option<Seq<char>>
    decreases t.len() - i,
{
    if i >= t.len() {
        let l = trimmed(t.subrange(start, t.len() as int));
        if l.len() > 0 {
            Some(l)
        } else {
            found
        }
    } else if t[i] == '\n' {
        let l = trimmed(t.subrange(start, i));
        last_line_from(t, i + 1, i + 1, if l.len() > 0 { Some(l) } else { found })
    } else {
        last_line_from(t, start, i + 1, found)
    }
}

/// The contract identifier a deployment printed: the last non-blank line of
/// its stdout, trimmed.
pub open spec fn contract_id_of(stdout: Seq<char>) -> Option<Seq<char>> {
    last_line_from(stdout, 0, 0, None)
}

proof fn lemma_last_line_nonempty(t: Seq<char>, start: int, i: int, found: Option<Seq<char>>)
    requires
        found matches Some(l) ==> l.len() > 0,
    ensures
        last_line_from(t, start, i, found) matches Some(l) ==> l.len() > 0,
    decreases t.len() - i,
{
    if i < t.len() {
        if t[i] == '\n' {
            let l = trimmed(t.subrange(start, i));
            lemma_last_line_nonempty(t, i + 1, i + 1, if l.len() > 0 { Some(l) } else { found });
        } else {
            lemma_last_line_nonempty(t, start, i + 1, found);
        }
    }
}

/// Parses the contract identifier out of a deployment's stdout.
pub fn parse_contract_id(stdout: &str) -> (r: Option<String>)
    ensures
        opt_view(r) == contract_id_of(stdout@),
        r matches Some(id) ==> id@.len() > 0,
{
    proof {
        lemma_last_line_nonempty(stdout@, 0, 0, None);
    }
    let t = chars_of(stdout);
    let mut found: Option<(usize, usize)> = None;
    let mut start: usize = 0;
    let mut i: usize = 0;
    while i < t.len()
        invariant
            start <= i <= t.len(),
            t@ == stdout@,
            found matches Some((lo, hi)) ==> lo <= hi <= t.len(),
            contract_id_of(stdout@) == last_line_from(t@, start as int, i as int, bounds_seq(t@, found)),
        decreases t.len() - i,
    {
        if t[i] == '\n' {
            let (lo, hi) = trim_bounds(&t, start, i);
            if lo < hi {
                found = Some((lo, hi));
            }
            start = i + 1;
        }
        i = i + 1;
    }
    let (lo, hi) = trim_bounds(&t, start, t.len());
    if lo < hi {
        found = Some((lo, hi));
    }
    match found {
        Some((lo, hi)) => Some(substring(stdout, lo, hi)),
        None => None,
    }
}

/// The characters `t[lo..hi]` for bounds that are present.
pub open spec fn bounds_seq(t: Seq<char>, b: Option<(usize, usize)>) -> Option<Seq<char>> {
    match b {
        Some((lo, hi)) => Some(t.subrange(lo as int, hi as int)),
        None => None,
    }
}

/// The expected shape of a contract identifier: `C` followed by 55 more characters.
pub open spec fn is_contract_id_format(id: Seq<char>) -> bool {
    id.len() == 56 && id[0] == 'C'
}

/// Whether `id` has the shape of a contract identifier. A mismatch is worth a
/// warning only.
pub fn looks_like_contract_id(id: &str) -> (r: bool)
    ensures
        r == is_contract_id_format(id@),
{
    let c = chars_of(id);
    c.len() == 56 && c[0] == 'C'
}

/// Whether `h` is exactly 64 hexadecimal digits.
pub fn hash_shaped(h: &str) -> (r: bool)
    ensures
        r == is_hash(h@),
{
    let c = chars_of(h);
    if c.len() != HASH_LEN {
        return false;
    }
    let mut k: usize = 0;
    while k < c.len()
        invariant
            k <= c.len(),
            c@ == h@,
            forall|j: int| 0 <= j < k ==> is_hex_digit(#[trigger] c@[j]),
        decreases c.len() - k,
    {
        if !hex_digit(c[k]) {
            return false;
        }
        k = k + 1;
    }
    true
}

/// Where a deployment stands between two external commands.
pub enum DeployPhase {
    /// The deploy command is running.
    Deploying,
    /// The contract is deployed; the deployer's address is being derived.
    DerivingAddress { contract_id: String, transaction_hash: String },
    /// Everything is known; the best-effort proof transaction is running.
    SendingProof { contract_id: String, transaction_hash: String, deployer_address: String },
}

impl DeployPhase {
    /// A phase past the deploy command holds a contract identifier and a hash.
    pub open spec fn well_formed(&self) -> bool {
        match self {
            DeployPhase::Deploying => true,
            DeployPhase::DerivingAddress { contract_id, transaction_hash } => contract_id@.len()
                > 0 && is_hash(transaction_hash@),
            DeployPhase::SendingProof { contract_id, transaction_hash, .. } => contract_id@.len()
                > 0 && is_hash(transaction_hash@),
        }
    }

    pub fn is_well_formed(&self) -> (r: bool)
        ensures
            r == self.well_formed(),
    {
        match self {
            DeployPhase::Deploying => true,
            DeployPhase::DerivingAddress { contract_id, transaction_hash } => {
                contract_id.as_str().unicode_len() > 0 && hash_shaped(transaction_hash.as_str())
            },
            DeployPhase::SendingProof { contract_id, transaction_hash, .. } => {
                contract_id.as_str().unicode_len() > 0 && hash_shaped(transaction_hash.as_str())
            },
        }
    }
}

/// What an external command did.
pub enum ProcessEvent {
    /// It ran to the end.
    Exited(ProcessOutput),
    /// It could not be started.
    SpawnFailed(String),
}

/// The facts a finished deployment established.
pub struct Deployed {
    pub contract_id: String,
    pub transaction_hash: String,
    pub deployer_address: String,
    pub proof_tx_hash: Option<String>,
}

impl Deployed {
    /// A deployment record names a contract and carries a 64-digit hash.
    pub open spec fn well_formed(&self) -> bool {
        self.contract_id@.len() > 0 && is_hash(self.transaction_hash@)
    }

    pub fn is_well_formed(&self) -> (r: bool)
        ensures
            r == self.well_formed(),
    {
        self.contract_id.as_str().unicode_len() > 0 && hash_shaped(self.transaction_hash.as_str())
    }
}

/// What to do next.
pub enum DeployAction {
    /// Run `command`, then step from `next` with what it did.
    Run { next: DeployPhase, command: Command },
    /// The deployment is complete.
    Done(Deployed),
    /// The deployment failed.
    Fail(CoreError),
}

/// The deploy command's arguments.
pub open spec fn deploy_args(c: DeployConfig, wasm: Seq<char>) -> Seq<Seq<char>> {
    seq![
        "--verbose"@,
        "contract"@,
        "deploy"@,
        "--wasm"@,
        wasm,
        "--source"@,
        c.secret_key@,
        "--rpc-url"@,
        c.rpc_url@,
        "--network-passphrase"@,
        c.network_passphrase@,
    ]
}

/// The address-derivation command's arguments.
pub open spec fn address_args(c: DeployConfig) -> Seq<Seq<char>> {
    seq!["keys"@, "address"@, c.secret_key@]
}

/// The proof transaction's arguments.
pub open spec fn proof_args(c: DeployConfig) -> Seq<Seq<char>> {
    seq![
        "contract"@,
        "invoke"@,
        "--source"@,
        c.secret_key@,
        "--network"@,
        c.network@,
        "--id"@,
        match c.proof_destination {
            Some(d) => d@,
            None => c.secret_key@,
        },
    ]
}

/// `stellar args...` in the current directory.
pub open spec fn runs(c: Command, args: Seq<Seq<char>>) -> bool {
    c.program@ == "stellar"@ && views(c.args@) == args && c.working_dir is None
}

fn stellar(args: Vec<String>) -> (r: Command)
    ensures
        r.program@ == "stellar"@,
        r.args == args,
        r.working_dir is None,
{
    Command { program: text("stellar"), args, working_dir: None }
}

/// Starts a deployment. A missing project or artifact ends it with
/// `NotFound` before any command runs; otherwise the deploy command comes first.
pub fn deploy_start(config: &DeployConfig, project_exists: bool, artifact: Option<String>) -> (r:
    DeployAction)
    ensures
        !project_exists || artifact is None ==> r matches DeployAction::Fail(CoreError::NotFound(_)),
        project_exists && artifact is Some ==> (r matches DeployAction::Run { next, command } && next
            is Deploying && runs(command, deploy_args(*config, artifact->0@))),
{
    if !project_exists {
        return DeployAction::Fail(CoreError::NotFound(text("Project directory not found")));
    }
    let wasm = match artifact {
        Some(w) => w,
        None => {
            return DeployAction::Fail(
                CoreError::NotFound(text("No WASM file found. Please compile the project first.")),
            );
        },
    };
    let mut a: Vec<String> = Vec::new();
    push_lit(&mut a, "--verbose");
    push_lit(&mut a, "contract");
    push_lit(&mut a, "deploy");
    push_lit(&mut a, "--wasm");
    push_arg(&mut a, wasm);
    push_lit(&mut a, "--source");
    push_arg(&mut a, config.secret_key.clone());
    push_lit(&mut a, "--rpc-url");
    push_arg(&mut a, config.rpc_url.clone());
    push_lit(&mut a, "--network-passphrase");
    push_arg(&mut a, config.network_passphrase.clone());
    assert(views(a@) =~= deploy_args(*config, wasm@));
    DeployAction::Run { next: DeployPhase::Deploying, command: stellar(a) }
}

/// Advances a deployment with what the last command did.
///
/// After the deploy command: a failed exit ends it with its stderr; the
/// contract identifier is the last non-blank line of stdout and the
/// transaction hash is read from stderr, and the lack of either ends it.
/// After the address derivation: a failed exit ends it; the address is the
/// trimmed stdout. After the proof transaction, whatever its outcome, the
/// deployment is done, with the proof's trimmed stdout when it succeeded.
pub fn deploy_step(config: &DeployConfig, phase: DeployPhase, event: ProcessEvent) -> (r:
    DeployAction)
    requires
        phase.well_formed(),
    ensures
        r matches DeployAction::Done(d) ==> d.well_formed(),
        r matches DeployAction::Run { next, .. } ==> next.well_formed(),
        event is SpawnFailed && !(phase is SendingProof) ==> r matches DeployAction::Fail(
            CoreError::Spawn(_),
        ),
        phase is Deploying ==> match event {
            ProcessEvent::SpawnFailed(_) => r matches DeployAction::Fail(CoreError::Spawn(_)),
            ProcessEvent::Exited(out) => if !out.succeeded() {
                r matches DeployAction::Fail(CoreError::Toolchain(e)) && e@ == out.stderr@
            } else if contract_id_of(out.stdout@) is None || transaction_hash_of(out.stderr@) is None {
                r matches DeployAction::Fail(CoreError::Extraction(_))
            } else {
                (r matches DeployAction::Run { next, command } && runs(command, address_args(*config))
                    && (next matches DeployPhase::DerivingAddress { contract_id, transaction_hash }
                    && Some(contract_id@) == contract_id_of(out.stdout@) && Some(transaction_hash@)
                    == transaction_hash_of(out.stderr@)))
            },
        },
        phase matches DeployPhase::DerivingAddress { contract_id, transaction_hash } ==> match event {
            ProcessEvent::SpawnFailed(_) => r matches DeployAction::Fail(CoreError::Spawn(_)),
            ProcessEvent::Exited(out) => if !out.succeeded() {
                r matches DeployAction::Fail(CoreError::Toolchain(_))
            } else {
                (r matches DeployAction::Run { next, command } && runs(command, proof_args(*config))
                    && (next matches DeployPhase::SendingProof {
                    contract_id: c,
                    transaction_hash: h,
                    deployer_address: a,
                } && c@ == contract_id@ && h@ == transaction_hash@ && a@ == trimmed(out.stdout@)))
            },
        },
        phase matches DeployPhase::SendingProof { contract_id, transaction_hash, deployer_address }
            ==> r matches DeployAction::Done(d) && d.contract_id@ == contract_id@
            && d.transaction_hash@ == transaction_hash@ && d.deployer_address@ == deployer_address@
            && opt_view(d.proof_tx_hash) == match event {
            ProcessEvent::Exited(out) => if out.succeeded() {
                Some(trimmed(out.stdout@))
            } else {
                None
            },
            ProcessEvent::SpawnFailed(_) => None,
        },
{
    match phase {
        DeployPhase::Deploying => {
            let out = match event {
                ProcessEvent::Exited(out) => out,
                ProcessEvent::SpawnFailed(m) => {
                    return DeployAction::Fail(CoreError::Spawn(m));
                },
            };
            if !out.success() {
                return DeployAction::Fail(CoreError::Toolchain(out.stderr));
            }
            let contract_id = match parse_contract_id(out.stdout.as_str()) {
                Some(id) => id,
                None => {
                    return DeployAction::Fail(
                        CoreError::Extraction(text("No contract ID in deployment output")),
                    );
                },
            };
            let transaction_hash = match extract_transaction_hash(out.stderr.as_str()) {
                Some(h) => h,
                None => {
                    return DeployAction::Fail(
                        CoreError::Extraction(
                            text("Failed to extract transaction hash from deployment output"),
                        ),
                    );
                },
            };
            proof {
                crate::extract::lemma_extracted_hash_is_hex(out.stderr@);
            }
            let mut a: Vec<String> = Vec::new();
            push_lit(&mut a, "keys");
            push_lit(&mut a, "address");
            push_arg(&mut a, config.secret_key.clone());
            assert(views(a@) =~= address_args(*config));
            DeployAction::Run {
                next: DeployPhase::DerivingAddress { contract_id, transaction_hash },
                command: stellar(a),
            }
        },
        DeployPhase::DerivingAddress { contract_id, transaction_hash } => {
            let out = match event {
                ProcessEvent::Exited(out) => out,
                ProcessEvent::SpawnFailed(m) => {
                    return DeployAction::Fail(CoreError::Spawn(m));
                },
            };
            if !out.success() {
                return DeployAction::Fail(CoreError::Toolchain(text("Failed to derive public key")));
            }
            let deployer_address = trim(out.stdout.as_str());
            let mut a: Vec<String> = Vec::new();
            push_lit(&mut a, "contract");
            push_lit(&mut a, "invoke");
            push_lit(&mut a, "--source");
            push_arg(&mut a, config.secret_key.clone());
            push_lit(&mut a, "--network");
            push_arg(&mut a, config.network.clone());
            push_lit(&mut a, "--id");
            let destination = match &config.proof_destination {
                Some(d) => d.clone(),
                None => config.secret_key.clone(),
            };
            push_arg(&mut a, destination);
            assert(views(a@) =~= proof_args(*config));
            DeployAction::Run {
                next: DeployPhase::SendingProof { contract_id, transaction_hash, deployer_address },
                command: stellar(a),
            }
        },
        DeployPhase::SendingProof { contract_id, transaction_hash, deployer_address } => {
            let proof_tx_hash = match event {
                ProcessEvent::Exited(out) => if out.success() {
                    Some(trim(out.stdout.as_str()))
                } else {
                    None
                },
                ProcessEvent::SpawnFailed(_) => None,
            };
            DeployAction::Done(
                Deployed { contract_id, transaction_hash, deployer_address, proof_tx_hash },
            )
        },
    }
}

/// The explorer page of a contract.
pub open spec fn explorer_url_of(contract_id: Seq<char>) -> Seq<char> {
    "https://testnet.stellarchain.io/contracts/"@ + contract_id
}

/// The deployment record handed back to the caller; `timestamp` is in seconds
/// since the Unix epoch.
pub fn deploy_response(d: Deployed, network: &str, timestamp: i64) -> (r: DeployResponse)
    requires
        d.well_formed(),
    ensures
        r.success,
        r.success ==> r.contract_id@.len() > 0 && is_hash(r.transaction_hash@),
        r.contract_id@ == d.contract_id@,
        r.transaction_hash@ == d.transaction_hash@,
        r.explorer_url@ == explorer_url_of(d.contract_id@),
        r.fee matches Some(f) && f@ == "100000"@,
        r.proof_tx_hash == d.proof_tx_hash,
        r.details.network@ == network@,
        r.details.ledger_sequence == 0,
        r.details.timestamp == timestamp,
        r.details.deployer_address@ == d.deployer_address@,
{
    let mut explorer_url = text("https://testnet.stellarchain.io/contracts/");
    explorer_url.append(d.contract_id.as_str());
    DeployResponse {
        success: true,
        transaction_hash: d.transaction_hash,
        contract_id: d.contract_id,
        explorer_url,
        fee: Some(text("100000")),
        proof_tx_hash: d.proof_tx_hash,
        details: DeployDetails {
            network: text(network),
            ledger_sequence: 0,
            timestamp,
            deployer_address: d.deployer_address,
        },
    }
}

} // verus!
