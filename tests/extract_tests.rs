use stellar_backend::extract::{extract_transaction_hash, find_artifact};

const HASH: &str = "ab12cd34ef56ab12cd34ef56ab12cd34ef56ab12cd34ef56ab12cd34ef56ab12";

fn is_64_hex(s: &str) -> bool {
    s.len() == 64 && s.chars().all(|c| c.is_ascii_hexdigit())
}

#[test]
fn signing_line_yields_its_hash() {
    let text = format!("Signing transaction: {}  done", HASH);
    assert_eq!(extract_transaction_hash(&text), Some(HASH.to_string()));
}

#[test]
fn transaction_hash_phrase_any_case() {
    let text = format!("info\n  Transaction HASH is {}\nmore", HASH);
    assert_eq!(extract_transaction_hash(&text), Some(HASH.to_string()));
}

#[test]
fn decoration_is_stripped_from_token() {
    let text = format!("🔗 transaction hash: \"{}\"!", HASH);
    assert_eq!(extract_transaction_hash(&text), Some(HASH.to_string()));
}

#[test]
fn no_phrase_gives_none() {
    let text = format!("deployed {}\nall good", HASH);
    assert_eq!(extract_transaction_hash(&text), None);
    assert_eq!(extract_transaction_hash(""), None);
}

#[test]
fn short_or_long_tokens_are_skipped() {
    let text = format!("transaction hash: abc {}0 {}", HASH, HASH);
    assert_eq!(extract_transaction_hash(&text), Some(HASH.to_string()));
    let bad = format!("transaction hash: {}0", HASH);
    assert_eq!(extract_transaction_hash(&bad), None);
}

#[test]
fn hash_must_follow_phrase_on_same_line() {
    let text = format!("{} transaction hash\n{}", HASH, HASH);
    assert_eq!(extract_transaction_hash(&text), None);
}

#[test]
fn first_line_with_hash_wins() {
    let other = "ffffffffffffffffffffffffffffffffffffffffffffffffffffffffffffffff";
    let text = format!("transaction hash: none\nsigning transaction: {}\ntransaction hash: {}", other, HASH);
    assert_eq!(extract_transaction_hash(&text), Some(other.to_string()));
}

#[test]
fn extraction_result_is_none_or_hex() {
    for text in ["transaction hash: xyz", "signing transaction: 12", "Transaction hash: g00d"] {
        match extract_transaction_hash(text) {
            Some(h) => assert!(is_64_hex(&h)),
            None => {}
        }
    }
    let text = format!("transaction hash {}", HASH);
    let first = extract_transaction_hash(&text);
    assert_eq!(first, extract_transaction_hash(&text));
    assert!(is_64_hex(&first.unwrap()));
}

#[test]
fn artifact_is_first_wasm_entry() {
    let entries = vec![
        "deps".to_string(),
        ".wasm".to_string(),
        "counter.wasm".to_string(),
        "other.wasm".to_string(),
    ];
    assert_eq!(find_artifact(&entries), Some("counter.wasm".to_string()));
}

#[test]
fn no_artifact_when_no_wasm_entry() {
    let entries = vec!["build".to_string(), "lib.rlib".to_string(), "x.wasm.d".to_string()];
    assert_eq!(find_artifact(&entries), None);
    assert_eq!(find_artifact(&Vec::new()), None);
}
