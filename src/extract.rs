//! Output extractors: recover a transaction hash from the toolchain's
//! free-form output, and pick the build artifact out of a directory listing.
use vstd::prelude::*;

use crate::text::{
    chars_of, hex_digit, is_hex_digit, is_space, letter_matches, same_letter, space, substring,
};

verus! {

/// Number of hexadecimal digits in a transaction hash.
pub const HASH_LEN: usize = 64;

/// The first marker phrase, lower case.
pub open spec fn hash_marker() -> Seq<char> {
    "transaction hash"@
}

/// The second marker phrase, lower case.
pub open spec fn signing_marker() -> Seq<char> {
    "signing transaction:"@
}

/// `p` occurs in `s` at index `i`, ASCII letters compared without case.
pub open spec fn matches_at(s: Seq<char>, i: int, p: Seq<char>) -> bool {
    0 <= i && i + p.len() <= s.len() && forall|k: int|
        0 <= k < p.len() ==> #[trigger] same_letter(s[i + k], p[k])
}

/// The first index at or after `i` at which `p` occurs in `s`.
pub open spec fn find_from(s: Seq<char>, p: Seq<char>, i: int) -> Option<int>
    decreases s.len() - i,
{
    if i < 0 || i + p.len() > s.len() {
        None
    } else if matches_at(s, i, p) {
        Some(i)
    } else {
        find_from(s, p, i + 1)
    }
}

/// Drops leading characters that are not hexadecimal digits.
pub open spec fn strip_front(w: Seq<char>) -> Seq<char>
    decreases w.len(),
{
    if w.len() > 0 && !is_hex_digit(w[0]) {
        strip_front(w.drop_first())
    } else {
        w
    }
}

/// Drops trailing characters that are not hexadecimal digits.
pub open spec fn strip_back(w: Seq<char>) -> Seq<char>
    decreases w.len(),
{
    if w.len() > 0 && !is_hex_digit(w.last()) {
        strip_back(w.drop_last())
    } else {
        w
    }
}

/// A token with its non-hex decoration removed from both ends.
pub open spec fn strip_decoration(w: Seq<char>) -> Seq<char> {
    strip_back(strip_front(w))
}

/// Exactly 64 hexadecimal digits.
pub open spec fn is_hash(h: Seq<char>) -> bool {
    h.len() == HASH_LEN && forall|k: int| 0 <= k < h.len() ==> is_hex_digit(#[trigger] h[k])
}

/// The hash that a whitespace-delimited token carries, if any.
pub open spec fn token_hash(w: Seq<char>) -> Option<Seq<char>> {
    if is_hash(strip_decoration(w)) {
        Some(strip_decoration(w))
    } else {
        None
    }
}

/// The first hash among the tokens of `s` from index `i` on, where the
/// current token began at `start`.
pub open spec fn hash_in_tokens(s: Seq<char>, start: int, i: int) -> Option<Seq<char>>
    decreases s.len() - i,
{
    if i >= s.len() {
        token_hash(s.subrange(start, s.len() as int))
    } else if is_space(s[i]) {
        match token_hash(s.subrange(start, i)) {
            Some(h) => Some(h),
            None => hash_in_tokens(s, i + 1, i + 1),
        }
    } else {
        hash_in_tokens(s, start, i + 1)
    }
}

/// The first hash among the tokens that follow the first occurrence of `p` in `line`.
pub open spec fn hash_after_marker(line: Seq<char>, p: Seq<char>) -> Option<Seq<char>> {
    match find_from(line, p, 0) {
        Some(at) => hash_in_tokens(line, at + p.len(), at + p.len()),
        None => None,
    }
}

/// The hash that one line of output reports: after the first marker phrase if
/// it is followed by one, else after the second.
pub open spec fn line_hash(line: Seq<char>) -> Option<Seq<char>> {
    match hash_after_marker(line, hash_marker()) {
        Some(h) => Some(h),
        None => hash_after_marker(line, signing_marker()),
    }
}

/// The first line hash of `t` from index `i` on, where the current line began at `start`.
pub open spec fn hash_in_lines(t: Seq<char>, start: int, i: int) -> Option<Seq<char>>
    decreases t.len() - i,
{
    if i >= t.len() {
        line_hash(t.subrange(start, t.len() as int))
    } else if t[i] == '\n' {
        match line_hash(t.subrange(start, i)) {
            Some(h) => Some(h),
            None => hash_in_lines(t, i + 1, i + 1),
        }
    } else {
        hash_in_lines(t, start, i + 1)
    }
}

/// The transaction hash reported in the text `t`: scanning line by line, the
/// first 64-digit hex token that follows a marker phrase.
pub open spec fn transaction_hash_of(t: Seq<char>) -> Option<Seq<char>> {
    hash_in_lines(t, 0, 0)
}

proof fn lemma_tokens_hash_shape(s: Seq<char>, start: int, i: int)
    ensures
        hash_in_tokens(s, start, i) matches Some(h) ==> is_hash(h),
    decreases s.len() - i,
{
    if i < s.len() {
        if is_space(s[i]) {
            lemma_tokens_hash_shape(s, i + 1, i + 1);
        } else {
            lemma_tokens_hash_shape(s, start, i + 1);
        }
    }
}

proof fn lemma_line_hash_shape(line: Seq<char>)
    ensures
        line_hash(line) matches Some(h) ==> is_hash(h),
{
    if let Some(at) = find_from(line, hash_marker(), 0) {
        lemma_tokens_hash_shape(line, at + hash_marker().len(), at + hash_marker().len());
    }
    if let Some(at) = find_from(line, signing_marker(), 0) {
        lemma_tokens_hash_shape(line, at + signing_marker().len(), at + signing_marker().len());
    }
}

proof fn lemma_lines_hash_shape(t: Seq<char>, start: int, i: int)
    ensures
        hash_in_lines(t, start, i) matches Some(h) ==> is_hash(h),
    decreases t.len() - i,
{
    if i >= t.len() {
        lemma_line_hash_shape(t.subrange(start, t.len() as int));
    } else if t[i] == '\n' {
        lemma_line_hash_shape(t.subrange(start, i));
        lemma_lines_hash_shape(t, i + 1, i + 1);
    } else {
        lemma_lines_hash_shape(t, start, i + 1);
    }
}

/// Whatever the text, what is extracted from it is either nothing or exactly
/// 64 hexadecimal digits.
pub proof fn lemma_extracted_hash_is_hex(t: Seq<char>)
    ensures
        transaction_hash_of(t) matches Some(h) ==> is_hash(h),
{
    lemma_lines_hash_shape(t, 0, 0);
}

proof fn lemma_find_from_matches(s: Seq<char>, p: Seq<char>, i: int)
    ensures
        find_from(s, p, i) matches Some(j) ==> matches_at(s, j, p),
    decreases s.len() - i,
{
    if !(i < 0 || i + p.len() > s.len()) && !matches_at(s, i, p) {
        lemma_find_from_matches(s, p, i + 1);
    }
}

/// A marker found inside the line `t[start..end]` is a marker found in `t`.
proof fn lemma_line_marker_in_text(t: Seq<char>, start: int, end: int, p: Seq<char>)
    requires
        0 <= start <= end <= t.len(),
        find_from(t.subrange(start, end), p, 0) is Some,
    ensures
        matches_at(t, start + find_from(t.subrange(start, end), p, 0)->0, p),
{
    let line = t.subrange(start, end);
    let j = find_from(line, p, 0)->0;
    lemma_find_from_matches(line, p, 0);
    assert forall|k: int| 0 <= k < p.len() implies #[trigger] same_letter(t[start + j + k], p[k]) by {
        assert(same_letter(line[j + k], p[k]));
        assert(line[j + k] == t[start + j + k]);
    }
}

proof fn lemma_no_marker_lines(t: Seq<char>, start: int, i: int)
    requires
        0 <= start <= i <= t.len(),
        forall|k: int| !matches_at(t, k, hash_marker()) && !matches_at(t, k, signing_marker()),
    ensures
        hash_in_lines(t, start, i) is None,
    decreases t.len() - i,
{
    let end = if i >= t.len() { t.len() as int } else { i };
    if find_from(t.subrange(start, end), hash_marker(), 0) is Some {
        lemma_line_marker_in_text(t, start, end, hash_marker());
    }
    if find_from(t.subrange(start, end), signing_marker(), 0) is Some {
        lemma_line_marker_in_text(t, start, end, signing_marker());
    }
    if i < t.len() {
        if t[i] == '\n' {
            lemma_no_marker_lines(t, i + 1, i + 1);
        } else {
            lemma_no_marker_lines(t, start, i + 1);
        }
    }
}

/// Text in which neither marker phrase occurs, in any letter case, yields no hash.
pub proof fn lemma_no_marker_no_hash(t: Seq<char>)
    requires
        forall|k: int| !matches_at(t, k, hash_marker()) && !matches_at(t, k, signing_marker()),
    ensures
        transaction_hash_of(t) is None,
{
    lemma_no_marker_lines(t, 0, 0);
}

proof fn lemma_tokens_skip_run(s: Seq<char>, start: int, i: int)
    requires
        0 <= i <= s.len(),
        forall|j: int| i <= j < s.len() ==> !is_space(#[trigger] s[j]),
    ensures
        hash_in_tokens(s, start, i) == token_hash(s.subrange(start, s.len() as int)),
    decreases s.len() - i,
{
    if i < s.len() {
        lemma_tokens_skip_run(s, start, i + 1);
    }
}

proof fn lemma_lines_skip_run(t: Seq<char>, start: int, i: int)
    requires
        0 <= i <= t.len(),
        forall|j: int| i <= j < t.len() ==> #[trigger] t[j] != '\n',
    ensures
        hash_in_lines(t, start, i) == line_hash(t.subrange(start, t.len() as int)),
    decreases t.len() - i,
{
    if i < t.len() {
        lemma_lines_skip_run(t, start, i + 1);
    }
}

/// A reported hash survives being reported again: for every 64-digit hex `h`,
/// the line `transaction hash <h>` yields `h` back.
pub proof fn lemma_hash_reextracted(h: Seq<char>)
    requires
        is_hash(h),
    ensures
        transaction_hash_of(hash_marker() + seq![' '] + h) == Some(h),
{
    reveal_strlit("transaction hash");
    let m = hash_marker();
    let s = m + seq![' '] + h;
    let n = m.len() as int;
    assert(n == 16);
    assert forall|k: int| 0 <= k < m.len() implies #[trigger] same_letter(s[0 + k], m[k]) by {
        assert(s[0 + k] == m[k]);
    }
    assert(matches_at(s, 0, m));
    assert(find_from(s, m, 0) == Some(0int));
    assert(s[n] == ' ');
    assert(s.subrange(n, n) =~= Seq::<char>::empty());
    assert(strip_decoration(Seq::<char>::empty()) =~= Seq::<char>::empty());
    assert(token_hash(s.subrange(n, n)) is None);
    assert forall|j: int| n + 1 <= j < s.len() implies !is_space(#[trigger] s[j]) by {
        assert(s[j] == h[j - n - 1]);
        assert(is_hex_digit(h[j - n - 1]));
    }
    lemma_tokens_skip_run(s, n + 1, n + 1);
    assert(s.subrange(n + 1, s.len() as int) =~= h);
    assert(h.len() > 0 && is_hex_digit(h[0]));
    assert(strip_front(h) == h);
    assert(h.last() == h[h.len() - 1]);
    assert(is_hex_digit(h.last()));
    assert(strip_back(h) == h);
    assert(hash_in_tokens(s, n, n) == Some(h));
    assert(hash_after_marker(s, m) == Some(h));
    assert forall|j: int| 0 <= j < s.len() implies #[trigger] s[j] != '\n' by {
        if j < n {
            assert(s[j] == m[j]);
        } else if j > n {
            assert(s[j] == h[j - n - 1]);
            assert(is_hex_digit(h[j - n - 1]));
        }
    }
    lemma_lines_skip_run(s, 0, 0);
    assert(s.subrange(0, s.len() as int) =~= s);
}

/// First index at which `p` occurs in `s`.
fn find_marker(s: &Vec<char>, p: &Vec<char>) -> (r: Option<usize>)
    ensures
        r is Some ==> r->0 + p@.len() <= s@.len() && find_from(s@, p@, 0) == Some(r->0 as int),
        r is None ==> find_from(s@, p@, 0) is None,
{
    if p.len() > s.len() {
        return None;
    }
    let last: usize = s.len() - p.len();
    let mut i: usize = 0;
    while i <= last
        invariant
            last == s.len() - p.len(),
            i <= last + 1,
            find_from(s@, p@, 0) == find_from(s@, p@, i as int),
        decreases last + 1 - i,
    {
        let mut k: usize = 0;
        let mut ok = true;
        while k < p.len()
            invariant
                i + p.len() <= s.len(),
                k <= p.len(),
                ok == (forall|j: int| 0 <= j < k ==> #[trigger] same_letter(s@[i + j], p@[j])),
            decreases p.len() - k,
        {
            if !letter_matches(s[i + k], p[k]) {
                ok = false;
            }
            k = k + 1;
        }
        if ok {
            return Some(i);
        }
        i = i + 1;
    }
    None
}

/// Bounds of `w[from..to]` with non-hex decoration removed.
fn strip_bounds(w: &Vec<char>, from: usize, to: usize) -> (r: (usize, usize))
    requires
        from <= to <= w.len(),
    ensures
        from <= r.0 <= r.1 <= to,
        w@.subrange(r.0 as int, r.1 as int) == strip_decoration(
            w@.subrange(from as int, to as int),
        ),
{
    let mut lo: usize = from;
    while lo < to && !hex_digit(w[lo])
        invariant
            from <= lo <= to <= w.len(),
            strip_front(w@.subrange(lo as int, to as int)) == strip_front(
                w@.subrange(from as int, to as int),
            ),
        decreases to - lo,
    {
        assert(w@.subrange(lo as int, to as int).drop_first() =~= w@.subrange(
            lo + 1,
            to as int,
        ));
        lo = lo + 1;
    }
    let mut hi: usize = to;
    while hi > lo && !hex_digit(w[hi - 1])
        invariant
            from <= lo <= hi <= to <= w.len(),
            strip_back(w@.subrange(lo as int, hi as int)) == strip_decoration(
                w@.subrange(from as int, to as int),
            ),
        decreases hi - lo,
    {
        assert(w@.subrange(lo as int, hi as int).drop_last() =~= w@.subrange(
            lo as int,
            hi - 1,
        ));
        hi = hi - 1;
    }
    (lo, hi)
}

/// Bounds of the hash that the token `w[from..to]` carries.
fn token_hash_bounds(w: &Vec<char>, from: usize, to: usize) -> (r: Option<(usize, usize)>)
    requires
        from <= to <= w.len(),
    ensures
        match r {
            Some((lo, hi)) => lo <= hi <= w.len() && token_hash(
                w@.subrange(from as int, to as int),
            ) == Some(w@.subrange(lo as int, hi as int)),
            None => token_hash(w@.subrange(from as int, to as int)) is None,
        },
{
    let (lo, hi) = strip_bounds(w, from, to);
    if hi - lo != HASH_LEN {
        return None;
    }
    let mut k: usize = lo;
    while k < hi
        invariant
            lo <= k <= hi <= w.len(),
            hi - lo == HASH_LEN,
            w@.subrange(lo as int, hi as int) == strip_decoration(
                w@.subrange(from as int, to as int),
            ),
            forall|j: int| lo <= j < k ==> is_hex_digit(#[trigger] w@[j]),
        decreases hi - k,
    {
        if !hex_digit(w[k]) {
            assert(w@.subrange(lo as int, hi as int)[k - lo] == w@[k as int]);
            assert(!is_hex_digit(w@.subrange(lo as int, hi as int)[k - lo]));
            return None;
        }
        k = k + 1;
    }
    assert forall|j: int| 0 <= j < hi - lo implies is_hex_digit(
        #[trigger] w@.subrange(lo as int, hi as int)[j],
    ) by {
        assert(w@.subrange(lo as int, hi as int)[j] == w@[lo + j]);
    }
    Some((lo, hi))
}

/// Bounds of the first hash among the tokens of `line` from index `from` on.
fn hash_in_tokens_bounds(line: &Vec<char>, from: usize) -> (r: Option<(usize, usize)>)
    requires
        from <= line.len(),
    ensures
        match r {
            Some((lo, hi)) => lo <= hi <= line.len() && hash_in_tokens(
                line@,
                from as int,
                from as int,
            ) == Some(line@.subrange(lo as int, hi as int)),
            None => hash_in_tokens(line@, from as int, from as int) is None,
        },
{
    let mut start: usize = from;
    let mut i: usize = from;
    while i < line.len()
        invariant
            from <= start <= i <= line.len(),
            hash_in_tokens(line@, from as int, from as int) == hash_in_tokens(
                line@,
                start as int,
                i as int,
            ),
        decreases line.len() - i,
    {
        if space(line[i]) {
            match token_hash_bounds(line, start, i) {
                Some(b) => {
                    return Some(b);
                },
                None => {
                    start = i + 1;
                },
            }
        }
        i = i + 1;
    }
    token_hash_bounds(line, start, line.len())
}

/// Bounds of the first hash that follows the first occurrence of `p` in `line`.
fn hash_after_marker_bounds(line: &Vec<char>, p: &Vec<char>) -> (r: Option<(usize, usize)>)
    ensures
        match r {
            Some((lo, hi)) => lo <= hi <= line.len() && hash_after_marker(line@, p@) == Some(
                line@.subrange(lo as int, hi as int),
            ),
            None => hash_after_marker(line@, p@) is None,
        },
{
    let found = find_marker(line, p);
    match found {
        Some(at) => {
            let n: usize = p.len();
            let len: usize = line.len();
            assert(at + n <= len);
            hash_in_tokens_bounds(line, at + n)
        },
        None => None,
    }
}

/// Bounds of the hash that `line` reports.
fn line_hash_bounds(line: &Vec<char>, hash_phrase: &Vec<char>, signing_phrase: &Vec<char>) -> (r:
    Option<(usize, usize)>)
    requires
        hash_phrase@ == hash_marker(),
        signing_phrase@ == signing_marker(),
    ensures
        match r {
            Some((lo, hi)) => lo <= hi <= line.len() && line_hash(line@) == Some(
                line@.subrange(lo as int, hi as int),
            ),
            None => line_hash(line@) is None,
        },
{
    match hash_after_marker_bounds(line, hash_phrase) {
        Some(b) => Some(b),
        None => hash_after_marker_bounds(line, signing_phrase),
    }
}

/// `v[from..to]` as a vector of its own.
fn slice_chars(v: &Vec<char>, from: usize, to: usize) -> (r: Vec<char>)
    requires
        from <= to <= v.len(),
    ensures
        r@ == v@.subrange(from as int, to as int),
{
    let mut r: Vec<char> = Vec::new();
    let mut k: usize = from;
    while k < to
        invariant
            from <= k <= to <= v.len(),
            r@ == v@.subrange(from as int, k as int),
        decreases to - k,
    {
        r.push(v[k]);
        assert(r@ =~= v@.subrange(from as int, k + 1));
        k = k + 1;
    }
    r
}

/// Bounds of the hash that the line `t[start..end]` reports, as indices into `t`.
fn line_hash_in(
    t: &Vec<char>,
    start: usize,
    end: usize,
    hash_phrase: &Vec<char>,
    signing_phrase: &Vec<char>,
) -> (r: Option<(usize, usize)>)
    requires
        start <= end <= t.len(),
        hash_phrase@ == hash_marker(),
        signing_phrase@ == signing_marker(),
    ensures
        match r {
            Some((lo, hi)) => lo <= hi <= t.len() && line_hash(
                t@.subrange(start as int, end as int),
            ) == Some(t@.subrange(lo as int, hi as int)),
            None => line_hash(t@.subrange(start as int, end as int)) is None,
        },
{
    let line = slice_chars(t, start, end);
    match line_hash_bounds(&line, hash_phrase, signing_phrase) {
        Some((lo, hi)) => {
            assert(line@.subrange(lo as int, hi as int) =~= t@.subrange(
                start + lo,
                start + hi,
            ));
            Some((start + lo, start + hi))
        },
        None => None,
    }
}

/// The transaction hash that the toolchain reported in `text`.
///
/// The text is scanned line by line. On a line that holds "transaction hash"
/// or "signing transaction:" (in any letter case), the whitespace-separated
/// tokens after the phrase are stripped of non-hex characters at both ends,
/// and the first that is then exactly 64 hex digits is the hash. The first
/// line that yields one wins.
pub fn extract_transaction_hash(text: &str) -> (r: Option<String>)
    ensures
        r matches Some(h) ==> transaction_hash_of(text@) == Some(h@),
        r is None ==> transaction_hash_of(text@) is None,
{
    let t = chars_of(text);
    let hash_phrase = chars_of("transaction hash");
    let signing_phrase = chars_of("signing transaction:");
    let mut start: usize = 0;
    let mut i: usize = 0;
    while i < t.len()
        invariant
            start <= i <= t.len(),
            t@ == text@,
            hash_phrase@ == hash_marker(),
            signing_phrase@ == signing_marker(),
            transaction_hash_of(text@) == hash_in_lines(t@, start as int, i as int),
        decreases t.len() - i,
    {
        if t[i] == '\n' {
            match line_hash_in(&t, start, i, &hash_phrase, &signing_phrase) {
                Some((lo, hi)) => {
                    return Some(substring(text, lo, hi));
                },
                None => {
                    start = i + 1;
                },
            }
        }
        i = i + 1;
    }
    match line_hash_in(&t, start, t.len(), &hash_phrase, &signing_phrase) {
        Some((lo, hi)) => Some(substring(text, lo, hi)),
        None => None,
    }
}

/// A file name whose extension is `wasm`: it ends in `.wasm` after at least
/// one other character.
pub open spec fn is_artifact_name(n: Seq<char>) -> bool {
    let k = n.len() - 5;
    n.len() > 5 && n[k] == '.' && n[k + 1] == 'w' && n[k + 2] == 'a' && n[k + 3] == 's' && n[k + 4]
        == 'm'
}

pub fn artifact_name(name: &str) -> (r: bool)
    ensures
        r == is_artifact_name(name@),
{
    let n = chars_of(name);
    if n.len() <= 5 {
        return false;
    }
    let k: usize = n.len() - 5;
    n[k] == '.' && n[k + 1] == 'w' && n[k + 2] == 'a' && n[k + 3] == 's' && n[k + 4] == 'm'
}

/// The build artifact among the entries of a directory: the first entry name
/// with the `wasm` extension; none when no entry has it.
pub fn find_artifact(entries: &Vec<String>) -> (r: Option<String>)
    ensures
        r is None ==> forall|i: int| 0 <= i < entries.len() ==> !is_artifact_name(#[trigger] entries@[i]@),
        r matches Some(name) ==> exists|i: int|
            0 <= i < entries.len() && entries@[i]@ == name@ && is_artifact_name(name@) && forall|j: int|
                0 <= j < i ==> !is_artifact_name(#[trigger] entries@[j]@),
{
    let mut i: usize = 0;
    while i < entries.len()
        invariant
            i <= entries.len(),
            forall|j: int| 0 <= j < i ==> !is_artifact_name(#[trigger] entries@[j]@),
        decreases entries.len() - i,
    {
        if artifact_name(entries[i].as_str()) {
            return Some(entries[i].clone());
        }
        i = i + 1;
    }
    None
}

} // verus!
