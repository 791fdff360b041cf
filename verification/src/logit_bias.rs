//! Assembly of logit-bias tables from token lists.
//!
//! Tokenization is the backend's business; this module takes the token lists
//! it produced and builds the bias table: every allowed token is biased up,
//! every removed token is biased down, and a token named on both sides is
//! removed — the removal wins.

use vstd::prelude::*;

verus! {

/// The bias attached to an allowed token.
pub const ALLOWED_BIAS: i64 = 100;

/// The bias attached to a removed token.
pub const REMOVED_BIAS: i64 = -100;

/// The texts of an optional token list; absent means none.
pub open spec fn tokens_of(o: Option<Vec<String>>) -> Seq<Seq<char>> {
    match o {
        Some(v) => v@.map_values(|s: String| s@),
        None => Seq::empty(),
    }
}

/// Whether the token text `k` occurs in `ts`.
pub open spec fn contains_text(ts: Seq<Seq<char>>, k: Seq<char>) -> bool {
    exists|i: int| 0 <= i < ts.len() && ts[i] == k
}

/// One entry of a bias table is correct for the given token lists: a removed
/// token carries the removal bias, and a token only allowed carries the
/// allowance bias.
pub open spec fn entry_ok(allowed: Seq<Seq<char>>, removed: Seq<Seq<char>>, e: (String, i64)) -> bool {
    if contains_text(removed, e.0@) {
        e.1 == REMOVED_BIAS
    } else {
        contains_text(allowed, e.0@) && e.1 == ALLOWED_BIAS
    }
}

/// Whether the bias table holds an entry for key `k`.
pub open spec fn has_key(es: Seq<(String, i64)>, k: Seq<char>) -> bool {
    exists|i: int| 0 <= i < es.len() && (#[trigger] es[i]).0@ == k
}

/// Appending an entry keeps every key and adds the new one.
proof fn lemma_push_preserves_keys(es: Seq<(String, i64)>, e: (String, i64))
    ensures
        forall|k: Seq<char>| #[trigger] has_key(es, k) ==> has_key(es.push(e), k),
        has_key(es.push(e), e.0@),
{
    assert forall|k: Seq<char>| #[trigger] has_key(es, k) implies has_key(es.push(e), k) by {
        let w = choose|i: int| 0 <= i < es.len() && (#[trigger] es[i]).0@ == k;
        assert((es.push(e)[w]).0@ == k);
    }
    assert((es.push(e)[es.len() as int]).0@ == e.0@);
}

/// The index of the entry holding token `t`, if one exists.
fn find_token(out: &Vec<(String, i64)>, t: &String) -> (r: Option<usize>)
    ensures
        match r {
            Some(i) => i < out@.len() && out@[i as int].0@ == t@,
            None => forall|i: int| 0 <= i < out@.len() ==> (#[trigger] out@[i]).0@ != t@,
        },
{
    let n = out.len();
    let mut i: usize = 0;
    while i < n
        invariant
            i <= n,
            n == out@.len(),
            forall|j: int| 0 <= j < i ==> (#[trigger] out@[j]).0@ != t@,
        decreases n - i,
    {
        if out[i].0 == *t {
            return Some(i);
        }
        i = i + 1;
    }
    None
}

/// Builds the bias table for the given token lists. Each token gets exactly
/// one entry: removed tokens are biased with [`REMOVED_BIAS`], tokens only
/// allowed with [`ALLOWED_BIAS`]; a token on both lists is biased down.
#[verifier::loop_isolation(false)]
pub fn assemble_logit_bias(
    allowed_tokens: Option<Vec<String>>,
    removed_tokens: Option<Vec<String>>,
) -> (r: Vec<(String, i64)>)
    ensures
        forall|i: int|
            0 <= i < r@.len() ==> entry_ok(
                tokens_of(allowed_tokens),
                tokens_of(removed_tokens),
                #[trigger] r@[i],
            ),
        forall|i: int, j: int| 0 <= i < j < r@.len() ==> r@[i].0@ != r@[j].0@,
        forall|k: Seq<char>|
            contains_text(tokens_of(allowed_tokens), k) || #[trigger] contains_text(
                tokens_of(removed_tokens),
                k,
            ) ==> has_key(r@, k),
{
    let ghost allowed_texts = tokens_of(allowed_tokens);
    let ghost removed_texts = tokens_of(removed_tokens);
    let mut out: Vec<(String, i64)> = Vec::new();
    match &allowed_tokens {
        Some(allowed) => {
            let n = allowed.len();
            let mut j: usize = 0;
            while j < n
                invariant
                    j <= n,
                    n == allowed@.len(),
                    allowed_texts == allowed@.map_values(|s: String| s@),
                    forall|i: int|
                        0 <= i < out@.len() ==> (#[trigger] out@[i]).1 == ALLOWED_BIAS
                            && contains_text(allowed_texts, out@[i].0@),
                    forall|i: int, i2: int| 0 <= i < i2 < out@.len() ==> out@[i].0@ != out@[i2].0@,
                    forall|jj: int| 0 <= jj < j ==> has_key(out@, #[trigger] allowed@[jj]@),
                decreases n - j,
            {
                let t = &allowed[j];
                proof {
                    assert(allowed_texts[j as int] == allowed@[j as int]@);
                }
                match find_token(&out, t) {
                    Some(i) => {
                        proof {
                            assert(has_key(out@, allowed@[j as int]@));
                        }
                    },
                    None => {
                        let ghost before = out@;
                        out.push((t.clone(), ALLOWED_BIAS));
                        proof {
                            lemma_push_preserves_keys(before, out@.last());
                            assert(out@ == before.push(out@.last()));
                        }
                    },
                }
                j = j + 1;
            }
        },
        None => {},
    }
    let ghost mid = out@;
    match &removed_tokens {
        Some(removed) => {
            let n = removed.len();
            let mut j: usize = 0;
            while j < n
                invariant
                    j <= n,
                    n == removed@.len(),
                    removed_texts == removed@.map_values(|s: String| s@),
                    forall|i: int|
                        0 <= i < out@.len() ==> ((#[trigger] out@[i]).1 == REMOVED_BIAS
                            && contains_text(removed_texts.take(j as int), out@[i].0@)) || (out@[i].1 == ALLOWED_BIAS && contains_text(allowed_texts, out@[i].0@)
                            && !contains_text(removed_texts.take(j as int), out@[i].0@)),
                    forall|i: int, i2: int| 0 <= i < i2 < out@.len() ==> out@[i].0@ != out@[i2].0@,
                    forall|k: Seq<char>| #[trigger] has_key(mid, k) ==> has_key(out@, k),
                    forall|jj: int| 0 <= jj < j ==> has_key(out@, #[trigger] removed@[jj]@),
                decreases n - j,
            {
                let t = &removed[j];
                proof {
                    assert(removed_texts[j as int] == removed@[j as int]@);
                    assert(removed_texts.take(j + 1).drop_last() =~= removed_texts.take(j as int));
                    assert(forall|k: Seq<char>|
                        contains_text(removed_texts.take(j as int), k) ==> #[trigger] contains_text(
                            removed_texts.take(j + 1),
                            k,
                        ));
                }
                proof {
                    assert(removed_texts.take(j + 1)[j as int] == removed@[j as int]@);
                    assert(contains_text(removed_texts.take(j + 1), removed@[j as int]@));
                }
                match find_token(&out, t) {
                    Some(i) => {
                        let ghost before = out@;
                        let entry = out.remove(i);
                        out.push((entry.0, REMOVED_BIAS));
                        proof {
                            assert((out@.last()).0@ == removed@[j as int]@);
                            assert(has_key(out@, removed@[j as int]@));
                            assert(forall|i2: int|
                                0 <= i2 < out@.len() - 1 ==> #[trigger] out@[i2] == (if i2 < i {
                                    before[i2]
                                } else {
                                    before[i2 + 1]
                                }));
                            assert forall|k: Seq<char>| #[trigger] has_key(before, k) implies
                                has_key(out@, k) by {
                                let w = choose|i2: int|
                                    0 <= i2 < before.len() && (#[trigger] before[i2]).0@ == k;
                                if w == i {
                                    assert((out@[out@.len() - 1]).0@ == k);
                                } else if w < i {
                                    assert((out@[w]).0@ == k);
                                } else {
                                    assert((out@[w - 1]).0@ == k);
                                }
                            }
                        }
                    },
                    None => {
                        let ghost before = out@;
                        out.push((t.clone(), REMOVED_BIAS));
                        proof {
                            lemma_push_preserves_keys(before, out@.last());
                            assert(out@ == before.push(out@.last()));
                            assert((out@.last()).0@ == removed@[j as int]@);
                        }
                    },
                }
                j = j + 1;
            }
            proof {
                assert(removed_texts.take(n as int) =~= removed_texts);
            }
        },
        None => {},
    }
    proof {
        if removed_tokens is None {
            assert(removed_texts.len() == 0);
            assert(forall|k: Seq<char>| !contains_text(removed_texts, k));
        }
    }
    out
}

/// The punctuation tokens commonly biased: period, comma, semicolon, colon,
/// exclamation and question marks, and both quote characters.
pub fn generate_punctuation() -> (r: Vec<String>)
    ensures
        r@.len() == 8,
        r@[0]@ == "."@,
        r@[1]@ == ","@,
        r@[2]@ == ";"@,
        r@[3]@ == ":"@,
        r@[4]@ == "!"@,
        r@[5]@ == "?"@,
        r@[6]@ == "'"@,
        r@[7]@ == "\""@,
{
    let mut r: Vec<String> = Vec::new();
    r.push(".".to_owned());
    r.push(",".to_owned());
    r.push(";".to_owned());
    r.push(":".to_owned());
    r.push("!".to_owned());
    r.push("?".to_owned());
    r.push("'".to_owned());
    r.push("\"".to_owned());
    r
}

/// Tokens that tend to split list output badly: brackets, parentheses,
/// bullets, and the list-item words themselves.
pub fn generate_bad_split_chars() -> (r: Vec<String>)
    ensures
        r@.len() == 13,
        r@[0]@ == "[]"@,
        r@[1]@ == "["@,
        r@[2]@ == "]"@,
        r@[3]@ == "()"@,
        r@[4]@ == "("@,
        r@[5]@ == ")"@,
        r@[6]@ == "\u{2022}"@,
        r@[7]@ == "entry"@,
        r@[8]@ == "Entry"@,
        r@[9]@ == "story"@,
        r@[10]@ == "Story"@,
        r@[11]@ == "Feature"@,
        r@[12]@ == "feature"@,
{
    let mut r: Vec<String> = Vec::new();
    r.push("[]".to_owned());
    r.push("[".to_owned());
    r.push("]".to_owned());
    r.push("()".to_owned());
    r.push("(".to_owned());
    r.push(")".to_owned());
    r.push("\u{2022}".to_owned());
    r.push("entry".to_owned());
    r.push("Entry".to_owned());
    r.push("story".to_owned());
    r.push("Story".to_owned());
    r.push("Feature".to_owned());
    r.push("feature".to_owned());
    r
}

/// The escaped whitespace tokens biased away: tab, carriage return, vertical
/// tab and form feed, each as its two-character escape text.
pub fn generate_whitespace_chars() -> (r: Vec<String>)
    ensures
        r@.len() == 4,
        r@[0]@ == "\\t"@,
        r@[1]@ == "\\r"@,
        r@[2]@ == "\\v"@,
        r@[3]@ == "\\f"@,
{
    let mut r: Vec<String> = Vec::new();
    r.push("\\t".to_owned());
    r.push("\\r".to_owned());
    r.push("\\v".to_owned());
    r.push("\\f".to_owned());
    r
}

} // verus!
