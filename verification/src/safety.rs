//! Lexical SQL safety validator: a best-effort, case-insensitive denylist
//! of destructive verbs, checked before any statement reaches the engine.
//!
//! The check is a plain substring search with ASCII case folding of the
//! submitted text, not a SQL parser: a column named `deleted_at` is
//! over-blocked, while a keyword hidden inside a comment or split by
//! separators is not caught.

use crate::error::CoreError;
use vstd::prelude::*;

verus! {

/// Where the statement will run; the real-time streaming path is read-only.
#[derive(Debug, Clone, Copy, PartialEq, Eq, Structural)]
pub enum ValidationMode {
    General,
    ReadOnly,
}

/// ASCII case folding of one character: `A`..`Z` map to `a`..`z`,
/// everything else is left alone, expressed on the character's code.
pub open spec fn folded_code(c: char) -> u32 {
    if 65 <= c as u32 <= 90 {
        (c as u32 + 32) as u32
    } else {
        c as u32
    }
}

/// The keyword `kw` occurs in `s` at position `i`, up to ASCII case of `s`.
pub open spec fn keyword_at(s: Seq<char>, kw: Seq<char>, i: int) -> bool {
    forall|j: int| 0 <= j < kw.len() ==> folded_code(s[i + j]) == kw[j] as u32
}

/// The keyword `kw` occurs somewhere in `s`, up to ASCII case of `s`.
pub open spec fn contains_keyword(s: Seq<char>, kw: Seq<char>) -> bool {
    exists|i: int| 0 <= i && i + kw.len() <= s.len() && keyword_at(s, kw, i)
}

/// SQL text rejected in every mode: it mentions `drop` or `delete`.
pub open spec fn forbidden_general(s: Seq<char>) -> bool {
    contains_keyword(s, "drop"@) || contains_keyword(s, "delete"@)
}

/// SQL text rejected on the read-only path: additionally `insert`
/// and `update` are denied.
pub open spec fn forbidden_read_only(s: Seq<char>) -> bool {
    forbidden_general(s) || contains_keyword(s, "insert"@) || contains_keyword(s, "update"@)
}

/// Whether `sql` is rejected under `mode`.
pub open spec fn forbidden_in_mode(s: Seq<char>, mode: ValidationMode) -> bool {
    match mode {
        ValidationMode::General => forbidden_general(s),
        ValidationMode::ReadOnly => forbidden_read_only(s),
    }
}

/// Case-folding substring search: does `kw` occur in `s`, ignoring the
/// ASCII case of `s`?
pub fn contains_keyword_fold(s: &str, kw: &str) -> (r: bool)
    ensures
        r == contains_keyword(s@, kw@),
{
    let n: usize = s.unicode_len();
    let m: usize = kw.unicode_len();
    if m > n {
        return false;
    }
    let mut i: usize = 0;
    while i <= n - m
        invariant
            n == s@.len(),
            m == kw@.len(),
            m <= n,
            i <= n - m + 1,
            forall|i2: int| 0 <= i2 < i ==> !keyword_at(s@, kw@, i2),
        decreases n - m + 1 - i,
    {
        let mut j: usize = 0;
        let mut mismatch: bool = false;
        while j < m
            invariant
                n == s@.len(),
                m == kw@.len(),
                i + m <= n,
                j <= m,
                !mismatch ==> forall|j2: int|
                    0 <= j2 < j ==> folded_code(s@[i + j2]) == kw@[j2] as u32,
                mismatch ==> !keyword_at(s@, kw@, i as int),
            decreases m - j,
        {
            let sc = s.get_char(i + j);
            let kc = kw.get_char(j);
            let code: u32 = sc as u32;
            let folded: u32 = if 65 <= code && code <= 90 {
                code + 32
            } else {
                code
            };
            if folded != kc as u32 {
                proof {
                    assert(folded_code(s@[i + j]) != kw@[j as int] as u32);
                }
                mismatch = true;
            }
            j += 1;
        }
        if !mismatch {
            proof {
                assert(keyword_at(s@, kw@, i as int));
            }
            return true;
        }
        i += 1;
    }
    proof {
        assert(forall|i2: int| 0 <= i2 && i2 + kw@.len() <= s@.len() ==> !keyword_at(
            s@,
            kw@,
            i2,
        ));
    }
    false
}

/// Screen `sql` against the denylist for `mode`.
///
/// Returns `Ok(())` exactly when no denylisted verb occurs in the text,
/// ignoring ASCII case; otherwise the forbidden-statement error for the
/// mode, produced before the statement could touch the engine.
pub fn validate_sql(sql: &str, mode: ValidationMode) -> (r: Result<(), CoreError>)
    ensures
        r is Ok <==> !forbidden_in_mode(sql@, mode),
        r is Err ==> (r matches Err(e) && (e matches CoreError::Forbidden(m) && m@ == (
        match mode {
            ValidationMode::General => "Destructive operations are not allowed"@,
            ValidationMode::ReadOnly => "Only SELECT queries are allowed via WebSocket"@,
        }))),
{
    let rejected: bool = match mode {
        ValidationMode::General => {
            contains_keyword_fold(sql, "drop") || contains_keyword_fold(sql, "delete")
        },
        ValidationMode::ReadOnly => {
            contains_keyword_fold(sql, "drop") || contains_keyword_fold(sql, "delete")
                || contains_keyword_fold(sql, "insert") || contains_keyword_fold(sql, "update")
        },
    };
    if rejected {
        match mode {
            ValidationMode::General => Err(
                CoreError::Forbidden(String::from_str("Destructive operations are not allowed")),
            ),
            ValidationMode::ReadOnly => Err(
                CoreError::Forbidden(
                    String::from_str("Only SELECT queries are allowed via WebSocket"),
                ),
            ),
        }
    } else {
        Ok(())
    }
}

} // verus!
