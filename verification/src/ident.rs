//! Validation of names that are spliced into statement text.
//!
//! Collection and index names must be safe identifiers; query keys must be
//! safe dotted paths.  Anything outside these character sets is rejected
//! before it can reach the backing engine, so no caller-supplied name can
//! change the shape of a generated statement.
use vstd::prelude::*;
use vstd::string::*;

verus! {

/// Characters allowed to open an identifier: ASCII letters and underscore.
pub open spec fn is_ident_start(c: char) -> bool {
    ('a' <= c && c <= 'z') || ('A' <= c && c <= 'Z') || c == '_'
}

/// Characters allowed inside an identifier: letters, digits, underscore.
pub open spec fn is_ident_char(c: char) -> bool {
    is_ident_start(c) || ('0' <= c && c <= '9')
}

/// A safe identifier: nonempty, opens with a letter or underscore, and
/// holds only identifier characters.
pub open spec fn is_safe_ident(s: Seq<char>) -> bool {
    &&& s.len() > 0
    &&& is_ident_start(s[0])
    &&& forall|i: int| 0 <= i < s.len() ==> is_ident_char(#[trigger] s[i])
}

/// A safe dotted path: one or more safe identifiers joined by single dots,
/// as in `person.age`.
pub open spec fn is_safe_path(s: Seq<char>) -> bool {
    &&& s.len() > 0
    &&& s[0] != '.'
    &&& s[s.len() - 1] != '.'
    &&& forall|i: int|
        0 <= i < s.len() ==> (is_ident_char(#[trigger] s[i]) || s[i] == '.')
    &&& forall|i: int| 0 < i < s.len() && #[trigger] s[i] == '.' ==> s[i - 1] != '.'
}

fn ident_char(c: char) -> (b: bool)
    ensures
        b == is_ident_char(c),
{
    ('a' <= c && c <= 'z') || ('A' <= c && c <= 'Z') || c == '_' || ('0' <= c && c <= '9')
}

/// Decides whether `s` may stand as a collection or index name inside
/// statement text.
pub fn is_safe_identifier(s: &str) -> (b: bool)
    ensures
        b == is_safe_ident(s@),
{
    let n = s.unicode_len();
    if n == 0 {
        return false;
    }
    let first = s.get_char(0);
    if !(('a' <= first && first <= 'z') || ('A' <= first && first <= 'Z') || first == '_') {
        return false;
    }
    let mut i: usize = 0;
    while i < n
        invariant
            n == s@.len(),
            i <= n,
            forall|j: int| 0 <= j < i ==> is_ident_char(#[trigger] s@[j]),
        decreases n - i,
    {
        if !ident_char(s.get_char(i)) {
            return false;
        }
        i = i + 1;
    }
    true
}

/// Exact character-sequence equality of two strings; used for registry
/// lookups by collection name.
pub fn str_eq(a: &str, b: &str) -> (r: bool)
    ensures
        r == (a@ == b@),
{
    let na = a.unicode_len();
    let nb = b.unicode_len();
    if na != nb {
        return false;
    }
    let mut i: usize = 0;
    while i < na
        invariant
            na == a@.len(),
            na == b@.len(),
            i <= na,
            forall|j: int| 0 <= j < i ==> a@[j] == b@[j],
        decreases na - i,
    {
        if a.get_char(i) != b.get_char(i) {
            return false;
        }
        i = i + 1;
    }
    proof {
        assert(a@ =~= b@);
    }
    true
}

/// Decides whether `s` may stand as a dotted key path inside statement text.
pub fn is_safe_key_path(s: &str) -> (b: bool)
    ensures
        b == is_safe_path(s@),
{
    let n = s.unicode_len();
    if n == 0 {
        return false;
    }
    if s.get_char(0) == '.' {
        return false;
    }
    if s.get_char(n - 1) == '.' {
        return false;
    }
    let mut i: usize = 0;
    while i < n
        invariant
            n == s@.len(),
            i <= n,
            forall|j: int| 0 <= j < i ==> (is_ident_char(#[trigger] s@[j]) || s@[j] == '.'),
            forall|j: int| 0 < j < i && #[trigger] s@[j] == '.' ==> s@[j - 1] != '.',
        decreases n - i,
    {
        let c = s.get_char(i);
        if c == '.' {
            if i > 0 && s.get_char(i - 1) == '.' {
                return false;
            }
        } else {
            if !ident_char(c) {
                return false;
            }
        }
        i = i + 1;
    }
    true
}

} // verus!
