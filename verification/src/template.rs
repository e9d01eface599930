//! Preparation of the message template given on the command line.
use vstd::prelude::*;

use crate::text::{chars_of, string_of};

verus! {

/// What an escape letter following a backslash stands for, if it is one
/// of the recognised escapes (`\n`, `\r`, `\t`, `\\`).
pub open spec fn escape_meaning(c: char) -> Option<char> {
    if c == 'n' {
        Some('\n')
    } else if c == 'r' {
        Some('\r')
    } else if c == 't' {
        Some('\t')
    } else if c == '\\' {
        Some('\\')
    } else {
        None
    }
}

/// The template text after its escapes are resolved, read left to right:
/// a backslash followed by `n`, `r`, `t` or a backslash becomes the
/// corresponding character; any other backslash stays as it is, and the
/// character after it is read anew.
pub open spec fn unescaped(s: Seq<char>) -> Seq<char>
    decreases s.len(),
{
    if s.len() == 0 {
        seq![]
    } else if s[0] == '\\' && s.len() >= 2 && escape_meaning(s[1]) is Some {
        seq![escape_meaning(s[1])->0] + unescaped(s.skip(2))
    } else {
        seq![s[0]] + unescaped(s.skip(1))
    }
}

/// Resolves the escapes `\n`, `\r`, `\t` and `\\` in a template given on the
/// command line; every other character, a lone trailing backslash included,
/// is kept as it is.
pub fn unescape_template(s: String) -> (r: String)
    ensures
        r@ == unescaped(s@),
{
    let v = chars_of(s.as_str());
    let n = v.len();
    let mut out: Vec<char> = Vec::new();
    let mut i: usize = 0;
    assert(s@.skip(0) =~= s@);
    assert(out@ + s@ =~= s@);
    while i < n
        invariant
            n == v.len(),
            v@ == s@,
            i <= n,
            unescaped(s@) == out@ + unescaped(s@.skip(i as int)),
        decreases n - i,
    {
        let ghost rest = s@.skip(i as int);
        let ch = v[i];
        if ch == '\\' && i + 1 < n {
            let next = v[i + 1];
            let meaning: Option<char> = if next == 'n' {
                Some('\n')
            } else if next == 'r' {
                Some('\r')
            } else if next == 't' {
                Some('\t')
            } else if next == '\\' {
                Some('\\')
            } else {
                None
            };
            assert(rest[1] == next);
            match meaning {
                Some(m) => {
                    out.push(m);
                    assert(rest.skip(2) =~= s@.skip(i + 2));
                    i = i + 2;
                },
                None => {
                    out.push('\\');
                    assert(rest.skip(1) =~= s@.skip(i + 1));
                    i = i + 1;
                },
            }
        } else {
            out.push(ch);
            assert(rest.skip(1) =~= s@.skip(i + 1));
            i = i + 1;
        }
    }
    assert(s@.skip(n as int) =~= Seq::<char>::empty());
    assert(out@ + Seq::<char>::empty() =~= out@);
    string_of(&out)
}

} // verus!
