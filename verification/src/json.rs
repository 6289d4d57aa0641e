//! JSON string literals: the escaping a JSON encoder applies to text placed
//! between double quotes. Quote and backslash are escaped, control characters
//! below space get their short escapes or a `\u00XX` form with lowercase hex
//! digits, and every other character stands as itself.

use vstd::prelude::*;

verus! {

use vstd::string::StrSliceExecFns;
use vstd::string::StringExecFns;
use crate::text::substring;

/// The character for one hexadecimal digit value, lowercase.
pub open spec fn hex_char(d: int) -> char {
    if d == 0 { '0' }
    else if d == 1 { '1' }
    else if d == 2 { '2' }
    else if d == 3 { '3' }
    else if d == 4 { '4' }
    else if d == 5 { '5' }
    else if d == 6 { '6' }
    else if d == 7 { '7' }
    else if d == 8 { '8' }
    else if d == 9 { '9' }
    else if d == 10 { 'a' }
    else if d == 11 { 'b' }
    else if d == 12 { 'c' }
    else if d == 13 { 'd' }
    else if d == 14 { 'e' }
    else { 'f' }
}

/// Whether `c` cannot stand as itself inside a JSON string literal.
pub open spec fn needs_escape(c: char) -> bool {
    c == '"' || c == '\\' || (c as u32) < 32
}

/// What one character becomes inside a JSON string literal.
pub open spec fn escaped_char(c: char) -> Seq<char> {
    if c == '"' {
        seq!['\\', '"']
    } else if c == '\\' {
        seq!['\\', '\\']
    } else if c == '\u{8}' {
        seq!['\\', 'b']
    } else if c == '\t' {
        seq!['\\', 't']
    } else if c == '\n' {
        seq!['\\', 'n']
    } else if c == '\u{c}' {
        seq!['\\', 'f']
    } else if c == '\r' {
        seq!['\\', 'r']
    } else if (c as u32) < 32 {
        seq!['\\', 'u', '0', '0', hex_char((c as u32 / 16) as int), hex_char((c as u32 % 16) as int)]
    } else {
        seq![c]
    }
}

/// The whole text with each character escaped.
pub open spec fn json_escaped(s: Seq<char>) -> Seq<char>
    decreases s.len(),
{
    if s.len() == 0 {
        Seq::<char>::empty()
    } else {
        escaped_char(s[0]) + json_escaped(s.drop_first())
    }
}

/// A JSON string literal: the escaped text between double quotes.
pub open spec fn json_string_chars(s: Seq<char>) -> Seq<char> {
    seq!['"'] + json_escaped(s) + seq!['"']
}

/// Escaping distributes over concatenation.
pub proof fn lemma_json_escaped_concat(a: Seq<char>, b: Seq<char>)
    ensures
        json_escaped(a + b) == json_escaped(a) + json_escaped(b),
    decreases a.len(),
{
    if a.len() == 0 {
        assert(a + b =~= b);
        assert(json_escaped(a) + json_escaped(b) =~= json_escaped(b));
    } else {
        lemma_json_escaped_concat(a.drop_first(), b);
        assert((a + b).drop_first() =~= a.drop_first() + b);
        assert((a + b)[0] == a[0]);
        assert(escaped_char(a[0]) + (json_escaped(a.drop_first()) + json_escaped(b))
            =~= (escaped_char(a[0]) + json_escaped(a.drop_first())) + json_escaped(b));
    }
}

/// Text in which nothing needs an escape passes through unchanged.
pub proof fn lemma_json_escaped_plain(s: Seq<char>)
    requires
        forall|j: int| 0 <= j < s.len() ==> !needs_escape(s[j]),
    ensures
        json_escaped(s) == s,
    decreases s.len(),
{
    if s.len() == 0 {
        assert(json_escaped(s) =~= s);
    } else {
        lemma_json_escaped_plain(s.drop_first());
        assert(!needs_escape(s[0]));
        assert(escaped_char(s[0]) =~= seq![s[0]]);
        assert(seq![s[0]] + s.drop_first() =~= s);
    }
}

/// Executable mirror of `needs_escape`.
fn char_needs_escape(c: char) -> (r: bool)
    ensures
        r == needs_escape(c),
{
    c == '"' || c == '\\' || (c as u32) < 32
}

/// The string for one hexadecimal digit value.
fn hex_to_str(d: u32) -> (r: &'static str)
    requires
        d < 16,
    ensures
        r@ =~= seq![hex_char(d as int)],
{
    proof {
        reveal_strlit("0");
        reveal_strlit("1");
        reveal_strlit("2");
        reveal_strlit("3");
        reveal_strlit("4");
        reveal_strlit("5");
        reveal_strlit("6");
        reveal_strlit("7");
        reveal_strlit("8");
        reveal_strlit("9");
        reveal_strlit("a");
        reveal_strlit("b");
        reveal_strlit("c");
        reveal_strlit("d");
        reveal_strlit("e");
        reveal_strlit("f");
    }
    if d == 0 { "0" }
    else if d == 1 { "1" }
    else if d == 2 { "2" }
    else if d == 3 { "3" }
    else if d == 4 { "4" }
    else if d == 5 { "5" }
    else if d == 6 { "6" }
    else if d == 7 { "7" }
    else if d == 8 { "8" }
    else if d == 9 { "9" }
    else if d == 10 { "a" }
    else if d == 11 { "b" }
    else if d == 12 { "c" }
    else if d == 13 { "d" }
    else if d == 14 { "e" }
    else { "f" }
}

/// The escape for one character that needs one.
fn escape_of_char(c: char) -> (r: String)
    requires
        needs_escape(c),
    ensures
        r@ == escaped_char(c),
{
    proof {
        reveal_strlit("\\\"");
        reveal_strlit("\\\\");
        reveal_strlit("\\b");
        reveal_strlit("\\t");
        reveal_strlit("\\n");
        reveal_strlit("\\f");
        reveal_strlit("\\r");
        reveal_strlit("\\u00");
    }
    if c == '"' {
        "\\\"".to_owned()
    } else if c == '\\' {
        "\\\\".to_owned()
    } else if c == '\u{8}' {
        "\\b".to_owned()
    } else if c == '\t' {
        "\\t".to_owned()
    } else if c == '\n' {
        "\\n".to_owned()
    } else if c == '\u{c}' {
        "\\f".to_owned()
    } else if c == '\r' {
        "\\r".to_owned()
    } else {
        let v = c as u32;
        let mut out = "\\u00".to_owned();
        out.append(hex_to_str(v / 16));
        out.append(hex_to_str(v % 16));
        proof {
            assert(out@ =~= escaped_char(c));
        }
        out
    }
}

/// Escapes `s` for placement inside a JSON string literal.
#[verifier::loop_isolation(false)]
pub fn escape_json(s: &str) -> (r: String)
    ensures
        r@ == json_escaped(s@),
{
    let n = s.unicode_len();
    let mut out = String::new();
    let mut i: usize = 0;
    while i < n
        invariant
            0 <= i <= n,
            n == s@.len(),
            out@ == json_escaped(s@.subrange(0, i as int)),
        decreases n - i,
    {
        let mut j: usize = i;
        while j < n && !char_needs_escape(s.get_char(j))
            invariant
                i <= j <= n,
                forall|k: int| i <= k < j ==> !needs_escape(s@[k]),
            decreases n - j,
        {
            j = j + 1;
        }
        let run = substring(s, i, j);
        proof {
            lemma_json_escaped_plain(run@);
            lemma_json_escaped_concat(s@.subrange(0, i as int), run@);
            assert(s@.subrange(0, i as int) + run@ =~= s@.subrange(0, j as int));
        }
        out.append(run.as_str());
        if j < n {
            let c = s.get_char(j);
            let esc = escape_of_char(c);
            proof {
                lemma_json_escaped_concat(s@.subrange(0, j as int), seq![c]);
                assert(s@.subrange(0, j as int) + seq![c] =~= s@.subrange(0, j + 1));
                assert(seq![c].drop_first() =~= Seq::<char>::empty());
                assert(json_escaped(Seq::<char>::empty()) =~= Seq::<char>::empty());
                assert(json_escaped(seq![c]) =~= escaped_char(c));
            }
            out.append(esc.as_str());
            i = j + 1;
        } else {
            i = j;
        }
    }
    proof {
        assert(s@.subrange(0, n as int) =~= s@);
    }
    out
}

/// Renders `s` as a JSON string literal, quotes included.
pub fn json_string(s: &str) -> (r: String)
    ensures
        r@ == json_string_chars(s@),
{
    proof {
        reveal_strlit("\"");
    }
    let mut out = "\"".to_owned();
    let escaped = escape_json(s);
    out.append(escaped.as_str());
    out.append("\"");
    proof {
        assert(out@ =~= json_string_chars(s@));
    }
    out
}

} // verus!
