//! Small string helpers shared by the model, the validator and the I/O layers.
use vstd::prelude::*;
use vstd::string::StringExecFns;

verus! {

/// Equality of two string slices, compared as sequences of characters.
///
/// Calls `<str as PartialEq>::eq`; std documents string equality as equality
/// of the contents, which this contract states over the character views.
#[verifier::external_body]
pub(crate) fn str_eq(a: &str, b: &str) -> (res: bool)
    ensures
        res == (a@ == b@),
{
    a == b
}

/// The decimal digit character for a value below ten.
pub open spec fn digit_char(d: nat) -> char {
    if d == 0 { '0' } else if d == 1 { '1' } else if d == 2 { '2' } else if d == 3 { '3' }
    else if d == 4 { '4' } else if d == 5 { '5' } else if d == 6 { '6' } else if d == 7 { '7' }
    else if d == 8 { '8' } else { '9' }
}

/// The decimal representation of a natural number, without leading zeros.
pub open spec fn decimal(n: nat) -> Seq<char>
    decreases n,
{
    if n < 10 {
        seq![digit_char(n)]
    } else {
        decimal(n / 10).push(digit_char(n % 10))
    }
}

/// The one-character string literal for a decimal digit.
fn digit_str(d: usize) -> (res: &'static str)
    requires
        d < 10,
    ensures
        res@ == seq![digit_char(d as nat)],
{
    proof {
        reveal_strlit("0");
        reveal_strlit("1");
        reveal_strlit("2");
        reveal_strlit("3");
        reveal_strlit("4");
        reveal_strlit("5");
        reveal_strlit("6");
        reveal_strlit("7");
        reveal_strlit("8");
        reveal_strlit("9");
    }
    if d == 0 { "0" } else if d == 1 { "1" } else if d == 2 { "2" } else if d == 3 { "3" }
    else if d == 4 { "4" } else if d == 5 { "5" } else if d == 6 { "6" } else if d == 7 { "7" }
    else if d == 8 { "8" } else { "9" }
}

/// Appends the decimal representation of `n` to `out`.
pub fn push_decimal(out: &mut String, n: u128)
    ensures
        final(out)@ == old(out)@ + decimal(n as nat),
    decreases n,
{
    if n < 10 {
        out.append(digit_str(n as usize));
    } else {
        push_decimal(out, n / 10);
        out.append(digit_str((n % 10) as usize));
        assert(decimal(n as nat) == decimal((n / 10) as nat).push(digit_char((n % 10) as nat)));
    }
}

/// Strict lexicographic order on character sequences, comparing characters
/// by their code points (the order of `str` and `String`).
pub open spec fn seq_lt(a: Seq<char>, b: Seq<char>) -> bool
    decreases a.len(),
{
    if a.len() == 0 {
        b.len() > 0
    } else if b.len() == 0 {
        false
    } else if (a[0] as int) < (b[0] as int) {
        true
    } else if a[0] == b[0] {
        seq_lt(a.drop_first(), b.drop_first())
    } else {
        false
    }
}

/// The lexicographic order is irreflexive.
pub proof fn lemma_seq_lt_irreflexive(a: Seq<char>)
    ensures
        !seq_lt(a, a),
    decreases a.len(),
{
    if a.len() > 0 {
        lemma_seq_lt_irreflexive(a.drop_first());
    }
}

/// The lexicographic order is transitive.
pub proof fn lemma_seq_lt_transitive(a: Seq<char>, b: Seq<char>, c: Seq<char>)
    requires
        seq_lt(a, b),
        seq_lt(b, c),
    ensures
        seq_lt(a, c),
    decreases a.len(),
{
    if a.len() > 0 && b.len() > 0 && c.len() > 0 && a[0] == b[0] && b[0] == c[0] {
        lemma_seq_lt_transitive(a.drop_first(), b.drop_first(), c.drop_first());
    }
}

/// Two different sequences are ordered one way or the other.
pub proof fn lemma_seq_lt_total(a: Seq<char>, b: Seq<char>)
    requires
        a != b,
    ensures
        seq_lt(a, b) || seq_lt(b, a),
    decreases a.len(),
{
    if a.len() == 0 {
        assert(b.len() > 0) by {
            if b.len() == 0 {
                assert(a =~= b);
            }
        }
    } else if b.len() > 0 && a[0] == b[0] {
        if a.drop_first() == b.drop_first() {
            assert(a =~= seq![a[0]] + a.drop_first());
            assert(b =~= seq![b[0]] + b.drop_first());
        }
        lemma_seq_lt_total(a.drop_first(), b.drop_first());
    } else if b.len() > 0 {
        assert((a[0] as int) != (b[0] as int));
    }
}

/// The characters of a string, as a vector.
pub fn chars_of(s: &str) -> (res: Vec<char>)
    ensures
        res@ == s@,
{
    let mut res: Vec<char> = Vec::new();
    for c in it: s.chars()
        invariant
            res@ == it.seq().take(it.index() as int),
    {
        res.push(c);
    }
    res
}

/// Compares two strings in lexicographic order of their characters.
pub fn lex_less(a: &str, b: &str) -> (res: bool)
    ensures
        res == seq_lt(a@, b@),
{
    let av = chars_of(a);
    let bv = chars_of(b);
    let mut i: usize = 0;
    assert(av@.skip(0) == av@);
    assert(bv@.skip(0) == bv@);
    while i < av.len() && i < bv.len() && av[i] == bv[i]
        invariant
            av@ == a@,
            bv@ == b@,
            0 <= i <= av@.len(),
            i <= bv@.len(),
            seq_lt(a@, b@) == seq_lt(av@.skip(i as int), bv@.skip(i as int)),
        decreases av@.len() - i,
    {
        assert(av@.skip(i as int).drop_first() == av@.skip(i + 1));
        assert(bv@.skip(i as int).drop_first() == bv@.skip(i + 1));
        i += 1;
    }
    assert(av@.skip(i as int).len() == av@.len() - i);
    assert(i < av@.len() ==> av@.skip(i as int)[0] == av@[i as int]);
    assert(i < bv@.len() ==> bv@.skip(i as int)[0] == bv@[i as int]);
    if i == av.len() {
        i < bv.len()
    } else if i == bv.len() {
        false
    } else {
        let x = av[i];
        let y = bv[i];
        assert(x != y);
        x < y
    }
}

/// The strings of `v` are in strictly increasing lexicographic order.
pub open spec fn strictly_sorted(v: Seq<String>) -> bool {
    forall|i: int, j: int| 0 <= i < j < v.len() ==> seq_lt(#[trigger] v[i]@, #[trigger] v[j]@)
}

/// Some string of `v` has the characters `x`.
pub open spec fn has_text(v: Seq<String>, x: Seq<char>) -> bool {
    exists|i: int| 0 <= i < v.len() && (#[trigger] v[i])@ == x
}

/// No two strings of `v` have the same characters.
pub open spec fn distinct_texts(v: Seq<String>) -> bool {
    forall|i: int, j: int| 0 <= i < j < v.len() ==> (#[trigger] v[i])@ != (#[trigger] v[j])@
}

/// Inserts `x` into a strictly sorted vector that does not hold it yet.
fn insert_sorted(out: &mut Vec<String>, x: String)
    requires
        strictly_sorted(old(out)@),
        !has_text(old(out)@, x@),
    ensures
        strictly_sorted(final(out)@),
        final(out)@.len() == old(out)@.len() + 1,
        forall|y: Seq<char>| has_text(final(out)@, y) <==> (has_text(old(out)@, y) || y == x@),
{
    let mut p: usize = 0;
    while p < out.len() && lex_less(out[p].as_str(), x.as_str())
        invariant
            0 <= p <= out@.len(),
            out@ == old(out)@,
            forall|i: int| 0 <= i < p ==> seq_lt(#[trigger] out@[i]@, x@),
        decreases out@.len() - p,
    {
        p += 1;
    }
    let ghost before = out@;
    proof {
        if p < before.len() {
            assert(before[p as int]@ != x@);
            lemma_seq_lt_total(before[p as int]@, x@);
        }
    }
    out.insert(p, x);
    let ghost xv = x@;
    assert forall|i: int, j: int| 0 <= i < j < out@.len() implies seq_lt(#[trigger] out@[i]@, #[trigger] out@[j]@) by {
        if j < p {
        } else if j == p {
        } else if i < p {
            lemma_seq_lt_transitive(out@[i]@, xv, before[p as int]@);
            if j - 1 > p {
                lemma_seq_lt_transitive(out@[i]@, before[p as int]@, before[j - 1]@);
            }
        } else if i == p {
            if j - 1 > p {
                lemma_seq_lt_transitive(xv, before[p as int]@, before[j - 1]@);
            }
        } else {
            assert(out@[i] == before[i - 1] && out@[j] == before[j - 1]);
        }
    }
    assert forall|y: Seq<char>| has_text(out@, y) <==> (has_text(before, y) || y == xv) by {
        if has_text(out@, y) {
            let i = choose|i: int| 0 <= i < out@.len() && (#[trigger] out@[i])@ == y;
            if i < p {
                assert(before[i]@ == y);
            } else if i > p {
                assert(before[i - 1]@ == y);
            }
        }
        if has_text(before, y) {
            let i = choose|i: int| 0 <= i < before.len() && (#[trigger] before[i])@ == y;
            if i < p {
                assert(out@[i]@ == y);
            } else {
                assert(out@[i + 1]@ == y);
            }
        }
        if y == xv {
            assert(out@[p as int]@ == y);
        }
    }
}

/// Sorts strings with pairwise different contents into strictly increasing order.
pub fn sort_texts(v: Vec<String>) -> (res: Vec<String>)
    requires
        distinct_texts(v@),
    ensures
        strictly_sorted(res@),
        forall|y: Seq<char>| has_text(res@, y) <==> has_text(v@, y),
        res@.len() == v@.len(),
{
    let mut out: Vec<String> = Vec::new();
    let mut rest = v;
    let ghost original = rest@;
    let mut i: usize = 0;
    let n = rest.len();
    while i < n
        invariant
            n == original.len(),
            distinct_texts(original),
            0 <= i <= n,
            rest@ == original.skip(i as int),
            strictly_sorted(out@),
            out@.len() == i,
            forall|y: Seq<char>| has_text(out@, y) <==> has_text(original.take(i as int), y),
        decreases n - i,
    {
        let x = rest.remove(0);
        assert(x == original[i as int]);
        assert(rest@ =~= original.skip(i + 1));
        assert(!has_text(out@, x@)) by {
            if has_text(original.take(i as int), x@) {
                let j = choose|j: int| 0 <= j < original.take(i as int).len() && (#[trigger] original.take(i as int)[j])@ == x@;
                assert(original[j]@ == original[i as int]@);
            }
        }
        let ghost old_out = out@;
        insert_sorted(&mut out, x);
        assert forall|y: Seq<char>| has_text(original.take(i + 1), y) <==> (has_text(original.take(i as int), y) || y == original[i as int]@) by {
            if has_text(original.take(i + 1), y) {
                let j = choose|j: int| 0 <= j < original.take(i + 1).len() && (#[trigger] original.take(i + 1)[j])@ == y;
                if j < i {
                    assert(original.take(i as int)[j]@ == y);
                }
            }
            if has_text(original.take(i as int), y) {
                let j = choose|j: int| 0 <= j < original.take(i as int).len() && (#[trigger] original.take(i as int)[j])@ == y;
                assert(original.take(i + 1)[j]@ == y);
            }
            if y == original[i as int]@ {
                assert(original.take(i + 1)[i as int]@ == y);
            }
        }
        i += 1;
    }
    assert(original.take(n as int) == original);
    out
}

/// Whether `s` begins with `p`.
pub fn has_prefix(s: &str, p: &str) -> (res: bool)
    ensures
        res == (p@.len() <= s@.len() && s@.take(p@.len() as int) == p@),
{
    let sv = chars_of(s);
    let pv = chars_of(p);
    if pv.len() > sv.len() {
        return false;
    }
    let mut i: usize = 0;
    while i < pv.len()
        invariant
            sv@ == s@,
            pv@ == p@,
            pv@.len() <= sv@.len(),
            0 <= i <= pv@.len(),
            forall|j: int| 0 <= j < i ==> sv@[j] == pv@[j],
        decreases pv@.len() - i,
    {
        if sv[i] != pv[i] {
            assert(s@.take(p@.len() as int)[i as int] != p@[i as int]);
            return false;
        }
        i += 1;
    }
    assert(s@.take(p@.len() as int) =~= p@);
    true
}

/// Whether `s` ends with `p`.
pub fn has_suffix(s: &str, p: &str) -> (res: bool)
    ensures
        res == (p@.len() <= s@.len() && s@.skip(s@.len() - p@.len()) == p@),
{
    let sv = chars_of(s);
    let pv = chars_of(p);
    if pv.len() > sv.len() {
        return false;
    }
    let off: usize = sv.len() - pv.len();
    let mut i: usize = 0;
    while i < pv.len()
        invariant
            sv@ == s@,
            pv@ == p@,
            off == sv@.len() - pv@.len(),
            pv@.len() <= sv@.len(),
            0 <= i <= pv@.len(),
            forall|j: int| 0 <= j < i ==> sv@[off + j] == pv@[j],
        decreases pv@.len() - i,
    {
        assert(off + i < sv.len());
        if sv[off + i] != pv[i] {
            assert(s@.skip(s@.len() - p@.len())[i as int] != p@[i as int]);
            return false;
        }
        i += 1;
    }
    assert(s@.skip(s@.len() - p@.len()) =~= p@);
    true
}

/// Appends one character to a string.
///
/// Calls `String::push`, which std documents as appending the character to
/// the end of the string.
#[verifier::external_body]
pub(crate) fn push_char(s: &mut String, c: char)
    ensures
        final(s)@ == old(s)@.push(c),
{
    s.push(c)
}

/// The XML escape of one character.
pub open spec fn escape_char(c: char) -> Seq<char> {
    if c == '&' {
        "&amp;"@
    } else if c == '<' {
        "&lt;"@
    } else if c == '>' {
        "&gt;"@
    } else if c == '"' {
        "&quot;"@
    } else if c == '\'' {
        "&apos;"@
    } else {
        seq![c]
    }
}

/// A text with the XML special characters (`& < > " '`) replaced by entities.
pub open spec fn xml_escaped(s: Seq<char>) -> Seq<char>
    decreases s.len(),
{
    if s.len() == 0 {
        seq![]
    } else {
        xml_escaped(s.drop_last()) + escape_char(s.last())
    }
}

/// Escapes XML special characters in text content and attribute values.
pub fn xml_escape(s: &str) -> (res: String)
    ensures
        res@ == xml_escaped(s@),
{
    let cs = chars_of(s);
    let mut out = String::new();
    let mut i: usize = 0;
    while i < cs.len()
        invariant
            cs@ == s@,
            0 <= i <= cs@.len(),
            out@ == xml_escaped(s@.take(i as int)),
        decreases cs@.len() - i,
    {
        let c = cs[i];
        assert(s@.take(i + 1).drop_last() == s@.take(i as int));
        if c == '&' {
            out.append("&amp;");
        } else if c == '<' {
            out.append("&lt;");
        } else if c == '>' {
            out.append("&gt;");
        } else if c == '"' {
            out.append("&quot;");
        } else if c == '\'' {
            out.append("&apos;");
        } else {
            push_char(&mut out, c);
        }
        i += 1;
    }
    assert(s@.take(cs@.len() as int) == s@);
    out
}

/// A character with ASCII upper-case letters mapped to lower case.
pub open spec fn ascii_lower_char(c: char) -> char {
    if 'A' <= c && c <= 'Z' { ((c as int) + 32) as char } else { c }
}

/// A text with ASCII upper-case letters mapped to lower case.
pub open spec fn ascii_lower(s: Seq<char>) -> Seq<char> {
    s.map_values(|c: char| ascii_lower_char(c))
}

/// Maps an ASCII upper-case letter to lower case; leaves other characters.
fn lower_char(c: char) -> (res: char)
    ensures
        res == ascii_lower_char(c),
{
    if 'A' <= c && c <= 'Z' {
        ((c as u8) + 32) as char
    } else {
        c
    }
}

/// The text with its ASCII upper-case letters in lower case.
pub fn to_ascii_lower(s: &str) -> (res: String)
    ensures
        res@ == ascii_lower(s@),
{
    let cs = chars_of(s);
    let mut out = String::new();
    let mut i: usize = 0;
    while i < cs.len()
        invariant
            cs@ == s@,
            0 <= i <= cs@.len(),
            out@ == ascii_lower(s@.take(i as int)),
        decreases cs@.len() - i,
    {
        let c = lower_char(cs[i]);
        push_char(&mut out, c);
        assert(ascii_lower(s@.take(i + 1)) =~= ascii_lower(s@.take(i as int)).push(c));
        i += 1;
    }
    assert(s@.take(cs@.len() as int) == s@);
    out
}

} // verus!
