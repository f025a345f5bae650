//! Text primitives shared by every renderer: decimal and hexadecimal digits,
//! indentation, and joined lists.
use vstd::prelude::*;

verus! {

/// The character of a decimal digit.
pub open spec fn digit_char(d: nat) -> char {
    seq!['0', '1', '2', '3', '4', '5', '6', '7', '8', '9'][d as int]
}

/// The character of a lower-case hexadecimal digit.
pub open spec fn hex_char(d: nat) -> char {
    seq!['0', '1', '2', '3', '4', '5', '6', '7', '8', '9', 'a', 'b', 'c', 'd', 'e', 'f'][d as int]
}

/// The decimal representation of `n`, without leading zeros.
pub open spec fn decimal(n: nat) -> Seq<char>
    decreases n,
{
    if n < 10 {
        seq![digit_char(n)]
    } else {
        decimal(n / 10).push(digit_char(n % 10))
    }
}

/// Two lower-case hexadecimal digits of a byte.
pub open spec fn hex_byte(b: u8) -> Seq<char> {
    seq![hex_char(b as nat / 16), hex_char(b as nat % 16)]
}

/// The depth of the children of a line at depth `depth`.
pub open spec fn child_depth(depth: nat) -> nat {
    if depth < usize::MAX {
        depth + 1
    } else {
        depth
    }
}

/// Returns the depth of the children of a line at depth `depth`.
pub fn child_of(depth: usize) -> (r: usize)
    ensures
        r as nat == child_depth(depth as nat),
{
    if depth < usize::MAX {
        depth + 1
    } else {
        depth
    }
}

/// The indentation of a line at depth `depth`: two spaces per level.
pub open spec fn indent(depth: nat) -> Seq<char> {
    Seq::new(2 * depth, |i: int| ' ')
}

/// The digit `d` as a one-character string.
fn digit_str(d: u64) -> (r: &'static str)
    requires
        d < 10,
    ensures
        r@ == seq![digit_char(d as nat)],
{
    if d == 0 {
        proof { reveal_strlit("0"); }
        "0"
    } else if d == 1 {
        proof { reveal_strlit("1"); }
        "1"
    } else if d == 2 {
        proof { reveal_strlit("2"); }
        "2"
    } else if d == 3 {
        proof { reveal_strlit("3"); }
        "3"
    } else if d == 4 {
        proof { reveal_strlit("4"); }
        "4"
    } else if d == 5 {
        proof { reveal_strlit("5"); }
        "5"
    } else if d == 6 {
        proof { reveal_strlit("6"); }
        "6"
    } else if d == 7 {
        proof { reveal_strlit("7"); }
        "7"
    } else if d == 8 {
        proof { reveal_strlit("8"); }
        "8"
    } else {
        proof { reveal_strlit("9"); }
        "9"
    }
}

/// The hexadecimal digit `d` as a one-character string.
fn hex_digit_str(d: u8) -> (r: &'static str)
    requires
        d < 16,
    ensures
        r@ == seq![hex_char(d as nat)],
{
    if d < 10 {
        digit_str(d as u64)
    } else if d == 10 {
        proof { reveal_strlit("a"); }
        "a"
    } else if d == 11 {
        proof { reveal_strlit("b"); }
        "b"
    } else if d == 12 {
        proof { reveal_strlit("c"); }
        "c"
    } else if d == 13 {
        proof { reveal_strlit("d"); }
        "d"
    } else if d == 14 {
        proof { reveal_strlit("e"); }
        "e"
    } else {
        proof { reveal_strlit("f"); }
        "f"
    }
}

/// Appends the decimal representation of `n`.
pub fn push_decimal(out: &mut String, n: u64)
    ensures
        final(out)@ == old(out)@ + decimal(n as nat),
    decreases n,
{
    if n >= 10 {
        push_decimal(out, n / 10);
    }
    out.append(digit_str(n % 10));
    assert(final(out)@ =~= old(out)@ + decimal(n as nat));
}

/// Appends two hexadecimal digits of a byte.
pub fn push_hex_byte(out: &mut String, b: u8)
    ensures
        final(out)@ == old(out)@ + hex_byte(b),
{
    out.append(hex_digit_str(b / 16));
    out.append(hex_digit_str(b % 16));
    assert(final(out)@ =~= old(out)@ + hex_byte(b));
}

/// Appends the indentation of depth `depth`.
pub fn push_indent(out: &mut String, depth: usize)
    ensures
        final(out)@ == old(out)@ + indent(depth as nat),
{
    let ghost start = out@;
    let mut i: usize = 0;
    while i < depth
        invariant
            i <= depth,
            out@ == start + indent(i as nat),
        decreases depth - i,
    {
        out.append("  ");
        proof {
            reveal_strlit("  ");
            assert("  "@ =~= seq![' ', ' ']);
        }
        assert(indent(i as nat + 1) =~= indent(i as nat) + "  "@);
        i = i + 1;
    }
}

} // verus!

verus! {

/// Whether `c` is `d` up to ASCII case, for a `d` that is not an upper-case
/// ASCII letter.
pub open spec fn lower_eq(c: char, d: char) -> bool {
    c == d || ('A' <= c && c <= 'Z' && (c as u32) + 32 == d as u32)
}

/// Whether `s` equals the lower-case `lit` once its ASCII upper-case letters
/// are lowered.
pub open spec fn matches_lower(s: Seq<char>, lit: Seq<char>) -> bool {
    s.len() == lit.len() && forall|i: int| 0 <= i < s.len() ==> lower_eq(s[i], lit[i])
}

/// Returns whether `s` equals the lower-case `lit` once its ASCII upper-case
/// letters are lowered.
pub fn eq_ignore_case(s: &str, lit: &str) -> (r: bool)
    ensures
        r == matches_lower(s@, lit@),
{
    let n = s.unicode_len();
    if n != lit.unicode_len() {
        return false;
    }
    let mut i: usize = 0;
    while i < n
        invariant
            i <= n,
            n == s@.len(),
            n == lit@.len(),
            forall|j: int| 0 <= j < i ==> lower_eq(s@[j], lit@[j]),
        decreases n - i,
    {
        let c = s.get_char(i);
        let d = lit.get_char(i);
        if !(c == d || ('A' <= c && c <= 'Z' && (c as u32) + 32 == d as u32)) {
            return false;
        }
        i = i + 1;
    }
    true
}

/// A reference to a node in the text: `v` and its identifier.
pub open spec fn node_ref(id: u64) -> Seq<char> {
    "v"@ + decimal(id as nat)
}

/// A reference to an edge in the text: `e` and its identifier.
pub open spec fn edge_ref(id: u64) -> Seq<char> {
    "e"@ + decimal(id as nat)
}

/// Appends a reference to a node.
pub fn push_node_ref(out: &mut String, id: u64)
    ensures
        final(out)@ == old(out)@ + node_ref(id),
{
    out.append("v");
    push_decimal(out, id);
    assert(final(out)@ =~= old(out)@ + node_ref(id));
}

/// Appends a reference to an edge.
pub fn push_edge_ref(out: &mut String, id: u64)
    ensures
        final(out)@ == old(out)@ + edge_ref(id),
{
    out.append("e");
    push_decimal(out, id);
    assert(final(out)@ =~= old(out)@ + edge_ref(id));
}

} // verus!
