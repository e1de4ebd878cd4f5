//! Character-level rendering shared by every endpoint: decimal formatting
//! of numbers, zero-padded fields for timestamps, and the lemmas that make
//! a rendered path invertible (needed to show that different field values
//! never collide on the same path).

use vstd::prelude::*;

verus! {

/// A character sequence with no path separator in it.  Rendered numbers and
/// wire tags are slash-free, which is what lets a path be decomposed back
/// into its segments.
pub open spec fn slash_free(s: Seq<char>) -> bool {
    forall|i: int| 0 <= i < s.len() ==> s[i] != '/'
}

/// A character sequence free of the brace characters used for placeholders
/// in a path template.
pub open spec fn placeholder_free(s: Seq<char>) -> bool {
    forall|i: int| 0 <= i < s.len() ==> s[i] != '{' && s[i] != '}'
}

/// The path separator, as a one-character sequence.
pub open spec fn sl() -> Seq<char> {
    "/"@
}

pub proof fn lemma_sl_chars()
    ensures
        sl().len() == 1,
        sl()[0] == '/',
        slash_free(sl()) == false,
        placeholder_free(sl()),
{
    reveal_strlit("/");
}

pub open spec fn is_digit_char(c: char) -> bool {
    c == '0' || c == '1' || c == '2' || c == '3' || c == '4' || c == '5' || c == '6' || c == '7'
        || c == '8' || c == '9'
}

/// The decimal digit character for `d`; meaningful for `d < 10`.
pub open spec fn digit_char(d: nat) -> char {
    if d == 0 {
        '0'
    } else if d == 1 {
        '1'
    } else if d == 2 {
        '2'
    } else if d == 3 {
        '3'
    } else if d == 4 {
        '4'
    } else if d == 5 {
        '5'
    } else if d == 6 {
        '6'
    } else if d == 7 {
        '7'
    } else if d == 8 {
        '8'
    } else {
        '9'
    }
}

/// `n` rendered in decimal, most significant digit first, without leading
/// zeros (a single `"0"` for `n == 0`).
pub open spec fn dec_str(n: nat) -> Seq<char>
    decreases n,
{
    if n < 10 {
        seq![digit_char(n)]
    } else {
        dec_str(n / 10).push(digit_char(n % 10))
    }
}

/// `n` rendered as exactly two decimal digits; meaningful for `n < 100`.
pub open spec fn pad2(n: nat) -> Seq<char> {
    seq![digit_char(n / 10), digit_char(n % 10)]
}

/// `n` rendered as exactly four decimal digits; meaningful for `n < 10000`.
pub open spec fn pad4(n: nat) -> Seq<char> {
    seq![
        digit_char(n / 1000),
        digit_char(n / 100 % 10),
        digit_char(n / 10 % 10),
        digit_char(n % 10),
    ]
}

pub proof fn lemma_digit_char_injective(a: nat, b: nat)
    requires
        a < 10,
        b < 10,
        digit_char(a) == digit_char(b),
    ensures
        a == b,
{
}

pub proof fn lemma_dec_str_digits(n: nat)
    ensures
        dec_str(n).len() >= 1,
        forall|i: int| 0 <= i < dec_str(n).len() ==> is_digit_char(#[trigger] dec_str(n)[i]),
    decreases n,
{
    if n >= 10 {
        lemma_dec_str_digits(n / 10);
    }
}

/// A rendered number contains neither a path separator nor a placeholder
/// brace: every character of it is a decimal digit.
pub proof fn lemma_dec_str_wf(n: nat)
    ensures
        slash_free(dec_str(n)),
        placeholder_free(dec_str(n)),
{
    lemma_dec_str_digits(n);
}

/// Decimal rendering is injective: equal renderings come from equal numbers.
pub proof fn lemma_dec_str_injective(a: nat, b: nat)
    requires
        dec_str(a) == dec_str(b),
    ensures
        a == b,
    decreases a,
{
    lemma_dec_str_digits(a);
    lemma_dec_str_digits(b);
    if a < 10 && b < 10 {
        assert(dec_str(a)[0] == digit_char(a));
        assert(dec_str(b)[0] == digit_char(b));
        lemma_digit_char_injective(a, b);
    } else if a < 10 {
        lemma_dec_str_digits(b / 10);
        assert(dec_str(b).len() >= 2);
        assert(false);
    } else if b < 10 {
        lemma_dec_str_digits(a / 10);
        assert(dec_str(a).len() >= 2);
        assert(false);
    } else {
        assert(dec_str(a).last() == digit_char(a % 10));
        assert(dec_str(b).last() == digit_char(b % 10));
        lemma_digit_char_injective(a % 10, b % 10);
        assert(dec_str(a).drop_last() =~= dec_str(a / 10));
        assert(dec_str(b).drop_last() =~= dec_str(b / 10));
        lemma_dec_str_injective(a / 10, b / 10);
        vstd::arithmetic::div_mod::lemma_fundamental_div_mod(a as int, 10);
        vstd::arithmetic::div_mod::lemma_fundamental_div_mod(b as int, 10);
    }
}

/// A shared prefix can be cancelled on both sides of an equation.
pub proof fn lemma_unprefix(p: Seq<char>, x: Seq<char>, y: Seq<char>)
    requires
        p + x == p + y,
    ensures
        x == y,
{
    assert((p + x).len() == p.len() + x.len());
    assert((p + y).len() == p.len() + y.len());
    assert(x.len() == y.len());
    assert forall|i: int| 0 <= i < x.len() implies x[i] == y[i] by {
        assert((p + x)[p.len() + i] == x[i]);
        assert((p + y)[p.len() + i] == y[i]);
    }
    assert(x =~= y);
}

/// A shared suffix can be cancelled on both sides of an equation.
pub proof fn lemma_unsuffix(x: Seq<char>, y: Seq<char>, s: Seq<char>)
    requires
        x + s == y + s,
    ensures
        x == y,
{
    assert((x + s).len() == x.len() + s.len());
    assert((y + s).len() == y.len() + s.len());
    assert(x.len() == y.len());
    assert forall|i: int| 0 <= i < x.len() implies x[i] == y[i] by {
        assert((x + s)[i] == x[i]);
        assert((y + s)[i] == y[i]);
    }
    assert(x =~= y);
}

/// Peeling a slash-delimited field off the front: if the field before the
/// first separator is slash-free on both sides, equal concatenations force
/// the field and the remainder to agree.
pub proof fn lemma_peel(a: Seq<char>, x: Seq<char>, b: Seq<char>, y: Seq<char>)
    requires
        slash_free(a),
        slash_free(b),
        a + (sl() + x) == b + (sl() + y),
    ensures
        a == b,
        x == y,
{
    lemma_sl_chars();
    let s = a + (sl() + x);
    if a.len() < b.len() {
        assert(s[a.len() as int] == '/');
        assert(s[a.len() as int] == b[a.len() as int]);
        assert(false);
    }
    if b.len() < a.len() {
        assert(s[b.len() as int] == '/');
        assert(s[b.len() as int] == a[b.len() as int]);
        assert(false);
    }
    assert forall|i: int| 0 <= i < a.len() implies a[i] == b[i] by {
        assert(s[i] == a[i]);
        assert(s[i] == b[i]);
    }
    assert(a =~= b);
    lemma_unprefix(a, sl() + x, sl() + y);
    lemma_unprefix(sl(), x, y);
}

/// Field recovery for a template of one field behind a fixed prefix.
pub proof fn lemma_tpl1(pre: Seq<char>, a1: Seq<char>, b1: Seq<char>)
    requires
        pre + a1 == pre + b1,
    ensures
        a1 == b1,
{
    lemma_unprefix(pre, a1, b1);
}

/// Field recovery for a template of one field between a fixed prefix and
/// a fixed trailing segment.
pub proof fn lemma_tpl1_lit(pre: Seq<char>, lit: Seq<char>, a1: Seq<char>, b1: Seq<char>)
    requires
        pre + a1 + sl() + lit == pre + b1 + sl() + lit,
    ensures
        a1 == b1,
{
    lemma_unsuffix(pre + a1 + sl(), pre + b1 + sl(), lit);
    lemma_unsuffix(pre + a1, pre + b1, sl());
    lemma_unprefix(pre, a1, b1);
}

/// Field recovery for a template of two slash-separated fields behind a
/// fixed prefix; every field before the last must be slash-free.
pub proof fn lemma_tpl2(pre: Seq<char>, a1: Seq<char>, a2: Seq<char>, b1: Seq<char>, b2: Seq<char>)
    requires
        slash_free(a1),
        slash_free(b1),
        pre + a1 + sl() + a2 == pre + b1 + sl() + b2,
    ensures
        a1 == b1,
        a2 == b2,
{
    assert(pre + a1 + sl() + a2 =~= pre + (a1 + (sl() + a2)));
    assert(pre + b1 + sl() + b2 =~= pre + (b1 + (sl() + b2)));
    lemma_unprefix(pre, a1 + (sl() + a2), b1 + (sl() + b2));
    lemma_peel(a1, a2, b1, b2);
}

/// As `lemma_tpl2`, with a fixed trailing segment after the fields.
pub proof fn lemma_tpl2_lit(
    pre: Seq<char>,
    lit: Seq<char>,
    a1: Seq<char>,
    a2: Seq<char>,
    b1: Seq<char>,
    b2: Seq<char>,
)
    requires
        slash_free(a1),
        slash_free(b1),
        pre + a1 + sl() + a2 + sl() + lit == pre + b1 + sl() + b2 + sl() + lit,
    ensures
        a1 == b1,
        a2 == b2,
{
    lemma_unsuffix(pre + a1 + sl() + a2 + sl(), pre + b1 + sl() + b2 + sl(), lit);
    lemma_unsuffix(pre + a1 + sl() + a2, pre + b1 + sl() + b2, sl());
    lemma_tpl2(pre, a1, a2, b1, b2);
}

/// Field recovery for a template of three slash-separated fields behind a
/// fixed prefix; every field before the last must be slash-free.
pub proof fn lemma_tpl3(
    pre: Seq<char>,
    a1: Seq<char>,
    a2: Seq<char>,
    a3: Seq<char>,
    b1: Seq<char>,
    b2: Seq<char>,
    b3: Seq<char>,
)
    requires
        slash_free(a1),
        slash_free(b1),
        slash_free(a2),
        slash_free(b2),
        pre + a1 + sl() + a2 + sl() + a3 == pre + b1 + sl() + b2 + sl() + b3,
    ensures
        a1 == b1,
        a2 == b2,
        a3 == b3,
{
    assert(pre + a1 + sl() + a2 + sl() + a3 =~= pre + (a1 + (sl() + (a2 + (sl() + a3)))));
    assert(pre + b1 + sl() + b2 + sl() + b3 =~= pre + (b1 + (sl() + (b2 + (sl() + b3)))));
    lemma_unprefix(pre, a1 + (sl() + (a2 + (sl() + a3))), b1 + (sl() + (b2 + (sl() + b3))));
    lemma_peel(a1, a2 + (sl() + a3), b1, b2 + (sl() + b3));
    lemma_peel(a2, a3, b2, b3);
}

/// As `lemma_tpl3`, with a fixed trailing segment after the fields.
pub proof fn lemma_tpl3_lit(
    pre: Seq<char>,
    lit: Seq<char>,
    a1: Seq<char>,
    a2: Seq<char>,
    a3: Seq<char>,
    b1: Seq<char>,
    b2: Seq<char>,
    b3: Seq<char>,
)
    requires
        slash_free(a1),
        slash_free(b1),
        slash_free(a2),
        slash_free(b2),
        pre + a1 + sl() + a2 + sl() + a3 + sl() + lit == pre + b1 + sl() + b2 + sl() + b3 + sl()
            + lit,
    ensures
        a1 == b1,
        a2 == b2,
        a3 == b3,
{
    lemma_unsuffix(pre + a1 + sl() + a2 + sl() + a3 + sl(), pre + b1 + sl() + b2 + sl() + b3 + sl(), lit);
    lemma_unsuffix(pre + a1 + sl() + a2 + sl() + a3, pre + b1 + sl() + b2 + sl() + b3, sl());
    lemma_tpl3(pre, a1, a2, a3, b1, b2, b3);
}

/// A concatenation of placeholder-free sequences is placeholder-free.
pub proof fn lemma_placeholder_free_cat(a: Seq<char>, b: Seq<char>)
    requires
        placeholder_free(a),
        placeholder_free(b),
    ensures
        placeholder_free(a + b),
{
    assert((a + b).len() == a.len() + b.len());
    assert forall|i: int| 0 <= i < (a + b).len() implies (a + b)[i] != '{' && (a + b)[i] != '}' by {
        if i < a.len() {
            assert((a + b)[i] == a[i]);
        } else {
            assert((a + b)[i] == b[i - a.len()]);
        }
    }
}

/// Relies on `String::push` from std: appends the given character to the
/// end of the string.
#[verifier::external_body]
pub fn push_char(s: &mut String, c: char)
    ensures
        final(s)@ == old(s)@.push(c),
{
    s.push(c);
}

/// The decimal digit character for `d` (the spec saturates at `'9'` for
/// ten and above, and so does this function).
pub fn digit_of(d: u32) -> (c: char)
    ensures
        c == digit_char(d as nat),
{
    match d {
        0 => '0',
        1 => '1',
        2 => '2',
        3 => '3',
        4 => '4',
        5 => '5',
        6 => '6',
        7 => '7',
        8 => '8',
        _ => '9',
    }
}

/// Appends the decimal rendering of `n` to `s`.
pub fn push_dec_u32(s: &mut String, n: u32)
    ensures
        final(s)@ == old(s)@ + dec_str(n as nat),
    decreases n,
{
    if n >= 10 {
        push_dec_u32(s, n / 10);
    }
    let d = digit_of(n % 10);
    push_char(s, d);
    proof {
        if n < 10 {
            assert(old(s)@ + dec_str(n as nat) =~= old(s)@.push(digit_char(n as nat)));
        } else {
            assert(old(s)@ + dec_str(n as nat) =~= (old(s)@ + dec_str((n / 10) as nat)).push(
                digit_char((n % 10) as nat),
            ));
        }
    }
}

/// Appends `n` as exactly two decimal digits.
pub fn push_pad2(s: &mut String, n: u8)
    ensures
        final(s)@ == old(s)@ + pad2(n as nat),
{
    push_char(s, digit_of((n / 10) as u32));
    push_char(s, digit_of((n % 10) as u32));
    proof {
        assert(old(s)@ + pad2(n as nat) =~= old(s)@.push(digit_char((n as nat) / 10)).push(
            digit_char((n as nat) % 10),
        ));
    }
}

/// Appends `n` as exactly four decimal digits.
pub fn push_pad4(s: &mut String, n: u16)
    ensures
        final(s)@ == old(s)@ + pad4(n as nat),
{
    push_char(s, digit_of((n as u32) / 1000));
    push_char(s, digit_of((n as u32) / 100 % 10));
    push_char(s, digit_of((n as u32) / 10 % 10));
    push_char(s, digit_of((n as u32) % 10));
    proof {
        assert(old(s)@ + pad4(n as nat) =~= old(s)@.push(digit_char((n as nat) / 1000)).push(
            digit_char((n as nat) / 100 % 10),
        ).push(digit_char((n as nat) / 10 % 10)).push(digit_char((n as nat) % 10)));
    }
}

} // verus!
