//! Text-building helpers shared by the renderers: decimal formatting of
//! numeric type parameters, and the identifier quoting hook for this
//! dialect (double quotes, with embedded double quotes doubled).

use vstd::prelude::*;

verus! {

/// Relies on String::push: appends the given character to the end of the
/// string.
#[verifier::external_body]
fn push_char(s: &mut String, c: char)
    ensures
        final(s)@ == old(s)@.push(c),
{
    s.push(c);
}

/// The character for one decimal digit.
pub open spec fn spec_digit_char(d: nat) -> char {
    if d == 0 {
        '0'
    } else if d == 1 {
        '1'
    } else if d == 2 {
        '2'
    } else if d == 3 {
        '3'
    } else if d == 4 {
        '4'
    } else if d == 5 {
        '5'
    } else if d == 6 {
        '6'
    } else if d == 7 {
        '7'
    } else if d == 8 {
        '8'
    } else {
        '9'
    }
}

/// The decimal rendering of a number: most significant digit first, no sign,
/// no leading zeros (except for the number zero itself).
pub open spec fn spec_dec(n: nat) -> Seq<char>
    decreases n,
{
    if n < 10 {
        seq![spec_digit_char(n)]
    } else {
        spec_dec(n / 10).push(spec_digit_char(n % 10))
    }
}

fn digit_str(d: u32) -> (r: &'static str)
    requires
        d < 10,
    ensures
        r@ == seq![spec_digit_char(d as nat)],
{
    let r: &'static str = if d == 0 {
        "0"
    } else if d == 1 {
        "1"
    } else if d == 2 {
        "2"
    } else if d == 3 {
        "3"
    } else if d == 4 {
        "4"
    } else if d == 5 {
        "5"
    } else if d == 6 {
        "6"
    } else if d == 7 {
        "7"
    } else if d == 8 {
        "8"
    } else {
        "9"
    };
    proof {
        reveal_strlit("0");
        reveal_strlit("1");
        reveal_strlit("2");
        reveal_strlit("3");
        reveal_strlit("4");
        reveal_strlit("5");
        reveal_strlit("6");
        reveal_strlit("7");
        reveal_strlit("8");
        reveal_strlit("9");
        assert(r@ =~= seq![spec_digit_char(d as nat)]);
    }
    r
}

/// Renders a number in decimal, exactly as [`spec_dec`] describes.
pub fn u32_to_dec(n: u32) -> (r: String)
    ensures
        r@ == spec_dec(n as nat),
    decreases n,
{
    if n < 10 {
        String::from_str(digit_str(n))
    } else {
        let mut s = u32_to_dec(n / 10);
        s.append(digit_str(n % 10));
        proof {
            assert(s@ =~= spec_dec((n / 10) as nat).push(spec_digit_char((n % 10) as nat)));
        }
        s
    }
}

/// The quoting dialect's escaping rule: every double quote in an identifier
/// is doubled; every other character is kept as it is.
pub open spec fn spec_escape_quote(s: Seq<char>) -> Seq<char>
    decreases s.len(),
{
    if s.len() == 0 {
        Seq::empty()
    } else {
        spec_escape_quote(s.drop_last()) + (if s.last() == '"' {
            seq!['"', '"']
        } else {
            seq![s.last()]
        })
    }
}

/// The quoted form of an identifier: the escaped name wrapped in double
/// quotes.
pub open spec fn spec_quote_iden(s: Seq<char>) -> Seq<char> {
    seq!['"'] + spec_escape_quote(s) + seq!['"']
}

proof fn lemma_escape_quote_snoc(s: Seq<char>, i: int)
    requires
        0 <= i < s.len(),
    ensures
        spec_escape_quote(s.take(i + 1)) == spec_escape_quote(s.take(i)) + (if s[i] == '"' {
            seq!['"', '"']
        } else {
            seq![s[i]]
        }),
{
    assert(s.take(i + 1).drop_last() =~= s.take(i));
    assert(s.take(i + 1).last() == s[i]);
}

/// The identifier quoting service for this dialect: a pure function from a
/// bare identifier to its quoted token, exactly as [`spec_quote_iden`]
/// describes.
pub fn quote_iden(name: &str) -> (r: String)
    ensures
        r@ == spec_quote_iden(name@),
{
    let mut out = String::new();
    push_char(&mut out, '"');
    let n = name.unicode_len();
    let mut i: usize = 0;
    while i < n
        invariant
            n == name@.len(),
            i <= n,
            out@ == seq!['"'] + spec_escape_quote(name@.take(i as int)),
        decreases n - i,
    {
        let c = name.get_char(i);
        if c == '"' {
            push_char(&mut out, '"');
            push_char(&mut out, '"');
        } else {
            push_char(&mut out, c);
        }
        proof {
            lemma_escape_quote_snoc(name@, i as int);
            assert(out@ =~= seq!['"'] + spec_escape_quote(name@.take(i + 1)));
        }
        i = i + 1;
    }
    push_char(&mut out, '"');
    proof {
        assert(name@.take(n as int) =~= name@);
        assert(out@ =~= spec_quote_iden(name@));
    }
    out
}

} // verus!
