//! Decimal notation for port numbers, and the facts about it that make an
//! authority `host:port` determine its host and its port.

use vstd::prelude::*;
use vstd::string::*;

verus! {

/// The character for the digit `d`, where `d` is below ten.
pub open spec fn digit_char(d: nat) -> char {
    if d == 0 {
        '0'
    } else if d == 1 {
        '1'
    } else if d == 2 {
        '2'
    } else if d == 3 {
        '3'
    } else if d == 4 {
        '4'
    } else if d == 5 {
        '5'
    } else if d == 6 {
        '6'
    } else if d == 7 {
        '7'
    } else if d == 8 {
        '8'
    } else {
        '9'
    }
}

/// Whether `c` is one of the ten digits.
pub open spec fn is_digit(c: char) -> bool {
    '0' <= c && c <= '9'
}

/// `n` in decimal notation: at least one digit, no leading zero but for zero
/// itself.
pub open spec fn decimal(n: nat) -> Seq<char>
    decreases n,
{
    if n < 10 {
        seq![digit_char(n)]
    } else {
        decimal(n / 10).push(digit_char(n % 10))
    }
}

/// Decimal notation is never empty and holds digits only.
pub proof fn lemma_decimal_digits(n: nat)
    ensures
        decimal(n).len() >= 1,
        n >= 10 ==> decimal(n).len() >= 2,
        forall|i: int| 0 <= i < decimal(n).len() ==> is_digit(#[trigger] decimal(n)[i]),
    decreases n,
{
    if n >= 10 {
        lemma_decimal_digits(n / 10);
    }
}

/// Different numbers have different decimal notations.
pub proof fn lemma_decimal_injective(a: nat, b: nat)
    requires
        decimal(a) == decimal(b),
    ensures
        a == b,
    decreases a,
{
    lemma_decimal_digits(a);
    lemma_decimal_digits(b);
    if a < 10 && b < 10 {
        assert(decimal(a)[0] == digit_char(a));
        assert(decimal(b)[0] == digit_char(b));
    } else if a >= 10 && b >= 10 {
        let x = decimal(a / 10);
        let y = decimal(b / 10);
        let da = digit_char(a % 10);
        let db = digit_char(b % 10);
        assert(decimal(a) == x.push(da));
        assert(decimal(b) == y.push(db));
        assert(x.push(da).last() == da);
        assert(y.push(db).last() == db);
        assert(x.push(da).drop_last() =~= x);
        assert(y.push(db).drop_last() =~= y);
        assert(a % 10 == b % 10);
        lemma_decimal_injective(a / 10, b / 10);
    } else {
        assert(decimal(a).len() == decimal(b).len());
        if a < 10 {
            assert(decimal(a).len() == 1);
        } else {
            assert(decimal(b).len() == 1);
        }
    }
}

/// The one-character text of the digit `d`.
fn digit_str(d: u16) -> (s: &'static str)
    requires
        d < 10,
    ensures
        s@ == seq![digit_char(d as nat)],
{
    proof {
        reveal_strlit("0");
        reveal_strlit("1");
        reveal_strlit("2");
        reveal_strlit("3");
        reveal_strlit("4");
        reveal_strlit("5");
        reveal_strlit("6");
        reveal_strlit("7");
        reveal_strlit("8");
        reveal_strlit("9");
    }
    let s = if d == 0 {
        "0"
    } else if d == 1 {
        "1"
    } else if d == 2 {
        "2"
    } else if d == 3 {
        "3"
    } else if d == 4 {
        "4"
    } else if d == 5 {
        "5"
    } else if d == 6 {
        "6"
    } else if d == 7 {
        "7"
    } else if d == 8 {
        "8"
    } else {
        "9"
    };
    assert(s@ =~= seq![digit_char(d as nat)]);
    s
}

/// Writes `n` in decimal notation.
pub fn decimal_string(n: u16) -> (text: String)
    ensures
        text@ == decimal(n as nat),
    decreases n,
{
    if n < 10 {
        String::from_str(digit_str(n))
    } else {
        let mut text = decimal_string(n / 10);
        text.append(digit_str(n % 10));
        assert(text@ =~= decimal((n / 10) as nat).push(digit_char((n % 10) as nat)));
        text
    }
}

/// The authority of `host` and `port`: the host, a colon, the port in decimal
/// notation.
pub open spec fn authority_text(host: Seq<char>, port: u16) -> Seq<char> {
    host + seq![':'] + decimal(port as nat)
}

/// An authority determines its host and its port: two authorities are the
/// same text exactly when they have the same host and the same port.
pub proof fn lemma_authority_text_injective(h1: Seq<char>, p1: u16, h2: Seq<char>, p2: u16)
    ensures
        authority_text(h1, p1) == authority_text(h2, p2) <==> h1 == h2 && p1 == p2,
{
    if authority_text(h1, p1) == authority_text(h2, p2) {
        let d1 = decimal(p1 as nat);
        let d2 = decimal(p2 as nat);
        let a1 = authority_text(h1, p1);
        let a2 = authority_text(h2, p2);
        lemma_decimal_digits(p1 as nat);
        lemma_decimal_digits(p2 as nat);
        assert(a1.len() == h1.len() + 1 + d1.len());
        assert(a2.len() == h2.len() + 1 + d2.len());
        assert(a1[h1.len() as int] == ':');
        assert(a2[h2.len() as int] == ':');
        // The colon of one authority cannot fall among the digits of the other.
        assert(d1.len() >= d2.len()) by {
            if d1.len() < d2.len() {
                let k = h1.len() as int;
                assert(a2[k] == d2[k - h2.len() - 1]);
                assert(is_digit(d2[k - h2.len() - 1]));
            }
        }
        assert(d2.len() >= d1.len()) by {
            if d2.len() < d1.len() {
                let k = h2.len() as int;
                assert(a1[k] == d1[k - h1.len() - 1]);
                assert(is_digit(d1[k - h1.len() - 1]));
            }
        }
        assert(h1.len() == h2.len());
        assert(h1 =~= h2) by {
            assert forall|i: int| 0 <= i < h1.len() implies h1[i] == h2[i] by {
                assert(a1[i] == h1[i]);
                assert(a2[i] == h2[i]);
            }
        }
        assert(d1 =~= d2) by {
            assert forall|i: int| 0 <= i < d1.len() implies d1[i] == d2[i] by {
                assert(a1[h1.len() + 1 + i] == d1[i]);
                assert(a2[h2.len() + 1 + i] == d2[i]);
            }
        }
        lemma_decimal_injective(p1 as nat, p2 as nat);
    }
}

} // verus!
