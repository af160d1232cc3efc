//! Text utilities: decimal rendering and parsing of integers, comparison and
//! concatenation of strings, each stated over character sequences.

use vstd::prelude::*;
use vstd::string::StringExecFns;

verus! {

/// The character of a decimal digit `d` (`0 <= d < 10`).
pub open spec fn digito(d: int) -> char {
    (d + 48) as char
}

/// Whether `c` is an ASCII decimal digit.
pub open spec fn es_digito(c: char) -> bool {
    '0' <= c && c <= '9'
}

/// The decimal rendering of `n`, without sign or leading zeros.
pub open spec fn decimal(n: nat) -> Seq<char>
    decreases n,
{
    if n < 10 {
        seq![digito(n as int)]
    } else {
        decimal(n / 10).push(digito((n % 10) as int))
    }
}

/// A non-empty sequence of decimal digits.
pub open spec fn solo_digitos(s: Seq<char>) -> bool {
    s.len() > 0 && forall|i: int| 0 <= i < s.len() ==> es_digito(#[trigger] s[i])
}

/// The value of a sequence of decimal digits.
pub open spec fn valor_digitos(s: Seq<char>) -> int
    decreases s.len(),
{
    if s.len() == 0 {
        0
    } else {
        valor_digitos(s.drop_last()) * 10 + (s.last() as int - 48)
    }
}

/// The integer that `s` writes: an optional `+` or `-` sign followed by
/// decimal digits only.
pub open spec fn entero_escrito(s: Seq<char>) -> Option<int> {
    if s.len() > 0 && s[0] == '-' && solo_digitos(s.drop_first()) {
        Some(-valor_digitos(s.drop_first()))
    } else if s.len() > 0 && s[0] == '+' && solo_digitos(s.drop_first()) {
        Some(valor_digitos(s.drop_first()))
    } else if solo_digitos(s) {
        Some(valor_digitos(s))
    } else {
        None
    }
}

/// The natural number that `s` writes: an optional `+` sign followed by
/// decimal digits only.
pub open spec fn natural_escrito(s: Seq<char>) -> Option<int> {
    if s.len() > 0 && s[0] == '+' && solo_digitos(s.drop_first()) {
        Some(valor_digitos(s.drop_first()))
    } else if solo_digitos(s) {
        Some(valor_digitos(s))
    } else {
        None
    }
}

/// What `str::parse::<i64>` gives for `s`.
pub open spec fn lectura_i64(s: Seq<char>) -> Option<i64> {
    match entero_escrito(s) {
        Some(v) => if i64::MIN <= v <= i64::MAX {
            Some(v as i64)
        } else {
            None
        },
        None => None,
    }
}

/// What `str::parse::<usize>` gives for `s`.
pub open spec fn lectura_usize(s: Seq<char>) -> Option<usize> {
    match natural_escrito(s) {
        Some(v) => if v <= usize::MAX {
            Some(v as usize)
        } else {
            None
        },
        None => None,
    }
}

/// The text of the decimal digit `d`.
fn texto_de_digito(d: usize) -> (r: &'static str)
    requires
        d < 10,
    ensures
        r@ == seq![digito(d as int)],
{
    match d {
        0 => {
            proof {
                reveal_strlit("0");
            }
            "0"
        },
        1 => {
            proof {
                reveal_strlit("1");
            }
            "1"
        },
        2 => {
            proof {
                reveal_strlit("2");
            }
            "2"
        },
        3 => {
            proof {
                reveal_strlit("3");
            }
            "3"
        },
        4 => {
            proof {
                reveal_strlit("4");
            }
            "4"
        },
        5 => {
            proof {
                reveal_strlit("5");
            }
            "5"
        },
        6 => {
            proof {
                reveal_strlit("6");
            }
            "6"
        },
        7 => {
            proof {
                reveal_strlit("7");
            }
            "7"
        },
        8 => {
            proof {
                reveal_strlit("8");
            }
            "8"
        },
        _ => {
            proof {
                reveal_strlit("9");
            }
            "9"
        },
    }
}

/// The decimal rendering of `n`, without sign or leading zeros.
pub(crate) fn usize_a_texto(n: usize) -> (r: String)
    ensures
        r@ == decimal(n as nat),
    decreases n,
{
    if n < 10 {
        String::from_str(texto_de_digito(n))
    } else {
        let mut r = usize_a_texto(n / 10);
        r.append(texto_de_digito(n % 10));
        r
    }
}

/// Parses `s` with `str::parse::<i64>`.  Trusted: std documents that the
/// text must be an optional `+` or `-` sign followed by digits only, and that
/// a value out of range is an error.
#[verifier::external_body]
pub(crate) fn leer_i64(s: &str) -> (r: Option<i64>)
    ensures
        r == lectura_i64(s@),
{
    s.parse::<i64>().ok()
}

/// Parses `s` with `str::parse::<usize>`.  Trusted: std documents that the
/// text must be an optional `+` sign followed by digits only, and that a
/// value out of range is an error.
#[verifier::external_body]
pub(crate) fn leer_usize(s: &str) -> (r: Option<usize>)
    ensures
        r == lectura_usize(s@),
{
    s.parse::<usize>().ok()
}

/// Whether two texts hold the same characters.
pub fn mismo_texto(a: &str, b: &str) -> (r: bool)
    ensures
        r == (a@ == b@),
{
    let x = String::from_str(a);
    let y = String::from_str(b);
    x == y
}

/// The concatenation `a + b`.
pub fn unir(a: &str, b: &str) -> (r: String)
    ensures
        r@ == a@ + b@,
{
    String::from_str(a).concat(b)
}

/// The concatenation `a + b + c`.
pub fn unir3(a: &str, b: &str, c: &str) -> (r: String)
    ensures
        r@ == a@ + b@ + c@,
{
    let mut r = String::from_str(a);
    r.append(b);
    r.append(c);
    r
}

/// A digit renders as itself.
pub proof fn lema_decimal_digitos(n: nat)
    ensures
        solo_digitos(decimal(n)),
        valor_digitos(decimal(n)) == n,
    decreases n,
{
    if n >= 10 {
        lema_decimal_digitos(n / 10);
        assert(decimal(n).drop_last() =~= decimal(n / 10));
        let d = (n % 10) as int;
        assert(digito(d) as int == d + 48);
        assert(decimal(n).last() == digito(d));
        assert(valor_digitos(decimal(n)) == valor_digitos(decimal(n / 10)) * 10 + d);
        assert(n == (n / 10) * 10 + d);
    } else {
        assert(digito(n as int) as int == n + 48);
        assert(decimal(n).drop_last() =~= Seq::<char>::empty());
        assert(valor_digitos(decimal(n)) == valor_digitos(Seq::<char>::empty()) * 10 + n);
    }
}

/// Reading back the decimal rendering of a number gives the number.
pub proof fn lema_leer_decimal(n: nat)
    ensures
        entero_escrito(decimal(n)) == Some(n as int),
        natural_escrito(decimal(n)) == Some(n as int),
{
    lema_decimal_digitos(n);
    let d = decimal(n);
    assert(es_digito(d[0]));
}

} // verus!
