use vstd::prelude::*;
use vstd::string::*;

verus! {

/// A leaf value of a configuration source, as the decoder sees it.
#[derive(Debug)]
pub enum Scalar {
    Str(String),
    Int(i64),
    Bool(bool),
    /// Any other leaf or a whole table: it decodes to no field type.
    Other,
}

pub ghost enum ScalarView {
    Str(Seq<char>),
    Int(int),
    Bool(bool),
    Other,
}

impl View for Scalar {
    type V = ScalarView;

    open spec fn view(&self) -> ScalarView {
        match self {
            Scalar::Str(s) => ScalarView::Str(s@),
            Scalar::Int(i) => ScalarView::Int(*i as int),
            Scalar::Bool(b) => ScalarView::Bool(*b),
            Scalar::Other => ScalarView::Other,
        }
    }
}

/// `c` folded to ASCII lower case is `k`.
pub open spec fn lower_eq(c: char, k: char) -> bool {
    if 'A' <= c && c <= 'Z' {
        c as u32 + 32 == k as u32
    } else {
        c == k
    }
}

/// `s` equals `lit` up to ASCII case.
pub open spec fn eq_ignore_case(s: Seq<char>, lit: Seq<char>) -> bool {
    &&& s.len() == lit.len()
    &&& forall|i: int| 0 <= i < s.len() ==> lower_eq(#[trigger] s[i], lit[i])
}

pub open spec fn is_digit(c: char) -> bool {
    '0' <= c && c <= '9'
}

/// The number that a string of decimal digits writes.
pub open spec fn digits_value(s: Seq<char>) -> nat
    decreases s.len(),
{
    if s.len() == 0 {
        0
    } else {
        digits_value(s.drop_last()) * 10 + (s.last() as u32 - '0' as u32) as nat
    }
}

/// The number that `s` writes in decimal, if it is a nonempty run of digits.
pub open spec fn decimal_value(s: Seq<char>) -> Option<nat> {
    if s.len() > 0 && forall|i: int| 0 <= i < s.len() ==> is_digit(#[trigger] s[i]) {
        Some(digits_value(s))
    } else {
        None
    }
}

/// A field of text type: only a string leaf fits.
pub open spec fn decode_text(v: Option<ScalarView>) -> Option<Seq<char>> {
    match v {
        Some(ScalarView::Str(s)) => Some(s),
        _ => None,
    }
}

/// A field of unsigned type with largest value `max`: an integer leaf in
/// range, or a string of decimal digits whose value is in range.
pub open spec fn decode_uint(v: Option<ScalarView>, max: int) -> Option<int> {
    match v {
        Some(ScalarView::Int(i)) => if 0 <= i <= max {
            Some(i)
        } else {
            None
        },
        Some(ScalarView::Str(s)) => match decimal_value(s) {
            Some(n) => if n <= max {
                Some(n as int)
            } else {
                None
            },
            None => None,
        },
        _ => None,
    }
}

/// A field of boolean type: a boolean leaf, or one of the words
/// `1 true on yes` / `0 false off no` in any ASCII case.
pub open spec fn decode_flag(v: Option<ScalarView>) -> Option<bool> {
    match v {
        Some(ScalarView::Bool(b)) => Some(b),
        Some(ScalarView::Str(s)) => if eq_ignore_case(s, "1"@) || eq_ignore_case(s, "true"@)
            || eq_ignore_case(s, "on"@) || eq_ignore_case(s, "yes"@) {
            Some(true)
        } else if eq_ignore_case(s, "0"@) || eq_ignore_case(s, "false"@) || eq_ignore_case(
            s,
            "off"@,
        ) || eq_ignore_case(s, "no"@) {
            Some(false)
        } else {
            None
        },
        _ => None,
    }
}

pub fn char_lower_eq(c: char, k: char) -> (r: bool)
    ensures
        r == lower_eq(c, k),
{
    if 'A' <= c && c <= 'Z' {
        (c as u32) + 32 == (k as u32)
    } else {
        c == k
    }
}

/// Compares `s` with `lit` up to ASCII case.
pub fn str_eq_ignore_case(s: &str, lit: &str) -> (r: bool)
    ensures
        r == eq_ignore_case(s@, lit@),
{
    let n = s.unicode_len();
    let m = lit.unicode_len();
    if n != m {
        return false;
    }
    let mut i: usize = 0;
    while i < n
        invariant
            n == s@.len(),
            m == lit@.len(),
            n == m,
            i <= n,
            forall|j: int| 0 <= j < i ==> lower_eq(#[trigger] s@[j], lit@[j]),
        decreases n - i,
    {
        if !char_lower_eq(s.get_char(i), lit.get_char(i)) {
            return false;
        }
        i = i + 1;
    }
    true
}

proof fn lemma_digits_step(s: Seq<char>, i: int)
    requires
        0 <= i < s.len(),
    ensures
        digits_value(s.take(i + 1)) == digits_value(s.take(i)) * 10 + (s[i] as u32 - '0' as u32) as nat,
{
    assert(s.take(i + 1).drop_last() =~= s.take(i));
}

/// Reads `s` as a decimal number no greater than `max`.
pub fn parse_decimal(s: &str, max: u64) -> (r: Option<u64>)
    ensures
        r == (match decimal_value(s@) {
            Some(n) => if n <= max {
                Some(n as u64)
            } else {
                None::<u64>
            },
            None => None,
        }),
{
    let n = s.unicode_len();
    if n == 0 {
        return None;
    }
    let mut acc: u64 = 0;
    let mut over = false;
    let mut i: usize = 0;
    while i < n
        invariant
            n == s@.len(),
            i <= n,
            forall|j: int| 0 <= j < i ==> is_digit(#[trigger] s@[j]),
            !over ==> acc as nat == digits_value(s@.take(i as int)) && acc <= max,
            over ==> digits_value(s@.take(i as int)) > max,
        decreases n - i,
    {
        let c = s.get_char(i);
        if !('0' <= c && c <= '9') {
            assert(!is_digit(s@[i as int]));
            return None;
        }
        proof {
            lemma_digits_step(s@, i as int);
        }
        if !over {
            let next: u128 = (acc as u128) * 10 + ((c as u32) - ('0' as u32)) as u128;
            if next > max as u128 {
                over = true;
            } else {
                acc = next as u64;
            }
        }
        i = i + 1;
    }
    assert(s@.take(n as int) =~= s@);
    if over {
        None
    } else {
        Some(acc)
    }
}

impl Scalar {
    /// Decodes a field of text type.
    pub fn to_text(v: &Option<Scalar>) -> (r: Option<String>)
        ensures
            r matches Some(s) ==> decode_text(option_view(v)) == Some(s@),
            r is None <==> decode_text(option_view(v)) is None,
    {
        match v {
            Some(Scalar::Str(s)) => Some(s.clone()),
            _ => None,
        }
    }

    /// Decodes a field of unsigned type with largest value `max`.
    pub fn to_uint(v: &Option<Scalar>, max: u64) -> (r: Option<u64>)
        ensures
            r matches Some(n) ==> decode_uint(option_view(v), max as int) == Some(n as int),
            r is None <==> decode_uint(option_view(v), max as int) is None,
    {
        match v {
            Some(Scalar::Int(i)) => if 0 <= *i && (*i as u64) <= max {
                Some(*i as u64)
            } else {
                None
            },
            Some(Scalar::Str(s)) => parse_decimal(s.as_str(), max),
            _ => None,
        }
    }

    /// Decodes a field of boolean type.
    pub fn to_flag(v: &Option<Scalar>) -> (r: Option<bool>)
        ensures
            r == decode_flag(option_view(v)),
    {
        match v {
            Some(Scalar::Bool(b)) => Some(*b),
            Some(Scalar::Str(s)) => {
                let t = s.as_str();
                if str_eq_ignore_case(t, "1") || str_eq_ignore_case(t, "true") || str_eq_ignore_case(t, "on")
                    || str_eq_ignore_case(t, "yes") {
                    Some(true)
                } else if str_eq_ignore_case(t, "0") || str_eq_ignore_case(t, "false")
                    || str_eq_ignore_case(t, "off") || str_eq_ignore_case(t, "no") {
                    Some(false)
                } else {
                    None
                }
            },
            _ => None,
        }
    }
}

pub open spec fn option_view(v: &Option<Scalar>) -> Option<ScalarView> {
    match v {
        Some(s) => Some(s@),
        None => None,
    }
}

} // verus!
