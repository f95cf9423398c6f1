//! Validated directory identifiers: prefecture codes and city codes, with
//! canonical text forms and the ascending enumeration of all prefectures.
use vstd::prelude::*;
use crate::numtext::all_digits;
use crate::numtext::dec_digits;
use crate::numtext::format_decimal;
use crate::numtext::lemma_digit_char_val;
use crate::numtext::parse_decimal;
use crate::numtext::str_val;
use crate::errors::ParseError;
use crate::errors::ParseErrorV;

verus! {

/// A prefecture code. The directory uses the values 1 through 47; parsing
/// itself only requires a value that fits the underlying integer.
#[derive(Clone, Copy, PartialEq, Eq, Structural, Debug)]
pub struct PrefCode(pub u8);

/// A city code: a non-negative integer of arbitrary (machine-bounded) width.
#[derive(Clone, Copy, PartialEq, Eq, Structural, Debug)]
pub struct CityCode(pub u32);

/// The text with at most one leading '0' removed.
pub open spec fn strip_one_zero(s: Seq<char>) -> Seq<char> {
    if s.len() > 0 && s[0] == '0' {
        s.skip(1)
    } else {
        s
    }
}

/// A prefecture code text is valid when, after removing at most one leading
/// zero, a non-empty all-digit numeral of value at most 255 remains.
pub open spec fn pref_parse_ok(s: Seq<char>) -> bool {
    let t = strip_one_zero(s);
    t.len() > 0 && all_digits(t) && str_val(t) <= 255
}

/// The value a valid prefecture code text denotes.
pub open spec fn pref_parse_val(s: Seq<char>) -> int {
    str_val(strip_one_zero(s))
}

/// Canonical prefecture text: the decimal numeral, zero-padded to two digits.
pub open spec fn pref_format(v: int) -> Seq<char> {
    if v < 10 {
        seq!['0'] + dec_digits(v)
    } else {
        dec_digits(v)
    }
}

/// A city code text is valid when it is a non-empty all-digit numeral whose
/// value fits the underlying integer.
pub open spec fn city_parse_ok(s: Seq<char>) -> bool {
    s.len() > 0 && all_digits(s) && str_val(s) <= u32::MAX
}

impl PrefCode {
    /// Parses a prefecture code: strips at most one leading '0', then reads
    /// the remainder as an unsigned decimal numeral. The range [1, 47] is not
    /// enforced here; only the enumeration promises it.
    pub fn parse(s: &str) -> (r: Result<PrefCode, ParseError>)
        ensures
            r is Ok <==> pref_parse_ok(s@),
            r is Ok ==> r->Ok_0.0 == pref_parse_val(s@),
            r is Err ==> r->Err_0@ == (ParseErrorV::Format {
                what: "prefecture code"@,
                value: s@,
            }),
    {
        let n = s.unicode_len();
        let rest: &str = if n > 0 && s.get_char(0) == '0' {
            s.substring_char(1, n)
        } else {
            s
        };
        proof {
            assert(rest@ == strip_one_zero(s@));
        }
        match parse_decimal(rest, 255) {
            Some(v) => Ok(PrefCode(v as u8)),
            None => Err(ParseError::Format {
                what: String::from_str("prefecture code"),
                value: String::from_str(s),
            }),
        }
    }

    /// Canonical text form: exactly two digits for values below 100,
    /// zero-padded.
    pub fn format(&self) -> (r: String)
        ensures
            r@ == pref_format(self.0 as int),
    {
        let digits = format_decimal(self.0 as u64);
        if self.0 < 10 {
            let mut out = String::from_str("0");
            out.append(digits.as_str());
            proof {
                reveal_strlit("0");
                assert(out@ =~= pref_format(self.0 as int));
            }
            out
        } else {
            digits
        }
    }

    /// All 47 prefecture codes, 1 through 47, strictly ascending.
    pub fn iter() -> (r: Vec<PrefCode>)
        ensures
            r@.len() == 47,
            forall|i: int| 0 <= i < 47 ==> (#[trigger] r@[i]).0 == i + 1,
            forall|i: int, j: int| 0 <= i < j < 47 ==> r@[i].0 < r@[j].0,
    {
        let mut r: Vec<PrefCode> = Vec::new();
        let mut v: u8 = 1;
        while v <= 47
            invariant
                1 <= v <= 48,
                r@.len() == v - 1,
                forall|i: int| 0 <= i < v - 1 ==> (#[trigger] r@[i]).0 == i + 1,
            decreases 48 - v,
        {
            r.push(PrefCode(v));
            v += 1;
        }
        r
    }
}

impl CityCode {
    /// Parses a city code as an unsigned decimal numeral.
    pub fn parse(s: &str) -> (r: Result<CityCode, ParseError>)
        ensures
            r is Ok <==> city_parse_ok(s@),
            r is Ok ==> r->Ok_0.0 == str_val(s@),
            r is Err ==> r->Err_0@ == (ParseErrorV::Format {
                what: "city code"@,
                value: s@,
            }),
    {
        match parse_decimal(s, u32::MAX as u64) {
            Some(v) => Ok(CityCode(v as u32)),
            None => Err(ParseError::Format {
                what: String::from_str("city code"),
                value: String::from_str(s),
            }),
        }
    }

    /// Canonical text form: the plain unpadded decimal numeral.
    pub fn format(&self) -> (r: String)
        ensures
            r@ == dec_digits(self.0 as int),
    {
        format_decimal(self.0 as u64)
    }
}

/// Law: for every prefecture value in [1, 47], parsing the canonical text
/// form yields the value back, and parsing with one more leading zero
/// prepended succeeds and yields the same value.
pub proof fn lemma_pref_format_parse_roundtrip(p: u8)
    requires
        1 <= p <= 47,
    ensures
        pref_parse_ok(pref_format(p as int)),
        pref_parse_val(pref_format(p as int)) == p,
        pref_parse_ok(seq!['0'] + pref_format(p as int)),
        pref_parse_val(seq!['0'] + pref_format(p as int)) == pref_parse_val(
            pref_format(p as int),
        ),
{
    let v = p as int;
    if v < 10 {
        let d = crate::numtext::digit_char(v);
        lemma_digit_char_val(v);
        let f = pref_format(v);
        assert(f =~= seq!['0', d]);
        let t = strip_one_zero(f);
        assert(t =~= seq![d]);
        crate::numtext::lemma_str_val_single(d);
        let g = seq!['0'] + f;
        assert(strip_one_zero(g) =~= f);
        crate::numtext::lemma_str_val_pair('0', d);
        assert(str_val(f) == v);
    } else {
        let hi = v / 10;
        let lo = v % 10;
        let a = crate::numtext::digit_char(hi);
        let b = crate::numtext::digit_char(lo);
        lemma_digit_char_val(hi);
        lemma_digit_char_val(lo);
        assert(dec_digits(hi) =~= seq![a]);
        let f = pref_format(v);
        assert(f =~= seq![a, b]);
        assert(f[0] != '0');
        assert(strip_one_zero(f) =~= f);
        crate::numtext::lemma_str_val_pair(a, b);
        assert(str_val(f) == hi * 10 + lo);
        let g = seq!['0'] + f;
        assert(strip_one_zero(g) =~= f);
    }
}

} // verus!
