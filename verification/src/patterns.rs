//! Verified text matchers for the two fixed URL patterns the directory uses:
//! the city-link query of an index page and the map-query link of a listing
//! item, plus the decimal-number shape accepted for coordinates. Matching is
//! leftmost: the first position at which the whole pattern matches wins, and
//! each group is the maximal run of its character class.
use vstd::prelude::*;
use crate::numtext::digit_value;
use crate::numtext::is_digit;

verus! {

/// Literal that introduces a city link on an index page.
pub open spec fn city_marker() -> Seq<char> {
    "./?todofukenCode="@
}

/// Literal that separates the two digit groups of a city link.
pub open spec fn mid_marker() -> Seq<char> {
    "&cityCode="@
}

/// Literal that introduces the coordinate query of a map link.
pub open spec fn maps_marker() -> Seq<char> {
    "https://www.google.co.jp/maps?q="@
}

/// The pattern text `pat` occurs in `s` starting at position `i`.
pub open spec fn match_lit_at(s: Seq<char>, i: int, pat: Seq<char>) -> bool {
    0 <= i && i + pat.len() <= s.len() && s.subrange(i, i + pat.len()) == pat
}

/// End of the maximal digit run starting at `i`.
pub open spec fn digit_run_end(s: Seq<char>, i: int) -> int
    decreases s.len() - i,
    when 0 <= i <= s.len()
{
    if i >= s.len() || !is_digit(s[i]) {
        i
    } else {
        digit_run_end(s, i + 1)
    }
}

/// Characters allowed in a coordinate group: digits, '.', '-'.
pub open spec fn is_coord_char(c: char) -> bool {
    is_digit(c) || c == '.' || c == '-'
}

/// End of the maximal coordinate-character run starting at `i`.
pub open spec fn coord_run_end(s: Seq<char>, i: int) -> int
    decreases s.len() - i,
    when 0 <= i <= s.len()
{
    if i >= s.len() || !is_coord_char(s[i]) {
        i
    } else {
        coord_run_end(s, i + 1)
    }
}

pub proof fn lemma_digit_run_end(s: Seq<char>, i: int)
    requires
        0 <= i <= s.len(),
    ensures
        i <= digit_run_end(s, i) <= s.len(),
        forall|k: int| i <= k < digit_run_end(s, i) ==> is_digit(#[trigger] s[k]),
    decreases s.len() - i,
{
    if i < s.len() && is_digit(s[i]) {
        lemma_digit_run_end(s, i + 1);
    }
}

pub proof fn lemma_coord_run_end(s: Seq<char>, i: int)
    requires
        0 <= i <= s.len(),
    ensures
        i <= coord_run_end(s, i) <= s.len(),
        forall|k: int| i <= k < coord_run_end(s, i) ==> is_coord_char(#[trigger] s[k]),
    decreases s.len() - i,
{
    if i < s.len() && is_coord_char(s[i]) {
        lemma_coord_run_end(s, i + 1);
    }
}

/// Whether character `c` is a decimal digit.
pub fn is_digit_char(c: char) -> (r: bool)
    ensures
        r == is_digit(c),
{
    digit_value(c).is_some()
}

/// Whether character `c` may stand in a coordinate group.
pub fn is_coord_char_exec(c: char) -> (r: bool)
    ensures
        r == is_coord_char(c),
{
    is_digit_char(c) || c == '.' || c == '-'
}

/// Whether two texts are equal, character by character.
pub fn str_eq(a: &str, b: &str) -> (r: bool)
    ensures
        r == (a@ == b@),
{
    let n = a.unicode_len();
    let m = b.unicode_len();
    if n != m {
        return false;
    }
    let mut i: usize = 0;
    while i < n
        invariant
            0 <= i <= n,
            n == a@.len(),
            n == b@.len(),
            forall|t: int| 0 <= t < i ==> a@[t] == b@[t],
        decreases n - i,
    {
        if a.get_char(i) != b.get_char(i) {
            return false;
        }
        i += 1;
    }
    proof {
        assert(a@ =~= b@);
    }
    true
}

/// Whether `pat` occurs in `s` at position `i`.
pub fn starts_with_at(s: &str, i: usize, pat: &str) -> (r: bool)
    requires
        i <= s@.len(),
    ensures
        r == match_lit_at(s@, i as int, pat@),
{
    let n = s.unicode_len();
    let m = pat.unicode_len();
    if m > n - i {
        return false;
    }
    let mut k: usize = 0;
    while k < m
        invariant
            0 <= k <= m,
            i + m <= n,
            n == s@.len(),
            m == pat@.len(),
            forall|t: int| 0 <= t < k ==> s@[i + t] == pat@[t],
        decreases m - k,
    {
        let a = s.get_char(i + k);
        let b = pat.get_char(k);
        if a != b {
            assert(!match_lit_at(s@, i as int, pat@)) by {
                if match_lit_at(s@, i as int, pat@) {
                    assert(s@.subrange(i as int, i + pat@.len())[k as int] == pat@[k as int]);
                }
            }
            return false;
        }
        k += 1;
    }
    assert(s@.subrange(i as int, i + pat@.len()) =~= pat@);
    true
}

/// End of the maximal digit run of `s` starting at `i`.
pub fn scan_digits(s: &str, i: usize) -> (r: usize)
    requires
        i <= s@.len(),
    ensures
        r == digit_run_end(s@, i as int),
{
    let n = s.unicode_len();
    let mut j: usize = i;
    loop
        invariant
            i <= j <= n,
            n == s@.len(),
            digit_run_end(s@, i as int) == digit_run_end(s@, j as int),
        decreases n - j,
    {
        if j == n {
            return j;
        }
        let c = s.get_char(j);
        if !is_digit_char(c) {
            return j;
        }
        j += 1;
    }
}

/// End of the maximal coordinate-character run of `s` starting at `i`.
pub fn scan_coord_chars(s: &str, i: usize) -> (r: usize)
    requires
        i <= s@.len(),
    ensures
        r == coord_run_end(s@, i as int),
{
    let n = s.unicode_len();
    let mut j: usize = i;
    loop
        invariant
            i <= j <= n,
            n == s@.len(),
            coord_run_end(s@, i as int) == coord_run_end(s@, j as int),
        decreases n - j,
    {
        if j == n {
            return j;
        }
        let c = s.get_char(j);
        if !is_coord_char_exec(c) {
            return j;
        }
        j += 1;
    }
}

/// The city-link pattern matches `s` at position `i`: the marker, one or more
/// digits, the separator, one or more digits.
pub open spec fn city_link_match_at(s: Seq<char>, i: int) -> bool {
    let a = i + city_marker().len();
    let j = digit_run_end(s, a);
    let c = j + mid_marker().len();
    let k = digit_run_end(s, c);
    &&& match_lit_at(s, i, city_marker())
    &&& j > a
    &&& match_lit_at(s, j, mid_marker())
    &&& k > c
}

/// The two digit groups of a city-link match at position `i`.
pub open spec fn city_link_groups_at(s: Seq<char>, i: int) -> (Seq<char>, Seq<char>) {
    let a = i + city_marker().len();
    let j = digit_run_end(s, a);
    let c = j + mid_marker().len();
    let k = digit_run_end(s, c);
    (s.subrange(a, j), s.subrange(c, k))
}

/// Position of the leftmost city-link match at or after `i`, if any.
pub open spec fn first_city_link(s: Seq<char>, i: int) -> Option<int>
    decreases s.len() - i,
    when 0 <= i <= s.len()
{
    if i >= s.len() {
        None
    } else if city_link_match_at(s, i) {
        Some(i)
    } else {
        first_city_link(s, i + 1)
    }
}

/// The digit groups of the leftmost city-link match of `s`, if any.
pub open spec fn city_link_capture(s: Seq<char>) -> Option<(Seq<char>, Seq<char>)> {
    match first_city_link(s, 0) {
        None => None,
        Some(i) => Some(city_link_groups_at(s, i)),
    }
}

/// Finds the leftmost city-link match and returns its prefecture-digit and
/// city-digit groups.
pub fn find_city_link(s: &str) -> (r: Option<(String, String)>)
    ensures
        r.deep_view() == city_link_capture(s@),
{
    proof {
        reveal_strlit("./?todofukenCode=");
        reveal_strlit("&cityCode=");
    }
    let n = s.unicode_len();
    let mut i: usize = 0;
    while i < n
        invariant
            0 <= i <= n,
            n == s@.len(),
            first_city_link(s@, 0) == first_city_link(s@, i as int),
            city_marker().len() == 17,
            mid_marker().len() == 10,
        decreases n - i,
    {
        if starts_with_at(s, i, "./?todofukenCode=") {
            let a = i + 17;
            let j = scan_digits(s, a);
            proof {
                lemma_digit_run_end(s@, a as int);
            }
            if j > a && starts_with_at(s, j, "&cityCode=") {
                let c = j + 10;
                let k = scan_digits(s, c);
                proof {
                    lemma_digit_run_end(s@, c as int);
                }
                if k > c {
                    assert(city_link_match_at(s@, i as int));
                    let pref = s.substring_char(a, j).to_owned();
                    let city = s.substring_char(c, k).to_owned();
                    return Some((pref, city));
                }
            }
        }
        assert(!city_link_match_at(s@, i as int));
        i += 1;
    }
    assert(first_city_link(s@, i as int) is None);
    None
}

/// The map-query pattern matches `s` at position `i`: the marker, one or more
/// coordinate characters, a comma, one or more coordinate characters.
pub open spec fn map_link_match_at(s: Seq<char>, i: int) -> bool {
    let a = i + maps_marker().len();
    let j = coord_run_end(s, a);
    let c = j + 1;
    let k = coord_run_end(s, c);
    &&& match_lit_at(s, i, maps_marker())
    &&& j > a
    &&& j < s.len() && s[j] == ','
    &&& k > c
}

/// The two coordinate groups of a map-query match at position `i`.
pub open spec fn map_link_groups_at(s: Seq<char>, i: int) -> (Seq<char>, Seq<char>) {
    let a = i + maps_marker().len();
    let j = coord_run_end(s, a);
    let c = j + 1;
    let k = coord_run_end(s, c);
    (s.subrange(a, j), s.subrange(c, k))
}

/// Position of the leftmost map-query match at or after `i`, if any.
pub open spec fn first_map_link(s: Seq<char>, i: int) -> Option<int>
    decreases s.len() - i,
    when 0 <= i <= s.len()
{
    if i >= s.len() {
        None
    } else if map_link_match_at(s, i) {
        Some(i)
    } else {
        first_map_link(s, i + 1)
    }
}

/// The coordinate groups of the leftmost map-query match of `s`, if any.
pub open spec fn map_link_capture(s: Seq<char>) -> Option<(Seq<char>, Seq<char>)> {
    match first_map_link(s, 0) {
        None => None,
        Some(i) => Some(map_link_groups_at(s, i)),
    }
}

/// Finds the leftmost map-query match and returns its latitude and longitude
/// text groups.
pub fn find_map_link(s: &str) -> (r: Option<(String, String)>)
    ensures
        r.deep_view() == map_link_capture(s@),
{
    proof {
        reveal_strlit("https://www.google.co.jp/maps?q=");
    }
    let n = s.unicode_len();
    let mut i: usize = 0;
    while i < n
        invariant
            0 <= i <= n,
            n == s@.len(),
            first_map_link(s@, 0) == first_map_link(s@, i as int),
            maps_marker().len() == 32,
        decreases n - i,
    {
        if starts_with_at(s, i, "https://www.google.co.jp/maps?q=") {
            let a = i + 32;
            let j = scan_coord_chars(s, a);
            proof {
                lemma_coord_run_end(s@, a as int);
            }
            if j > a && j < n && s.get_char(j) == ',' {
                let c = j + 1;
                let k = scan_coord_chars(s, c);
                proof {
                    lemma_coord_run_end(s@, c as int);
                }
                if k > c {
                    assert(map_link_match_at(s@, i as int));
                    let lat = s.substring_char(a, j).to_owned();
                    let lon = s.substring_char(c, k).to_owned();
                    return Some((lat, lon));
                }
            }
        }
        assert(!map_link_match_at(s@, i as int));
        i += 1;
    }
    assert(first_map_link(s@, i as int) is None);
    None
}

/// Number of occurrences of `c` in `s`.
pub open spec fn count_char(s: Seq<char>, c: char) -> int
    decreases s.len(),
{
    if s.len() == 0 {
        0
    } else {
        count_char(s.drop_last(), c) + if s.last() == c { 1int } else { 0int }
    }
}

/// A non-empty run of digits and at most one '.', with at least one digit.
pub open spec fn decimal_body_ok(s: Seq<char>) -> bool {
    &&& s.len() > 0
    &&& forall|i: int| 0 <= i < s.len() ==> is_digit(#[trigger] s[i]) || s[i] == '.'
    &&& exists|i: int| 0 <= i < s.len() && is_digit(#[trigger] s[i])
    &&& count_char(s, '.') <= 1
}

/// The decimal-number shape accepted for a coordinate: an optional leading
/// '-', then digits with at most one decimal point and at least one digit.
/// Every such text is a valid floating-point numeral.
pub open spec fn is_decimal_number(s: Seq<char>) -> bool {
    decimal_body_ok(
        if s.len() > 0 && s[0] == '-' {
            s.skip(1)
        } else {
            s
        },
    )
}

/// Whether `s` has the decimal-number shape accepted for a coordinate.
pub fn check_decimal_number(s: &str) -> (r: bool)
    ensures
        r == is_decimal_number(s@),
{
    let n = s.unicode_len();
    let start: usize = if n > 0 && s.get_char(0) == '-' {
        1
    } else {
        0
    };
    let ghost body = s@.skip(start as int);
    proof {
        assert(s@.skip(0int) =~= s@);
        assert(body == (if s@.len() > 0 && s@[0] == '-' {
            s@.skip(1)
        } else {
            s@
        }));
        assert(is_decimal_number(s@) == decimal_body_ok(body));
    }
    if n == start {
        assert(body.len() == 0);
        assert(!decimal_body_ok(body));
        return false;
    }
    let mut dots: u64 = 0;
    let mut saw_digit = false;
    let mut k: usize = start;
    while k < n
        invariant
            start <= k <= n,
            n == s@.len(),
            start <= 1,
            body == s@.skip(start as int),
            is_decimal_number(s@) == decimal_body_ok(body),
            dots <= k,
            dots == count_char(s@.subrange(start as int, k as int), '.'),
            saw_digit == exists|t: int| start <= t < k && is_digit(#[trigger] s@[t]),
            forall|t: int| start <= t < k ==> is_digit(#[trigger] s@[t]) || s@[t] == '.',
        decreases n - k,
    {
        let c = s.get_char(k);
        proof {
            assert(s@.subrange(start as int, k + 1).drop_last() =~= s@.subrange(
                start as int,
                k as int,
            ));
            assert(s@.subrange(start as int, k + 1).last() == s@[k as int]);
        }
        if is_digit_char(c) {
            saw_digit = true;
        } else if c == '.' {
            dots += 1;
        } else {
            assert(body[k - start] == s@[k as int]);
            assert(!(is_digit(body[k - start]) || body[k - start] == '.'));
            assert(!decimal_body_ok(body));
            return false;
        }
        k += 1;
    }
    proof {
        assert(s@.subrange(start as int, n as int) =~= body);
        assert(forall|t: int| 0 <= t < body.len() ==> body[t] == s@[t + start]);
    }
    if saw_digit && dots <= 1 {
        assert(decimal_body_ok(body)) by {
            let w = choose|t: int| start <= t < n && is_digit(#[trigger] s@[t]);
            assert(is_digit(body[w - start]));
        }
        true
    } else {
        if !saw_digit {
            assert(forall|t: int| 0 <= t < body.len() ==> !is_digit(#[trigger] body[t]));
        }
        false
    }
}

} // verus!
