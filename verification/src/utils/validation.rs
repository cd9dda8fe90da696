//! Validation of LAN IP addresses and of CatWrt version strings such as
//! `v25.8`, and the order of versions.

use vstd::prelude::*;

use crate::error::{is_validation_error, CatoolsError};
use crate::text::{
    all_digits, chars_of, digit_value, digits_value, find_char, find_char_from, is_digit, numeral,
    parse_unsigned, parse_unsigned_range, split, split_char,
};

verus! {

// ---------------------------------------------------------------------------
// IP addresses
// ---------------------------------------------------------------------------

/// The dot-separated pieces of an address.
pub open spec fn ip_octets(ip: Seq<char>) -> Seq<Seq<char>> {
    split(ip, '.')
}

/// The value of one octet: one to three characters that read as a `u8`.
pub open spec fn octet_value(o: Seq<char>) -> Option<nat> {
    if o.len() == 0 || o.len() > 3 {
        None
    } else {
        parse_unsigned(o, 255)
    }
}

/// Each of the four octets reads as a number from 0 to 255.
pub open spec fn octets_readable(ip: Seq<char>) -> bool {
    forall|k: int| 0 <= k < 4 ==> (#[trigger] octet_value(ip_octets(ip)[k])) is Some
}

/// The last octet, the host part, lies in 1..=254.
pub open spec fn host_octet_in_range(ip: Seq<char>) -> bool {
    let v = octet_value(ip_octets(ip)[3]).unwrap();
    1 <= v && v <= 254
}

/// `ip` is a LAN address that the tool accepts: four octets, each read as a
/// `u8`, the last in 1..=254.
pub open spec fn is_valid_ip(ip: Seq<char>) -> bool {
    &&& ip_octets(ip).len() == 4
    &&& octets_readable(ip)
    &&& host_octet_in_range(ip)
}

/// The error that rejects the address `ip`: it names the first thing wrong,
/// in this order: not four dot-separated parts; an octet that is empty,
/// longer than three characters or not a `u8`; a last octet outside
/// 1..=254.
pub open spec fn ip_rejection(ip: Seq<char>, e: CatoolsError) -> bool {
    if ip_octets(ip).len() != 4 {
        is_validation_error(e, "Invalid IP format: "@ + ip)
    } else if !octets_readable(ip) {
        is_validation_error(e, "Invalid IP octet"@)
    } else {
        is_validation_error(e, "Last octet must be 1-254"@)
    }
}

/// Checks that `ip` is an address the tool can give the LAN interface.
///
/// The error names the first thing wrong, in this order: not four
/// dot-separated parts; an octet that is empty, longer than three
/// characters or not a `u8`; a last octet outside 1..=254.
pub fn validate_ip(ip: &str) -> (r: Result<(), CatoolsError>)
    ensures
        r is Ok <==> is_valid_ip(ip@),
        r matches Err(e) ==> ip_rejection(ip@, e),
{
    let parts = split_char(ip, '.');
    if parts.len() != 4 {
        let mut m = String::from_str("Invalid IP format: ");
        m.append(ip);
        return Err(CatoolsError::ValidationError(m));
    }
    let ghost octets = ip_octets(ip@);
    let mut vals: Vec<u32> = Vec::new();
    let mut k: usize = 0;
    while k < 4
        invariant
            k <= 4,
            parts@.len() == 4,
            crate::text::views(parts@) == octets,
            octets == ip_octets(ip@),
            vals@.len() == k,
            forall|j: int| 0 <= j < k ==> octet_value(octets[j]) == Some(vals@[j] as nat),
        decreases 4 - k,
    {
        let cs = chars_of(parts[k].as_str());
        assert(cs@ == octets[k as int]);
        let n = cs.len();
        if n == 0 || n > 3 {
            assert(octet_value(octets[k as int]) is None);
            return Err(CatoolsError::ValidationError(String::from_str("Invalid IP octet")));
        }
        assert(cs@.subrange(0, n as int) =~= cs@);
        match parse_unsigned_range(&cs, 0, n, 255) {
            None => {
                assert(octet_value(octets[k as int]) is None);
                return Err(CatoolsError::ValidationError(String::from_str("Invalid IP octet")));
            },
            Some(v) => {
                vals.push(v);
            },
        }
        k = k + 1;
    }
    assert(octets_readable(ip@));
    if vals[3] < 1 || vals[3] > 254 {
        return Err(CatoolsError::ValidationError(String::from_str("Last octet must be 1-254")));
    }
    Ok(())
}

// ---------------------------------------------------------------------------
// Versions
// ---------------------------------------------------------------------------

/// A version string split into the year and the month: after a leading
/// `'v'`, the text before the first `'.'` and the text after it.
pub open spec fn version_parts(v: Seq<char>) -> Option<(Seq<char>, Seq<char>)> {
    if v.len() > 0 && v[0] == 'v' {
        let rest = v.drop_first();
        match find_char(rest, '.') {
            Some(i) => Some((rest.take(i as int), rest.skip((i + 1) as int))),
            None => None,
        }
    } else {
        None
    }
}

/// `v` is a version `v<YY>.<M>`: a two-digit year and a month of one or two
/// digits without a leading zero.
pub open spec fn is_valid_version(v: Seq<char>) -> bool {
    match version_parts(v) {
        Some((y, m)) => {
            &&& y.len() == 2
            &&& all_digits(y)
            &&& 1 <= m.len() <= 2
            &&& all_digits(m)
            &&& (m.len() == 1 || m[0] != '0')
        },
        None => false,
    }
}

/// The year and month that a version denotes.
pub open spec fn version_number(v: Seq<char>) -> (nat, nat) {
    match version_parts(v) {
        Some((y, m)) => (digits_value(y), digits_value(m)),
        None => (0, 0),
    }
}

/// The order of two (year, month) pairs: `1` if `a` is later, `-1` if
/// earlier, `0` if the same.
pub open spec fn version_order(a: (nat, nat), b: (nat, nat)) -> i8 {
    if a.0 > b.0 || (a.0 == b.0 && a.1 > b.1) {
        1
    } else if a.0 < b.0 || (a.0 == b.0 && a.1 < b.1) {
        -1i8
    } else {
        0
    }
}

/// The message of the error for a malformed version.
pub open spec fn version_format_message(v: Seq<char>) -> Seq<char> {
    "Invalid version format: "@ + v
}

/// The error returned for the version `ver` when it is malformed.
fn version_format_error(ver: &str) -> (e: CatoolsError)
    ensures
        is_validation_error(e, version_format_message(ver@)),
{
    let mut m = String::from_str("Invalid version format: ");
    m.append(ver);
    CatoolsError::ValidationError(m)
}

/// Are `cs[lo..hi]` all decimal digits?
fn digits_in(cs: &Vec<char>, lo: usize, hi: usize) -> (r: bool)
    requires
        lo <= hi <= cs@.len(),
    ensures
        r == all_digits(cs@.subrange(lo as int, hi as int)),
{
    let mut i = lo;
    while i < hi
        invariant
            lo <= i <= hi <= cs@.len(),
            forall|j: int| lo <= j < i ==> is_digit(cs@[j]),
        decreases hi - i,
    {
        if !(cs[i] >= '0' && cs[i] <= '9') {
            assert(!is_digit(cs@.subrange(lo as int, hi as int)[i - lo]));
            return false;
        }
        i = i + 1;
    }
    true
}

/// The index in `cs` of the dot that ends the year, if `cs` starts with `'v'`
/// and has a dot.
fn version_dot(cs: &Vec<char>) -> (r: Option<usize>)
    ensures
        match version_parts(cs@) {
            Some((y, m)) => r matches Some(d) && d == y.len() + 1 && d < cs@.len() && y
                == cs@.subrange(1, d as int) && m == cs@.subrange(d + 1, cs@.len() as int),
            None => r is None,
        },
{
    if cs.len() == 0 || cs[0] != 'v' {
        return None;
    }
    let ghost rest = cs@.drop_first();
    assert(cs@.skip(1) =~= rest);
    match find_char_from(cs, 1, '.') {
        Some(d) => {
            proof {
                let i = find_char(rest, '.').unwrap();
                lemma_find_char_found(rest, '.');
                assert(rest.take(i as int) =~= cs@.subrange(1, d as int));
                assert(rest.skip((i + 1) as int) =~= cs@.subrange(d + 1, cs@.len() as int));
            }
            Some(d)
        },
        None => None,
    }
}

/// What `find_char` finds lies inside the sequence.
proof fn lemma_find_char_found(s: Seq<char>, c: char)
    ensures
        find_char(s, c) matches Some(i) ==> i < s.len() && s[i as int] == c,
    decreases s.len(),
{
    if s.len() > 0 && s[0] != c {
        lemma_find_char_found(s.drop_first(), c);
    }
}

/// A string of at most two digits denotes at most 99.
proof fn lemma_two_digits_bound(s: Seq<char>)
    requires
        all_digits(s),
        s.len() <= 2,
    ensures
        digits_value(s) <= 99,
{
    reveal_with_fuel(digits_value, 3);
    if s.len() >= 1 {
        assert(is_digit(s[s.len() - 1]));
    }
    if s.len() == 2 {
        assert(is_digit(s[0]));
        assert(s.drop_last().drop_last() =~= Seq::<char>::empty());
    }
}

/// Checks that `ver` is a version of the form `v<YY>.<M>` (such as `v25.8`):
/// a `'v'`, a two-digit year, a dot, and a month of one or two digits
/// without a leading zero.
pub fn validate_version(ver: &str) -> (r: Result<(), CatoolsError>)
    ensures
        r is Ok <==> is_valid_version(ver@),
        r matches Err(e) ==> is_validation_error(e, version_format_message(ver@)),
{
    let cs = chars_of(ver);
    let n = cs.len();
    match version_dot(&cs) {
        None => Err(version_format_error(ver)),
        Some(d) => {
            let year_ok = d == 3 && digits_in(&cs, 1, d);
            let month_len = n - (d + 1);
            let month_ok = month_len >= 1 && month_len <= 2 && digits_in(&cs, d + 1, n);
            if year_ok && month_ok && (month_len == 1 || cs[d + 1] != '0') {
                Ok(())
            } else {
                Err(version_format_error(ver))
            }
        },
    }
}

/// The year and month of a version, as `(25, 8)` for `v25.8`.
pub fn parse_version(ver: &str) -> (r: Result<(u32, u32), CatoolsError>)
    ensures
        r is Ok <==> is_valid_version(ver@),
        r matches Ok(p) ==> (p.0 as nat, p.1 as nat) == version_number(ver@),
        r matches Err(e) ==> is_validation_error(e, version_format_message(ver@)),
{
    match validate_version(ver) {
        Err(e) => {
            return Err(e);
        },
        Ok(()) => {},
    }
    let cs = chars_of(ver);
    let n = cs.len();
    let d = match version_dot(&cs) {
        Some(d) => d,
        None => {
            return Err(version_format_error(ver));
        },
    };
    let ghost y = cs@.subrange(1, d as int);
    let ghost m = cs@.subrange(d + 1, n as int);
    proof {
        lemma_two_digits_bound(y);
        lemma_two_digits_bound(m);
        assert(y[0] != '+');
        assert(m[0] != '+');
    }
    let year = match parse_unsigned_range(&cs, 1, d, 0xffff_ffff) {
        Some(v) => v,
        None => {
            return Err(version_format_error(ver));
        },
    };
    let month = match parse_unsigned_range(&cs, d + 1, n, 0xffff_ffff) {
        Some(v) => v,
        None => {
            return Err(version_format_error(ver));
        },
    };
    Ok((year, month))
}

/// Compares two versions: `1` if `v1` is later, `-1` if earlier, `0` if the
/// same. A malformed version is an error; `v1` is checked first.
pub fn compare_version(v1: &str, v2: &str) -> (r: Result<i8, CatoolsError>)
    ensures
        r is Ok <==> is_valid_version(v1@) && is_valid_version(v2@),
        r matches Ok(c) ==> c == version_order(version_number(v1@), version_number(v2@)),
        !is_valid_version(v1@) ==> (r matches Err(e) && is_validation_error(
            e,
            version_format_message(v1@),
        )),
        is_valid_version(v1@) && !is_valid_version(v2@) ==> (r matches Err(e)
            && is_validation_error(e, version_format_message(v2@))),
{
    let (y1, m1) = match parse_version(v1) {
        Ok(p) => p,
        Err(e) => {
            return Err(e);
        },
    };
    let (y2, m2) = match parse_version(v2) {
        Ok(p) => p,
        Err(e) => {
            return Err(e);
        },
    };
    if y1 > y2 || (y1 == y2 && m1 > m2) {
        Ok(1)
    } else if y1 < y2 || (y1 == y2 && m1 < m2) {
        Ok(-1)
    } else {
        Ok(0)
    }
}

// ---------------------------------------------------------------------------
// Laws of the version order
// ---------------------------------------------------------------------------

/// Swapping the two versions of a comparison negates its result.
pub proof fn lemma_version_order_antisymmetric(a: Seq<char>, b: Seq<char>)
    ensures
        version_order(version_number(a), version_number(b)) == -version_order(
            version_number(b),
            version_number(a),
        ),
{
}

/// Every version compares equal to itself.
pub proof fn lemma_version_order_reflexive(a: Seq<char>)
    ensures
        version_order(version_number(a), version_number(a)) == 0,
{
}

/// If `a` is later than `b` and `b` later than `c`, then `a` is later than `c`.
pub proof fn lemma_version_order_transitive(a: Seq<char>, b: Seq<char>, c: Seq<char>)
    requires
        version_order(version_number(a), version_number(b)) == 1,
        version_order(version_number(b), version_number(c)) == 1,
    ensures
        version_order(version_number(a), version_number(c)) == 1,
{
}

/// Two digit strings of the same length with the same value are equal.
proof fn lemma_digits_injective(s: Seq<char>, t: Seq<char>)
    requires
        all_digits(s),
        all_digits(t),
        s.len() == t.len(),
        digits_value(s) == digits_value(t),
    ensures
        s == t,
    decreases s.len(),
{
    if s.len() > 0 {
        let a = digits_value(s.drop_last());
        let b = digits_value(t.drop_last());
        let x = digit_value(s.last());
        let y = digit_value(t.last());
        assert(is_digit(s[s.len() - 1]));
        assert(is_digit(t[t.len() - 1]));
        assert(x <= 9 && y <= 9);
        assert(a * 10 + x == b * 10 + y);
        assert(x == y && a == b) by (nonlinear_arith)
            requires
                a * 10 + x == b * 10 + y,
                x <= 9,
                y <= 9,
        ;
        assert forall|i: int| 0 <= i < s.drop_last().len() implies is_digit(
            #[trigger] s.drop_last()[i],
        ) by {
            assert(is_digit(s[i]));
        }
        assert forall|i: int| 0 <= i < t.drop_last().len() implies is_digit(
            #[trigger] t.drop_last()[i],
        ) by {
            assert(is_digit(t[i]));
        }
        lemma_digits_injective(s.drop_last(), t.drop_last());
        assert(s.last() == t.last());
        assert(s =~= s.drop_last().push(s.last()));
        assert(t =~= t.drop_last().push(t.last()));
    } else {
        assert(s =~= t);
    }
}

/// A month of one digit is below 10; one of two digits without a leading
/// zero is 10 or more.
proof fn lemma_month_length(m: Seq<char>)
    requires
        1 <= m.len() <= 2,
        all_digits(m),
        m.len() == 1 || m[0] != '0',
    ensures
        m.len() == 1 <==> digits_value(m) < 10,
{
    reveal_with_fuel(digits_value, 3);
    assert(is_digit(m[0]));
    assert(is_digit(m[m.len() - 1]));
    if m.len() == 2 {
        assert(m.drop_last().drop_last() =~= Seq::<char>::empty());
        assert(m.drop_last().last() == m[0]);
    } else {
        assert(m.drop_last() =~= Seq::<char>::empty());
    }
}

/// A valid version is the `'v'`, its year, a dot and its month.
proof fn lemma_version_parts_rebuild(v: Seq<char>)
    requires
        version_parts(v) is Some,
    ensures
        v == seq!['v'] + version_parts(v).unwrap().0 + seq!['.'] + version_parts(v).unwrap().1,
{
    let rest = v.drop_first();
    lemma_find_char_found(rest, '.');
    let i = find_char(rest, '.').unwrap();
    assert(rest =~= rest.take(i as int) + seq!['.'] + rest.skip((i + 1) as int));
    assert(v =~= seq!['v'] + rest);
}

/// Valid versions are written in one way only: two that compare equal are
/// the same string.
pub proof fn lemma_version_canonical(a: Seq<char>, b: Seq<char>)
    requires
        is_valid_version(a),
        is_valid_version(b),
        version_order(version_number(a), version_number(b)) == 0,
    ensures
        a == b,
{
    let (ya, ma) = version_parts(a).unwrap();
    let (yb, mb) = version_parts(b).unwrap();
    lemma_month_length(ma);
    lemma_month_length(mb);
    lemma_digits_injective(ya, yb);
    lemma_digits_injective(ma, mb);
    lemma_version_parts_rebuild(a);
    lemma_version_parts_rebuild(b);
}

/// The version written for year `y` and month `m`: `v`, the year in two
/// digits (a leading zero below 10), a dot, and the month in decimal.
pub open spec fn version_text(y: nat, m: nat) -> Seq<char> {
    seq!['v', ('0' as u32 + y / 10) as char, ('0' as u32 + y % 10) as char, '.'] + numeral(m)
}

/// The decimal digit of `d`.
proof fn lemma_digit_char(d: nat)
    requires
        d <= 9,
    ensures
        is_digit(('0' as u32 + d) as char),
        digit_value(('0' as u32 + d) as char) == d,
        ('0' as u32 + d) as char != '.',
        d != 0 ==> ('0' as u32 + d) as char != '0',
{
}

/// A month numeral up to 99: one or two digits without a leading zero,
/// worth the month.
proof fn lemma_numeral_small(m: nat)
    requires
        m <= 99,
    ensures
        all_digits(numeral(m)),
        1 <= numeral(m).len() <= 2,
        numeral(m).len() == 1 || numeral(m)[0] != '0',
        digits_value(numeral(m)) == m,
{
    reveal_with_fuel(digits_value, 3);
    if m < 10 {
        lemma_digit_char(m);
        assert(numeral(m).drop_last() =~= Seq::<char>::empty());
    } else {
        let hi = m / 10;
        let lo = m % 10;
        lemma_digit_char(hi);
        lemma_digit_char(lo);
        assert(numeral(hi) == seq![('0' as u32 + hi) as char]);
        let n = numeral(m);
        assert(n =~= seq![('0' as u32 + hi) as char, ('0' as u32 + lo) as char]);
        assert(n.drop_last() =~= seq![('0' as u32 + hi) as char]);
        assert(n.drop_last().drop_last() =~= Seq::<char>::empty());
        assert(m == hi * 10 + lo);
    }
}

/// Writing a year and a month up to 99 gives a valid version that reads
/// back as that year and month.
pub proof fn lemma_version_text_parses(y: nat, m: nat)
    requires
        y <= 99,
        m <= 99,
    ensures
        is_valid_version(version_text(y, m)),
        version_number(version_text(y, m)) == (y, m),
{
    reveal_with_fuel(digits_value, 3);
    reveal_with_fuel(find_char, 4);
    let d1 = ('0' as u32 + y / 10) as char;
    let d2 = ('0' as u32 + y % 10) as char;
    lemma_digit_char(y / 10);
    lemma_digit_char(y % 10);
    lemma_numeral_small(m);
    let v = version_text(y, m);
    let rest = v.drop_first();
    assert(rest =~= seq![d1, d2, '.'] + numeral(m));
    assert(rest.drop_first() =~= seq![d2, '.'] + numeral(m));
    assert(rest.drop_first().drop_first() =~= seq!['.'] + numeral(m));
    assert(find_char(rest, '.') == Some(2nat));
    let yr = rest.take(2);
    assert(yr =~= seq![d1, d2]);
    assert(rest.skip(3) =~= numeral(m));
    assert(yr.drop_last() =~= seq![d1]);
    assert(yr.drop_last().drop_last() =~= Seq::<char>::empty());
    assert(digits_value(yr) == (y / 10) * 10 + y % 10);
}

/// Valid versions and (year, month) pairs up to 99 correspond one to one:
/// a valid version is the text written for its own year and month.
pub proof fn lemma_version_round_trip(v: Seq<char>)
    requires
        is_valid_version(v),
    ensures
        version_number(v).0 <= 99,
        version_number(v).1 <= 99,
        v == version_text(version_number(v).0, version_number(v).1),
{
    let (y, m) = version_parts(v).unwrap();
    lemma_two_digits_bound(y);
    lemma_two_digits_bound(m);
    let (a, b) = version_number(v);
    lemma_version_text_parses(a, b);
    lemma_version_canonical(v, version_text(a, b));
}

} // verus!
