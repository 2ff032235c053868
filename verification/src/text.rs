//! Text utilities for the wire conventions of the remote document store:
//! integers travel as decimal strings, document ids are the trailing path
//! segment of a resource name, and ids themselves are canonical uuid text.

use vstd::prelude::*;

verus! {

/// The character for one decimal digit value.
pub open spec fn digit_char(d: nat) -> char {
    if d == 0 {
        '0'
    } else if d == 1 {
        '1'
    } else if d == 2 {
        '2'
    } else if d == 3 {
        '3'
    } else if d == 4 {
        '4'
    } else if d == 5 {
        '5'
    } else if d == 6 {
        '6'
    } else if d == 7 {
        '7'
    } else if d == 8 {
        '8'
    } else {
        '9'
    }
}

/// Decimal representation of a natural number, most significant digit first,
/// with no leading zeroes (zero itself is "0").
pub open spec fn dec_rep(n: nat) -> Seq<char>
    decreases n,
{
    if n < 10 {
        seq![digit_char(n)]
    } else {
        dec_rep(n / 10).push(digit_char(n % 10))
    }
}

/// Decimal representation of a signed integer: a leading '-' for negatives.
pub open spec fn int_rep(i: int) -> Seq<char> {
    if i < 0 {
        seq!['-'].add(dec_rep((-i) as nat))
    } else {
        dec_rep(i as nat)
    }
}

pub open spec fn is_digit(c: char) -> bool {
    '0' <= c && c <= '9'
}

pub open spec fn digit_val(c: char) -> nat {
    (c as int - '0' as int) as nat
}

pub open spec fn all_digits(s: Seq<char>) -> bool {
    forall|i: int| 0 <= i < s.len() ==> is_digit(#[trigger] s[i])
}

/// Value of a non-empty, all-digit string.
pub open spec fn digits_val(s: Seq<char>) -> nat
    decreases s.len(),
{
    if s.len() == 0 {
        0
    } else {
        digits_val(s.drop_last()) * 10 + digit_val(s.last())
    }
}

/// Value of a decimal string as `str::parse` on an integer type reads it,
/// before any range check: an optional sign followed by at least one digit.
pub open spec fn dec_value(s: Seq<char>) -> Option<int> {
    if s.len() == 0 {
        None
    } else if s[0] == '-' {
        if s.len() > 1 && all_digits(s.skip(1)) {
            Some(-(digits_val(s.skip(1)) as int))
        } else {
            None
        }
    } else if s[0] == '+' {
        if s.len() > 1 && all_digits(s.skip(1)) {
            Some(digits_val(s.skip(1)) as int)
        } else {
            None
        }
    } else {
        if all_digits(s) {
            Some(digits_val(s) as int)
        } else {
            None
        }
    }
}

proof fn lemma_digit_char_table(d: nat)
    requires
        d < 10,
    ensures
        "0123456789"@[d as int] == digit_char(d),
        is_digit(digit_char(d)),
        digit_val(digit_char(d)) == d,
{
    reveal_strlit("0123456789");
    if d == 0 {
    } else if d == 1 {
    } else if d == 2 {
    } else if d == 3 {
    } else if d == 4 {
    } else if d == 5 {
    } else if d == 6 {
    } else if d == 7 {
    } else if d == 8 {
    } else {
        assert(d == 9);
    }
}

/// Every character of a decimal representation is a digit, so in particular
/// the representation never starts with a sign.
proof fn lemma_dec_rep_digits(n: nat)
    ensures
        dec_rep(n).len() >= 1,
        all_digits(dec_rep(n)),
    decreases n,
{
    if n < 10 {
        lemma_digit_char_table(n);
    } else {
        lemma_dec_rep_digits(n / 10);
        lemma_digit_char_table(n % 10);
        assert forall|i: int| 0 <= i < dec_rep(n).len() implies is_digit(#[trigger] dec_rep(n)[i]) by {
            if i < dec_rep(n / 10).len() {
                assert(dec_rep(n)[i] == dec_rep(n / 10)[i]);
            }
        }
    }
}

/// Reading a decimal representation back gives the number it was made from.
proof fn lemma_dec_rep_value(n: nat)
    ensures
        digits_val(dec_rep(n)) == n,
    decreases n,
{
    if n < 10 {
        lemma_digit_char_table(n);
        assert(dec_rep(n) =~= seq![digit_char(n)]);
        assert(dec_rep(n).drop_last() =~= Seq::<char>::empty());
        assert(digits_val(dec_rep(n)) == digits_val(Seq::<char>::empty()) * 10 + digit_val(
            digit_char(n),
        ));
    } else {
        lemma_dec_rep_value(n / 10);
        lemma_digit_char_table(n % 10);
        assert(dec_rep(n).drop_last() =~= dec_rep(n / 10));
        assert(dec_rep(n).last() == digit_char(n % 10));
        assert(digits_val(dec_rep(n)) == (n / 10) * 10 + n % 10);
        assert((n / 10) * 10 + n % 10 == n) by (nonlinear_arith);
    }
}

/// `dec_value` inverts `dec_rep` exactly.
pub proof fn lemma_dec_value_of_rep(n: nat)
    ensures
        dec_value(dec_rep(n)) == Some(n as int),
{
    lemma_dec_rep_digits(n);
    lemma_dec_rep_value(n);
    assert(is_digit(dec_rep(n)[0]));
}

/// `dec_value` inverts `int_rep` exactly.
pub proof fn lemma_dec_value_of_int_rep(i: int)
    ensures
        dec_value(int_rep(i)) == Some(i),
{
    if i < 0 {
        lemma_dec_rep_digits((-i) as nat);
        lemma_dec_rep_value((-i) as nat);
        assert(int_rep(i)[0] == '-');
        assert(int_rep(i).skip(1) =~= dec_rep((-i) as nat));
    } else {
        lemma_dec_value_of_rep(i as nat);
    }
}

fn digit_str(d: u64) -> (r: &'static str)
    requires
        d < 10,
    ensures
        r@ =~= seq![digit_char(d as nat)],
{
    let table = "0123456789";
    proof {
        reveal_strlit("0123456789");
        lemma_digit_char_table(d as nat);
    }
    let r = table.substring_ascii(d as usize, d as usize + 1);
    proof {
        assert(r@ =~= seq![digit_char(d as nat)]);
    }
    r
}

/// Formats a number the way the wire protocol carries integers: as a decimal
/// string.
pub fn u64_to_dec_string(n: u64) -> (r: String)
    ensures
        r@ == dec_rep(n as nat),
{
    if n < 10 {
        return digit_str(n).to_owned();
    }
    let mut acc: String = String::new();
    let mut m: u64 = n;
    while m >= 10
        invariant
            m >= 1,
            dec_rep(n as nat) == dec_rep(m as nat).add(acc@),
        decreases m,
    {
        let d: u64 = m % 10;
        let digit = digit_str(d);
        let rest: String = acc;
        acc = digit.to_owned().concat(rest.as_str());
        proof {
            assert(dec_rep(m as nat) == dec_rep((m / 10) as nat).push(digit_char((m % 10) as nat)));
            assert(dec_rep((m / 10) as nat).push(digit_char(d as nat)).add(rest@) =~= dec_rep(
                (m / 10) as nat,
            ).add(acc@));
        }
        m = m / 10;
    }
    let lead = digit_str(m);
    let r = lead.to_owned().concat(acc.as_str());
    proof {
        assert(dec_rep(m as nat) =~= seq![digit_char(m as nat)]);
        assert(seq![digit_char(m as nat)].add(acc@) =~= r@);
    }
    r
}

/// Formats a signed number as the wire's decimal string, with a leading '-'
/// for negatives.
pub fn i64_to_dec_string(i: i64) -> (r: String)
    ensures
        r@ == int_rep(i as int),
{
    if i >= 0 {
        let r = u64_to_dec_string(i as u64);
        return r;
    }
    let magnitude: u64 = if i == i64::MIN {
        9223372036854775808u64
    } else {
        (-i) as u64
    };
    let r = "-".to_owned().concat(u64_to_dec_string(magnitude).as_str());
    proof {
        reveal_strlit("-");
        assert(r@ =~= int_rep(i as int));
    }
    r
}

fn char_digit_value(c: char) -> (r: Option<u64>)
    ensures
        r is Some <==> is_digit(c),
        r is Some ==> r->0 == digit_val(c) && r->0 < 10,
{
    let u = c as u32;
    if u >= 48 && u <= 57 {
        Some((u - 48) as u64)
    } else {
        None
    }
}

/// Reads an unsigned decimal digit run; `None` when a character is not a
/// digit, the run is empty, or the value exceeds `u64::MAX`.
fn parse_digits_u64(s: &str, from: usize) -> (r: Option<u64>)
    requires
        from < s@.len(),
    ensures
        r is Some <==> all_digits(s@.skip(from as int)) && digits_val(s@.skip(from as int))
            <= u64::MAX,
        r is Some ==> r->0 == digits_val(s@.skip(from as int)),
{
    let len = s.unicode_len();
    let mut acc: u64 = 0;
    let mut i: usize = from;
    while i < len
        invariant
            from <= i <= len,
            len == s@.len(),
            from < s@.len(),
            all_digits(s@.subrange(from as int, i as int)),
            acc == digits_val(s@.subrange(from as int, i as int)),
        decreases len - i,
    {
        let c = s.get_char(i);
        match char_digit_value(c) {
            None => {
                proof {
                    assert(s@.skip(from as int)[i - from] == c);
                    assert(!all_digits(s@.skip(from as int)));
                }
                return None;
            },
            Some(d) => {
                if acc > (u64::MAX - d) / 10 {
                    proof {
                        lemma_digits_val_monotone(s@.skip(from as int), i + 1 - from);
                        assert(s@.skip(from as int).take(i + 1 - from) =~= s@.subrange(
                            from as int,
                            i + 1,
                        ));
                        assert(s@.subrange(from as int, i + 1).drop_last() =~= s@.subrange(
                            from as int,
                            i as int,
                        ));
                        assert(digits_val(s@.subrange(from as int, i + 1)) == acc * 10 + d);
                        assert(acc * 10 + d > u64::MAX) by (nonlinear_arith)
                            requires
                                acc > (u64::MAX - d) / 10 && d < 10,
                        ;
                    }
                    return None;
                }
                proof {
                    assert(acc * 10 + d <= u64::MAX) by (nonlinear_arith)
                        requires
                            acc <= (u64::MAX - d) / 10 && d < 10,
                    ;
                    assert(s@.subrange(from as int, i + 1).drop_last() =~= s@.subrange(
                        from as int,
                        i as int,
                    ));
                    assert(s@.subrange(from as int, i + 1).last() == c);
                }
                acc = acc * 10 + d;
                i = i + 1;
            },
        }
    }
    proof {
        assert(s@.subrange(from as int, len as int) =~= s@.skip(from as int));
    }
    Some(acc)
}

/// A digit run's value only grows as the run extends.
proof fn lemma_digits_val_monotone(s: Seq<char>, k: int)
    requires
        0 < k <= s.len(),
    ensures
        digits_val(s.take(k)) <= digits_val(s),
    decreases s.len() - k,
{
    if k == s.len() {
        assert(s.take(k) =~= s);
    } else {
        lemma_digits_val_monotone(s, k + 1);
        assert(s.take(k + 1).drop_last() =~= s.take(k));
        assert(digits_val(s.take(k)) <= digits_val(s.take(k + 1))) by (nonlinear_arith)
            requires
                digits_val(s.take(k + 1)) == digits_val(s.take(k)) * 10 + digit_val(
                    s.take(k + 1).last(),
                ),
        ;
    }
}

/// Parses the wire's decimal-string convention into a `u64`: `None` for an
/// empty or malformed string, any '-'-signed string (even "-0", which the
/// unsigned parse of std rejects too), or a value out of range.
pub fn parse_u64_dec(s: &str) -> (r: Option<u64>)
    ensures
        r is Some <==> (dec_value(s@) matches Some(v) && 0 <= v <= u64::MAX && s@[0] != '-'),
        r is Some ==> Some(r->0 as int) == dec_value(s@),
{
    let len = s.unicode_len();
    if len == 0 {
        return None;
    }
    let first = s.get_char(0);
    if first == '+' {
        if len == 1 {
            return None;
        }
        let r = parse_digits_u64(s, 1);
        proof {
            if r is Some {
                assert(dec_value(s@) == Some(digits_val(s@.skip(1)) as int));
            }
        }
        r
    } else if first == '-' {
        None
    } else {
        let r = parse_digits_u64(s, 0);
        proof {
            assert(s@.skip(0) =~= s@);
            if r is Some {
                assert(dec_value(s@) == Some(digits_val(s@) as int));
            }
        }
        r
    }
}

/// Parses the wire's decimal-string convention into an `i64`.
pub fn parse_i64_dec(s: &str) -> (r: Option<i64>)
    ensures
        r is Some <==> (dec_value(s@) matches Some(v) && i64::MIN <= v <= i64::MAX),
        r is Some ==> Some(r->0 as int) == dec_value(s@),
{
    let len = s.unicode_len();
    if len == 0 {
        return None;
    }
    let first = s.get_char(0);
    if first == '-' {
        if len == 1 {
            return None;
        }
        match parse_digits_u64(s, 1) {
            None => None,
            Some(v) => {
                if v <= 9223372036854775807u64 {
                    Some(-(v as i64))
                } else if v == 9223372036854775808u64 {
                    Some(i64::MIN)
                } else {
                    None
                }
            },
        }
    } else {
        match parse_u64_dec(s) {
            None => None,
            Some(v) => {
                if v <= 9223372036854775807u64 {
                    Some(v as i64)
                } else {
                    None
                }
            },
        }
    }
}

/// Parses the wire's decimal-string convention into an `i32`.
pub fn parse_i32_dec(s: &str) -> (r: Option<i32>)
    ensures
        r is Some <==> (dec_value(s@) matches Some(v) && i32::MIN <= v <= i32::MAX),
        r is Some ==> Some(r->0 as int) == dec_value(s@),
{
    match parse_i64_dec(s) {
        None => None,
        Some(v) => {
            if -2147483648i64 <= v && v <= 2147483647i64 {
                Some(v as i32)
            } else {
                None
            }
        },
    }
}

/// Parses the wire's decimal-string convention into a `u32`.
pub fn parse_u32_dec(s: &str) -> (r: Option<u32>)
    ensures
        r is Some <==> (dec_value(s@) matches Some(v) && 0 <= v <= u32::MAX && s@[0] != '-'),
        r is Some ==> Some(r->0 as int) == dec_value(s@),
{
    match parse_u64_dec(s) {
        None => None,
        Some(v) => {
            if v <= 4294967295u64 {
                Some(v as u32)
            } else {
                None
            }
        },
    }
}

/// Parses a port number, as the command line hands it in.
pub fn parse_u16_dec(s: &str) -> (r: Option<u16>)
    ensures
        r is Some <==> (dec_value(s@) matches Some(v) && 0 <= v <= u16::MAX && s@[0] != '-'),
        r is Some ==> Some(r->0 as int) == dec_value(s@),
{
    match parse_u64_dec(s) {
        None => None,
        Some(v) => {
            if v <= 65535u64 {
                Some(v as u16)
            } else {
                None
            }
        },
    }
}

/// The suffix of a resource name after its last '/' (the whole name when it
/// holds no '/').
pub open spec fn last_segment(s: Seq<char>) -> Seq<char>
    decreases s.len(),
{
    if s.len() == 0 {
        Seq::empty()
    } else if s.last() == '/' {
        Seq::empty()
    } else {
        last_segment(s.drop_last()).push(s.last())
    }
}

proof fn lemma_last_segment_skip(s: Seq<char>, cut: int)
    requires
        0 <= cut <= s.len(),
        forall|k: int| cut <= k < s.len() ==> s[k] != '/',
        cut > 0 ==> s[cut - 1] == '/',
    ensures
        last_segment(s) == s.skip(cut),
    decreases s.len(),
{
    if s.len() == cut {
        assert(s.skip(cut) =~= Seq::empty());
        if cut > 0 {
            assert(s.last() == '/');
        }
    } else {
        assert(s.last() != '/');
        lemma_last_segment_skip(s.drop_last(), cut);
        assert(s.drop_last().skip(cut).push(s.last()) =~= s.skip(cut));
    }
}

/// Appending "/" and a slash-free segment to any prefix makes that segment
/// the name's trailing segment.
pub proof fn lemma_last_segment_of_join(prefix: Seq<char>, seg: Seq<char>)
    requires
        forall|k: int| 0 <= k < seg.len() ==> seg[k] != '/',
    ensures
        last_segment(prefix.add(seq!['/']).add(seg)) == seg,
{
    let s = prefix.add(seq!['/']).add(seg);
    let cut = prefix.len() + 1;
    assert(s[cut - 1] == '/');
    assert forall|k: int| cut <= k < s.len() implies s[k] != '/' by {
        assert(s[k] == seg[k - cut]);
    }
    lemma_last_segment_skip(s, cut as int);
    assert(s.skip(cut as int) =~= seg);
}

/// Returns the trailing path segment of a resource name.
pub fn trailing_segment(s: &str) -> (r: String)
    ensures
        r@ == last_segment(s@),
{
    let len = s.unicode_len();
    let mut cut: usize = len;
    loop
        invariant
            0 <= cut <= len,
            len == s@.len(),
            forall|k: int| cut <= k < s@.len() ==> s@[k] != '/',
        ensures
            0 <= cut <= len,
            forall|k: int| cut <= k < s@.len() ==> s@[k] != '/',
            cut > 0 ==> s@[cut - 1] == '/',
        decreases cut,
    {
        if cut == 0 {
            break ;
        }
        if s.get_char(cut - 1) == '/' {
            break ;
        }
        cut = cut - 1;
    }
    proof {
        lemma_last_segment_skip(s@, cut as int);
    }
    let seg = s.substring_char(cut, len);
    seg.to_owned()
}

/// Character-for-character string equality, as the cache and field lookups
/// need it.
pub fn str_eq(a: &str, b: &str) -> (r: bool)
    ensures
        r == (a@ == b@),
{
    let n = a.unicode_len();
    if n != b.unicode_len() {
        return false;
    }
    let mut i: usize = 0;
    while i < n
        invariant
            0 <= i <= n,
            n == a@.len(),
            n == b@.len(),
            forall|k: int| 0 <= k < i ==> a@[k] == b@[k],
        decreases n - i,
    {
        if a.get_char(i) != b.get_char(i) {
            return false;
        }
        i = i + 1;
    }
    proof {
        assert(a@ =~= b@);
    }
    true
}

pub open spec fn is_hex_lower(c: char) -> bool {
    ('0' <= c && c <= '9') || ('a' <= c && c <= 'f')
}

/// Canonical uuid text: 36 characters, hyphens after the 8th, 12th, 16th and
/// 20th hex digit, all hex digits lower case.
pub open spec fn is_uuid_text(s: Seq<char>) -> bool {
    &&& s.len() == 36
    &&& forall|i: int|
        0 <= i < 36 ==> (if i == 8 || i == 13 || i == 18 || i == 23 {
            s[i] == '-'
        } else {
            is_hex_lower(#[trigger] s[i])
        })
}

/// Canonical uuid text holds no '/', so it survives as a name's trailing
/// segment.
pub proof fn lemma_uuid_text_slash_free(s: Seq<char>)
    requires
        is_uuid_text(s),
    ensures
        forall|k: int| 0 <= k < s.len() ==> s[k] != '/',
{
    assert forall|k: int| 0 <= k < s.len() implies s[k] != '/' by {
        if k == 8 || k == 13 || k == 18 || k == 23 {
        } else {
            assert(is_hex_lower(s[k]));
        }
    }
}

fn is_hex_lower_char(c: char) -> (r: bool)
    ensures
        r == is_hex_lower(c),
{
    let u = c as u32;
    (u >= 48 && u <= 57) || (u >= 97 && u <= 102)
}

/// Checks a string for canonical uuid shape.
pub fn check_uuid_text(s: &str) -> (r: bool)
    ensures
        r == is_uuid_text(s@),
{
    let len = s.unicode_len();
    if len != 36 {
        return false;
    }
    let mut i: usize = 0;
    while i < 36
        invariant
            0 <= i <= 36,
            s@.len() == 36,
            forall|k: int|
                0 <= k < i ==> (if k == 8 || k == 13 || k == 18 || k == 23 {
                    s@[k] == '-'
                } else {
                    is_hex_lower(#[trigger] s@[k])
                }),
        decreases 36 - i,
    {
        let c = s.get_char(i);
        if i == 8 || i == 13 || i == 18 || i == 23 {
            if c != '-' {
                return false;
            }
        } else {
            if !is_hex_lower_char(c) {
                return false;
            }
        }
        i = i + 1;
    }
    true
}

} // verus!
