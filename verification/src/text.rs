//! Decimal text: rendering integers and fixed-point speeds as strings, and
//! parsing the lenient numeric form fields of a conversion request.
use vstd::prelude::*;
use vstd::string::StrSliceExecFns;
use vstd::string::StringExecFns;

verus! {

/// True of a decimal digit character.
pub open spec fn is_digit(c: char) -> bool {
    '0' <= c && c <= '9'
}

/// Numeric value of a decimal digit character.
pub open spec fn digit_val(c: char) -> nat {
    (c as int - '0' as int) as nat
}

/// The digit character for a value below ten.
pub open spec fn digit_char(d: nat) -> char {
    if d == 0 {
        '0'
    } else if d == 1 {
        '1'
    } else if d == 2 {
        '2'
    } else if d == 3 {
        '3'
    } else if d == 4 {
        '4'
    } else if d == 5 {
        '5'
    } else if d == 6 {
        '6'
    } else if d == 7 {
        '7'
    } else if d == 8 {
        '8'
    } else {
        '9'
    }
}

/// Decimal rendering of a natural number, most significant digit first,
/// with no leading zeros (zero itself renders as a single digit).
pub open spec fn spec_dec(n: nat) -> Seq<char>
    decreases n,
{
    if n < 10 {
        seq![digit_char(n)]
    } else {
        spec_dec(n / 10) + seq![digit_char(n % 10)]
    }
}

/// Decimal rendering of a signed value: a minus sign before the magnitude
/// when negative.
pub open spec fn spec_signed_dec(n: int) -> Seq<char> {
    if n < 0 {
        seq!['-'] + spec_dec((-n) as nat)
    } else {
        spec_dec(n as nat)
    }
}

pub(crate) fn digit_str(d: u8) -> (r: &'static str)
    requires
        d < 10,
    ensures
        r@ == seq![digit_char(d as nat)],
{
    proof {
        reveal_strlit("0");
        reveal_strlit("1");
        reveal_strlit("2");
        reveal_strlit("3");
        reveal_strlit("4");
        reveal_strlit("5");
        reveal_strlit("6");
        reveal_strlit("7");
        reveal_strlit("8");
        reveal_strlit("9");
    }
    let r = match d {
        0 => "0",
        1 => "1",
        2 => "2",
        3 => "3",
        4 => "4",
        5 => "5",
        6 => "6",
        7 => "7",
        8 => "8",
        _ => "9",
    };
    proof {
        assert(r@ =~= seq![digit_char(d as nat)]);
    }
    r
}

/// Renders an unsigned value in decimal.
pub fn u16_dec(n: u16) -> (r: String)
    ensures
        r@ == spec_dec(n as nat),
    decreases n,
{
    if n < 10 {
        String::from_str(digit_str(n as u8))
    } else {
        let front = u16_dec(n / 10);
        let r = front.concat(digit_str((n % 10) as u8));
        proof {
            assert(r@ =~= spec_dec(n as nat));
        }
        r
    }
}

/// Renders a signed value in decimal, with a leading minus sign when
/// negative.
pub fn i16_dec(n: i16) -> (r: String)
    ensures
        r@ == spec_signed_dec(n as int),
{
    if n >= 0 {
        u16_dec(n as u16)
    } else {
        let m: u16 = (-(n as i32)) as u16;
        proof {
            reveal_strlit("-");
        }
        let r = String::from_str("-").concat(u16_dec(m).as_str());
        proof {
            assert(r@ =~= spec_signed_dec(n as int));
        }
        r
    }
}

/// Character-for-character string equality.
pub fn str_eq(a: &str, b: &str) -> (r: bool)
    ensures
        r == (a@ == b@),
{
    let n = a.unicode_len();
    let m = b.unicode_len();
    if n != m {
        proof {
            assert(a@ != b@);
        }
        return false;
    }
    let mut i: usize = 0;
    while i < n
        invariant
            n == a@.len(),
            n == b@.len(),
            0 <= i <= n,
            forall|j: int| 0 <= j < i ==> a@[j] == b@[j],
        decreases n - i,
    {
        if a.get_char(i) != b.get_char(i) {
            proof {
                assert(a@ != b@);
            }
            return false;
        }
        i = i + 1;
    }
    proof {
        assert(a@ =~= b@);
    }
    true
}

/// Every character of the sequence is a decimal digit.
pub open spec fn all_digits(s: Seq<char>) -> bool {
    forall|i: int| 0 <= i < s.len() ==> is_digit(#[trigger] s[i])
}

/// Value of a sequence of decimal digit characters, most significant first.
pub open spec fn dec_val(s: Seq<char>) -> nat
    decreases s.len(),
{
    if s.len() == 0 {
        0
    } else {
        dec_val(s.drop_last()) * 10 + digit_val(s.last())
    }
}

proof fn lemma_dec_val_step(s: Seq<char>, i: int)
    requires
        0 <= i < s.len(),
    ensures
        dec_val(s.take(i + 1)) == dec_val(s.take(i)) * 10 + digit_val(s[i]),
{
    assert(s.take(i + 1).drop_last() =~= s.take(i));
    assert(s.take(i + 1).last() == s[i]);
}

proof fn lemma_dec_val_grows(s: Seq<char>, i: int, j: int)
    requires
        0 <= i <= j <= s.len(),
    ensures
        dec_val(s.take(i)) <= dec_val(s.take(j)),
    decreases j - i,
{
    if i < j {
        lemma_dec_val_grows(s, i, j - 1);
        lemma_dec_val_step(s, j - 1);
    }
}

/// The digit part of an unsigned numeric field: everything after one
/// optional leading plus sign.
pub open spec fn spec_unsigned_digits(s: Seq<char>) -> Seq<char> {
    if s.len() > 0 && s[0] == '+' {
        s.subrange(1, s.len() as int)
    } else {
        s
    }
}

/// An unsigned numeric field: an optional leading plus sign, then at least
/// one decimal digit.
pub open spec fn valid_unsigned(s: Seq<char>) -> bool {
    spec_unsigned_digits(s).len() > 0 && all_digits(spec_unsigned_digits(s))
}

/// The value of a well-formed unsigned numeric field.
pub open spec fn unsigned_val(s: Seq<char>) -> nat {
    dec_val(spec_unsigned_digits(s))
}

/// Parses an unsigned byte-sized numeric field: `Some` exactly when the
/// string is an optional plus sign followed by digits whose value fits.
pub fn parse_u8(s: &str) -> (r: Option<u8>)
    ensures
        match r {
            Some(v) => valid_unsigned(s@) && unsigned_val(s@) <= 255 && v as nat == unsigned_val(
                s@,
            ),
            None => !(valid_unsigned(s@) && unsigned_val(s@) <= 255),
        },
{
    let n = s.unicode_len();
    if n == 0 {
        return None;
    }
    let start: usize = if s.get_char(0) == '+' {
        1
    } else {
        0
    };
    if n == start {
        return None;
    }
    let ghost d = spec_unsigned_digits(s@);
    proof {
        assert(d =~= s@.subrange(start as int, n as int));
    }
    let mut acc: u32 = 0;
    let mut i: usize = start;
    while i < n
        invariant
            start <= i <= n,
            n == s@.len(),
            start <= 1,
            d == spec_unsigned_digits(s@),
            d =~= s@.subrange(start as int, n as int),
            all_digits(d.take(i - start)),
            acc as nat == dec_val(d.take(i - start)),
            acc <= 255,
        decreases n - i,
    {
        let c = s.get_char(i);
        if !(c >= '0' && c <= '9') {
            proof {
                assert(d[i - start] == s@[i as int]);
                assert(!all_digits(d));
            }
            return None;
        }
        let dv: u32 = (c as u32) - 48;
        proof {
            lemma_dec_val_step(d, i - start);
            assert(dv as nat == digit_val(d[i - start]));
        }
        let next: u32 = acc * 10 + dv;
        if next > 255 {
            proof {
                lemma_dec_val_grows(d, i - start + 1, d.len() as int);
                assert(d.take(d.len() as int) =~= d);
            }
            return None;
        }
        acc = next;
        i = i + 1;
    }
    proof {
        assert(d.take((n - start) as int) =~= d);
    }
    Some(acc as u8)
}

/// The digit part of a signed numeric field: everything after one optional
/// leading plus or minus sign.
pub open spec fn spec_signed_digits(s: Seq<char>) -> Seq<char> {
    if s.len() > 0 && (s[0] == '+' || s[0] == '-') {
        s.subrange(1, s.len() as int)
    } else {
        s
    }
}

/// True when the field carries a leading minus sign.
pub open spec fn spec_negative(s: Seq<char>) -> bool {
    s.len() > 0 && s[0] == '-'
}

/// A signed numeric field: an optional sign, then at least one digit.
pub open spec fn valid_signed(s: Seq<char>) -> bool {
    spec_signed_digits(s).len() > 0 && all_digits(spec_signed_digits(s))
}

/// The value of a well-formed signed numeric field.
pub open spec fn signed_val(s: Seq<char>) -> int {
    if spec_negative(s) {
        -(dec_val(spec_signed_digits(s)) as int)
    } else {
        dec_val(spec_signed_digits(s)) as int
    }
}

/// Parses a signed sixteen-bit numeric field: `Some` exactly when the
/// string is an optional sign followed by digits whose value fits.
pub fn parse_i16(s: &str) -> (r: Option<i16>)
    ensures
        match r {
            Some(v) => valid_signed(s@) && -32768 <= signed_val(s@) <= 32767 && v as int
                == signed_val(s@),
            None => !(valid_signed(s@) && -32768 <= signed_val(s@) <= 32767),
        },
{
    let n = s.unicode_len();
    if n == 0 {
        return None;
    }
    let c0 = s.get_char(0);
    let neg = c0 == '-';
    let start: usize = if c0 == '+' || c0 == '-' {
        1
    } else {
        0
    };
    if n == start {
        return None;
    }
    let ghost d = spec_signed_digits(s@);
    proof {
        assert(d =~= s@.subrange(start as int, n as int));
    }
    let mut acc: u32 = 0;
    let mut i: usize = start;
    while i < n
        invariant
            start <= i <= n,
            n == s@.len(),
            start <= 1,
            d == spec_signed_digits(s@),
            d =~= s@.subrange(start as int, n as int),
            all_digits(d.take(i - start)),
            acc as nat == dec_val(d.take(i - start)),
            acc <= 32768,
        decreases n - i,
    {
        let c = s.get_char(i);
        if !(c >= '0' && c <= '9') {
            proof {
                assert(d[i - start] == s@[i as int]);
                assert(!all_digits(d));
            }
            return None;
        }
        let dv: u32 = (c as u32) - 48;
        proof {
            lemma_dec_val_step(d, i - start);
            assert(dv as nat == digit_val(d[i - start]));
        }
        let next: u32 = acc * 10 + dv;
        if next > 32768 {
            proof {
                lemma_dec_val_grows(d, i - start + 1, d.len() as int);
                assert(d.take(d.len() as int) =~= d);
            }
            return None;
        }
        acc = next;
        i = i + 1;
    }
    proof {
        assert(d.take((n - start) as int) =~= d);
    }
    if neg {
        if acc == 32768 {
            Some(-32768)
        } else {
            Some(-(acc as i16))
        }
    } else {
        if acc > 32767 {
            None
        } else {
            Some(acc as i16)
        }
    }
}

/// A well-formed split of a speed field into an integer part, a decimal
/// point at index `k`, and at least one fractional digit.
pub open spec fn speed_split_ok(s: Seq<char>, k: int) -> bool {
    &&& 1 <= k
    &&& k + 2 <= s.len()
    &&& s[k] == '.'
    &&& all_digits(s.take(k))
    &&& all_digits(s.skip(k + 1))
}

/// A speed field: digits, optionally followed by a decimal point and more
/// digits.
pub open spec fn valid_speed(s: Seq<char>) -> bool {
    (s.len() > 0 && all_digits(s)) || (exists|k: int| speed_split_ok(s, k))
}

/// The speed a well-formed field denotes, in tenths: fractional digits
/// beyond the first are ignored.
pub open spec fn speed_tenths(s: Seq<char>) -> nat {
    if s.len() > 0 && all_digits(s) {
        dec_val(s) * 10
    } else {
        let k = choose|k: int| speed_split_ok(s, k);
        dec_val(s.take(k)) * 10 + digit_val(s[k + 1])
    }
}

proof fn lemma_speed_split_unique(s: Seq<char>, k1: int, k2: int)
    requires
        speed_split_ok(s, k1),
        speed_split_ok(s, k2),
    ensures
        k1 == k2,
{
    if k1 < k2 {
        assert(is_digit(s.skip(k1 + 1)[k2 - k1 - 1]));
        assert(s.skip(k1 + 1)[k2 - k1 - 1] == s[k2]);
        assert(false);
    }
    if k2 < k1 {
        assert(is_digit(s.skip(k2 + 1)[k1 - k2 - 1]));
        assert(s.skip(k2 + 1)[k1 - k2 - 1] == s[k1]);
        assert(false);
    }
}

/// Parses a speed field into tenths, saturating at the largest
/// representable value (far above the clamping range, so the effective
/// speed is unaffected): `Some` exactly when the field is well formed.
pub fn parse_speed_tenths(s: &str) -> (r: Option<u16>)
    ensures
        match r {
            Some(v) => valid_speed(s@) && v as nat == (if speed_tenths(s@) > 65535 {
                65535nat
            } else {
                speed_tenths(s@)
            }),
            None => !valid_speed(s@),
        },
{
    let n = s.unicode_len();
    if n == 0 {
        return None;
    }
    let mut acc: u32 = 0;
    let mut i: usize = 0;
    let mut stop = false;
    while i < n && !stop
        invariant
            0 <= i <= n,
            n == s@.len(),
            all_digits(s@.take(i as int)),
            dec_val(s@.take(i as int)) <= 65535 ==> acc as nat == dec_val(s@.take(i as int)),
            dec_val(s@.take(i as int)) > 65535 ==> acc == 65536,
            acc <= 65536,
            stop ==> i < n && !is_digit(s@[i as int]),
        decreases n - i, 1int - (if stop { 1int } else { 0int }),
    {
        let c = s.get_char(i);
        if !(c >= '0' && c <= '9') {
            stop = true;
        } else {
            let dv: u32 = (c as u32) - 48;
            proof {
                lemma_dec_val_step(s@, i as int);
                assert(dv as nat == digit_val(s@[i as int]));
                assert(s@.take(i + 1).take(i as int) =~= s@.take(i as int));
            }
            if acc <= 65535 {
                let next: u32 = acc * 10 + dv;
                acc = if next > 65535 {
                    65536
                } else {
                    next
                };
            }
            i = i + 1;
        }
    }
    if !stop {
        // The whole field is digits.
        proof {
            assert(s@.take(n as int) =~= s@);
        }
        let t: u32 = acc * 10;
        return Some(
            if t > 65535 {
                65535
            } else {
                t as u16
            },
        );
    }
    let c = s.get_char(i);
    if !(c == '.') || i == 0 || i + 1 == n {
        // Not a fraction: no well-formed split can exist either.
        proof {
            assert forall|k: int| !speed_split_ok(s@, k) by {
                if speed_split_ok(s@, k) {
                    if k < i {
                        assert(is_digit(s@.take(i as int)[k]));
                    } else if k > i {
                        assert(is_digit(s@.take(k)[i as int]));
                    }
                }
            }
            assert(!valid_speed(s@));
        }
        return None;
    }
    // The integer part ends at `i`; scan the fractional digits.
    let f: u32 = {
        let c1 = s.get_char(i + 1);
        if !(c1 >= '0' && c1 <= '9') {
            proof {
                assert forall|k: int| !speed_split_ok(s@, k) by {
                    if speed_split_ok(s@, k) {
                        if k < i {
                            assert(is_digit(s@.take(i as int)[k]));
                        } else if k > i {
                            assert(is_digit(s@.take(k)[i as int]));
                        } else {
                            assert(is_digit(s@.skip(k + 1)[0]));
                        }
                    }
                }
                assert(!valid_speed(s@));
            }
            return None;
        }
        (c1 as u32) - 48
    };
    let mut j: usize = i + 1;
    while j < n
        invariant
            i + 1 <= j <= n,
            n == s@.len(),
            i < n,
            s@[i as int] == '.',
            all_digits(s@.take(i as int)),
            forall|m: int| i < m < j ==> is_digit(#[trigger] s@[m]),
        decreases n - j,
    {
        let c2 = s.get_char(j);
        if !(c2 >= '0' && c2 <= '9') {
            proof {
                assert forall|k: int| !speed_split_ok(s@, k) by {
                    if speed_split_ok(s@, k) {
                        if k < i {
                            assert(is_digit(s@.take(i as int)[k]));
                        } else if k > i {
                            assert(is_digit(s@.take(k)[i as int]));
                        } else {
                            assert(is_digit(s@.skip(k + 1)[j - k - 1]));
                        }
                    }
                }
                assert(!valid_speed(s@));
            }
            return None;
        }
        j = j + 1;
    }
    proof {
        assert forall|m: int| 0 <= m < s@.skip(i + 1).len() implies is_digit(
            #[trigger] s@.skip(i + 1)[m],
        ) by {
            assert(s@.skip(i + 1)[m] == s@[m + i + 1]);
        }
        assert(speed_split_ok(s@, i as int));
        assert(!all_digits(s@)) by {
            assert(!is_digit(s@[i as int]));
        }
        let k = choose|k: int| speed_split_ok(s@, k);
        lemma_speed_split_unique(s@, k, i as int);
        assert(speed_tenths(s@) == dec_val(s@.take(i as int)) * 10 + digit_val(
            s@[i + 1],
        ));
        assert(f as nat == digit_val(s@[i + 1]));
    }
    let t: u32 = acc * 10 + f;
    Some(
        if t > 65535 {
            65535
        } else {
            t as u16
        },
    )
}

} // verus!
