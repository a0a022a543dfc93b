use vstd::prelude::*;
use vstd::string::StrSliceExecFns;
use vstd::string::StringExecFns;

verus! {

/// The character for one decimal digit value.
pub open spec fn digit_to_char(d: nat) -> char {
    if d == 0 {
        '0'
    } else if d == 1 {
        '1'
    } else if d == 2 {
        '2'
    } else if d == 3 {
        '3'
    } else if d == 4 {
        '4'
    } else if d == 5 {
        '5'
    } else if d == 6 {
        '6'
    } else if d == 7 {
        '7'
    } else if d == 8 {
        '8'
    } else {
        '9'
    }
}

/// The decimal rendering of a number, most significant digit first,
/// with no leading zeroes (zero itself renders as "0").
pub open spec fn dec_chars(n: nat) -> Seq<char>
    decreases n,
{
    if n < 10 {
        seq![digit_to_char(n)]
    } else {
        dec_chars(n / 10).push(digit_to_char(n % 10))
    }
}

fn digit_str(d: u64) -> (s: &'static str)
    requires
        d < 10,
    ensures
        s@ == seq![digit_to_char(d as nat)],
{
    proof {
        reveal_strlit("0");
        reveal_strlit("1");
        reveal_strlit("2");
        reveal_strlit("3");
        reveal_strlit("4");
        reveal_strlit("5");
        reveal_strlit("6");
        reveal_strlit("7");
        reveal_strlit("8");
        reveal_strlit("9");
        assert("0"@ =~= seq!['0']);
        assert("1"@ =~= seq!['1']);
        assert("2"@ =~= seq!['2']);
        assert("3"@ =~= seq!['3']);
        assert("4"@ =~= seq!['4']);
        assert("5"@ =~= seq!['5']);
        assert("6"@ =~= seq!['6']);
        assert("7"@ =~= seq!['7']);
        assert("8"@ =~= seq!['8']);
        assert("9"@ =~= seq!['9']);
    }
    match d {
        0 => "0",
        1 => "1",
        2 => "2",
        3 => "3",
        4 => "4",
        5 => "5",
        6 => "6",
        7 => "7",
        8 => "8",
        _ => "9",
    }
}

/// Render a number in decimal.
pub fn u64_to_dec(n: u64) -> (s: String)
    ensures
        s@ == dec_chars(n as nat),
    decreases n,
{
    if n < 10 {
        String::from_str(digit_str(n))
    } else {
        let mut s = u64_to_dec(n / 10);
        s.append(digit_str(n % 10));
        proof {
            assert(s@ =~= dec_chars(n as nat));
        }
        s
    }
}

/// Whether two strings hold the same characters.
pub fn str_eq(a: &str, b: &str) -> (r: bool)
    ensures
        r == (a@ == b@),
{
    let alen = a.unicode_len();
    let blen = b.unicode_len();
    if alen != blen {
        return false;
    }
    let mut i: usize = 0;
    while i < alen
        invariant
            alen == a@.len(),
            blen == b@.len(),
            alen == blen,
            i <= alen,
            forall|j: int| 0 <= j < i ==> a@[j] == b@[j],
        decreases alen - i,
    {
        if a.get_char(i) != b.get_char(i) {
            return false;
        }
        i = i + 1;
    }
    proof {
        assert(a@ =~= b@);
    }
    true
}

/// Whether `s` begins with the characters of `prefix`.
pub open spec fn has_prefix(s: Seq<char>, prefix: Seq<char>) -> bool {
    s.len() >= prefix.len() && s.subrange(0, prefix.len() as int) == prefix
}

/// Test a prefix; on a match, also hand back what follows it.
pub fn strip_prefix<'a>(s: &'a str, prefix: &str) -> (r: Option<&'a str>)
    ensures
        match r {
            Some(rest) => has_prefix(s@, prefix@) && rest@ == s@.subrange(
                prefix@.len() as int,
                s@.len() as int,
            ),
            None => !has_prefix(s@, prefix@),
        },
{
    let slen = s.unicode_len();
    let plen = prefix.unicode_len();
    if slen < plen {
        return None;
    }
    let head = s.substring_char(0, plen);
    if str_eq(head, prefix) {
        Some(s.substring_char(plen, slen))
    } else {
        None
    }
}

/// Whether a character is a decimal digit.
pub open spec fn is_dec_digit(c: char) -> bool {
    '0' <= c && c <= '9'
}

/// The value of a decimal digit character.
pub open spec fn dec_digit_val(c: char) -> nat {
    (c as nat - '0' as nat) as nat
}

/// One step at a time, left to right, what `u64::from_str` computes on
/// a run of characters: accumulate digits, fail on the first character
/// that is no digit and on the first step that would leave `u64`.
pub open spec fn dec_fold(s: Seq<char>, acc: u64) -> Option<u64>
    decreases s.len(),
{
    if s.len() == 0 {
        Some(acc)
    } else if !is_dec_digit(s[0]) {
        None
    } else if acc * 10 + dec_digit_val(s[0]) > u64::MAX {
        None
    } else {
        dec_fold(s.subrange(1, s.len() as int), (acc * 10 + dec_digit_val(s[0])) as u64)
    }
}

/// What `str::parse::<u64>` returns: an optional leading plus sign,
/// then at least one digit, no other characters, and a value that fits.
pub open spec fn parse_u64_chars(s: Seq<char>) -> Option<u64> {
    let body = if s.len() > 0 && s[0] == '+' {
        s.subrange(1, s.len() as int)
    } else {
        s
    };
    if body.len() == 0 {
        None
    } else {
        dec_fold(body, 0)
    }
}

/// Parse a decimal number as `str::parse::<u64>` does.
pub fn parse_u64(s: &str) -> (r: Option<u64>)
    ensures
        r == parse_u64_chars(s@),
{
    let len = s.unicode_len();
    let mut i: usize = 0;
    if len > 0 && s.get_char(0) == '+' {
        i = 1;
    }
    let ghost body = if s@.len() > 0 && s@[0] == '+' {
        s@.subrange(1, s@.len() as int)
    } else {
        s@
    };
    proof {
        assert(body =~= s@.subrange(i as int, len as int));
    }
    if i == len {
        return None;
    }
    let mut acc: u64 = 0;
    while i < len
        invariant
            len == s@.len(),
            i <= len,
            body.len() > 0,
            parse_u64_chars(s@) == dec_fold(body, 0),
            dec_fold(body, 0) == dec_fold(s@.subrange(i as int, len as int), acc),
        decreases len - i,
    {
        let ghost rest = s@.subrange(i as int, len as int);
        let c = s.get_char(i);
        proof {
            assert(rest[0] == s@[i as int]);
        }
        if !('0' <= c && c <= '9') {
            return None;
        }
        let d: u64 = (c as u32 as u64) - 48;
        proof {
            assert(d == dec_digit_val(c));
        }
        if acc > (u64::MAX - d) / 10 {
            proof {
                assert(acc * 10 + d > u64::MAX) by (nonlinear_arith)
                    requires
                        acc > (u64::MAX - d) / 10,
                        d <= 9,
                        acc <= u64::MAX,
                ;
            }
            return None;
        }
        proof {
            assert(acc * 10 + d <= u64::MAX) by (nonlinear_arith)
                requires
                    acc <= (u64::MAX - d) / 10,
                    d <= 9,
                    acc >= 0,
            ;
            assert(rest.subrange(1, rest.len() as int) =~= s@.subrange(i + 1, len as int));
        }
        acc = acc * 10 + d;
        i = i + 1;
    }
    proof {
        assert(s@.subrange(len as int, len as int) =~= Seq::<char>::empty());
    }
    Some(acc)
}

/// Parse a decimal number as `str::parse::<u8>` does.
pub open spec fn parse_u8_chars(s: Seq<char>) -> Option<u8> {
    match parse_u64_chars(s) {
        Some(v) => if v <= u8::MAX {
            Some(v as u8)
        } else {
            None
        },
        None => None,
    }
}

/// Parse a decimal number that must fit in a byte.
///
/// This refuses exactly what `str::parse::<u8>` refuses, except that a
/// value too large for `u64` is reported the same way as one too large
/// for `u8`: as no value at all.
pub fn parse_u8(s: &str) -> (r: Option<u8>)
    ensures
        r == parse_u8_chars(s@),
{
    match parse_u64(s) {
        Some(v) => if v <= 255 {
            Some(v as u8)
        } else {
            None
        },
        None => None,
    }
}

/// Whether a character is a hexadecimal digit.
pub open spec fn is_hex_digit(c: char) -> bool {
    ('0' <= c && c <= '9') || ('a' <= c && c <= 'f') || ('A' <= c && c <= 'F')
}

/// The value of a hexadecimal digit character.
pub open spec fn hex_digit_val(c: char) -> nat {
    if '0' <= c && c <= '9' {
        (c as nat - '0' as nat) as nat
    } else if 'a' <= c && c <= 'f' {
        (c as nat - 'a' as nat + 10) as nat
    } else {
        (c as nat - 'A' as nat + 10) as nat
    }
}

/// One step at a time, what `u8::from_str_radix(s, 16)` computes on a
/// run of characters: accumulate hexadecimal digits, fail on the first
/// character that is no such digit and on the first step that would
/// leave `u8`.
pub open spec fn hex_fold_u8(s: Seq<char>, acc: u8) -> Option<u8>
    decreases s.len(),
{
    if s.len() == 0 {
        Some(acc)
    } else if !is_hex_digit(s[0]) {
        None
    } else if acc * 16 + hex_digit_val(s[0]) > u8::MAX {
        None
    } else {
        hex_fold_u8(s.subrange(1, s.len() as int), (acc * 16 + hex_digit_val(s[0])) as u8)
    }
}

/// What `u8::from_str_radix(s, 16)` returns: an optional leading plus
/// sign, then at least one hexadecimal digit, no other characters, and
/// a value that fits in a byte.
pub open spec fn parse_u8_hex_chars(s: Seq<char>) -> Option<u8> {
    let body = if s.len() > 0 && s[0] == '+' {
        s.subrange(1, s.len() as int)
    } else {
        s
    };
    if body.len() == 0 {
        None
    } else {
        hex_fold_u8(body, 0)
    }
}

/// Parse a hexadecimal byte as `u8::from_str_radix(s, 16)` does.
pub fn parse_u8_hex(s: &str) -> (r: Option<u8>)
    ensures
        r == parse_u8_hex_chars(s@),
{
    let len = s.unicode_len();
    let mut i: usize = 0;
    if len > 0 && s.get_char(0) == '+' {
        i = 1;
    }
    let ghost body = if s@.len() > 0 && s@[0] == '+' {
        s@.subrange(1, s@.len() as int)
    } else {
        s@
    };
    proof {
        assert(body =~= s@.subrange(i as int, len as int));
    }
    if i == len {
        return None;
    }
    let mut acc: u8 = 0;
    while i < len
        invariant
            len == s@.len(),
            i <= len,
            body.len() > 0,
            parse_u8_hex_chars(s@) == hex_fold_u8(body, 0),
            hex_fold_u8(body, 0) == hex_fold_u8(s@.subrange(i as int, len as int), acc),
        decreases len - i,
    {
        let ghost rest = s@.subrange(i as int, len as int);
        let c = s.get_char(i);
        proof {
            assert(rest[0] == s@[i as int]);
        }
        let d: u8;
        if '0' <= c && c <= '9' {
            d = (c as u32 as u8) - 48;
        } else if 'a' <= c && c <= 'f' {
            d = (c as u32 - 97) as u8 + 10;
        } else if 'A' <= c && c <= 'F' {
            d = (c as u32 - 65) as u8 + 10;
        } else {
            return None;
        }
        proof {
            assert(d == hex_digit_val(c));
        }
        if acc > (u8::MAX - d) / 16 {
            proof {
                assert(acc * 16 + d > u8::MAX) by (nonlinear_arith)
                    requires
                        acc > (u8::MAX - d) / 16,
                        d <= 15,
                        acc <= u8::MAX,
                ;
            }
            return None;
        }
        proof {
            assert(acc * 16 + d <= u8::MAX) by (nonlinear_arith)
                requires
                    acc <= (u8::MAX - d) / 16,
                    d <= 15,
                    acc >= 0,
            ;
            assert(rest.subrange(1, rest.len() as int) =~= s@.subrange(i + 1, len as int));
        }
        acc = acc * 16 + d;
        i = i + 1;
    }
    proof {
        assert(s@.subrange(len as int, len as int) =~= Seq::<char>::empty());
    }
    Some(acc)
}

/// What `str::trim_start_matches("0x")` leaves: the characters after
/// every leading repetition of the two characters `0x`.
pub open spec fn strip_hex_markers(s: Seq<char>) -> Seq<char>
    decreases s.len(),
{
    if s.len() >= 2 && s[0] == '0' && s[1] == 'x' {
        strip_hex_markers(s.subrange(2, s.len() as int))
    } else {
        s
    }
}

/// Strip every leading `0x` marker, as `str::trim_start_matches("0x")`
/// does.
pub fn trim_hex_markers<'a>(s: &'a str) -> (r: &'a str)
    ensures
        r@ == strip_hex_markers(s@),
{
    let mut t: &str = s;
    let mut tlen = t.unicode_len();
    while tlen >= 2 && t.get_char(0) == '0' && t.get_char(1) == 'x'
        invariant
            tlen == t@.len(),
            strip_hex_markers(s@) == strip_hex_markers(t@),
        decreases tlen,
    {
        let next = t.substring_char(2, tlen);
        proof {
            assert(next@ =~= t@.subrange(2, t@.len() as int));
        }
        t = next;
        tlen = tlen - 2;
    }
    t
}

} // verus!
