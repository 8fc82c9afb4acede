//! The device-description mini-language: `d:<bus>/<address>`,
//! `i:<vendor>:<product>[:<index>]` and `s:<vendor>:<product>:<serial>`.
//!
//! Numbers are decimal, `0x`-prefixed hexadecimal or `0o`-prefixed octal,
//! read as unsigned 16-bit values: an optional leading `+`, then digits of
//! the radix in either case, with no overflow. The text is read as UTF-8
//! bytes; the separators and digits are ASCII, which never occurs inside the
//! encoding of another character.
use vstd::prelude::*;
use vstd::string::StringSliceAdditionalSpecFns;
use crate::context::ftdi_context;
use crate::error::{ErrorKind, FtdiContextError};

verus! {

pub const COLON: u8 = 58;
pub const SLASH: u8 = 47;
pub const PLUS: u8 = 43;
pub const ZERO: u8 = 48;
pub const LETTER_X: u8 = 120;
pub const LETTER_O: u8 = 111;
pub const LETTER_D: u8 = 100;
pub const LETTER_I: u8 = 105;
pub const LETTER_S: u8 = 115;

/// The value of a digit byte: 0-9, then letters of either case from 10 on;
/// 36 for any other byte.
pub open spec fn digit_val(c: u8) -> nat {
    if 48 <= c <= 57 {
        (c - 48) as nat
    } else if 97 <= c <= 122 {
        (c - 87) as nat
    } else if 65 <= c <= 90 {
        (c - 55) as nat
    } else {
        36
    }
}

pub open spec fn is_digit(c: u8, radix: nat) -> bool {
    digit_val(c) < radix
}

pub open spec fn all_digits(d: Seq<u8>, radix: nat) -> bool {
    forall|k: int| 0 <= k < d.len() ==> is_digit(#[trigger] d[k], radix)
}

/// The number that the digits `d` write in `radix`.
pub open spec fn digits_value(d: Seq<u8>, radix: nat) -> nat
    decreases d.len(),
{
    if d.len() == 0 {
        0
    } else {
        digits_value(d.drop_last(), radix) * radix + digit_val(d.last())
    }
}

/// The unsigned 16-bit number that `d` writes in `radix`: an optional `+`
/// followed by at least one digit, with a value that fits.
pub open spec fn radix_value(d: Seq<u8>, radix: nat) -> Option<u16> {
    let digits = if d.len() > 1 && d[0] == PLUS {
        d.subrange(1, d.len() as int)
    } else {
        d
    };
    if digits.len() == 0 || !all_digits(digits, radix) || digits_value(digits, radix) > 65535 {
        None
    } else {
        Some(digits_value(digits, radix) as u16)
    }
}

/// Whether `f` starts with `0` and then `c`.
pub open spec fn has_prefix(f: Seq<u8>, c: u8) -> bool {
    f.len() >= 2 && f[0] == ZERO && f[1] == c
}

/// `f` without all the leading repetitions of the prefix `0c`.
pub open spec fn strip_prefix_all(f: Seq<u8>, c: u8) -> Seq<u8>
    decreases f.len(),
{
    if has_prefix(f, c) {
        strip_prefix_all(f.subrange(2, f.len() as int), c)
    } else {
        f
    }
}

/// A number field: hexadecimal after `0x` (error -15), octal after `0o`
/// (error -16), decimal otherwise (error -17).
pub open spec fn number_value(f: Seq<u8>) -> Result<u16, i32> {
    if has_prefix(f, LETTER_X) {
        match radix_value(strip_prefix_all(f, LETTER_X), 16) {
            Some(v) => Ok(v),
            None => Err(-15i32),
        }
    } else if has_prefix(f, LETTER_O) {
        match radix_value(strip_prefix_all(f, LETTER_O), 8) {
            Some(v) => Ok(v),
            None => Err(-16i32),
        }
    } else {
        match radix_value(f, 10) {
            Some(v) => Ok(v),
            None => Err(-17i32),
        }
    }
}

/// The fields of `s` between the colons, as (start, end) positions.
pub open spec fn field_bounds(s: Seq<u8>) -> Seq<(int, int)>
    decreases s.len(),
{
    if s.len() == 0 {
        seq![(0int, 0int)]
    } else {
        let f = field_bounds(s.drop_last());
        if s.last() == COLON {
            f.push((s.len() as int, s.len() as int))
        } else {
            f.update(f.len() - 1, (f.last().0, s.len() as int))
        }
    }
}

/// The letter token that starts a vendor/product description: `i` or `s`.
pub open spec fn is_letter_token(f: Seq<u8>) -> bool {
    f.len() == 1 && (f[0] == LETTER_S || f[0] == LETTER_I)
}

/// The numbers of the fields `bounds` of `s`; the error of the first field
/// that is no number.
pub open spec fn parse_fields(s: Seq<u8>, bounds: Seq<(int, int)>) -> Result<Seq<u16>, i32>
    decreases bounds.len(),
{
    if bounds.len() == 0 {
        Ok(Seq::empty())
    } else {
        match parse_fields(s, bounds.drop_last()) {
            Err(c) => Err(c),
            Ok(v) => match number_value(s.subrange(bounds.last().0, bounds.last().1)) {
                Ok(x) => Ok(v.push(x)),
                Err(c) => Err(c),
            },
        }
    }
}

/// The numbers of a vendor/product description `<letter>:<n>:<n>[:<n>]`:
/// -11 without a colon, -12 with fewer than two numbers, -14 with more than
/// three, -11 where the first field is not the letter `i` or `s`, else the
/// numbers of the fields after the letter.
pub open spec fn parse_description(s: Seq<u8>) -> Result<Seq<u16>, i32> {
    if s.len() == 0 || !s.contains(COLON) {
        Err(-11i32)
    } else if field_bounds(s).len() <= 2 {
        Err(-12i32)
    } else if field_bounds(s).len() >= 5 {
        Err(-14i32)
    } else if !is_letter_token(field_text(s, 0)) {
        Err(-11i32)
    } else {
        parse_fields(s, field_bounds(s).drop_first())
    }
}

pub open spec fn int_pairs(v: Seq<(usize, usize)>) -> Seq<(int, int)> {
    Seq::new(v.len(), |k: int| (v[k].0 as int, v[k].1 as int))
}

proof fn lemma_field_bounds_last(s: Seq<u8>)
    ensures
        field_bounds(s).len() >= 1,
        field_bounds(s).last().1 == s.len(),
        forall|k: int|
            0 <= k < field_bounds(s).len() ==> 0 <= #[trigger] field_bounds(s)[k].0 <= field_bounds(
                s,
            )[k].1 <= s.len(),
    decreases s.len(),
{
    if s.len() > 0 {
        lemma_field_bounds_last(s.drop_last());
    }
}

proof fn lemma_digits_value_prefix(d: Seq<u8>, k: int, radix: nat)
    requires
        0 <= k <= d.len(),
        radix >= 1,
    ensures
        digits_value(d.subrange(0, k), radix) <= digits_value(d, radix),
    decreases d.len(),
{
    if k < d.len() {
        lemma_digits_value_prefix(d.drop_last(), k, radix);
        assert(d.drop_last().subrange(0, k) =~= d.subrange(0, k));
        let v = digits_value(d.drop_last(), radix);
        assert(v * radix >= v) by (nonlinear_arith)
            requires
                radix >= 1,
        ;
    } else {
        assert(d.subrange(0, k) =~= d);
    }
}

proof fn lemma_parse_error_extends(s: Seq<u8>, bounds: Seq<(int, int)>, i: int)
    requires
        0 <= i <= bounds.len(),
        parse_fields(s, bounds.subrange(0, i)) is Err,
    ensures
        parse_fields(s, bounds) == parse_fields(s, bounds.subrange(0, i)),
    decreases bounds.len(),
{
    if i < bounds.len() {
        assert(bounds.drop_last().subrange(0, i) =~= bounds.subrange(0, i));
        lemma_parse_error_extends(s, bounds.drop_last(), i);
    } else {
        assert(bounds.subrange(0, i) =~= bounds);
    }
}

/// Reads the digits `b[from..end]` in `radix`, with an optional leading `+`.
fn parse_radix(b: &[u8], from: usize, end: usize, radix: u32) -> (r: Option<u16>)
    requires
        from <= end <= b@.len(),
        2 <= radix <= 16,
    ensures
        r == radix_value(b@.subrange(from as int, end as int), radix as nat),
{
    let ghost d = b@.subrange(from as int, end as int);
    let mut p = from;
    if end - from > 1 && b[from] == PLUS {
        p = from + 1;
    }
    let ghost digits = b@.subrange(p as int, end as int);
    assert(digits =~= (if d.len() > 1 && d[0] == PLUS {
        d.subrange(1, d.len() as int)
    } else {
        d
    }));
    if p == end {
        return None;
    }
    let start = p;
    let mut acc: u32 = 0;
    while p < end
        invariant
            from <= start <= p <= end <= b@.len(),
            2 <= radix <= 16,
            digits == b@.subrange(start as int, end as int),
            d == b@.subrange(from as int, end as int),
            digits == (if d.len() > 1 && d[0] == PLUS {
                d.subrange(1, d.len() as int)
            } else {
                d
            }),
            digits.len() > 0,
            acc as nat == digits_value(b@.subrange(start as int, p as int), radix as nat),
            acc <= 65535,
            forall|k: int| start <= k < p ==> is_digit(#[trigger] b@[k], radix as nat),
        decreases end - p,
    {
        let c = b[p];
        let dv: u32 = if 48 <= c && c <= 57 {
            (c - 48) as u32
        } else if 97 <= c && c <= 122 {
            (c - 87) as u32
        } else if 65 <= c && c <= 90 {
            (c - 55) as u32
        } else {
            36
        };
        assert(dv as nat == digit_val(c));
        if dv >= radix {
            assert(digits[p - start] == c);
            assert(!is_digit(digits[p - start], radix as nat));
            assert(!all_digits(digits, radix as nat));
            return None;
        }
        assert(acc * radix + dv <= 65535 * 16 + 16) by (nonlinear_arith)
            requires
                acc <= 65535,
                radix <= 16,
                dv < 16,
        ;
        let ghost prefix = b@.subrange(start as int, p as int + 1);
        assert(prefix.drop_last() =~= b@.subrange(start as int, p as int));
        let next = acc * radix + dv;
        if next > 65535 {
            proof {
                if all_digits(digits, radix as nat) {
                    assert(digits.subrange(0, p - start + 1) =~= prefix);
                    lemma_digits_value_prefix(digits, p - start + 1, radix as nat);
                }
            }
            return None;
        }
        acc = next;
        p = p + 1;
    }
    assert(b@.subrange(start as int, p as int) =~= digits);
    assert(all_digits(digits, radix as nat)) by {
        assert forall|k: int| 0 <= k < digits.len() implies is_digit(
            #[trigger] digits[k],
            radix as nat,
        ) by {
            assert(digits[k] == b@[start + k]);
        }
    }
    Some(acc as u16)
}

/// The end of the repeated `0c` prefixes of `b[from..end]`.
fn skip_prefixes(b: &[u8], from: usize, end: usize, c: u8) -> (r: usize)
    requires
        from <= end <= b@.len(),
    ensures
        from <= r <= end,
        b@.subrange(r as int, end as int) == strip_prefix_all(
            b@.subrange(from as int, end as int),
            c,
        ),
{
    let mut p = from;
    while end - p >= 2 && b[p] == ZERO && b[p + 1] == c
        invariant
            from <= p <= end <= b@.len(),
            strip_prefix_all(b@.subrange(p as int, end as int), c) == strip_prefix_all(
                b@.subrange(from as int, end as int),
                c,
            ),
        decreases end - p,
    {
        assert(b@.subrange(p as int, end as int).subrange(2, end - p) =~= b@.subrange(
            p + 2,
            end as int,
        ));
        p = p + 2;
    }
    p
}

/// Reads the number field `b[from..end]`.
fn parse_number(b: &[u8], from: usize, end: usize) -> (r: Result<u16, i32>)
    requires
        from <= end <= b@.len(),
    ensures
        r == number_value(b@.subrange(from as int, end as int)),
{
    let ghost f = b@.subrange(from as int, end as int);
    if end - from >= 2 && b[from] == ZERO && b[from + 1] == LETTER_X {
        assert(has_prefix(f, LETTER_X));
        let p = skip_prefixes(b, from, end, LETTER_X);
        match parse_radix(b, p, end, 16) {
            Some(v) => Ok(v),
            None => Err(-15i32),
        }
    } else if end - from >= 2 && b[from] == ZERO && b[from + 1] == LETTER_O {
        assert(has_prefix(f, LETTER_O));
        let p = skip_prefixes(b, from, end, LETTER_O);
        match parse_radix(b, p, end, 8) {
            Some(v) => Ok(v),
            None => Err(-16i32),
        }
    } else {
        match parse_radix(b, from, end, 10) {
            Some(v) => Ok(v),
            None => Err(-17i32),
        }
    }
}

/// The fields of `b` between the colons, and whether there is a colon.
fn split_fields(b: &[u8]) -> (r: (Vec<(usize, usize)>, bool))
    ensures
        int_pairs(r.0@) == field_bounds(b@),
        r.1 == b@.contains(COLON),
{
    let mut bounds: Vec<(usize, usize)> = Vec::new();
    let mut cur: usize = 0;
    let mut i: usize = 0;
    let mut has_colon = false;
    while i < b.len()
        invariant
            cur <= i <= b@.len(),
            field_bounds(b@.subrange(0, i as int)) == int_pairs(bounds@).push((cur as int, i as int)),
            has_colon == b@.subrange(0, i as int).contains(COLON),
        decreases b@.len() - i,
    {
        let ghost before = b@.subrange(0, i as int);
        let ghost now = b@.subrange(0, i as int + 1);
        assert(now.drop_last() =~= before);
        assert(now.last() == b@[i as int]);
        let ghost old_pairs = int_pairs(bounds@);
        let ghost f = old_pairs.push((cur as int, i as int));
        if b[i] == COLON {
            assert(now.contains(COLON)) by {
                assert(now[i as int] == COLON);
            }
            bounds.push((cur, i));
            assert(int_pairs(bounds@) =~= f);
            cur = i + 1;
            has_colon = true;
        } else {
            assert(f.update(f.len() - 1, (f.last().0, i + 1)) =~= old_pairs.push(
                (cur as int, i + 1),
            ));
            assert(now.contains(COLON) == before.contains(COLON)) by {
                if now.contains(COLON) {
                    let k = choose|k: int| 0 <= k < now.len() && now[k] == COLON;
                    assert(before[k] == COLON);
                }
                if before.contains(COLON) {
                    let k = choose|k: int| 0 <= k < before.len() && before[k] == COLON;
                    assert(now[k] == COLON);
                }
            }
        }
        i = i + 1;
    }
    assert(b@.subrange(0, i as int) =~= b@);
    let ghost old_pairs = int_pairs(bounds@);
    bounds.push((cur, i));
    assert(int_pairs(bounds@) =~= old_pairs.push((cur as int, i as int)));
    (bounds, has_colon)
}

/// The message of a refused description's error code.
pub open spec fn description_message(code: i32) -> &'static str {
    if code == -11 {
        "incorrect 'description' format or length, see format explanation in code"
    } else if code == -12 {
        "incorrect 'description' format, vendor and product is minimal set"
    } else if code == -14 {
        "incorrect 'description' format is too long"
    } else if code == -15 {
        "HEX value parse error"
    } else if code == -16 {
        "Octal value parse error"
    } else if code == -17 {
        "Decimal value parse error"
    } else {
        "incorrect 'description' format"
    }
}

/// The error of a refused description, with the message for its code.
fn description_error(code: i32) -> (r: FtdiContextError)
    ensures
        r.is(ErrorKind::Common, code as int),
        r.message() == description_message(code)@,
{
    let message = if code == -11 {
        "incorrect 'description' format or length, see format explanation in code"
    } else if code == -12 {
        "incorrect 'description' format, vendor and product is minimal set"
    } else if code == -14 {
        "incorrect 'description' format is too long"
    } else if code == -15 {
        "HEX value parse error"
    } else if code == -16 {
        "Octal value parse error"
    } else if code == -17 {
        "Decimal value parse error"
    } else {
        "incorrect 'description' format"
    };
    FtdiContextError::new(ErrorKind::Common, code, message)
}

/// The device a description names.
#[derive(Debug)]
pub enum OpenTarget {
    /// The device at a bus number and device address.
    BusAddress { bus: u16, address: u16 },
    /// The `index`-th device (from 0) with the vendor and product ids.
    VendorProduct { vendor: u16, product: u16, index: usize },
    /// The device with the vendor and product ids and the serial number.
    VendorProductSerial { vendor: u16, product: u16, serial: Vec<u8> },
}

/// The bus and address of a `d:<bus>/<address>` description: two decimal
/// numbers on either side of the first `/`.
pub open spec fn bus_address(s: Seq<u8>) -> Option<(u16, u16)> {
    let rest = s.subrange(2, s.len() as int);
    if s.len() >= 2 && s[0] == LETTER_D && s[1] == COLON && rest.contains(SLASH) {
        let k = choose|k: int|
            0 <= k < rest.len() && rest[k] == SLASH && forall|j: int|
                0 <= j < k ==> rest[j] != SLASH;
        match (
            radix_value(rest.subrange(0, k), 10),
            radix_value(rest.subrange(k + 1, rest.len() as int), 10),
        ) {
            (Some(bus), Some(address)) => Some((bus, address)),
            _ => None,
        }
    } else {
        None
    }
}

/// The text of the `i`-th field of `s`; a serial number is the last field.
pub open spec fn field_text(s: Seq<u8>, i: int) -> Seq<u8> {
    s.subrange(field_bounds(s)[i].0, field_bounds(s)[i].1)
}

impl ftdi_context {
    /// Reads a number in the description's notation: `0x` hexadecimal,
    /// `0o` octal, otherwise decimal.
    pub fn parse_number_str(one_item: &str) -> (r: Option<u16>)
        ensures
            r == match number_value(one_item.spec_bytes()) {
                Ok(v) => Some(v),
                Err(_) => None,
            },
    {
        let b = one_item.as_bytes();
        match parse_number(b, 0, b.len()) {
            Ok(v) => {
                assert(b@.subrange(0, b@.len() as int) =~= b@);
                Some(v)
            },
            Err(_) => {
                assert(b@.subrange(0, b@.len() as int) =~= b@);
                None
            },
        }
    }

    /// The numbers of a vendor/product description, as `parse_description`
    /// gives them, or the common error with its code and message.
    pub fn parse_vendor_product_index(description: &str) -> (r: Result<Vec<u16>, FtdiContextError>)
        ensures
            match parse_description(description.spec_bytes()) {
                Ok(v) => r matches Ok(x) && x@ == v,
                Err(c) => r matches Err(e) && e.is(ErrorKind::Common, c as int) && e.message()
                    == description_message(c)@,
            },
    {
        let b = description.as_bytes();
        ftdi_context::parse_bytes(b)
    }

    fn parse_bytes(b: &[u8]) -> (r: Result<Vec<u16>, FtdiContextError>)
        ensures
            match parse_description(b@) {
                Ok(v) => r matches Ok(x) && x@ == v,
                Err(c) => r matches Err(e) && e.is(ErrorKind::Common, c as int) && e.message()
                    == description_message(c)@,
            },
    {
        let (bounds, has_colon) = split_fields(b);
        if b.len() == 0 || !has_colon {
            return Err(description_error(-11));
        }
        let n = bounds.len();
        if n <= 2 {
            return Err(description_error(-12));
        }
        if n >= 5 {
            return Err(description_error(-14));
        }
        proof {
            lemma_field_bounds_last(b@);
        }
        let ghost all = int_pairs(bounds@);
        let (first_from, first_end) = bounds[0];
        assert(all[0] == (first_from as int, first_end as int));
        let letter = first_end - first_from == 1 && (b[first_from] == LETTER_S || b[first_from]
            == LETTER_I);
        assert(letter == is_letter_token(field_text(b@, 0)));
        if !letter {
            return Err(description_error(-11));
        }
        let ghost rest = all.drop_first();
        let mut result: Vec<u16> = Vec::new();
        let mut i: usize = 1;
        while i < n
            invariant
                1 <= i <= n == bounds@.len(),
                3 <= n <= 4,
                b@.len() > 0,
                b@.contains(COLON),
                is_letter_token(field_text(b@, 0)),
                all == int_pairs(bounds@),
                all == field_bounds(b@),
                rest == all.drop_first(),
                forall|k: int| 0 <= k < all.len() ==> 0 <= #[trigger] all[k].0 <= all[k].1 <= b@.len(),
                parse_fields(b@, rest.subrange(0, i - 1)) == Ok::<Seq<u16>, i32>(result@),
            decreases n - i,
        {
            let (from, end) = bounds[i];
            assert(all[i as int] == (from as int, end as int));
            assert(rest[i - 1] == all[i as int]);
            assert(rest.subrange(0, i as int).drop_last() =~= rest.subrange(0, i - 1));
            match parse_number(b, from, end) {
                Ok(v) => {
                    result.push(v);
                },
                Err(c) => {
                    proof {
                        assert(rest.subrange(0, i as int).last() == rest[i - 1]);
                        assert(parse_fields(b@, rest.subrange(0, i as int)) == Err::<Seq<u16>, i32>(c));
                        lemma_parse_error_extends(b@, rest, i as int);
                    }
                    return Err(description_error(c));
                },
            }
            i = i + 1;
        }
        assert(rest.subrange(0, n - 1) =~= rest);
        Ok(result)
    }

    /// What a description names. It needs a live transport context
    /// (initialization error -8). A description without a colon, a `d:`
    /// description that is not `d:<bus>/<address>`, or one of any other
    /// letter is the common error -11; an `i:` or `s:` description has the
    /// errors of `parse_description`, and -12 where fewer than two numbers
    /// remain.
    pub fn ftdi_usb_open_string(&self, description: &str) -> (r: Result<OpenTarget, FtdiContextError>)
        ensures
            ({
                let s = description.spec_bytes();
                &&& !self.usb_ctx ==> (r matches Err(e) && e.is(ErrorKind::Init, -8))
                &&& self.usb_ctx && (s.len() == 0 || !s.contains(COLON)) ==> (r matches Err(e)
                    && e.is(ErrorKind::Common, -11))
                &&& self.usb_ctx && s.len() > 0 && s.contains(COLON) && s[0] == LETTER_D ==> match bus_address(s) {
                    Some((bus, address)) => r matches Ok(OpenTarget::BusAddress { bus: b, address: a }) && b == bus && a == address,
                    None => r matches Err(e) && e.is(ErrorKind::Common, -11),
                }
                &&& self.usb_ctx && s.len() > 0 && s.contains(COLON) && (s[0] == LETTER_I || s[0] == LETTER_S) ==> match parse_description(s) {
                    Err(c) => r matches Err(e) && e.is(ErrorKind::Common, c as int),
                    Ok(v) => if v.len() == 2 {
                        r matches Ok(OpenTarget::VendorProduct { vendor, product, index }) && vendor == v[0] && product == v[1] && index == 0
                    } else if v.len() == 3 && s[0] == LETTER_I {
                        r matches Ok(OpenTarget::VendorProduct { vendor, product, index }) && vendor == v[0] && product == v[1] && index == v[2] as usize
                    } else if v.len() == 3 {
                        r matches Ok(OpenTarget::VendorProductSerial { vendor, product, serial }) && vendor == v[0] && product == v[1] && serial@ == field_text(s, field_bounds(s).len() - 1)
                    } else {
                        r matches Err(e) && e.is(ErrorKind::Common, -12)
                    },
                }
                &&& self.usb_ctx && s.len() > 0 && s.contains(COLON) && s[0] != LETTER_D && s[0] != LETTER_I && s[0] != LETTER_S ==> (r matches Err(e) && e.is(ErrorKind::Common, -11))
            }),
    {
        self.check_usb_context_initialized()?;
        let b = description.as_bytes();
        let (bounds, has_colon) = split_fields(b);
        if b.len() == 0 || !has_colon {
            return Err(description_error(-11));
        }
        if b[0] == LETTER_D {
            if b.len() < 2 || b[1] != COLON {
                return Err(description_error(-11));
            }
            return match ftdi_context::parse_bus_address(b) {
                Some((bus, address)) => Ok(OpenTarget::BusAddress { bus, address }),
                None => Err(description_error(-11)),
            };
        }
        if b[0] != LETTER_I && b[0] != LETTER_S {
            return Err(description_error(-11));
        }
        let parts = ftdi_context::parse_bytes(b)?;
        if parts.len() == 2 {
            Ok(OpenTarget::VendorProduct { vendor: parts[0], product: parts[1], index: 0 })
        } else if parts.len() == 3 && b[0] == LETTER_I {
            Ok(OpenTarget::VendorProduct { vendor: parts[0], product: parts[1], index: parts[2] as usize })
        } else if parts.len() == 3 {
            proof {
                lemma_field_bounds_last(b@);
            }
            let last = bounds.len() - 1;
            let (from, end) = bounds[last];
            assert(int_pairs(bounds@)[last as int] == (from as int, end as int));
            let serial = copy_range(b, from, end);
            Ok(OpenTarget::VendorProductSerial { vendor: parts[0], product: parts[1], serial })
        } else {
            Err(description_error(-12))
        }
    }

    /// The bus and address of a `d:` description.
    fn parse_bus_address(b: &[u8]) -> (r: Option<(u16, u16)>)
        requires
            b@.len() >= 2,
            b@[0] == LETTER_D,
            b@[1] == COLON,
        ensures
            r == bus_address(b@),
    {
        let ghost rest = b@.subrange(2, b@.len() as int);
        let mut k: usize = 2;
        while k < b.len() && b[k] != SLASH
            invariant
                2 <= k <= b@.len(),
                rest == b@.subrange(2, b@.len() as int),
                forall|j: int| 0 <= j < k - 2 ==> rest[j] != SLASH,
            decreases b@.len() - k,
        {
            k = k + 1;
        }
        if k == b.len() {
            assert(!rest.contains(SLASH));
            return None;
        }
        let ghost kk = k - 2;
        assert(rest[kk] == SLASH);
        let ghost c = choose|c: int|
            0 <= c < rest.len() && rest[c] == SLASH && forall|j: int| 0 <= j < c ==> rest[j] != SLASH;
        assert(c == kk) by {
            if c < kk {
                assert(rest[c] != SLASH);
            }
            if c > kk {
                assert(rest[kk] != SLASH);
            }
        }
        assert(rest.subrange(0, kk) =~= b@.subrange(2, k as int));
        assert(rest.subrange(kk + 1, rest.len() as int) =~= b@.subrange(k + 1, b@.len() as int));
        match (parse_radix(b, 2, k, 10), parse_radix(b, k + 1, b.len(), 10)) {
            (Some(bus), Some(address)) => Some((bus, address)),
            _ => None,
        }
    }
}

/// The bytes `b[from..end]`.
fn copy_range(b: &[u8], from: usize, end: usize) -> (r: Vec<u8>)
    requires
        from <= end <= b@.len(),
    ensures
        r@ == b@.subrange(from as int, end as int),
{
    let mut r: Vec<u8> = Vec::new();
    let mut i = from;
    while i < end
        invariant
            from <= i <= end <= b@.len(),
            r@ == b@.subrange(from as int, i as int),
        decreases end - i,
    {
        r.push(b[i]);
        i = i + 1;
    }
    r
}

} // verus!
