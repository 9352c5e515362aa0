//! Text primitives shared by the rest of the library: decimal rendering of
//! integers, decimal parsing with the rules of `str::parse`, character-wise
//! comparison and splitting on a separator.
use vstd::prelude::*;
use vstd::string::*;

verus! {

/// Appends one character to a `String`.
///
/// Trusted: `String::push` from std, which the documentation describes as
/// appending the given `char` to the end of the string.
#[verifier::external_body]
pub(crate) fn push_char(s: &mut String, c: char)
    ensures
        final(s)@ == old(s)@.push(c),
{
    s.push(c);
}

/// The character of a decimal digit.
pub open spec fn digit_char(d: int) -> char {
    if d == 0 { '0' }
    else if d == 1 { '1' }
    else if d == 2 { '2' }
    else if d == 3 { '3' }
    else if d == 4 { '4' }
    else if d == 5 { '5' }
    else if d == 6 { '6' }
    else if d == 7 { '7' }
    else if d == 8 { '8' }
    else { '9' }
}

/// Whether a character is an ASCII decimal digit.
pub open spec fn is_digit(c: char) -> bool {
    '0' <= c && c <= '9'
}

/// The value of an ASCII decimal digit.
pub open spec fn digit_value(c: char) -> int {
    (c as int) - ('0' as int)
}

/// Decimal representation of a natural number, without leading zeros.
pub open spec fn decimal(n: nat) -> Seq<char>
    decreases n,
{
    if n < 10 {
        seq![digit_char(n as int)]
    } else {
        decimal(n / 10).push(digit_char((n % 10) as int))
    }
}

/// Decimal representation of an integer, with a leading `-` when negative
/// (what `to_string` gives for the std integer types).
pub open spec fn int_to_decimal(n: int) -> Seq<char> {
    if n < 0 {
        seq!['-'] + decimal((-n) as nat)
    } else {
        decimal(n as nat)
    }
}

/// Whether every character of `s` is a decimal digit.
pub open spec fn all_digits(s: Seq<char>) -> bool {
    forall|i: int| 0 <= i < s.len() ==> #[trigger] is_digit(s[i])
}

/// Value of a run of decimal digits (most significant first).
pub open spec fn digits_value(s: Seq<char>) -> nat
    decreases s.len(),
{
    if s.len() == 0 {
        0
    } else {
        (digits_value(s.drop_last()) * 10 + digit_value(s.last())) as nat
    }
}

/// Whether `s` starts with a sign character.
pub open spec fn has_sign(s: Seq<char>) -> bool {
    s.len() > 0 && (s[0] == '-' || s[0] == '+')
}

/// `s` without its leading sign, if it has one.
pub open spec fn unsigned_part(s: Seq<char>) -> Seq<char> {
    if has_sign(s) { s.drop_first() } else { s }
}

/// The integer that `str::parse` reads from `s` for a signed integer type
/// spanning `[min, max]`: an optional `+` or `-`, then one or more decimal
/// digits, and a value inside the type's range; `None` otherwise.
pub open spec fn parse_signed(s: Seq<char>, min: int, max: int) -> Option<int> {
    let body = unsigned_part(s);
    if body.len() == 0 || !all_digits(body) {
        None
    } else {
        let v: int = if s[0] == '-' { -(digits_value(body) as int) } else { digits_value(body) as int };
        if min <= v && v <= max { Some(v) } else { None }
    }
}

/// What `str::parse::<i64>` gives.
pub open spec fn parse_i64_spec(s: Seq<char>) -> Option<int> {
    parse_signed(s, i64::MIN as int, i64::MAX as int)
}

/// What `str::parse::<i32>` gives.
pub open spec fn parse_i32_spec(s: Seq<char>) -> Option<int> {
    parse_signed(s, i32::MIN as int, i32::MAX as int)
}

proof fn lemma_digit_char(d: int)
    requires
        0 <= d < 10,
    ensures
        is_digit(digit_char(d)),
        digit_value(digit_char(d)) == d,
{
}

proof fn lemma_decimal_digits(n: nat)
    ensures
        all_digits(decimal(n)),
        decimal(n).len() >= 1,
        decimal(n)[0] != '-' && decimal(n)[0] != '+',
        digits_value(decimal(n)) == n,
    decreases n,
{
    lemma_digit_char((n % 10) as int);
    if n < 10 {
        assert(decimal(n).drop_last() =~= Seq::<char>::empty());
        assert(digits_value(Seq::<char>::empty()) == 0);
        assert(decimal(n).last() == digit_char(n as int));
    } else {
        lemma_decimal_digits(n / 10);
        let s = decimal(n);
        assert(s.drop_last() =~= decimal(n / 10));
        assert forall|i: int| 0 <= i < s.len() implies #[trigger] is_digit(s[i]) by {
            if i < s.len() - 1 {
                assert(s[i] == decimal(n / 10)[i]);
            }
        }
    }
}

/// Parsing the decimal text of an integer gives the integer back.
pub proof fn lemma_parse_of_decimal(n: int, min: int, max: int)
    requires
        min <= n <= max,
    ensures
        parse_signed(int_to_decimal(n), min, max) == Some(n),
{
    if n < 0 {
        let m = (-n) as nat;
        lemma_decimal_digits(m);
        let s = int_to_decimal(n);
        assert(s.drop_first() =~= decimal(m));
    } else {
        lemma_decimal_digits(n as nat);
    }
}

fn digit_of(d: u64) -> (c: char)
    requires
        d < 10,
    ensures
        c == digit_char(d as int),
{
    if d == 0 { '0' }
    else if d == 1 { '1' }
    else if d == 2 { '2' }
    else if d == 3 { '3' }
    else if d == 4 { '4' }
    else if d == 5 { '5' }
    else if d == 6 { '6' }
    else if d == 7 { '7' }
    else if d == 8 { '8' }
    else { '9' }
}

/// Appends the decimal digits of `n` to `s`.
pub(crate) fn push_decimal(s: &mut String, n: u64)
    ensures
        final(s)@ == old(s)@ + decimal(n as nat),
    decreases n,
{
    if n >= 10 {
        push_decimal(s, n / 10);
    }
    let d = n % 10;
    push_char(s, digit_of(d));
    proof {
        if n < 10 {
            assert(decimal(n as nat) =~= seq![digit_char(n as int)]);
        } else {
            assert(decimal(n as nat) == decimal((n / 10) as nat).push(digit_char((n % 10) as int)));
        }
    }
}

/// Appends the decimal text of `n` (with a `-` when negative) to `s`.
pub(crate) fn push_i64(s: &mut String, n: i64)
    ensures
        final(s)@ == old(s)@ + int_to_decimal(n as int),
{
    if n < 0 {
        push_char(s, '-');
        let m: u64 = if n == i64::MIN { 9223372036854775808u64 } else { (-n) as u64 };
        push_decimal(s, m);
        proof {
            assert(m as int == -(n as int));
        }
    } else {
        push_decimal(s, n as u64);
    }
}

/// The decimal text of an `i64`, as `to_string` writes it.
pub fn i64_to_string(n: i64) -> (s: String)
    ensures
        s@ == int_to_decimal(n as int),
{
    let mut s = String::new();
    push_i64(&mut s, n);
    assert(s@ =~= int_to_decimal(n as int));
    s
}

/// The decimal text of an `i32`, as `to_string` writes it.
pub fn i32_to_string(n: i32) -> (s: String)
    ensures
        s@ == int_to_decimal(n as int),
{
    i64_to_string(n as i64)
}

proof fn lemma_digits_value_take(s: Seq<char>, i: int)
    requires
        0 <= i < s.len(),
        is_digit(s[i]),
    ensures
        digits_value(s.take(i + 1)) == digits_value(s.take(i)) * 10 + digit_value(s[i]),
{
    assert(s.take(i + 1).drop_last() =~= s.take(i));
}

proof fn lemma_digits_value_monotone(s: Seq<char>, i: int)
    requires
        0 <= i <= s.len(),
        all_digits(s),
    ensures
        digits_value(s) >= digits_value(s.take(i)),
    decreases s.len() - i,
{
    if i < s.len() {
        lemma_digits_value_take(s, i);
        assert(is_digit(s[i]));
        lemma_digits_value_monotone(s, i + 1);
    } else {
        assert(s.take(i) =~= s);
    }
}

/// Reads a signed decimal integer with the rules of `str::parse::<i64>`:
/// an optional sign, then at least one digit, and no overflow.
pub fn parse_i64(s: &str) -> (r: Option<i64>)
    ensures
        match r {
            Some(v) => parse_i64_spec(s@) == Some(v as int),
            None => parse_i64_spec(s@) is None,
        },
{
    let len = s.unicode_len();
    if len == 0 {
        return None;
    }
    let first = s.get_char(0);
    let neg = first == '-';
    let start: usize = if first == '-' || first == '+' { 1 } else { 0 };
    if start == len {
        return None;
    }
    let ghost body = unsigned_part(s@);
    proof {
        assert(body =~= s@.subrange(start as int, len as int));
    }
    let bound: u128 = if neg { 9223372036854775808u128 } else { 9223372036854775807u128 };
    let mut acc: u128 = 0;
    let mut i: usize = start;
    while i < len
        invariant
            start <= i <= len,
            len == s@.len(),
            start == 0 || start == 1,
            body =~= s@.subrange(start as int, len as int),
            body == unsigned_part(s@),
            neg == (s@[0] == '-'),
            forall|k: int| 0 <= k < i - start ==> #[trigger] is_digit(body[k]),
            acc as int == digits_value(body.take(i - start)),
            acc <= bound,
            bound == (if neg { 9223372036854775808u128 } else { 9223372036854775807u128 }),
        decreases len - i,
    {
        let c = s.get_char(i);
        if !('0' <= c && c <= '9') {
            proof {
                assert(body[i - start] == c);
                assert(!is_digit(body[i - start]));
                assert(!all_digits(body));
                assert(unsigned_part(s@) == body);
                assert(parse_signed(s@, i64::MIN as int, i64::MAX as int) is None);
            }
            return None;
        }
        let d = (c as u32 - '0' as u32) as u128;
        proof {
            assert(body[i - start] == c);
            lemma_digits_value_take(body, i - start);
        }
        acc = acc * 10 + d;
        if acc > bound {
            proof {
                assert(acc as int == digits_value(body.take(i - start + 1)));
                if all_digits(body) {
                    lemma_digits_value_monotone(body, i - start + 1);
                    assert(digits_value(body) > bound);
                    if neg {
                        assert(-(digits_value(body) as int) < i64::MIN as int);
                    } else {
                        assert(digits_value(body) as int > i64::MAX as int);
                    }
                }
                assert(parse_signed(s@, i64::MIN as int, i64::MAX as int) is None);
            }
            return None;
        }
        i = i + 1;
    }
    proof {
        assert(body.take(len - start) =~= body);
        assert(all_digits(body));
    }
    if neg {
        if acc == 9223372036854775808u128 {
            Some(i64::MIN)
        } else {
            Some(-(acc as i64))
        }
    } else {
        Some(acc as i64)
    }
}

/// Reads a signed decimal integer with the rules of `str::parse::<i32>`.
pub fn parse_i32(s: &str) -> (r: Option<i32>)
    ensures
        match r {
            Some(v) => parse_i32_spec(s@) == Some(v as int),
            None => parse_i32_spec(s@) is None,
        },
{
    match parse_i64(s) {
        Some(v) => {
            if i32::MIN as i64 <= v && v <= i32::MAX as i64 {
                Some(v as i32)
            } else {
                None
            }
        },
        None => None,
    }
}

/// Why `str::parse` refuses an integer, as std's `IntErrorKind` tells it.
#[derive(Debug, Clone, Copy, PartialEq, Eq, Structural)]
pub enum IntErrorKind {
    Empty,
    InvalidDigit,
    PosOverflow,
    NegOverflow,
}

/// The text std's `ParseIntError` displays for each kind.
pub open spec fn int_error_message(k: IntErrorKind) -> Seq<char> {
    match k {
        IntErrorKind::Empty => "cannot parse integer from empty string"@,
        IntErrorKind::InvalidDigit => "invalid digit found in string"@,
        IntErrorKind::PosOverflow => "number too large to fit in target type"@,
        IntErrorKind::NegOverflow => "number too small to fit in target type"@,
    }
}

/// Reads the digits of `s` from the left, stopping at the first failure:
/// a character that is no decimal digit, or a magnitude past `limit`
/// (reported as `PosOverflow`; the sign decides the final kind).
pub open spec fn scan_digits(s: Seq<char>, limit: int) -> Result<int, IntErrorKind>
    decreases s.len(),
{
    if s.len() == 0 {
        Ok(0)
    } else {
        match scan_digits(s.drop_last(), limit) {
            Err(k) => Err(k),
            Ok(v) => if !is_digit(s.last()) {
                Err(IntErrorKind::InvalidDigit)
            } else if v * 10 + digit_value(s.last()) > limit {
                Err(IntErrorKind::PosOverflow)
            } else {
                Ok(v * 10 + digit_value(s.last()))
            },
        }
    }
}

/// What `str::parse::<i32>` gives, with the kind of error when it fails:
/// empty text, then an optional sign followed by at least one digit, read
/// from the left until the first character that is no digit or the first
/// digit that leaves the type's range.
pub open spec fn i32_outcome(s: Seq<char>) -> Result<i32, IntErrorKind> {
    if s.len() == 0 {
        Err(IntErrorKind::Empty)
    } else {
        let neg = s[0] == '-';
        let body = unsigned_part(s);
        if body.len() == 0 {
            Err(IntErrorKind::InvalidDigit)
        } else {
            match scan_digits(body, if neg { 2147483648 } else { 2147483647 }) {
                Ok(v) => Ok((if neg { -v } else { v }) as i32),
                Err(IntErrorKind::PosOverflow) => Err(
                    if neg { IntErrorKind::NegOverflow } else { IntErrorKind::PosOverflow },
                ),
                Err(k) => Err(k),
            }
        }
    }
}

/// What parsing every piece of a list as an `i32` gives: the values in
/// order, or the error of the first piece that does not read.
pub open spec fn i32_list_outcome(parts: Seq<Seq<char>>) -> Result<Seq<i32>, IntErrorKind>
    decreases parts.len(),
{
    if parts.len() == 0 {
        Ok(Seq::<i32>::empty())
    } else {
        match i32_list_outcome(parts.drop_last()) {
            Err(k) => Err(k),
            Ok(vs) => match i32_outcome(parts.last()) {
                Ok(x) => Ok(vs.push(x)),
                Err(k) => Err(k),
            },
        }
    }
}

proof fn lemma_scan_step(s: Seq<char>, limit: int, i: int)
    requires
        0 <= i < s.len(),
    ensures
        scan_digits(s.take(i + 1), limit) == (match scan_digits(s.take(i), limit) {
            Err(k) => Err(k),
            Ok(v) => if !is_digit(s[i]) {
                Err(IntErrorKind::InvalidDigit)
            } else if v * 10 + digit_value(s[i]) > limit {
                Err(IntErrorKind::PosOverflow)
            } else {
                Ok(v * 10 + digit_value(s[i]))
            },
        }),
{
    assert(s.take(i + 1).drop_last() =~= s.take(i));
    assert(s.take(i + 1).last() == s[i]);
}

proof fn lemma_scan_prefix_err(s: Seq<char>, limit: int, i: int)
    requires
        0 <= i <= s.len(),
        scan_digits(s.take(i), limit) is Err,
    ensures
        scan_digits(s, limit) == scan_digits(s.take(i), limit),
    decreases s.len() - i,
{
    if i < s.len() {
        lemma_scan_step(s, limit, i);
        lemma_scan_prefix_err(s, limit, i + 1);
    } else {
        assert(s.take(i) =~= s);
    }
}

proof fn lemma_list_prefix_err(parts: Seq<Seq<char>>, i: int)
    requires
        0 <= i <= parts.len(),
        i32_list_outcome(parts.take(i)) is Err,
    ensures
        i32_list_outcome(parts) == i32_list_outcome(parts.take(i)),
    decreases parts.len() - i,
{
    if i < parts.len() {
        assert(parts.take(i + 1).drop_last() =~= parts.take(i));
        lemma_list_prefix_err(parts, i + 1);
    } else {
        assert(parts.take(i) =~= parts);
    }
}

/// Reads every piece of `s` between commas as an `i32`, in order, keeping
/// repeated values; the first piece that does not read gives its error
/// message (an empty piece reads as no integer).
pub fn parse_i32_list(s: &str) -> (r: Result<Vec<i32>, String>)
    ensures
        match i32_list_outcome(split_spec(s@, ',')) {
            Ok(vs) => r matches Ok(v) && v@ == vs,
            Err(k) => r matches Err(m) && m@ == int_error_message(k),
        },
{
    let parts = split_char(s, ',');
    let ghost pv = parts.deep_view();
    let mut ids: Vec<i32> = Vec::new();
    let mut i: usize = 0;
    proof {
        assert(pv.take(0) =~= Seq::<Seq<char>>::empty());
    }
    while i < parts.len()
        invariant
            i <= parts.len(),
            pv == parts.deep_view(),
            pv == split_spec(s@, ','),
            i32_list_outcome(pv.take(i as int)) == Ok::<Seq<i32>, IntErrorKind>(ids@),
        decreases parts.len() - i,
    {
        proof {
            assert(pv.take(i + 1).drop_last() =~= pv.take(i as int));
            assert(pv.take(i + 1).last() == parts[i as int]@);
        }
        match parse_i32_kind(parts[i].as_str()) {
            Ok(x) => {
                ids.push(x);
            },
            Err(k) => {
                proof {
                    lemma_list_prefix_err(pv, i + 1);
                }
                return Err(int_error_text(k));
            },
        }
        i = i + 1;
    }
    proof {
        assert(pv.take(parts.len() as int) =~= pv);
    }
    Ok(ids)
}

proof fn lemma_scan_digits_value(s: Seq<char>, limit: int)
    requires
        0 <= limit,
    ensures
        (scan_digits(s, limit) is Ok) <==> (all_digits(s) && digits_value(s) <= limit),
        scan_digits(s, limit) matches Ok(v) ==> v == digits_value(s),
    decreases s.len(),
{
    if s.len() > 0 {
        let prev = s.drop_last();
        lemma_scan_digits_value(prev, limit);
        assert(all_digits(s) <==> all_digits(prev) && is_digit(s.last())) by {
            if all_digits(prev) && is_digit(s.last()) {
                assert forall|i: int| 0 <= i < s.len() implies #[trigger] is_digit(s[i]) by {
                    if i < s.len() - 1 {
                        assert(s[i] == prev[i]);
                    }
                }
            }
            if all_digits(s) {
                assert forall|i: int| 0 <= i < prev.len() implies #[trigger] is_digit(prev[i]) by {
                    assert(prev[i] == s[i]);
                }
                assert(is_digit(s[s.len() - 1]));
            }
        }
        if is_digit(s.last()) {
            assert(digits_value(s) == digits_value(prev) * 10 + digit_value(s.last()));
        }
    }
}

/// The two readings of `str::parse::<i32>` agree: a text reads with a value
/// under `parse_i32_spec` exactly when `i32_outcome` gives that value.
pub proof fn law_i32_outcome_agrees_with_parse(s: Seq<char>)
    ensures
        parse_i32_spec(s) == (match i32_outcome(s) {
            Ok(v) => Some(v as int),
            Err(_) => None::<int>,
        }),
{
    if s.len() > 0 {
        let body = unsigned_part(s);
        let neg = s[0] == '-';
        lemma_scan_digits_value(body, if neg { 2147483648 } else { 2147483647 });
    }
}

/// The message std displays for a kind of integer error.
pub fn int_error_text(k: IntErrorKind) -> (m: String)
    ensures
        m@ == int_error_message(k),
{
    match k {
        IntErrorKind::Empty => String::from_str("cannot parse integer from empty string"),
        IntErrorKind::InvalidDigit => String::from_str("invalid digit found in string"),
        IntErrorKind::PosOverflow => String::from_str("number too large to fit in target type"),
        IntErrorKind::NegOverflow => String::from_str("number too small to fit in target type"),
    }
}

/// Reads an `i32` with the rules of `str::parse::<i32>` and tells why it
/// does not read when it fails.
pub fn parse_i32_kind(s: &str) -> (r: Result<i32, IntErrorKind>)
    ensures
        r == i32_outcome(s@),
{
    let len = s.unicode_len();
    if len == 0 {
        return Err(IntErrorKind::Empty);
    }
    let first = s.get_char(0);
    let neg = first == '-';
    let start: usize = if first == '-' || first == '+' { 1 } else { 0 };
    let ghost body = unsigned_part(s@);
    proof {
        assert(body =~= s@.subrange(start as int, len as int));
    }
    if start == len {
        return Err(IntErrorKind::InvalidDigit);
    }
    let limit: u64 = if neg { 2147483648u64 } else { 2147483647u64 };
    let ghost lim: int = limit as int;
    let mut acc: u64 = 0;
    let mut i: usize = start;
    proof {
        assert(body.take(0) =~= Seq::<char>::empty());
    }
    while i < len
        invariant
            start <= i <= len,
            len == s@.len(),
            start == 0 || start == 1,
            body =~= s@.subrange(start as int, len as int),
            body == unsigned_part(s@),
            neg == (s@[0] == '-'),
            lim == limit as int,
            limit == (if neg { 2147483648u64 } else { 2147483647u64 }),
            scan_digits(body.take(i - start), lim) == Ok::<int, IntErrorKind>(acc as int),
            acc <= limit,
        decreases len - i,
    {
        let c = s.get_char(i);
        proof {
            assert(body[i - start] == c);
            lemma_scan_step(body, lim, i - start);
        }
        if !('0' <= c && c <= '9') {
            proof {
                lemma_scan_prefix_err(body, lim, i - start + 1);
            }
            return Err(IntErrorKind::InvalidDigit);
        }
        let d = (c as u32 - '0' as u32) as u64;
        let next = acc * 10 + d;
        if next > limit {
            proof {
                lemma_scan_prefix_err(body, lim, i - start + 1);
            }
            if neg {
                return Err(IntErrorKind::NegOverflow);
            } else {
                return Err(IntErrorKind::PosOverflow);
            }
        }
        acc = next;
        i = i + 1;
    }
    proof {
        assert(body.take(len - start) =~= body);
    }
    if neg {
        if acc == 2147483648u64 {
            Ok(i32::MIN)
        } else {
            Ok(-(acc as i32))
        }
    } else {
        Ok(acc as i32)
    }
}

/// Character-wise equality of two strings.
pub fn str_eq(a: &str, b: &str) -> (r: bool)
    ensures
        r == (a@ == b@),
{
    let n = a.unicode_len();
    if n != b.unicode_len() {
        return false;
    }
    let mut i: usize = 0;
    while i < n
        invariant
            n == a@.len(),
            n == b@.len(),
            i <= n,
            forall|k: int| 0 <= k < i ==> a@[k] == b@[k],
        decreases n - i,
    {
        if a.get_char(i) != b.get_char(i) {
            return false;
        }
        i = i + 1;
    }
    assert(a@ =~= b@);
    true
}

/// The pieces of `s` between occurrences of `sep`, as `str::split` with a
/// `char` pattern yields them (the empty string gives one empty piece).
pub open spec fn split_spec(s: Seq<char>, sep: char) -> Seq<Seq<char>>
    decreases s.len(),
{
    if s.len() == 0 {
        seq![Seq::<char>::empty()]
    } else {
        let parts = split_spec(s.drop_last(), sep);
        if s.last() == sep {
            parts.push(Seq::<char>::empty())
        } else {
            parts.update(parts.len() - 1, parts.last().push(s.last()))
        }
    }
}

proof fn lemma_split_nonempty(s: Seq<char>, sep: char)
    ensures
        split_spec(s, sep).len() >= 1,
    decreases s.len(),
{
    if s.len() > 0 {
        lemma_split_nonempty(s.drop_last(), sep);
    }
}

/// Splits `s` at every occurrence of `sep`.
pub fn split_char(s: &str, sep: char) -> (parts: Vec<String>)
    ensures
        parts.deep_view() == split_spec(s@, sep),
{
    let n = s.unicode_len();
    let mut parts: Vec<String> = Vec::new();
    let mut cur = String::new();
    let mut i: usize = 0;
    proof {
        assert(s@.take(0) =~= Seq::<char>::empty());
        assert(parts.deep_view().push(cur@) =~= split_spec(s@.take(0), sep));
    }
    while i < n
        invariant
            n == s@.len(),
            i <= n,
            parts.deep_view().push(cur@) == split_spec(s@.take(i as int), sep),
        decreases n - i,
    {
        let c = s.get_char(i);
        let ghost before = parts.deep_view();
        let ghost prev = s@.take(i as int);
        proof {
            assert(s@.take(i + 1).drop_last() =~= prev);
            assert(s@.take(i + 1).last() == c);
            lemma_split_nonempty(prev, sep);
        }
        if c == sep {
            let done = cur;
            parts.push(done);
            cur = String::new();
            proof {
                assert(parts.deep_view() =~= before.push(done@));
                assert(parts.deep_view().push(cur@) =~= split_spec(s@.take(i + 1), sep));
            }
        } else {
            let ghost old_cur = cur@;
            push_char(&mut cur, c);
            proof {
                assert(parts.deep_view().push(cur@) =~= before.push(old_cur).update(
                    before.len() as int,
                    old_cur.push(c),
                ));
                assert(parts.deep_view().push(cur@) =~= split_spec(s@.take(i + 1), sep));
            }
        }
        i = i + 1;
    }
    let ghost before = parts.deep_view();
    parts.push(cur);
    proof {
        assert(s@.take(n as int) =~= s@);
        assert(parts.deep_view() =~= before.push(cur@));
    }
    parts
}

} // verus!
