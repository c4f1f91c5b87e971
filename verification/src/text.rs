//! Text rules: blank text, code-point order, decimal rendering.
use vstd::prelude::*;
use vstd::string::*;

verus! {

/// The White_Space property of Unicode.
pub open spec fn white(c: char) -> bool {
    let p = c as u32;
    ||| 0x9 <= p <= 0xd
    ||| p == 0x20
    ||| p == 0x85
    ||| p == 0xa0
    ||| p == 0x1680
    ||| 0x2000 <= p <= 0x200a
    ||| p == 0x2028
    ||| p == 0x2029
    ||| p == 0x202f
    ||| p == 0x205f
    ||| p == 0x3000
}

/// Text that is empty once surrounding white space is trimmed.
pub open spec fn blank(s: Seq<char>) -> bool {
    forall|i: int| 0 <= i < s.len() ==> white(#[trigger] s[i])
}

/// Code-point lexicographic order, which is also the byte order of the UTF-8 encodings.
pub open spec fn lt(a: Seq<char>, b: Seq<char>) -> bool
    decreases a.len(),
{
    if b.len() == 0 {
        false
    } else if a.len() == 0 {
        true
    } else if a[0] != b[0] {
        a[0] < b[0]
    } else {
        lt(a.drop_first(), b.drop_first())
    }
}

pub proof fn lt_irreflexive(a: Seq<char>)
    ensures
        !lt(a, a),
    decreases a.len(),
{
    if a.len() > 0 {
        lt_irreflexive(a.drop_first());
    }
}

pub proof fn lt_transitive(a: Seq<char>, b: Seq<char>, c: Seq<char>)
    requires
        lt(a, b),
        lt(b, c),
    ensures
        lt(a, c),
    decreases a.len(),
{
    if a.len() > 0 && b.len() > 0 && c.len() > 0 && a[0] == b[0] && b[0] == c[0] {
        lt_transitive(a.drop_first(), b.drop_first(), c.drop_first());
    }
}

pub proof fn lt_total(a: Seq<char>, b: Seq<char>)
    ensures
        lt(a, b) || lt(b, a) || a == b,
    decreases a.len(),
{
    if a.len() > 0 && b.len() > 0 {
        if a[0] == b[0] {
            lt_total(a.drop_first(), b.drop_first());
            if a.drop_first() == b.drop_first() {
                assert(a =~= seq![a[0]] + a.drop_first());
                assert(b =~= seq![b[0]] + b.drop_first());
            }
        }
    } else {
        assert(a.len() == 0 && b.len() == 0 ==> a =~= b);
    }
}

/// `String::push` appends one character.
pub assume_specification[ std::string::String::push ](s: &mut String, c: char)
    ensures
        final(s)@ == old(s)@.push(c),
;

/// `str` equality holds exactly when the two texts have the same characters.
#[verifier::external_body]
pub(crate) fn same(a: &str, b: &str) -> (r: bool)
    ensures
        r == (a@ == b@),
{
    a == b
}

pub(crate) fn is_white(c: char) -> (r: bool)
    ensures
        r == white(c),
{
    let p: u32 = c as u32;
    (0x9 <= p && p <= 0xd) || p == 0x20 || p == 0x85 || p == 0xa0 || p == 0x1680 || (0x2000 <= p
        && p <= 0x200a) || p == 0x2028 || p == 0x2029 || p == 0x202f || p == 0x205f || p == 0x3000
}

/// The characters of a text, in order.
pub(crate) fn chars_of(s: &str) -> (r: Vec<char>)
    ensures
        r@ == s@,
{
    let mut out: Vec<char> = Vec::new();
    for c in it: s.chars()
        invariant
            it.seq() == s@,
            out@ == s@.take(it.index()),
    {
        out.push(c);
        assert(s@.take(it.index() + 1) =~= s@.take(it.index()).push(c));
    }
    assert(s@.take(s@.len() as int) =~= s@);
    out
}

/// Whether nothing but white space stands in `s`.
pub fn is_blank(s: &str) -> (r: bool)
    ensures
        r == blank(s@),
{
    let chars = chars_of(s);
    let mut i: usize = 0;
    while i < chars.len()
        invariant
            i <= chars.len(),
            chars@ == s@,
            forall|k: int| 0 <= k < i ==> white(#[trigger] s@[k]),
        decreases chars.len() - i,
    {
        if !is_white(chars[i]) {
            assert(!white(s@[i as int]));
            return false;
        }
        i += 1;
    }
    true
}

/// Whether `a` orders before `b`.
pub fn less(a: &str, b: &str) -> (r: bool)
    ensures
        r == lt(a@, b@),
{
    let x = chars_of(a);
    let y = chars_of(b);
    let mut i: usize = 0;
    assert(a@.skip(0) =~= a@ && b@.skip(0) =~= b@);
    while i < x.len() && i < y.len()
        invariant
            x@ == a@,
            y@ == b@,
            i <= x.len(),
            i <= y.len(),
            lt(a@, b@) == lt(a@.skip(i as int), b@.skip(i as int)),
        decreases x.len() - i,
    {
        if x[i] != y[i] {
            return x[i] < y[i];
        }
        assert(a@.skip(i as int).drop_first() =~= a@.skip(i + 1));
        assert(b@.skip(i as int).drop_first() =~= b@.skip(i + 1));
        i += 1;
    }
    i < y.len()
}

pub open spec fn digit_char(d: int) -> char {
    ('0' as int + d) as char
}

/// The decimal digits of `n`, without leading zeros.
pub open spec fn decimal(n: nat) -> Seq<char>
    decreases n,
{
    if n < 10 {
        seq![digit_char(n as int)]
    } else {
        decimal(n / 10).push(digit_char((n % 10) as int))
    }
}

pub(crate) fn push_decimal(out: &mut String, n: u64)
    ensures
        final(out)@ == old(out)@ + decimal(n as nat),
    decreases n,
{
    if n >= 10 {
        push_decimal(out, n / 10);
    }
    let d: u8 = (n % 10) as u8;
    let c: char = (48u8 + d) as char;
    out.push(c);
    assert(out@ =~= old(out)@ + decimal(n as nat));
}

/// `n` repetitions of `c`.
pub open spec fn repeated(c: char, n: nat) -> Seq<char> {
    Seq::new(n, |i: int| c)
}

/// `digits` with zeros in front, up to `width` characters.
pub open spec fn zero_padded(digits: Seq<char>, width: nat) -> Seq<char> {
    if digits.len() >= width {
        digits
    } else {
        repeated('0', (width - digits.len()) as nat) + digits
    }
}

pub(crate) fn push_zero_padded(out: &mut String, n: u64, width: usize)
    ensures
        final(out)@ == old(out)@ + zero_padded(decimal(n as nat), width as nat),
{
    let mut digits = String::new();
    push_decimal(&mut digits, n);
    assert(digits@ =~= decimal(n as nat));
    let ghost before = out@;
    let mut count: usize = digits.as_str().unicode_len();
    let ghost start = count;
    while count < width
        invariant
            start == digits@.len(),
            start <= count,
            count <= width || count == start,
            out@ == before + repeated('0', (count - start) as nat),
        decreases width - count,
    {
        out.push('0');
        assert(repeated('0', (count - start) as nat).push('0') =~= repeated(
            '0',
            (count + 1 - start) as nat,
        ));
        assert(out@ =~= before + repeated('0', (count + 1 - start) as nat));
        count += 1;
    }
    out.append(digits.as_str());
    assert(out@ =~= before + zero_padded(decimal(n as nat), width as nat));
}

/// The number that decimal digits spell.
pub open spec fn number(digits: Seq<char>) -> int
    decreases digits.len(),
{
    if digits.len() == 0 {
        0
    } else {
        number(digits.drop_last()) * 10 + (digits.last() as int - '0' as int)
    }
}

/// The digits of a number spell it.
pub proof fn decimal_spells(n: nat)
    ensures
        number(decimal(n)) == n,
    decreases n,
{
    if n >= 10 {
        decimal_spells(n / 10);
        assert(decimal(n).drop_last() =~= decimal(n / 10));
    } else {
        assert(decimal(n).drop_last() =~= seq![]);
        assert(number(seq![]) == 0);
    }
}

/// A number below a power of ten has no more digits than the power's exponent.
pub proof fn decimal_is_short(n: nat, limit: nat, width: nat)
    requires
        n < limit,
        limit == vstd::arithmetic::power::pow(10, width),
        width > 0,
    ensures
        decimal(n).len() <= width,
    decreases width,
{
    reveal(vstd::arithmetic::power::pow);
    if n >= 10 {
        if width == 1 {
            assert(vstd::arithmetic::power::pow(10, 0) == 1);
        }
        decimal_is_short(
            n / 10,
            vstd::arithmetic::power::pow(10, (width - 1) as nat) as nat,
            (width - 1) as nat,
        );
    }
}

/// Zeros in front change no number.
pub proof fn padding_keeps_the_number(digits: Seq<char>, zeros: nat)
    ensures
        number(repeated('0', zeros) + digits) == number(digits),
    decreases zeros + digits.len(),
{
    let all = repeated('0', zeros) + digits;
    if digits.len() > 0 {
        padding_keeps_the_number(digits.drop_last(), zeros);
        assert(all.drop_last() =~= repeated('0', zeros) + digits.drop_last());
    } else if zeros > 0 {
        padding_keeps_the_number(digits, (zeros - 1) as nat);
        assert(all.drop_last() =~= repeated('0', (zeros - 1) as nat) + digits);
        assert(all.last() == '0');
    } else {
        assert(all =~= digits);
    }
}

/// A text without a plus sign in front.
pub open spec fn unsigned(s: Seq<char>) -> Seq<char> {
    if s.len() > 0 && s[0] == '+' {
        s.skip(1)
    } else {
        s
    }
}

pub open spec fn all_digits(s: Seq<char>) -> bool {
    forall|i: int| 0 <= i < s.len() ==> '0' <= #[trigger] s[i] <= '9'
}

/// The number that a text spells in decimal digits, with or without a plus sign.
pub open spec fn parsed(s: Seq<char>) -> Option<u64> {
    let digits = unsigned(s);
    if digits.len() > 0 && all_digits(digits) && number(digits) <= u64::MAX {
        Some(number(digits) as u64)
    } else {
        None
    }
}

proof fn numbers_grow(digits: Seq<char>, n: int)
    requires
        0 <= n <= digits.len(),
        all_digits(digits),
    ensures
        0 <= number(digits.take(n)) <= number(digits),
    decreases digits.len(),
{
    if n == digits.len() {
        assert(digits.take(n) =~= digits);
        if n > 0 {
            assert(digits.drop_last().take(n - 1) =~= digits.drop_last());
            assert('0' <= digits[n - 1] <= '9');
            numbers_grow(digits.drop_last(), n - 1);
        }
    } else {
        assert('0' <= digits[digits.len() - 1] <= '9');
        numbers_grow(digits.drop_last(), n);
        assert(digits.drop_last().take(n) =~= digits.take(n));
    }
}

/// The number that a text spells.
pub(crate) fn parse_u64(s: &str) -> (r: Option<u64>)
    ensures
        r == parsed(s@),
{
    let chars = chars_of(s);
    let start: usize = if chars.len() > 0 && chars[0] == '+' {
        1
    } else {
        0
    };
    let ghost digits = unsigned(s@);
    assert(digits =~= s@.skip(start as int));
    if start >= chars.len() {
        return None;
    }
    let mut k: usize = start;
    while k < chars.len()
        invariant
            start <= k <= chars@.len(),
            chars@ == s@,
            digits == unsigned(s@),
            digits == s@.skip(start as int),
            forall|i: int| 0 <= i < k - start ==> '0' <= #[trigger] digits[i] <= '9',
        decreases chars@.len() - k,
    {
        if chars[k] < '0' || chars[k] > '9' {
            assert(digits[k - start] == chars@[k as int]);
            return None;
        }
        assert(digits[k - start] == chars@[k as int]);
        k += 1;
    }
    let mut value: u64 = 0;
    let mut i: usize = start;
    assert(digits.take(0) =~= Seq::empty());
    while i < chars.len()
        invariant
            start <= i <= chars@.len(),
            chars@ == s@,
            digits == unsigned(s@),
            digits == s@.skip(start as int),
            all_digits(digits),
            value == number(digits.take(i - start)),
        decreases chars@.len() - i,
    {
        let ghost longer = digits.take(i + 1 - start);
        assert(longer.drop_last() =~= digits.take(i - start));
        assert(longer.last() == chars@[i as int]);
        assert('0' <= digits[i - start] <= '9');
        let digit: u64 = (chars[i] as u32 - 48) as u64;
        let next: u128 = value as u128 * 10 + digit as u128;
        if next > u64::MAX as u128 {
            proof {
                numbers_grow(digits, i + 1 - start);
            }
            return None;
        }
        value = next as u64;
        i += 1;
    }
    assert(digits.take(i - start) =~= digits);
    Some(value)
}

/// The decimal form of a signed number.
pub open spec fn signed_decimal(n: int) -> Seq<char> {
    if n < 0 {
        seq!['-'] + decimal((-n) as nat)
    } else {
        decimal(n as nat)
    }
}

pub(crate) fn push_signed(out: &mut String, n: i64)
    ensures
        final(out)@ == old(out)@ + signed_decimal(n as int),
{
    if n < 0 {
        out.push('-');
        let magnitude: u64 = (0i128 - (n as i128)) as u64;
        push_decimal(out, magnitude);
        assert(out@ =~= old(out)@ + signed_decimal(n as int));
    } else {
        push_decimal(out, n as u64);
    }
}

/// The parts one after another with `separator` between neighbours.
pub open spec fn joined(parts: Seq<Seq<char>>, separator: Seq<char>) -> Seq<char>
    decreases parts.len(),
{
    if parts.len() == 0 {
        seq![]
    } else if parts.len() == 1 {
        parts[0]
    } else {
        joined(parts.drop_last(), separator) + separator + parts.last()
    }
}

/// The views of a list of texts.
pub open spec fn views(parts: Seq<String>) -> Seq<Seq<char>> {
    Seq::new(parts.len(), |i: int| parts[i]@)
}

pub(crate) fn push_joined(out: &mut String, parts: &Vec<String>, separator: &str)
    ensures
        final(out)@ == old(out)@ + joined(views(parts@), separator@),
{
    let ghost before = out@;
    let mut i: usize = 0;
    assert(out@ =~= before + joined(views(parts@).take(0), separator@));
    while i < parts.len()
        invariant
            i <= parts@.len(),
            out@ == before + joined(views(parts@).take(i as int), separator@),
        decreases parts@.len() - i,
    {
        let ghost shorter = views(parts@).take(i as int);
        let ghost longer = views(parts@).take(i + 1);
        assert(longer.drop_last() =~= shorter);
        assert(longer.last() == parts@[i as int]@);
        if i > 0 {
            out.append(separator);
        }
        out.append(parts[i].as_str());
        assert(out@ =~= before + joined(longer, separator@));
        i += 1;
    }
    assert(views(parts@).take(parts@.len() as int) =~= views(parts@));
}

/// A copy of a list of texts.
pub(crate) fn copy_all(parts: &Vec<String>) -> (r: Vec<String>)
    ensures
        r@ == parts@,
{
    let mut out: Vec<String> = Vec::new();
    let mut i: usize = 0;
    while i < parts.len()
        invariant
            i <= parts@.len(),
            out@ == parts@.take(i as int),
        decreases parts@.len() - i,
    {
        out.push(parts[i].clone());
        assert(parts@.take(i + 1) =~= parts@.take(i as int).push(parts@[i as int]));
        i += 1;
    }
    assert(parts@.take(parts@.len() as int) =~= parts@);
    out
}

/// One text behind another.
pub(crate) fn concat(first: &str, second: &str) -> (r: String)
    ensures
        r@ == first@ + second@,
{
    let mut out = first.to_owned();
    out.append(second);
    out
}

/// A text between two others.
pub(crate) fn enclosed(before: &str, middle: &str, behind: &str) -> (r: String)
    ensures
        r@ == before@ + middle@ + behind@,
{
    let mut out = before.to_owned();
    out.append(middle);
    out.append(behind);
    out
}

/// What `String::from_utf8` says of bytes that are no UTF-8.
pub uninterp spec fn utf8_error(bytes: Seq<u8>) -> Seq<char>;

/// `String::from_utf8`: the text that the bytes encode, or the text of the error where they are no
/// UTF-8.
#[verifier::external_body]
pub(crate) fn utf8_text(bytes: &[u8]) -> (r: Result<String, String>)
    ensures
        r is Ok <==> vstd::utf8::valid_utf8(bytes@),
        r matches Ok(s) ==> s@ == vstd::utf8::decode_utf8(bytes@),
        r matches Err(e) ==> e@ == utf8_error(bytes@),
{
    String::from_utf8(bytes.to_vec()).map_err(|error| error.to_string())
}

/// The text that `String::from_utf8_lossy` makes of bytes.
pub uninterp spec fn lossy_text(bytes: Seq<u8>) -> Seq<char>;

/// `String::from_utf8_lossy`: the text of the bytes, with replacement characters where they are no
/// UTF-8. The second part says that there are such places: the text is then owned, not borrowed.
/// Bytes that are UTF-8 are the encoding of the text.
#[verifier::external_body]
pub(crate) fn lossy_text_of(bytes: &[u8]) -> (r: (String, bool))
    ensures
        r.0@ == lossy_text(bytes@),
        r.1 == !vstd::utf8::valid_utf8(bytes@),
        vstd::utf8::valid_utf8(bytes@) ==> vstd::utf8::encode_utf8(r.0@) == bytes@,
{
    let text = String::from_utf8_lossy(bytes);
    let replaced = matches!(text, std::borrow::Cow::Owned(_));
    (text.into_owned(), replaced)
}

/// A copy of some bytes.
pub(crate) fn copy_bytes(bytes: &[u8]) -> (r: Vec<u8>)
    ensures
        r@ == bytes@,
{
    let mut out: Vec<u8> = Vec::new();
    let mut i: usize = 0;
    while i < bytes.len()
        invariant
            i <= bytes@.len(),
            out@ == bytes@.take(i as int),
        decreases bytes@.len() - i,
    {
        out.push(bytes[i]);
        assert(bytes@.take(i + 1) =~= bytes@.take(i as int).push(bytes@[i as int]));
        i += 1;
    }
    assert(bytes@.take(bytes@.len() as int) =~= bytes@);
    out
}

pub(crate) fn push_bytes(out: &mut Vec<u8>, bytes: &[u8])
    ensures
        final(out)@ == old(out)@ + bytes@,
{
    let ghost before = out@;
    let mut i: usize = 0;
    assert(out@ =~= before + bytes@.take(0));
    while i < bytes.len()
        invariant
            i <= bytes@.len(),
            out@ == before + bytes@.take(i as int),
        decreases bytes@.len() - i,
    {
        out.push(bytes[i]);
        assert(out@ =~= before + bytes@.take(i + 1));
        i += 1;
    }
    assert(bytes@.take(i as int) =~= bytes@);
}

/// The weight of the byte with `n` bytes behind it.
pub open spec fn weight(n: nat) -> nat
    decreases n,
{
    if n == 0 {
        1
    } else {
        256 * weight((n - 1) as nat)
    }
}

/// The eight bytes of `n`, the most significant first.
pub open spec fn big_endian(n: u64) -> Seq<u8> {
    Seq::new(8, |i: int| ((n as nat / weight((7 - i) as nat)) % 256) as u8)
}

/// Appends the eight bytes of `n`, the most significant first.
pub(crate) fn push_big_endian(out: &mut Vec<u8>, n: u64)
    ensures
        final(out)@ == old(out)@ + big_endian(n),
{
    let ghost before = out@;
    let ghost all = big_endian(n);
    let mut divisor: u64 = 0x0100_0000_0000_0000;
    proof {
        reveal_with_fuel(weight, 9);
        assert(out@ =~= before + all.take(0));
    }
    for i in 0..8u64
        invariant
            all == big_endian(n),
            divisor == weight((7 - i) as nat) || i == 8,
            divisor > 0,
            out@ == before + all.take(i as int),
    {
        proof {
            reveal_with_fuel(weight, 9);
        }
        let byte: u8 = ((n / divisor) % 256) as u8;
        assert(byte == all[i as int]);
        out.push(byte);
        assert(out@ =~= before + all.take(i + 1));
        if i < 7 {
            divisor = divisor / 256;
        }
    }
    assert(all.take(8) =~= all);
}

pub(crate) fn same_bytes(a: &[u8], b: &[u8]) -> (r: bool)
    ensures
        r == (a@ == b@),
{
    if a.len() != b.len() {
        return false;
    }
    let mut i: usize = 0;
    while i < a.len()
        invariant
            i <= a@.len(),
            a@.len() == b@.len(),
            forall|k: int| 0 <= k < i ==> #[trigger] a@[k] == b@[k],
        decreases a@.len() - i,
    {
        if a[i] != b[i] {
            assert(a@[i as int] != b@[i as int]);
            return false;
        }
        i += 1;
    }
    assert(a@ =~= b@);
    true
}

/// The view of an optional text.
pub open spec fn optional(value: Option<String>) -> Option<Seq<char>> {
    match value {
        Some(s) => Some(s@),
        None => None,
    }
}

pub(crate) fn same_optional(a: &Option<String>, b: &Option<String>) -> (r: bool)
    ensures
        r == (optional(*a) == optional(*b)),
{
    match (a, b) {
        (Some(x), Some(y)) => same(x.as_str(), y.as_str()),
        (None, None) => true,
        _ => false,
    }
}

pub(crate) fn copy_optional(value: &Option<String>) -> (r: Option<String>)
    ensures
        r == *value,
{
    match value {
        Some(s) => Some(s.clone()),
        None => None,
    }
}

pub(crate) fn same_all(a: &Vec<String>, b: &Vec<String>) -> (r: bool)
    ensures
        r == (views(a@) == views(b@)),
{
    if a.len() != b.len() {
        assert(views(a@).len() != views(b@).len());
        return false;
    }
    let mut i: usize = 0;
    while i < a.len()
        invariant
            i <= a@.len(),
            a@.len() == b@.len(),
            forall|k: int| 0 <= k < i ==> #[trigger] a@[k]@ == b@[k]@,
        decreases a@.len() - i,
    {
        if !same(a[i].as_str(), b[i].as_str()) {
            assert(views(a@)[i as int] != views(b@)[i as int]);
            return false;
        }
        i += 1;
    }
    assert(views(a@) =~= views(b@));
    true
}

/// Whether `needle` is one of `list`.
pub(crate) fn holds(list: &Vec<String>, needle: &str) -> (r: bool)
    ensures
        r == views(list@).contains(needle@),
{
    let mut i: usize = 0;
    while i < list.len()
        invariant
            i <= list@.len(),
            forall|k: int| 0 <= k < i ==> #[trigger] views(list@)[k] != needle@,
        decreases list@.len() - i,
    {
        if same(list[i].as_str(), needle) {
            assert(views(list@)[i as int] == needle@);
            return true;
        }
        i += 1;
    }
    false
}

/// Nothing and spaces are blank; a text with a letter, a digit or another visible ASCII character is
/// not.
pub proof fn visible_text_is_not_blank(s: Seq<char>, i: int)
    ensures
        s.len() == 0 ==> blank(s),
        (forall|j: int|
            0 <= j < s.len() ==> #[trigger] s[j] == ' ' || s[j] == '\t' || s[j] == '\n' || s[j]
                == '\r') ==> blank(s),
        0 <= i < s.len() && '!' <= s[i] <= '~' ==> !blank(s),
{
}

/// Texts are ordered by the first character in which they differ, and a beginning comes before what
/// it begins.
pub proof fn order_is_by_first_difference(common: Seq<char>, a: Seq<char>, b: Seq<char>)
    ensures
        a.len() > 0 && b.len() > 0 && a[0] < b[0] ==> lt(common + a, common + b) && !lt(
            common + b,
            common + a,
        ),
        a.len() == 0 && b.len() > 0 ==> lt(common + a, common + b) && !lt(common + b, common + a),
    decreases common.len(),
{
    if common.len() > 0 {
        let rest = common.drop_first();
        order_is_by_first_difference(rest, a, b);
        assert((common + a).drop_first() =~= rest + a);
        assert((common + b).drop_first() =~= rest + b);
    } else {
        assert(common + a =~= a);
        assert(common + b =~= b);
    }
}

proof fn digits_are_digits(n: nat)
    ensures
        decimal(n).len() > 0,
        all_digits(decimal(n)),
    decreases n,
{
    if n >= 10 {
        digits_are_digits(n / 10);
    }
}

/// A number reads back from its decimal text, with or without a plus sign; no other text reads as a
/// number.
pub proof fn decimals_read_back(n: u64, s: Seq<char>)
    ensures
        parsed(decimal(n as nat)) == Some(n),
        parsed(seq!['+'] + decimal(n as nat)) == Some(n),
        s.len() == 0 ==> parsed(s) is None,
        s.len() > 0 && !('0' <= s.last() <= '9') ==> parsed(s) is None,
{
    decimal_spells(n as nat);
    digits_are_digits(n as nat);
    let d = decimal(n as nat);
    assert((seq!['+'] + d).skip(1) =~= d);
    assert('0' <= d[0]);
    if s.len() > 0 && !('0' <= s.last() <= '9') {
        let digits = unsigned(s);
        if digits.len() > 0 {
            assert(digits.last() == s.last());
            assert(digits[digits.len() - 1] == s.last());
        }
    }
}

/// A negative number is written with a minus sign before its size, any other without a sign.
pub proof fn signs_are_written(n: int)
    ensures
        n < 0 ==> signed_decimal(n)[0] == '-' && number(signed_decimal(n).skip(1)) == -n,
        n >= 0 ==> number(signed_decimal(n)) == n && '0' <= signed_decimal(n)[0] <= '9',
{
    if n < 0 {
        decimal_spells((-n) as nat);
        assert(signed_decimal(n).skip(1) =~= decimal((-n) as nat));
    } else {
        decimal_spells(n as nat);
        digits_are_digits(n as nat);
    }
}

/// Joined texts stand one behind the other with the separator between them.
pub proof fn joining_separates(parts: Seq<Seq<char>>, separator: Seq<char>, more: Seq<char>)
    ensures
        joined(seq![more], separator) == more,
        parts.len() > 0 ==> joined(parts.push(more), separator) == joined(parts, separator)
            + separator + more,
        joined(Seq::<Seq<char>>::empty(), separator).len() == 0,
{
    assert(parts.push(more).drop_last() =~= parts);
}

/// The bytes of a number in network order are its own: eight of them, the last one counting ones.
pub proof fn network_order_counts_down(n: u64)
    ensures
        big_endian(n).len() == 8,
        n < 256 ==> big_endian(n)[7] == n && forall|i: int|
            0 <= i < 7 ==> #[trigger] big_endian(n)[i] == 0,
        big_endian(n)[7] == n % 256,
        big_endian(n)[6] == n / 256 % 256,
{
    reveal_with_fuel(weight, 9);
    let one = weight(0);
    let two = weight(1);
    assert(n as nat / one == n) by (nonlinear_arith)
        requires
            one == 1,
    ;
    assert(n as nat / two == n as nat / 256) by (nonlinear_arith)
        requires
            two == 256,
    ;
    assert forall|i: int| 0 <= i < 7 && n < 256 implies #[trigger] big_endian(n)[i] == 0 by {
        let w = weight((7 - i) as nat);
        assert(w >= 256) by {
            assert(weight(2) == 65536);
            assert(weight(3) == 16777216);
            assert(weight(4) == 4294967296);
            assert(weight(5) == 1099511627776);
            assert(weight(6) == 281474976710656);
            assert(weight(7) == 72057594037927936);
        }
        assert(n as nat / w == 0) by (nonlinear_arith)
            requires
                n < 256,
                w >= 256,
        ;
    }
}

} // verus!
