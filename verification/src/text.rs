//! Text as sequences of characters: comparing, cutting, joining and printing.

use vstd::prelude::*;

verus! {

broadcast use vstd::seq_lib::group_seq_properties;

/// `String::push` puts one character behind the text.
pub assume_specification[ String::push ](s: &mut String, c: char)
    ensures
        final(s)@ == old(s)@.push(c),
;

/// What an optional text holds.
pub open spec fn held(text: Option<String>) -> Option<Seq<char>> {
    match text {
        Some(t) => Some(t@),
        None => None,
    }
}

/// Whether two texts hold the same characters.
pub fn same(a: &str, b: &str) -> (r: bool)
    ensures
        r == (a@ == b@),
{
    let x: &[u8] = a.as_bytes();
    let y: &[u8] = b.as_bytes();
    proof {
        vstd::utf8::encode_utf8_decode_utf8(a@);
        vstd::utf8::encode_utf8_decode_utf8(b@);
    }
    if x.len() != y.len() {
        return false;
    }
    let mut i: usize = 0;
    while i < x.len()
        invariant
            i <= x@.len(),
            x@.len() == y@.len(),
            forall|k: int| 0 <= k < i ==> x@[k] == y@[k],
            x@ == vstd::utf8::encode_utf8(a@),
            y@ == vstd::utf8::encode_utf8(b@),
        decreases x@.len() - i,
    {
        if x[i] != y[i] {
            return false;
        }
        i += 1;
    }
    assert(x@ =~= y@);
    true
}

/// Two texts, one behind the other.
pub fn joined(a: &str, b: &str) -> (r: String)
    ensures
        r@ == a@ + b@,
{
    let mut r: String = a.to_string();
    r.append(b);
    r
}

/// The characters of a text.
pub fn characters(text: &str) -> (r: Vec<char>)
    ensures
        r@ == text@,
{
    let mut r: Vec<char> = Vec::new();
    for c in it: text.chars()
        invariant
            it.seq() == text@,
            r@ == text@.take(it.index() as int),
    {
        r.push(c);
        assert(r@ == text@.take(it.index() + 1));
    }
    r
}

/// The text made of `chars[from..to]`.
pub fn assembled(chars: &Vec<char>, from: usize, to: usize) -> (r: String)
    requires
        from <= to <= chars@.len(),
    ensures
        r@ == chars@.subrange(from as int, to as int),
{
    let mut r: String = String::new();
    let mut i: usize = from;
    while i < to
        invariant
            from <= i <= to <= chars@.len(),
            r@ == chars@.subrange(from as int, i as int),
        decreases to - i,
    {
        r.push(chars[i]);
        i += 1;
        assert(r@ == chars@.subrange(from as int, i as int));
    }
    r
}

// ---- printing numbers ----

/// The character of a digit below ten.
pub open spec fn digit_char(d: int) -> char {
    (48 + d) as char
}

/// A natural number in decimal notation.
pub open spec fn digits(n: nat) -> Seq<char>
    decreases n,
{
    if n < 10 {
        seq![digit_char(n as int)]
    } else {
        digits(n / 10).push(digit_char((n % 10) as int))
    }
}

/// An integer in decimal notation, with a minus sign where it is negative.
pub open spec fn decimal_text(n: int) -> Seq<char> {
    if n < 0 {
        seq!['-'] + digits((-n) as nat)
    } else {
        digits(n as nat)
    }
}

fn push_digits(text: &mut String, n: u64)
    ensures
        final(text)@ == old(text)@ + digits(n as nat),
    decreases n,
{
    if n >= 10 {
        push_digits(text, n / 10);
    }
    let d: u8 = (n % 10) as u8;
    let c: char = (48u8 + d) as char;
    text.push(c);
    assert(text@ =~= old(text)@ + digits(n as nat));
}

/// Prints an unsigned number in decimal notation.
pub fn decimal_u64(n: u64) -> (r: String)
    ensures
        r@ == decimal_text(n as int),
{
    let mut r: String = String::new();
    push_digits(&mut r, n);
    assert(r@ =~= decimal_text(n as int));
    r
}

/// Prints a number in decimal notation.
pub fn decimal(n: i64) -> (r: String)
    ensures
        r@ == decimal_text(n as int),
{
    let mut r: String = String::new();
    if n < 0 {
        r.push('-');
        let magnitude: u64 = (-(n as i128)) as u64;
        push_digits(&mut r, magnitude);
    } else {
        push_digits(&mut r, n as u64);
    }
    assert(r@ =~= decimal_text(n as int));
    r
}

/// A number in decimal notation, at least two digits wide.
pub open spec fn two_digits_text(n: nat) -> Seq<char> {
    if n < 10 {
        seq!['0'] + digits(n)
    } else {
        digits(n)
    }
}

/// Prints a number at least two digits wide.
pub fn two_digits(n: u64) -> (r: String)
    ensures
        r@ == two_digits_text(n as nat),
{
    let mut r: String = String::new();
    if n < 10 {
        r.push('0');
    }
    push_digits(&mut r, n);
    assert(r@ =~= two_digits_text(n as nat));
    r
}

/// The lower-case character of a hexadecimal digit.
pub open spec fn hex_char(d: int) -> char {
    if d < 10 {
        (48 + d) as char
    } else {
        (87 + d) as char
    }
}

/// The `width` low hexadecimal digits of a number, most significant first.
pub open spec fn hex_text(n: nat, width: nat) -> Seq<char>
    decreases width,
{
    if width == 0 {
        Seq::empty()
    } else {
        hex_text(n / 16, (width - 1) as nat).push(hex_char((n % 16) as int))
    }
}

/// Appends the `width` low hexadecimal digits of a number to a text.
pub fn push_hex(text: &mut String, n: u32, width: u32)
    ensures
        final(text)@ == old(text)@ + hex_text(n as nat, width as nat),
    decreases width,
{
    if width > 0 {
        push_hex(text, n / 16, width - 1);
        let d: u8 = (n % 16) as u8;
        let c: char = if d < 10 {
            (48u8 + d) as char
        } else {
            (87u8 + d) as char
        };
        text.push(c);
    }
    assert(text@ =~= old(text)@ + hex_text(n as nat, width as nat));
}

// ---- cutting and searching ----

/// Whether `part` stands in `chars` at index `at`.
pub open spec fn stands_at(chars: Seq<char>, part: Seq<char>, at: int) -> bool {
    0 <= at && at + part.len() <= chars.len() && chars.subrange(at, at + part.len()) == part
}

fn found_at(chars: &Vec<char>, part: &Vec<char>, at: usize) -> (r: bool)
    requires
        at <= chars@.len(),
    ensures
        r == stands_at(chars@, part@, at as int),
{
    let total: usize = chars.len();
    if part.len() > total - at {
        return false;
    }
    let mut i: usize = 0;
    while i < part.len()
        invariant
            i <= part@.len(),
            total == chars@.len(),
            at + part@.len() <= total,
            forall|k: int| 0 <= k < i ==> chars@[at + k] == part@[k],
        decreases part@.len() - i,
    {
        if chars[at + i] != part[i] {
            assert(chars@.subrange(at as int, at + part@.len())[i as int] != part@[i as int]);
            return false;
        }
        i += 1;
    }
    assert(chars@.subrange(at as int, at + part@.len()) =~= part@);
    true
}

/// Whether a text begins with `prefix`.
pub fn starts_with(text: &str, prefix: &str) -> (r: bool)
    ensures
        r == stands_at(text@, prefix@, 0),
{
    let chars: Vec<char> = characters(text);
    let part: Vec<char> = characters(prefix);
    found_at(&chars, &part, 0)
}

/// Whether `part` stands anywhere in a text.
pub open spec fn holds_part(text: Seq<char>, part: Seq<char>) -> bool {
    exists|at: int| stands_at(text, part, at)
}

/// Whether `part` stands anywhere in a text.
pub fn contains(text: &str, part: &str) -> (r: bool)
    ensures
        r == holds_part(text@, part@),
{
    let chars: Vec<char> = characters(text);
    let wanted: Vec<char> = characters(part);
    let mut at: usize = 0;
    while at < chars.len()
        invariant
            at <= chars@.len(),
            chars@ == text@,
            wanted@ == part@,
            forall|k: int| 0 <= k < at ==> !stands_at(text@, part@, k),
        decreases chars@.len() - at,
    {
        if found_at(&chars, &wanted, at) {
            return true;
        }
        at += 1;
    }
    found_at(&chars, &wanted, at)
}

/// A text without the copies of `prefix` that it begins with.
pub open spec fn without_leading(text: Seq<char>, prefix: Seq<char>) -> Seq<char>
    decreases text.len(),
{
    if prefix.len() > 0 && stands_at(text, prefix, 0) {
        without_leading(text.skip(prefix.len() as int), prefix)
    } else {
        text
    }
}

/// Cuts every copy of `prefix` off the front of a text.
pub fn cut_leading(text: &str, prefix: &str) -> (r: String)
    ensures
        r@ == without_leading(text@, prefix@),
{
    let chars: Vec<char> = characters(text);
    let part: Vec<char> = characters(prefix);
    let total: usize = chars.len();
    let mut at: usize = 0;
    assert(chars@.skip(0) =~= chars@);
    while part.len() > 0 && found_at(&chars, &part, at)
        invariant
            total == chars@.len(),
            at <= total,
            chars@ == text@,
            part@ == prefix@,
            without_leading(text@, prefix@) == without_leading(text@.skip(at as int), prefix@),
        decreases chars@.len() - at,
    {
        proof {
            let rest = text@.skip(at as int);
            assert(rest.subrange(0, prefix@.len() as int) =~= text@.subrange(
                at as int,
                at + prefix@.len(),
            ));
            assert(rest.skip(prefix@.len() as int) =~= text@.skip(at + prefix@.len()));
        }
        at += part.len();
    }
    proof {
        let rest = text@.skip(at as int);
        if prefix@.len() > 0 && stands_at(rest, prefix@, 0) {
            assert(rest.subrange(0, prefix@.len() as int) =~= text@.subrange(
                at as int,
                at + prefix@.len(),
            ));
        }
        assert(text@.subrange(at as int, text@.len() as int) =~= rest);
    }
    assembled(&chars, at, total)
}

/// A text without the copies of `last` that it ends with.
pub open spec fn without_trailing(text: Seq<char>, last: char) -> Seq<char>
    decreases text.len(),
{
    if text.len() > 0 && text.last() == last {
        without_trailing(text.drop_last(), last)
    } else {
        text
    }
}

/// Cuts every copy of `last` off the end of a text.
pub fn cut_trailing(text: &str, last: char) -> (r: String)
    ensures
        r@ == without_trailing(text@, last),
{
    let chars: Vec<char> = characters(text);
    let mut end: usize = chars.len();
    assert(text@.take(end as int) =~= text@);
    while end > 0 && chars[end - 1] == last
        invariant
            end <= chars@.len(),
            chars@ == text@,
            without_trailing(text@, last) == without_trailing(text@.take(end as int), last),
        decreases end,
    {
        assert(text@.take(end as int).drop_last() =~= text@.take(end - 1));
        end -= 1;
    }
    assert(text@.subrange(0, end as int) =~= text@.take(end as int));
    assembled(&chars, 0, end)
}

/// The characters with Unicode's White_Space property.
pub open spec fn is_space(c: char) -> bool {
    let n = c as u32;
    ||| 9 <= n <= 13
    ||| n == 0x20
    ||| n == 0x85
    ||| n == 0xa0
    ||| n == 0x1680
    ||| 0x2000 <= n <= 0x200a
    ||| n == 0x2028
    ||| n == 0x2029
    ||| n == 0x202f
    ||| n == 0x205f
    ||| n == 0x3000
}

fn space(c: char) -> (r: bool)
    ensures
        r == is_space(c),
{
    let n: u32 = c as u32;
    (9 <= n && n <= 13) || n == 0x20 || n == 0x85 || n == 0xa0 || n == 0x1680 || (0x2000 <= n && n
        <= 0x200a) || n == 0x2028 || n == 0x2029 || n == 0x202f || n == 0x205f || n == 0x3000
}

/// A text without the white space that it begins with.
pub open spec fn without_leading_space(text: Seq<char>) -> Seq<char>
    decreases text.len(),
{
    if text.len() > 0 && is_space(text[0]) {
        without_leading_space(text.skip(1))
    } else {
        text
    }
}

/// A text without the white space that it ends with.
pub open spec fn without_trailing_space(text: Seq<char>) -> Seq<char>
    decreases text.len(),
{
    if text.len() > 0 && is_space(text.last()) {
        without_trailing_space(text.drop_last())
    } else {
        text
    }
}

/// A text without the white space around it.
pub open spec fn trimmed(text: Seq<char>) -> Seq<char> {
    without_trailing_space(without_leading_space(text))
}

/// Cuts the white space off both ends of a text.
pub fn trim(text: &str) -> (r: String)
    ensures
        r@ == trimmed(text@),
{
    let chars: Vec<char> = characters(text);
    let mut from: usize = 0;
    assert(text@.skip(0) =~= text@);
    while from < chars.len() && space(chars[from])
        invariant
            from <= chars@.len(),
            chars@ == text@,
            without_leading_space(text@) == without_leading_space(text@.skip(from as int)),
        decreases chars@.len() - from,
    {
        assert(text@.skip(from as int).skip(1) =~= text@.skip(from + 1));
        from += 1;
    }
    let mut to: usize = chars.len();
    assert(text@.subrange(from as int, to as int) =~= text@.skip(from as int));
    while to > from && space(chars[to - 1])
        invariant
            from <= to <= chars@.len(),
            chars@ == text@,
            trimmed(text@) == without_trailing_space(text@.subrange(from as int, to as int)),
        decreases to - from,
    {
        assert(text@.subrange(from as int, to as int).drop_last() =~= text@.subrange(
            from as int,
            to - 1,
        ));
        to -= 1;
    }
    assembled(&chars, from, to)
}

// ---- reading numbers ----

/// Whether every character is a decimal digit.
pub open spec fn all_digits(text: Seq<char>) -> bool {
    forall|i: int| 0 <= i < text.len() ==> '0' <= #[trigger] text[i] <= '9'
}

/// The number that decimal digits write.
pub open spec fn digits_value(text: Seq<char>) -> nat
    decreases text.len(),
{
    if text.len() == 0 {
        0
    } else {
        10 * digits_value(text.drop_last()) + (text.last() as nat - 48) as nat
    }
}

/// The digits of a number, behind its sign where it has one.
pub open spec fn unsigned_part(text: Seq<char>) -> Seq<char> {
    if text.len() > 0 && (text[0] == '+' || text[0] == '-') {
        text.skip(1)
    } else {
        text
    }
}

/// The number that a text writes, with an optional sign in front.
pub open spec fn written_number(text: Seq<char>) -> int {
    if text.len() > 0 && text[0] == '-' {
        -(digits_value(unsigned_part(text)) as int)
    } else {
        digits_value(unsigned_part(text)) as int
    }
}

/// The 32-bit number that a text writes: an optional sign, then digits alone, and
/// a value that fits.
pub open spec fn parsed_i32(text: Seq<char>) -> Option<i32> {
    if unsigned_part(text).len() > 0 && all_digits(unsigned_part(text)) && i32::MIN
        <= written_number(text) <= i32::MAX {
        Some(written_number(text) as i32)
    } else {
        None
    }
}

proof fn lemma_value_grows(text: Seq<char>, k: int)
    requires
        0 <= k <= text.len(),
    ensures
        digits_value(text.take(k)) <= digits_value(text),
    decreases text.len(),
{
    if k < text.len() {
        lemma_value_grows(text.drop_last(), k);
        assert(text.drop_last().take(k) =~= text.take(k));
    } else {
        assert(text.take(k) =~= text);
    }
}

/// Reads a 32-bit number.
pub fn parse_i32(text: &str) -> (r: Option<i32>)
    ensures
        r == parsed_i32(text@),
{
    let chars: Vec<char> = characters(text);
    if chars.len() == 0 {
        return None;
    }
    let negative: bool = chars[0] == '-';
    let start: usize = if negative || chars[0] == '+' {
        1
    } else {
        0
    };
    let ghost part = unsigned_part(text@);
    assert(part =~= text@.skip(start as int));
    if start == chars.len() {
        return None;
    }
    let mut value: u64 = 0;
    let mut i: usize = start;
    assert(part.take(0) =~= Seq::<char>::empty());
    while i < chars.len()
        invariant
            start <= i <= chars@.len(),
            chars@ == text@,
            part == text@.skip(start as int),
            part == unsigned_part(text@),
            forall|k: int| 0 <= k < i - start ==> '0' <= #[trigger] part[k] <= '9',
            value == digits_value(part.take(i - start)),
            value <= 2_147_483_648,
        decreases chars@.len() - i,
    {
        let c: char = chars[i];
        assert(c == part[i - start]);
        if c < '0' || c > '9' {
            return None;
        }
        let d: u64 = (c as u32 - 48) as u64;
        let next: u64 = value * 10 + d;
        proof {
            assert(part.take(i + 1 - start).drop_last() =~= part.take(i - start));
            assert(next == digits_value(part.take(i + 1 - start)));
            lemma_value_grows(part, i + 1 - start);
        }
        if next > 2_147_483_648 {
            return None;
        }
        value = next;
        i += 1;
    }
    assert(part.take(i - start) =~= part);
    if negative {
        Some((-(value as i64)) as i32)
    } else if value == 2_147_483_648 {
        None
    } else {
        Some(value as i32)
    }
}

proof fn lemma_digits(n: nat)
    ensures
        digits(n).len() > 0,
        all_digits(digits(n)),
        digits_value(digits(n)) == n,
    decreases n,
{
    if n >= 10 {
        lemma_digits(n / 10);
        assert(digits(n).drop_last() =~= digits(n / 10));
    } else {
        assert(digits(n).drop_last() =~= Seq::<char>::empty());
        reveal_with_fuel(digits_value, 2);
    }
}

/// A printed number is a sign or nothing, then digits.
pub proof fn lemma_decimal_chars(n: int)
    ensures
        decimal_text(n).len() > 0,
        forall|i: int|
            0 <= i < decimal_text(n).len() ==> #[trigger] decimal_text(n)[i] == '-' || '0'
                <= decimal_text(n)[i] <= '9',
{
    if n < 0 {
        lemma_digits((-n) as nat);
    } else {
        lemma_digits(n as nat);
    }
}

/// Reading a printed 32-bit number gives the number back.
pub proof fn law_printed_number_reads_back(n: i32)
    ensures
        parsed_i32(decimal_text(n as int)) == Some(n),
{
    let t = decimal_text(n as int);
    if n < 0 {
        let d = digits((-(n as int)) as nat);
        lemma_digits((-(n as int)) as nat);
        assert(t.skip(1) =~= d);
        assert(t[0] == '-');
    } else {
        lemma_digits(n as nat);
        assert('0' <= t[0] <= '9');
    }
}

// ---- components of an address ----

/// The bytes that stand for themselves in a component of an address: letters,
/// digits and `- _ . ! ~ * ' ( )`.
pub open spec fn is_plain_byte(b: u8) -> bool {
    ||| 65 <= b <= 90
    ||| 97 <= b <= 122
    ||| 48 <= b <= 57
    ||| b == 45
    ||| b == 95
    ||| b == 46
    ||| b == 33
    ||| b == 126
    ||| b == 42
    ||| b == 39
    ||| b == 40
    ||| b == 41
}

/// The upper-case character of a hexadecimal digit.
pub open spec fn upper_hex_char(d: int) -> char {
    if d < 10 {
        (48 + d) as char
    } else {
        (55 + d) as char
    }
}

/// Bytes as they stand in an address: plain ones as they are, the others as a
/// percent sign and two hexadecimal digits.
pub open spec fn escaped_bytes(bytes: Seq<u8>) -> Seq<char>
    decreases bytes.len(),
{
    if bytes.len() == 0 {
        Seq::empty()
    } else {
        let b = bytes.last();
        escaped_bytes(bytes.drop_last()) + if is_plain_byte(b) {
            seq![b as char]
        } else {
            seq!['%', upper_hex_char((b / 16) as int), upper_hex_char((b % 16) as int)]
        }
    }
}

/// A text as it stands in a component of an address: its UTF-8 bytes, escaped.
pub open spec fn uri_component_text(text: Seq<char>) -> Seq<char> {
    escaped_bytes(vstd::utf8::encode_utf8(text))
}

fn upper_hex(d: u8) -> (c: char)
    requires
        d < 16,
    ensures
        c == upper_hex_char(d as int),
{
    if d < 10 {
        (48u8 + d) as char
    } else {
        (55u8 + d) as char
    }
}

/// Escapes a text for a component of an address.
pub fn uri_component(text: &str) -> (r: String)
    ensures
        r@ == uri_component_text(text@),
{
    let bytes: &[u8] = text.as_bytes();
    let mut r: String = String::new();
    let mut i: usize = 0;
    assert(bytes@.take(0) =~= Seq::<u8>::empty());
    while i < bytes.len()
        invariant
            i <= bytes@.len(),
            r@ == escaped_bytes(bytes@.take(i as int)),
        decreases bytes@.len() - i,
    {
        let b: u8 = bytes[i];
        let ghost before = r@;
        let plain: bool = (65 <= b && b <= 90) || (97 <= b && b <= 122) || (48 <= b && b <= 57) || b
            == 45 || b == 95 || b == 46 || b == 33 || b == 126 || b == 42 || b == 39 || b == 40 || b
            == 41;
        if plain {
            r.push(b as char);
        } else {
            r.push('%');
            r.push(upper_hex(b / 16));
            r.push(upper_hex(b % 16));
        }
        proof {
            let next = bytes@.take(i + 1);
            assert(next.drop_last() =~= bytes@.take(i as int));
            assert(next.last() == b);
            if plain {
                assert(r@ =~= before + seq![b as char]);
            } else {
                assert(r@ =~= before + seq![
                    '%',
                    upper_hex_char((b / 16) as int),
                    upper_hex_char((b % 16) as int),
                ]);
            }
        }
        i += 1;
    }
    assert(bytes@.take(i as int) =~= bytes@);
    r
}

} // verus!
