//! What becomes of texts and numbers when one is made of the other, or a text is cut, told of the
//! characters that go in and come out.

use crate::text;
use vstd::arithmetic::power;
use vstd::prelude::*;

verus! {

// ---- numbers ----

/// What a character counts as a digit: its place among the ten digits, or among the six small
/// letters that follow them.
pub open spec fn worth(c: char) -> int {
    if '0' <= c <= '9' {
        c as int - '0' as int
    } else if 'a' <= c <= 'f' {
        10 + (c as int - 'a' as int)
    } else if 'A' <= c <= 'F' {
        10 + (c as int - 'A' as int)
    } else {
        -1
    }
}

/// The number that digits write to a base, read from the first to the last.
pub open spec fn counts(digits: Seq<char>, base: int) -> int {
    digits.fold_left(0int, |sum: int, c: char| base * sum + worth(c))
}

/// Whether a text is made of decimal digits alone.
pub open spec fn is_numeral(digits: Seq<char>) -> bool {
    digits.len() > 0 && forall|i: int| 0 <= i < digits.len() ==> '0' <= #[trigger] digits[i] <= '9'
}

proof fn lemma_counts_more(digits: Seq<char>, c: char, base: int)
    ensures
        counts(digits.push(c), base) == base * counts(digits, base) + worth(c),
{
    let more = digits.push(c);
    assert(more.drop_last() =~= digits);
    assert(more.last() == c);
}

proof fn lemma_digits(n: nat)
    ensures
        is_numeral(text::digits(n)),
        counts(text::digits(n), 10) == n,
        n > 0 ==> text::digits(n)[0] != '0',
        n < 10 <==> text::digits(n).len() == 1,
    decreases n,
{
    let last = text::digit_char((n % 10) as int);
    assert(worth(last) == n % 10);
    if n < 10 {
        assert(text::digits(n) =~= Seq::<char>::empty().push(last));
        lemma_counts_more(Seq::<char>::empty(), last, 10);
        assert(counts(Seq::<char>::empty(), 10) == 0);
    } else {
        lemma_digits(n / 10);
        lemma_counts_more(text::digits(n / 10), last, 10);
    }
}

/// A number is written in decimal digits that count as much as it, without a zero in front, and
/// behind a minus sign exactly if it is negative.
pub proof fn law_numbers_are_written_in_decimal(
    n: i64,
    written: String,
    unsigned: u64,
    plain: String,
    wide: String,
)
    requires
        call_ensures(text::decimal, (n,), written),
        call_ensures(text::decimal_u64, (unsigned,), plain),
        call_ensures(text::two_digits, (unsigned,), wide),
    ensures
        n >= 0 ==> is_numeral(written@) && counts(written@, 10) == n && (written@[0] == '0' ==> n
            == 0 && written@.len() == 1),
        n < 0 ==> written@[0] == '-' && is_numeral(written@.skip(1)) && counts(written@.skip(1), 10)
            == -n && written@[1] != '0',
        is_numeral(plain@) && counts(plain@, 10) == unsigned && (plain@[0] == '0' ==> unsigned == 0
            && plain@.len() == 1),
        unsigned >= 10 ==> wide@ == plain@,
        unsigned < 10 ==> wide@ == "0"@ + plain@,
{
    reveal_strlit("0");
    lemma_digits(unsigned as nat);
    if n < 0 {
        lemma_digits((-n) as nat);
        assert(written@.skip(1) =~= text::digits((-n) as nat));
        assert(written@[1] == text::digits((-n) as nat)[0]);
    } else {
        lemma_digits(n as nat);
    }
    assert("0"@ =~= seq!['0']);
}

proof fn lemma_counts_digits(digits: Seq<char>)
    requires
        text::all_digits(digits),
    ensures
        counts(digits, 10) == text::digits_value(digits),
    decreases digits.len(),
{
    if digits.len() > 0 {
        let front = digits.drop_last();
        assert(text::all_digits(front)) by {
            assert forall|i: int| 0 <= i < front.len() implies '0' <= #[trigger] front[i] <= '9' by {
                assert(front[i] == digits[i]);
            }
        }
        lemma_counts_digits(front);
        assert(front.push(digits.last()) =~= digits);
        lemma_counts_more(front, digits.last(), 10);
        assert(digits[digits.len() - 1] == digits.last());
    }
}

/// What is read as a number is decimal digits behind an optional sign, whose value fits in 32 bits;
/// and it is read as that value.
pub proof fn law_numerals_are_read_as_they_count(text: &str, read: Option<i32>)
    requires
        call_ensures(text::parse_i32, (text,), read),
    ensures
        is_numeral(text@) && counts(text@, 10) <= i32::MAX ==> read == Some(
            counts(text@, 10) as i32,
        ),
        is_numeral(text@) && counts(text@, 10) > i32::MAX ==> read is None,
        text@.len() > 0 && text@[0] == '+' && is_numeral(text@.skip(1)) && counts(
            text@.skip(1),
            10,
        ) <= i32::MAX ==> read == Some(counts(text@.skip(1), 10) as i32),
        text@.len() > 0 && text@[0] == '-' && is_numeral(text@.skip(1)) && counts(
            text@.skip(1),
            10,
        ) <= -(i32::MIN as int) ==> read == Some((-counts(text@.skip(1), 10)) as i32),
        text@.len() > 0 && text@[0] == '-' && is_numeral(text@.skip(1)) && counts(
            text@.skip(1),
            10,
        ) > -(i32::MIN as int) ==> read is None,
        read is Some ==> is_numeral(text@) || ((text@[0] == '+' || text@[0] == '-') && is_numeral(
            text@.skip(1),
        )),
{
    let part = text::unsigned_part(text@);
    if is_numeral(text@) {
        assert('0' <= text@[0] <= '9');
        lemma_counts_digits(text@);
    }
    if is_numeral(text@.skip(1)) {
        lemma_counts_digits(text@.skip(1));
    }
}

proof fn lemma_hex(n: nat, width: nat)
    ensures
        text::hex_text(n, width).len() == width,
        forall|i: int|
            0 <= i < width ==> ('0' <= #[trigger] text::hex_text(n, width)[i] <= '9' || 'a'
                <= text::hex_text(n, width)[i] <= 'f'),
        counts(text::hex_text(n, width), 16) == n as int % power::pow(16, width),
    decreases width,
{
    if width == 0 {
        power::lemma_pow0(16);
        assert(counts(text::hex_text(n, width), 16) == 0);
    } else {
        let w = (width - 1) as nat;
        let last = text::hex_char((n % 16) as int);
        lemma_hex(n / 16, w);
        lemma_counts_more(text::hex_text(n / 16, w), last, 16);
        assert(worth(last) == n % 16);
        let p = power::pow(16, w);
        power::lemma_pow_positive(16, w);
        assert(power::pow(16, width) == 16 * p) by {
            reveal(power::pow);
        }
        let q = (n / 16) as int;
        assert(n as int % (16 * p) == 16 * (q % p) + n as int % 16) by (nonlinear_arith)
            requires
                p > 0,
                q == n as int / 16,
        {
            vstd::arithmetic::div_mod::lemma_mod_breakdown(n as int, 16, p);
        }
    }
}

/// Eight hexadecimal digits count as much as a number of 32 bits.
pub(crate) proof fn lemma_eight_digits(n: u32)
    ensures
        text::hex_text(n as nat, 8).len() == 8,
        counts(text::hex_text(n as nat, 8), 16) == n,
{
    lemma_hex(n as nat, 8);
    assert(power::pow(16, 8) == 0x1_0000_0000) by {
        reveal_with_fuel(power::pow, 9);
    }
}

/// The hexadecimal digits that are appended are as many as asked for, small, and count as much as
/// the number does below that many digits.
pub proof fn law_hexadecimal_digits_count(text: &mut String, n: u32, width: u32)
    requires
        call_ensures(text::push_hex, (text, n, width), ()),
    ensures
        final(text)@.len() == old(text)@.len() + width,
        final(text)@.take(old(text)@.len() as int) == old(text)@,
        forall|i: int|
            old(text)@.len() <= i < final(text)@.len() ==> ('0' <= #[trigger] final(text)@[i] <= '9'
                || 'a' <= final(text)@[i] <= 'f'),
        counts(final(text)@.skip(old(text)@.len() as int), 16) == n as int % power::pow(
            16,
            width as nat,
        ),
{
    lemma_hex(n as nat, width as nat);
    let whole = final(text)@;
    let k = old(text)@.len() as int;
    assert(whole.take(k) =~= old(text)@);
    assert(whole.skip(k) =~= text::hex_text(n as nat, width as nat));
    assert forall|i: int| k <= i < whole.len() implies ('0' <= #[trigger] whole[i] <= '9' || 'a'
        <= whole[i] <= 'f') by {
        assert(whole[i] == text::hex_text(n as nat, width as nat)[i - k]);
    }
}

// ---- cutting ----

/// A text over and over.
pub open spec fn repeated(part: Seq<char>, times: nat) -> Seq<char> {
    Seq::new(times, |i: int| part).flatten()
}

proof fn lemma_repeated_more(part: Seq<char>, times: nat)
    ensures
        repeated(part, times + 1) == part + repeated(part, times),
{
    let all = Seq::new(times + 1, |i: int| part);
    assert(all.drop_first() =~= Seq::new(times, |i: int| part));
    assert(all.first() == part);
}

proof fn lemma_leading_copies(whole: Seq<char>, prefix: Seq<char>) -> (times: nat)
    requires
        prefix.len() > 0,
    ensures
        whole == repeated(prefix, times) + text::without_leading(whole, prefix),
        !text::stands_at(text::without_leading(whole, prefix), prefix, 0),
    decreases whole.len(),
{
    if text::stands_at(whole, prefix, 0) {
        let n = prefix.len() as int;
        let rest = whole.skip(n);
        let times = lemma_leading_copies(rest, prefix);
        lemma_repeated_more(prefix, times);
        assert(whole =~= whole.subrange(0, n) + rest);
        assert(whole =~= repeated(prefix, times + 1) + text::without_leading(rest, prefix));
        times + 1
    } else {
        assert(repeated(prefix, 0) =~= Seq::<char>::empty());
        assert(whole =~= repeated(prefix, 0) + whole);
        0
    }
}

/// What begins with copies of a text and then does not is left without them.
pub(crate) proof fn lemma_without_copies(part: Seq<char>, times: nat, rest: Seq<char>)
    requires
        part.len() > 0,
        !text::stands_at(rest, part, 0),
    ensures
        text::without_leading(repeated(part, times) + rest, part) == rest,
    decreases times,
{
    let whole = repeated(part, times) + rest;
    if times == 0 {
        assert(repeated(part, 0) =~= Seq::<char>::empty());
        assert(whole =~= rest);
    } else {
        let fewer = (times - 1) as nat;
        lemma_repeated_more(part, fewer);
        assert(whole.subrange(0, part.len() as int) =~= part);
        assert(text::stands_at(whole, part, 0));
        assert(whole.skip(part.len() as int) =~= repeated(part, fewer) + rest);
        lemma_without_copies(part, fewer, rest);
    }
}

/// Copies of a text, of which there are any, begin with it.
pub(crate) proof fn lemma_copies_begin(part: Seq<char>, times: nat, rest: Seq<char>)
    ensures
        times > 0 ==> text::stands_at(repeated(part, times) + rest, part, 0),
        times == 0 ==> repeated(part, times) + rest == rest,
{
    if times > 0 {
        lemma_repeated_more(part, (times - 1) as nat);
        assert((repeated(part, times) + rest).subrange(0, part.len() as int) =~= part);
    } else {
        assert(repeated(part, 0) =~= Seq::<char>::empty());
        assert(repeated(part, times) + rest =~= rest);
    }
}

proof fn lemma_trailing_copies(whole: Seq<char>, last: char)
    ensures
        text::without_trailing(whole, last).len() <= whole.len(),
        whole.take(text::without_trailing(whole, last).len() as int) == text::without_trailing(
            whole,
            last,
        ),
        forall|i: int|
            text::without_trailing(whole, last).len() <= i < whole.len() ==> #[trigger] whole[i]
                == last,
        text::without_trailing(whole, last).len() > 0 ==> text::without_trailing(whole, last).last()
            != last,
    decreases whole.len(),
{
    if whole.len() > 0 && whole.last() == last {
        let rest = whole.drop_last();
        lemma_trailing_copies(rest, last);
        let k = text::without_trailing(rest, last).len() as int;
        assert(whole.take(k) =~= rest.take(k));
        assert forall|i: int| k <= i < whole.len() implies #[trigger] whole[i] == last by {
            if i < rest.len() {
                assert(rest[i] == whole[i]);
            }
        }
    } else {
        assert(whole.take(whole.len() as int) =~= whole);
    }
}

/// Whether a character is white space.
pub open spec fn white(c: char) -> bool {
    ||| '\t' <= c <= '\r'
    ||| c == ' '
    ||| c == '\u{85}'
    ||| c == '\u{a0}'
    ||| c == '\u{1680}'
    ||| '\u{2000}' <= c <= '\u{200a}'
    ||| c == '\u{2028}'
    ||| c == '\u{2029}'
    ||| c == '\u{202f}'
    ||| c == '\u{205f}'
    ||| c == '\u{3000}'
}

proof fn lemma_white(c: char)
    ensures
        white(c) <==> text::is_space(c),
{
    let n = c as u32;
    assert(n == 0x20 ==> c == ' ');
    assert(n == 0x85 ==> c == '\u{85}');
    assert(n == 0xa0 ==> c == '\u{a0}');
    assert(n == 0x1680 ==> c == '\u{1680}');
    assert(0x2000 <= n <= 0x200a ==> '\u{2000}' <= c <= '\u{200a}');
    assert(n == 0x2028 ==> c == '\u{2028}');
    assert(n == 0x2029 ==> c == '\u{2029}');
    assert(n == 0x202f ==> c == '\u{202f}');
    assert(n == 0x205f ==> c == '\u{205f}');
    assert(n == 0x3000 ==> c == '\u{3000}');
    assert(9 <= n <= 13 ==> '\t' <= c <= '\r');
}

proof fn lemma_leading_white(whole: Seq<char>)
    ensures
        text::without_leading_space(whole).len() <= whole.len(),
        whole.skip(whole.len() - text::without_leading_space(whole).len())
            == text::without_leading_space(whole),
        forall|i: int|
            0 <= i < whole.len() - text::without_leading_space(whole).len() ==> white(
                #[trigger] whole[i],
            ),
        text::without_leading_space(whole).len() > 0 ==> !white(
            text::without_leading_space(whole)[0],
        ),
    decreases whole.len(),
{
    if whole.len() > 0 && text::is_space(whole[0]) {
        let rest = whole.skip(1);
        lemma_leading_white(rest);
        let k = whole.len() - text::without_leading_space(rest).len();
        assert(whole.skip(k) =~= rest.skip(k - 1));
        assert forall|i: int| 0 <= i < k implies white(#[trigger] whole[i]) by {
            if i > 0 {
                assert(rest[i - 1] == whole[i]);
            } else {
                lemma_white(whole[0]);
            }
        }
    } else {
        assert(whole.skip(0) =~= whole);
        lemma_white(whole[0]);
    }
}

proof fn lemma_trailing_white(whole: Seq<char>)
    ensures
        text::without_trailing_space(whole).len() <= whole.len(),
        whole.take(text::without_trailing_space(whole).len() as int)
            == text::without_trailing_space(whole),
        forall|i: int|
            text::without_trailing_space(whole).len() <= i < whole.len() ==> white(
                #[trigger] whole[i],
            ),
        text::without_trailing_space(whole).len() > 0 ==> !white(
            text::without_trailing_space(whole).last(),
        ),
    decreases whole.len(),
{
    if whole.len() > 0 && text::is_space(whole.last()) {
        let rest = whole.drop_last();
        lemma_trailing_white(rest);
        let k = text::without_trailing_space(rest).len() as int;
        assert(whole.take(k) =~= rest.take(k));
        assert forall|i: int| k <= i < whole.len() implies white(#[trigger] whole[i]) by {
            if i < rest.len() {
                assert(rest[i] == whole[i]);
            } else {
                lemma_white(whole.last());
            }
        }
    } else {
        assert(whole.take(whole.len() as int) =~= whole);
        lemma_white(whole.last());
    }
}

/// Whether a text stands between white space in another, and begins and ends with none.
pub open spec fn is_between_white(part: Seq<char>, whole: Seq<char>) -> bool {
    exists|from: int| #[trigger] is_within_white(part, whole, from)
}

/// Whether a text stands at a place between white space, and begins and ends with none.
pub open spec fn is_within_white(part: Seq<char>, whole: Seq<char>, from: int) -> bool {
    &&& 0 <= from <= from + part.len() <= whole.len()
    &&& whole.subrange(from, from + part.len()) == part
    &&& forall|i: int| 0 <= i < from ==> white(#[trigger] whole[i])
    &&& forall|i: int| from + part.len() <= i < whole.len() ==> white(#[trigger] whole[i])
    &&& part.len() > 0 ==> !white(part[0]) && !white(part.last())
}

/// Trimming takes the white space at both ends and nothing else; cutting takes the copies of a
/// character at the end, or of a text at the front, and nothing else.
pub proof fn law_cutting_takes_only_what_it_names(
    whole: &str,
    trimmed: String,
    last: char,
    front: String,
    prefix: &str,
    back: String,
)
    requires
        call_ensures(text::trim, (whole,), trimmed),
        call_ensures(text::cut_trailing, (whole, last), front),
        call_ensures(text::cut_leading, (whole, prefix), back),
    ensures
        is_between_white(trimmed@, whole@),
        front@.len() <= whole@.len(),
        whole@.take(front@.len() as int) == front@,
        forall|i: int| front@.len() <= i < whole@.len() ==> #[trigger] whole@[i] == last,
        front@.len() > 0 ==> front@.last() != last,
        prefix@.len() == 0 ==> back@ == whole@,
        prefix@.len() > 0 ==> (exists|times: nat|
            whole@ == #[trigger] repeated(prefix@, times) + back@),
        prefix@.len() > 0 ==> !prefix@.is_prefix_of(back@),
{
    lemma_leading_white(whole@);
    let rest = text::without_leading_space(whole@);
    lemma_trailing_white(rest);
    let from = whole@.len() - rest.len();
    let part = trimmed@;
    assert(rest.take(part.len() as int) == part);
    assert(whole@.subrange(from, from + part.len()) =~= rest.take(part.len() as int)) by {
        assert(whole@.skip(from) == rest);
    }
    assert forall|i: int| from + part.len() <= i < whole@.len() implies white(
        #[trigger] whole@[i],
    ) by {
        assert(whole@.skip(from)[i - from] == whole@[i]);
        assert(rest[i - from] == whole@[i]);
    }
    if part.len() > 0 {
        assert(part[0] == rest[0]);
    }
    assert(is_within_white(part, whole@, from));
    lemma_trailing_copies(whole@, last);
    if prefix@.len() > 0 {
        let times = lemma_leading_copies(whole@, prefix@);
        assert(whole@ == repeated(prefix@, times) + back@);
        if prefix@.is_prefix_of(back@) {
            assert(back@.subrange(0, prefix@.len() as int) =~= prefix@);
        }
    }
}

// ---- addresses ----

/// Whether characters stand for one byte in an address: the letter, digit or mark itself, or else
/// a percent sign and the two digits of its number.
pub open spec fn stands_for(piece: Seq<char>, byte: u8) -> bool {
    let c = byte as char;
    if crate::number_laws::stands_for_itself(c) {
        piece == seq![c]
    } else {
        &&& piece.len() == 3
        &&& piece[0] == '%'
        &&& !('a' <= piece[1] <= 'f') && !('a' <= piece[2] <= 'f')
        &&& 0 <= worth(piece[1]) < 16
        &&& 0 <= worth(piece[2]) < 16
        &&& 16 * worth(piece[1]) + worth(piece[2]) == byte
    }
}

/// Whether a text is made of pieces that stand for bytes, one after the other.
pub open spec fn stands_for_each(pieces: Seq<Seq<char>>, bytes: Seq<u8>) -> bool {
    pieces.len() == bytes.len() && forall|i: int|
        0 <= i < bytes.len() ==> stands_for(#[trigger] pieces[i], bytes[i])
}

proof fn lemma_escaped_pieces(bytes: Seq<u8>) -> (pieces: Seq<Seq<char>>)
    ensures
        stands_for_each(pieces, bytes),
        pieces.flatten() == text::escaped_bytes(bytes),
    decreases bytes.len(),
{
    if bytes.len() == 0 {
        Seq::empty()
    } else {
        let front = lemma_escaped_pieces(bytes.drop_last());
        let b = bytes.last();
        let piece = if text::is_plain_byte(b) {
            seq![b as char]
        } else {
            seq![
                '%',
                text::upper_hex_char((b / 16) as int),
                text::upper_hex_char((b % 16) as int),
            ]
        };
        assert(stands_for(piece, b)) by {
            let d = text::upper_hex_char((b / 16) as int);
            let e = text::upper_hex_char((b % 16) as int);
            assert(worth(d) == (b / 16) as int);
            assert(worth(e) == (b % 16) as int);
        }
        let pieces = front.push(piece);
        front.lemma_flatten_push(piece);
        assert forall|i: int| 0 <= i < bytes.len() implies stands_for(
            #[trigger] pieces[i],
            bytes[i],
        ) by {
            if i < front.len() {
                assert(pieces[i] == front[i]);
                assert(bytes.drop_last()[i] == bytes[i]);
            }
        }
        pieces
    }
}

/// A component of an address stands for the bytes of a text, one after the other.
pub proof fn law_components_stand_for_the_bytes(whole: &str, r: String)
    requires
        call_ensures(text::uri_component, (whole,), r),
    ensures
        exists|pieces: Seq<Seq<char>>| #[trigger]
            stands_for_each(pieces, vstd::utf8::encode_utf8(whole@)) && pieces.flatten() == r@,
{
    let pieces = lemma_escaped_pieces(vstd::utf8::encode_utf8(whole@));
    assert(stands_for_each(pieces, vstd::utf8::encode_utf8(whole@)));
}

/// A text is its characters, and a part of them is what stands there.
pub proof fn law_characters_are_what_stands_there(
    whole: &str,
    chars: Vec<char>,
    from: usize,
    to: usize,
    part: String,
)
    requires
        from <= to <= chars@.len(),
        call_ensures(text::characters, (whole,), chars),
        call_ensures(text::assembled, (&chars, from, to), part),
    ensures
        chars@ == whole@,
        part@.len() == to - from,
        forall|i: int| from <= i < to ==> #[trigger] whole@[i] == part@[i - from],
{
}

} // verus!
