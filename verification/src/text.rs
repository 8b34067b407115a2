//! Text building blocks shared by every renderer of the crate: runs of one
//! character, padding to a byte width, joining with a separator and decimal
//! numerals. The contracts speak of texts as sequences of characters.

use vstd::prelude::*;
use vstd::string::*;
use vstd::utf8::*;

verus! {

/// The text made of `count` copies of `c`.
pub open spec fn repeated(c: char, count: nat) -> Seq<char> {
    Seq::new(count, |i: int| c)
}

/// The text made of `count` blanks.
pub open spec fn spaces(count: nat) -> Seq<char> {
    repeated(' ', count)
}

/// Number of bytes that `c` takes in UTF-8.
pub open spec fn utf8_width(c: char) -> nat {
    if (c as u32) < 0x80 {
        1
    } else if (c as u32) < 0x800 {
        2
    } else if (c as u32) < 0x10000 {
        3
    } else {
        4
    }
}

/// Number of bytes that `text` takes in UTF-8: what `str::len` counts.
pub open spec fn byte_len(text: Seq<char>) -> nat
    decreases text.len(),
{
    if text.len() == 0 {
        0
    } else {
        byte_len(text.drop_last()) + utf8_width(text.last())
    }
}

/// `text` followed by as many blanks as it takes to reach `width` bytes;
/// a text that is already that wide is left alone.
pub open spec fn padded(text: Seq<char>, width: nat) -> Seq<char> {
    if byte_len(text) < width {
        text + spaces((width - byte_len(text)) as nat)
    } else {
        text
    }
}

/// The texts of a vector of strings.
pub open spec fn texts(parts: Seq<String>) -> Seq<Seq<char>> {
    Seq::new(parts.len(), |i: int| parts[i]@)
}

/// The parts in order, with `separator` between each two neighbours.
pub open spec fn joined(parts: Seq<Seq<char>>, separator: Seq<char>) -> Seq<char>
    decreases parts.len(),
{
    if parts.len() == 0 {
        Seq::empty()
    } else if parts.len() == 1 {
        parts[0]
    } else {
        joined(parts.drop_last(), separator) + separator + parts.last()
    }
}

/// The character of the decimal digit `d`.
pub open spec fn digit(d: nat) -> char {
    if d == 0 {
        '0'
    } else if d == 1 {
        '1'
    } else if d == 2 {
        '2'
    } else if d == 3 {
        '3'
    } else if d == 4 {
        '4'
    } else if d == 5 {
        '5'
    } else if d == 6 {
        '6'
    } else if d == 7 {
        '7'
    } else if d == 8 {
        '8'
    } else {
        '9'
    }
}

/// The decimal numeral of `n`, without leading zeros.
pub open spec fn decimal_digits(n: nat) -> Seq<char>
    decreases n,
{
    if n < 10 {
        seq![digit(n)]
    } else {
        decimal_digits(n / 10).push(digit(n % 10))
    }
}

/// The decimal numeral of `i`, with a minus sign in front of a negative one.
pub open spec fn decimal(i: int) -> Seq<char> {
    if i < 0 {
        seq!['-'] + decimal_digits((-i) as nat)
    } else {
        decimal_digits(i as nat)
    }
}

/// One more character adds its own width.
pub proof fn lemma_byte_len_push(text: Seq<char>, c: char)
    ensures
        byte_len(text.push(c)) == byte_len(text) + utf8_width(c),
{
    assert(text.push(c).drop_last() =~= text);
}

/// The UTF-8 encoding of a text made of two halves is the encoding of the
/// first followed by the encoding of the second.
pub proof fn lemma_encode_utf8_concat(a: Seq<char>, b: Seq<char>)
    ensures
        encode_utf8(a + b) == encode_utf8(a) + encode_utf8(b),
    decreases a.len(),
{
    if a.len() == 0 {
        assert(a + b =~= b);
        assert(encode_utf8(a) + encode_utf8(b) =~= encode_utf8(b));
    } else {
        lemma_encode_utf8_concat(a.drop_first(), b);
        assert((a + b).drop_first() =~= a.drop_first() + b);
        assert((a + b)[0] == a[0]);
        assert(encode_utf8(a + b) =~= encode_utf8(a) + encode_utf8(b));
    }
}

/// `byte_len` counts the bytes of the UTF-8 encoding.
pub proof fn lemma_byte_len_is_encoded_len(text: Seq<char>)
    ensures
        byte_len(text) == encode_utf8(text).len(),
    decreases text.len(),
{
    if text.len() > 0 {
        let c = text.last();
        lemma_byte_len_is_encoded_len(text.drop_last());
        lemma_encode_utf8_concat(text.drop_last(), seq![c]);
        assert(text =~= text.drop_last() + seq![c]);
        char_is_scalar(c);
        assert(seq![c].drop_first() =~= Seq::<char>::empty());
        assert(encode_utf8(seq![c]) =~= encode_scalar(c as u32)) by {
            assert(encode_utf8(seq![c].drop_first()) =~= Seq::<u8>::empty());
        }
        assert(encode_scalar(c as u32).len() == utf8_width(c));
    }
}

/// Appends one character to a string.
///
/// Wraps `String::push`, which std documents as appending the given `char`
/// to the end of the string; the contract says that and nothing else.
#[verifier::external_body]
pub(crate) fn push_char(target: &mut String, c: char)
    ensures
        final(target)@ == old(target)@.push(c),
{
    target.push(c);
}

/// Number of bytes that `c` takes in UTF-8.
pub fn char_width(c: char) -> (width: usize)
    ensures
        width == utf8_width(c),
{
    let code: u32 = c as u32;
    if code < 0x80 {
        1
    } else if code < 0x800 {
        2
    } else if code < 0x10000 {
        3
    } else {
        4
    }
}

/// Byte length of `text`, stopping at `usize::MAX`.
pub fn measure(text: &str) -> (bytes: usize)
    ensures
        bytes == if byte_len(text@) < usize::MAX { byte_len(text@) } else { usize::MAX as nat },
{
    let mut bytes: usize = 0;
    for c in it: text.chars()
        invariant
            it.seq() == text@,
            bytes == if byte_len(text@.take(it.index() as int)) < usize::MAX {
                byte_len(text@.take(it.index() as int))
            } else {
                usize::MAX as nat
            },
    {
        proof {
            let before = text@.take(it.index() as int);
            assert(text@.take(it.index() + 1) =~= before.push(c));
            lemma_byte_len_push(before, c);
        }
        let width: usize = char_width(c);
        bytes = bytes.saturating_add(width);
    }
    proof {
        assert(text@.take(text@.len() as int) =~= text@);
    }
    bytes
}

/// Appends `count` copies of `c` to `target`.
pub fn push_repeated(target: &mut String, c: char, count: usize)
    ensures
        final(target)@ == old(target)@ + repeated(c, count as nat),
{
    let mut done: usize = 0;
    while done < count
        invariant
            done <= count,
            target@ == old(target)@ + repeated(c, done as nat),
        decreases count - done,
    {
        push_char(target, c);
        done = done + 1;
        proof {
            assert(old(target)@ + repeated(c, done as nat) =~= (old(target)@ + repeated(
                c,
                (done - 1) as nat,
            )).push(c));
        }
    }
}

/// The text made of `count` copies of `c`.
pub fn repeat_char(c: char, count: usize) -> (text: String)
    ensures
        text@ == repeated(c, count as nat),
{
    let mut text = String::new();
    push_repeated(&mut text, c, count);
    proof {
        assert(Seq::<char>::empty() + repeated(c, count as nat) =~= repeated(c, count as nat));
    }
    text
}

/// Pads `target` with blanks up to `width` bytes.
pub fn pad_with_spaces(target: &mut String, width: usize)
    ensures
        final(target)@ == padded(old(target)@, width as nat),
{
    let bytes: usize = measure(target.as_str());
    if bytes < width {
        push_repeated(target, ' ', width - bytes);
    }
}

/// The strings of `parts` in order, with `separator` between each two
/// neighbours.
pub fn join(parts: &Vec<String>, separator: &str) -> (text: String)
    ensures
        text@ == joined(texts(parts@), separator@),
{
    let mut text = String::new();
    let mut index: usize = 0;
    while index < parts.len()
        invariant
            index <= parts.len(),
            text@ == joined(texts(parts@).take(index as int), separator@),
        decreases parts.len() - index,
    {
        proof {
            let all = texts(parts@);
            assert(all.take(index + 1).drop_last() =~= all.take(index as int));
            assert(all.take(index + 1).last() == parts@[index as int]@);
            if index == 0 {
                assert(Seq::<char>::empty() + parts@[0]@ =~= parts@[0]@);
            }
        }
        if index > 0 {
            text.append(separator);
        }
        text.append(parts[index].as_str());
        index = index + 1;
    }
    proof {
        assert(texts(parts@).take(parts.len() as int) =~= texts(parts@));
    }
    text
}

/// The character of the decimal digit `d`.
pub fn digit_char(d: u8) -> (c: char)
    requires
        d < 10,
    ensures
        c == digit(d as nat),
{
    if d == 0 {
        '0'
    } else if d == 1 {
        '1'
    } else if d == 2 {
        '2'
    } else if d == 3 {
        '3'
    } else if d == 4 {
        '4'
    } else if d == 5 {
        '5'
    } else if d == 6 {
        '6'
    } else if d == 7 {
        '7'
    } else if d == 8 {
        '8'
    } else {
        '9'
    }
}

/// Appends the decimal numeral of `n` to `target`.
pub fn push_decimal(target: &mut String, n: u64)
    ensures
        final(target)@ == old(target)@ + decimal_digits(n as nat),
    decreases n,
{
    if n >= 10 {
        push_decimal(target, n / 10);
    }
    let last: u8 = (n % 10) as u8;
    push_char(target, digit_char(last));
    proof {
        if n >= 10 {
            assert(old(target)@ + decimal_digits(n as nat) =~= (old(target)@ + decimal_digits(
                (n / 10) as nat,
            )).push(digit((n % 10) as nat)));
        } else {
            assert(old(target)@ + decimal_digits(n as nat) =~= old(target)@.push(digit(n as nat)));
        }
    }
}

/// The decimal numeral of `n`.
pub fn unsigned_decimal(n: u64) -> (text: String)
    ensures
        text@ == decimal(n as int),
{
    let mut text = String::new();
    push_decimal(&mut text, n);
    proof {
        assert(Seq::<char>::empty() + decimal_digits(n as nat) =~= decimal_digits(n as nat));
    }
    text
}

/// The decimal numeral of `n`, with a minus sign where `n` is negative.
pub fn signed_decimal(n: i64) -> (text: String)
    ensures
        text@ == decimal(n as int),
{
    let mut text = String::new();
    if n < 0 {
        push_char(&mut text, '-');
        let magnitude: u64 = if n == i64::MIN {
            0x8000_0000_0000_0000u64
        } else {
            (-n) as u64
        };
        push_decimal(&mut text, magnitude);
        proof {
            assert(Seq::<char>::empty().push('-') =~= seq!['-']);
        }
    } else {
        push_decimal(&mut text, n as u64);
        proof {
            assert(Seq::<char>::empty() + decimal_digits(n as nat) =~= decimal_digits(n as nat));
        }
    }
    text
}

} // verus!
