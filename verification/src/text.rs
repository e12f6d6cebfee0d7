//! Text facts the capture and translation logic relies on: blank text, and the
//! UTF-16 form in which the Windows clipboard stores Unicode text.

use vstd::prelude::*;

verus! {

/// Whether `c` has the Unicode `White_Space` property, the characters that
/// `char::is_whitespace` and `str::trim` treat as white space: the ASCII tab,
/// line feed, vertical tab, form feed, carriage return and space, the next line
/// and no-break space, the Ogham space mark, the spaces from en quad to hair
/// space, the line and paragraph separators, the narrow no-break space, the
/// medium mathematical space and the ideographic space.
pub open spec fn unicode_white_space(c: char) -> bool {
    let v = c as u32;
    ||| 0x09 <= v <= 0x0D
    ||| v == 0x20
    ||| v == 0x85
    ||| v == 0xA0
    ||| v == 0x1680
    ||| 0x2000 <= v <= 0x200A
    ||| v == 0x2028
    ||| v == 0x2029
    ||| v == 0x202F
    ||| v == 0x205F
    ||| v == 0x3000
}

/// Whether `c` is white space, as `char::is_whitespace` answers.
pub fn char_is_whitespace(c: char) -> (r: bool)
    ensures
        r == unicode_white_space(c),
{
    let v = c as u32;
    (0x09 <= v && v <= 0x0D) || v == 0x20 || v == 0x85 || v == 0xA0 || v == 0x1680 || (0x2000 <= v
        && v <= 0x200A) || v == 0x2028 || v == 0x2029 || v == 0x202F || v == 0x205F || v == 0x3000
}

/// A text is blank when every character is white space (the empty text included),
/// which is exactly when trimming white space from it leaves nothing.
pub open spec fn is_blank_text(s: Seq<char>) -> bool {
    forall|i: int| 0 <= i < s.len() ==> #[trigger] unicode_white_space(s[i])
}

/// Whether `text` is empty once surrounding white space is trimmed.
pub fn is_blank(text: &str) -> (r: bool)
    ensures
        r == is_blank_text(text@),
{
    for c in it: text.chars()
        invariant
            it.seq() == text@,
            forall|j: int| 0 <= j < it.index() ==> #[trigger] unicode_white_space(text@[j]),
    {
        if !char_is_whitespace(c) {
            return false;
        }
    }
    true
}

/// The UTF-16 code units of one character: itself when it lies in the basic
/// multilingual plane, otherwise a high and a low surrogate.
pub open spec fn utf16_encode_char(c: char) -> Seq<u16> {
    let v = c as int;
    if v < 0x10000 {
        seq![v as u16]
    } else {
        let w = v - 0x10000;
        seq![(0xD800 + w / 0x400) as u16, (0xDC00 + w % 0x400) as u16]
    }
}

/// The UTF-16 encoding of a character sequence.
pub open spec fn utf16_encode(s: Seq<char>) -> Seq<u16>
    decreases s.len(),
{
    if s.len() == 0 {
        Seq::empty()
    } else {
        utf16_encode_char(s[0]) + utf16_encode(s.drop_first())
    }
}

pub open spec fn is_high_surrogate(u: u16) -> bool {
    0xD800 <= u < 0xDC00
}

pub open spec fn is_low_surrogate(u: u16) -> bool {
    0xDC00 <= u < 0xE000
}

/// The characters that UTF-16 code units stand for, or `None` when the units
/// hold an unpaired surrogate.
pub open spec fn utf16_decode(u: Seq<u16>) -> Option<Seq<char>>
    decreases u.len(),
{
    if u.len() == 0 {
        Some(Seq::empty())
    } else if is_high_surrogate(u[0]) {
        if u.len() >= 2 && is_low_surrogate(u[1]) {
            let c = (0x10000 + (u[0] - 0xD800) * 0x400 + (u[1] - 0xDC00)) as char;
            match utf16_decode(u.skip(2)) {
                Some(rest) => Some(seq![c] + rest),
                None => None,
            }
        } else {
            None
        }
    } else if is_low_surrogate(u[0]) {
        None
    } else {
        match utf16_decode(u.skip(1)) {
            Some(rest) => Some(seq![u[0] as char] + rest),
            None => None,
        }
    }
}

proof fn lemma_utf16_encode_append(a: Seq<char>, b: Seq<char>)
    ensures
        utf16_encode(a + b) == utf16_encode(a) + utf16_encode(b),
    decreases a.len(),
{
    if a.len() == 0 {
        assert(a + b =~= b);
        assert(utf16_encode(a) =~= Seq::<u16>::empty());
        assert(utf16_encode(a) + utf16_encode(b) =~= utf16_encode(b));
    } else {
        assert((a + b).drop_first() =~= a.drop_first() + b);
        assert((a + b)[0] == a[0]);
        lemma_utf16_encode_append(a.drop_first(), b);
        assert(utf16_encode_char(a[0]) + (utf16_encode(a.drop_first()) + utf16_encode(b))
            =~= (utf16_encode_char(a[0]) + utf16_encode(a.drop_first())) + utf16_encode(b));
    }
}

proof fn lemma_utf16_encode_single(c: char)
    ensures
        utf16_encode(seq![c]) == utf16_encode_char(c),
{
    assert(seq![c].drop_first() =~= Seq::<char>::empty());
    assert(utf16_encode(Seq::<char>::empty()) =~= Seq::<u16>::empty());
    assert(utf16_encode_char(c) + Seq::<u16>::empty() =~= utf16_encode_char(c));
}

/// Appends the UTF-16 code units of `c`, as `char::encode_utf16` produces them.
fn push_utf16_char(units: &mut Vec<u16>, c: char)
    ensures
        final(units)@ == old(units)@ + utf16_encode_char(c),
{
    let v: u32 = c as u32;
    if v < 0x10000 {
        units.push(v as u16);
    } else {
        let w: u32 = v - 0x10000;
        units.push((0xD800 + w / 0x400) as u16);
        units.push((0xDC00 + w % 0x400) as u16);
    }
    assert(units@ =~= old(units)@ + utf16_encode_char(c));
}

/// The UTF-16 encoding of `text`, as `str::encode_utf16` yields it.
pub fn encode_utf16_units(text: &str) -> (r: Vec<u16>)
    ensures
        r@ == utf16_encode(text@),
{
    let mut units: Vec<u16> = Vec::new();
    assert(text@.take(0) =~= Seq::<char>::empty());
    assert(utf16_encode(Seq::<char>::empty()) =~= Seq::<u16>::empty());
    for c in it: text.chars()
        invariant
            it.seq() == text@,
            units@ == utf16_encode(text@.take(it.index() as int)),
    {
        let ghost i = it.index() as int;
        push_utf16_char(&mut units, c);
        proof {
            assert(text@.take(i + 1) =~= text@.take(i) + seq![text@[i]]);
            lemma_utf16_encode_append(text@.take(i), seq![text@[i]]);
            lemma_utf16_encode_single(text@[i]);
        }
    }
    assert(text@.take(text@.len() as int) =~= text@);
    units
}

/// `String::from_utf16`: `Some` with the decoded text exactly when the units are
/// valid UTF-16, `None` otherwise.
#[verifier::external_body]
pub(crate) fn decode_utf16_units(units: &[u16]) -> (r: Option<String>)
    ensures
        r is Some <==> utf16_decode(units@) is Some,
        r matches Some(s) ==> s@ == utf16_decode(units@)->0,
{
    String::from_utf16(units).ok()
}

} // verus!
