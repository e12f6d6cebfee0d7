//! The Unicode text format of the clipboard: a buffer of UTF-16 code units that
//! ends at the first NUL unit.

use vstd::prelude::*;

use super::error::CaptureError;
use crate::text::{
    decode_utf16_units, encode_utf16_units, is_blank, is_blank_text, utf16_decode, utf16_encode,
    utf16_encode_char,
};

verus! {

/// The clipboard format number of Unicode text.
pub const CF_UNICODETEXT: u32 = 13;

/// How long to keep trying to open the clipboard, which another program may hold.
pub const CLIPBOARD_OPEN_TIMEOUT_MS: u64 = 250;
/// Pause between two attempts to open the clipboard.
pub const CLIPBOARD_OPEN_RETRY_MS: u64 = 10;

/// What to do after an attempt to open the clipboard.
#[derive(Debug, Clone, Copy, PartialEq, Eq, Structural)]
pub enum OpenAttempt {
    Opened,
    /// Wait `CLIPBOARD_OPEN_RETRY_MS` and try again.
    Retry,
    GiveUp,
}

/// An attempt that opened the clipboard succeeds; a failed one is retried until
/// the deadline has passed.
pub fn clipboard_open_attempt(opened: bool, now_ms: u64, deadline_ms: u64) -> (r: OpenAttempt)
    ensures
        opened ==> r == OpenAttempt::Opened,
        !opened && now_ms >= deadline_ms ==> r == OpenAttempt::GiveUp,
        !opened && now_ms < deadline_ms ==> r == OpenAttempt::Retry,
{
    if opened {
        OpenAttempt::Opened
    } else if now_ms >= deadline_ms {
        OpenAttempt::GiveUp
    } else {
        OpenAttempt::Retry
    }
}

/// The code units of a clipboard buffer up to, not including, its first NUL unit.
pub open spec fn units_before_nul(w: Seq<u16>) -> Seq<u16>
    decreases w.len(),
{
    if w.len() == 0 {
        Seq::empty()
    } else if w[0] == 0 {
        Seq::empty()
    } else {
        seq![w[0]] + units_before_nul(w.drop_first())
    }
}

/// The text a clipboard buffer holds: its units before the first NUL, decoded.
pub open spec fn clipboard_buffer_text(w: Seq<u16>) -> Option<Seq<char>> {
    utf16_decode(units_before_nul(w))
}

/// The buffer that stores `s` on the clipboard: its UTF-16 units and a NUL.
pub open spec fn clipboard_buffer_for(s: Seq<char>) -> Seq<u16> {
    utf16_encode(s).push(0)
}

proof fn lemma_units_before_nul_at(w: Seq<u16>, k: int)
    requires
        0 <= k <= w.len(),
        forall|j: int| 0 <= j < k ==> w[j] != 0,
        k == w.len() || w[k] == 0,
    ensures
        units_before_nul(w) == w.take(k),
    decreases w.len(),
{
    if w.len() == 0 {
    } else if w[0] == 0 {
        assert(k == 0);
    } else {
        let t = w.drop_first();
        assert forall|j: int| 0 <= j < k - 1 implies t[j] != 0 by {
            assert(w[j + 1] != 0);
        }
        assert(k - 1 == t.len() || t[k - 1] == 0);
        lemma_units_before_nul_at(t, k - 1);
        assert(w.take(k) =~= seq![w[0]] + t.take(k - 1));
    }
}

/// How many UTF-16 units a clipboard allocation of `size_bytes` bytes holds;
/// one smaller than a single unit holds no text.
pub fn clipboard_unit_count(size_bytes: usize) -> (r: Result<usize, CaptureError>)
    ensures
        size_bytes < 2 ==> r == Err::<usize, CaptureError>(CaptureError::NoTextSelected),
        size_bytes >= 2 ==> r == Ok::<usize, CaptureError>(size_bytes / 2),
{
    if size_bytes < 2 {
        Err(CaptureError::NoTextSelected)
    } else {
        Ok(size_bytes / 2)
    }
}

/// Decodes the text of a clipboard buffer; units that are not valid UTF-16 make
/// the clipboard unusable.
pub fn decode_clipboard_words(words: &[u16]) -> (r: Result<String, CaptureError>)
    ensures
        match clipboard_buffer_text(words@) {
            Some(s) => r matches Ok(t) && t@ == s,
            None => r == Err::<String, CaptureError>(CaptureError::ClipboardUnavailable),
        },
{
    let n = words.len();
    let mut k: usize = 0;
    while k < n && words[k] != 0
        invariant
            n == words@.len(),
            k <= n,
            forall|j: int| 0 <= j < k ==> words@[j] != 0,
        decreases n - k,
    {
        k = k + 1;
    }
    proof {
        lemma_units_before_nul_at(words@, k as int);
    }
    let units = &words[0..k];
    assert(units@ =~= words@.take(k as int));
    match decode_utf16_units(units) {
        Some(text) => Ok(text),
        None => Err(CaptureError::ClipboardUnavailable),
    }
}

/// What reading the clipboard yields for the capture: the text read, unless it
/// is blank, in which case nothing was selected.
pub fn read_unicode_text(raw: Result<String, CaptureError>) -> (r: Result<String, CaptureError>)
    ensures
        match raw {
            Ok(text) => if is_blank_text(text@) {
                r == Err::<String, CaptureError>(CaptureError::NoTextSelected)
            } else {
                r == Ok::<String, CaptureError>(text)
            },
            Err(e) => r == Err::<String, CaptureError>(e),
        },
{
    match raw {
        Ok(text) => {
            if is_blank(text.as_str()) {
                Err(CaptureError::NoTextSelected)
            } else {
                Ok(text)
            }
        },
        Err(e) => Err(e),
    }
}

/// The buffer to put on the clipboard to store `text` as Unicode text.
pub fn clipboard_words_for(text: &str) -> (r: Vec<u16>)
    ensures
        r@ == clipboard_buffer_for(text@),
{
    let mut units = encode_utf16_units(text);
    units.push(0);
    units
}

proof fn lemma_encode_char_nonzero(c: char)
    requires
        c != '\0',
    ensures
        forall|j: int| 0 <= j < utf16_encode_char(c).len() ==> utf16_encode_char(c)[j] != 0,
{
    let v = c as int;
    if v >= 0x10000 {
        let w = v - 0x10000;
        assert(0 <= w / 0x400);
    } else {
        assert(v != 0);
    }
}

proof fn lemma_encode_nonzero(s: Seq<char>)
    requires
        !s.contains('\0'),
    ensures
        forall|j: int| 0 <= j < utf16_encode(s).len() ==> utf16_encode(s)[j] != 0,
    decreases s.len(),
{
    if s.len() > 0 {
        assert(s[0] != '\0') by {
            assert(s.contains(s[0]));
        }
        assert(!s.drop_first().contains('\0')) by {
            if s.drop_first().contains('\0') {
                let j = choose|j: int| 0 <= j < s.drop_first().len() && s.drop_first()[j] == '\0';
                assert(s[j + 1] == '\0');
            }
        }
        lemma_encode_char_nonzero(s[0]);
        lemma_encode_nonzero(s.drop_first());
        let a = utf16_encode_char(s[0]);
        let b = utf16_encode(s.drop_first());
        assert forall|j: int| 0 <= j < (a + b).len() implies (a + b)[j] != 0 by {
            if j >= a.len() {
                assert((a + b)[j] == b[j - a.len()]);
            }
        }
    }
}

proof fn lemma_decode_encode_char(c: char, t: Seq<u16>)
    ensures
        utf16_decode(utf16_encode_char(c) + t) == match utf16_decode(t) {
            Some(rest) => Some(seq![c] + rest),
            None => None::<Seq<char>>,
        },
{
    let v = c as int;
    let u = utf16_encode_char(c) + t;
    if v < 0x10000 {
        assert(!(0xD800 <= v < 0xE000));
        assert(u[0] as int == v);
        assert(u.skip(1) =~= t);
        assert((u[0] as char) == c);
    } else {
        let w = v - 0x10000;
        assert(0 <= w < 0x100000);
        assert(0 <= w / 0x400 < 0x400);
        assert(0 <= w % 0x400 < 0x400);
        assert(u[0] as int == 0xD800 + w / 0x400);
        assert(u[1] as int == 0xDC00 + w % 0x400);
        assert(u.skip(2) =~= t);
        assert(0x10000 + (u[0] - 0xD800) * 0x400 + (u[1] - 0xDC00) == v);
        assert(((0x10000 + (u[0] - 0xD800) * 0x400 + (u[1] - 0xDC00)) as char) == c);
    }
}

proof fn lemma_decode_encode(s: Seq<char>)
    ensures
        utf16_decode(utf16_encode(s)) == Some(s),
    decreases s.len(),
{
    if s.len() > 0 {
        lemma_decode_encode(s.drop_first());
        lemma_decode_encode_char(s[0], utf16_encode(s.drop_first()));
        assert(seq![s[0]] + s.drop_first() =~= s);
    } else {
        assert(utf16_encode(s) =~= Seq::<u16>::empty());
    }
}

/// Text put on the clipboard as Unicode text reads back unchanged, as long as
/// it holds no NUL character (the clipboard format ends the text at the first
/// NUL).
pub proof fn lemma_clipboard_text_round_trip(s: Seq<char>)
    requires
        !s.contains('\0'),
    ensures
        clipboard_buffer_text(clipboard_buffer_for(s)) == Some(s),
        clipboard_buffer_for(s).len() >= 1,
{
    let e = utf16_encode(s);
    let w = clipboard_buffer_for(s);
    lemma_encode_nonzero(s);
    assert forall|j: int| 0 <= j < e.len() implies w[j] != 0 by {
        assert(w[j] == e[j]);
    }
    lemma_units_before_nul_at(w, e.len() as int);
    assert(w.take(e.len() as int) =~= e);
    lemma_decode_encode(s);
}

} // verus!
