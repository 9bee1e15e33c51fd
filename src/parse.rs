//! Classification of a buffer of input bytes as one terminal input sequence.
use vstd::prelude::*;
use crate::event::{key, key_spec, EventModel, EventOf, InternalEvent, KeyCode, KeyEvent, MouseEvent};

verus! {

pub const ESC: u8 = 0x1B;

/// Longest control sequence (`ESC [ ...`) kept while it is still incomplete.
pub const CSI_MAX_LEN: usize = 24;

/// What a buffer of bytes is, taken as one input sequence.
#[derive(Clone, Debug, PartialEq, Eq)]
pub enum ParsedOf<E> {
    /// A whole, valid sequence, and the event it stands for.
    Complete(E),
    /// A prefix of a sequence that may still become valid.
    Incomplete,
    /// Bytes that no valid sequence starts with.
    Invalid,
}

pub type Parsed = ParsedOf<InternalEvent>;

pub type ParsedModel = ParsedOf<EventModel>;

impl View for ParsedOf<InternalEvent> {
    type V = ParsedModel;

    open spec fn view(&self) -> ParsedModel {
        match self {
            ParsedOf::Complete(e) => ParsedOf::Complete(e@),
            ParsedOf::Incomplete => ParsedOf::Incomplete,
            ParsedOf::Invalid => ParsedOf::Invalid,
        }
    }
}

pub open spec fn is_digit(b: u8) -> bool {
    0x30 <= b <= 0x39
}

pub open spec fn is_param_byte(b: u8) -> bool {
    is_digit(b) || b == 0x3B
}

pub open spec fn is_final_byte(b: u8) -> bool {
    0x40 <= b <= 0x7E
}

pub open spec fn is_continuation(b: u8) -> bool {
    0x80 <= b <= 0xBF
}

/// The second byte of a multi-byte character, after the first byte `b0`:
/// the ranges that exclude overlong forms, surrogates and values above
/// U+10FFFF.
pub open spec fn utf8_second_ok(b0: u8, b1: u8) -> bool {
    if b0 == 0xE0 {
        0xA0 <= b1 <= 0xBF
    } else if b0 == 0xED {
        0x80 <= b1 <= 0x9F
    } else if b0 == 0xF0 {
        0x90 <= b1 <= 0xBF
    } else if b0 == 0xF4 {
        0x80 <= b1 <= 0x8F
    } else {
        is_continuation(b1)
    }
}

/// Number of bytes of a UTF-8 encoded character, by its first byte
/// (0 for a byte that cannot start a multi-byte character).
pub open spec fn utf8_width(b: u8) -> nat {
    if 0xC2 <= b <= 0xDF {
        2
    } else if 0xE0 <= b <= 0xEF {
        3
    } else if 0xF0 <= b <= 0xF4 {
        4
    } else {
        0
    }
}

/// State of a left-to-right scan of numeric parameters separated by `;`.
pub struct ScanState {
    pub done: Seq<u16>,
    pub cur: nat,
    pub has_digit: bool,
    pub ok: bool,
}

pub open spec fn scan_step(st: ScanState, b: u8) -> ScanState {
    if !st.ok {
        st
    } else if is_digit(b) {
        let v = st.cur * 10 + (b - 0x30);
        if v > 0xFFFF {
            ScanState { ok: false, ..st }
        } else {
            ScanState { cur: v as nat, has_digit: true, ..st }
        }
    } else if b == 0x3B && st.has_digit {
        ScanState { done: st.done.push(st.cur as u16), cur: 0, has_digit: false, ok: true }
    } else {
        ScanState { ok: false, ..st }
    }
}

pub open spec fn scan(s: Seq<u8>) -> ScanState
    decreases s.len(),
{
    if s.len() == 0 {
        ScanState { done: Seq::empty(), cur: 0, has_digit: false, ok: true }
    } else {
        scan_step(scan(s.drop_last()), s.last())
    }
}

/// The parameters of a control sequence: decimal numbers that fit in 16 bits,
/// separated by single `;`; none at all for an empty text.
pub open spec fn params_of(s: Seq<u8>) -> Option<Seq<u16>> {
    let st = scan(s);
    if !st.ok {
        None
    } else if st.has_digit {
        Some(st.done.push(st.cur as u16))
    } else if s.len() == 0 {
        Some(Seq::empty())
    } else {
        None
    }
}

pub open spec fn key_parsed(code: KeyCode) -> ParsedModel {
    ParsedModel::Complete(key_spec(code))
}

/// Keys of `ESC [ n ~`.
pub open spec fn tilde_key(n: u16) -> Option<KeyCode> {
    if n == 1 || n == 7 {
        Some(KeyCode::Home)
    } else if n == 2 {
        Some(KeyCode::Insert)
    } else if n == 3 {
        Some(KeyCode::Delete)
    } else if n == 4 || n == 8 {
        Some(KeyCode::End)
    } else if n == 5 {
        Some(KeyCode::PageUp)
    } else if n == 6 {
        Some(KeyCode::PageDown)
    } else if 11 <= n <= 15 {
        Some(KeyCode::F((n - 10) as u8))
    } else if 17 <= n <= 21 {
        Some(KeyCode::F((n - 11) as u8))
    } else if n == 23 || n == 24 {
        Some(KeyCode::F((n - 12) as u8))
    } else {
        None
    }
}

/// Cursor keys of `ESC [ f` and `ESC [ 1 ; m f`.
pub open spec fn cursor_key(f: u8) -> Option<KeyCode> {
    if f == 0x41 {
        Some(KeyCode::Up)
    } else if f == 0x42 {
        Some(KeyCode::Down)
    } else if f == 0x43 {
        Some(KeyCode::Right)
    } else if f == 0x44 {
        Some(KeyCode::Left)
    } else if f == 0x48 {
        Some(KeyCode::Home)
    } else if f == 0x46 {
        Some(KeyCode::End)
    } else {
        None
    }
}

/// A key with the modifiers of parameter `m` (at least 1): the bits of
/// `m - 1` are shift (1), alt (2) and control (4).
pub open spec fn modified_key(code: KeyCode, m: u16) -> ParsedModel {
    let bits = (m - 1) as u16;
    ParsedModel::Complete(
        EventOf::Key(KeyEvent { code, shift: bits & 1 != 0, ctrl: bits & 4 != 0, alt: bits & 2 != 0 }),
    )
}

/// Keys of `ESC [ f`, a final byte without parameters.
pub open spec fn csi_plain(f: u8) -> ParsedModel {
    if f == 0x41 {
        key_parsed(KeyCode::Up)
    } else if f == 0x42 {
        key_parsed(KeyCode::Down)
    } else if f == 0x43 {
        key_parsed(KeyCode::Right)
    } else if f == 0x44 {
        key_parsed(KeyCode::Left)
    } else if f == 0x48 {
        key_parsed(KeyCode::Home)
    } else if f == 0x46 {
        key_parsed(KeyCode::End)
    } else if f == 0x5A {
        key_parsed(KeyCode::BackTab)
    } else if f == 0x49 {
        ParsedModel::Complete(EventOf::FocusGained)
    } else if f == 0x4F {
        ParsedModel::Complete(EventOf::FocusLost)
    } else {
        ParsedModel::Invalid
    }
}

/// The event of a whole control sequence, from its parameters and final byte.
pub open spec fn csi_event(mouse: bool, ps: Seq<u16>, f: u8) -> ParsedModel {
    if mouse {
        if ps.len() == 3 && (f == 0x4D || f == 0x6D) && ps[1] > 0 && ps[2] > 0 {
            ParsedModel::Complete(
                EventOf::Mouse(
                    MouseEvent {
                        button: ps[0],
                        column: (ps[1] - 1) as u16,
                        row: (ps[2] - 1) as u16,
                        pressed: f == 0x4D,
                    },
                ),
            )
        } else {
            ParsedModel::Invalid
        }
    } else if ps.len() == 0 {
        csi_plain(f)
    } else if ps.len() == 1 && f == 0x7E {
        match tilde_key(ps[0]) {
            Some(code) => key_parsed(code),
            None => ParsedModel::Invalid,
        }
    } else if ps.len() == 2 && f == 0x7E && ps[1] > 0 && tilde_key(ps[0]).is_some() {
        modified_key(tilde_key(ps[0]).unwrap(), ps[1])
    } else if ps.len() == 2 && ps[0] == 1 && ps[1] > 0 && cursor_key(f).is_some() {
        modified_key(cursor_key(f).unwrap(), ps[1])
    } else if ps.len() == 2 && f == 0x52 && ps[0] > 0 && ps[1] > 0 {
        ParsedModel::Complete(EventOf::CursorPosition((ps[1] - 1) as u16, (ps[0] - 1) as u16))
    } else {
        ParsedModel::Invalid
    }
}

/// A mouse report in the older encoding `ESC [ M b x y`: three raw bytes,
/// the button code and the one-based cell, each offset by 32. Button code 3
/// (in its low two bits) is a release.
pub open spec fn classify_x10_mouse(b: Seq<u8>) -> ParsedModel {
    if b.len() < 6 {
        ParsedModel::Incomplete
    } else if b.len() == 6 && b[3] >= 32 && b[4] >= 33 && b[5] >= 33 {
        let button = (b[3] - 32) as u16;
        ParsedModel::Complete(
            EventOf::Mouse(
                MouseEvent {
                    button,
                    column: (b[4] - 33) as u16,
                    row: (b[5] - 33) as u16,
                    pressed: button & 3 != 3,
                },
            ),
        )
    } else {
        ParsedModel::Invalid
    }
}

/// A buffer that starts with `ESC [` and has at least one more byte.
pub open spec fn classify_csi(b: Seq<u8>) -> ParsedModel {
    let mouse = b[2] == 0x3C;
    let start: int = if mouse { 3 } else { 2 };
    let last = b.last();
    if b.len() == 3 && mouse {
        ParsedModel::Incomplete
    } else if is_param_byte(last) {
        if scan(b.subrange(start, b.len() as int)).ok && b.len() < CSI_MAX_LEN {
            ParsedModel::Incomplete
        } else {
            ParsedModel::Invalid
        }
    } else if is_final_byte(last) {
        match params_of(b.subrange(start, b.len() - 1)) {
            Some(ps) => csi_event(mouse, ps, last),
            None => ParsedModel::Invalid,
        }
    } else {
        ParsedModel::Invalid
    }
}

/// Longest bracketed paste kept while its end marker has not come.
pub const PASTE_MAX_LEN: usize = 16384;

/// A buffer that starts with `ESC [` and goes on with `200~`, the start
/// marker of a bracketed paste.
pub open spec fn is_paste_start(b: Seq<u8>) -> bool {
    b.len() >= 6 && b[2] == 0x32 && b[3] == 0x30 && b[4] == 0x30 && b[5] == 0x7E
}

/// A buffer that ends with `ESC [ 201 ~`, the end marker of a bracketed
/// paste, after the start marker.
pub open spec fn ends_paste(b: Seq<u8>) -> bool {
    let n = b.len() as int;
    n >= 12 && b[n - 6] == ESC && b[n - 5] == 0x5B && b[n - 4] == 0x32 && b[n - 3] == 0x30 && b[n
        - 2] == 0x31 && b[n - 1] == 0x7E
}

/// A bracketed paste: complete with the bytes between the markers once the
/// end marker arrives, incomplete before, invalid beyond the length cap.
pub open spec fn classify_paste(b: Seq<u8>) -> ParsedModel {
    if ends_paste(b) {
        ParsedModel::Complete(EventOf::Paste(b.subrange(6, b.len() - 6)))
    } else if b.len() < PASTE_MAX_LEN {
        ParsedModel::Incomplete
    } else {
        ParsedModel::Invalid
    }
}

/// Keys of `ESC O f`.
pub open spec fn ss3_key(f: u8) -> ParsedModel {
    if 0x50 <= f <= 0x53 {
        key_parsed(KeyCode::F((f - 0x4F) as u8))
    } else if f == 0x41 || f == 0x42 || f == 0x43 || f == 0x44 || f == 0x48 || f == 0x46 {
        csi_plain(f)
    } else {
        ParsedModel::Invalid
    }
}

/// A buffer of one byte that is not `ESC`.
pub open spec fn single_byte(c: u8) -> ParsedModel {
    if c == 0x0D || c == 0x0A {
        key_parsed(KeyCode::Enter)
    } else if c == 0x09 {
        key_parsed(KeyCode::Tab)
    } else if c == 0x7F || c == 0x08 {
        key_parsed(KeyCode::Backspace)
    } else if c == 0x00 {
        ParsedModel::Complete(EventOf::Key(KeyEvent { code: KeyCode::Char(0x20), shift: false, ctrl: true, alt: false }))
    } else if 0x01 <= c <= 0x1A {
        ParsedModel::Complete(
            EventOf::Key(KeyEvent { code: KeyCode::Char((c + 0x60) as u32), shift: false, ctrl: true, alt: false }),
        )
    } else if 0x1C <= c <= 0x1F {
        ParsedModel::Complete(
            EventOf::Key(KeyEvent { code: KeyCode::Char((c + 0x18) as u32), shift: false, ctrl: true, alt: false }),
        )
    } else if 0x20 <= c <= 0x7E {
        key_parsed(KeyCode::Char(c as u32))
    } else if utf8_width(c) > 0 {
        ParsedModel::Incomplete
    } else {
        ParsedModel::Invalid
    }
}

/// The code point of a whole UTF-8 character of 2 to 4 bytes.
pub open spec fn utf8_value(b: Seq<u8>) -> u32 {
    if b.len() == 2 {
        ((b[0] - 0xC0) * 64 + (b[1] - 0x80)) as u32
    } else if b.len() == 3 {
        ((b[0] - 0xE0) * 4096 + (b[1] - 0x80) * 64 + (b[2] - 0x80)) as u32
    } else {
        ((b[0] - 0xF0) * 262144 + (b[1] - 0x80) * 4096 + (b[2] - 0x80) * 64 + (b[3] - 0x80)) as u32
    }
}

/// A buffer of two or more bytes that does not start with `ESC`.
pub open spec fn classify_utf8(b: Seq<u8>) -> ParsedModel {
    let w = utf8_width(b[0]);
    if w == 0 || b.len() > w {
        ParsedModel::Invalid
    } else if !(utf8_second_ok(b[0], b[1]) && (b.len() > 2 ==> is_continuation(b[2])) && (b.len()
        > 3 ==> is_continuation(b[3]))) {
        ParsedModel::Invalid
    } else if b.len() < w {
        ParsedModel::Incomplete
    } else {
        key_parsed(KeyCode::Char(utf8_value(b)))
    }
}

/// What the bytes of `b` are, taken as one sequence. `more` tells whether
/// further bytes are expected at once: a lone `ESC` is the Escape key only
/// when none are.
pub open spec fn classify(b: Seq<u8>, more: bool) -> ParsedModel {
    if b.len() == 0 {
        ParsedModel::Incomplete
    } else if b[0] == ESC {
        if b.len() == 1 {
            if more {
                ParsedModel::Incomplete
            } else {
                key_parsed(KeyCode::Esc)
            }
        } else if b[1] == 0x5B {
            if b.len() == 2 {
                ParsedModel::Incomplete
            } else if is_paste_start(b) {
                classify_paste(b)
            } else if b[2] == 0x4D {
                classify_x10_mouse(b)
            } else {
                classify_csi(b)
            }
        } else if b[1] == 0x4F {
            if b.len() == 2 {
                ParsedModel::Incomplete
            } else if b.len() == 3 {
                ss3_key(b[2])
            } else {
                ParsedModel::Invalid
            }
        } else if b.len() == 2 && 0x20 <= b[1] <= 0x7E {
            ParsedModel::Complete(EventOf::Key(KeyEvent { code: KeyCode::Char(b[1] as u32), shift: false, ctrl: false, alt: true }))
        } else {
            ParsedModel::Invalid
        }
    } else if b.len() == 1 {
        single_byte(b[0])
    } else {
        classify_utf8(b)
    }
}

/// Every character decoded from bytes that start at 0x80 or above is a
/// Unicode scalar value: at most U+10FFFF and not a surrogate.
pub proof fn law_utf8_scalar(b: Seq<u8>, more: bool, k: KeyEvent)
    requires
        b.len() > 0,
        b[0] >= 0x80,
        classify(b, more) == ParsedModel::Complete(EventOf::Key(k)),
    ensures
        match k.code {
            KeyCode::Char(c) => c <= 0x10FFFF && !(0xD800 <= c <= 0xDFFF),
            _ => true,
        },
{
    if b.len() >= 2 {
        assert(classify(b, more) == classify_utf8(b));
        let w = utf8_width(b[0]);
        assert(b.len() == w);
        if w == 2 {
            assert(utf8_value(b) <= 0x7FF);
        } else if w == 3 {
            if b[0] == 0xED {
                assert(utf8_value(b) <= 0xD7FF);
            } else if b[0] < 0xED {
                assert(utf8_value(b) <= 0xCFFF);
            } else {
                assert(utf8_value(b) >= 0xE000);
                assert(utf8_value(b) <= 0xFFFF);
            }
        } else {
            assert(utf8_value(b) <= 0x10FFFF);
        }
    }
}

/// Result of scanning parameter bytes; the fields other than `ok` matter only
/// while `ok` holds.
pub struct ParamScan {
    pub done: Vec<u16>,
    pub cur: u16,
    pub has_digit: bool,
    pub ok: bool,
}

impl ParamScan {
    pub open spec fn matches(&self, st: ScanState) -> bool {
        &&& self.ok == st.ok
        &&& st.ok ==> {
            &&& self.done@ == st.done
            &&& self.cur as nat == st.cur
            &&& self.has_digit == st.has_digit
        }
    }
}

/// Scans `b[start..end]` as control-sequence parameters.
pub fn scan_params(b: &Vec<u8>, start: usize, end: usize) -> (r: ParamScan)
    requires
        start <= end <= b@.len(),
    ensures
        r.matches(scan(b@.subrange(start as int, end as int))),
{
    let mut r = ParamScan { done: Vec::new(), cur: 0, has_digit: false, ok: true };
    let mut i = start;
    assert(b@.subrange(start as int, start as int) =~= Seq::<u8>::empty());
    while i < end
        invariant
            start <= i <= end <= b@.len(),
            r.matches(scan(b@.subrange(start as int, i as int))),
        decreases end - i,
    {
        let ghost prev = scan(b@.subrange(start as int, i as int));
        assert(b@.subrange(start as int, i + 1).drop_last() =~= b@.subrange(start as int, i as int));
        let c = b[i];
        if r.ok {
            if 0x30 <= c && c <= 0x39 {
                let v: u32 = (r.cur as u32) * 10 + (c - 0x30) as u32;
                if v > 0xFFFF {
                    r.ok = false;
                } else {
                    r.cur = v as u16;
                    r.has_digit = true;
                }
            } else if c == 0x3B && r.has_digit {
                r.done.push(r.cur);
                r.cur = 0;
                r.has_digit = false;
            } else {
                r.ok = false;
            }
        }
        i = i + 1;
    }
    r
}

/// Computes `params_of(b[start..end])`.
pub fn parse_params(b: &Vec<u8>, start: usize, end: usize) -> (r: Option<Vec<u16>>)
    requires
        start <= end <= b@.len(),
    ensures
        match params_of(b@.subrange(start as int, end as int)) {
            Some(ps) => r.is_some() && r.unwrap()@ == ps,
            None => r.is_none(),
        },
{
    let mut sc = scan_params(b, start, end);
    if !sc.ok {
        None
    } else if sc.has_digit {
        sc.done.push(sc.cur);
        Some(sc.done)
    } else if start == end {
        Some(Vec::new())
    } else {
        None
    }
}

fn key_complete(code: KeyCode) -> (r: Parsed)
    ensures
        r@ == key_parsed(code),
{
    Parsed::Complete(key(code))
}

fn tilde_key_exec(n: u16) -> (r: Option<KeyCode>)
    ensures
        r == tilde_key(n),
{
    if n == 1 || n == 7 {
        Some(KeyCode::Home)
    } else if n == 2 {
        Some(KeyCode::Insert)
    } else if n == 3 {
        Some(KeyCode::Delete)
    } else if n == 4 || n == 8 {
        Some(KeyCode::End)
    } else if n == 5 {
        Some(KeyCode::PageUp)
    } else if n == 6 {
        Some(KeyCode::PageDown)
    } else if 11 <= n && n <= 15 {
        Some(KeyCode::F((n - 10) as u8))
    } else if 17 <= n && n <= 21 {
        Some(KeyCode::F((n - 11) as u8))
    } else if n == 23 || n == 24 {
        Some(KeyCode::F((n - 12) as u8))
    } else {
        None
    }
}

fn cursor_key_exec(f: u8) -> (r: Option<KeyCode>)
    ensures
        r == cursor_key(f),
{
    if f == 0x41 {
        Some(KeyCode::Up)
    } else if f == 0x42 {
        Some(KeyCode::Down)
    } else if f == 0x43 {
        Some(KeyCode::Right)
    } else if f == 0x44 {
        Some(KeyCode::Left)
    } else if f == 0x48 {
        Some(KeyCode::Home)
    } else if f == 0x46 {
        Some(KeyCode::End)
    } else {
        None
    }
}

fn modified_key_exec(code: KeyCode, m: u16) -> (r: Parsed)
    requires
        m > 0,
    ensures
        r@ == modified_key(code, m),
{
    let bits = m - 1;
    Parsed::Complete(
        EventOf::Key(KeyEvent { code, shift: bits & 1 != 0, ctrl: bits & 4 != 0, alt: bits & 2 != 0 }),
    )
}

fn csi_plain_exec(f: u8) -> (r: Parsed)
    ensures
        r@ == csi_plain(f),
{
    if f == 0x41 {
        key_complete(KeyCode::Up)
    } else if f == 0x42 {
        key_complete(KeyCode::Down)
    } else if f == 0x43 {
        key_complete(KeyCode::Right)
    } else if f == 0x44 {
        key_complete(KeyCode::Left)
    } else if f == 0x48 {
        key_complete(KeyCode::Home)
    } else if f == 0x46 {
        key_complete(KeyCode::End)
    } else if f == 0x5A {
        key_complete(KeyCode::BackTab)
    } else if f == 0x49 {
        Parsed::Complete(EventOf::FocusGained)
    } else if f == 0x4F {
        Parsed::Complete(EventOf::FocusLost)
    } else {
        Parsed::Invalid
    }
}

fn csi_event_exec(mouse: bool, ps: &Vec<u16>, f: u8) -> (r: Parsed)
    ensures
        r@ == csi_event(mouse, ps@, f),
{
    if mouse {
        if ps.len() == 3 && (f == 0x4D || f == 0x6D) && ps[1] > 0 && ps[2] > 0 {
            Parsed::Complete(
                EventOf::Mouse(
                    MouseEvent { button: ps[0], column: ps[1] - 1, row: ps[2] - 1, pressed: f == 0x4D },
                ),
            )
        } else {
            Parsed::Invalid
        }
    } else if ps.len() == 0 {
        csi_plain_exec(f)
    } else if ps.len() == 1 && f == 0x7E {
        match tilde_key_exec(ps[0]) {
            Some(code) => key_complete(code),
            None => Parsed::Invalid,
        }
    } else if ps.len() == 2 && f == 0x7E && ps[1] > 0 && tilde_key_exec(ps[0]).is_some() {
        match tilde_key_exec(ps[0]) {
            Some(code) => modified_key_exec(code, ps[1]),
            None => Parsed::Invalid,
        }
    } else if ps.len() == 2 && ps[0] == 1 && ps[1] > 0 && cursor_key_exec(f).is_some() {
        match cursor_key_exec(f) {
            Some(code) => modified_key_exec(code, ps[1]),
            None => Parsed::Invalid,
        }
    } else if ps.len() == 2 && f == 0x52 && ps[0] > 0 && ps[1] > 0 {
        Parsed::Complete(EventOf::CursorPosition(ps[1] - 1, ps[0] - 1))
    } else {
        Parsed::Invalid
    }
}

fn classify_csi_exec(b: &Vec<u8>) -> (r: Parsed)
    requires
        b@.len() >= 3,
    ensures
        r@ == classify_csi(b@),
{
    let len = b.len();
    let mouse = b[2] == 0x3C;
    let start: usize = if mouse { 3 } else { 2 };
    let last = b[len - 1];
    if len == 3 && mouse {
        Parsed::Incomplete
    } else if (0x30 <= last && last <= 0x39) || last == 0x3B {
        let sc = scan_params(b, start, len);
        if sc.ok && len < CSI_MAX_LEN {
            Parsed::Incomplete
        } else {
            Parsed::Invalid
        }
    } else if 0x40 <= last && last <= 0x7E {
        match parse_params(b, start, len - 1) {
            Some(ps) => csi_event_exec(mouse, &ps, last),
            None => Parsed::Invalid,
        }
    } else {
        Parsed::Invalid
    }
}

fn classify_paste_exec(b: &Vec<u8>) -> (r: Parsed)
    requires
        is_paste_start(b@),
    ensures
        r@ == classify_paste(b@),
{
    let n = b.len();
    if n >= 12 && b[n - 6] == ESC && b[n - 5] == 0x5B && b[n - 4] == 0x32 && b[n - 3] == 0x30 && b[n
        - 2] == 0x31 && b[n - 1] == 0x7E {
        let mut text: Vec<u8> = Vec::new();
        let mut i: usize = 6;
        while i < n - 6
            invariant
                n == b@.len(),
                6 <= i <= n - 6,
                text@ == b@.subrange(6, i as int),
            decreases n - 6 - i,
        {
            text.push(b[i]);
            assert(b@.subrange(6, i + 1) =~= b@.subrange(6, i as int).push(b@[i as int]));
            i = i + 1;
        }
        Parsed::Complete(EventOf::Paste(text))
    } else if n < PASTE_MAX_LEN {
        Parsed::Incomplete
    } else {
        Parsed::Invalid
    }
}

fn classify_x10_mouse_exec(b: &Vec<u8>) -> (r: Parsed)
    requires
        b@.len() >= 3,
    ensures
        r@ == classify_x10_mouse(b@),
{
    let n = b.len();
    if n < 6 {
        Parsed::Incomplete
    } else if n == 6 && b[3] >= 32 && b[4] >= 33 && b[5] >= 33 {
        let button = (b[3] - 32) as u16;
        Parsed::Complete(
            EventOf::Mouse(
                MouseEvent {
                    button,
                    column: (b[4] - 33) as u16,
                    row: (b[5] - 33) as u16,
                    pressed: button & 3 != 3,
                },
            ),
        )
    } else {
        Parsed::Invalid
    }
}

fn ss3_key_exec(f: u8) -> (r: Parsed)
    ensures
        r@ == ss3_key(f),
{
    if 0x50 <= f && f <= 0x53 {
        key_complete(KeyCode::F(f - 0x4F))
    } else if f == 0x41 || f == 0x42 || f == 0x43 || f == 0x44 || f == 0x48 || f == 0x46 {
        csi_plain_exec(f)
    } else {
        Parsed::Invalid
    }
}

fn utf8_width_exec(c: u8) -> (r: usize)
    ensures
        r as nat == utf8_width(c),
{
    if 0xC2 <= c && c <= 0xDF {
        2
    } else if 0xE0 <= c && c <= 0xEF {
        3
    } else if 0xF0 <= c && c <= 0xF4 {
        4
    } else {
        0
    }
}

fn single_byte_exec(c: u8) -> (r: Parsed)
    ensures
        r@ == single_byte(c),
{
    if c == 0x0D || c == 0x0A {
        key_complete(KeyCode::Enter)
    } else if c == 0x09 {
        key_complete(KeyCode::Tab)
    } else if c == 0x7F || c == 0x08 {
        key_complete(KeyCode::Backspace)
    } else if c == 0x00 {
        Parsed::Complete(EventOf::Key(KeyEvent { code: KeyCode::Char(0x20), shift: false, ctrl: true, alt: false }))
    } else if 0x01 <= c && c <= 0x1A {
        Parsed::Complete(
            EventOf::Key(KeyEvent { code: KeyCode::Char((c + 0x60) as u32), shift: false, ctrl: true, alt: false }),
        )
    } else if 0x1C <= c && c <= 0x1F {
        Parsed::Complete(
            EventOf::Key(KeyEvent { code: KeyCode::Char((c + 0x18) as u32), shift: false, ctrl: true, alt: false }),
        )
    } else if 0x20 <= c && c <= 0x7E {
        key_complete(KeyCode::Char(c as u32))
    } else if utf8_width_exec(c) > 0 {
        Parsed::Incomplete
    } else {
        Parsed::Invalid
    }
}

fn is_continuation_exec(c: u8) -> (r: bool)
    ensures
        r == is_continuation(c),
{
    0x80 <= c && c <= 0xBF
}

fn utf8_second_ok_exec(b0: u8, b1: u8) -> (r: bool)
    ensures
        r == utf8_second_ok(b0, b1),
{
    if b0 == 0xE0 {
        0xA0 <= b1 && b1 <= 0xBF
    } else if b0 == 0xED {
        0x80 <= b1 && b1 <= 0x9F
    } else if b0 == 0xF0 {
        0x90 <= b1 && b1 <= 0xBF
    } else if b0 == 0xF4 {
        0x80 <= b1 && b1 <= 0x8F
    } else {
        is_continuation_exec(b1)
    }
}

fn classify_utf8_exec(b: &Vec<u8>) -> (r: Parsed)
    requires
        b@.len() >= 2,
    ensures
        r@ == classify_utf8(b@),
{
    let len = b.len();
    let w = utf8_width_exec(b[0]);
    if w == 0 || len > w {
        Parsed::Invalid
    } else if !(utf8_second_ok_exec(b[0], b[1]) && (len <= 2 || is_continuation_exec(b[2])) && (len
        <= 3 || is_continuation_exec(b[3]))) {
        Parsed::Invalid
    } else if len < w {
        Parsed::Incomplete
    } else {
        let v: u32 = if len == 2 {
            (b[0] - 0xC0) as u32 * 64 + (b[1] - 0x80) as u32
        } else if len == 3 {
            (b[0] - 0xE0) as u32 * 4096 + (b[1] - 0x80) as u32 * 64 + (b[2] - 0x80) as u32
        } else {
            (b[0] - 0xF0) as u32 * 262144 + (b[1] - 0x80) as u32 * 4096 + (b[2] - 0x80) as u32 * 64
                + (b[3] - 0x80) as u32
        };
        key_complete(KeyCode::Char(v))
    }
}

/// Classifies the buffered bytes as one input sequence.
pub fn parse_event(b: &Vec<u8>, more: bool) -> (r: Parsed)
    ensures
        r@ == classify(b@, more),
{
    let len = b.len();
    if len == 0 {
        Parsed::Incomplete
    } else if b[0] == ESC {
        if len == 1 {
            if more {
                Parsed::Incomplete
            } else {
                key_complete(KeyCode::Esc)
            }
        } else if b[1] == 0x5B {
            if len == 2 {
                Parsed::Incomplete
            } else if len >= 6 && b[2] == 0x32 && b[3] == 0x30 && b[4] == 0x30 && b[5] == 0x7E {
                classify_paste_exec(b)
            } else if b[2] == 0x4D {
                classify_x10_mouse_exec(b)
            } else {
                classify_csi_exec(b)
            }
        } else if b[1] == 0x4F {
            if len == 2 {
                Parsed::Incomplete
            } else if len == 3 {
                ss3_key_exec(b[2])
            } else {
                Parsed::Invalid
            }
        } else if len == 2 && 0x20 <= b[1] && b[1] <= 0x7E {
            Parsed::Complete(
                EventOf::Key(KeyEvent { code: KeyCode::Char(b[1] as u32), shift: false, ctrl: false, alt: true }),
            )
        } else {
            Parsed::Invalid
        }
    } else if len == 1 {
        single_byte_exec(b[0])
    } else {
        classify_utf8_exec(b)
    }
}

} // verus!
