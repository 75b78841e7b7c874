//! Raw terminal bytes → key events, as they arrive over a remote channel:
//! printable UTF-8, control characters, and CSI/SS3 escape sequences.
//! Incomplete escape sequences and split UTF-8 characters are buffered
//! across feeds.

use vstd::prelude::*;
use vstd::utf8::{decode_utf8, valid_utf8};

use std::collections::VecDeque;

use crate::keys::{KeyCode, KeyEvent, KeyModifiers, control_only, no_mods};
use crate::order::{first_from, lemma_first_from_found, lemma_first_from_none};
use crate::session::SessionEvent;
use crate::text::chars_of;

verus! {

/// Cap on a buffered-but-unterminated CSI sequence before it is dropped:
/// this bounds the pending buffer against a client that never sends a
/// final byte.
pub const MAX_CSI_LEN: usize = 32;

/// One step of parsing.
#[derive(Debug, Clone, Copy, PartialEq, Eq, Structural)]
pub enum Parsed {
    /// A complete event, consuming this many bytes.
    Event(KeyEvent, usize),
    /// Unrecognized-but-complete input, consuming this many bytes.
    Skip(usize),
    /// More bytes are needed.
    Incomplete,
}

/// Whether `c` is an uppercase letter (Unicode `Uppercase`), as std's
/// `char::is_uppercase` decides.
pub uninterp spec fn is_upper(c: char) -> bool;

/// std's `char::is_uppercase`; its result is named by [`is_upper`].
#[verifier::external_body]
fn uppercase(c: char) -> (r: bool)
    ensures
        r == is_upper(c),
{
    c.is_uppercase()
}

/// std's `str::from_utf8`: the text when the bytes are valid UTF-8.
#[verifier::external_body]
fn utf8_text(bytes: &[u8]) -> (r: Option<String>)
    ensures
        r matches Some(s) ==> valid_utf8(bytes@) && s@ == decode_utf8(bytes@),
        r is None ==> !valid_utf8(bytes@),
{
    match std::str::from_utf8(bytes) {
        Ok(s) => Some(s.to_owned()),
        Err(_) => None,
    }
}

pub open spec fn plain(code: KeyCode) -> KeyEvent {
    KeyEvent { code, modifiers: no_mods() }
}

/// The first byte at or after 2 that ends a CSI sequence (0x40..=0x7e).
pub open spec fn csi_final(buf: Seq<u8>) -> Option<int> {
    first_from(2, buf.len() as int, final_byte_at(buf))
}

pub open spec fn final_byte_at(buf: Seq<u8>) -> spec_fn(int) -> bool {
    |i: int| 0x40 <= buf[i] <= 0x7e
}

/// The key a `~`-terminated CSI sequence names by its parameter (one
/// digit: 1/7 Home, 3 Delete, 4/8 End, 5 PageUp, 6 PageDown).
pub open spec fn tilde_key(param: Seq<u8>) -> Option<KeyCode> {
    if param.len() != 1 {
        None
    } else {
        let c = param[0];
        if c == 0x31 || c == 0x37 {
            Some(KeyCode::Home)
        } else if c == 0x33 {
            Some(KeyCode::Delete)
        } else if c == 0x34 || c == 0x38 {
            Some(KeyCode::End)
        } else if c == 0x35 {
            Some(KeyCode::PageUp)
        } else if c == 0x36 {
            Some(KeyCode::PageDown)
        } else {
            None
        }
    }
}

/// The key a CSI sequence names by its final byte (and parameter).
pub open spec fn csi_key(fin: u8, param: Seq<u8>) -> Option<KeyCode> {
    if fin == 0x41 {
        Some(KeyCode::Up)
    } else if fin == 0x42 {
        Some(KeyCode::Down)
    } else if fin == 0x43 {
        Some(KeyCode::Right)
    } else if fin == 0x44 {
        Some(KeyCode::Left)
    } else if fin == 0x48 {
        Some(KeyCode::Home)
    } else if fin == 0x46 {
        Some(KeyCode::End)
    } else if fin == 0x5a {
        Some(KeyCode::BackTab)
    } else if fin == 0x7e {
        tilde_key(param)
    } else {
        None
    }
}

/// `ESC [` ...: up to the final byte, or buffered until it comes, or
/// dropped when it runs past [`MAX_CSI_LEN`] without one.
pub open spec fn parse_csi_spec(buf: Seq<u8>) -> Parsed {
    match csi_final(buf) {
        Some(i) => match csi_key(buf[i], buf.subrange(2, i)) {
            Some(k) => Parsed::Event(plain(k), (i + 1) as usize),
            None => Parsed::Skip((i + 1) as usize),
        },
        None => if buf.len() > MAX_CSI_LEN {
            Parsed::Skip(buf.len() as usize)
        } else {
            Parsed::Incomplete
        },
    }
}

/// The key an SS3 sequence (`ESC O x`) names.
pub open spec fn ss3_key(b: u8) -> Option<KeyCode> {
    if b == 0x41 {
        Some(KeyCode::Up)
    } else if b == 0x42 {
        Some(KeyCode::Down)
    } else if b == 0x43 {
        Some(KeyCode::Right)
    } else if b == 0x44 {
        Some(KeyCode::Left)
    } else if b == 0x48 {
        Some(KeyCode::Home)
    } else if b == 0x46 {
        Some(KeyCode::End)
    } else {
        None
    }
}

/// Input starting with ESC: a lone ESC waits, `[` starts CSI, `O` starts
/// SS3, ESC + printable ASCII is Alt+char, anything else is Esc.
pub open spec fn parse_escape_spec(buf: Seq<u8>) -> Parsed {
    if buf.len() < 2 {
        Parsed::Incomplete
    } else if buf[1] == 0x5b {
        parse_csi_spec(buf)
    } else if buf[1] == 0x4f {
        if buf.len() < 3 {
            Parsed::Incomplete
        } else {
            match ss3_key(buf[2]) {
                Some(k) => Parsed::Event(plain(k), 3),
                None => Parsed::Skip(3),
            }
        }
    } else if 0x20 <= buf[1] < 0x7f {
        Parsed::Event(
            KeyEvent {
                code: KeyCode::Char(buf[1] as char),
                modifiers: KeyModifiers { alt: true, ..no_mods() },
            },
            2,
        )
    } else {
        Parsed::Event(plain(KeyCode::Esc), 1)
    }
}

/// The length of a UTF-8 sequence by its first byte (0 for a stray
/// continuation byte).
pub open spec fn utf8_len(b: u8) -> int {
    if b < 0x80 {
        1
    } else if 0xc0 <= b < 0xe0 {
        2
    } else if 0xe0 <= b < 0xf0 {
        3
    } else if b >= 0xf0 {
        4
    } else {
        0
    }
}

/// A printable character: Shift when it is uppercase.
pub open spec fn parse_utf8_spec(buf: Seq<u8>) -> Parsed {
    let n = utf8_len(buf[0]);
    if n == 0 {
        Parsed::Skip(1)
    } else if buf.len() < n {
        Parsed::Incomplete
    } else if valid_utf8(buf.take(n)) {
        let c = decode_utf8(buf.take(n))[0];
        Parsed::Event(
            KeyEvent {
                code: KeyCode::Char(c),
                modifiers: if is_upper(c) {
                    KeyModifiers { shift: true, ..no_mods() }
                } else {
                    no_mods()
                },
            },
            n as usize,
        )
    } else {
        Parsed::Skip(1)
    }
}

/// One step of parsing the buffered bytes.
pub open spec fn parse_one_spec(buf: Seq<u8>) -> Parsed {
    if buf.len() == 0 {
        Parsed::Incomplete
    } else {
        let b = buf[0];
        if b == 0x1b {
            parse_escape_spec(buf)
        } else if b == 0x0d || b == 0x0a {
            Parsed::Event(plain(KeyCode::Enter), 1)
        } else if b == 0x09 {
            Parsed::Event(plain(KeyCode::Tab), 1)
        } else if b == 0x7f || b == 0x08 {
            Parsed::Event(plain(KeyCode::Backspace), 1)
        } else if 0x01 <= b <= 0x1a {
            Parsed::Event(
                KeyEvent { code: KeyCode::Char((b + 0x60) as char), modifiers: control_only() },
                1,
            )
        } else if b == 0x00 || 0x1c <= b <= 0x1f {
            Parsed::Skip(1)
        } else {
            parse_utf8_spec(buf)
        }
    }
}

/// All the events in `buf`, and the bytes left over (an incomplete
/// sequence at the end).
pub open spec fn parse_all(buf: Seq<u8>) -> (Seq<KeyEvent>, Seq<u8>)
    decreases buf.len(),
{
    match parse_one_spec(buf) {
        Parsed::Event(e, n) => if 1 <= n <= buf.len() {
            let (es, rest) = parse_all(buf.skip(n as int));
            (seq![e] + es, rest)
        } else {
            (Seq::empty(), buf)
        },
        Parsed::Skip(n) => if 1 <= n <= buf.len() {
            parse_all(buf.skip(n as int))
        } else {
            (Seq::empty(), buf)
        },
        Parsed::Incomplete => (Seq::empty(), buf),
    }
}

/// A parse step consumes at least one byte and no more than there are.
pub open spec fn consumes_some(p: Parsed, len: int) -> bool {
    match p {
        Parsed::Event(_, n) => 1 <= n <= len,
        Parsed::Skip(n) => 1 <= n <= len,
        Parsed::Incomplete => true,
    }
}

fn key(code: KeyCode) -> (r: KeyEvent)
    ensures
        r == plain(code),
{
    KeyEvent { code, modifiers: KeyModifiers::none() }
}

fn parse_csi(buf: &Vec<u8>, s: usize) -> (r: Parsed)
    requires
        s + 2 <= buf@.len(),
        buf@[s as int] == 0x1b,
        buf@[s + 1] == 0x5b,
    ensures
        r == parse_csi_spec(buf@.skip(s as int)),
        consumes_some(r, buf@.len() - s),
{
    let ghost t = buf@.skip(s as int);
    let ghost p = final_byte_at(t);
    let n = buf.len();
    let mut i = s + 2;
    while i < buf.len()
        invariant
            s + 2 <= i <= buf@.len(),
            t == buf@.skip(s as int),
            p == final_byte_at(t),
            forall|j: int| 2 <= j < i - s ==> !#[trigger] p(j),
        decreases buf.len() - i,
    {
        let b = buf[i];
        if 0x40 <= b && b <= 0x7e {
            proof {
                assert(t[i - s] == b);
                lemma_first_from_found(2, (i - s) as int, t.len() as int, p);
                assert(csi_final(t) == Some((i - s) as int));
            }
            let used = i - s + 1;
            let ev = if b == 0x41 {
                Some(KeyCode::Up)
            } else if b == 0x42 {
                Some(KeyCode::Down)
            } else if b == 0x43 {
                Some(KeyCode::Right)
            } else if b == 0x44 {
                Some(KeyCode::Left)
            } else if b == 0x48 {
                Some(KeyCode::Home)
            } else if b == 0x46 {
                Some(KeyCode::End)
            } else if b == 0x5a {
                Some(KeyCode::BackTab)
            } else if b == 0x7e {
                let len = i - s - 2;
                let c = if len == 1 {
                    buf[s + 2]
                } else {
                    0
                };
                proof {
                    let param = t.subrange(2, (i - s) as int);
                    if len == 1 {
                        assert(param[0] == c);
                    }
                }
                if len == 1 && (c == 0x31 || c == 0x37) {
                    Some(KeyCode::Home)
                } else if len == 1 && c == 0x33 {
                    Some(KeyCode::Delete)
                } else if len == 1 && (c == 0x34 || c == 0x38) {
                    Some(KeyCode::End)
                } else if len == 1 && c == 0x35 {
                    Some(KeyCode::PageUp)
                } else if len == 1 && c == 0x36 {
                    Some(KeyCode::PageDown)
                } else {
                    None
                }
            } else {
                None
            };
            proof {
                assert(t[(i - s) as int] == b);
                assert(ev == csi_key(b, t.subrange(2, (i - s) as int)));
            }
            return match ev {
                Some(k) => Parsed::Event(key(k), used),
                None => Parsed::Skip(used),
            };
        }
        proof {
            assert(t[i - s] == b);
        }
        i = i + 1;
    }
    proof {
        lemma_first_from_none(2, t.len() as int, p);
    }
    if buf.len() - s > MAX_CSI_LEN {
        Parsed::Skip(buf.len() - s)
    } else {
        Parsed::Incomplete
    }
}

fn parse_escape(buf: &Vec<u8>, s: usize) -> (r: Parsed)
    requires
        s < buf@.len(),
        buf@[s as int] == 0x1b,
    ensures
        r == parse_escape_spec(buf@.skip(s as int)),
        consumes_some(r, buf@.len() - s),
{
    let n = buf.len();
    if n - s < 2 {
        return Parsed::Incomplete;
    }
    let b1 = buf[s + 1];
    if b1 == 0x5b {
        parse_csi(buf, s)
    } else if b1 == 0x4f {
        if n - s < 3 {
            return Parsed::Incomplete;
        }
        let b2 = buf[s + 2];
        let k = if b2 == 0x41 {
            Some(KeyCode::Up)
        } else if b2 == 0x42 {
            Some(KeyCode::Down)
        } else if b2 == 0x43 {
            Some(KeyCode::Right)
        } else if b2 == 0x44 {
            Some(KeyCode::Left)
        } else if b2 == 0x48 {
            Some(KeyCode::Home)
        } else if b2 == 0x46 {
            Some(KeyCode::End)
        } else {
            None
        };
        match k {
            Some(k) => Parsed::Event(key(k), 3),
            None => Parsed::Skip(3),
        }
    } else if 0x20 <= b1 && b1 < 0x7f {
        Parsed::Event(KeyEvent::new(KeyCode::Char(b1 as char), KeyModifiers::alt()), 2)
    } else {
        Parsed::Event(key(KeyCode::Esc), 1)
    }
}

fn parse_utf8(buf: &Vec<u8>, s: usize) -> (r: Parsed)
    requires
        s < buf@.len(),
    ensures
        r == parse_utf8_spec(buf@.skip(s as int)),
        consumes_some(r, buf@.len() - s),
{
    let b = buf[s];
    let len: usize = if b < 0x80 {
        1
    } else if 0xc0 <= b && b < 0xe0 {
        2
    } else if 0xe0 <= b && b < 0xf0 {
        3
    } else if b >= 0xf0 {
        4
    } else {
        return Parsed::Skip(1);
    };
    let n = buf.len();
    if n - s < len {
        return Parsed::Incomplete;
    }
    let mut bytes: Vec<u8> = Vec::new();
    let mut k = s;
    while k < s + len
        invariant
            s <= k <= s + len <= buf@.len(),
            n == buf@.len(),
            bytes@ == buf@.subrange(s as int, k as int),
        decreases s + len - k,
    {
        bytes.push(buf[k]);
        proof {
            assert(bytes@ =~= buf@.subrange(s as int, k + 1));
        }
        k = k + 1;
    }
    proof {
        assert(bytes@ =~= buf@.skip(s as int).take(len as int));
    }
    match utf8_text(bytes.as_slice()) {
        Some(text) => {
            let cs = chars_of(text.as_str());
            proof {
                assert(decode_utf8(bytes@).len() > 0);
            }
            let c = cs[0];
            let m = if uppercase(c) {
                KeyModifiers::shift()
            } else {
                KeyModifiers::none()
            };
            Parsed::Event(KeyEvent::new(KeyCode::Char(c), m), len)
        },
        None => Parsed::Skip(1),
    }
}

/// One step of parsing `buf[s..]`.
fn parse_one(buf: &Vec<u8>, s: usize) -> (r: Parsed)
    requires
        s <= buf@.len(),
    ensures
        r == parse_one_spec(buf@.skip(s as int)),
        consumes_some(r, buf@.len() - s),
{
    if s >= buf.len() {
        return Parsed::Incomplete;
    }
    let b = buf[s];
    if b == 0x1b {
        parse_escape(buf, s)
    } else if b == 0x0d || b == 0x0a {
        Parsed::Event(key(KeyCode::Enter), 1)
    } else if b == 0x09 {
        Parsed::Event(key(KeyCode::Tab), 1)
    } else if b == 0x7f || b == 0x08 {
        Parsed::Event(key(KeyCode::Backspace), 1)
    } else if 0x01 <= b && b <= 0x1a {
        Parsed::Event(KeyEvent::new(KeyCode::Char((b + 0x60) as char), KeyModifiers::control()), 1)
    } else if b == 0x00 || (0x1c <= b && b <= 0x1f) {
        Parsed::Skip(1)
    } else {
        parse_utf8(buf, s)
    }
}

/// `buf` starts with a CSI sequence that ran past [`MAX_CSI_LEN`] with no
/// final byte: the parser drops everything buffered.
pub open spec fn is_runaway(buf: Seq<u8>) -> bool {
    &&& buf.len() >= 2
    &&& buf[0] == 0x1b
    &&& buf[1] == 0x5b
    &&& csi_final(buf) is None
    &&& buf.len() > MAX_CSI_LEN
}

/// Parsing `buf` ends by dropping a runaway CSI sequence.
pub open spec fn ends_in_runaway(buf: Seq<u8>) -> bool
    decreases buf.len(),
{
    match parse_one_spec(buf) {
        Parsed::Event(_, n) => 1 <= n <= buf.len() && ends_in_runaway(buf.skip(n as int)),
        Parsed::Skip(n) => is_runaway(buf) || (1 <= n <= buf.len() && ends_in_runaway(
            buf.skip(n as int),
        )),
        Parsed::Incomplete => false,
    }
}

/// A parse step consumes at least one byte and at most all of them.
pub proof fn lemma_parse_one_consumes(buf: Seq<u8>)
    requires
        buf.len() <= usize::MAX,
    ensures
        consumes_some(parse_one_spec(buf), buf.len() as int),
{
    if buf.len() >= 2 && buf[0] == 0x1b && buf[1] == 0x5b {
        crate::order::lemma_first_from_props(2, buf.len() as int, final_byte_at(buf));
    }
}

/// A complete parse step does not change when more bytes follow (unless
/// it dropped a runaway CSI sequence, which a later final byte would end).
proof fn lemma_parse_one_extends(x: Seq<u8>, y: Seq<u8>)
    requires
        !(parse_one_spec(x) is Incomplete),
        !is_runaway(x),
    ensures
        parse_one_spec(x + y) == parse_one_spec(x),
{
    let xy = x + y;
    assert(x.len() > 0);
    assert(xy[0] == x[0]);
    if x.len() >= 2 {
        assert(xy[1] == x[1]);
    }
    if x.len() >= 3 {
        assert(xy[2] == x[2]);
    }
    if x[0] == 0x1b && x.len() >= 2 && x[1] == 0x5b {
        let px = final_byte_at(x);
        let pxy = final_byte_at(xy);
        crate::order::lemma_first_from_props(2, x.len() as int, px);
        match csi_final(x) {
            Some(i) => {
                assert forall|j: int| 2 <= j < i implies !#[trigger] pxy(j) by {
                    assert(xy[j] == x[j]);
                    assert(!px(j));
                }
                assert(xy[i] == x[i]);
                lemma_first_from_found(2, i, xy.len() as int, pxy);
                assert(xy.subrange(2, i) =~= x.subrange(2, i));
            },
            None => {},
        }
    }
    let n = utf8_len(x[0]);
    if n > 0 && x.len() >= n {
        assert(xy.take(n) =~= x.take(n));
    }
}

/// Feeding bytes in two pieces gives the same keys, and leaves the same
/// bytes buffered, as feeding them at once, unless the first piece ends
/// inside a CSI sequence already longer than [`MAX_CSI_LEN`]. (The bytes
/// must fit in memory: their count is at most `usize::MAX`.)
pub proof fn law_feed_in_pieces(x: Seq<u8>, y: Seq<u8>)
    requires
        !ends_in_runaway(x),
        x.len() + y.len() <= usize::MAX,
    ensures
        parse_all(x + y) == (parse_all(x).0 + parse_all(parse_all(x).1 + y).0, parse_all(
            parse_all(x).1 + y,
        ).1),
    decreases x.len(),
{
    lemma_parse_one_consumes(x);
    match parse_one_spec(x) {
        Parsed::Incomplete => {
            assert(Seq::<KeyEvent>::empty() + parse_all(x + y).0 =~= parse_all(x + y).0);
        },
        Parsed::Event(e, n) => {
            lemma_parse_one_extends(x, y);
            let rest = x.skip(n as int);
            assert((x + y).skip(n as int) =~= rest + y);
            law_feed_in_pieces(rest, y);
            assert(seq![e] + (parse_all(rest).0 + parse_all(parse_all(rest).1 + y).0) =~= (seq![e]
                + parse_all(rest).0) + parse_all(parse_all(rest).1 + y).0);
        },
        Parsed::Skip(n) => {
            lemma_parse_one_extends(x, y);
            let rest = x.skip(n as int);
            assert((x + y).skip(n as int) =~= rest + y);
            law_feed_in_pieces(rest, y);
        },
    }
}

/// What stays buffered after parsing is short: at most [`MAX_CSI_LEN`]
/// bytes, whatever the input.
pub proof fn law_pending_bounded(buf: Seq<u8>)
    requires
        buf.len() <= usize::MAX,
    ensures
        parse_all(buf).1.len() <= MAX_CSI_LEN,
    decreases buf.len(),
{
    lemma_parse_one_consumes(buf);
    match parse_one_spec(buf) {
        Parsed::Event(_, n) => law_pending_bounded(buf.skip(n as int)),
        Parsed::Skip(n) => law_pending_bounded(buf.skip(n as int)),
        Parsed::Incomplete => {},
    }
}

/// Incremental parser: feed byte chunks, get key events.
#[derive(Debug, Clone)]
pub struct Parser {
    pending: Vec<u8>,
}

impl View for Parser {
    type V = Seq<u8>;

    /// The bytes buffered for the next feed.
    closed spec fn view(&self) -> Seq<u8> {
        self.pending@
    }
}

impl Parser {
    pub fn new() -> (r: Self)
        ensures
            r@ == Seq::<u8>::empty(),
    {
        Parser { pending: Vec::new() }
    }

    /// Consumes `bytes`, returning every completed event; an incomplete
    /// trailing sequence stays buffered for the next feed.
    pub fn feed(&mut self, bytes: &[u8]) -> (r: Vec<KeyEvent>)
        ensures
            (r@, final(self)@) == parse_all(old(self)@ + bytes@),
    {
        let mut buf: Vec<u8> = Vec::new();
        let mut k: usize = 0;
        while k < self.pending.len()
            invariant
                k <= self.pending@.len(),
                self.pending@ == old(self).pending@,
                buf@ == self.pending@.take(k as int),
            decreases self.pending.len() - k,
        {
            buf.push(self.pending[k]);
            proof {
                assert(buf@ =~= self.pending@.take(k + 1));
            }
            k = k + 1;
        }
        let mut j: usize = 0;
        while j < bytes.len()
            invariant
                j <= bytes@.len(),
                self.pending@ == old(self).pending@,
                buf@ == self.pending@ + bytes@.take(j as int),
            decreases bytes.len() - j,
        {
            buf.push(bytes[j]);
            proof {
                assert(buf@ =~= self.pending@ + bytes@.take(j + 1));
            }
            j = j + 1;
        }
        proof {
            assert(bytes@.take(bytes@.len() as int) =~= bytes@);
            assert(buf@.skip(0) =~= buf@);
        }
        let ghost total = buf@;
        let mut out: Vec<KeyEvent> = Vec::new();
        let mut s: usize = 0;
        loop
            invariant
                s <= buf@.len(),
                total == buf@,
                total == old(self)@ + bytes@,
                parse_all(total) == (out@ + parse_all(total.skip(s as int)).0, parse_all(
                    total.skip(s as int),
                ).1),
            ensures
                s <= buf@.len(),
                total == buf@,
                parse_all(total) == (out@ + parse_all(total.skip(s as int)).0, parse_all(
                    total.skip(s as int),
                ).1),
                parse_one_spec(total.skip(s as int)) is Incomplete,
            decreases buf.len() - s,
        {
            let p = parse_one(&buf, s);
            match p {
                Parsed::Event(ev, used) => {
                    proof {
                        assert(total.skip(s as int).skip(used as int) =~= total.skip(s + used));
                        assert(out@.push(ev) + parse_all(total.skip(s + used)).0 =~= out@ + (seq![ev]
                            + parse_all(total.skip(s + used)).0));
                    }
                    out.push(ev);
                    s = s + used;
                },
                Parsed::Skip(used) => {
                    proof {
                        assert(total.skip(s as int).skip(used as int) =~= total.skip(s + used));
                    }
                    s = s + used;
                },
                Parsed::Incomplete => {
                    break ;
                },
            }
        }
        let mut rest: Vec<u8> = Vec::new();
        let mut m = s;
        while m < buf.len()
            invariant
                s <= m <= buf@.len(),
                rest@ == buf@.subrange(s as int, m as int),
            decreases buf.len() - m,
        {
            rest.push(buf[m]);
            proof {
                assert(rest@ =~= buf@.subrange(s as int, m + 1));
            }
            m = m + 1;
        }
        proof {
            assert(rest@ =~= total.skip(s as int));
            assert(out@ + Seq::<KeyEvent>::empty() =~= out@);
        }
        self.pending = rest;
        out
    }

    /// A buffered lone ESC as an Esc press, for when no continuation bytes
    /// are coming (an idle read).
    pub fn flush(&mut self) -> (r: Option<KeyEvent>)
        ensures
            old(self)@ == seq![0x1bu8] ==> r == Some(plain(KeyCode::Esc)) && final(self)@.len() == 0,
            old(self)@ != seq![0x1bu8] ==> r is None && final(self)@ == old(self)@,
    {
        if self.pending.len() == 1 && self.pending[0] == 0x1b {
            proof {
                assert(self.pending@ =~= seq![0x1bu8]);
            }
            self.pending = Vec::new();
            return Some(key(KeyCode::Esc));
        }
        proof {
            if self.pending@.len() == 1 && self.pending@[0] == 0x1b {
                assert(self.pending@ =~= seq![0x1bu8]);
            }
        }
        None
    }
}

/// The events `keys` arrive as.
pub open spec fn key_events(keys: Seq<KeyEvent>) -> Seq<SessionEvent> {
    keys.map_values(|k: KeyEvent| SessionEvent::Key(k))
}

/// Headless session: bytes in through [`ByteSession::feed_bytes`], resizes
/// and refreshes injected, events out through [`ByteSession::next_event`].
/// It never blocks: an empty queue is a `Tick`, like a poll timeout.
#[derive(Debug, Clone)]
pub struct ByteSession {
    parser: Parser,
    queue: VecDeque<SessionEvent>,
}

impl ByteSession {
    /// The events waiting, oldest first.
    pub closed spec fn queued(&self) -> Seq<SessionEvent> {
        self.queue@
    }

    /// The bytes the parser holds back.
    pub closed spec fn pending(&self) -> Seq<u8> {
        self.parser@
    }

    pub fn new() -> (r: Self)
        ensures
            r.queued().len() == 0,
            r.pending().len() == 0,
    {
        ByteSession { parser: Parser::new(), queue: VecDeque::new() }
    }

    /// Feeds raw terminal bytes; every completed key is queued.
    pub fn feed_bytes(&mut self, bytes: &[u8])
        ensures
            final(self).queued() == old(self).queued() + key_events(
                parse_all(old(self).pending() + bytes@).0,
            ),
            final(self).pending() == parse_all(old(self).pending() + bytes@).1,
    {
        let keys = self.parser.feed(bytes);
        let ghost start = self.queue@;
        let ghost after = self.parser;
        for i in 0..keys.len()
            invariant
                self.queue@ == start + key_events(keys@.take(i as int)),
                self.parser == after,
        {
            self.queue.push_back(SessionEvent::Key(keys[i]));
            proof {
                assert(key_events(keys@.take(i + 1)) =~= key_events(keys@.take(i as int)).push(
                    SessionEvent::Key(keys@[i as int]),
                ));
            }
        }
        proof {
            assert(keys@.take(keys@.len() as int) =~= keys@);
        }
    }

    /// Queues a terminal resize (it arrives out of band from the bytes).
    pub fn inject_resize(&mut self, cols: u16, rows: u16)
        ensures
            final(self).queued() == old(self).queued().push(SessionEvent::Resize(cols, rows)),
            final(self).pending() == old(self).pending(),
    {
        self.queue.push_back(SessionEvent::Resize(cols, rows));
    }

    /// Queues a data-changed notice.
    pub fn inject_refresh(&mut self)
        ensures
            final(self).queued() == old(self).queued().push(SessionEvent::Refresh),
            final(self).pending() == old(self).pending(),
    {
        self.queue.push_back(SessionEvent::Refresh);
    }

    /// The next event: the oldest queued one; when idle, a buffered lone
    /// ESC as an Esc press; otherwise a tick.
    pub fn next_event(&mut self) -> (r: SessionEvent)
        ensures
            old(self).queued().len() > 0 ==> r == old(self).queued()[0] && final(self).queued()
                == old(self).queued().drop_first() && final(self).pending() == old(self).pending(),
            old(self).queued().len() == 0 && old(self).pending() == seq![0x1bu8] ==> r
                == SessionEvent::Key(plain(KeyCode::Esc)) && final(self).queued().len() == 0
                && final(self).pending().len() == 0,
            old(self).queued().len() == 0 && old(self).pending() != seq![0x1bu8] ==> r
                == SessionEvent::Tick && final(self).queued().len() == 0 && final(self).pending()
                == old(self).pending(),
    {
        match self.queue.pop_front() {
            Some(ev) => {
                proof {
                    assert(self.queue@ =~= old(self).queue@.drop_first());
                }
                return ev;
            },
            None => {},
        }
        match self.parser.flush() {
            Some(k) => SessionEvent::Key(k),
            None => SessionEvent::Tick,
        }
    }
}

} // verus!
