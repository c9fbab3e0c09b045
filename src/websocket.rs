//! The market and user event clients: their endpoints, and what each kind of
//! incoming frame becomes before any JSON is decoded.

use vstd::prelude::*;
use crate::error::Error;
use crate::signing::{decimal_digits, u64_to_decimal};

verus! {

/// The kinds of WebSocket frame a connection yields.
#[derive(Clone, Copy, Debug, PartialEq, Eq)]
pub enum FrameKind {
    Text,
    Binary,
    Ping,
    Pong,
    Close,
    Frame,
}

/// What becomes of one frame.
#[derive(Clone, Debug, PartialEq, Eq)]
pub enum Disposition {
    /// Nothing reaches the consumer.
    Skip,
    /// The text is decoded as an event (or an array of them).
    Decode,
    /// The consumer is handed this error.
    Fail(Error),
}

/// The error text of a binary frame, which neither channel sends.
pub const BINARY_FRAME_MESSAGE: &'static str = "Unexpected binary message";

/// Which event of a decoded text message reaches the consumer.
#[derive(Clone, Copy, Debug, PartialEq, Eq)]
pub enum EventSelection {
    /// The message is one event.
    Whole,
    /// The message is an array: this element is the event.
    Element(usize),
    /// The message is an empty array: no event.
    Nothing,
}

/// Picks the event of a text message, given the length of the array it holds
/// (`None` where it is not an array). Of an array only the first element is
/// surfaced: the exchange sends singleton arrays, and whether further elements
/// can occur is an open question, so the rest are not fanned out.
pub fn select_event(array_len: Option<usize>) -> (r: EventSelection)
    ensures
        array_len is None ==> r == EventSelection::Whole,
        array_len == Some(0usize) ==> r == EventSelection::Nothing,
        array_len matches Some(n) && n > 0 ==> r == EventSelection::Element(0),
{
    match array_len {
        None => EventSelection::Whole,
        Some(0) => EventSelection::Nothing,
        Some(_) => EventSelection::Element(0),
    }
}

/// The characters that `char::is_whitespace` accepts: Unicode `White_Space`.
pub open spec fn is_unicode_whitespace(c: char) -> bool {
    let u = c as u32;
    (0x09 <= u <= 0x0D) || u == 0x20 || u == 0x85 || u == 0xA0 || u == 0x1680 || (0x2000 <= u <= 0x200A)
        || u == 0x2028 || u == 0x2029 || u == 0x202F || u == 0x205F || u == 0x3000
}

/// Relies on `char::is_whitespace`, documented as the Unicode `White_Space` property.
#[verifier::external_body]
fn is_whitespace(c: char) -> (r: bool)
    ensures
        r == is_unicode_whitespace(c),
{
    c.is_whitespace()
}

/// `s` with leading and trailing whitespace removed, as `str::trim` does.
pub open spec fn trimmed(s: Seq<char>) -> Seq<char> {
    let i = first_kept(s, 0);
    let j = last_kept(s, s.len() as int);
    if i < j {
        s.subrange(i, j)
    } else {
        Seq::<char>::empty()
    }
}

/// The index of the first non-whitespace character at or after `i`, or the length.
pub open spec fn first_kept(s: Seq<char>, i: int) -> int
    decreases s.len() - i,
{
    if i >= s.len() || i < 0 {
        s.len() as int
    } else if is_unicode_whitespace(s[i]) {
        first_kept(s, i + 1)
    } else {
        i
    }
}

/// One past the index of the last non-whitespace character before `j`, or zero.
pub open spec fn last_kept(s: Seq<char>, j: int) -> int
    decreases j,
{
    if j <= 0 || j > s.len() {
        0
    } else if is_unicode_whitespace(s[j - 1]) {
        last_kept(s, j - 1)
    } else {
        j
    }
}

/// `a` equals the lowercase ASCII word `w` when letters are compared without case.
pub open spec fn eq_ignore_ascii_case(a: Seq<char>, w: Seq<char>) -> bool {
    a.len() == w.len() && forall|i: int| 0 <= i < a.len() ==> #[trigger] a[i] == w[i]
        || (a[i] as u32) + 32 == (w[i] as u32) && 'a' <= w[i] <= 'z'
}

/// Market-channel text that carries no event: blank, or a textual keep-alive.
pub open spec fn is_idle_text(text: Seq<char>) -> bool {
    let t = trimmed(text);
    t.len() == 0 || eq_ignore_ascii_case(t, seq!['p', 'i', 'n', 'g']) || eq_ignore_ascii_case(t, seq!['p', 'o', 'n', 'g'])
}

fn first_kept_index(s: &str) -> (r: usize)
    ensures
        r as int == first_kept(s@, 0),
{
    let n = s.unicode_len();
    let mut i: usize = 0;
    while i < n && is_whitespace(s.get_char(i))
        invariant
            n == s@.len(),
            i <= n,
            first_kept(s@, 0) == first_kept(s@, i as int),
        decreases n - i,
    {
        i = i + 1;
    }
    i
}

fn last_kept_index(s: &str) -> (r: usize)
    ensures
        r as int == last_kept(s@, s@.len() as int),
{
    let n = s.unicode_len();
    let mut j: usize = n;
    while j > 0 && is_whitespace(s.get_char(j - 1))
        invariant
            n == s@.len(),
            j <= n,
            last_kept(s@, n as int) == last_kept(s@, j as int),
        decreases j,
    {
        j = j - 1;
    }
    j
}

/// Whether `s` is `word` (lowercase ASCII) in any mix of case.
fn matches_word(s: &str, start: usize, end: usize, word: &str) -> (r: bool)
    requires
        start <= end <= s@.len(),
    ensures
        r == eq_ignore_ascii_case(s@.subrange(start as int, end as int), word@),
{
    let n = word.unicode_len();
    if end - start != n {
        return false;
    }
    let mut i: usize = 0;
    while i < n
        invariant
            n == word@.len(),
            end - start == n,
            start <= end <= s@.len(),
            i <= n,
            forall|k: int| 0 <= k < i ==> #[trigger] s@.subrange(start as int, end as int)[k] == word@[k]
                || (s@.subrange(start as int, end as int)[k] as u32) + 32 == (word@[k] as u32) && 'a' <= word@[k] <= 'z',
        decreases n - i,
    {
        let a = s.get_char(start + i);
        let w = word.get_char(i);
        if !(a == w || ((a as u32) + 32 == (w as u32) && 'a' <= w && w <= 'z')) {
            assert(s@.subrange(start as int, end as int)[i as int] == a);
            return false;
        }
        i = i + 1;
    }
    true
}

/// Decides what a market-channel frame becomes; `text` is the frame's text
/// (empty for frames without text). Blank text and textual keep-alives are
/// skipped and other text is decoded; a close is `ConnectionClosed`, a binary
/// frame a `WebSocket` error; control frames are skipped.
pub fn market_disposition(kind: FrameKind, text: &str) -> (r: Disposition)
    ensures
        kind is Text && is_idle_text(text@) ==> r == Disposition::Skip,
        kind is Text && !is_idle_text(text@) ==> r == Disposition::Decode,
        kind is Close ==> r == Disposition::Fail(Error::ConnectionClosed),
        kind is Binary ==> (r matches Disposition::Fail(Error::WebSocket(m)) && m@ == BINARY_FRAME_MESSAGE@),
        kind is Ping || kind is Pong || kind is Frame ==> r == Disposition::Skip,
{
    match kind {
        FrameKind::Text => {
            let start = first_kept_index(text);
            let end = last_kept_index(text);
            proof {
                lemma_first_kept_bounds(text@, 0);
                lemma_last_kept_bounds(text@, text@.len() as int);
            }
            if start >= end {
                return Disposition::Skip;
            }
            proof {
                reveal_strlit("ping");
                reveal_strlit("pong");
            }
            if matches_word(text, start, end, "ping") || matches_word(text, start, end, "pong") {
                Disposition::Skip
            } else {
                Disposition::Decode
            }
        },
        FrameKind::Close => Disposition::Fail(Error::ConnectionClosed),
        FrameKind::Binary => Disposition::Fail(Error::WebSocket(String::from_str(BINARY_FRAME_MESSAGE))),
        _ => Disposition::Skip,
    }
}

/// The error text of a user-channel close frame.
pub open spec fn close_message(code: u16, reason: Seq<char>) -> Seq<char> {
    "Connection closed: code="@ + decimal_digits(code as nat) + ", reason="@ + reason
}

/// The disposition of a user-channel close: `ConnectionClosed` without a
/// frame, a `WebSocket` error naming the frame's code and reason with one.
pub open spec fn closes_with(close_frame: Option<(u16, &str)>, r: Disposition) -> bool {
    match close_frame {
        None => r == Disposition::Fail(Error::ConnectionClosed),
        Some((code, reason)) => r matches Disposition::Fail(Error::WebSocket(m)) && m@ == close_message(code, reason@),
    }
}

/// Decides what a user-channel frame becomes: text is decoded; a close with a
/// frame is a `WebSocket` error naming its code and reason, one without is
/// `ConnectionClosed`; a binary frame is a `WebSocket` error; control frames are skipped.
pub fn user_disposition(kind: FrameKind, close_frame: Option<(u16, &str)>) -> (r: Disposition)
    ensures
        kind is Text ==> r == Disposition::Decode,
        kind is Close ==> closes_with(close_frame, r),
        kind is Binary ==> (r matches Disposition::Fail(Error::WebSocket(m)) && m@ == BINARY_FRAME_MESSAGE@),
        kind is Ping || kind is Pong || kind is Frame ==> r == Disposition::Skip,
{
    match kind {
        FrameKind::Text => Disposition::Decode,
        FrameKind::Close => match close_frame {
            Some((code, reason)) => {
                let mut m = String::from_str("Connection closed: code=");
                let digits = u64_to_decimal(code as u64);
                m.append(digits.as_str());
                m.append(", reason=");
                m.append(reason);
                Disposition::Fail(Error::WebSocket(m))
            },
            None => Disposition::Fail(Error::ConnectionClosed),
        },
        FrameKind::Binary => Disposition::Fail(Error::WebSocket(String::from_str(BINARY_FRAME_MESSAGE))),
        _ => Disposition::Skip,
    }
}

/// Default endpoint of the market channel.
pub const MARKET_WS_URL: &'static str = "wss://ws-subscriptions-clob.polymarket.com/ws/market";

/// Default endpoint of the user channel.
pub const USER_WS_URL: &'static str = "wss://ws-subscriptions-clob.polymarket.com/ws/user";

/// Client of the public market channel (order book updates).
#[derive(Clone, Debug)]
pub struct MarketWsClient {
    pub ws_url: String,
}

impl MarketWsClient {
    pub const DEFAULT_WS_URL: &'static str = MARKET_WS_URL;

    /// A client of the default endpoint.
    pub fn new() -> (r: MarketWsClient)
        ensures
            r.ws_url@ == MARKET_WS_URL@,
    {
        MarketWsClient { ws_url: String::from_str(MARKET_WS_URL) }
    }

    /// A client of another endpoint.
    pub fn with_url(ws_url: &str) -> (r: MarketWsClient)
        ensures
            r.ws_url@ == ws_url@,
    {
        MarketWsClient { ws_url: String::from_str(ws_url) }
    }
}

/// Client of the private user channel (own trades and orders).
#[derive(Clone, Debug)]
pub struct UserWsClient {
    pub ws_url: String,
}

impl UserWsClient {
    pub const DEFAULT_WS_URL: &'static str = USER_WS_URL;

    /// A client of the default endpoint.
    pub fn new() -> (r: UserWsClient)
        ensures
            r.ws_url@ == USER_WS_URL@,
    {
        UserWsClient { ws_url: String::from_str(USER_WS_URL) }
    }

    /// A client of another endpoint.
    pub fn with_url(ws_url: &str) -> (r: UserWsClient)
        ensures
            r.ws_url@ == ws_url@,
    {
        UserWsClient { ws_url: String::from_str(ws_url) }
    }
}

impl Default for MarketWsClient {
    fn default() -> (r: MarketWsClient)
        ensures
            r.ws_url@ == MARKET_WS_URL@,
    {
        MarketWsClient::new()
    }
}

impl Default for UserWsClient {
    fn default() -> (r: UserWsClient)
        ensures
            r.ws_url@ == USER_WS_URL@,
    {
        UserWsClient::new()
    }
}

proof fn lemma_first_kept_bounds(s: Seq<char>, i: int)
    requires
        0 <= i,
    ensures
        0 <= first_kept(s, i) <= s.len(),
    decreases s.len() - i,
{
    if i < s.len() && is_unicode_whitespace(s[i]) {
        lemma_first_kept_bounds(s, i + 1);
    }
}

proof fn lemma_last_kept_bounds(s: Seq<char>, j: int)
    requires
        j <= s.len(),
    ensures
        0 <= last_kept(s, j) <= s.len(),
    decreases j,
{
    if j > 0 && is_unicode_whitespace(s[j - 1]) {
        lemma_last_kept_bounds(s, j - 1);
    }
}

} // verus!
