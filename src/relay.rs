//! The decisions of the streaming relay, which forwards a live session to a
//! duplex connection: which symbols a subscription names, what is sent when
//! subscribing fails, and when the session is over.

use vstd::prelude::*;
use crate::error::{ServiceError, error_text};
use crate::model::LiveMessage;

verus! {

/// The pieces of `s` between commas, in order (one piece when `s` holds no
/// comma, empty pieces kept).
pub open spec fn split_commas(s: Seq<char>) -> Seq<Seq<char>>
    decreases s.len(),
{
    if s.len() == 0 {
        seq![Seq::<char>::empty()]
    } else {
        let rest = split_commas(s.drop_last());
        if s.last() == ',' {
            rest.push(Seq::<char>::empty())
        } else {
            rest.update(rest.len() - 1, rest.last().push(s.last()))
        }
    }
}

proof fn lemma_split_commas_nonempty(s: Seq<char>)
    ensures
        split_commas(s).len() >= 1,
    decreases s.len(),
{
    if s.len() > 0 {
        lemma_split_commas_nonempty(s.drop_last());
    }
}

/// Whether `c` has the Unicode `White_Space` property.
pub open spec fn is_white_space(c: char) -> bool {
    ||| '\u{9}' <= c <= '\u{d}'
    ||| c == ' '
    ||| c == '\u{85}'
    ||| c == '\u{a0}'
    ||| c == '\u{1680}'
    ||| '\u{2000}' <= c <= '\u{200a}'
    ||| c == '\u{2028}'
    ||| c == '\u{2029}'
    ||| c == '\u{202f}'
    ||| c == '\u{205f}'
    ||| c == '\u{3000}'
}

/// The text without its leading white space.
pub open spec fn trim_start(s: Seq<char>) -> Seq<char>
    decreases s.len(),
{
    if s.len() > 0 && is_white_space(s[0]) {
        trim_start(s.drop_first())
    } else {
        s
    }
}

/// The text without its trailing white space.
pub open spec fn trim_end(s: Seq<char>) -> Seq<char>
    decreases s.len(),
{
    if s.len() > 0 && is_white_space(s.last()) {
        trim_end(s.drop_last())
    } else {
        s
    }
}

/// The text without leading and trailing white space.
pub open spec fn trimmed(s: Seq<char>) -> Seq<char> {
    trim_end(trim_start(s))
}

/// Relies on `str::trim`: the text with leading and trailing characters of
/// the Unicode `White_Space` property removed.
#[verifier::external_body]
fn trim_text(s: &str) -> (r: String)
    ensures
        r@ == trimmed(s@),
{
    s.trim().to_string()
}

/// The pieces, trimmed, with the empty ones left out.
pub open spec fn kept_symbols(pieces: Seq<Seq<char>>) -> Seq<Seq<char>>
    decreases pieces.len(),
{
    if pieces.len() == 0 {
        Seq::empty()
    } else {
        let rest = kept_symbols(pieces.drop_last());
        let t = trimmed(pieces.last());
        if t.len() > 0 {
            rest.push(t)
        } else {
            rest
        }
    }
}

/// The symbols a comma-separated list names.
pub open spec fn symbol_list(s: Seq<char>) -> Seq<Seq<char>> {
    kept_symbols(split_commas(s))
}

/// The texts of a list of strings.
pub open spec fn texts_of(v: Seq<String>) -> Seq<Seq<char>> {
    v.map_values(|x: String| x@)
}

fn keep_piece(out: &mut Vec<String>, piece: &str, Ghost(done): Ghost<Seq<Seq<char>>>)
    requires
        texts_of(old(out)@) == kept_symbols(done),
    ensures
        texts_of(final(out)@) == kept_symbols(done.push(piece@)),
{
    assert(done.push(piece@).drop_last() =~= done);
    let t = trim_text(piece);
    if t.unicode_len() > 0 {
        out.push(t);
        assert(texts_of(out@) =~= texts_of(old(out)@).push(trimmed(piece@)));
    }
}

/// The symbols of a comma-separated list: each piece trimmed of white
/// space, empty pieces dropped.
pub fn split_symbols(text: &str) -> (r: Vec<String>)
    ensures
        texts_of(r@) == symbol_list(text@),
{
    let n = text.unicode_len();
    let mut out: Vec<String> = Vec::new();
    let mut start: usize = 0;
    let mut i: usize = 0;
    let ghost mut done: Seq<Seq<char>> = Seq::empty();
    assert(texts_of(out@) =~= kept_symbols(done));
    assert(text@.take(0) =~= Seq::<char>::empty());
    assert(split_commas(text@.take(0)) =~= done.push(text@.subrange(0, 0)));
    while i < n
        invariant
            n == text@.len(),
            start <= i <= n,
            split_commas(text@.take(i as int)) == done.push(text@.subrange(start as int, i as int)),
            texts_of(out@) == kept_symbols(done),
        decreases n - i,
    {
        let c = text.get_char(i);
        proof {
            assert(text@.take(i + 1).drop_last() =~= text@.take(i as int));
            assert(text@.take(i + 1).last() == c);
            lemma_split_commas_nonempty(text@.take(i as int));
        }
        if c == ',' {
            let piece = text.substring_char(start, i);
            keep_piece(&mut out, piece, Ghost(done));
            proof {
                done = done.push(piece@);
                assert(text@.subrange(i + 1, i + 1) =~= Seq::<char>::empty());
            }
            start = i + 1;
        } else {
            proof {
                assert(text@.subrange(start as int, i + 1) =~= text@.subrange(start as int, i as int).push(c));
                assert(split_commas(text@.take(i + 1)) =~= done.push(text@.subrange(start as int, i + 1)));
            }
        }
        i = i + 1;
    }
    let piece = text.substring_char(start, n);
    keep_piece(&mut out, piece, Ghost(done));
    assert(text@.take(n as int) =~= text@);
    out
}

/// The single message sent when a live subscription fails before streaming:
/// an `Error` carrying the error's text.
pub fn subscribe_failure_message(e: &ServiceError) -> (r: LiveMessage)
    ensures
        r matches LiveMessage::Error { message } && message@ == error_text(*e),
{
    LiveMessage::Error { message: e.message() }
}

/// A frame read from the client.
#[derive(Debug, Clone)]
pub enum InboundFrame {
    Text(String),
    Binary(Vec<u8>),
    Ping(Vec<u8>),
    Pong(Vec<u8>),
    Close,
}

/// What happened on one side of a relayed session.
#[derive(Debug, Clone)]
pub enum RelayEvent {
    /// A message was written to the client.
    Sent,
    /// Writing to the client failed: the peer is likely gone.
    SendFailed,
    /// The live sequence has no more messages.
    StreamFinished,
    /// A frame came in from the client.
    Received(InboundFrame),
    /// Reading from the client failed or its side ended.
    ReceiveFinished,
}

/// Whether an event lets the session go on: only a successful write and an
/// incoming frame other than a close do.
pub open spec fn keeps_open(ev: RelayEvent) -> bool {
    match ev {
        RelayEvent::Sent => true,
        RelayEvent::Received(f) => !(f is Close),
        _ => false,
    }
}

/// A relayed live session: open until either side ends, then over as a
/// whole.
pub struct RelaySession {
    pub open: bool,
}

impl RelaySession {
    /// A session that has just started streaming.
    pub fn new() -> (r: RelaySession)
        ensures
            r.open,
    {
        RelaySession { open: true }
    }

    /// Takes an event of either side into account and says whether the
    /// session goes on. Once over, it stays over.
    pub fn on_event(&mut self, ev: &RelayEvent) -> (r: bool)
        ensures
            final(self).open == (old(self).open && keeps_open(*ev)),
            r == final(self).open,
    {
        let keep = match ev {
            RelayEvent::Sent => true,
            RelayEvent::Received(f) => !matches!(f, InboundFrame::Close),
            _ => false,
        };
        self.open = self.open && keep;
        self.open
    }
}

} // verus!
