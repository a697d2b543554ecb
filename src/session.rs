//! The connection session: chosen port and rate, the optional live
//! connection, and the receive buffer that serial input is appended to.
use vstd::prelude::*;
use vstd::string::*;
use vstd::utf8::{decode_utf8, valid_utf8};
use crate::receive_text::ReceiveTextState;

verus! {

/// What one bounded read on the connection gave.
#[derive(Debug)]
pub enum ReadOutcome {
    /// The bytes that arrived; none when the read returned zero.
    Data(Vec<u8>),
    /// Nothing arrived before the read's timeout.
    TimedOut,
    /// Any other read error.
    Failed,
}

/// The baud rate that the session starts with.
pub const DEFAULT_BAUD_RATE: u32 = 9600;

pub open spec fn is_digit(c: char) -> bool {
    48 <= (c as u32) <= 57
}

/// The number that a run of decimal digits writes.
pub open spec fn digits_value(s: Seq<char>) -> nat
    decreases s.len(),
{
    if s.len() == 0 {
        0
    } else {
        digits_value(s.drop_last()) * 10 + ((s.last() as u32) - 48) as nat
    }
}

/// The digits of a rate label: what follows an optional leading `+`.
pub open spec fn rate_digits(s: Seq<char>) -> Seq<char> {
    if s.len() > 0 && s[0] == '+' {
        s.drop_first()
    } else {
        s
    }
}

/// The rate a label writes, as an unsigned decimal number is read: an
/// optional `+`, then one or more decimal digits whose value fits in a
/// `u32`.
pub open spec fn rate_of(s: Seq<char>) -> Option<u32> {
    let d = rate_digits(s);
    if d.len() > 0 && (forall|i: int| 0 <= i < d.len() ==> is_digit(#[trigger] d[i]))
        && digits_value(d) <= u32::MAX {
        Some(digits_value(d) as u32)
    } else {
        None
    }
}

/// Reads a rate label such as `115200`.
pub fn parse_rate(s: &str) -> (r: Option<u32>)
    ensures
        r == rate_of(s@),
{
    let n = s.unicode_len();
    let start: usize = if n > 0 && s.get_char(0) == '+' {
        1
    } else {
        0
    };
    let ghost d = rate_digits(s@);
    assert(d =~= s@.subrange(start as int, n as int));
    if n == start {
        return None;
    }
    let cap: u64 = 0x1_0000_0000;
    let mut acc: u64 = 0;
    let mut i: usize = start;
    while i < n
        invariant
            n == s@.len(),
            start <= i <= n,
            d == s@.subrange(start as int, n as int),
            d == rate_digits(s@),
            cap == u32::MAX + 1,
            forall|j: int| start <= j < i ==> is_digit(#[trigger] s@[j]),
            acc == (if digits_value(s@.subrange(start as int, i as int)) > u32::MAX {
                cap as nat
            } else {
                digits_value(s@.subrange(start as int, i as int))
            }),
        decreases n - i,
    {
        let c = s.get_char(i);
        let code = c as u32;
        if code < 48 || code > 57 {
            assert(d[i - start] == c);
            assert(!is_digit(d[i - start]));
            return None;
        }
        proof {
            let p = s@.subrange(start as int, i as int + 1);
            assert(p.drop_last() =~= s@.subrange(start as int, i as int));
            assert(p.last() == c);
        }
        let step = acc * 10 + (code - 48) as u64;
        acc = if step > u32::MAX as u64 {
            cap
        } else {
            step
        };
        i = i + 1;
    }
    assert forall|k: int| 0 <= k < d.len() implies is_digit(#[trigger] d[k]) by {
        assert(d[k] == s@[start + k]);
    }
    if acc > u32::MAX as u64 {
        None
    } else {
        Some(acc as u32)
    }
}

/// What `String::from_utf8_lossy` makes of a byte run.
pub uninterp spec fn lossy_text(b: Seq<u8>) -> Seq<char>;

/// Relies on `String::from_utf8_lossy`: the result depends on the bytes
/// alone, and valid UTF-8 decodes to exactly the characters it encodes.
#[verifier::external_body]
fn decode_lossy(b: &[u8]) -> (r: String)
    ensures
        r@ == lossy_text(b@),
        valid_utf8(b@) ==> r@ == decode_utf8(b@),
{
    String::from_utf8_lossy(b).into_owned()
}

/// The session over connection handles of type `H`. The handle is lent out
/// only for a read; whether it is kept is decided here.
#[derive(Debug)]
pub struct Session<H> {
    port_name: String,
    baud_rate: u32,
    connection: Option<H>,
    receive: ReceiveTextState,
}

impl<H> Session<H> {
    pub closed spec fn port(&self) -> Seq<char> {
        self.port_name@
    }

    pub closed spec fn rate(&self) -> u32 {
        self.baud_rate
    }

    pub closed spec fn link(&self) -> Option<H> {
        self.connection
    }

    pub closed spec fn received(&self) -> ReceiveTextState {
        self.receive
    }

    /// No port chosen, the default rate, no connection, nothing received.
    pub fn new() -> (r: Self)
        ensures
            r.port().len() == 0,
            r.rate() == DEFAULT_BAUD_RATE,
            r.link() is None,
            r.received().text().len() == 0,
            r.received().scroll_offset() == 0,
    {
        Session {
            port_name: String::new(),
            baud_rate: DEFAULT_BAUD_RATE,
            connection: None,
            receive: ReceiveTextState::new(),
        }
    }

    pub fn port_name(&self) -> (r: &str)
        ensures
            r@ == self.port(),
    {
        self.port_name.as_str()
    }

    pub fn baud_rate(&self) -> (r: u32)
        ensures
            r == self.rate(),
    {
        self.baud_rate
    }

    pub fn is_connected(&self) -> (r: bool)
        ensures
            r == self.link() is Some,
    {
        self.connection.is_some()
    }

    pub fn connection(&self) -> (r: Option<&H>)
        ensures
            match self.link() {
                Some(h) => r == Some(&h),
                None => r is None,
            },
    {
        match &self.connection {
            Some(h) => Some(h),
            None => None,
        }
    }

    /// Lends the live handle out for one read.
    pub fn connection_mut(&mut self) -> (r: Option<&mut H>)
        ensures
            final(self).port() == old(self).port(),
            final(self).rate() == old(self).rate(),
            final(self).received() == old(self).received(),
            match old(self).link() {
                None => r is None && final(self).link() is None,
                Some(h) => r is Some && *r.unwrap() == h && final(self).link() == Some(
                    *final(r.unwrap()),
                ),
            },
    {
        self.connection.as_mut()
    }

    pub fn receive_state(&self) -> (r: &ReceiveTextState)
        ensures
            *r == self.received(),
    {
        &self.receive
    }

    pub fn set_scroll(&mut self, scroll: u16)
        ensures
            final(self).port() == old(self).port(),
            final(self).rate() == old(self).rate(),
            final(self).link() == old(self).link(),
            final(self).received().text() == old(self).received().text(),
            final(self).received().scroll_offset() == scroll,
    {
        self.receive.set_scroll(scroll);
    }

    /// Chooses the port that the next open uses.
    pub fn select_port(&mut self, name: String)
        ensures
            final(self).port() == name@,
            final(self).rate() == old(self).rate(),
            final(self).link() == old(self).link(),
            final(self).received() == old(self).received(),
    {
        self.port_name = name;
    }

    /// Chooses the rate that the next open uses; a label that is not a rate
    /// leaves the rate as it was. Returns whether the label was a rate.
    pub fn select_rate(&mut self, label: &str) -> (r: bool)
        ensures
            r == rate_of(label@) is Some,
            final(self).rate() == (match rate_of(label@) {
                Some(v) => v,
                None => old(self).rate(),
            }),
            final(self).port() == old(self).port(),
            final(self).link() == old(self).link(),
            final(self).received() == old(self).received(),
    {
        match parse_rate(label) {
            Some(v) => {
                self.baud_rate = v;
                true
            },
            None => false,
        }
    }

    /// Takes the result of an attempt to open the chosen port: the new
    /// handle, or none when the attempt failed.
    pub fn finish_open(&mut self, opened: Option<H>)
        ensures
            final(self).link() == opened,
            final(self).port() == old(self).port(),
            final(self).rate() == old(self).rate(),
            final(self).received() == old(self).received(),
    {
        self.connection = opened;
    }

    /// Takes the outcome of one read on the connection. Bytes are decoded
    /// and appended; a timeout changes nothing; any other error drops the
    /// connection. Without a connection there is nothing to take. Returns
    /// whether the connection was dropped.
    pub fn apply_read(&mut self, outcome: ReadOutcome) -> (r: bool)
        ensures
            final(self).port() == old(self).port(),
            final(self).rate() == old(self).rate(),
            final(self).received().scroll_offset() == old(self).received().scroll_offset(),
            r == (old(self).link() is Some && outcome is Failed),
            (match outcome {
                ReadOutcome::Data(b) => b@.len() == 0,
                _ => false,
            }) ==> final(self).link() == old(self).link() && final(self).received() == old(self).received(),
            old(self).link() is None ==> final(self).link() is None && final(self).received()
                == old(self).received(),
            old(self).link() is Some ==> match outcome {
                ReadOutcome::Data(b) => final(self).link() == old(self).link()
                    && final(self).received().text() == old(self).received().text()
                    + lossy_text(b@),
                ReadOutcome::TimedOut => final(self).link() == old(self).link()
                    && final(self).received() == old(self).received(),
                ReadOutcome::Failed => final(self).link() is None && final(self).received()
                    == old(self).received(),
            },
    {
        if self.connection.is_none() {
            return false;
        }
        match outcome {
            ReadOutcome::Data(bytes) => {
                let text = decode_lossy(bytes.as_slice());
                if bytes.len() == 0 {
                    assert(valid_utf8(bytes@));
                    assert(text@ =~= seq![]);
                    assert(self.receive.text() + lossy_text(bytes@) =~= self.receive.text());
                    return false;
                }
                self.receive.append_text(text.as_str());
                false
            },
            ReadOutcome::TimedOut => false,
            ReadOutcome::Failed => {
                self.connection = None;
                true
            },
        }
    }
}

} // verus!
