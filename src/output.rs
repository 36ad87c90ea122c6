use vstd::prelude::*;
use crate::error::SinkError;
use crate::event::Event;

verus! {

/// A consumer of events: the console, or a remote transport.
pub trait Output {
    fn emit(&mut self, event: Event) -> Result<(), SinkError>;
}

/// The text that `String::from_utf8_lossy` makes of the bytes `b`.
pub uninterp spec fn lossy_text(b: Seq<u8>) -> Seq<char>;

/// Relies on `String::from_utf8_lossy`: the bytes decoded as UTF-8, with each
/// invalid sequence replaced; the text depends on the bytes alone.
#[verifier::external_body]
fn decode_lossy(b: &[u8]) -> (r: String)
    ensures
        r@ == lossy_text(b@),
{
    String::from_utf8_lossy(b).into_owned()
}

/// What `char::is_whitespace` holds of: the characters of Unicode's
/// White_Space property.
pub open spec fn is_white_space(c: char) -> bool {
    let n = c as u32;
    (9 <= n <= 13) || n == 32 || n == 0x85 || n == 0xa0 || n == 0x1680 || (0x2000 <= n
        <= 0x200a) || n == 0x2028 || n == 0x2029 || n == 0x202f || n == 0x205f || n == 0x3000
}

/// `s` without its trailing whitespace.
pub open spec fn strip_trailing(s: Seq<char>) -> Seq<char>
    decreases s.len(),
{
    if s.len() > 0 && is_white_space(s.last()) {
        strip_trailing(s.drop_last())
    } else {
        s
    }
}

/// Relies on `str::trim_end`: the text without the trailing characters for
/// which `char::is_whitespace` holds.
#[verifier::external_body]
fn trim_text_end(s: String) -> (r: String)
    ensures
        r@ == strip_trailing(s@),
{
    s.trim_end().to_string()
}

/// The line that the console prints for `payload`: decoded permissively,
/// trailing whitespace and terminators removed.
pub fn render_line(payload: &[u8]) -> (r: String)
    ensures
        r@ == strip_trailing(lossy_text(payload@)),
{
    trim_text_end(decode_lossy(payload))
}

/// The console sink. It renders each event as one line and holds the lines
/// until the caller writes them out.
pub struct Console {
    pub lines: Vec<String>,
}

impl Console {
    pub fn new() -> (r: Console)
        ensures
            r.lines@.len() == 0,
    {
        Console { lines: Vec::new() }
    }

    /// Renders `event` as the next line.
    pub fn write_event(&mut self, event: &Event)
        ensures
            final(self).lines@.len() == old(self).lines@.len() + 1,
            forall|k: int| 0 <= k < old(self).lines@.len() ==> final(self).lines@[k] == old(self).lines@[k],
            final(self).lines@.last()@ == strip_trailing(lossy_text(event.payload@)),
    {
        let line = render_line(event.payload.as_slice());
        self.lines.push(line);
    }

    /// Hands out the lines rendered so far, leaving none.
    pub fn take_lines(&mut self) -> (r: Vec<String>)
        ensures
            r@ == old(self).lines@,
            final(self).lines@.len() == 0,
    {
        let mut out: Vec<String> = Vec::new();
        std::mem::swap(&mut out, &mut self.lines);
        out
    }
}

impl Output for Console {
    /// Renders `event` as the next line; the console never refuses one.
    fn emit(&mut self, event: Event) -> (r: Result<(), SinkError>)
        ensures
            r is Ok,
            final(self).lines@.len() == old(self).lines@.len() + 1,
            forall|k: int| 0 <= k < old(self).lines@.len() ==> final(self).lines@[k] == old(self).lines@[k],
            final(self).lines@.last()@ == strip_trailing(lossy_text(event.payload@)),
    {
        self.write_event(&event);
        Ok(())
    }
}

/// Offers `event` to every sink once, in order, whatever the others answer:
/// one sink's failure neither stops nor skips another. The answers come back
/// in the order of the sinks; none of them is an error of the pipeline.
pub fn deliver_all<O: Output>(sinks: &mut Vec<O>, event: &Event) -> (r: Vec<Result<(), SinkError>>)
    ensures
        r@.len() == old(sinks)@.len(),
        final(sinks)@.len() == old(sinks)@.len(),
{
    let n = sinks.len();
    let mut done: Vec<O> = Vec::new();
    let mut r: Vec<Result<(), SinkError>> = Vec::new();
    let mut i: usize = 0;
    while i < n
        invariant
            n == old(sinks)@.len(),
            i <= n,
            sinks@.len() == n - i,
            done@.len() == i,
            r@.len() == i,
        decreases n - i,
    {
        let mut s = sinks.remove(0);
        let answer = s.emit(event.clone());
        r.push(answer);
        done.push(s);
        i = i + 1;
    }
    std::mem::swap(sinks, &mut done);
    r
}

/// The indices among the first `n` answers that are errors, in order.
pub open spec fn failed_upto(answers: Seq<Result<(), SinkError>>, n: int) -> Seq<usize>
    decreases n,
{
    if n <= 0 {
        seq![]
    } else if answers[n - 1] is Err {
        failed_upto(answers, n - 1).push((n - 1) as usize)
    } else {
        failed_upto(answers, n - 1)
    }
}

/// The sinks that refused an event, by index, from the answers that
/// `deliver_all` gave back. The event counts as delivered all the same:
/// these are reported, never retried here.
pub fn failed_sinks(answers: &Vec<Result<(), SinkError>>) -> (r: Vec<usize>)
    ensures
        r@ == failed_upto(answers@, answers@.len() as int),
{
    let mut r: Vec<usize> = Vec::new();
    let mut i: usize = 0;
    while i < answers.len()
        invariant
            i <= answers@.len(),
            r@ == failed_upto(answers@, i as int),
        decreases answers@.len() - i,
    {
        if answers[i].is_err() {
            r.push(i);
        }
        i = i + 1;
    }
    r
}

} // verus!
