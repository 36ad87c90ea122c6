use vstd::prelude::*;
use crate::error::Error;
use crate::event::{now_timestamp, timestamp_of, timestamp_spec, Event};
use crate::record::{
    TERMINATOR, find_terminator, first_terminator, has_terminator, is_boundary, lemma_first_terminator_props,
    lemma_resume_complement, records,
};

verus! {

/// The payloads of `v`, in order.
pub open spec fn payloads(v: Seq<Event>) -> Seq<Seq<u8>> {
    v.map_values(|e: Event| e.payload@)
}

/// The bytes `data[lo..hi]` as a new vector.
fn copy_range(data: &[u8], lo: usize, hi: usize) -> (r: Vec<u8>)
    requires
        lo <= hi <= data@.len(),
    ensures
        r@ == data@.subrange(lo as int, hi as int),
{
    let mut r: Vec<u8> = Vec::new();
    let mut i: usize = lo;
    while i < hi
        invariant
            lo <= i <= hi <= data@.len(),
            r@ == data@.subrange(lo as int, i as int),
        decreases hi - i,
    {
        r.push(data[i]);
        i = i + 1;
        assert(r@ == data@.subrange(lo as int, i as int));
    }
    r
}

/// The read cursor of one file: the byte offset of the next unread record,
/// and the bytes read past it that form no complete record yet. The file
/// itself is read by the caller, who hands its bytes over with `feed`.
pub struct FileSource {
    pub path: String,
    position: u64,
    pending: Vec<u8>,
    closed: bool,
    read: Ghost<Seq<u8>>,
}

impl FileSource {
    /// The path the records come from.
    pub closed spec fn source_path(&self) -> Seq<char> {
        self.path@
    }

    /// Byte offset of the next unread record.
    pub closed spec fn position(&self) -> nat {
        self.position as nat
    }

    /// Bytes read at `position` and not yet turned into events.
    pub closed spec fn pending(&self) -> Seq<u8> {
        self.pending@
    }

    /// Every byte handed over since the cursor was made.
    pub closed spec fn read_bytes(&self) -> Seq<u8> {
        self.read@
    }

    /// The stream ended and its unterminated tail was turned into an event.
    pub closed spec fn is_closed(&self) -> bool {
        self.closed
    }

    /// How many of `read_bytes` are already turned into events.
    pub open spec fn consumed(&self) -> int {
        self.read_bytes().len() - self.pending().len()
    }

    /// The pending bytes are what follows the consumed ones, and the consumed
    /// ones end at a record boundary unless the stream was closed, which
    /// leaves nothing pending.
    pub open spec fn wf(&self) -> bool {
        &&& self.position() + self.pending().len() <= u64::MAX
        &&& self.pending().len() <= self.read_bytes().len()
        &&& self.read_bytes().subrange(self.consumed(), self.read_bytes().len() as int)
            == self.pending()
        &&& (self.is_closed() || is_boundary(self.read_bytes(), self.consumed()))
        &&& (self.is_closed() ==> self.pending().len() == 0)
    }

    /// A cursor on `path` at byte offset `position`, or at the start.
    pub fn new(path: String, position: Option<u64>) -> (r: FileSource)
        ensures
            r.wf(),
            r.source_path() == path@,
            r.position() == (match position {
                Some(p) => p,
                None => 0u64,
            }),
            r.pending() == Seq::<u8>::empty(),
            r.read_bytes() == Seq::<u8>::empty(),
            !r.is_closed(),
    {
        let start: u64 = match position {
            Some(p) => p,
            None => 0,
        };
        let r = FileSource {
            path,
            position: start,
            pending: Vec::new(),
            closed: false,
            read: Ghost(Seq::empty()),
        };
        assert(r.read@.subrange(0, 0) =~= r.pending@);
        r
    }

    /// The byte offset of the next unread record: where a later run resumes.
    pub fn current_position(&self) -> (r: u64)
        ensures
            r == self.position(),
    {
        self.position
    }

    /// How many bytes are held that form no event yet.
    pub fn pending_len(&self) -> (r: usize)
        ensures
            r == self.pending().len(),
    {
        self.pending.len()
    }

    /// Resuming at the cursor loses and repeats nothing: the records of all
    /// bytes read are those of the consumed bytes followed by those of the
    /// pending ones.
    pub proof fn lemma_cursor_resume(&self)
        requires
            self.wf(),
        ensures
            records(self.read_bytes()) == records(
                self.read_bytes().subrange(0, self.consumed()),
            ) + records(self.pending()),
    {
        let rd = self.read_bytes();
        let c = self.consumed();
        if is_boundary(rd, c) {
            lemma_resume_complement(rd, c);
        } else {
            assert(rd.subrange(0, c) =~= rd);
            assert(records(self.pending()) == Seq::<Seq<u8>>::empty()) by {
                reveal_with_fuel(records, 1);
            }
            assert(records(rd) + records(self.pending()) == records(rd));
        }
    }

    /// Hands over the next bytes read from the file. A closed cursor takes
    /// no more bytes.
    pub fn feed(&mut self, chunk: &[u8])
        requires
            old(self).wf(),
            old(self).position() + old(self).pending().len() + chunk@.len() <= u64::MAX,
        ensures
            final(self).wf(),
            final(self).source_path() == old(self).source_path(),
            final(self).position() == old(self).position(),
            old(self).is_closed() ==> *final(self) == *old(self),
            !old(self).is_closed() ==> final(self).pending() == old(self).pending() + chunk@,
            !old(self).is_closed() ==> final(self).read_bytes() == old(self).read_bytes() + chunk@,
            final(self).is_closed() == old(self).is_closed(),
    {
        if self.closed {
            return;
        }
        let ghost r0 = self.read@;
        self.read = Ghost(self.read@ + chunk@);
        let mut i: usize = 0;
        while i < chunk.len()
            invariant
                i <= chunk@.len(),
                self.source_path() == old(self).source_path(),
                self.position == old(self).position,
                self.closed == old(self).closed,
                !self.closed,
                self.read@ == old(self).read@ + chunk@,
                self.pending@ == old(self).pending@ + chunk@.subrange(0, i as int),
            decreases chunk@.len() - i,
        {
            self.pending.push(chunk[i]);
            i = i + 1;
            assert(self.pending@ == old(self).pending@ + chunk@.subrange(0, i as int));
        }
        assert(chunk@.subrange(0, chunk@.len() as int) == chunk@);
        proof {
            let c = r0.len() - old(self).pending@.len();
            assert(self.read@.subrange(c, self.read@.len() as int) =~= self.pending@);
            if c > 0 {
                assert(self.read@[c - 1] == r0[c - 1]);
            }
        }
    }

    /// What one read step did: either no complete record was pending and
    /// nothing changed, or the first one became `e` and the cursor moved past
    /// its terminator.
    pub open spec fn read_step(pre: FileSource, post: FileSource, r: Option<Event>) -> bool {
        let i = first_terminator(pre.pending()) as int;
        &&& post.source_path() == pre.source_path()
        &&& post.wf()
        &&& post.read_bytes() == pre.read_bytes()
        &&& post.is_closed() == pre.is_closed()
        &&& match r {
            None => !has_terminator(pre.pending()) && post.pending() == pre.pending()
                && post.position() == pre.position(),
            Some(e) => {
                &&& has_terminator(pre.pending())
                &&& e.source@ == pre.source_path()
                &&& e.payload@ == pre.pending().subrange(0, i)
                &&& post.pending() == pre.pending().subrange(i + 1, pre.pending().len() as int)
                &&& post.position() == pre.position() + i + 1
                &&& records(pre.pending()) == seq![e.payload@] + records(post.pending())
            },
        }
    }

    /// The next complete record as an event stamped `timestamp`, or `None`
    /// when no terminator has been read yet.
    pub fn read_line_at(&mut self, timestamp: u64) -> (r: Option<Event>)
        requires
            old(self).wf(),
        ensures
            Self::read_step(*old(self), *final(self), r),
            r is Some ==> r->Some_0.timestamp == timestamp,
    {
        proof {
            lemma_first_terminator_props(self.pending@);
        }
        let i = find_terminator(self.pending.as_slice(), 0);
        assert(self.pending@.subrange(0, self.pending@.len() as int) == self.pending@);
        if i >= self.pending.len() {
            return None;
        }
        let line = copy_range(self.pending.as_slice(), 0, i);
        let rest = copy_range(self.pending.as_slice(), i + 1, self.pending.len());
        proof {
            let rd = self.read@;
            let c = rd.len() - self.pending@.len();
            assert(rd[c + i] == self.pending@[i as int]);
            assert(rd.subrange(c + i + 1, rd.len() as int) =~= rest@);
        }
        self.pending = rest;
        self.position = self.position + (i as u64) + 1;
        Some(Event::with_timestamp(timestamp, self.path.clone(), line))
    }

    /// The next record once the stream has closed: a complete record first,
    /// then the bytes after the last terminator as the final record, then
    /// nothing.
    pub fn read_line_closed_at(&mut self, timestamp: u64) -> (r: Option<Event>)
        requires
            old(self).wf(),
        ensures
            has_terminator(old(self).pending()) ==> Self::read_step(*old(self), *final(self), r),
            r is Some ==> r->Some_0.timestamp == timestamp,
            !has_terminator(old(self).pending()) ==> {
                &&& final(self).wf()
                &&& final(self).source_path() == old(self).source_path()
                &&& final(self).pending() == Seq::<u8>::empty()
                &&& final(self).is_closed() == (old(self).is_closed() || old(self).pending().len() > 0)
                &&& final(self).position() == old(self).position() + old(self).pending().len()
                &&& match r {
                    None => old(self).pending().len() == 0,
                    Some(e) => e.payload@ == old(self).pending() && e.source@ == old(self).source_path(),
                }
            },
    {
        match self.read_line_at(timestamp) {
            Some(e) => Some(e),
            None => {
                if self.pending.len() == 0 {
                    None
                } else {
                    let n = self.pending.len();
                    let mut tail: Vec<u8> = Vec::new();
                    std::mem::swap(&mut tail, &mut self.pending);
                    self.closed = true;
                    assert(self.read@.subrange(self.read@.len() as int, self.read@.len() as int)
                        =~= self.pending@);
                    self.position = self.position + (n as u64);
                    Some(Event::with_timestamp(timestamp, self.path.clone(), tail))
                }
            },
        }
    }

    /// The next complete record as an event stamped with the clock reading
    /// `reading`. Fails, and changes nothing, exactly when `timestamp_of`
    /// rejects the reading.
    pub fn read_line_with(&mut self, reading: Option<u128>) -> (r: Result<Option<Event>, Error>)
        requires
            old(self).wf(),
        ensures
            match timestamp_spec(reading) {
                Ok(t) => r is Ok && Self::read_step(*old(self), *final(self), r->Ok_0)
                    && (r->Ok_0 is Some ==> r->Ok_0->Some_0.timestamp == t),
                Err(e) => r == Err::<Option<Event>, Error>(e) && *final(self) == *old(self),
            },
    {
        match timestamp_of(reading) {
            Ok(t) => Ok(self.read_line_at(t)),
            Err(e) => Err(e),
        }
    }

    /// The next complete record as an event stamped now. Fails, and changes
    /// nothing, when the clock cannot be read.
    pub fn read_line(&mut self) -> (r: Result<Option<Event>, Error>)
        requires
            old(self).wf(),
        ensures
            r is Ok ==> Self::read_step(*old(self), *final(self), r->Ok_0),
            r is Err ==> r->Err_0 is SystemTime && *final(self) == *old(self),
    {
        match now_timestamp() {
            Ok(t) => Ok(self.read_line_at(t)),
            Err(e) => Err(e),
        }
    }

    /// All complete records pending, in the order they were read, as events
    /// stamped `timestamp`; what follows the last terminator stays pending.
    pub fn read_all_at(&mut self, timestamp: u64) -> (r: Vec<Event>)
        requires
            old(self).wf(),
        ensures
            final(self).wf(),
            final(self).source_path() == old(self).source_path(),
            final(self).read_bytes() == old(self).read_bytes(),
            final(self).is_closed() == old(self).is_closed(),
            final(self).pending().len() <= old(self).pending().len(),
            final(self).pending() == old(self).pending().subrange(
                old(self).pending().len() - final(self).pending().len(),
                old(self).pending().len() as int,
            ),
            final(self).pending().len() == old(self).pending().len()
                || old(self).pending()[old(self).pending().len() - final(self).pending().len() - 1]
                == TERMINATOR,
            final(self).position() == old(self).position() + old(self).pending().len()
                - final(self).pending().len(),
            forall|k: int| 0 <= k < r@.len() ==> r@[k].source@ == old(self).source_path(),
            forall|k: int| 0 <= k < r@.len() ==> r@[k].timestamp == timestamp,
            payloads(r@) == records(old(self).pending()),
            !has_terminator(final(self).pending()),
    {
        let mut out: Vec<Event> = Vec::new();
        loop
            invariant
                self.wf(),
            self.source_path() == old(self).source_path(),
            self.read_bytes() == old(self).read_bytes(),
            self.is_closed() == old(self).is_closed(),
            self.pending().len() <= old(self).pending().len(),
            self.pending() == old(self).pending().subrange(
                old(self).pending().len() - self.pending().len(),
                old(self).pending().len() as int,
            ),
            self.pending().len() == old(self).pending().len()
                || old(self).pending()[old(self).pending().len() - self.pending().len() - 1]
                == TERMINATOR,
            self.position() == old(self).position() + old(self).pending().len()
                - self.pending().len(),
            forall|k: int| 0 <= k < out@.len() ==> out@[k].source@ == old(self).source_path(),
            forall|k: int| 0 <= k < out@.len() ==> out@[k].timestamp == timestamp,
                records(old(self).pending()) == payloads(out@) + records(self.pending()),
            ensures
                self.wf(),
            self.source_path() == old(self).source_path(),
            self.read_bytes() == old(self).read_bytes(),
            self.is_closed() == old(self).is_closed(),
            self.pending().len() <= old(self).pending().len(),
            self.pending() == old(self).pending().subrange(
                old(self).pending().len() - self.pending().len(),
                old(self).pending().len() as int,
            ),
            self.pending().len() == old(self).pending().len()
                || old(self).pending()[old(self).pending().len() - self.pending().len() - 1]
                == TERMINATOR,
            self.position() == old(self).position() + old(self).pending().len()
                - self.pending().len(),
            forall|k: int| 0 <= k < out@.len() ==> out@[k].source@ == old(self).source_path(),
            forall|k: int| 0 <= k < out@.len() ==> out@[k].timestamp == timestamp,
                payloads(out@) == records(old(self).pending()),
                !has_terminator(self.pending()),
            decreases self.pending().len(),
        {
            let ghost before = self.pending();
            let ghost out0 = out@;
            match self.read_line_at(timestamp) {
                Some(e) => {
                    let ghost p = e.payload@;
                    out.push(e);
                    assert(payloads(out@) =~= payloads(out0) + seq![p]);
                    proof {
                        let op = old(self).pending();
                        let cur = self.pending();
                        let i = first_terminator(before) as int;
                        lemma_first_terminator_props(before);
                        assert(op[op.len() - cur.len() - 1] == before[i]);
                        assert(cur =~= op.subrange(op.len() - cur.len(), op.len() as int));
                    }
                },
                None => {
                    proof {
                        lemma_first_terminator_props(before);
                    }
                    assert(records(before) == Seq::<Seq<u8>>::empty());
                    assert(payloads(out@) + records(before) == payloads(out@));
                    break;
                },
            }
        }
        out
    }
}

} // verus!
