//! Log-region decoding: a bounds-checked tag-name table and a forward-only
//! cursor over raw record bytes.

use vstd::prelude::*;

use crate::IntegrityError;

verus! {

/// The fixed table resolving a record's tag id to its name.  Built once at
/// startup; every lookup is bounds-checked, an id beyond the table is an
/// [`IntegrityError::TagOutOfRange`], never an empty or default name.
pub struct TagTable {
    /// Tag names, indexed by tag id.
    pub names: Vec<String>,
}

impl TagTable {
    /// The table's contents as a sequence of tag names.
    pub open spec fn tags(&self) -> Seq<Seq<char>> {
        self.names.deep_view()
    }

    /// Build the table from its names, in tag-id order.
    pub fn new(names: Vec<String>) -> (t: TagTable)
        ensures
            t.tags() == names.deep_view(),
    {
        TagTable { names }
    }

    /// Resolve a tag id to its name; ids beyond the table's bound are
    /// rejected.
    pub fn lookup(&self, id: u8) -> (r: Result<String, IntegrityError>)
        ensures
            r is Ok <==> (id as int) < self.tags().len(),
            r is Ok ==> r->Ok_0@ == self.tags()[id as int],
            r is Err ==> r->Err_0 == IntegrityError::TagOutOfRange,
    {
        if (id as usize) < self.names.len() {
            Ok(self.names[id as usize].clone())
        } else {
            Err(IntegrityError::TagOutOfRange)
        }
    }
}

/// Number of bytes in a record's header: two 32-bit words.
pub const HEADER_BYTES: usize = 8;

/// The record at `pos` has a complete header within the buffer.
pub open spec fn has_header(buf: Seq<u8>, pos: int) -> bool {
    pos + HEADER_BYTES <= buf.len()
}

/// The record's tag id: the high-order byte of the leading little-endian
/// 32-bit header word, which is the fourth byte of the record.
pub open spec fn rec_tag(buf: Seq<u8>, pos: int) -> u8 {
    buf[pos + 3]
}

/// Index of the first zero byte at or after `i`; the buffer's length when
/// there is none.
pub open spec fn first_nul(buf: Seq<u8>, i: int) -> int
    decreases buf.len() - i,
{
    if i < 0 || i >= buf.len() {
        buf.len() as int
    } else if buf[i] == 0 {
        i
    } else {
        first_nul(buf, i + 1)
    }
}

/// What `first_nul` finds: a position between `i` and the end, holding a
/// zero byte if within the buffer, with no zero byte before it.
pub proof fn lemma_first_nul(buf: Seq<u8>, i: int)
    requires
        0 <= i <= buf.len(),
    ensures
        i <= first_nul(buf, i) <= buf.len(),
        first_nul(buf, i) < buf.len() ==> buf[first_nul(buf, i)] == 0,
        forall|k: int| i <= k < first_nul(buf, i) ==> buf[k] != 0,
    decreases buf.len() - i,
{
    if i < buf.len() && buf[i] != 0 {
        lemma_first_nul(buf, i + 1);
    }
}

/// The record at `pos` has a payload terminator within the buffer.
pub open spec fn has_terminator(buf: Seq<u8>, pos: int) -> bool {
    first_nul(buf, pos + HEADER_BYTES) < buf.len()
}

/// The record's payload: the bytes between the fixed offset past the header
/// and the terminating zero byte.
pub open spec fn rec_payload(buf: Seq<u8>, pos: int) -> Seq<u8> {
    buf.subrange(pos + HEADER_BYTES, first_nul(buf, pos + HEADER_BYTES))
}

/// Where the record after the one at `pos` begins: one past the terminator.
pub open spec fn next_pos(buf: Seq<u8>, pos: int) -> int {
    first_nul(buf, pos + HEADER_BYTES) + 1
}

/// A decoded log record.  Rebuilt from the buffer on every advance; nothing
/// is retained across records.
#[derive(Debug)]
pub struct LogRecord {
    /// The record's tag id.
    pub tag: u8,
    /// The tag's name, resolved through the fixed table.
    pub name: String,
    /// The record's payload bytes, up to but excluding the terminator.
    pub payload: Vec<u8>,
}

/// What one decoded record is, mathematically.
pub struct RecordModel {
    /// The record's tag id.
    pub tag: u8,
    /// The tag's resolved name.
    pub name: Seq<char>,
    /// The payload bytes.
    pub payload: Seq<u8>,
}

impl View for LogRecord {
    type V = RecordModel;

    open spec fn view(&self) -> RecordModel {
        RecordModel { tag: self.tag, name: self.name@, payload: self.payload@ }
    }
}

/// Every record of the buffer from `pos` on, decoded in order through the
/// tag table; `None` when some record from `pos` on does not decode in
/// full.
pub open spec fn records_from(buf: Seq<u8>, pos: int, tags: Seq<Seq<char>>) -> Option<
    Seq<RecordModel>,
>
    decreases buf.len() - pos,
        when 0 <= pos <= buf.len()
        via records_from_decreases
{
    if pos == buf.len() {
        Some(Seq::empty())
    } else if has_header(buf, pos) && has_terminator(buf, pos) && (rec_tag(buf, pos) as int)
        < tags.len() {
        match records_from(buf, next_pos(buf, pos), tags) {
            Some(rest) => Some(
                seq![
                    RecordModel {
                        tag: rec_tag(buf, pos),
                        name: tags[rec_tag(buf, pos) as int],
                        payload: rec_payload(buf, pos),
                    },
                ] + rest,
            ),
            None => None,
        }
    } else {
        None
    }
}

#[via_fn]
proof fn records_from_decreases(buf: Seq<u8>, pos: int, tags: Seq<Seq<char>>) {
    if pos != buf.len() && has_header(buf, pos) && has_terminator(buf, pos) {
        lemma_first_nul(buf, pos + HEADER_BYTES);
    }
}

/// A forward-only cursor over the raw bytes of the segment's log region.
/// It decodes one record at a time and never rewinds; a record borrowed
/// from it is superseded by the next advance.
#[allow(non_camel_case_types)]
pub struct VSL_cursor {
    buf: Vec<u8>,
    pos: usize,
}

impl VSL_cursor {
    /// The raw bytes the cursor walks.
    pub closed spec fn bytes(&self) -> Seq<u8> {
        self.buf@
    }

    /// The cursor's current byte position.
    pub closed spec fn position(&self) -> int {
        self.pos as int
    }

    /// The position never leaves the buffer.
    pub closed spec fn wf(&self) -> bool {
        self.pos <= self.buf@.len()
    }

    /// Bind a cursor to a log region's bytes, at its start.
    pub fn new(buf: Vec<u8>) -> (c: VSL_cursor)
        ensures
            c.bytes() == buf@,
            c.position() == 0,
            c.wf(),
    {
        VSL_cursor { buf, pos: 0 }
    }

    /// The current record's tag id: the high-order byte of its leading
    /// little-endian header word.
    pub fn get_ntag(&self) -> (t: u8)
        requires
            has_header(self.bytes(), self.position()),
        ensures
            t == rec_tag(self.bytes(), self.position()),
    {
        let n = self.buf.len();
        proof {
            assert(self.pos + 3 < n);
        }
        self.buf[self.pos + 3]
    }

    /// The current record's tag name, resolved through the table; a tag id
    /// beyond the table's bound is rejected, never given a default name.
    pub fn get_stag(&self, table: &TagTable) -> (r: Result<String, IntegrityError>)
        requires
            has_header(self.bytes(), self.position()),
        ensures
            r is Ok <==> (rec_tag(self.bytes(), self.position()) as int) < table.tags().len(),
            r is Ok ==> r->Ok_0@ == table.tags()[rec_tag(self.bytes(), self.position()) as int],
            r is Err ==> r->Err_0 == IntegrityError::TagOutOfRange,
    {
        table.lookup(self.get_ntag())
    }

    /// The current record's payload: the bytes from the fixed offset past
    /// the header up to the terminator.  A record whose header is truncated
    /// or whose terminator is missing is malformed.
    pub fn get_string(&self) -> (r: Result<Vec<u8>, IntegrityError>)
        requires
            self.wf(),
        ensures
            (r is Ok <==> has_header(self.bytes(), self.position()) && has_terminator(
                self.bytes(),
                self.position(),
            )),
            r is Ok ==> r->Ok_0@ == rec_payload(self.bytes(), self.position()),
            r is Err ==> r->Err_0 == IntegrityError::MalformedString,
    {
        if self.buf.len() - self.pos < HEADER_BYTES {
            return Err(IntegrityError::MalformedString);
        }
        let start = self.pos + HEADER_BYTES;
        proof {
            lemma_first_nul(self.buf@, start as int);
        }
        let ghost stop = first_nul(self.buf@, start as int);
        let mut out: Vec<u8> = Vec::new();
        let mut k: usize = start;
        while k < self.buf.len()
            invariant
                start as int == self.position() + HEADER_BYTES,
                start <= k <= self.buf@.len(),
                k <= stop,
                stop == first_nul(self.buf@, start as int),
                start <= stop <= self.buf@.len(),
                stop < self.buf@.len() ==> self.buf@[stop] == 0,
                forall|m: int| start <= m < stop ==> self.buf@[m] != 0,
                out@.len() == k - start,
                forall|m: int| start <= m < k ==> out@[m - start] == self.buf@[m],
            decreases self.buf@.len() - k,
        {
            let b = self.buf[k];
            if b == 0 {
                proof {
                    assert(stop == k);
                    let pay = rec_payload(self.bytes(), self.position());
                    assert forall|m: int| 0 <= m < out@.len() implies out@[m] == pay[m] by {
                        assert(out@[m] == self.buf@[start + m]);
                    }
                    assert(out@ =~= pay);
                }
                return Ok(out);
            }
            proof {
                assert(k < stop);
            }
            out.push(b);
            k = k + 1;
        }
        Err(IntegrityError::MalformedString)
    }
    /// A record begins at the cursor's position and decodes in full: the
    /// header is complete, the payload is terminated, and the tag id is
    /// within the table.
    pub open spec fn can_decode(&self, table: &TagTable) -> bool {
        &&& has_header(self.bytes(), self.position())
        &&& has_terminator(self.bytes(), self.position())
        &&& (rec_tag(self.bytes(), self.position()) as int) < table.tags().len()
    }

    /// Decode the record at the current position and move past it; `None`
    /// signals the end of currently available data, not the end of the
    /// stream.  A record that does not decode in full is an integrity
    /// failure, never silently repaired or skipped.
    pub fn advance(&mut self, table: &TagTable) -> (r: Result<
        Option<LogRecord>,
        IntegrityError,
    >)
        requires
            old(self).wf(),
        ensures
            final(self).bytes() == old(self).bytes(),
            final(self).wf(),
            old(self).position() == old(self).bytes().len() ==> r == Ok::<
                Option<LogRecord>,
                IntegrityError,
            >(None) && final(self).position() == old(self).position(),
            old(self).position() < old(self).bytes().len() && !old(self).can_decode(table) ==> r
                is Err && final(self).position() == old(self).position(),
            old(self).position() < old(self).bytes().len() && old(self).can_decode(table) ==> {
                &&& r is Ok
                &&& r->Ok_0 is Some
                &&& r->Ok_0->0.tag == rec_tag(old(self).bytes(), old(self).position())
                &&& r->Ok_0->0.name@ == table.tags()[rec_tag(
                    old(self).bytes(),
                    old(self).position(),
                ) as int]
                &&& r->Ok_0->0.payload@ == rec_payload(old(self).bytes(), old(self).position())
                &&& final(self).position() == next_pos(old(self).bytes(), old(self).position())
                &&& final(self).position() > old(self).position()
            },
            r is Err ==> r->Err_0 == IntegrityError::TagOutOfRange || r->Err_0
                == IntegrityError::MalformedString,
    {
        if self.pos == self.buf.len() {
            return Ok(None);
        }
        let payload = match self.get_string() {
            Ok(p) => p,
            Err(e) => {
                return Err(e);
            },
        };
        let name = match self.get_stag(table) {
            Ok(n) => n,
            Err(e) => {
                return Err(e);
            },
        };
        let tag = self.get_ntag();
        proof {
            lemma_first_nul(self.buf@, self.pos + HEADER_BYTES);
        }
        let stop = self.pos + HEADER_BYTES + payload.len();
        self.pos = stop + 1;
        Ok(Some(LogRecord { tag, name, payload }))
    }

    /// Decode every remaining record, in the order the provider wrote
    /// them: the result is exactly [`records_from`] of the cursor's bytes
    /// and position, and any record that does not decode in full fails the
    /// whole read.
    pub fn read_all(&mut self, table: &TagTable) -> (r: Result<Vec<LogRecord>, IntegrityError>)
        requires
            old(self).wf(),
        ensures
            final(self).bytes() == old(self).bytes(),
            final(self).wf(),
            r is Ok <==> records_from(old(self).bytes(), old(self).position(), table.tags())
                is Some,
            r is Ok ==> Some(r->Ok_0@.map_values(|x: LogRecord| x@)) == records_from(
                old(self).bytes(),
                old(self).position(),
                table.tags(),
            ),
            r is Err ==> r->Err_0 == IntegrityError::TagOutOfRange || r->Err_0
                == IntegrityError::MalformedString,
    {
        let ghost buf = self.bytes();
        let ghost pos0 = self.position();
        let ghost tags = table.tags();
        let mut out: Vec<LogRecord> = Vec::new();
        loop
            invariant
                self.wf(),
                buf == old(self).bytes(),
                pos0 == old(self).position(),
                self.bytes() == buf,
                tags == table.tags(),
                0 <= pos0 <= buf.len(),
                match records_from(buf, self.position(), tags) {
                    Some(rest) => records_from(buf, pos0, tags) == Some(
                        out@.map_values(|x: LogRecord| x@) + rest,
                    ),
                    None => records_from(buf, pos0, tags) is None,
                },
            decreases buf.len() - self.position(),
        {
            let ghost p = self.position();
            match self.advance(table) {
                Ok(None) => {
                    proof {
                        assert(p == buf.len());
                        assert(out@.map_values(|x: LogRecord| x@) + Seq::<RecordModel>::empty()
                            =~= out@.map_values(|x: LogRecord| x@));
                    }
                    return Ok(out);
                },
                Ok(Some(rec)) => {
                    proof {
                        let head = RecordModel {
                            tag: rec_tag(buf, p),
                            name: tags[rec_tag(buf, p) as int],
                            payload: rec_payload(buf, p),
                        };
                        let prev = out@.map_values(|x: LogRecord| x@);
                        assert(rec@ == head);
                        assert(out@.push(rec).map_values(|x: LogRecord| x@) =~= prev
                            + seq![head]);
                        if records_from(buf, next_pos(buf, p), tags) is Some {
                            let rest = records_from(buf, next_pos(buf, p), tags)->0;
                            assert(records_from(buf, p, tags) == Some(seq![head] + rest));
                            assert(prev + (seq![head] + rest) =~= (prev + seq![head]) + rest);
                        }
                    }
                    out.push(rec);
                },
                Err(e) => {
                    return Err(e);
                },
            }
        }
    }
}

/// Why a transaction was started.
#[derive(Clone, Copy, Debug, PartialEq, Eq, Structural)]
pub enum VslReason {
    /// The provider gave no recognizable reason.
    Unknown,
    /// An HTTP/1 connection.
    Http1,
    /// A received client request.
    RxReq,
    /// An edge-side include.
    Esi,
    /// A restarted request.
    Restart,
    /// A passed request.
    Pass,
    /// A foreground fetch.
    Fetch,
    /// A background fetch.
    BgFetch,
    /// A piped request.
    Pipe,
}

/// What kind of work a transaction groups.
#[derive(Clone, Copy, Debug, PartialEq, Eq, Structural)]
pub enum VslType {
    /// The provider gave no recognizable type.
    Unknown,
    /// A client session.
    Sess,
    /// A client request.
    Req,
    /// A backend request.
    BeReq,
    /// Ungrouped raw records.
    Raw,
}

/// The transaction type a provider code denotes; codes beyond the
/// documented range map to `Unknown`.
pub open spec fn type_of_code(code: u32) -> VslType {
    if code == 1 {
        VslType::Sess
    } else if code == 2 {
        VslType::Req
    } else if code == 3 {
        VslType::BeReq
    } else if code == 4 {
        VslType::Raw
    } else {
        VslType::Unknown
    }
}

/// The transaction reason a provider code denotes; codes beyond the
/// documented range map to `Unknown`.
pub open spec fn reason_of_code(code: u32) -> VslReason {
    if code == 1 {
        VslReason::Http1
    } else if code == 2 {
        VslReason::RxReq
    } else if code == 3 {
        VslReason::Esi
    } else if code == 4 {
        VslReason::Restart
    } else if code == 5 {
        VslReason::Pass
    } else if code == 6 {
        VslReason::Fetch
    } else if code == 7 {
        VslReason::BgFetch
    } else if code == 8 {
        VslReason::Pipe
    } else {
        VslReason::Unknown
    }
}

impl VslType {
    /// Classify a provider transaction-type code.
    pub fn from_code(code: u32) -> (t: VslType)
        ensures
            t == type_of_code(code),
    {
        if code == 1 {
            VslType::Sess
        } else if code == 2 {
            VslType::Req
        } else if code == 3 {
            VslType::BeReq
        } else if code == 4 {
            VslType::Raw
        } else {
            VslType::Unknown
        }
    }
}

impl VslReason {
    /// Classify a provider transaction-reason code.
    pub fn from_code(code: u32) -> (r: VslReason)
        ensures
            r == reason_of_code(code),
    {
        if code == 1 {
            VslReason::Http1
        } else if code == 2 {
            VslReason::RxReq
        } else if code == 3 {
            VslReason::Esi
        } else if code == 4 {
            VslReason::Restart
        } else if code == 5 {
            VslReason::Pass
        } else if code == 6 {
            VslReason::Fetch
        } else if code == 7 {
            VslReason::BgFetch
        } else if code == 8 {
            VslReason::Pipe
        } else {
            VslReason::Unknown
        }
    }
}

/// One group of log records sharing a transaction id, as assembled by a
/// dispatch pass.  It owns a private forward-only cursor over its records:
/// there is no rewind and no random access, and a record it yields must not
/// be retained past the callback that received it.
#[allow(non_camel_case_types)]
pub struct VslTransaction {
    /// Nesting depth within the grouping.
    pub level: u32,
    /// The transaction id.
    pub vxid: i32,
    /// The parent transaction id; zero marks a root.  A non-zero parent is
    /// carried as-is: it is never resolved to a transaction of an earlier
    /// batch.
    pub vxid_parent: i32,
    /// Raw transaction-type code; see [`VslType::from_code`].
    pub typ: u32,
    /// Raw transaction-reason code; see [`VslReason::from_code`].
    pub reason: u32,
    /// The private forward-only cursor over this transaction's records.
    pub c: VSL_cursor,
}

impl VslTransaction {
    /// The bytes of this transaction's records.
    pub closed spec fn record_bytes(&self) -> Seq<u8> {
        self.c.bytes()
    }

    /// How far the transaction's cursor has read.
    pub closed spec fn record_position(&self) -> int {
        self.c.position()
    }

    /// The owned cursor never leaves its buffer.
    pub closed spec fn wf(&self) -> bool {
        self.c.wf()
    }

    /// Assemble a transaction from its provider attributes and the raw
    /// bytes of its records.
    pub fn new(level: u32, vxid: i32, vxid_parent: i32, typ: u32, reason: u32, records: Vec<u8>)
        -> (t: VslTransaction)
        ensures
            t.level == level,
            t.vxid == vxid,
            t.vxid_parent == vxid_parent,
            t.typ == typ,
            t.reason == reason,
            t.record_bytes() == records@,
            t.record_position() == 0,
            t.wf(),
    {
        VslTransaction { level, vxid, vxid_parent, typ, reason, c: VSL_cursor::new(records) }
    }

    /// A transaction with no parent is a root of its grouping.
    pub fn is_root(&self) -> (r: bool)
        ensures
            r == (self.vxid_parent == 0),
    {
        self.vxid_parent == 0
    }

    /// The next record decodes in full from the transaction's bytes.
    pub open spec fn can_decode(&self, table: &TagTable) -> bool {
        &&& has_header(self.record_bytes(), self.record_position())
        &&& has_terminator(self.record_bytes(), self.record_position())
        &&& (rec_tag(self.record_bytes(), self.record_position()) as int) < table.tags().len()
    }

    /// Decode this transaction's next record, one-shot and forward-only;
    /// `None` once every record was yielded.
    pub fn next(&mut self, table: &TagTable) -> (r: Result<Option<LogRecord>, IntegrityError>)
        requires
            old(self).wf(),
        ensures
            final(self).wf(),
            final(self).record_bytes() == old(self).record_bytes(),
            final(self).level == old(self).level,
            final(self).vxid == old(self).vxid,
            final(self).vxid_parent == old(self).vxid_parent,
            final(self).typ == old(self).typ,
            final(self).reason == old(self).reason,
            old(self).record_position() == old(self).record_bytes().len() ==> r == Ok::<
                Option<LogRecord>,
                IntegrityError,
            >(None) && final(self).record_position() == old(self).record_position(),
            old(self).record_position() < old(self).record_bytes().len() && !old(
                self,
            ).can_decode(table) ==> r is Err && final(self).record_position() == old(
                self,
            ).record_position(),
            old(self).record_position() < old(self).record_bytes().len() && old(self).can_decode(
                table,
            ) ==> {
                &&& r is Ok
                &&& r->Ok_0 is Some
                &&& r->Ok_0->0.tag == rec_tag(old(self).record_bytes(), old(self).record_position())
                &&& r->Ok_0->0.name@ == table.tags()[rec_tag(
                    old(self).record_bytes(),
                    old(self).record_position(),
                ) as int]
                &&& r->Ok_0->0.payload@ == rec_payload(
                    old(self).record_bytes(),
                    old(self).record_position(),
                )
                &&& final(self).record_position() == next_pos(
                    old(self).record_bytes(),
                    old(self).record_position(),
                )
                &&& final(self).record_position() > old(self).record_position()
            },
            r is Err ==> r->Err_0 == IntegrityError::TagOutOfRange || r->Err_0
                == IntegrityError::MalformedString,
    {
        self.c.advance(table)
    }

    /// Decode every record this transaction still holds, in provider
    /// order, as one batch.
    pub fn records(&mut self, table: &TagTable) -> (r: Result<Vec<LogRecord>, IntegrityError>)
        requires
            old(self).wf(),
        ensures
            final(self).wf(),
            final(self).record_bytes() == old(self).record_bytes(),
            final(self).level == old(self).level,
            final(self).vxid == old(self).vxid,
            final(self).vxid_parent == old(self).vxid_parent,
            final(self).typ == old(self).typ,
            final(self).reason == old(self).reason,
            r is Ok <==> records_from(
                old(self).record_bytes(),
                old(self).record_position(),
                table.tags(),
            ) is Some,
            r is Ok ==> Some(r->Ok_0@.map_values(|x: LogRecord| x@)) == records_from(
                old(self).record_bytes(),
                old(self).record_position(),
                table.tags(),
            ),
            r is Err ==> r->Err_0 == IntegrityError::TagOutOfRange || r->Err_0
                == IntegrityError::MalformedString,
    {
        self.c.read_all(table)
    }
}

} // verus!
