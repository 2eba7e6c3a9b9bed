//! How the bytes read from a log file become lines.
//!
//! The reader keeps the offset up to which the file was read and the bytes of
//! a line that has not ended yet. Whoever holds the file reads from that
//! offset and hands the bytes over; the reader answers with the lines that
//! they complete. A line is handed out once, with its line feed, and never
//! before the line feed was read.

use vstd::prelude::*;
use vstd::slice::slice_subrange;

verus! {

/// The byte that ends a line.
pub const NEWLINE: u8 = 10;

/// What a run of bytes amounts to: the lines that ended in it, and the bytes
/// behind the last line feed.
pub struct LineScan {
    pub lines: Seq<Seq<u8>>,
    pub rest: Seq<u8>,
}

/// The lines that end while `data` is read behind the unfinished line
/// `pending`, each with its line feed, and the line left unfinished.
pub open spec fn scan(pending: Seq<u8>, data: Seq<u8>) -> LineScan
    decreases data.len(),
{
    if data.len() == 0 {
        LineScan { lines: Seq::empty(), rest: pending }
    } else {
        let before = scan(pending, data.drop_last());
        if data.last() == NEWLINE {
            LineScan { lines: before.lines.push(before.rest.push(NEWLINE)), rest: Seq::empty() }
        } else {
            LineScan { lines: before.lines, rest: before.rest.push(data.last()) }
        }
    }
}

/// Whether `bytes` holds no line feed.
pub open spec fn unfinished(bytes: Seq<u8>) -> bool {
    forall|i: int| 0 <= i < bytes.len() ==> bytes[i] != NEWLINE
}

/// Whether `line` is one whole line: it ends with its only line feed.
pub open spec fn is_line(line: Seq<u8>) -> bool {
    &&& line.len() > 0
    &&& line.last() == NEWLINE
    &&& unfinished(line.drop_last())
}

/// Whether each of `lines` is one whole line.
pub open spec fn all_lines(lines: Seq<Seq<u8>>) -> bool {
    forall|i: int| 0 <= i < lines.len() ==> is_line(#[trigger] lines[i])
}

/// The bytes of `lines`, one line behind the other.
pub open spec fn joined(lines: Seq<Seq<u8>>) -> Seq<u8>
    decreases lines.len(),
{
    if lines.len() == 0 {
        Seq::empty()
    } else {
        joined(lines.drop_last()) + lines.last()
    }
}

/// Reading in two parts gives what reading at once gives: the lines of the
/// first part, then those of the second, and the same unfinished line.
pub proof fn lemma_scan_in_parts(pending: Seq<u8>, first: Seq<u8>, second: Seq<u8>)
    ensures
        scan(pending, first + second).lines == scan(pending, first).lines + scan(
            scan(pending, first).rest,
            second,
        ).lines,
        scan(pending, first + second).rest == scan(scan(pending, first).rest, second).rest,
    decreases second.len(),
{
    let middle = scan(pending, first);
    if second.len() == 0 {
        assert(first + second =~= first);
        assert(middle.lines + Seq::<Seq<u8>>::empty() =~= middle.lines);
    } else {
        let whole = first + second;
        assert(whole.drop_last() =~= first + second.drop_last());
        assert(whole.last() == second.last());
        lemma_scan_in_parts(pending, first, second.drop_last());
        let before = scan(middle.rest, second.drop_last());
        if second.last() == NEWLINE {
            assert((middle.lines + before.lines).push(before.rest.push(NEWLINE)) =~= middle.lines
                + before.lines.push(before.rest.push(NEWLINE)));
        }
    }
}

/// Nothing is lost and nothing is read twice: the lines handed out and the
/// unfinished line are, end to end, the bytes that came in.
pub proof fn lemma_scan_keeps_bytes(pending: Seq<u8>, data: Seq<u8>)
    ensures
        joined(scan(pending, data).lines) + scan(pending, data).rest == pending + data,
    decreases data.len(),
{
    if data.len() == 0 {
        assert(joined(Seq::<Seq<u8>>::empty()) + pending =~= pending + data);
    } else {
        let before = scan(pending, data.drop_last());
        lemma_scan_keeps_bytes(pending, data.drop_last());
        assert(pending + data =~= (pending + data.drop_last()).push(data.last()));
        if data.last() == NEWLINE {
            let lines = before.lines.push(before.rest.push(NEWLINE));
            assert(lines.drop_last() =~= before.lines);
            assert(joined(lines) + Seq::<u8>::empty() =~= (joined(before.lines)
                + before.rest).push(NEWLINE));
        } else {
            assert(joined(before.lines) + before.rest.push(data.last()) =~= (joined(before.lines)
                + before.rest).push(data.last()));
        }
    }
}

/// No line is handed out before its line feed was read: what is handed out
/// are whole lines, and what is kept holds no line feed.
pub proof fn lemma_scan_gives_whole_lines(pending: Seq<u8>, data: Seq<u8>)
    requires
        unfinished(pending),
    ensures
        all_lines(scan(pending, data).lines),
        unfinished(scan(pending, data).rest),
    decreases data.len(),
{
    if data.len() > 0 {
        let before = scan(pending, data.drop_last());
        lemma_scan_gives_whole_lines(pending, data.drop_last());
        if data.last() == NEWLINE {
            let line = before.rest.push(NEWLINE);
            assert(line.drop_last() =~= before.rest);
            assert(is_line(line));
        }
    }
}

/// Bytes without a line feed complete no line: they are kept.
pub proof fn lemma_scan_unfinished(pending: Seq<u8>, data: Seq<u8>)
    requires
        unfinished(data),
    ensures
        scan(pending, data).lines == Seq::<Seq<u8>>::empty(),
        scan(pending, data).rest == pending + data,
    decreases data.len(),
{
    if data.len() == 0 {
        assert(pending + data =~= pending);
    } else {
        lemma_scan_unfinished(pending, data.drop_last());
        assert(pending + data =~= (pending + data.drop_last()).push(data.last()));
    }
}

/// Whole lines appended to a file whose last line had ended, and an
/// unfinished line behind them: each whole line is handed out once, in the
/// order in which it was appended, and the unfinished line is kept.
pub proof fn lemma_appended_lines_are_read(lines: Seq<Seq<u8>>, partial: Seq<u8>)
    requires
        all_lines(lines),
        unfinished(partial),
    ensures
        scan(Seq::empty(), joined(lines) + partial).lines == lines,
        scan(Seq::empty(), joined(lines) + partial).rest == partial,
    decreases lines.len(),
{
    let nothing = Seq::<u8>::empty();
    lemma_scan_in_parts(nothing, joined(lines), partial);
    if lines.len() == 0 {
    } else {
        let last = lines.last();
        let body = last.drop_last();
        assert(is_line(last));
        lemma_appended_lines_are_read(lines.drop_last(), nothing);
        assert(joined(lines.drop_last()) + nothing =~= joined(lines.drop_last()));
        lemma_scan_in_parts(nothing, joined(lines.drop_last()), last);
        lemma_scan_unfinished(nothing, body);
        assert(last.drop_last() == body);
        assert(nothing + body =~= body);
        assert(body.push(NEWLINE) =~= last);
        assert(scan(nothing, last).lines =~= seq![last]);
        assert(lines.drop_last() + seq![last] =~= lines);
    }
    lemma_scan_unfinished(nothing, partial);
    assert(nothing + partial =~= partial);
    assert(lines + Seq::<Seq<u8>>::empty() =~= lines);
}

/// What a reader holds, as mathematics.
pub struct ReaderState {
    /// The offset in the file up to which its bytes were taken.
    pub position: nat,
    /// The bytes behind the last line feed that was taken.
    pub pending: Seq<u8>,
}

impl ReaderState {
    /// A reader at the start of a file.
    pub open spec fn at_start() -> ReaderState {
        ReaderState { position: 0, pending: Seq::empty() }
    }

    /// A reader behind the last byte of a file of `file_length` bytes.
    pub open spec fn at_end(file_length: nat) -> ReaderState {
        ReaderState { position: file_length, pending: Seq::empty() }
    }

    /// Whether a file of `file_length` bytes has been cut short since this
    /// reader read it: it ends before the reader's offset.
    pub open spec fn sees_truncation(self, file_length: nat) -> bool {
        file_length < self.position
    }

    /// The reader after `data` was read at its offset.
    pub open spec fn after(self, data: Seq<u8>) -> ReaderState {
        ReaderState {
            position: self.position + data.len(),
            pending: scan(self.pending, data).rest,
        }
    }

    /// Where this reader starts to read a file that is now `file_length`
    /// bytes long: at its own offset, or at the start where the file was
    /// cut short.
    pub open spec fn resumed(self, file_length: nat) -> ReaderState {
        if self.sees_truncation(file_length) {
            ReaderState::at_start()
        } else {
            self
        }
    }

    /// The bytes that this reader has not read of a file that holds `file`.
    pub open spec fn unread(self, file: Seq<u8>) -> Seq<u8> {
        file.subrange(self.resumed(file.len()).position as int, file.len() as int)
    }

    /// The lines that `read_new_lines` hands out for a file that holds `file`.
    pub open spec fn new_lines(self, file: Seq<u8>) -> Seq<Seq<u8>> {
        scan(self.resumed(file.len()).pending, self.unread(file)).lines
    }

    /// The reader after `read_new_lines` on a file that holds `file`.
    pub open spec fn after_reading(self, file: Seq<u8>) -> ReaderState {
        self.resumed(file.len()).after(self.unread(file))
    }
}

/// What the holder of the file does when a read has returned no bytes.
#[derive(Copy, Clone, Debug, PartialEq, Eq, Structural)]
pub enum ReadStep {
    /// The file was cut short: read again from its first byte.
    Rewind,
    /// Nothing new is in the file: stop until it changes.
    Stop,
}

/// The lines of `lines` as sequences of bytes.
pub open spec fn byte_lines(lines: Seq<Vec<u8>>) -> Seq<Seq<u8>> {
    Seq::new(lines.len(), |i: int| lines[i]@)
}

/// Follows one open file: where reading stands, and the line that has not
/// ended yet.
pub struct AuthFileReader {
    position: u64,
    pending: Vec<u8>,
}

impl View for AuthFileReader {
    type V = ReaderState;

    closed spec fn view(&self) -> ReaderState {
        ReaderState { position: self.position as nat, pending: self.pending@ }
    }
}

impl AuthFileReader {
    /// What holds of every reader: the unfinished line holds no line feed.
    pub open spec fn wf(&self) -> bool {
        unfinished(self@.pending)
    }

    /// A reader at the start of a file that was just opened, with room for
    /// `buffer_size` bytes of an unfinished line.
    pub fn new(buffer_size: usize) -> (reader: AuthFileReader)
        ensures
            reader.wf(),
            reader@ == ReaderState::at_start(),
    {
        AuthFileReader { position: 0, pending: Vec::with_capacity(buffer_size) }
    }

    /// The offset in the file at which the next read starts.
    pub fn position(&self) -> (position: u64)
        ensures
            position == self@.position,
    {
        self.position
    }

    /// Moves the reader behind the last byte of the file, which is
    /// `file_length` bytes long: what the file holds by now is not read.
    pub fn seek_to_end(&mut self, file_length: u64)
        ensures
            final(self).wf(),
            final(self)@ == ReaderState::at_end(file_length as nat),
    {
        self.position = file_length;
        self.pending.clear();
    }

    /// Whether the file, now `file_length` bytes long, has been cut short
    /// since it was read: it ends before the reader's offset.
    pub fn is_file_has_been_truncated(&self, file_length: u64) -> (truncated: bool)
        ensures
            truncated == self@.sees_truncation(file_length as nat),
    {
        self.position > file_length
    }

    /// Takes `data`, the bytes that were read from the file at the reader's
    /// offset, and hands out the lines that end in them, in their order and
    /// each with its line feed. The bytes behind the last line feed are kept
    /// for the next call.
    pub fn accept(&mut self, data: &[u8]) -> (lines: Vec<Vec<u8>>)
        requires
            old(self).wf(),
            old(self)@.position + data@.len() <= u64::MAX,
        ensures
            final(self).wf(),
            byte_lines(lines@) == scan(old(self)@.pending, data@).lines,
            final(self)@ == old(self)@.after(data@),
    {
        let mut lines: Vec<Vec<u8>> = Vec::new();
        let length: usize = data.len();
        let mut i: usize = 0;
        assert(data@.subrange(0, 0) =~= Seq::<u8>::empty());
        assert(byte_lines(lines@) =~= Seq::<Seq<u8>>::empty());
        while i < length
            invariant
                i <= length,
                length == data@.len(),
                self.position == old(self).position,
                unfinished(self.pending@),
                byte_lines(lines@) == scan(old(self)@.pending, data@.subrange(0, i as int)).lines,
                self.pending@ == scan(old(self)@.pending, data@.subrange(0, i as int)).rest,
            decreases length - i,
        {
            let byte: u8 = data[i];
            let ghost before = scan(old(self)@.pending, data@.subrange(0, i as int));
            proof {
                let taken = data@.subrange(0, i + 1);
                assert(taken.drop_last() =~= data@.subrange(0, i as int));
                assert(taken.last() == byte);
            }
            self.pending.push(byte);
            if byte == NEWLINE {
                let mut line: Vec<u8> = Vec::new();
                core::mem::swap(&mut self.pending, &mut line);
                lines.push(line);
                assert(byte_lines(lines@) =~= before.lines.push(before.rest.push(NEWLINE)));
            }
            i += 1;
        }
        assert(data@.subrange(0, length as int) =~= data@);
        self.position = self.position + length as u64;
        lines
    }

    /// Decides what follows a read that returned no bytes, for a file that
    /// is now `file_length` bytes long. Where the file ends before the
    /// reader's offset it was cut short: the reader goes back to the start,
    /// drops the unfinished line, which is gone from the file, and asks for
    /// a read from the first byte. Otherwise nothing changes and reading
    /// stops.
    pub fn end_of_data(&mut self, file_length: u64) -> (step: ReadStep)
        requires
            old(self).wf(),
        ensures
            final(self).wf(),
            final(self)@ == old(self)@.resumed(file_length as nat),
            step == if old(self)@.sees_truncation(file_length as nat) {
                ReadStep::Rewind
            } else {
                ReadStep::Stop
            },
    {
        if self.is_file_has_been_truncated(file_length) {
            self.position = 0;
            self.pending.clear();
            ReadStep::Rewind
        } else {
            ReadStep::Stop
        }
    }

    /// Reads what is new in a file that now holds `file`, and hands out the
    /// lines that have ended since the last call. Where the file ends before
    /// the reader's offset it was cut short, and is read again from its
    /// first byte; otherwise reading goes on at the offset. An unfinished
    /// last line is kept until its line feed is there.
    pub fn read_new_lines(&mut self, file: &[u8]) -> (lines: Vec<Vec<u8>>)
        requires
            old(self).wf(),
        ensures
            final(self).wf(),
            byte_lines(lines@) == old(self)@.new_lines(file@),
            final(self)@ == old(self)@.after_reading(file@),
            final(self)@.position == file@.len(),
    {
        let length: usize = file.len();
        let step = self.end_of_data(length as u64);
        let start: usize = self.position as usize;
        let unread = slice_subrange(file, start, length);
        self.accept(unread)
    }
}

/// Tailing a file that only grows: a new reader on a file that holds whole
/// lines and, behind them, an unfinished line hands out each whole line
/// once, in the order of the file, and keeps the unfinished line back.
pub proof fn lemma_new_reader_reads_every_line(lines: Seq<Seq<u8>>, partial: Seq<u8>)
    requires
        all_lines(lines),
        unfinished(partial),
    ensures
        ReaderState::at_start().new_lines(joined(lines) + partial) == lines,
        ReaderState::at_start().after_reading(joined(lines) + partial).pending == partial,
{
    let file = joined(lines) + partial;
    assert(file.subrange(0, file.len() as int) =~= file);
    lemma_appended_lines_are_read(lines, partial);
}

/// Tailing a file that only grows: reading it, and reading it again when
/// `more` has been appended, hands out the lines that one reading of the
/// longer file hands out, in the same order, and leaves the same reader.
pub proof fn lemma_reading_as_file_grows(reader: ReaderState, file: Seq<u8>, more: Seq<u8>)
    requires
        !reader.sees_truncation(file.len()),
    ensures
        reader.new_lines(file) + reader.after_reading(file).new_lines(file + more)
            == reader.new_lines(file + more),
        reader.after_reading(file).after_reading(file + more) == reader.after_reading(file + more),
{
    let longer = file + more;
    let first = file.subrange(reader.position as int, file.len() as int);
    assert(longer.subrange(reader.position as int, longer.len() as int) =~= first + more);
    assert(longer.subrange(file.len() as int, longer.len() as int) =~= more);
    lemma_scan_in_parts(reader.pending, first, more);
}

/// No replay on attach: a reader that was moved to the end of a file that
/// held `initial` hands out, when `appended` has been written behind it,
/// the lines of `appended` alone.
pub proof fn lemma_no_replay_on_attach(initial: Seq<u8>, appended: Seq<u8>)
    ensures
        ReaderState::at_end(initial.len()).new_lines(initial + appended) == scan(
            Seq::empty(),
            appended,
        ).lines,
        ReaderState::at_end(initial.len()).after_reading(initial + appended).pending == scan(
            Seq::empty(),
            appended,
        ).rest,
{
    let file = initial + appended;
    assert(file.subrange(initial.len() as int, file.len() as int) =~= appended);
}

/// Truncation in place: a reader whose offset lies behind the end of the
/// file reads the file from its first byte and forgets its unfinished line.
/// What it hands out are the lines of the file as it is now, each a whole
/// line and so none of them empty; where the file holds `lines` and an
/// unfinished line behind them, it hands out `lines`.
pub proof fn lemma_truncated_file_is_read_from_start(
    reader: ReaderState,
    lines: Seq<Seq<u8>>,
    partial: Seq<u8>,
)
    requires
        reader.sees_truncation((joined(lines) + partial).len()),
        all_lines(lines),
        unfinished(partial),
    ensures
        reader.new_lines(joined(lines) + partial) == lines,
        reader.after_reading(joined(lines) + partial) == ReaderState::at_start().after_reading(
            joined(lines) + partial,
        ),
        reader.after_reading(joined(lines) + partial).pending == partial,
{
    lemma_new_reader_reads_every_line(lines, partial);
}

/// The lines that a reader hands out when it reads the file once for each
/// of `files`, which are what the file held at each of the reads.
pub open spec fn lines_of_reads(reader: ReaderState, files: Seq<Seq<u8>>) -> Seq<Seq<u8>>
    decreases files.len(),
{
    if files.len() == 0 {
        Seq::empty()
    } else {
        reader.new_lines(files[0]) + lines_of_reads(
            reader.after_reading(files[0]),
            files.drop_first(),
        )
    }
}

/// Whether the file only grew from one of `files` to the next: each begins
/// with the one before.
pub open spec fn only_grows(files: Seq<Seq<u8>>) -> bool {
    forall|i: int| 0 <= i < files.len() - 1 ==> (#[trigger] files[i]).is_prefix_of(files[i + 1])
}

/// However often a growing file is read, the reads together hand out what
/// one read of the file as it is at the end hands out.
pub proof fn lemma_reads_of_growing_file(reader: ReaderState, files: Seq<Seq<u8>>)
    requires
        files.len() > 0,
        only_grows(files),
        !reader.sees_truncation(files[0].len()),
    ensures
        lines_of_reads(reader, files) == reader.new_lines(files.last()),
    decreases files.len(),
{
    let first = files[0];
    let rest = files.drop_first();
    if rest.len() == 0 {
        assert(lines_of_reads(reader.after_reading(first), rest) =~= Seq::<Seq<u8>>::empty());
        assert(reader.new_lines(first) + Seq::<Seq<u8>>::empty() =~= reader.new_lines(first));
    } else {
        assert(only_grows(rest)) by {
            assert forall|i: int| 0 <= i < rest.len() - 1 implies (#[trigger] rest[i]).is_prefix_of(
                rest[i + 1],
            ) by {
                assert(files[i + 1].is_prefix_of(files[i + 2]));
            }
        }
        assert(first.is_prefix_of(rest[0])) by {
            assert(files[0].is_prefix_of(files[1]));
        }
        lemma_prefix_of_last(rest);
        let last = files.last();
        assert(last == rest.last());
        assert(first.is_prefix_of(last)) by {
            assert(first =~= rest[0].subrange(0, first.len() as int));
            assert(rest[0] =~= last.subrange(0, rest[0].len() as int));
            assert(first =~= last.subrange(0, first.len() as int));
        }
        let more = last.subrange(first.len() as int, last.len() as int);
        assert(first + more =~= last);
        lemma_reading_as_file_grows(reader, first, more);
        let next = reader.after_reading(first);
        assert(next.position == first.len());
        lemma_reads_of_growing_file(next, rest);
    }
}

/// In a file that only grows, the first state begins the last.
proof fn lemma_prefix_of_last(files: Seq<Seq<u8>>)
    requires
        files.len() > 0,
        only_grows(files),
    ensures
        files[0].is_prefix_of(files.last()),
    decreases files.len(),
{
    if files.len() > 1 {
        let rest = files.drop_first();
        assert(only_grows(rest)) by {
            assert forall|i: int| 0 <= i < rest.len() - 1 implies (#[trigger] rest[i]).is_prefix_of(
                rest[i + 1],
            ) by {
                assert(files[i + 1].is_prefix_of(files[i + 2]));
            }
        }
        lemma_prefix_of_last(rest);
        assert(files[0].is_prefix_of(files[1]));
        let last = files.last();
        assert(last == rest.last());
        assert(files[0] =~= rest[0].subrange(0, files[0].len() as int));
        assert(rest[0] =~= last.subrange(0, rest[0].len() as int));
        assert(files[0] =~= last.subrange(0, files[0].len() as int));
    } else {
        assert(files[0] =~= files[0].subrange(0, files[0].len() as int));
    }
}

/// Append-only tailing: a new reader on a file that began empty and only
/// grew, read any number of times, has handed out each whole line of the
/// file once, in the order of the file, and no line that has not ended.
pub proof fn lemma_append_only_tailing(files: Seq<Seq<u8>>, lines: Seq<Seq<u8>>, partial: Seq<u8>)
    requires
        files.len() > 0,
        only_grows(files),
        files.last() == joined(lines) + partial,
        all_lines(lines),
        unfinished(partial),
    ensures
        lines_of_reads(ReaderState::at_start(), files) == lines,
{
    lemma_reads_of_growing_file(ReaderState::at_start(), files);
    lemma_new_reader_reads_every_line(lines, partial);
}

/// No replay on attach, over any number of reads: a reader that was moved
/// to the end of a file that held `initial` hands out, while the file only
/// grows, the lines of what was appended and nothing of `initial`.
pub proof fn lemma_attached_reader_reads_appended_only(
    initial: Seq<u8>,
    files: Seq<Seq<u8>>,
    appended: Seq<u8>,
)
    requires
        files.len() > 0,
        only_grows(files),
        initial.is_prefix_of(files[0]),
        files.last() == initial + appended,
    ensures
        lines_of_reads(ReaderState::at_end(initial.len()), files) == scan(
            Seq::empty(),
            appended,
        ).lines,
{
    lemma_reads_of_growing_file(ReaderState::at_end(initial.len()), files);
    lemma_no_replay_on_attach(initial, appended);
}

/// The offset never goes back but to the start of a file that was cut
/// short: after a read it is the length of the file, which is at or behind
/// the offset before unless the file was seen to be truncated.
pub proof fn lemma_offset_goes_back_only_on_truncation(reader: ReaderState, file: Seq<u8>)
    ensures
        reader.after_reading(file).position == file.len(),
        !reader.sees_truncation(file.len()) ==> reader.after_reading(file).position
            >= reader.position,
        reader.resumed(file.len()).position == reader.position || reader.resumed(
            file.len(),
        ).position == 0,
{
}

} // verus!
