//! Text handling for the backend's C-string parameters.
//!
//! [`UiBuffer`] is the scratch text arena: a per-frame byte buffer into
//! which labels are copied, each followed by one NUL terminator, so the
//! backend can be handed pointer-stable C strings. [`ImString`] is a
//! growable string that always carries an implicit NUL terminator and
//! truncates at the first interior NUL, matching C-string semantics.

use vstd::prelude::*;
use vstd::string::{StrSliceExecFns, StringSliceAdditionalSpecFns};

verus! {

/// The number of leading bytes of `t` before its first NUL byte
/// (`t.len()` if `t` holds no NUL).
pub open spec fn nul_prefix_len(t: Seq<u8>) -> int
    decreases t.len(),
{
    if t.len() == 0 {
        0
    } else if t[0] == 0u8 {
        0
    } else {
        1 + nul_prefix_len(t.drop_first())
    }
}

/// The number of leading characters of `t` before its first NUL
/// character (`t.len()` if `t` holds no NUL).
pub open spec fn nul_prefix_len_chars(t: Seq<char>) -> int
    decreases t.len(),
{
    if t.len() == 0 {
        0
    } else if t[0] == '\0' {
        0
    } else {
        1 + nul_prefix_len_chars(t.drop_first())
    }
}

/// What `nul_prefix_len` means: it is the index of the first NUL byte,
/// or the length when there is none.
pub proof fn lemma_nul_prefix_len(t: Seq<u8>)
    ensures
        0 <= nul_prefix_len(t) <= t.len(),
        forall|j: int| 0 <= j < nul_prefix_len(t) ==> t[j] != 0u8,
        nul_prefix_len(t) < t.len() ==> t[nul_prefix_len(t)] == 0u8,
    decreases t.len(),
{
    if t.len() > 0 && t[0] != 0u8 {
        lemma_nul_prefix_len(t.drop_first());
        assert forall|j: int| 0 <= j < nul_prefix_len(t) implies t[j] != 0u8 by {
            if j > 0 {
                assert(t.drop_first()[j - 1] != 0u8);
            }
        }
    }
}

/// What `nul_prefix_len_chars` means, in the same way.
pub proof fn lemma_nul_prefix_len_chars(t: Seq<char>)
    ensures
        0 <= nul_prefix_len_chars(t) <= t.len(),
        forall|j: int| 0 <= j < nul_prefix_len_chars(t) ==> t[j] != '\0',
        nul_prefix_len_chars(t) < t.len() ==> t[nul_prefix_len_chars(t)] == '\0',
    decreases t.len(),
{
    if t.len() > 0 && t[0] != '\0' {
        lemma_nul_prefix_len_chars(t.drop_first());
        assert forall|j: int| 0 <= j < nul_prefix_len_chars(t) implies t[j] != '\0' by {
            if j > 0 {
                assert(t.drop_first()[j - 1] != '\0');
            }
        }
    }
}

/// Any index below which no NUL byte occurs, and at which one occurs
/// (or which is the length), is `nul_prefix_len`.
pub proof fn lemma_nul_prefix_len_unique(t: Seq<u8>, k: int)
    requires
        0 <= k <= t.len(),
        forall|j: int| 0 <= j < k ==> t[j] != 0u8,
        k < t.len() ==> t[k] == 0u8,
    ensures
        nul_prefix_len(t) == k,
{
    lemma_nul_prefix_len(t);
    let r = nul_prefix_len(t);
    if r < k {
        assert(t[r] != 0u8);
        assert(t[r] == 0u8);
    }
    if k < r {
        assert(t[k] != 0u8);
    }
}

/// The counterpart of `lemma_nul_prefix_len_unique` for characters.
pub proof fn lemma_nul_prefix_len_chars_unique(t: Seq<char>, k: int)
    requires
        0 <= k <= t.len(),
        forall|j: int| 0 <= j < k ==> t[j] != '\0',
        k < t.len() ==> t[k] == '\0',
    ensures
        nul_prefix_len_chars(t) == k,
{
    lemma_nul_prefix_len_chars(t);
    let r = nul_prefix_len_chars(t);
    if r < k {
        assert(t[r] != '\0');
        assert(t[r] == '\0');
    }
    if k < r {
        assert(t[k] != '\0');
    }
}

/// What reading a C-string record that starts at `start` in `buf`
/// yields: the bytes up to and including the first NUL at or after
/// `start`, or everything to the end of the buffer if no NUL follows.
pub open spec fn record_at(buf: Seq<u8>, start: int) -> Seq<u8> {
    let rest = buf.skip(start);
    if nul_prefix_len(rest) < rest.len() {
        rest.take(nul_prefix_len(rest)) + seq![0u8]
    } else {
        rest
    }
}

/// What the arena keeps after a refresh: cleared when it had grown past
/// the watermark, untouched otherwise.
pub open spec fn spec_refresh(b: Seq<u8>, watermark: usize) -> Seq<u8> {
    if b.len() > watermark {
        Seq::empty()
    } else {
        b
    }
}

/// Scratch-arena round trip: reading back a record immediately after
/// it was pushed yields exactly the pushed bytes followed by one NUL
/// terminator, truncated at the first interior NUL if the pushed text
/// contained one — C-string semantics. Reading is a pure operation, so
/// repeated reads before the next refresh yield the same record.
pub proof fn lemma_scratch_round_trip(before: Seq<u8>, t: Seq<u8>)
    ensures
        record_at(before + t + seq![0u8], before.len() as int) =~= t.take(nul_prefix_len(t))
            + seq![0u8],
        !t.contains(0u8) ==> record_at(before + t + seq![0u8], before.len() as int) =~= t
            + seq![0u8],
{
    let buf = before + t + seq![0u8];
    let rest = buf.skip(before.len() as int);
    assert(rest =~= t + seq![0u8]);
    lemma_nul_prefix_len(t);
    let p = nul_prefix_len(t);
    assert forall|j: int| 0 <= j < p implies rest[j] != 0u8 by {
        assert(rest[j] == t[j]);
    }
    if p < t.len() {
        assert(rest[p] == t[p]);
        assert(rest[p] == 0u8);
    } else {
        assert(rest[p] == 0u8);
    }
    lemma_nul_prefix_len_unique(rest, p);
    assert(record_at(buf, before.len() as int) =~= rest.take(p) + seq![0u8]);
    assert(rest.take(p) =~= t.take(p));
    if !t.contains(0u8) {
        assert forall|j: int| 0 <= j < t.len() implies t[j] != 0u8 by {
            assert(t.contains(t[j]));
        }
        lemma_nul_prefix_len_unique(t, t.len() as int);
        assert(t.take(p) =~= t);
    }
}

/// The scratch text arena: a reusable byte buffer holding
/// NUL-terminated records, valid for the rest of the current frame.
///
/// Records are never freed individually; the whole arena is cleared at
/// the next refresh once its size exceeds the watermark, so in the
/// common case a frame's text reuses the same allocation.
pub struct UiBuffer {
    buffer: Vec<u8>,
    max_len: usize,
}

impl UiBuffer {
    /// The bytes the arena currently holds.
    pub closed spec fn bytes(&self) -> Seq<u8> {
        self.buffer@
    }

    /// The byte budget past which the next refresh clears the arena.
    pub closed spec fn watermark(&self) -> usize {
        self.max_len
    }

    /// The current size of the arena, in bytes.
    pub fn len(&self) -> (n: usize)
        ensures
            n == self.bytes().len(),
    {
        self.buffer.len()
    }

    /// Creates a new arena with the given watermark.
    pub fn new(max_len: usize) -> (buf: UiBuffer)
        ensures
            buf.bytes() =~= Seq::<u8>::empty(),
            buf.watermark() == max_len,
    {
        UiBuffer { buffer: Vec::new(), max_len }
    }

    /// Clears the arena if it has grown past the watermark; otherwise
    /// leaves every record, and therefore every offset handed out this
    /// frame, untouched.
    pub fn refresh_buffer(&mut self)
        ensures
            final(self).bytes() =~= spec_refresh(old(self).bytes(), old(self).watermark()),
            final(self).watermark() == old(self).watermark(),
    {
        if self.buffer.len() > self.max_len {
            self.buffer.clear();
        }
    }

    /// Appends one NUL-terminated record holding `txt` and returns the
    /// offset where the record starts. Performs no clearing at all.
    pub fn push(&mut self, txt: &str) -> (start: usize)
        ensures
            start == old(self).bytes().len(),
            final(self).bytes() =~= old(self).bytes() + txt.spec_bytes() + seq![0u8],
            final(self).watermark() == old(self).watermark(),
    {
        let start = self.buffer.len();
        let mut record = txt.as_bytes_vec();
        self.buffer.append(&mut record);
        self.buffer.push(0u8);
        start
    }

    /// Pushes one text record after refreshing the arena.
    pub fn scratch_txt(&mut self, txt: &str) -> (start: usize)
        ensures
            ({
                let base = spec_refresh(old(self).bytes(), old(self).watermark());
                start == base.len() && final(self).bytes() =~= base + txt.spec_bytes() + seq![0u8]
            }),
            final(self).watermark() == old(self).watermark(),
    {
        self.refresh_buffer();
        self.push(txt)
    }

    /// Pushes an optional text record after refreshing the arena;
    /// `None` yields no record, which the backend reads as a null
    /// string parameter.
    pub fn scratch_txt_opt(&mut self, txt: Option<&str>) -> (start: Option<usize>)
        ensures
            ({
                let base = spec_refresh(old(self).bytes(), old(self).watermark());
                match txt {
                    Some(t) => start == Some(base.len() as usize) && final(self).bytes() =~= base
                        + t.spec_bytes() + seq![0u8],
                    None => start is None && final(self).bytes() =~= old(self).bytes(),
                }
            }),
            final(self).watermark() == old(self).watermark(),
    {
        match txt {
            Some(t) => Some(self.scratch_txt(t)),
            None => None,
        }
    }

    /// Pushes two records with one shared refresh decision, so that the
    /// first record's offset is not invalidated by a clear happening
    /// between the two pushes.
    pub fn scratch_txt_two(&mut self, txt_0: &str, txt_1: &str) -> (starts: (usize, usize))
        ensures
            ({
                let base = spec_refresh(old(self).bytes(), old(self).watermark());
                &&& starts.0 == base.len()
                &&& starts.1 == base.len() + txt_0.spec_bytes().len() + 1
                &&& final(self).bytes() =~= base + txt_0.spec_bytes() + seq![0u8]
                    + txt_1.spec_bytes() + seq![0u8]
            }),
            final(self).watermark() == old(self).watermark(),
    {
        self.refresh_buffer();
        let start_0 = self.push(txt_0);
        let start_1 = self.push(txt_1);
        (start_0, start_1)
    }

    /// Pushes one mandatory and one optional record with a single
    /// refresh decision.
    pub fn scratch_txt_with_opt(&mut self, txt_0: &str, txt_1: Option<&str>) -> (starts: (
        usize,
        Option<usize>,
    ))
        ensures
            ({
                let base = spec_refresh(old(self).bytes(), old(self).watermark());
                match txt_1 {
                    Some(t) => starts.0 == base.len() && starts.1 == Some(
                        (base.len() + txt_0.spec_bytes().len() + 1) as usize,
                    ) && final(self).bytes() =~= base + txt_0.spec_bytes() + seq![0u8]
                        + t.spec_bytes() + seq![0u8],
                    None => starts.0 == base.len() && starts.1 is None && final(self).bytes() =~=
                        base + txt_0.spec_bytes() + seq![0u8],
                }
            }),
            final(self).watermark() == old(self).watermark(),
    {
        match txt_1 {
            Some(t) => {
                let (start_0, start_1) = self.scratch_txt_two(txt_0, t);
                (start_0, Some(start_1))
            },
            None => (self.scratch_txt(txt_0), None),
        }
    }

    /// The offset of the first NUL byte at or after `start`, or the
    /// arena length if none follows.
    fn find_nul(&self, start: usize) -> (end: usize)
        requires
            start <= self.bytes().len(),
        ensures
            start <= end <= self.bytes().len(),
            end - start == nul_prefix_len(self.bytes().skip(start as int)),
    {
        let mut i = start;
        while i < self.buffer.len() && self.buffer[i] != 0u8
            invariant
                start <= i <= self.bytes().len(),
                forall|j: int| start <= j < i ==> self.bytes()[j] != 0u8,
            decreases self.bytes().len() - i,
        {
            i += 1;
        }
        proof {
            let rest = self.bytes().skip(start as int);
            assert forall|j: int| 0 <= j < i - start implies rest[j] != 0u8 by {
                assert(rest[j] == self.bytes()[start + j]);
            }
            if (i as int) < self.bytes().len() {
                assert(rest[i - start] == self.bytes()[i as int]);
            }
            lemma_nul_prefix_len_unique(rest, i - start);
        }
        i
    }

    /// Reads the record that starts at `start` as a C string would be
    /// read: every byte up to and including the first NUL terminator,
    /// or everything to the end of the arena if no NUL follows.
    ///
    /// Reading does not change the arena, so repeated reads before the
    /// next refresh all yield the same bytes.
    pub fn read_record(&self, start: usize) -> (record: Vec<u8>)
        requires
            start <= self.bytes().len(),
        ensures
            record@ =~= record_at(self.bytes(), start as int),
    {
        let end = self.find_nul(start);
        let mut record: Vec<u8> = Vec::new();
        let mut i = start;
        while i < end
            invariant
                start <= i <= end <= self.bytes().len(),
                record@ =~= self.bytes().subrange(start as int, i as int),
            decreases end - i,
        {
            let b = self.buffer[i];
            record.push(b);
            i += 1;
        }
        proof {
            lemma_nul_prefix_len(self.bytes().skip(start as int));
            assert(record@ =~= self.bytes().skip(start as int).take(end - start));
        }
        if end < self.buffer.len() {
            record.push(0u8);
        }
        record
    }
}

/// Appends one character to a string.
///
/// Relies on `String::push` from std: it appends exactly the given
/// character to the string's characters.
#[verifier::external_body]
fn push_char(s: &mut String, c: char)
    ensures
        final(s)@ =~= old(s)@.push(c),
{
    s.push(c);
}

/// A UTF-8 encoded, growable, implicitly NUL-terminated string.
///
/// The readable contents never hold a NUL character: every way of
/// writing text into the string truncates it at the first interior NUL,
/// the way the backend's C string reader would.
#[derive(Debug)]
pub struct ImString {
    s: String,
}

impl View for ImString {
    type V = Seq<char>;

    closed spec fn view(&self) -> Seq<char> {
        self.s@
    }
}

impl ImString {
    /// The readable contents hold no NUL character.
    pub open spec fn wf(&self) -> bool {
        forall|j: int| 0 <= j < self@.len() ==> self@[j] != '\0'
    }

    /// The bytes the backend would see: the UTF-8 encoding of the
    /// contents followed by one NUL terminator.
    pub open spec fn bytes_with_nul(&self) -> Seq<u8> {
        vstd::utf8::encode_utf8(self@) + seq![0u8]
    }

    /// Creates a new `ImString` from an existing string, truncating it
    /// at its first interior NUL character if it has one.
    pub fn new(value: String) -> (r: ImString)
        ensures
            r@ =~= value@.take(nul_prefix_len_chars(value@)),
            r.wf(),
    {
        let mut r = ImString { s: String::new() };
        r.push_str(value.as_str());
        proof {
            assert(value@.take(nul_prefix_len_chars(value@)) =~= Seq::<char>::empty()
                + value@.take(nul_prefix_len_chars(value@)));
        }
        r
    }

    /// Creates a new empty `ImString`. The capacity is an allocation
    /// hint only; the contents start empty.
    pub fn with_capacity(capacity: usize) -> (r: ImString)
        ensures
            r@ =~= Seq::<char>::empty(),
            r.wf(),
    {
        let _ = capacity;
        ImString { s: String::new() }
    }

    /// Removes all contents.
    pub fn clear(&mut self)
        ensures
            final(self)@ =~= Seq::<char>::empty(),
            final(self).wf(),
    {
        self.s = String::new();
    }

    /// Appends the given character, unless it is the NUL terminator,
    /// which C-string semantics cannot represent and which is dropped.
    pub fn push(&mut self, ch: char)
        ensures
            ch != '\0' ==> final(self)@ =~= old(self)@.push(ch),
            ch == '\0' ==> final(self)@ =~= old(self)@,
    {
        if ch != '\0' {
            push_char(&mut self.s, ch);
        }
    }

    /// Appends the given string slice, truncated at its first interior
    /// NUL character if it has one.
    pub fn push_str(&mut self, string: &str)
        ensures
            final(self)@ =~= old(self)@ + string@.take(nul_prefix_len_chars(string@)),
            old(self).wf() ==> final(self).wf(),
    {
        proof {
            lemma_nul_prefix_len_chars(string@);
        }
        let n = string.unicode_len();
        let mut i: usize = 0;
        let ghost end = nul_prefix_len_chars(string@);
        while i < n
            invariant
                0 <= i <= string@.len(),
                n == string@.len(),
                end == nul_prefix_len_chars(string@),
                0 <= end <= string@.len(),
                forall|j: int| 0 <= j < end ==> string@[j] != '\0',
                end < string@.len() ==> string@[end] == '\0',
                i <= end || i == n,
                i <= end ==> self@ =~= old(self)@ + string@.take(i as int),
                i > end ==> self@ =~= old(self)@ + string@.take(end),
            decreases string@.len() - i,
        {
            let c = string.get_char(i);
            if c == '\0' {
                proof {
                    lemma_nul_prefix_len_chars_unique(string@, i as int);
                }
                i = n;
            } else {
                push_char(&mut self.s, c);
                proof {
                    if i < end {
                        assert(string@.take(i + 1) =~= string@.take(i as int).push(
                            string@[i as int],
                        ));
                        assert(self@ =~= old(self)@ + string@.take(i + 1));
                    }
                }
                i += 1;
            }
        }
        proof {
            if end == string@.len() {
                assert(self@ =~= old(self)@ + string@.take(end));
            }
            if old(self).wf() {
                assert forall|j: int| 0 <= j < self@.len() implies self@[j] != '\0' by {
                    if j < old(self)@.len() {
                        assert(self@[j] == old(self)@[j]);
                    } else {
                        assert(self@[j] == string@.take(end)[j - old(self)@.len()]);
                    }
                }
            }
        }
    }

    /// The readable contents, as an ordinary string slice.
    pub fn to_str(&self) -> (r: &str)
        ensures
            r@ == self@,
    {
        self.s.as_str()
    }

    /// Returns true when the readable contents are empty.
    pub fn is_empty(&self) -> (r: bool)
        ensures
            r == (self@.len() == 0),
    {
        self.s.as_str().unicode_len() == 0
    }

    /// The bytes the backend would see: the UTF-8 contents followed by
    /// one NUL terminator.
    pub fn as_bytes_with_nul(&self) -> (r: Vec<u8>)
        ensures
            r@ =~= self.bytes_with_nul(),
    {
        let mut r = self.s.as_str().as_bytes_vec();
        r.push(0u8);
        r
    }
}

/// Grows a string's capacity.
///
/// Relies on `String::reserve` from std: it may grow the capacity and
/// leaves the contents unchanged.
#[verifier::external_body]
fn reserve_in(s: &mut String, additional: usize)
    ensures
        final(s)@ == old(s)@,
{
    s.reserve(additional);
}

/// Grows a string's capacity by exactly the requested amount.
///
/// Relies on `String::reserve_exact` from std: it may grow the
/// capacity and leaves the contents unchanged.
#[verifier::external_body]
fn reserve_exact_in(s: &mut String, additional: usize)
    ensures
        final(s)@ == old(s)@,
{
    s.reserve_exact(additional);
}

/// Reads a string's capacity.
///
/// Relies on `String::capacity` from std: the capacity, in bytes, is
/// at least the byte length of the contents.
#[verifier::external_body]
fn capacity_in(s: &String) -> (r: usize)
    ensures
        vstd::utf8::encode_utf8(s@).len() <= r,
{
    s.capacity()
}

impl ImString {
    /// Returns the capacity of this `ImString` in bytes, not counting
    /// the implicit NUL terminator.
    pub fn capacity(&self) -> (r: usize)
        ensures
            vstd::utf8::encode_utf8(self@).len() <= r,
    {
        capacity_in(&self.s)
    }

    /// Returns the capacity of this `ImString` in bytes, including the
    /// implicit NUL terminator.
    pub fn capacity_with_nul(&self) -> (r: usize)
        ensures
            vstd::utf8::encode_utf8(self@).len() <= r,
    {
        let c = capacity_in(&self.s);
        if c < usize::MAX {
            c + 1
        } else {
            c
        }
    }

    /// Ensures that the capacity of this `ImString` is at least
    /// `additional` bytes larger than the current length; the contents
    /// are unchanged.
    pub fn reserve(&mut self, additional: usize)
        ensures
            final(self)@ == old(self)@,
    {
        reserve_in(&mut self.s, additional);
    }

    /// Like [`ImString::reserve`], but asks for no extra slack; the
    /// contents are unchanged.
    pub fn reserve_exact(&mut self, additional: usize)
        ensures
            final(self)@ == old(self)@,
    {
        reserve_exact_in(&mut self.s, additional);
    }
}

impl Default for ImString {
    /// The empty string.
    fn default() -> (r: ImString)
        ensures
            r@ =~= Seq::<char>::empty(),
            r.wf(),
    {
        ImString { s: String::new() }
    }
}

} // verus!
