//! Incremental UTF-8 decoding of a terminal's byte stream.
//!
//! A pseudo-terminal hands out bytes in reads of arbitrary size, so a
//! multi-byte character may arrive split across two reads. [`Utf8Stream`]
//! keeps the unfinished tail of the last read and decodes the rest, skipping
//! byte runs that can never become valid UTF-8 so that corrupt input never
//! stalls the stream.
use vstd::prelude::*;
use vstd::utf8::is_scalar;

verus! {

/// What the bytes at the front of a buffer are.
#[derive(Clone, Copy, Debug)]
pub enum Scan {
    /// A complete, well-formed character of the given byte length.
    Char(usize),
    /// A run of the given length that no further byte can make valid.
    Bad(usize),
    /// A well-formed but unfinished start of a character.
    Short,
}

/// The byte length announced by a leading byte, or 0 when `b` cannot lead.
pub open spec fn lead_len(b: u8) -> int {
    if b <= 0x7f {
        1
    } else if 0xc2 <= b <= 0xdf {
        2
    } else if 0xe0 <= b <= 0xef {
        3
    } else if 0xf0 <= b <= 0xf4 {
        4
    } else {
        0
    }
}

/// Whether `b1` may follow the leading byte `b0` (this excludes overlong
/// forms, surrogates and values above U+10FFFF).
pub open spec fn second_ok(b0: u8, b1: u8) -> bool {
    if b0 == 0xe0 {
        0xa0 <= b1 <= 0xbf
    } else if b0 == 0xed {
        0x80 <= b1 <= 0x9f
    } else if b0 == 0xf0 {
        0x90 <= b1 <= 0xbf
    } else if b0 == 0xf4 {
        0x80 <= b1 <= 0x8f
    } else {
        0x80 <= b1 <= 0xbf
    }
}

/// Whether byte `j` (past the leading byte) continues the character at the front of `s`.
pub open spec fn follows(s: Seq<u8>, j: int) -> bool {
    if j == 1 {
        second_ok(s[0], s[1])
    } else {
        0x80 <= s[j] <= 0xbf
    }
}

/// Checks the continuation bytes `j..n` of a character of `n` bytes.
pub open spec fn scan_from(s: Seq<u8>, n: int, j: int) -> Scan
    decreases n - j,
{
    if j >= n {
        Scan::Char(n as usize)
    } else if j >= s.len() {
        Scan::Short
    } else if !follows(s, j) {
        Scan::Bad(j as usize)
    } else {
        scan_from(s, n, j + 1)
    }
}

/// Classifies the front of a non-empty buffer.
pub open spec fn scan(s: Seq<u8>) -> Scan {
    if lead_len(s[0]) == 0 {
        Scan::Bad(1)
    } else {
        scan_from(s, lead_len(s[0]), 1)
    }
}

/// The scalar value of the `n`-byte character at the front of `s`.
pub open spec fn code_point(s: Seq<u8>, n: int) -> u32 {
    if n == 1 {
        s[0] as u32
    } else if n == 2 {
        ((s[0] - 0xc0) * 64 + (s[1] - 0x80)) as u32
    } else if n == 3 {
        ((s[0] - 0xe0) * 4096 + (s[1] - 0x80) * 64 + (s[2] - 0x80)) as u32
    } else {
        ((s[0] - 0xf0) * 262144 + (s[1] - 0x80) * 4096 + (s[2] - 0x80) * 64 + (s[3]
            - 0x80)) as u32
    }
}

/// How far the front of a non-empty buffer moves on: past a character or a bad run.
pub open spec fn advance(s: Seq<u8>) -> int {
    match scan(s) {
        Scan::Char(n) => n as int,
        Scan::Bad(k) => k as int,
        Scan::Short => s.len() as int,
    }
}

/// The text that `s` decodes to: each well-formed character in order, bad
/// runs left out, and an unfinished character at the end not (yet) included.
pub open spec fn decoded(s: Seq<u8>) -> Seq<char>
    decreases s.len(),
    via decoded_decreases
{
    if s.len() == 0 {
        seq![]
    } else {
        match scan(s) {
            Scan::Char(n) => seq![code_point(s, n as int) as char] + decoded(s.skip(n as int)),
            Scan::Bad(k) => decoded(s.skip(k as int)),
            Scan::Short => seq![],
        }
    }
}

/// The bytes of `s` that must wait for more input: the unfinished character
/// at its end, if there is one.
pub open spec fn pending_of(s: Seq<u8>) -> Seq<u8>
    decreases s.len(),
    via pending_of_decreases
{
    if s.len() == 0 {
        seq![]
    } else {
        match scan(s) {
            Scan::Char(n) => pending_of(s.skip(n as int)),
            Scan::Bad(k) => pending_of(s.skip(k as int)),
            Scan::Short => s,
        }
    }
}

proof fn lemma_scan_from_bounds(s: Seq<u8>, n: int, j: int)
    requires
        1 <= j <= n <= 4,
        j <= s.len(),
    ensures
        match scan_from(s, n, j) {
            Scan::Char(m) => m == n && n <= s.len(),
            Scan::Bad(k) => j <= k < n && k < s.len(),
            Scan::Short => s.len() < n,
        },
    decreases n - j,
{
    if j < n && j < s.len() && follows(s, j) {
        lemma_scan_from_bounds(s, n, j + 1);
    }
}

/// Each step moves on by at least one byte and stays within the buffer.
pub proof fn lemma_scan_bounds(s: Seq<u8>)
    requires
        s.len() > 0,
    ensures
        match scan(s) {
            Scan::Char(n) => 1 <= n <= 4 && n <= s.len() && n == lead_len(s[0]),
            Scan::Bad(k) => 1 <= k <= 3 && k <= s.len(),
            Scan::Short => 2 <= lead_len(s[0]) && s.len() < lead_len(s[0]),
        },
{
    if lead_len(s[0]) != 0 {
        lemma_scan_from_bounds(s, lead_len(s[0]), 1);
    }
}

#[via_fn]
proof fn decoded_decreases(s: Seq<u8>) {
    if s.len() > 0 {
        lemma_scan_bounds(s);
    }
}

#[via_fn]
proof fn pending_of_decreases(s: Seq<u8>) {
    if s.len() > 0 {
        lemma_scan_bounds(s);
    }
}

proof fn lemma_scan_from_follows(s: Seq<u8>, n: int, j: int, k: int)
    requires
        1 <= j <= k < n <= 4,
        scan_from(s, n, j) == Scan::Char(n as usize),
    ensures
        k < s.len(),
        follows(s, k),
    decreases k - j,
{
    if j < k {
        lemma_scan_from_follows(s, n, j + 1, k);
    }
}

/// A well-formed character decodes to a Unicode scalar value.
proof fn lemma_char_is_scalar(s: Seq<u8>, n: int)
    requires
        s.len() > 0,
        scan(s) == Scan::Char(n as usize),
        1 <= n <= 4,
    ensures
        is_scalar(code_point(s, n)),
{
    lemma_scan_bounds(s);
    if n >= 2 {
        lemma_scan_from_follows(s, n, 1, 1);
    }
    if n >= 3 {
        lemma_scan_from_follows(s, n, 1, 2);
    }
    if n >= 4 {
        lemma_scan_from_follows(s, n, 1, 3);
    }
}

proof fn lemma_scan_from_extend(s: Seq<u8>, t: Seq<u8>, n: int, j: int)
    requires
        1 <= j <= n <= 4,
        j <= s.len(),
        scan_from(s, n, j) != Scan::Short,
    ensures
        scan_from(s + t, n, j) == scan_from(s, n, j),
    decreases n - j,
{
    if j < n {
        assert((s + t)[j] == s[j]);
        assert((s + t)[0] == s[0]);
        assert((s + t)[1] == s[1]);
        if follows(s, j) {
            lemma_scan_from_extend(s, t, n, j + 1);
        }
    }
}

/// What the front of a buffer is does not change when more bytes arrive,
/// unless it was an unfinished character.
proof fn lemma_scan_extend(s: Seq<u8>, t: Seq<u8>)
    requires
        s.len() > 0,
        scan(s) != Scan::Short,
    ensures
        scan(s + t) == scan(s),
        (s + t).skip(advance(s)) == s.skip(advance(s)) + t,
        scan(s) is Char ==> code_point(s + t, advance(s)) == code_point(s, advance(s)),
{
    lemma_scan_bounds(s);
    assert((s + t)[0] == s[0]);
    if lead_len(s[0]) != 0 {
        lemma_scan_from_extend(s, t, lead_len(s[0]), 1);
    }
    let n = advance(s);
    assert((s + t).skip(n) =~= s.skip(n) + t);
    if scan(s) is Char {
        assert(forall|i: int| 0 <= i < n ==> (s + t)[i] == s[i]);
    }
}

/// Decoding a buffer in two parts: the first part's text, then the text of
/// its waiting bytes joined to the second part.
proof fn lemma_split(s: Seq<u8>, t: Seq<u8>)
    ensures
        decoded(s + t) == decoded(s) + decoded(pending_of(s) + t),
        pending_of(s + t) == pending_of(pending_of(s) + t),
    decreases s.len(),
{
    if s.len() == 0 {
        assert(s + t =~= t);
        assert(decoded(s) + decoded(t) =~= decoded(t));
    } else {
        lemma_scan_bounds(s);
        if scan(s) is Short {
            assert(decoded(s) + decoded(s + t) =~= decoded(s + t));
        } else {
            lemma_scan_extend(s, t);
            let n = advance(s);
            lemma_split(s.skip(n), t);
            assert((s + t).len() > 0);
            if scan(s) is Char {
                assert(decoded(s + t) == seq![code_point(s, n) as char] + decoded(s.skip(n) + t));
                assert(decoded(s) == seq![code_point(s, n) as char] + decoded(s.skip(n)));
                assert(decoded(s + t) =~= decoded(s) + decoded(pending_of(s) + t));
            }
        }
    }
}

/// Reading `a` and then `b` emits over the two reads exactly the text that
/// one read of both would emit, in the same order, and leaves the same bytes
/// waiting: a character split between reads comes out once and whole.
pub proof fn lemma_reads_compose(p: Seq<u8>, a: Seq<u8>, b: Seq<u8>)
    ensures
        decoded(p + a) + decoded(pending_of(p + a) + b) == decoded(p + a + b),
        pending_of(pending_of(p + a) + b) == pending_of(p + a + b),
{
    lemma_split(p + a, b);
}

/// The bytes of a run of reads, joined in order.
pub open spec fn joined_reads(reads: Seq<Seq<u8>>) -> Seq<u8>
    decreases reads.len(),
{
    if reads.len() == 0 {
        seq![]
    } else {
        reads[0] + joined_reads(reads.drop_first())
    }
}

/// The text a stream with `p` waiting emits over a run of reads, read by
/// read and in order.
pub open spec fn emitted(p: Seq<u8>, reads: Seq<Seq<u8>>) -> Seq<char>
    decreases reads.len(),
{
    if reads.len() == 0 {
        seq![]
    } else {
        decoded(p + reads[0]) + emitted(pending_of(p + reads[0]), reads.drop_first())
    }
}

/// The bytes a stream with `p` waiting has waiting after a run of reads.
pub open spec fn waiting_after(p: Seq<u8>, reads: Seq<Seq<u8>>) -> Seq<u8>
    decreases reads.len(),
{
    if reads.len() == 0 {
        p
    } else {
        waiting_after(pending_of(p + reads[0]), reads.drop_first())
    }
}

/// However the bytes of a stream are cut into reads, the text emitted over
/// all of them is the decoding of all the bytes joined (each well-formed
/// character once and in order, bad runs left out), and what is left
/// waiting is the unfinished character at the very end, if any. `p` is
/// what a stream can have waiting (a fresh stream has nothing).
pub proof fn lemma_reads_decode_joined(p: Seq<u8>, reads: Seq<Seq<u8>>)
    requires
        pending_of(p) == p,
    ensures
        emitted(p, reads) == decoded(p + joined_reads(reads)),
        waiting_after(p, reads) == pending_of(p + joined_reads(reads)),
    decreases reads.len(),
{
    if reads.len() == 0 {
        assert(p + joined_reads(reads) =~= p);
        lemma_pending_is_unfinished(p);
    } else {
        let rest = reads.drop_first();
        let head = p + reads[0];
        lemma_pending_is_unfinished(head);
        lemma_reads_decode_joined(pending_of(head), rest);
        lemma_split(head, joined_reads(rest));
        assert(p + joined_reads(reads) =~= head + joined_reads(rest));
    }
}

/// The bytes left waiting are an unfinished character, so they decode to nothing yet.
pub proof fn lemma_pending_is_unfinished(s: Seq<u8>)
    ensures
        pending_of(s).len() < 4,
        pending_of(s).len() > 0 ==> scan(pending_of(s)) == Scan::Short,
        decoded(pending_of(s)) == Seq::<char>::empty(),
        pending_of(pending_of(s)) == pending_of(s),
    decreases s.len(),
{
    if s.len() > 0 {
        lemma_scan_bounds(s);
        if !(scan(s) is Short) {
            lemma_pending_is_unfinished(s.skip(advance(s)));
        }
    }
}

/// ASCII bytes decode to the same characters.
pub open spec fn ascii_text(t: Seq<u8>) -> Seq<char> {
    t.map_values(|b: u8| (b as u32) as char)
}

proof fn lemma_ascii_decodes(t: Seq<u8>)
    requires
        forall|i: int| 0 <= i < t.len() ==> t[i] <= 0x7f,
    ensures
        decoded(t) == ascii_text(t),
    decreases t.len(),
{
    if t.len() > 0 {
        let r = t.skip(1);
        lemma_ascii_decodes(r);
        assert(ascii_text(t) =~= seq![(t[0] as u32) as char] + ascii_text(r));
    }
}

/// A byte that cannot stand where it is, followed by ASCII text, is dropped
/// and the text comes out unchanged.
pub proof fn lemma_stray_byte_dropped(x: u8, t: Seq<u8>)
    requires
        x >= 0x80,
        t.len() > 0,
        forall|i: int| 0 <= i < t.len() ==> t[i] <= 0x7f,
    ensures
        decoded(seq![x] + t) == ascii_text(t),
        pending_of(seq![x] + t) == Seq::<u8>::empty(),
{
    let s = seq![x] + t;
    assert(s[0] == x);
    assert(s[1] == t[0]);
    assert(scan(s) == Scan::Bad(1));
    assert(s.skip(1) =~= t);
    lemma_ascii_decodes(t);
    lemma_pending_is_unfinished(t);
    lemma_ascii_pending(t);
}

proof fn lemma_ascii_pending(t: Seq<u8>)
    requires
        forall|i: int| 0 <= i < t.len() ==> t[i] <= 0x7f,
    ensures
        pending_of(t) == Seq::<u8>::empty(),
    decreases t.len(),
{
    if t.len() > 0 {
        lemma_ascii_pending(t.skip(1));
    }
}

/// Decodes a byte stream read in pieces, carrying an unfinished character
/// from one read to the next.
pub struct Utf8Stream {
    pending: Vec<u8>,
}

impl View for Utf8Stream {
    type V = Seq<u8>;

    /// The bytes waiting for the rest of their character.
    closed spec fn view(&self) -> Seq<u8> {
        self.pending@
    }
}

fn second_ok_exec(b0: u8, b1: u8) -> (r: bool)
    ensures
        r == second_ok(b0, b1),
{
    if b0 == 0xe0 {
        0xa0 <= b1 && b1 <= 0xbf
    } else if b0 == 0xed {
        0x80 <= b1 && b1 <= 0x9f
    } else if b0 == 0xf0 {
        0x90 <= b1 && b1 <= 0xbf
    } else if b0 == 0xf4 {
        0x80 <= b1 && b1 <= 0x8f
    } else {
        0x80 <= b1 && b1 <= 0xbf
    }
}

/// Classifies the bytes of `buf` from index `i` on.
pub fn scan_at(buf: &Vec<u8>, i: usize) -> (r: Scan)
    requires
        i < buf@.len(),
    ensures
        r == scan(buf@.skip(i as int)),
{
    let ghost s = buf@.skip(i as int);
    let b0 = buf[i];
    assert(s[0] == b0);
    let n: usize = if b0 <= 0x7f {
        1
    } else if 0xc2 <= b0 && b0 <= 0xdf {
        2
    } else if 0xe0 <= b0 && b0 <= 0xef {
        3
    } else if 0xf0 <= b0 && b0 <= 0xf4 {
        4
    } else {
        0
    };
    if n == 0 {
        return Scan::Bad(1);
    }
    let mut j: usize = 1;
    while j < n
        invariant
            1 <= j <= n <= 4,
            n == lead_len(b0),
            i < buf@.len(),
            s == buf@.skip(i as int),
            s[0] == b0,
            scan(s) == scan_from(s, n as int, j as int),
        decreases n - j,
    {
        if j >= buf.len() - i {
            return Scan::Short;
        }
        let b = buf[i + j];
        assert(s[j as int] == b);
        let ok = if j == 1 {
            second_ok_exec(b0, b)
        } else {
            0x80 <= b && b <= 0xbf
        };
        if !ok {
            return Scan::Bad(j);
        }
        j = j + 1;
    }
    Scan::Char(n)
}

/// The scalar value of the well-formed `n`-byte character at index `i` of `buf`.
fn code_point_at(buf: &Vec<u8>, i: usize, n: usize) -> (r: u32)
    requires
        i < buf@.len(),
        scan(buf@.skip(i as int)) == Scan::Char(n),
    ensures
        r == code_point(buf@.skip(i as int), n as int),
        is_scalar(r),
{
    let ghost s = buf@.skip(i as int);
    proof {
        lemma_scan_bounds(s);
        lemma_char_is_scalar(s, n as int);
        if n >= 2 {
            lemma_scan_from_follows(s, n as int, 1, 1);
        }
        if n >= 3 {
            lemma_scan_from_follows(s, n as int, 1, 2);
        }
        if n >= 4 {
            lemma_scan_from_follows(s, n as int, 1, 3);
        }
        assert(s.len() == buf@.len() - i);
        assert(i + n <= buf@.len());
        assert(forall|k: int| 0 <= k < n ==> s[k] == buf@[i + k]);
    }
    let len = buf.len();
    assert(i + n <= len);
    let b0 = buf[i] as u32;
    if n == 1 {
        b0
    } else if n == 2 {
        let b1 = buf[i + 1] as u32;
        (b0 - 0xc0) * 64 + (b1 - 0x80)
    } else if n == 3 {
        let b1 = buf[i + 1] as u32;
        let b2 = buf[i + 2] as u32;
        (b0 - 0xe0) * 4096 + (b1 - 0x80) * 64 + (b2 - 0x80)
    } else {
        let b1 = buf[i + 1] as u32;
        let b2 = buf[i + 2] as u32;
        let b3 = buf[i + 3] as u32;
        (b0 - 0xf0) * 262144 + (b1 - 0x80) * 4096 + (b2 - 0x80) * 64 + (b3 - 0x80)
    }
}

impl Utf8Stream {
    /// A stream with nothing waiting.
    pub fn new() -> (r: Self)
        ensures
            r@ == Seq::<u8>::empty(),
    {
        Utf8Stream { pending: Vec::new() }
    }

    /// The bytes that wait for the rest of their character.
    pub fn pending(&self) -> (r: &[u8])
        ensures
            r@ == self@,
    {
        self.pending.as_slice()
    }

    /// Takes in one read. Returns the text that is now complete (possibly
    /// empty): the waiting bytes and `chunk`, decoded, with bad runs dropped.
    /// An unfinished character at the end waits for the next read.
    pub fn feed(&mut self, chunk: &[u8]) -> (text: String)
        ensures
            text@ == decoded(old(self)@ + chunk@),
            final(self)@ == pending_of(old(self)@ + chunk@),
    {
        let mut buf: Vec<u8> = Vec::new();
        std::mem::swap(&mut buf, &mut self.pending);
        let ghost start = buf@;
        let mut k: usize = 0;
        while k < chunk.len()
            invariant
                k <= chunk@.len(),
                buf@ == start + chunk@.subrange(0, k as int),
            decreases chunk@.len() - k,
        {
            buf.push(chunk[k]);
            k = k + 1;
            assert(buf@ =~= start + chunk@.subrange(0, k as int));
        }
        assert(chunk@.subrange(0, chunk@.len() as int) =~= chunk@);
        assert(start == old(self)@);
        let ghost whole = buf@;
        assert(whole == old(self)@ + chunk@);
        let mut text = String::new();
        let mut i: usize = 0;
        let mut waiting = false;
        assert(whole.skip(0) =~= whole);
        assert(text@ + decoded(whole) =~= decoded(whole));
        while i < buf.len() && !waiting
            invariant
                buf@ == whole,
                i <= whole.len(),
                decoded(whole) == text@ + decoded(whole.skip(i as int)),
                pending_of(whole) == pending_of(whole.skip(i as int)),
                waiting ==> decoded(whole.skip(i as int)) == Seq::<char>::empty(),
                waiting ==> pending_of(whole.skip(i as int)) == whole.skip(i as int),
            decreases whole.len() - i, if waiting { 0int } else { 1int },
        {
            let ghost s = whole.skip(i as int);
            proof {
                lemma_scan_bounds(s);
            }
            match scan_at(&buf, i) {
                Scan::Char(n) => {
                    let cp = code_point_at(&buf, i, n);
                    let c = char::from_u32(cp).unwrap();
                    text.push(c);
                    assert(s.skip(n as int) =~= whole.skip(i + n));
                    i = i + n;
                    assert(decoded(whole) =~= text@ + decoded(whole.skip(i as int)));
                },
                Scan::Bad(n) => {
                    assert(s.skip(n as int) =~= whole.skip(i + n));
                    i = i + n;
                },
                Scan::Short => {
                    waiting = true;
                },
            }
        }
        if !waiting {
            assert(whole.skip(i as int) =~= Seq::<u8>::empty());
        }
        assert(text@ + Seq::<char>::empty() =~= text@);
        self.pending = buf.split_off(i);
        assert(whole.skip(i as int) =~= whole.subrange(i as int, whole.len() as int));
        text
    }
}

/// What a terminal's reader does after one read.
pub enum ReaderStep {
    /// Publish this text as the terminal's output.
    Output(String),
    /// Nothing complete yet; read again.
    Wait,
    /// The stream ended or failed: stop and announce the exit.
    Exit,
}

impl Utf8Stream {
    /// The reader's decision on one read: `Some(bytes)` for a successful
    /// read (no bytes meaning the end of the stream), `None` for a failed one.
    pub fn step(&mut self, read: Option<&[u8]>) -> (r: ReaderStep)
        ensures
            match read {
                Some(b) => if b@.len() == 0 {
                    r is Exit && final(self)@ == old(self)@
                } else {
                    final(self)@ == pending_of(old(self)@ + b@) && match r {
                        ReaderStep::Output(t) => t@ == decoded(old(self)@ + b@) && t@.len() > 0,
                        ReaderStep::Wait => decoded(old(self)@ + b@).len() == 0,
                        ReaderStep::Exit => false,
                    }
                },
                None => r is Exit && final(self)@ == old(self)@,
            },
    {
        match read {
            Some(b) => {
                if b.len() == 0 {
                    return ReaderStep::Exit;
                }
                let text = self.feed(b);
                if text.as_str().is_empty() {
                    ReaderStep::Wait
                } else {
                    ReaderStep::Output(text)
                }
            },
            None => ReaderStep::Exit,
        }
    }
}

} // verus!
