use vstd::prelude::*;

verus! {

/// The text that lossy UTF-8 decoding makes of a byte sequence: valid
/// sequences decode to their characters, invalid ones to U+FFFD.
pub uninterp spec fn lossy_text(bytes: Seq<u8>) -> Seq<char>;

/// The characters of a byte sequence that holds ASCII only.
pub open spec fn ascii_chars(bytes: Seq<u8>) -> Seq<char> {
    Seq::new(bytes.len(), |i: int| bytes[i] as char)
}

/// Whether a byte sequence holds ASCII only.
pub open spec fn is_ascii_bytes(bytes: Seq<u8>) -> bool {
    forall|i: int| 0 <= i < bytes.len() ==> bytes[i] < 128
}

/// Calls `String::from_utf8_lossy` and takes ownership of what it returns.
/// Trusted: the result is named `lossy_text` of the bytes, and, as the
/// standard library documents that valid UTF-8 comes back unchanged, bytes
/// that are all ASCII come back as the characters with the same codes.
#[verifier::external_body]
pub(crate) fn decode_lossy(bytes: &[u8]) -> (text: String)
    ensures
        text@ == lossy_text(bytes@),
        is_ascii_bytes(bytes@) ==> text@ == ascii_chars(bytes@),
{
    String::from_utf8_lossy(bytes).into_owned()
}

/// Position at which a scan for the terminator that starts at `start` stops:
/// the first zero byte at or after `start`, or the end of the buffer.
pub open spec fn scan_from(buf: Seq<u8>, start: int) -> int
    decreases buf.len() - start,
{
    if start >= buf.len() || buf[start] == 0 {
        start
    } else {
        scan_from(buf, start + 1)
    }
}

/// Number of name bytes in a fixed-capacity buffer: the position of the first
/// terminator, or the capacity where there is none.
pub open spec fn name_extent(buf: Seq<u8>) -> int {
    scan_from(buf, 0)
}

/// The bytes of the name that a fixed-capacity buffer holds.
pub open spec fn name_bytes(buf: Seq<u8>) -> Seq<u8> {
    buf.take(name_extent(buf))
}

/// The owned text of the name that a fixed-capacity buffer holds.
pub open spec fn name_text(buf: Seq<u8>) -> Seq<char> {
    lossy_text(name_bytes(buf))
}

/// A scan never leaves the buffer, passes no terminator, and stops short of
/// the capacity only on a terminator.
pub proof fn lemma_scan_from(buf: Seq<u8>, start: int)
    requires
        0 <= start <= buf.len(),
    ensures
        start <= scan_from(buf, start) <= buf.len(),
        forall|j: int| start <= j < scan_from(buf, start) ==> buf[j] != 0,
        scan_from(buf, start) < buf.len() ==> buf[scan_from(buf, start)] == 0,
    decreases buf.len() - start,
{
    if start < buf.len() && buf[start] != 0 {
        lemma_scan_from(buf, start + 1);
    }
}

/// The extent of a name is the one position within the capacity before which
/// no byte is a terminator and at which the buffer ends or holds one.
pub proof fn lemma_name_extent_unique(buf: Seq<u8>, n: int)
    requires
        0 <= n <= buf.len(),
        forall|j: int| 0 <= j < n ==> buf[j] != 0,
        n < buf.len() ==> buf[n] == 0,
    ensures
        name_extent(buf) == n,
{
    lemma_scan_from(buf, 0);
}

/// A buffer without a terminator is a name of exactly its capacity: every
/// byte of it belongs to the name, and none beyond it.
pub proof fn lemma_unterminated_name_fills_capacity(buf: Seq<u8>)
    requires
        forall|i: int| 0 <= i < buf.len() ==> buf[i] != 0,
    ensures
        name_extent(buf) == buf.len(),
        name_bytes(buf) == buf,
{
    lemma_name_extent_unique(buf, buf.len() as int);
    assert(buf.take(buf.len() as int) =~= buf);
}

/// Read with a capacity, a memory image gives a name that lies within that
/// capacity, whatever the image holds behind it; where no terminator stands
/// within the capacity, the name is the image up to the capacity.
pub proof fn lemma_name_within_capacity(memory: Seq<u8>, capacity: int)
    requires
        0 <= capacity <= memory.len(),
    ensures
        0 <= name_extent(memory.take(capacity)) <= capacity,
        name_bytes(memory.take(capacity)) == memory.take(name_extent(memory.take(capacity))),
        (forall|i: int| 0 <= i < capacity ==> memory[i] != 0) ==> name_bytes(
            memory.take(capacity),
        ) == memory.take(capacity),
{
    let buf = memory.take(capacity);
    lemma_scan_from(buf, 0);
    assert(buf.take(name_extent(buf)) =~= memory.take(name_extent(buf)));
    if forall|i: int| 0 <= i < capacity ==> memory[i] != 0 {
        lemma_unterminated_name_fills_capacity(buf);
    }
}

/// The bytes behind the first terminator have no part in the name: two
/// buffers of one capacity that agree up to and including the first
/// terminator of one hold the same name.
pub proof fn lemma_name_ignores_bytes_behind_terminator(a: Seq<u8>, b: Seq<u8>)
    requires
        a.len() == b.len(),
        forall|i: int| 0 <= i <= name_extent(a) && i < a.len() ==> a[i] == b[i],
    ensures
        name_extent(a) == name_extent(b),
        name_bytes(a) == name_bytes(b),
{
    lemma_scan_from(a, 0);
    lemma_name_extent_unique(b, name_extent(a));
    assert(a.take(name_extent(a)) =~= b.take(name_extent(a)));
}

/// Counts the name bytes of a fixed-capacity buffer. The scan reads at most
/// `buf.len()` bytes, whether or not a terminator is among them.
pub fn scan_name(buf: &[u8]) -> (n: usize)
    ensures
        n == name_extent(buf@),
        n <= buf@.len(),
        forall|j: int| 0 <= j < n ==> buf@[j] != 0,
        n < buf@.len() ==> buf@[n as int] == 0,
{
    let mut i: usize = 0;
    while i < buf.len() && buf[i] != 0
        invariant
            i <= buf@.len(),
            scan_from(buf@, 0) == scan_from(buf@, i as int),
        decreases buf@.len() - i,
    {
        i = i + 1;
    }
    proof {
        lemma_scan_from(buf@, 0);
    }
    i
}

/// Reads the name out of a fixed-capacity buffer as an owned string: the
/// bytes before the first terminator, or all of them where there is none,
/// decoded leniently.
pub fn read_name(buf: &[u8]) -> (name: String)
    ensures
        name@ == name_text(buf@),
        is_ascii_bytes(name_bytes(buf@)) ==> name@ == ascii_chars(name_bytes(buf@)),
{
    let n: usize = scan_name(buf);
    let head = vstd::slice::slice_subrange(buf, 0, n);
    assert(head@ =~= name_bytes(buf@));
    decode_lossy(head)
}

} // verus!
