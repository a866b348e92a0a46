//! NUL-terminated strings in buffers of C characters.
use vstd::prelude::*;
use vstd::utf8::encode_utf8;

verus! {

/// Size of the buffer that carries a path, in C characters.
pub const MAX_PATH: usize = 260;

/// `n` is where the string held by `buffer` ends: at its first NUL.
pub open spec fn ends_at(buffer: Seq<i8>, n: int) -> bool {
    &&& 0 <= n < buffer.len()
    &&& buffer[n] == 0
    &&& forall|i: int| 0 <= i < n ==> buffer[i] != 0
}

/// `buffer` holds a NUL, and so a string.
pub open spec fn is_terminated(buffer: Seq<i8>) -> bool {
    exists|n: int| ends_at(buffer, n)
}

/// The bytes of the string held by `buffer`, without its NUL.
pub open spec fn c_bytes(buffer: Seq<i8>) -> Seq<u8>
    recommends
        is_terminated(buffer),
{
    let end = choose|n: int| ends_at(buffer, n);
    Seq::new(end as nat, |i: int| buffer[i] as u8)
}

/// No byte is NUL, so that a NUL behind the bytes can mark their end.
pub open spec fn is_nul_free(bytes: Seq<u8>) -> bool {
    forall|i: int| 0 <= i < bytes.len() ==> bytes[i] != 0
}

/// A buffer of `size` characters: `bytes` as far as they fit, then NULs.
pub open spec fn padded(bytes: Seq<u8>, size: nat) -> Seq<i8> {
    Seq::new(
        size,
        |i: int|
            if i < bytes.len() {
                bytes[i] as i8
            } else {
                0i8
            },
    )
}

proof fn lemma_char_round_trip(b: u8)
    ensures
        (b as i8) as u8 == b,
        b != 0 ==> (b as i8) != 0,
{
    assert((b as i8) as u8 == b) by (bit_vector);
    assert(b != 0 ==> (b as i8) != 0) by (bit_vector);
}

proof fn lemma_byte_round_trip(c: i8)
    ensures
        c != 0 ==> (c as u8) != 0,
{
    assert(c != 0 ==> (c as u8) != 0) by (bit_vector);
}

proof fn lemma_c_bytes(buffer: Seq<i8>, end: int)
    requires
        ends_at(buffer, end),
    ensures
        c_bytes(buffer) == Seq::new(end as nat, |i: int| buffer[i] as u8),
{
    let chosen = choose|n: int| ends_at(buffer, n);
    assert(ends_at(buffer, chosen));
    assert(chosen == end);
}

/// A string that leaves room for its NUL is read back as it was written.
pub proof fn law_read_gives_back_what_was_written(bytes: Seq<u8>, size: nat)
    requires
        is_nul_free(bytes),
        bytes.len() < size,
    ensures
        is_terminated(padded(bytes, size)),
        c_bytes(padded(bytes, size)) == bytes,
{
    let buffer = padded(bytes, size);
    assert forall|i: int| 0 <= i < bytes.len() implies buffer[i] != 0 && buffer[i] as u8
        == bytes[i] by {
        lemma_char_round_trip(bytes[i]);
    }
    assert(ends_at(buffer, bytes.len() as int));
    lemma_c_bytes(buffer, bytes.len() as int);
    assert(c_bytes(buffer) =~= bytes);
}

/// A string that fills the buffer leaves no NUL in it: its end is lost.
pub proof fn law_full_buffer_has_no_end(bytes: Seq<u8>, size: nat)
    requires
        is_nul_free(bytes),
        bytes.len() >= size,
    ensures
        !is_terminated(padded(bytes, size)),
{
    let buffer = padded(bytes, size);
    assert forall|i: int| 0 <= i < size implies buffer[i] != 0 by {
        lemma_char_round_trip(bytes[i]);
    }
}

/// Where the string held by `buffer` ends, if it does.
pub fn terminator(buffer: &[i8]) -> (end: Option<usize>)
    ensures
        match end {
            Some(n) => ends_at(buffer@, n as int),
            None => !is_terminated(buffer@),
        },
        match end {
            Some(n) => n < buffer@.len() && buffer@[n as int] == 0 && forall|i: int|
                0 <= i < n ==> #[trigger] buffer@[i] != 0,
            None => forall|i: int| 0 <= i < buffer@.len() ==> #[trigger] buffer@[i] != 0,
        },
{
    let mut i: usize = 0;
    while i < buffer.len()
        invariant
            i <= buffer.len(),
            forall|j: int| 0 <= j < i ==> buffer[j] != 0,
        decreases buffer.len() - i,
    {
        if buffer[i] == 0 {
            return Some(i);
        }
        i += 1;
    }
    None
}

/// The bytes of the string held by `buffer`, without its NUL.
pub fn read_c_string(buffer: &[i8]) -> (bytes: Vec<u8>)
    requires
        is_terminated(buffer@),
    ensures
        bytes@ == c_bytes(buffer@),
        bytes@.len() < buffer@.len(),
        buffer@[bytes@.len() as int] == 0,
        forall|i: int|
            0 <= i < bytes@.len() ==> (#[trigger] bytes@[i]) != 0 && bytes@[i] == buffer@[i] as u8,
{
    let ghost end = choose|n: int| ends_at(buffer@, n);
    assert(ends_at(buffer@, end));
    let mut bytes: Vec<u8> = Vec::new();
    let mut i: usize = 0;
    while buffer[i] != 0
        invariant
            ends_at(buffer@, end),
            i <= end,
            bytes@ == Seq::new(i as nat, |j: int| buffer@[j] as u8),
        decreases end - i,
    {
        bytes.push(buffer[i] as u8);
        i += 1;
    }
    proof {
        lemma_c_bytes(buffer@, i as int);
        assert forall|j: int| 0 <= j < i implies (#[trigger] bytes@[j]) != 0 by {
            lemma_byte_round_trip(buffer@[j]);
        }
    }
    bytes
}

/// Whether a NUL stands somewhere in `text`.
pub fn has_nul(text: &str) -> (found: bool)
    ensures
        found == !is_nul_free(encode_utf8(text@)),
        found == exists|i: int|
            0 <= i < encode_utf8(text@).len() && #[trigger] encode_utf8(text@)[i] == 0,
{
    let bytes = text.as_bytes();
    let mut i: usize = 0;
    while i < bytes.len()
        invariant
            i <= bytes.len(),
            bytes@ == encode_utf8(text@),
            forall|j: int| 0 <= j < i ==> bytes[j] != 0,
        decreases bytes.len() - i,
    {
        if bytes[i] == 0 {
            return true;
        }
        i += 1;
    }
    false
}

/// A path as a buffer of `MAX_PATH` characters, cut off where it is longer and
/// padded with NULs where it is shorter.
pub fn path_buffer(path: &str) -> (buffer: Vec<i8>)
    requires
        is_nul_free(encode_utf8(path@)),
    ensures
        buffer@ == padded(encode_utf8(path@), MAX_PATH as nat),
        buffer@.len() == 260,
        forall|i: int|
            0 <= i < 260 ==> #[trigger] buffer@[i] == if i < encode_utf8(path@).len() {
                encode_utf8(path@)[i] as i8
            } else {
                0i8
            },
{
    let bytes = path.as_bytes();
    let mut buffer: Vec<i8> = Vec::new();
    let mut i: usize = 0;
    while i < MAX_PATH
        invariant
            i <= MAX_PATH,
            bytes@ == encode_utf8(path@),
            buffer@ == padded(bytes@, i as nat),
        decreases MAX_PATH - i,
    {
        let c: i8 = if i < bytes.len() {
            bytes[i] as i8
        } else {
            0
        };
        buffer.push(c);
        i += 1;
    }
    buffer
}

/// A buffer holds a string if there is a NUL anywhere in it, and the string is all that
/// stands before the first one, character by character.
pub proof fn law_string_ends_at_the_first_nul(buffer: Seq<i8>, n: int)
    ensures
        is_terminated(buffer) <==> exists|k: int|
            0 <= k < buffer.len() && #[trigger] buffer[k] == 0,
        0 <= n < buffer.len() && buffer[n] == 0 && (forall|i: int|
            0 <= i < n ==> #[trigger] buffer[i] != 0) ==> {
            &&& c_bytes(buffer).len() == n
            &&& forall|i: int| 0 <= i < n ==> #[trigger] c_bytes(buffer)[i] == buffer[i] as u8
        },
{
    if exists|k: int| 0 <= k < buffer.len() && #[trigger] buffer[k] == 0 {
        let k = choose|k: int| 0 <= k < buffer.len() && #[trigger] buffer[k] == 0;
        lemma_first_nul(buffer, k);
    }
    if is_terminated(buffer) {
        let k = choose|k: int| ends_at(buffer, k);
        assert(buffer[k] == 0);
    }
    if 0 <= n < buffer.len() && buffer[n] == 0 && (forall|i: int|
        0 <= i < n ==> #[trigger] buffer[i] != 0) {
        assert(ends_at(buffer, n));
        lemma_c_bytes(buffer, n);
    }
}

proof fn lemma_first_nul(buffer: Seq<i8>, k: int)
    requires
        0 <= k < buffer.len(),
        buffer[k] == 0,
    ensures
        is_terminated(buffer),
    decreases k,
{
    if exists|j: int| 0 <= j < k && #[trigger] buffer[j] == 0 {
        let j = choose|j: int| 0 <= j < k && #[trigger] buffer[j] == 0;
        lemma_first_nul(buffer, j);
    } else {
        assert(ends_at(buffer, k));
    }
}

/// Bytes can be told apart from the NUL behind them exactly where none of them is NUL.
pub proof fn law_nul_free_bytes_hold_no_nul(bytes: Seq<u8>)
    ensures
        is_nul_free(bytes) <==> !bytes.contains(0),
{
    if !bytes.contains(0) {
        assert forall|i: int| 0 <= i < bytes.len() implies bytes[i] != 0 by {
            if bytes[i] == 0 {
                assert(bytes.contains(bytes[i]));
            }
        }
    }
}

/// A buffer has its size whatever is put into it; the bytes stand in it in their order as
/// far as there is room, and what is left over is NUL.
pub proof fn law_buffer_is_cut_off_and_padded(bytes: Seq<u8>, size: nat, i: int)
    requires
        0 <= i < size,
    ensures
        padded(bytes, size).len() == size,
        i < bytes.len() ==> padded(bytes, size)[i] as u8 == bytes[i],
        i >= bytes.len() ==> padded(bytes, size)[i] == 0,
{
    if i < bytes.len() {
        lemma_char_round_trip(bytes[i]);
    }
}

} // verus!
