//! Words and their bytes: the two byte orders, the machine's own order as the
//! outside world hands it over, and the decoding of a SPIR-V module into words.
use vstd::prelude::*;
use vstd::slice::slice_subrange;

verus! {

/// The four bytes of a sequence, last first.
pub open spec fn flip4(b: Seq<u8>) -> Seq<u8> {
    seq![b[3], b[2], b[1], b[0]]
}

/// The eight bytes of a sequence, last first.
pub open spec fn flip8(b: Seq<u8>) -> Seq<u8> {
    seq![b[7], b[6], b[5], b[4], b[3], b[2], b[1], b[0]]
}

/// The word that four bytes hold, least significant byte first.
pub open spec fn le_u32(b: Seq<u8>) -> u32 {
    (b[0] as int + 0x100 * b[1] + 0x1_0000 * b[2] + 0x100_0000 * b[3]) as u32
}

/// The word that eight bytes hold, least significant byte first.
pub open spec fn le_u64(b: Seq<u8>) -> u64 {
    (b[0] as int + 0x100 * b[1] + 0x1_0000 * b[2] + 0x100_0000 * b[3] + 0x1_0000_0000 * b[4]
        + 0x100_0000_0000 * b[5] + 0x1_0000_0000_0000 * b[6] + 0x100_0000_0000_0000
        * b[7]) as u64
}

/// The word that four bytes hold in the given byte order.
pub open spec fn word_of(b: Seq<u8>, big: bool) -> u32 {
    if big {
        le_u32(flip4(b))
    } else {
        le_u32(b)
    }
}

/// The bytes of a word, least significant first.
pub open spec fn le_bytes(w: u32) -> Seq<u8> {
    seq![
        (w % 0x100) as u8,
        ((w / 0x100) % 0x100) as u8,
        ((w / 0x1_0000) % 0x100) as u8,
        (w / 0x100_0000) as u8,
    ]
}

/// The bytes of a word in the given byte order.
pub open spec fn word_bytes(w: u32, big: bool) -> Seq<u8> {
    if big {
        flip4(le_bytes(w))
    } else {
        le_bytes(w)
    }
}

/// The bytes of a sequence of words laid out one after another, each in the
/// given byte order.
pub open spec fn words_bytes(ws: Seq<u32>, big: bool) -> Seq<u8> {
    Seq::new(4 * ws.len(), |i: int| word_bytes(ws[i / 4], big)[i % 4])
}

/// The `i`-th word of a byte sequence in the given byte order.
pub open spec fn word_at(b: Seq<u8>, i: int, big: bool) -> u32 {
    word_of(b.subrange(4 * i, 4 * i + 4), big)
}

/// The words of a byte sequence whose length is a multiple of four.
pub open spec fn words_of(b: Seq<u8>, big: bool) -> Seq<u32> {
    Seq::new(b.len() / 4, |i: int| word_at(b, i, big))
}

/// Reading a word back from its bytes gives the word, in either byte order.
pub proof fn lemma_word_round_trip(w: u32, big: bool)
    ensures
        word_bytes(w, big).len() == 4,
        word_of(word_bytes(w, big), big) == w,
{
    let b = le_bytes(w);
    assert(flip4(flip4(b)) =~= b);
    assert(le_u32(b) == w);
}

/// Relies on `bytemuck::bytes_of`: a plain block of words is viewed as its
/// bytes in memory, each word's bytes in the machine's byte order.
#[verifier::external_body]
fn block_bytes(block: &[u32; 4]) -> (r: Vec<u8>)
    ensures
        r@ == words_bytes(block@, false) || r@ == words_bytes(block@, true),
{
    bytemuck::bytes_of(block).to_vec()
}

/// Relies on `u32::from_ne_bytes`: the word that four bytes hold in the
/// machine's byte order.
#[verifier::external_body]
fn native_u32(b: &[u8]) -> (r: u32)
    requires
        b@.len() == 4,
    ensures
        r == word_of(b@, false) || r == word_of(b@, true),
{
    u32::from_ne_bytes([b[0], b[1], b[2], b[3]])
}

/// Relies on `u64::from_ne_bytes`: the word that eight bytes hold in the
/// machine's byte order.
#[verifier::external_body]
fn native_u64(b: &[u8]) -> (r: u64)
    requires
        b@.len() == 8,
    ensures
        r == le_u64(b@) || r == le_u64(flip8(b@)),
{
    u64::from_ne_bytes([b[0], b[1], b[2], b[3], b[4], b[5], b[6], b[7]])
}

/// The bytes of a block of four words, as the GPU reads it from memory.
pub fn words_to_bytes(block: &[u32; 4]) -> (r: Vec<u8>)
    ensures
        r@.len() == 16,
        r@ == words_bytes(block@, false) || r@ == words_bytes(block@, true),
{
    block_bytes(block)
}

/// The first word of `bytes` in the machine's byte order; none when fewer than
/// four bytes are given.
pub fn read_u32(bytes: &Vec<u8>) -> (r: Option<u32>)
    ensures
        bytes@.len() < 4 ==> r is None,
        bytes@.len() >= 4 ==> (r matches Some(v) && (v == word_at(bytes@, 0, false) || v
            == word_at(bytes@, 0, true))),
{
    if bytes.len() < 4 {
        None
    } else {
        Some(native_u32(slice_subrange(bytes.as_slice(), 0, 4)))
    }
}

/// The `i`-th eight-byte word of `bytes` in the machine's byte order.
pub fn read_u64_at(bytes: &Vec<u8>, i: usize) -> (r: u64)
    requires
        8 * i + 8 <= bytes@.len(),
    ensures
        r == le_u64(bytes@.subrange(8 * i, 8 * i + 8)) || r == le_u64(
            flip8(bytes@.subrange(8 * i, 8 * i + 8)),
        ),
{
    let n = bytes.len();
    assert(8 * i + 8 <= n);
    native_u64(slice_subrange(bytes.as_slice(), 8 * i, 8 * i + 8))
}

/// The first word of every SPIR-V module.
pub const SPIRV_MAGIC: u32 = 0x0723_0203;

/// Why a byte sequence is not a SPIR-V module.
#[derive(Clone, Copy, Debug, PartialEq, Eq, Structural)]
pub enum BinaryError {
    /// No bytes at all.
    Empty,
    /// The length is not a whole number of words.
    NotWordAligned,
    /// The first word is the magic number in neither byte order.
    BadMagic,
}

/// The byte order a module is written in, told by its magic number: big
/// endian only where little endian does not give the magic number.
pub open spec fn module_order(b: Seq<u8>) -> Option<bool> {
    if word_at(b, 0, false) == SPIRV_MAGIC {
        Some(false)
    } else if word_at(b, 0, true) == SPIRV_MAGIC {
        Some(true)
    } else {
        None
    }
}

/// What decoding a SPIR-V binary gives: its words in the order its magic
/// number tells, or why it is malformed.
pub open spec fn spirv_spec(b: Seq<u8>) -> Result<Seq<u32>, BinaryError> {
    if b.len() == 0 {
        Err(BinaryError::Empty)
    } else if b.len() % 4 != 0 {
        Err(BinaryError::NotWordAligned)
    } else {
        match module_order(b) {
            Some(big) => Ok(words_of(b, big)),
            None => Err(BinaryError::BadMagic),
        }
    }
}

fn decode_word(b: &Vec<u8>, i: usize, big: bool) -> (r: u32)
    requires
        4 * i + 4 <= b@.len(),
    ensures
        r == word_at(b@, i as int, big),
{
    let n = b.len();
    let k = 4 * i;
    assert(k + 4 <= n);
    let (b0, b1, b2, b3) = if big {
        (b[k + 3], b[k + 2], b[k + 1], b[k])
    } else {
        (b[k], b[k + 1], b[k + 2], b[k + 3])
    };
    let ghost quad = b@.subrange(k as int, k + 4);
    assert(quad[0] == b@[k as int] && quad[1] == b@[k + 1] && quad[2] == b@[k + 2] && quad[3]
        == b@[k + 3]);
    b0 as u32 + 0x100 * (b1 as u32) + 0x1_0000 * (b2 as u32) + 0x100_0000 * (b3 as u32)
}

/// Decodes a SPIR-V binary into its words: it must be a non-empty whole number
/// of words whose first is the magic number, in either byte order; the words
/// are read in that order.
pub fn spirv_words(binary: &Vec<u8>) -> (r: Result<Vec<u32>, BinaryError>)
    ensures
        match (r, spirv_spec(binary@)) {
            (Ok(w), Ok(ws)) => w@ == ws,
            (Err(e), Err(f)) => e == f,
            _ => false,
        },
{
    let n = binary.len();
    if n == 0 {
        return Err(BinaryError::Empty);
    }
    if n % 4 != 0 {
        return Err(BinaryError::NotWordAligned);
    }
    let big = if decode_word(binary, 0, false) == SPIRV_MAGIC {
        false
    } else if decode_word(binary, 0, true) == SPIRV_MAGIC {
        true
    } else {
        return Err(BinaryError::BadMagic);
    };
    let count = n / 4;
    let mut words: Vec<u32> = Vec::new();
    let mut i: usize = 0;
    while i < count
        invariant
            count == binary@.len() / 4,
            n == binary@.len(),
            n % 4 == 0,
            i <= count,
            words@ == words_of(binary@, big).subrange(0, i as int),
        decreases count - i,
    {
        words.push(decode_word(binary, i, big));
        i = i + 1;
        assert(words@ =~= words_of(binary@, big).subrange(0, i as int));
    }
    assert(words@ =~= words_of(binary@, big));
    Ok(words)
}

} // verus!
