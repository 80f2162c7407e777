//! Streaming MD5 checksums: bytes are fed in chunks of any size and the
//! digest is rendered as lowercase hexadecimal.

use vstd::prelude::*;

verus! {

#[verifier::external_type_specification]
#[verifier::external_body]
pub struct ExMd5Context(md5::Context);

/// The bytes an MD5 context has consumed so far, in order.
pub uninterp spec fn md5_input(ctx: md5::Context) -> Seq<u8>;

/// The sixteen digest bytes of MD5 over `data`.
pub uninterp spec fn md5_digest(data: Seq<u8>) -> Seq<u8>;

/// Relies on `md5::Context::new`: a context that has consumed nothing.
#[verifier::external_body]
fn md5_context_new() -> (r: md5::Context)
    ensures
        md5_input(r) == Seq::<u8>::empty(),
{
    md5::Context::new()
}

/// Relies on `md5::Context::consume`: the chunk is appended to what the
/// context has consumed.
#[verifier::external_body]
fn md5_consume(ctx: &mut md5::Context, data: &[u8])
    ensures
        md5_input(*final(ctx)) == md5_input(*old(ctx)) + data@,
{
    ctx.consume(data)
}

/// Relies on `md5::Context::compute`: the digest of everything consumed.
#[verifier::external_body]
fn md5_compute(ctx: md5::Context) -> (r: [u8; 16])
    ensures
        r@ == md5_digest(md5_input(ctx)),
{
    ctx.compute().0
}

/// The name under which the digest algorithm is reported.
pub const CHECKSUM_ALGORITHM: &'static str = "MD5";

const HEX_DIGITS: &'static str = "0123456789abcdef";

/// The lowercase hexadecimal digit of `n < 16`.
pub open spec fn hex_char(n: int) -> char {
    "0123456789abcdef"@[n]
}

/// Each byte as two lowercase hexadecimal digits, high nibble first.
pub open spec fn lower_hex(bytes: Seq<u8>) -> Seq<char>
    decreases bytes.len(),
{
    if bytes.len() == 0 {
        Seq::empty()
    } else {
        let b = bytes.last() as int;
        lower_hex(bytes.drop_last()) + seq![hex_char(b / 16), hex_char(b % 16)]
    }
}

proof fn lemma_lower_hex_len(bytes: Seq<u8>)
    ensures
        lower_hex(bytes).len() == 2 * bytes.len(),
    decreases bytes.len(),
{
    if bytes.len() > 0 {
        lemma_lower_hex_len(bytes.drop_last());
    }
}

/// A content checksum: the algorithm's name and the digest in lowercase
/// hexadecimal.
#[derive(Debug, Clone)]
pub struct Checksum {
    pub type_: Option<String>,
    pub value: Option<String>,
}

/// `c` is the MD5 checksum of `data`.
pub open spec fn is_md5_checksum_of(c: Checksum, data: Seq<u8>) -> bool {
    &&& c.type_ is Some
    &&& c.type_.unwrap()@ == CHECKSUM_ALGORITHM@
    &&& c.value is Some
    &&& c.value.unwrap()@ == lower_hex(md5_digest(data))
}

fn push_hex_digit(s: &mut String, n: u8)
    requires
        n < 16,
    ensures
        final(s)@ == old(s)@.push(hex_char(n as int)),
{
    proof {
        reveal_strlit("0123456789abcdef");
    }
    let d = HEX_DIGITS.substring_char(n as usize, n as usize + 1);
    assert(d@ =~= seq![hex_char(n as int)]);
    s.append(d);
}

/// Renders bytes as lowercase hexadecimal, two digits per byte.
pub fn to_lower_hex(bytes: &[u8]) -> (r: String)
    ensures
        r@ == lower_hex(bytes@),
{
    let mut s = String::new();
    let mut i: usize = 0;
    while i < bytes.len()
        invariant
            i <= bytes@.len(),
            s@ == lower_hex(bytes@.subrange(0, i as int)),
        decreases bytes@.len() - i,
    {
        let b = bytes[i];
        push_hex_digit(&mut s, b / 16);
        push_hex_digit(&mut s, b % 16);
        proof {
            let next = bytes@.subrange(0, i + 1);
            assert(next.drop_last() =~= bytes@.subrange(0, i as int));
            assert(next.last() == b);
        }
        i += 1;
    }
    assert(bytes@.subrange(0, bytes@.len() as int) =~= bytes@);
    s
}

/// Computes a checksum incrementally over a byte stream, one chunk at a
/// time, so that the whole content never has to be held at once.
pub struct ChecksumCalculator {
    ctx: md5::Context,
}

impl ChecksumCalculator {
    /// The bytes fed in so far.
    pub closed spec fn consumed(&self) -> Seq<u8> {
        md5_input(self.ctx)
    }

    pub fn new() -> (r: ChecksumCalculator)
        ensures
            r.consumed() == Seq::<u8>::empty(),
    {
        ChecksumCalculator { ctx: md5_context_new() }
    }

    /// Feeds the next chunk of the stream.
    pub fn update(&mut self, chunk: &[u8])
        ensures
            final(self).consumed() == old(self).consumed() + chunk@,
    {
        md5_consume(&mut self.ctx, chunk);
    }

    /// The checksum of everything fed in.
    pub fn finish(self) -> (r: Checksum)
        ensures
            is_md5_checksum_of(r, self.consumed()),
            r.value.unwrap()@.len() == 32,
    {
        let digest = md5_compute(self.ctx);
        proof {
            lemma_lower_hex_len(digest@);
        }
        let value = to_lower_hex(&digest);
        Checksum { type_: Some(CHECKSUM_ALGORITHM.to_owned()), value: Some(value) }
    }
}

/// A checksum is a function of the content alone: however the bytes were cut
/// into chunks, two streams with the same content give the same digest.
pub proof fn lemma_checksum_ignores_chunking(
    a: Checksum,
    b: Checksum,
    chunks_a: Seq<Seq<u8>>,
    chunks_b: Seq<Seq<u8>>,
)
    requires
        is_md5_checksum_of(a, chunks_a.flatten()),
        is_md5_checksum_of(b, chunks_b.flatten()),
        chunks_a.flatten() == chunks_b.flatten(),
    ensures
        a.type_.unwrap()@ == b.type_.unwrap()@,
        a.value.unwrap()@ == b.value.unwrap()@,
{
}

} // verus!
