//! SHA-256 digests of files, written in hexadecimal.
use vstd::prelude::*;
use sha2::{Digest, Sha256};

verus! {

/// `sha2::Sha256`, read through [`absorbed`].
#[verifier::external_type_specification]
#[verifier::external_body]
pub struct ExSha256(sha2::Sha256);

/// The bytes that a hasher holds: all that it was given, in order.
pub uninterp spec fn absorbed(hasher: Sha256) -> Seq<u8>;

/// The SHA-256 digest of these bytes.
pub uninterp spec fn sha256(bytes: Seq<u8>) -> Seq<u8>;

/// The hexadecimal digit of a value below sixteen, with small letters.
pub open spec fn hex_digit(n: u8) -> char {
    if n < 10 {
        (48 + n) as char
    } else {
        (87 + n) as char
    }
}

/// Bytes in hexadecimal: two digits each, the high one first.
pub open spec fn hex_digits(bytes: Seq<u8>) -> Seq<char>
    decreases bytes.len(),
{
    if bytes.len() == 0 {
        seq![]
    } else {
        hex_digits(bytes.drop_last()).push(hex_digit(bytes.last() / 16)).push(
            hex_digit(bytes.last() % 16),
        )
    }
}

/// The digest of a file with these bytes, in hexadecimal.
pub open spec fn file_digest(bytes: Seq<u8>) -> Seq<char> {
    hex_digits(sha256(bytes))
}

/// `sha2::Sha256::new`: a hasher that was given nothing.
#[verifier::external_body]
fn sha256_new() -> (r: Sha256)
    ensures
        absorbed(r) == Seq::<u8>::empty(),
{
    Sha256::new()
}

/// `sha2::Sha256::update`: the hasher is given more bytes.
#[verifier::external_body]
fn sha256_update(hasher: &mut Sha256, bytes: &[u8])
    ensures
        absorbed(*final(hasher)) == absorbed(*old(hasher)) + bytes@,
{
    hasher.update(bytes);
}

/// `sha2::Sha256::finalize`: the digest of what the hasher was given, 32 bytes.
#[verifier::external_body]
fn sha256_finalize(hasher: Sha256) -> (r: Vec<u8>)
    ensures
        r@ == sha256(absorbed(hasher)),
        r@.len() == 32,
{
    hasher.finalize().to_vec()
}

/// `hex::encode`: the bytes in hexadecimal, with small letters.
#[verifier::external_body]
fn hex_encode(bytes: &[u8]) -> (r: String)
    ensures
        r@ == hex_digits(bytes@),
{
    hex::encode(bytes)
}

/// The digest of a file that is read piece by piece.
pub struct FileHasher {
    hasher: Sha256,
}

impl View for FileHasher {
    type V = Seq<u8>;

    /// The bytes read so far.
    closed spec fn view(&self) -> Seq<u8> {
        absorbed(self.hasher)
    }
}

impl FileHasher {
    /// Nothing was read yet.
    pub fn new() -> (r: Self)
        ensures
            r@ == Seq::<u8>::empty(),
    {
        FileHasher { hasher: sha256_new() }
    }

    /// Takes the next piece of the file.
    pub fn update(&mut self, bytes: &[u8])
        ensures
            final(self)@ == old(self)@ + bytes@,
    {
        sha256_update(&mut self.hasher, bytes);
    }

    /// The digest of all pieces together.
    pub fn finish(self) -> (r: String)
        ensures
            r@ == file_digest(self@),
            r@.len() == 64,
    {
        let digest = sha256_finalize(self.hasher);
        proof {
            law_hexadecimal_has_two_digits_for_a_byte(digest@);
        }
        hex_encode(digest.as_slice())
    }
}

/// A small hexadecimal digit.
pub open spec fn is_small_hex_digit(c: char) -> bool {
    '0' <= c <= '9' || 'a' <= c <= 'f'
}

/// Hexadecimal text has two digits for each byte, and nothing but digits and small letters.
pub proof fn law_hexadecimal_has_two_digits_for_a_byte(bytes: Seq<u8>)
    ensures
        hex_digits(bytes).len() == 2 * bytes.len(),
        forall|i: int|
            0 <= i < hex_digits(bytes).len() ==> is_small_hex_digit(#[trigger] hex_digits(bytes)[i]),
    decreases bytes.len(),
{
    if bytes.len() > 0 {
        law_hexadecimal_has_two_digits_for_a_byte(bytes.drop_last());
    }
}

/// Different bytes have different hexadecimal texts.
pub proof fn law_hexadecimal_tells_bytes_apart(a: Seq<u8>, b: Seq<u8>)
    requires
        hex_digits(a) == hex_digits(b),
    ensures
        a == b,
    decreases a.len(),
{
    law_hexadecimal_has_two_digits_for_a_byte(a);
    law_hexadecimal_has_two_digits_for_a_byte(b);
    if a.len() > 0 {
        let x = hex_digits(a);
        let y = hex_digits(b);
        let n = x.len();
        law_hexadecimal_has_two_digits_for_a_byte(a.drop_last());
        law_hexadecimal_has_two_digits_for_a_byte(b.drop_last());
        assert(x[n - 2] == hex_digit(a.last() / 16) && x[n - 1] == hex_digit(a.last() % 16));
        assert(y[n - 2] == hex_digit(b.last() / 16) && y[n - 1] == hex_digit(b.last() % 16));
        assert(hex_digits(a.drop_last()) =~= x.take(n - 2));
        assert(hex_digits(b.drop_last()) =~= y.take(n - 2));
        law_hexadecimal_tells_bytes_apart(a.drop_last(), b.drop_last());
        assert(a.last() == b.last());
        assert(a =~= a.drop_last().push(a.last()));
        assert(b =~= b.drop_last().push(b.last()));
    } else {
        assert(a =~= b);
    }
}

} // verus!
