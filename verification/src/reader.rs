//! A forward-only reader over bytes held in memory.

use byteorder::ReadBytesExt;
use vstd::prelude::*;

use crate::error::ElfError;

verus! {

/// `std::io::Error`, which a read from an in-memory source hands back when
/// the source is exhausted. Nothing is known of a value of this type.
#[verifier::external_type_specification]
#[verifier::external_body]
pub struct ExIoError(std::io::Error);

/// Reads one byte with byteorder's `ReadBytesExt::read_u8`, from a
/// `std::io::Cursor` over `bytes` placed at `pos`.
///
/// Trusted: `read_u8` fills a one-byte buffer with `read_exact` and returns
/// that byte. On a cursor over a slice this succeeds exactly when a byte lies
/// at `pos`, and then yields that byte; at or past the end it reports an
/// unexpected end of file.
#[verifier::external_body]
fn read_u8_at(bytes: &[u8], pos: usize) -> (r: Result<u8, std::io::Error>)
    ensures
        r is Ok <==> pos < bytes@.len(),
        r matches Ok(byte) ==> byte == bytes@[pos as int],
{
    let mut cursor = std::io::Cursor::new(bytes);
    cursor.set_position(pos as u64);
    cursor.read_u8()
}

/// A source of bytes that is read from front to back, one byte at a time.
///
/// Its view is the sequence of bytes that have not been read yet: reading
/// takes the first of them away.
pub struct ByteReader {
    bytes: Vec<u8>,
    pos: usize,
}

impl View for ByteReader {
    type V = Seq<u8>;

    closed spec fn view(&self) -> Seq<u8> {
        self.bytes@.skip(self.pos as int)
    }
}

impl ByteReader {
    /// The position never lies beyond the end of the bytes.
    #[verifier::type_invariant]
    spec fn well_formed(&self) -> bool {
        self.pos <= self.bytes@.len()
    }

    /// A reader that has all of `bytes` before it.
    pub fn new(bytes: Vec<u8>) -> (reader: ByteReader)
        ensures
            reader@ == bytes@,
    {
        ByteReader { bytes, pos: 0 }
    }

    /// Reads the next byte. An exhausted reader reports `IoFailure` and stays
    /// exhausted.
    pub fn read_u8(&mut self) -> (r: Result<u8, ElfError>)
        ensures
            match r {
                Ok(byte) => {
                    &&& old(self)@.len() > 0
                    &&& byte == old(self)@[0]
                    &&& final(self)@ == old(self)@.skip(1)
                },
                Err(e) => {
                    &&& e == ElfError::IoFailure
                    &&& old(self)@.len() == 0
                    &&& final(self)@ == old(self)@
                },
            },
    {
        proof {
            use_type_invariant(&*self);
        }
        match read_u8_at(self.bytes.as_slice(), self.pos) {
            Ok(byte) => {
                assert(self.pos < self.bytes.len());
                self.pos = self.pos + 1;
                Ok(byte)
            },
            Err(_) => Err(ElfError::IoFailure),
        }
    }
}

} // verus!
