//! The identification prefix: its layout, its fields and its decoder.
//!
//! | bytes   | field                         |
//! |---------|-------------------------------|
//! | 0 to 3  | magic number `7f 45 4c 46`    |
//! | 4       | file class, 1 or 2            |
//! | 5       | data encoding, 1 or 2         |
//! | 6       | header version, 1             |
//! | 7 to 15 | padding, read and not judged  |

use vstd::prelude::*;

use crate::error::ElfError;
use crate::reader::ByteReader;

verus! {

/// The length of the identification prefix, in bytes.
pub const EI_NIDENT: usize = 16;

/// The first byte of the magic number.
pub const ELF_MAG0: u8 = 0x7f;

/// The second byte of the magic number, the letter `E`.
pub const ELF_MAG1: u8 = 0x45;

/// The third byte of the magic number, the letter `L`.
pub const ELF_MAG2: u8 = 0x4c;

/// The fourth byte of the magic number, the letter `F`.
pub const ELF_MAG3: u8 = 0x46;

/// The only version of the header that is defined.
pub const EV_CURRENT: u8 = 1;

/// The four bytes of the magic number, in their order.
pub open spec fn magic() -> Seq<u8> {
    seq![ELF_MAG0, ELF_MAG1, ELF_MAG2, ELF_MAG3]
}

/// Whether `bytes` begins with the four bytes of the magic number.
pub open spec fn has_magic(bytes: Seq<u8>) -> bool {
    &&& bytes.len() >= 4
    &&& bytes[0] == ELF_MAG0
    &&& bytes[1] == ELF_MAG1
    &&& bytes[2] == ELF_MAG2
    &&& bytes[3] == ELF_MAG3
}

/// The width of the addresses and offsets in the file.
#[derive(Debug, Clone, Copy, PartialEq, Eq, Structural)]
pub enum FileClass {
    /// 32-bit objects, class byte 1.
    Class32,
    /// 64-bit objects, class byte 2.
    Class64,
}

/// The byte order of the multi-byte values in the file.
#[derive(Debug, Clone, Copy, PartialEq, Eq, Structural)]
pub enum DataEncoding {
    /// Two's complement, least significant byte first; encoding byte 1.
    Data2Lsb,
    /// Two's complement, most significant byte first; encoding byte 2.
    Data2Msb,
}

/// A decoded identification prefix.
#[derive(Debug, Clone, Copy, PartialEq, Eq, Structural)]
pub struct Ident {
    pub class: FileClass,
    pub encoding: DataEncoding,
    pub version: u8,
}

impl FileClass {
    /// The class that a class byte selects, if it selects one.
    pub open spec fn from_byte(value: u8) -> Option<FileClass> {
        if value == 1 {
            Some(FileClass::Class32)
        } else if value == 2 {
            Some(FileClass::Class64)
        } else {
            None
        }
    }

    /// What decoding a class byte gives: the class, or the byte as the error.
    pub open spec fn decode(value: u8) -> Result<FileClass, ElfError> {
        match FileClass::from_byte(value) {
            Some(class) => Ok(class),
            None => Err(ElfError::InvalidClass(value)),
        }
    }

    /// Reads one byte and decodes it as the file class.
    ///
    /// A byte is consumed whenever one is left, whether or not it is a valid
    /// class; an exhausted reader gives `IoFailure`.
    pub fn parse(reader: &mut ByteReader) -> (r: Result<FileClass, ElfError>)
        ensures
            old(reader)@.len() == 0 ==> {
                &&& r === Err(ElfError::IoFailure)
                &&& final(reader)@ == old(reader)@
            },
            old(reader)@.len() > 0 ==> {
                &&& r == FileClass::decode(old(reader)@[0])
                &&& final(reader)@ == old(reader)@.skip(1)
            },
    {
        let value = reader.read_u8()?;
        match value {
            1 => Ok(FileClass::Class32),
            2 => Ok(FileClass::Class64),
            c => Err(ElfError::InvalidClass(c)),
        }
    }
}

impl DataEncoding {
    /// The encoding that an encoding byte selects, if it selects one.
    pub open spec fn from_byte(value: u8) -> Option<DataEncoding> {
        if value == 1 {
            Some(DataEncoding::Data2Lsb)
        } else if value == 2 {
            Some(DataEncoding::Data2Msb)
        } else {
            None
        }
    }

    /// What decoding an encoding byte gives: the encoding, or the byte as the
    /// error.
    pub open spec fn decode(value: u8) -> Result<DataEncoding, ElfError> {
        match DataEncoding::from_byte(value) {
            Some(encoding) => Ok(encoding),
            None => Err(ElfError::InvalidEncoding(value)),
        }
    }

    /// Reads one byte and decodes it as the data encoding.
    ///
    /// A byte is consumed whenever one is left, whether or not it is a valid
    /// encoding; an exhausted reader gives `IoFailure`.
    pub fn parse(reader: &mut ByteReader) -> (r: Result<DataEncoding, ElfError>)
        ensures
            old(reader)@.len() == 0 ==> {
                &&& r === Err(ElfError::IoFailure)
                &&& final(reader)@ == old(reader)@
            },
            old(reader)@.len() > 0 ==> {
                &&& r == DataEncoding::decode(old(reader)@[0])
                &&& final(reader)@ == old(reader)@.skip(1)
            },
    {
        let value = reader.read_u8()?;
        match value {
            1 => Ok(DataEncoding::Data2Lsb),
            2 => Ok(DataEncoding::Data2Msb),
            e => Err(ElfError::InvalidEncoding(e)),
        }
    }
}

impl Ident {
    /// A record is valid when its version is the current one. Every record
    /// that the decoder returns is valid.
    pub open spec fn valid(&self) -> bool {
        self.version == EV_CURRENT
    }

    /// What checking the magic number at the head of `bytes` gives.
    pub open spec fn decode_magic(bytes: Seq<u8>) -> Result<(), ElfError> {
        if has_magic(bytes) {
            Ok(())
        } else {
            Err(ElfError::BadMagic)
        }
    }

    /// What decoding a version byte gives: the byte itself if it is the
    /// current version, else the byte as the error.
    pub open spec fn decode_version(value: u8) -> Result<u8, ElfError> {
        if value == EV_CURRENT {
            Ok(value)
        } else {
            Err(ElfError::InvalidVersion(value))
        }
    }

    /// Whether `bytes` begins with a prefix that passes every check: sixteen
    /// bytes or more, the magic number, a class byte and an encoding byte
    /// that each select a variant, and the current version.
    pub open spec fn well_formed(bytes: Seq<u8>) -> bool {
        &&& bytes.len() >= EI_NIDENT
        &&& has_magic(bytes)
        &&& FileClass::from_byte(bytes[4]) is Some
        &&& DataEncoding::from_byte(bytes[5]) is Some
        &&& bytes[6] == EV_CURRENT
    }

    /// The meaning of an identification prefix: what the decoder returns for
    /// a source that yields `bytes`.
    ///
    /// The fields are judged in the order of their layout, and the first one
    /// that fails decides the error. Bytes 7 to 15 and whatever follows the
    /// prefix have no say.
    pub open spec fn decode(bytes: Seq<u8>) -> Result<Ident, ElfError> {
        if bytes.len() < EI_NIDENT {
            Err(ElfError::IoFailure)
        } else if !has_magic(bytes) {
            Err(ElfError::BadMagic)
        } else {
            match (FileClass::from_byte(bytes[4]), DataEncoding::from_byte(bytes[5])) {
                (None, _) => Err(ElfError::InvalidClass(bytes[4])),
                (Some(_), None) => Err(ElfError::InvalidEncoding(bytes[5])),
                (Some(class), Some(encoding)) => if bytes[6] == EV_CURRENT {
                    Ok(Ident { class, encoding, version: EV_CURRENT })
                } else {
                    Err(ElfError::InvalidVersion(bytes[6]))
                },
            }
        }
    }

    /// Reads four bytes and compares them with the magic number.
    ///
    /// All four bytes are consumed before they are compared. A reader with
    /// fewer than four bytes left is read to its end and gives `IoFailure`.
    pub fn check_magic(reader: &mut ByteReader) -> (r: Result<(), ElfError>)
        ensures
            old(reader)@.len() < 4 ==> {
                &&& r === Err(ElfError::IoFailure)
                &&& final(reader)@.len() == 0
            },
            old(reader)@.len() >= 4 ==> {
                &&& r == Ident::decode_magic(old(reader)@)
                &&& final(reader)@ == old(reader)@.skip(4)
            },
    {
        let mag0 = reader.read_u8()?;
        let mag1 = reader.read_u8()?;
        let mag2 = reader.read_u8()?;
        let mag3 = reader.read_u8()?;
        if mag0 == ELF_MAG0 && mag1 == ELF_MAG1 && mag2 == ELF_MAG2 && mag3 == ELF_MAG3 {
            Ok(())
        } else {
            Err(ElfError::BadMagic)
        }
    }

    /// Reads one byte and accepts it if it is the current version.
    ///
    /// A byte is consumed whenever one is left; an exhausted reader gives
    /// `IoFailure`.
    pub fn parse_version(reader: &mut ByteReader) -> (r: Result<u8, ElfError>)
        ensures
            old(reader)@.len() == 0 ==> {
                &&& r === Err(ElfError::IoFailure)
                &&& final(reader)@ == old(reader)@
            },
            old(reader)@.len() > 0 ==> {
                &&& r == Ident::decode_version(old(reader)@[0])
                &&& final(reader)@ == old(reader)@.skip(1)
            },
    {
        let version = reader.read_u8()?;
        match version {
            EV_CURRENT => Ok(version),
            v => Err(ElfError::InvalidVersion(v)),
        }
    }

    /// Decodes the identification prefix of a source that yields `input`.
    ///
    /// The first sixteen bytes are taken into a buffer of their own and read
    /// from there, field by field; what follows them is never looked at.
    ///
    /// Every input has exactly one outcome. A source of fewer than sixteen
    /// bytes fails as an `IoFailure`, whatever its bytes are. Of a longer one
    /// the magic number, the class, the encoding and the version are judged
    /// in this order, and the first that fails is the error, with the byte
    /// that was found. If none fails, the record holds the class and the
    /// encoding that the two bytes select, and the current version.
    pub fn parse(input: &[u8]) -> (r: Result<Ident, ElfError>)
        ensures
            r == Ident::decode(input@),
            r is Ok <==> Ident::well_formed(input@),
            r matches Ok(ident) ==> {
                &&& ident.valid()
                &&& FileClass::from_byte(input@[4]) == Some(ident.class)
                &&& DataEncoding::from_byte(input@[5]) == Some(ident.encoding)
            },
            input@.len() < EI_NIDENT ==> r === Err(ElfError::IoFailure),
            input@.len() >= EI_NIDENT ==> {
                let magic = has_magic(input@);
                let class = FileClass::from_byte(input@[4]);
                let encoding = DataEncoding::from_byte(input@[5]);
                let version = input@[6];
                &&& !magic ==> r === Err(ElfError::BadMagic)
                &&& magic && class is None ==> r === Err(ElfError::InvalidClass(input@[4]))
                &&& magic && class is Some && encoding is None ==> r === Err(
                    ElfError::InvalidEncoding(input@[5]),
                )
                &&& magic && class is Some && encoding is Some && version != EV_CURRENT ==> r
                    === Err(ElfError::InvalidVersion(version))
            },
    {
        if input.len() < EI_NIDENT {
            return Err(ElfError::IoFailure);
        }
        let mut buf: Vec<u8> = Vec::with_capacity(EI_NIDENT);
        let mut i: usize = 0;
        while i < EI_NIDENT
            invariant
                i <= EI_NIDENT <= input@.len(),
                buf@ == input@.take(i as int),
            decreases EI_NIDENT - i,
        {
            buf.push(input[i]);
            i = i + 1;
        }
        let mut reader = ByteReader::new(buf);
        Ident::check_magic(&mut reader)?;
        let class = FileClass::parse(&mut reader)?;
        let encoding = DataEncoding::parse(&mut reader)?;
        let version = Ident::parse_version(&mut reader)?;
        Ok(Ident { class, encoding, version })
    }
}

/// How many leading bytes of a prefix decide what the decoder returns: the
/// bytes up to the first field that fails, or all seven if none fails.
pub open spec fn decisive_len(bytes: Seq<u8>) -> nat {
    if !has_magic(bytes) {
        4
    } else if FileClass::from_byte(bytes[4]) is None {
        5
    } else if DataEncoding::from_byte(bytes[5]) is None {
        6
    } else {
        7
    }
}

/// All four bytes of the magic number count: a prefix that differs from it
/// at any one of the four positions is rejected as `BadMagic`, whatever the
/// other bytes are.
pub proof fn wrong_magic_byte_is_rejected(bytes: Seq<u8>, k: int)
    requires
        bytes.len() >= EI_NIDENT,
        0 <= k < 4,
        bytes[k] != magic()[k],
    ensures
        Ident::decode(bytes) === Err(ElfError::BadMagic),
{
}

/// The decoder stops at the first field that fails: two sources of sixteen
/// bytes or more that agree up to that field have the same outcome, whatever
/// stands in the fields behind it. Where no field fails, the seven bytes of
/// the fields decide, and bytes 7 to 15 have no say.
pub proof fn decode_stops_at_first_failure(a: Seq<u8>, b: Seq<u8>)
    requires
        a.len() >= EI_NIDENT,
        b.len() >= EI_NIDENT,
        a.take(decisive_len(a) as int) == b.take(decisive_len(a) as int),
    ensures
        Ident::decode(a) == Ident::decode(b),
{
    let n = decisive_len(a) as int;
    assert forall|i: int| 0 <= i < n implies a[i] == b[i] by {
        assert(a.take(n)[i] == a[i]);
        assert(b.take(n)[i] == b[i]);
    }
}

} // verus!
