//! The entry point: a parser that decodes a file's identification prefix and
//! remembers the last record it decoded.

use vstd::prelude::*;

use crate::error::ElfError;
use crate::ident::Ident;

verus! {

/// What is known of an ELF file once its identification prefix is decoded.
#[derive(Debug, Clone, Copy, PartialEq, Eq, Structural)]
pub struct Elf {
    pub ident: Ident,
}

/// Decodes identification prefixes, keeping the record of the last success.
pub struct ElfParser {
    ident: Option<Ident>,
}

impl View for ElfParser {
    type V = Option<Ident>;

    /// The record of the last successful `parse`, if there was one.
    closed spec fn view(&self) -> Option<Ident> {
        self.ident
    }
}

impl ElfParser {
    /// Only records that passed every check are remembered.
    #[verifier::type_invariant]
    spec fn remembers_valid(&self) -> bool {
        self.ident matches Some(ident) ==> ident.valid()
    }

    /// A parser that has decoded nothing yet.
    pub fn new() -> (parser: ElfParser)
        ensures
            parser@ is None,
    {
        ElfParser { ident: None }
    }

    /// Decodes the identification prefix of a file whose content begins with
    /// `input`.
    ///
    /// It succeeds exactly on a well-formed prefix. On success the record is
    /// returned and remembered; on failure the error of the decoder is
    /// returned as it is and the parser remembers what it did before.
    pub fn parse(&mut self, input: &[u8]) -> (r: Result<Elf, ElfError>)
        ensures
            r is Ok <==> Ident::well_formed(input@),
            match Ident::decode(input@) {
                Ok(ident) => {
                    &&& r === Ok(Elf { ident })
                    &&& final(self)@ == Some(ident)
                },
                Err(e) => {
                    &&& r === Err(e)
                    &&& final(self)@ == old(self)@
                },
            },
    {
        let ident = Ident::parse(input)?;
        self.ident = Some(ident);
        Ok(Elf { ident })
    }

    /// The record of the last successful `parse`, if there was one. It is
    /// always a valid record.
    pub fn last_ident(&self) -> (r: Option<Ident>)
        ensures
            r == self@,
            r matches Some(ident) ==> ident.valid(),
    {
        proof {
            use_type_invariant(self);
        }
        self.ident
    }
}

} // verus!
