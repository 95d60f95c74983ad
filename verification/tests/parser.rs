use my_elf_lib::{DataEncoding, Elf, ElfError, ElfParser, ElfResult, FileClass, Ident};

const VALID_64_LE: [u8; 16] = [0x7f, 0x45, 0x4c, 0x46, 2, 1, 1, 0, 0, 0, 0, 0, 0, 0, 0, 0];
const VALID_32_BE: [u8; 16] = [0x7f, 0x45, 0x4c, 0x46, 1, 2, 1, 0, 0, 0, 0, 0, 0, 0, 0, 0];

#[test]
fn new_parser_remembers_nothing() {
    let parser = ElfParser::new();
    assert_eq!(parser.last_ident(), None);
}

#[test]
fn parser_returns_and_remembers_the_record() {
    let mut parser = ElfParser::new();
    let expected = Ident { class: FileClass::Class64, encoding: DataEncoding::Data2Lsb, version: 1 };
    assert_eq!(parser.parse(&VALID_64_LE), Ok(Elf { ident: expected }));
    assert_eq!(parser.last_ident(), Some(expected));
}

#[test]
fn parser_agrees_with_the_decoder() {
    let mut parser = ElfParser::new();
    let elf = parser.parse(&VALID_32_BE).unwrap();
    assert_eq!(Ok(elf.ident), Ident::parse(&VALID_32_BE));
}

#[test]
fn parser_hands_on_each_error() {
    let mut parser = ElfParser::new();
    let mut bytes = VALID_64_LE;
    assert_eq!(parser.parse(&bytes[..10]), Err(ElfError::IoFailure));
    bytes[3] = 0x47;
    assert_eq!(parser.parse(&bytes), Err(ElfError::BadMagic));
    bytes[3] = 0x46;
    bytes[4] = 3;
    assert_eq!(parser.parse(&bytes), Err(ElfError::InvalidClass(3)));
    bytes[4] = 1;
    bytes[5] = 3;
    assert_eq!(parser.parse(&bytes), Err(ElfError::InvalidEncoding(3)));
    bytes[5] = 1;
    bytes[6] = 2;
    assert_eq!(parser.parse(&bytes), Err(ElfError::InvalidVersion(2)));
    assert_eq!(parser.last_ident(), None);
}

#[test]
fn failure_keeps_the_earlier_record() {
    let mut parser = ElfParser::new();
    let first = parser.parse(&VALID_64_LE).unwrap();
    assert_eq!(parser.parse(&[0u8; 16]), Err(ElfError::BadMagic));
    assert_eq!(parser.last_ident(), Some(first.ident));
    assert_eq!(parser.parse(&[]), Err(ElfError::IoFailure));
    assert_eq!(parser.last_ident(), Some(first.ident));
}

#[test]
fn later_success_replaces_the_record() {
    let mut parser = ElfParser::new();
    parser.parse(&VALID_64_LE).unwrap();
    let second = parser.parse(&VALID_32_BE).unwrap();
    assert_eq!(
        second.ident,
        Ident { class: FileClass::Class32, encoding: DataEncoding::Data2Msb, version: 1 }
    );
    assert_eq!(parser.last_ident(), Some(second.ident));
}

#[test]
fn remembered_record_has_the_current_version() {
    let mut parser = ElfParser::new();
    parser.parse(&VALID_64_LE).unwrap();
    assert_eq!(parser.last_ident().map(|ident| ident.version), Some(1));
}

#[test]
fn parsers_do_not_share_what_they_remember() {
    let mut first = ElfParser::new();
    let second = ElfParser::new();
    first.parse(&VALID_64_LE).unwrap();
    assert_eq!(second.last_ident(), None);
}

#[test]
fn result_alias_names_the_error() {
    let result: ElfResult<Elf> = ElfParser::new().parse(&VALID_64_LE);
    assert!(result.is_ok());
}
