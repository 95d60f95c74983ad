use my_elf_lib::error::decimal_string;
use my_elf_lib::ElfError;

#[test]
fn io_failure_message() {
    assert_eq!(ElfError::IoFailure.message(), "failed to read ELF identification from file");
}

#[test]
fn bad_magic_message() {
    assert_eq!(ElfError::BadMagic.message(), "magic number not found");
}

#[test]
fn invalid_class_message_ends_in_the_byte() {
    assert_eq!(ElfError::InvalidClass(3).message(), "invalid file class: 3");
    assert_eq!(ElfError::InvalidClass(0).message(), "invalid file class: 0");
}

#[test]
fn invalid_encoding_message_ends_in_the_byte() {
    assert_eq!(ElfError::InvalidEncoding(3).message(), "invalid data encoding: 3");
    assert_eq!(ElfError::InvalidEncoding(42).message(), "invalid data encoding: 42");
}

#[test]
fn invalid_version_message_ends_in_the_byte() {
    assert_eq!(ElfError::InvalidVersion(2).message(), "invalid header version: 2");
    assert_eq!(ElfError::InvalidVersion(255).message(), "invalid header version: 255");
}

#[test]
fn numerals_have_no_leading_zeros() {
    assert_eq!(decimal_string(0), "0");
    assert_eq!(decimal_string(7), "7");
    assert_eq!(decimal_string(9), "9");
    assert_eq!(decimal_string(10), "10");
    assert_eq!(decimal_string(99), "99");
    assert_eq!(decimal_string(100), "100");
    assert_eq!(decimal_string(101), "101");
    assert_eq!(decimal_string(110), "110");
    assert_eq!(decimal_string(255), "255");
}

#[test]
fn numerals_agree_with_the_standard_rendering() {
    for value in 0..=255u8 {
        assert_eq!(decimal_string(value), format!("{}", value));
    }
}

#[test]
fn errors_compare_by_kind_and_byte() {
    assert_eq!(ElfError::InvalidClass(3), ElfError::InvalidClass(3));
    assert_ne!(ElfError::InvalidClass(3), ElfError::InvalidClass(4));
    assert_ne!(ElfError::InvalidClass(3), ElfError::InvalidEncoding(3));
    assert_ne!(ElfError::IoFailure, ElfError::BadMagic);
}
