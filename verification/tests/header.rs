use dylink::DylinkError;
use dylink::header_size;

/// An ELF header stub: magic, the given class byte, zero padding up to
/// the 16-bit `e_ehsize` field at `off`, then `val` little-endian.
fn elf_with_ehsize(class: u8, off: usize, val: u16) -> Vec<u8> {
    let mut v = vec![0x7f, b'E', b'L', b'F', class];
    while v.len() < off {
        v.push(0);
    }
    v.push((val & 0xff) as u8);
    v.push((val >> 8) as u8);
    v
}

/// A Mach-O header stub: the given magic, zero padding up to the 32-bit
/// `sizeofcmds` field at offset 20, then `cmds` little-endian, then
/// padding out to 24 bytes.
fn macho_with_sizeofcmds(magic: [u8; 4], cmds: u32) -> Vec<u8> {
    let mut v = magic.to_vec();
    while v.len() < 20 {
        v.push(0);
    }
    v.extend_from_slice(&cmds.to_le_bytes());
    v
}

#[test]
fn test_elf64_header_size_is_announced_value() {
    let buf = elf_with_ehsize(2, 52, 0x1234);
    assert_eq!(header_size(&buf).unwrap(), 0x1234);
}

#[test]
fn test_elf32_header_size_is_announced_value() {
    let buf = elf_with_ehsize(1, 40, 52);
    assert_eq!(header_size(&buf).unwrap(), 52);
}

#[test]
fn test_macho32_header_size_adds_fixed_part() {
    let buf = macho_with_sizeofcmds([0xce, 0xfa, 0xed, 0xfe], 0x500);
    assert_eq!(header_size(&buf).unwrap(), 28 + 0x500);
}

#[test]
fn test_macho64_header_size_adds_fixed_part() {
    let buf = macho_with_sizeofcmds([0xcf, 0xfa, 0xed, 0xfe], 0);
    assert_eq!(header_size(&buf).unwrap(), 32);
}

#[test]
fn test_unrecognized_magic_is_malformed() {
    let buf = vec![b'M', b'Z', 0, 0, 0, 0, 0, 0];
    assert!(matches!(header_size(&buf), Err(DylinkError::MalformedImage)));
}

#[test]
fn test_empty_buffer_is_malformed() {
    let buf: Vec<u8> = Vec::new();
    assert!(matches!(header_size(&buf), Err(DylinkError::MalformedImage)));
}

#[test]
fn test_elf_with_unknown_class_is_malformed() {
    let buf = elf_with_ehsize(9, 52, 64);
    assert!(matches!(header_size(&buf), Err(DylinkError::MalformedImage)));
}

#[test]
fn test_truncated_elf64_is_malformed() {
    // ELF64 magic and class, but the buffer ends before the e_ehsize field.
    let buf = vec![0x7f, b'E', b'L', b'F', 2, 0, 0, 0];
    assert!(matches!(header_size(&buf), Err(DylinkError::MalformedImage)));
}

#[test]
fn test_truncated_macho_is_malformed() {
    let buf = vec![0xce, 0xfa, 0xed, 0xfe, 0, 0];
    assert!(matches!(header_size(&buf), Err(DylinkError::MalformedImage)));
}

#[test]
fn test_macho32_header_size_at_largest_field() {
    let buf = macho_with_sizeofcmds([0xce, 0xfa, 0xed, 0xfe], u32::MAX);
    assert_eq!(header_size(&buf).unwrap(), 28 + u32::MAX as usize);
}
