//! Parsing the fixed-offset fields of native image headers.
//!
//! Only the leading magic bytes, the ELF class byte, and the one
//! header-size field of the recognized format are ever read; no section,
//! symbol-table or relocation data is interpreted.

use vstd::prelude::*;

use crate::error::DylinkError;

verus! {

/// The little-endian 16-bit value stored at byte offset `i`.
pub open spec fn spec_le16(b: Seq<u8>, i: int) -> nat {
    (b[i] + 0x100 * b[i + 1]) as nat
}

/// The little-endian 32-bit value stored at byte offset `i`.
pub open spec fn spec_le32(b: Seq<u8>, i: int) -> nat {
    (b[i] + 0x100 * b[i + 1] + 0x10000 * b[i + 2] + 0x1000000 * b[i + 3]) as nat
}

/// The buffer starts with the ELF magic and is long enough to carry the
/// class byte that follows it.
pub open spec fn spec_is_elf(b: Seq<u8>) -> bool {
    b.len() >= 5 && b[0] == 0x7f && b[1] == 0x45 && b[2] == 0x4c && b[3] == 0x46
}

/// An ELF image whose class byte names the 32-bit layout.
pub open spec fn spec_is_elf32(b: Seq<u8>) -> bool {
    spec_is_elf(b) && b[4] == 1
}

/// An ELF image whose class byte names the 64-bit layout.
pub open spec fn spec_is_elf64(b: Seq<u8>) -> bool {
    spec_is_elf(b) && b[4] == 2
}

/// The buffer starts with the 32-bit Mach-O magic (0xfeedface, stored
/// little-endian).
pub open spec fn spec_is_macho32(b: Seq<u8>) -> bool {
    b.len() >= 4 && b[0] == 0xce && b[1] == 0xfa && b[2] == 0xed && b[3] == 0xfe
}

/// The buffer starts with the 64-bit Mach-O magic (0xfeedfacf, stored
/// little-endian).
pub open spec fn spec_is_macho64(b: Seq<u8>) -> bool {
    b.len() >= 4 && b[0] == 0xcf && b[1] == 0xfa && b[2] == 0xed && b[3] == 0xfe
}

/// The exact header size an image's own header announces, or `None` when
/// the leading bytes match no recognized format or the buffer is too short
/// to carry the announced field.
///
/// For ELF the value is the `e_ehsize` field (offset 40 in the 32-bit
/// layout, 52 in the 64-bit one).  For Mach-O it is the fixed size of the
/// mach header (28 or 32 bytes) plus the `sizeofcmds` field at offset 20.
pub open spec fn spec_header_size(b: Seq<u8>) -> Option<nat> {
    if spec_is_macho32(b) {
        if b.len() >= 24 {
            Some((28 + spec_le32(b, 20)) as nat)
        } else {
            None
        }
    } else if spec_is_macho64(b) {
        if b.len() >= 24 {
            Some((32 + spec_le32(b, 20)) as nat)
        } else {
            None
        }
    } else if spec_is_elf32(b) {
        if b.len() >= 42 {
            Some(spec_le16(b, 40))
        } else {
            None
        }
    } else if spec_is_elf64(b) {
        if b.len() >= 54 {
            Some(spec_le16(b, 52))
        } else {
            None
        }
    } else {
        None
    }
}

fn read_le16(b: &[u8], i: usize) -> (r: usize)
    requires
        i + 2 <= b@.len(),
    ensures
        r == spec_le16(b@, i as int),
{
    b[i] as usize + 0x100 * (b[i + 1] as usize)
}

fn read_le32(b: &[u8], i: usize) -> (r: usize)
    requires
        i + 4 <= b@.len(),
    ensures
        r == spec_le32(b@, i as int),
{
    b[i] as usize + 0x100 * (b[i + 1] as usize) + 0x10000 * (b[i + 2] as usize) + 0x1000000 * (
    b[i + 3] as usize)
}

/// Reads the magic (and, for ELF, the class byte) at the start of an image
/// and returns the exact size that the image's own header announces for
/// itself.  A buffer whose leading bytes match no recognized format — or
/// that is too short to carry the announced field — is malformed.
pub fn header_size(img: &[u8]) -> (r: Result<usize, DylinkError>)
    ensures
        match spec_header_size(img@) {
            Some(n) => {
                &&& n <= usize::MAX ==> (r matches Ok(v) && v == n)
                &&& n > usize::MAX ==> (r matches Err(e) && e is MalformedImage)
            },
            None => r matches Err(e) && e is MalformedImage,
        },
{
    if img.len() >= 4 && img[0] == 0xce && img[1] == 0xfa && img[2] == 0xed && img[3] == 0xfe {
        if img.len() >= 24 {
            let cmds = read_le32(img, 20);
            if cmds <= usize::MAX - 28 {
                Ok(28 + cmds)
            } else {
                Err(DylinkError::MalformedImage)
            }
        } else {
            Err(DylinkError::MalformedImage)
        }
    } else if img.len() >= 4 && img[0] == 0xcf && img[1] == 0xfa && img[2] == 0xed && img[3]
        == 0xfe {
        if img.len() >= 24 {
            let cmds = read_le32(img, 20);
            if cmds <= usize::MAX - 32 {
                Ok(32 + cmds)
            } else {
                Err(DylinkError::MalformedImage)
            }
        } else {
            Err(DylinkError::MalformedImage)
        }
    } else if img.len() >= 5 && img[0] == 0x7f && img[1] == 0x45 && img[2] == 0x4c && img[3]
        == 0x46 {
        if img[4] == 1 {
            if img.len() >= 42 {
                Ok(read_le16(img, 40))
            } else {
                Err(DylinkError::MalformedImage)
            }
        } else if img[4] == 2 {
            if img.len() >= 54 {
                Ok(read_le16(img, 52))
            } else {
                Err(DylinkError::MalformedImage)
            }
        } else {
            Err(DylinkError::MalformedImage)
        }
    } else {
        Err(DylinkError::MalformedImage)
    }
}

} // verus!
