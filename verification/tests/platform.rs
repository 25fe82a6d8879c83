use binary_merger::models::binary::{ObjectFamily, Platform, StoredBinary, HINT_LENGTH};

fn put16(bytes: &mut Vec<u8>, value: u16) {
    bytes.extend_from_slice(&value.to_le_bytes());
}

fn put32(bytes: &mut Vec<u8>, value: u32) {
    bytes.extend_from_slice(&value.to_le_bytes());
}

fn put64(bytes: &mut Vec<u8>, value: u64) {
    bytes.extend_from_slice(&value.to_le_bytes());
}

/// A 64-bit little-endian ELF header without program or section headers.
fn elf_image() -> Vec<u8> {
    let mut bytes = vec![0x7f, b'E', b'L', b'F', 2, 1, 1, 0];
    bytes.extend_from_slice(&[0; 8]);
    put16(&mut bytes, 2);
    put16(&mut bytes, 0x3e);
    put32(&mut bytes, 1);
    put64(&mut bytes, 0x40_0000);
    put64(&mut bytes, 0);
    put64(&mut bytes, 0);
    put32(&mut bytes, 0);
    put16(&mut bytes, 64);
    put16(&mut bytes, 56);
    put16(&mut bytes, 0);
    put16(&mut bytes, 64);
    put16(&mut bytes, 0);
    put16(&mut bytes, 0);
    assert_eq!(bytes.len(), 64);
    bytes
}

/// A DOS header that points at a PE signature and a COFF header without sections or
/// optional header.
fn pe_image() -> Vec<u8> {
    let mut bytes = vec![0u8; 0x40];
    bytes[0] = b'M';
    bytes[1] = b'Z';
    bytes[0x3c] = 0x40;
    bytes.extend_from_slice(b"PE\0\0");
    put16(&mut bytes, 0x8664);
    put16(&mut bytes, 0);
    put32(&mut bytes, 0);
    put32(&mut bytes, 0);
    put32(&mut bytes, 0);
    put16(&mut bytes, 0);
    put16(&mut bytes, 0x0002);
    bytes.extend_from_slice(&[0; 256]);
    bytes
}

/// A 64-bit little-endian Mach-O header without load commands.
fn mach_image() -> Vec<u8> {
    let mut bytes = Vec::new();
    put32(&mut bytes, 0xfeed_facf);
    put32(&mut bytes, 0x0100_0007);
    put32(&mut bytes, 3);
    put32(&mut bytes, 2);
    put32(&mut bytes, 0);
    put32(&mut bytes, 0);
    put32(&mut bytes, 0);
    put32(&mut bytes, 0);
    bytes
}

#[test]
fn names_of_platforms() {
    assert_eq!(Platform::LINUX_ELF.name(), "Linux ELF");
    assert_eq!(Platform::WINDOWS_PE.name(), "Windows PE");
    assert_eq!(Platform::MACOS_MACH_O.name(), "macOS Mach-O");
    assert_eq!(Platform::UNKNOWN.name(), "Unknown");
}

#[test]
fn only_windows_pe_has_a_merge_strategy() {
    assert!(Platform::WINDOWS_PE.is_supported());
    assert!(!Platform::LINUX_ELF.is_supported());
    assert!(!Platform::MACOS_MACH_O.is_supported());
    assert!(!Platform::UNKNOWN.is_supported());
    assert!(Platform::WINDOWS_PE.is_windows_pe());
    assert!(!Platform::LINUX_ELF.is_windows_pe());
}

#[test]
fn an_elf_header_must_be_whole_and_name_class_and_byte_order() {
    let image = elf_image();
    for cut in 16..64 {
        assert_eq!(Platform::detect(&image[..cut]), Platform::UNKNOWN);
    }
    let mut narrow = image.clone();
    narrow[4] = 1;
    assert_eq!(Platform::detect(&narrow[..52]), Platform::LINUX_ELF);
    assert_eq!(Platform::detect(&narrow[..51]), Platform::UNKNOWN);
    let mut big_endian = image.clone();
    big_endian[5] = 2;
    assert_eq!(Platform::detect(&big_endian), Platform::LINUX_ELF);
    for (position, value) in [(4, 0), (4, 3), (5, 0), (5, 3)] {
        let mut damaged = image.clone();
        damaged[position] = value;
        assert_eq!(Platform::detect(&damaged), Platform::UNKNOWN);
    }
    let mut long = image.clone();
    long.extend_from_slice(&[0xff; 100]);
    assert_eq!(Platform::detect(&long), Platform::LINUX_ELF);
}

#[test]
fn a_pe_header_needs_its_signature_where_the_pointer_leads() {
    let mut image = vec![0u8; 0x40];
    image[0] = b'M';
    image[1] = b'Z';
    image[0x3c] = 0x40;
    assert_eq!(Platform::detect(&image), Platform::UNKNOWN);
    image.extend_from_slice(b"PE\0");
    assert_eq!(Platform::detect(&image), Platform::UNKNOWN);
    image.push(0);
    assert_eq!(Platform::detect(&image), Platform::WINDOWS_PE);
    assert_eq!(Platform::detect(&image[..63]), Platform::UNKNOWN);
    let mut wrong = image.clone();
    wrong[0x41] = b'X';
    assert_eq!(Platform::detect(&wrong), Platform::UNKNOWN);
    let mut far = image.clone();
    far[0x3c..0x40].copy_from_slice(&0xffff_fff0u32.to_le_bytes());
    assert_eq!(Platform::detect(&far), Platform::UNKNOWN);
    let mut edge = image.clone();
    edge[0x3c] = 0x41;
    assert_eq!(Platform::detect(&edge), Platform::UNKNOWN);
    let mut moved = vec![0u8; 0x80];
    moved[0] = b'M';
    moved[1] = b'Z';
    moved[0x3c] = 0x7c;
    moved[0x7c..0x80].copy_from_slice(b"PE\0\0");
    assert_eq!(Platform::detect(&moved), Platform::WINDOWS_PE);
}

#[test]
fn a_mach_header_must_be_whole() {
    for magic in [[0xfe, 0xed, 0xfa, 0xce], [0xce, 0xfa, 0xed, 0xfe]] {
        let mut image = vec![0u8; 28];
        image[..4].copy_from_slice(&magic);
        assert_eq!(Platform::detect(&image), Platform::MACOS_MACH_O);
        assert_eq!(Platform::detect(&image[..27]), Platform::UNKNOWN);
    }
    for magic in [[0xfe, 0xed, 0xfa, 0xcf], [0xcf, 0xfa, 0xed, 0xfe]] {
        let mut image = vec![0u8; 32];
        image[..4].copy_from_slice(&magic);
        assert_eq!(Platform::detect(&image), Platform::MACOS_MACH_O);
        assert_eq!(Platform::detect(&image[..31]), Platform::UNKNOWN);
    }
    let mut fat = vec![0u8; 16];
    fat[..4].copy_from_slice(&[0xca, 0xfe, 0xba, 0xbe]);
    assert_eq!(Platform::detect(&fat), Platform::MACOS_MACH_O);
    fat[..4].copy_from_slice(&[0xbe, 0xba, 0xfe, 0xca]);
    assert_eq!(Platform::detect(&fat), Platform::UNKNOWN);
}

#[test]
fn a_segment_that_would_overflow_the_entry_point_is_no_trouble() {
    let mut image = Vec::new();
    put32(&mut image, 0xfeed_facf);
    put32(&mut image, 0x0100_0007);
    put32(&mut image, 3);
    put32(&mut image, 2);
    put32(&mut image, 2);
    put32(&mut image, 96);
    put32(&mut image, 0);
    put32(&mut image, 0);
    put32(&mut image, 0x19);
    put32(&mut image, 72);
    image.extend_from_slice(b"__TEXT\0\0\0\0\0\0\0\0\0\0");
    put64(&mut image, 0);
    put64(&mut image, 0);
    put64(&mut image, 1);
    put64(&mut image, 0);
    put32(&mut image, 7);
    put32(&mut image, 5);
    put32(&mut image, 0);
    put32(&mut image, 0);
    put32(&mut image, 0x8000_0028);
    put32(&mut image, 24);
    put64(&mut image, 0);
    put64(&mut image, 0);
    assert_eq!(image.len(), 128);
    assert_eq!(Platform::detect(&image), Platform::MACOS_MACH_O);
}

#[test]
fn families_map_to_platforms() {
    assert_eq!(Platform::from_family(ObjectFamily::Elf), Platform::LINUX_ELF);
    assert_eq!(Platform::from_family(ObjectFamily::Pe), Platform::WINDOWS_PE);
    assert_eq!(Platform::from_family(ObjectFamily::MachO), Platform::MACOS_MACH_O);
    assert_eq!(Platform::from_family(ObjectFamily::Other), Platform::UNKNOWN);
}

#[test]
fn a_valid_elf_header_is_linux_elf() {
    assert_eq!(Platform::detect(&elf_image()), Platform::LINUX_ELF);
}

#[test]
fn a_valid_pe_header_is_windows_pe() {
    assert_eq!(Platform::detect(&pe_image()), Platform::WINDOWS_PE);
}

#[test]
fn a_valid_mach_header_is_macos_mach_o() {
    assert_eq!(Platform::detect(&mach_image()), Platform::MACOS_MACH_O);
}

#[test]
fn detection_reads_the_bytes_it_is_given() {
    let elf = elf_image();
    let pe = pe_image();
    assert_ne!(Platform::detect(&elf), Platform::detect(&pe));
    assert_eq!(Platform::detect(&elf), Platform::detect(&elf.clone()));
}

#[test]
fn short_and_random_buffers_are_unknown() {
    assert_eq!(HINT_LENGTH, 16);
    assert_eq!(Platform::detect(&[]), Platform::UNKNOWN);
    assert_eq!(Platform::detect(&[0x7f, b'E', b'L', b'F']), Platform::UNKNOWN);
    assert_eq!(Platform::detect(b"MZ"), Platform::UNKNOWN);
    assert_eq!(Platform::detect(&elf_image()[..15]), Platform::UNKNOWN);
    assert_eq!(Platform::detect(&pe_image()[..15]), Platform::UNKNOWN);
    assert_eq!(Platform::detect(&mach_image()[..15]), Platform::UNKNOWN);
    let noise: Vec<u8> =
        (0u32..256).map(|i| (i.wrapping_mul(37).wrapping_add(11) % 251) as u8).collect();
    assert_eq!(Platform::detect(&noise), Platform::UNKNOWN);
    assert_eq!(Platform::detect(&[0u8; 64]), Platform::UNKNOWN);
    assert_eq!(Platform::detect(b"#!/bin/sh\necho not a binary at all\n"), Platform::UNKNOWN);
    assert_eq!(Platform::detect(b"!<arch>\n0123456789abcdef"), Platform::UNKNOWN);
}

#[test]
fn truncated_and_damaged_images_do_not_stop_detection() {
    for image in [elf_image(), pe_image(), mach_image()] {
        for cut in 0..image.len() {
            let _ = Platform::detect(&image[..cut]);
        }
        for position in 0..image.len().min(96) {
            let mut damaged = image.clone();
            damaged[position] ^= 0xff;
            let _ = Platform::detect(&damaged);
            damaged[position] = 0xff;
            let _ = Platform::detect(&damaged);
        }
    }
    let mut state: u32 = 0x1234_5678;
    for _ in 0..200 {
        let mut bytes = Vec::new();
        for _ in 0..(state % 97) {
            state = state.wrapping_mul(1_103_515_245).wrapping_add(12_345);
            bytes.push((state >> 16) as u8);
        }
        state = state.wrapping_mul(1_103_515_245).wrapping_add(12_345);
        let _ = Platform::detect(&bytes);
    }
}

#[test]
fn a_header_without_its_magic_is_not_that_platform() {
    let mut elf = elf_image();
    elf[1] = b'e';
    assert_ne!(Platform::detect(&elf), Platform::LINUX_ELF);
    let mut pe = pe_image();
    pe[0] = b'N';
    assert_ne!(Platform::detect(&pe), Platform::WINDOWS_PE);
    let mut mach = mach_image();
    mach[0] = 0;
    assert_ne!(Platform::detect(&mach), Platform::MACOS_MACH_O);
}

#[test]
fn stored_binary_is_a_plain_record() {
    let record = StoredBinary {
        id: String::from("b-1"),
        path: String::from("/srv/store/b-1"),
        size: 4096,
        created_at: 1_700_000_000,
        expires_at: 1_700_003_600,
    };
    let copy = record.clone();
    assert_eq!(copy.id, "b-1");
    assert_eq!(copy.path, "/srv/store/b-1");
    assert_eq!(copy.size, 4096);
    assert_eq!(copy.expires_at - copy.created_at, 3600);
}

fn word_at(data: &[u8], at: usize) -> u32 {
    u32::from_le_bytes([data[at], data[at + 1], data[at + 2], data[at + 3]])
}

/// The rule of detection written out once more, to hold the library against.
fn expected_platform(data: &[u8]) -> Platform {
    if data.len() < 16 {
        return Platform::UNKNOWN;
    }
    if data[..4] == [0x7f, 0x45, 0x4c, 0x46] {
        let whole = (data[4] == 1 && data.len() >= 52) || (data[4] == 2 && data.len() >= 64);
        let ordered = data[5] == 1 || data[5] == 2;
        return if whole && ordered { Platform::LINUX_ELF } else { Platform::UNKNOWN };
    }
    if data[..2] == [0x4d, 0x5a] {
        if data.len() < 64 {
            return Platform::UNKNOWN;
        }
        let pointer = word_at(data, 0x3c) as usize;
        let signed = pointer + 4 <= data.len() && data[pointer..pointer + 4] == [0x50, 0x45, 0, 0];
        return if signed { Platform::WINDOWS_PE } else { Platform::UNKNOWN };
    }
    match u32::from_be_bytes([data[0], data[1], data[2], data[3]]) {
        0xfeed_face | 0xcefa_edfe if data.len() >= 28 => Platform::MACOS_MACH_O,
        0xfeed_facf | 0xcffa_edfe if data.len() >= 32 => Platform::MACOS_MACH_O,
        0xcafe_babe => Platform::MACOS_MACH_O,
        _ => Platform::UNKNOWN,
    }
}

#[test]
fn detection_follows_its_rule_on_many_buffers() {
    let openings: [&[u8]; 12] = [
        &[0x7f, 0x45, 0x4c, 0x46],
        &[0x4d, 0x5a],
        &[0xfe, 0xed, 0xfa, 0xce],
        &[0xce, 0xfa, 0xed, 0xfe],
        &[0xfe, 0xed, 0xfa, 0xcf],
        &[0xcf, 0xfa, 0xed, 0xfe],
        &[0xca, 0xfe, 0xba, 0xbe],
        b"!<arch>\n",
        &[0x56, 0x5a],
        &[0x4c, 0x01],
        &[0x64, 0x86],
        &[],
    ];
    let mut state: u32 = 0x9e37_79b9;
    let mut next = move || {
        state = state.wrapping_mul(1_103_515_245).wrapping_add(12_345);
        (state >> 16) as u8
    };
    let mut seen = [0usize; 4];
    for round in 0..6000 {
        let opening = openings[round % openings.len()];
        let length = match next() % 7 {
            0 => 16 + (next() as usize) % 8,
            1 => 48 + (next() as usize) % 24,
            _ => (next() as usize) % 200,
        };
        let mut data: Vec<u8> = (0..length).map(|_| next()).collect();
        for (position, byte) in opening.iter().enumerate() {
            if position < data.len() {
                data[position] = *byte;
            }
        }
        if next() % 3 == 0 && data.len() > 5 {
            data[4] = 1 + next() % 2;
            data[5] = 1 + next() % 2;
        }
        if next() % 2 == 0 && data.len() >= 64 {
            let pointer = (next() as usize) % (data.len() + 8);
            data[0x3c..0x40].copy_from_slice(&(pointer as u32).to_le_bytes());
            if next() % 2 == 0 && pointer + 4 <= data.len() && pointer >= 0x40 {
                data[pointer..pointer + 4].copy_from_slice(b"PE\0\0");
            }
        }
        let platform = Platform::detect(&data);
        assert_eq!(platform, expected_platform(&data), "buffer {:?}", data);
        seen[match platform {
            Platform::LINUX_ELF => 0,
            Platform::WINDOWS_PE => 1,
            Platform::MACOS_MACH_O => 2,
            Platform::UNKNOWN => 3,
        }] += 1;
    }
    assert!(seen.iter().all(|count| *count > 10), "{:?}", seen);
}
