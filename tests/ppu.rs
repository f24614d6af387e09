use std::cell::Cell;

use gb_core::ppu::{address_type, interleave, tile_address, AddressType, Memory, Ppu, FRAME_LEN};

struct CountingMemory {
    reads: Cell<usize>,
}

impl Memory for CountingMemory {
    fn spec_read(&self, addr: u16) -> u8 {
        byte_at(addr)
    }

    fn load_block(&self, start: u16, end: u16) -> Vec<u8> {
        self.reads.set(self.reads.get() + 1);
        (start..=end).map(byte_at).collect()
    }
}

fn byte_at(a: u16) -> u8 {
    (a as u8) ^ ((a >> 8) as u8)
}

const PALETTE: [u32; 4] = [0x00002200, 0x000D2F0D, 0x00D0F2D0, 0x00DDFFDD];

fn expected_pixel(addr: u16, j: usize) -> u32 {
    PALETTE[interleave([byte_at(addr), byte_at(addr + 1)])[j] as usize]
}

#[test]
fn interleave_example() {
    // 2 * hi_bit + lo_bit, most significant bit first
    assert_eq!(interleave([0b11110000, 0b10101010]), [3, 2, 3, 2, 1, 0, 1, 0]);
}

#[test]
fn interleave_single_planes() {
    assert_eq!(interleave([0x80, 0x00]), [2, 0, 0, 0, 0, 0, 0, 0]);
    assert_eq!(interleave([0x00, 0x01]), [0, 0, 0, 0, 0, 0, 0, 1]);
    assert_eq!(interleave([0xFF, 0xFF]), [3; 8]);
    assert_eq!(interleave([0x00, 0x00]), [0; 8]);
}

#[test]
fn interleave_is_pure_and_in_range() {
    for hi in 0..=255u8 {
        for lo in 0..=255u8 {
            let a = interleave([hi, lo]);
            let b = interleave([hi, lo]);
            assert_eq!(a, b);
            for (i, v) in a.iter().enumerate() {
                assert!(*v <= 3);
                let s = 7 - i;
                assert_eq!(*v, 2 * ((hi >> s) & 1) + ((lo >> s) & 1));
            }
        }
    }
}

#[test]
fn headless_render_reads_nothing() {
    let mem = CountingMemory { reads: Cell::new(0) };
    let ppu = Ppu::new_headless();
    assert!(ppu.render(&mem).is_none());
    assert_eq!(mem.reads.get(), 0);
}

#[test]
fn address_mode_follows_lcdc_bit_four() {
    assert_eq!(address_type(0x10), AddressType::Unsigned);
    assert_eq!(address_type(0xFF), AddressType::Unsigned);
    assert_eq!(address_type(0x00), AddressType::Signed);
    assert_eq!(address_type(0xEF), AddressType::Signed);
}

#[test]
fn tile_address_bases_and_wrap() {
    assert_eq!(tile_address(AddressType::Unsigned, 0), 0x8000);
    assert_eq!(tile_address(AddressType::Unsigned, 0x3FF), 0x83FF);
    assert_eq!(tile_address(AddressType::Signed, 0), 0x9000);
    assert_eq!(tile_address(AddressType::Signed, 0x3FF), 0x93FF);
    assert_eq!(tile_address(AddressType::Signed, 0xFFFF), 0x8FFF);
    assert_eq!(tile_address(AddressType::Signed, 0x7000), 0x0000);
}

#[test]
fn render_signed_frame() {
    let mem = CountingMemory { reads: Cell::new(0) };
    let ppu = Ppu::new();
    let fb = ppu.render(&mem).unwrap();
    assert_eq!(fb.len(), FRAME_LEN);
    assert_eq!(mem.reads.get(), 1024 * 8);
    // cell k is last written by map cell min(k, 1023), at column (k - cell) % 8
    for k in 0..8 {
        assert_eq!(fb[k], expected_pixel(0x9000 + k as u16, 0));
    }
    assert_eq!(fb[10], expected_pixel(0x9000 + 10, 0));
    assert_eq!(fb[1023], expected_pixel(0x9000 + 1023, 0));
    assert_eq!(fb[1086], expected_pixel(0x9000 + 1023, 7));
    assert_eq!(fb[1030], expected_pixel(0x9000 + 1023, 7));
    assert_eq!(fb[1087], 0);
    assert!(fb[1087..].iter().all(|c| *c == 0));
}

#[test]
fn render_unsigned_frame() {
    let mem = CountingMemory { reads: Cell::new(0) };
    let mut ppu = Ppu::new();
    ppu.lcdc = 0x10;
    let fb = ppu.render(&mem).unwrap();
    assert_eq!(fb[0], expected_pixel(0x8000, 0));
    assert_eq!(fb[500], expected_pixel(0x8000 + 500, 0));
    assert_eq!(fb[1050], expected_pixel(0x8000 + 1023, (1050 - 1023) % 8));
    assert_ne!(fb[0], 0);
}

#[test]
fn constructors_start_with_cleared_control() {
    let p = Ppu::new();
    assert!(!p.headless);
    assert_eq!((p.lcdc, p.stat), (0, 0));
    let q = Ppu::new_headless();
    assert!(q.headless);
    assert_eq!((q.lcdc, q.stat), (0, 0));
}
