use vstd::prelude::*;

verus! {

/// Width of the frame, in pixels.
pub const FRAME_WIDTH: usize = 256;

/// Height of the frame, in pixels.
pub const FRAME_HEIGHT: usize = 256;

/// Number of cells of a frame.
pub const FRAME_LEN: usize = 65536;

/// Number of background-map cells drawn per frame (32 by 32).
pub const MAP_CELLS: usize = 1024;

/// Read access to the emulated address space.
///
/// Every 16-bit address is mapped: a read never fails and has no side
/// effect. Outside verified code `spec_read` is an ordinary method: an
/// implementation there returns from it the byte that `load_block` serves.
pub trait Memory {
    /// The byte that a read of `addr` returns.
    spec fn spec_read(&self, addr: u16) -> u8;

    /// The bytes at `start` through `end`, both included.
    fn load_block(&self, start: u16, end: u16) -> (r: Vec<u8>)
        requires
            start <= end,
        ensures
            r@.len() == end - start + 1,
            forall|i: int| 0 <= i < r@.len() ==> r@[i] == self.spec_read((start + i) as u16),
    ;
}

/// How tile indices select tile data.
#[derive(Clone, Copy, Debug, PartialEq, Eq, Structural)]
pub enum AddressType {
    /// Tile data from `0x8000`, indexed unsigned.
    Unsigned,
    /// Tile data around `0x9000`, indexed signed.
    Signed,
}

/// The addressing mode that LCD control selects: bit 4 set means unsigned.
pub open spec fn spec_address_type(lcdc: u8) -> AddressType {
    if lcdc & 0x10 == 0x10 {
        AddressType::Unsigned
    } else {
        AddressType::Signed
    }
}

/// The address of the tile data for map cell `offset`: `0x8000 + offset` when
/// unsigned, `0x9000 + offset` modulo 2^16 when signed.
pub open spec fn spec_tile_address(mode: AddressType, offset: u16) -> u16 {
    match mode {
        AddressType::Unsigned => (0x8000 + offset) as u16,
        AddressType::Signed => ((0x9000 + offset) % 0x10000) as u16,
    }
}

/// The color index of pixel `i` (0 is the leftmost) of a row whose two color
/// planes are `hi` and `lo`: `2 * hi_bit + lo_bit` for bit `7 - i`.
pub open spec fn color_index(hi: u8, lo: u8, i: int) -> u8 {
    (2 * ((hi >> ((7 - i) as u8)) & 1) + ((lo >> ((7 - i) as u8)) & 1)) as u8
}

/// The eight color indices of a row, most significant bit first.
pub open spec fn spec_interleave(hi: u8, lo: u8) -> Seq<u8> {
    Seq::new(8, |i: int| color_index(hi, lo, i))
}

/// Decoding any two bytes gives eight color indices, each one of 0, 1, 2, 3.
pub proof fn lemma_interleave_in_range(hi: u8, lo: u8)
    ensures
        spec_interleave(hi, lo).len() == 8,
        forall|i: int| 0 <= i < 8 ==> #[trigger] spec_interleave(hi, lo)[i] <= 3,
{
    assert forall|i: int| 0 <= i < 8 implies #[trigger] spec_interleave(hi, lo)[i] <= 3 by {
        let s = (7 - i) as u8;
        assert((hi >> s) & 1 <= 1 && (lo >> s) & 1 <= 1) by (bit_vector);
    }
}

/// The packed color of each color index, in the fixed four-entry palette.
pub open spec fn palette_color(index: u8) -> u32 {
    if index == 0 {
        0x00002200
    } else if index == 1 {
        0x000D2F0D
    } else if index == 2 {
        0x00D0F2D0
    } else {
        0x00DDFFDD
    }
}

/// The color of pixel `j` of the tile row whose planes are read at `addr` and
/// `addr + 1`.
pub open spec fn tile_pixel<M: Memory>(memory: &M, addr: u16, j: int) -> u32 {
    palette_color(color_index(memory.spec_read(addr), memory.spec_read((addr + 1) as u16), j))
}

/// Cell `k` of the frame once the first `cells` map cells are drawn.
///
/// Map cell `o` writes its 8 rows of 8 pixels at `o + 8 * row + column`, and
/// every row repeats the pair of bytes at the cell's tile address; cells are
/// drawn in increasing order, so the last one that reaches `k` decides it.
pub open spec fn frame_cell<M: Memory>(memory: &M, mode: AddressType, cells: int, k: int) -> u32 {
    if cells <= 0 {
        0
    } else {
        let o = if k < cells - 1 {
            k
        } else {
            cells - 1
        };
        if k - o < 64 {
            tile_pixel(memory, spec_tile_address(mode, o as u16), (k - o) % 8)
        } else {
            0
        }
    }
}

/// The frame drawn from `memory` in addressing mode `mode`.
pub open spec fn spec_frame<M: Memory>(memory: &M, mode: AddressType) -> Seq<u32> {
    Seq::new(FRAME_LEN as nat, |k: int| frame_cell(memory, mode, MAP_CELLS as int, k))
}

/// Picks the addressing mode from the LCD control byte.
pub fn address_type(lcdc: u8) -> (r: AddressType)
    ensures
        r == spec_address_type(lcdc),
{
    assert((lcdc & 1u8 << 4u8 == 1u8 << 4u8) == (lcdc & 0x10 == 0x10)) by (bit_vector);
    if lcdc & 1 << 4 == 1 << 4 {
        AddressType::Unsigned
    } else {
        AddressType::Signed
    }
}

/// The address of the tile data for map cell `offset`.
pub fn tile_address(mode: AddressType, offset: u16) -> (r: u16)
    requires
        mode == AddressType::Unsigned ==> offset < 0x8000,
    ensures
        r == spec_tile_address(mode, offset),
{
    match mode {
        AddressType::Unsigned => 0x8000 + offset,
        AddressType::Signed => 0x9000u16.wrapping_add(offset),
    }
}

/// Combines a bit of each color plane into the color index of each pixel.
pub fn interleave(bytes: [u8; 2]) -> (r: [u8; 8])
    ensures
        r@ == spec_interleave(bytes[0], bytes[1]),
        forall|i: int| 0 <= i < 8 ==> r@[i] <= 3,
{
    let mut out: [u8; 8] = [0; 8];
    let mut i: usize = 0;
    while i < 8
        invariant
            i <= 8,
            forall|p: int| 0 <= p < i ==> out@[p] == color_index(bytes[0], bytes[1], p),
        decreases 8 - i,
    {
        let s: u8 = 7 - i as u8;
        let hi = bytes[0];
        let lo = bytes[1];
        let high: u8 = (hi >> s) & 1;
        let low: u8 = (lo >> s) & 1;
        assert((hi >> s) & 1 <= 1 && (lo >> s) & 1 <= 1) by (bit_vector);
        out[i] = 2 * high + low;
        i = i + 1;
    }
    proof {
        assert(out@ =~= spec_interleave(bytes[0], bytes[1]));
        lemma_interleave_in_range(bytes[0], bytes[1]);
    }
    out
}

/// The palette color of a color index.
fn palette(index: u8) -> (r: u32)
    ensures
        r == palette_color(index),
{
    if index == 0 {
        0x00002200
    } else if index == 1 {
        0x000D2F0D
    } else if index == 2 {
        0x00D0F2D0
    } else {
        0x00DDFFDD
    }
}

/// Draws map cell `offset`: its 8 rows of 8 pixels go to
/// `offset + 8 * row + column`, every row decoded from the pair of bytes at
/// `tile_addr`.
fn draw_tile<M: Memory>(memory: &M, fb: &mut Vec<u32>, tile_addr: u16, offset: usize)
    requires
        old(fb)@.len() == FRAME_LEN,
        offset + 64 <= FRAME_LEN,
        tile_addr < 0xFFFF,
    ensures
        final(fb)@.len() == FRAME_LEN,
        forall|k: int|
            0 <= k < FRAME_LEN ==> #[trigger] final(fb)@[k] == if offset <= k < offset + 64 {
                tile_pixel(memory, tile_addr, (k - offset) % 8)
            } else {
                old(fb)@[k]
            },
{
    let mut i: usize = 0;
    while i < 8
        invariant
            i <= 8,
            fb@.len() == FRAME_LEN,
            offset + 64 <= FRAME_LEN,
            tile_addr < 0xFFFF,
            forall|k: int|
                0 <= k < FRAME_LEN ==> #[trigger] fb@[k] == if offset <= k < offset + 8 * i {
                    tile_pixel(memory, tile_addr, (k - offset) % 8)
                } else {
                    old(fb)@[k]
                },
        decreases 8 - i,
    {
        let pair = memory.load_block(tile_addr, tile_addr + 1);
        let pixels = interleave([pair[0], pair[1]]);
        let mut j: usize = 0;
        while j < 8
            invariant
                i < 8,
                j <= 8,
                fb@.len() == FRAME_LEN,
                offset + 64 <= FRAME_LEN,
                tile_addr < 0xFFFF,
                pixels@ == spec_interleave(
                    memory.spec_read(tile_addr),
                    memory.spec_read((tile_addr + 1) as u16),
                ),
                forall|k: int|
                    0 <= k < FRAME_LEN ==> #[trigger] fb@[k] == if offset <= k < offset + 8 * i
                        + j {
                        tile_pixel(memory, tile_addr, (k - offset) % 8)
                    } else {
                        old(fb)@[k]
                    },
            decreases 8 - j,
        {
            let color = palette(pixels[j]);
            fb.set(offset + i * 8 + j, color);
            assert((8 * i + j) as int % 8 == j as int);
            j = j + 1;
        }
        i = i + 1;
    }
}

/// The pixel decode pipeline: LCD control and status, and whether a surface
/// receives the frames.
#[derive(Clone, Copy, Debug, PartialEq, Eq, Structural)]
pub struct Ppu {
    /// No surface is attached: rendering does nothing.
    pub headless: bool,
    /// LCD control; bit 4 selects the addressing mode.
    pub lcdc: u8,
    /// LCD status.
    pub stat: u8,
}

impl Ppu {
    /// A pipeline whose frames go to a surface.
    pub fn new() -> (r: Self)
        ensures
            r == (Ppu { headless: false, lcdc: 0, stat: 0 }),
    {
        Self { headless: false, lcdc: 0, stat: 0 }
    }

    /// A pipeline without a surface.
    pub fn new_headless() -> (r: Self)
        ensures
            r == (Ppu { headless: true, lcdc: 0, stat: 0 }),
    {
        Self { headless: true, lcdc: 0, stat: 0 }
    }

    /// Draws the 32 by 32 background map into a 256 by 256 frame to present.
    ///
    /// Map cells are visited as `x * 32 + y`. Each of a cell's 8 rows reads
    /// the same pair of bytes at the cell's tile address again, and pixel
    /// `column` of row `row` goes to `offset + 8 * row + column` of the flat
    /// frame: this keeps the existing frame layout, not a screen raster.
    ///
    /// Headless, it reads nothing and returns `None`.
    pub fn render<M: Memory>(&self, memory: &M) -> (r: Option<Vec<u32>>)
        ensures
            self.headless ==> r is None,
            !self.headless ==> r is Some && r->0@ == spec_frame(
                memory,
                spec_address_type(self.lcdc),
            ),
    {
        if self.headless {
            return None;
        }
        let mode = address_type(self.lcdc);
        let mut fb: Vec<u32> = Vec::new();
        let mut n: usize = 0;
        while n < FRAME_LEN
            invariant
                n <= FRAME_LEN,
                fb@.len() == n,
                forall|k: int| 0 <= k < n ==> fb@[k] == 0,
            decreases FRAME_LEN - n,
        {
            fb.push(0);
            n = n + 1;
        }
        let mut x: u16 = 0;
        while x < 32
            invariant
                x <= 32,
                fb@.len() == FRAME_LEN,
                forall|k: int|
                    0 <= k < FRAME_LEN ==> #[trigger] fb@[k] == frame_cell(
                        memory,
                        mode,
                        x * 32,
                        k,
                    ),
            decreases 32 - x,
        {
            let mut y: u16 = 0;
            while y < 32
                invariant
                    x < 32,
                    y <= 32,
                    fb@.len() == FRAME_LEN,
                    forall|k: int|
                        0 <= k < FRAME_LEN ==> #[trigger] fb@[k] == frame_cell(
                            memory,
                            mode,
                            x * 32 + y,
                            k,
                        ),
                decreases 32 - y,
            {
                let offset: u16 = x * 32 + y;
                let tile_addr = tile_address(mode, offset);
                let ghost before = fb@;
                draw_tile(memory, &mut fb, tile_addr, offset as usize);
                assert forall|k: int| 0 <= k < FRAME_LEN implies #[trigger] fb@[k] == frame_cell(
                    memory,
                    mode,
                    offset + 1,
                    k,
                ) by {
                    assert(before[k] == frame_cell(memory, mode, offset as int, k));
                }
                y = y + 1;
            }
            x = x + 1;
        }
        assert(fb@ =~= spec_frame(memory, mode));
        Some(fb)
    }
}

} // verus!
