//! The background pixel fetcher of the picture processing unit.
use crate::constants::VRAM_BEGIN;
use crate::ppu::misc::{pixel_of, ColoredPixel, Palette, Pixel};
use crate::ppu::registers::{Registers, TILE_SEL};
use crate::timings::Clock;
use crate::utils::{bit_at, bit_spec};
use vstd::prelude::*;

verus! {

/// The steps of the fetcher, one every two clock cycles.
#[derive(Copy, Clone, PartialEq, Eq, Structural, Debug)]
pub enum FetcherState {
    ReadTileID,
    ReadTileData0,
    ReadTileData1,
    PushToFIFO,
}

/// Implements the PixelPipeline Fetcher outlined in "Ultimate Gamboy Talk",
/// it runs at half the speed of the PPU (every 2 clock cycles).
#[derive(Clone, Debug)]
pub struct Fetcher {
    pub fifo: Vec<ColoredPixel>,  // Pixel FIFO that the PPU will read, front first.
    pub clock: Clock,  // Clock cycle counter for timings.
    pub state: FetcherState,  // Current state of our state machine.
    pub map_address: u16,  // Start address of BG/Windows map row.
    pub tile_address: u16,  // Memory address to look for tile data.
    pub tile_line: u8,  // Y offset (in pixels) in the tile.
    pub tile_index: u8,  // Index of the tile to read in the current row of the background map.
    pub tile_id: i16,  // Tile number in the tilemap.
    pub tile_data: [Pixel; 8],  // Pixel data for one row of the fetched tile.
}

/// Bit `i` of `data` as 0 or 1.
pub open spec fn bit_value(data: u8, i: int) -> u8 {
    if bit_spec(data, i as nat) {
        1
    } else {
        0
    }
}

/// The tile number stored in the map: unsigned with the 0x8000 addressing, signed with
/// the 0x8800 addressing.
pub open spec fn tile_id_of(tile_address: u16, byte: u8) -> i16 {
    if tile_address == 0x8000 || byte < 128 {
        byte as i16
    } else {
        (byte - 256) as i16
    }
}

impl Fetcher {
    /// The address of the first byte of the current row of the current tile.
    pub open spec fn row_address(self) -> int {
        (if self.tile_address == 0x8000 {
            0x8000 + self.tile_id * 16
        } else {
            0x8800 + (self.tile_id + 128) * 16
        }) + self.tile_line * 2
    }

    /// Whether the tile number fits the addressing mode, and the byte of bit plane
    /// `bit_plane` of the current row lies in video RAM of `vram_len` bytes.
    pub open spec fn can_read_tile_line(self, vram_len: nat, bit_plane: u8) -> bool {
        &&& (self.tile_address == 0x8000 && 0 <= self.tile_id <= 255) || (self.tile_address
            == 0x8800 && -128 <= self.tile_id <= 127)
        &&& self.row_address() - VRAM_BEGIN + bit_plane < vram_len
    }

    /// Pixel `i` of the row after bit plane `bit_plane` has been read from `data`: plane 0
    /// sets the low bit of the color number, plane 1 adds the high bit.
    pub open spec fn pixel_after(self, data: u8, bit_plane: u8, i: int) -> Pixel {
        if bit_plane == 0 {
            pixel_of(bit_value(data, i))
        } else {
            pixel_of(self.tile_data[i].number() | (bit_value(data, i) << 1u8))
        }
    }

    /// The eight colored pixels of the current row, leftmost (bit 7) first.
    pub open spec fn row_pixels(self, palette: Palette) -> Seq<ColoredPixel> {
        Seq::new(8, |j: int| palette.map[self.tile_data[7 - j].number() as int])
    }

    /// Whether the step that is due can be taken: the map entry and the tile row lie in
    /// video RAM, the addressing mode is known, and the tile index does not pass 255.
    pub open spec fn can_step(self, vram_len: nat) -> bool {
        (self.clock.t_cycle + 1) % 0x1_0000_0000 >= 2 ==> match self.state {
            FetcherState::ReadTileID => (self.tile_address == 0x8000 || self.tile_address == 0x8800)
                && VRAM_BEGIN <= self.map_address + self.tile_index < VRAM_BEGIN + vram_len,
            FetcherState::ReadTileData0 => self.can_read_tile_line(vram_len, 0),
            FetcherState::ReadTileData1 => self.can_read_tile_line(vram_len, 1),
            FetcherState::PushToFIFO => self.fifo@.len() > 8 || self.tile_index < 255,
        }
    }

    /// Start fetching a line of pixels starting from the given tile address in the
    /// background map. Here, tileLine indicates which row of pixels to pick from
    /// each tile we read.
    pub fn start(&mut self, r: &Registers, map_address: u16, tile_line: u8)
        ensures
            final(self).fifo@ == Seq::<ColoredPixel>::empty(),
            *final(self) == (Fetcher {
                fifo: final(self).fifo,
                tile_index: 0,
                map_address,
                tile_line,
                state: FetcherState::ReadTileID,
                tile_address: if r.lcd_control.bits & TILE_SEL != 0 { 0x8000 } else { 0x8800 },
                ..*old(self)
            }),
    {
        self.tile_index = 0;
        self.map_address = map_address;
        self.tile_line = tile_line;
        self.state = FetcherState::ReadTileID;
        self.tile_address = if r.lcd_control.bits & TILE_SEL != 0 {
            0x8000
        } else {
            0x8800
        };
        // Clear FIFO between calls, as it may still contain leftover tile data
        // from the very end of the previous scanline.
        self.fifo.clear();
    }

    /// Updates the fetcher's internal pixel buffer with one bit plane of the current tile
    /// row. Each pixel needs 2 bits of information, which are read in two separate steps.
    pub fn read_tile_line(&mut self, vram: &[u8], bit_plane: u8)
        requires
            old(self).can_read_tile_line(vram@.len(), bit_plane),
        ensures
            *final(self) == (Fetcher { tile_data: final(self).tile_data, ..*old(self) }),
            forall|i: int| 0 <= i < 8 ==> final(self).tile_data[i] == old(self).pixel_after(
                vram@[old(self).row_address() - VRAM_BEGIN + bit_plane],
                bit_plane,
                i,
            ),
    {
        // A tile's graphical data takes 16 bytes (2 bytes per row of 8 pixels).
        let offset: u16 = if self.tile_address == 0x8000 {
            self.tile_address + self.tile_id as u16 * 16
        } else {
            self.tile_address + (self.tile_id + 128) as u16 * 16
        };
        // Then, from that starting offset, we compute the final address to read
        // by finding out which of the 8-pixel rows of the tile we want.
        let address = offset as usize + self.tile_line as usize * 2;
        let pixel_data = vram[address - VRAM_BEGIN as usize + bit_plane as usize];
        let ghost before = *self;
        let mut bit_pos: u8 = 0;
        while bit_pos < 8
            invariant
                bit_pos <= 8,
                *self == (Fetcher { tile_data: self.tile_data, ..before }),
                forall|i: int| 0 <= i < bit_pos ==> self.tile_data[i] == before.pixel_after(pixel_data, bit_plane, i),
                forall|i: int| bit_pos <= i < 8 ==> self.tile_data[i] == before.tile_data[i],
            decreases 8 - bit_pos,
        {
            // Store one bit of the pixel color in the pixel data buffer.
            let value: u8 = if bit_at(pixel_data, bit_pos) { 1 } else { 0 };
            if bit_plane == 0 {
                self.tile_data[bit_pos as usize] = Pixel::from_bits(value);
            } else {
                let low = self.tile_data[bit_pos as usize].bits();
                self.tile_data[bit_pos as usize] = Pixel::from_bits(low | (value << 1u8));
            }
            bit_pos = bit_pos + 1;
        }
    }

    /// Advances the fetcher by one clock cycle; every second cycle it takes the next step:
    /// read the tile number, read the two bit planes of the row, then push the eight
    /// pixels, colored with the background palette, once the FIFO holds at most eight.
    pub fn step(&mut self, r: &Registers, vram: &[u8])
        requires
            old(self).can_step(vram@.len()),
        ensures
            ({
                let ticked = (old(self).clock.t_cycle + 1) % 0x1_0000_0000;
                let reset = Fetcher { clock: Clock { t_cycle: 0 }, ..*old(self) };
                if ticked < 2 {
                    *final(self) == (Fetcher { clock: Clock { t_cycle: ticked as u32 }, ..*old(self) })
                } else {
                    match old(self).state {
                        FetcherState::ReadTileID => *final(self) == (Fetcher {
                            tile_id: tile_id_of(
                                old(self).tile_address,
                                vram@[old(self).map_address + old(self).tile_index - VRAM_BEGIN],
                            ),
                            state: FetcherState::ReadTileData0,
                            ..reset
                        }),
                        FetcherState::ReadTileData0 => *final(self) == (Fetcher {
                            tile_data: final(self).tile_data,
                            state: FetcherState::ReadTileData1,
                            ..reset
                        }) && forall|i: int| 0 <= i < 8 ==> final(self).tile_data[i] == old(self).pixel_after(
                            vram@[old(self).row_address() - VRAM_BEGIN],
                            0,
                            i,
                        ),
                        FetcherState::ReadTileData1 => *final(self) == (Fetcher {
                            tile_data: final(self).tile_data,
                            state: FetcherState::PushToFIFO,
                            ..reset
                        }) && forall|i: int| 0 <= i < 8 ==> final(self).tile_data[i] == old(self).pixel_after(
                            vram@[old(self).row_address() - VRAM_BEGIN + 1],
                            1,
                            i,
                        ),
                        FetcherState::PushToFIFO => if old(self).fifo@.len() > 8 {
                            *final(self) == reset
                        } else {
                            final(self).fifo@ == old(self).fifo@ + old(self).row_pixels(r.bg_palette)
                                && *final(self) == (Fetcher {
                                fifo: final(self).fifo,
                                tile_index: (old(self).tile_index + 1) as u8,
                                state: FetcherState::ReadTileID,
                                ..reset
                            })
                        },
                    }
                }
            }),
    {
        self.clock.advance(1);
        if self.clock.ticks() < 2 {
            return ;
        }
        self.clock.reset();
        match self.state {
            FetcherState::ReadTileID => {
                // Read the tile's number from the background map. This will be used
                // in the next states to find the address where the tile's actual pixel
                // data is stored in memory.
                let address = self.map_address as usize + self.tile_index as usize;
                let byte = vram[address - VRAM_BEGIN as usize];
                // The tile number is unsigned or signed depending on the addressing mode.
                let tile_id: i16 = if self.tile_address == 0x8000 || byte < 128 {
                    byte as i16
                } else {
                    byte as i16 - 256
                };
                assert(tile_id == tile_id_of(self.tile_address, byte));
                self.tile_id = tile_id;
                self.state = FetcherState::ReadTileData0;
            },
            FetcherState::ReadTileData0 => {
                self.read_tile_line(vram, 0);
                self.state = FetcherState::ReadTileData1;
            },
            FetcherState::ReadTileData1 => {
                self.read_tile_line(vram, 1);
                self.state = FetcherState::PushToFIFO;
            },
            FetcherState::PushToFIFO => {
                if self.fifo.len() > 8 {
                    return ;
                }
                // We stored pixel bits from least significant (rightmost) to most
                // (leftmost) in the data array, so we must push them in reverse
                // order.
                let ghost before = self.fifo@;
                let ghost fields = *self;
                assert(fields.tile_index < 255);
                let mut i: usize = 8;
                while i > 0
                    invariant
                        i <= 8,
                        fields.tile_index < 255,
                        *self == (Fetcher { fifo: self.fifo, ..fields }),
                        self.fifo@ == before + fields.row_pixels(r.bg_palette).take(8 - i),
                    decreases i,
                {
                    i = i - 1;
                    let pixel = r.bg_palette.colorize(self.tile_data[i]);
                    self.fifo.push(pixel);
                    assert(self.row_pixels(r.bg_palette).take(8 - i) =~= self.row_pixels(
                        r.bg_palette,
                    ).take(8 - i - 1).push(pixel));
                }
                assert(self.row_pixels(r.bg_palette).take(8) =~= self.row_pixels(r.bg_palette));
                // Advance to the next tile in the map's row.
                self.tile_index = self.tile_index + 1;
                self.state = FetcherState::ReadTileID;
            },
        }
    }
}

impl Default for Fetcher {
    fn default() -> (r: Self)
        ensures
            r.fifo@ == Seq::<ColoredPixel>::empty(),
            r.clock.t_cycle == 0,
            r.state == FetcherState::ReadTileID,
            r.map_address == 0 && r.tile_address == 0 && r.tile_line == 0 && r.tile_index == 0
                && r.tile_id == 0,
            forall|i: int| 0 <= i < 8 ==> r.tile_data[i] == Pixel::Zero,
    {
        Fetcher {
            fifo: Vec::new(),
            clock: Clock::new(),
            state: FetcherState::ReadTileID,
            map_address: 0,
            tile_address: 0,
            tile_line: 0,
            tile_index: 0,
            tile_id: 0,
            tile_data: [Pixel::Zero, Pixel::Zero, Pixel::Zero, Pixel::Zero, Pixel::Zero, Pixel::Zero, Pixel::Zero, Pixel::Zero],
        }
    }
}

} // verus!
