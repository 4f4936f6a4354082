use vstd::prelude::*;
use std::collections::VecDeque;
use crate::hdma::Hdma;
use crate::memory::Memory;
use crate::bits::lemma_byte_fields;

verus! {

/// The four PPU modes, as STAT bits 0-1 report them.
#[derive(PartialEq, Eq, Structural, Clone, Copy, Debug)]
pub enum PpuMode {
    HBlank,
    VBlank,
    SearchingOAM,
    Transferring,
}

impl PpuMode {
    /// The mode's number in STAT bits 0-1.
    pub open spec fn bits_spec(self) -> u8 {
        match self {
            PpuMode::HBlank => 0,
            PpuMode::VBlank => 1,
            PpuMode::SearchingOAM => 2,
            PpuMode::Transferring => 3,
        }
    }

    pub fn bits(self) -> (r: u8)
        ensures
            r == self.bits_spec(),
    {
        match self {
            PpuMode::HBlank => 0,
            PpuMode::VBlank => 1,
            PpuMode::SearchingOAM => 2,
            PpuMode::Transferring => 3,
        }
    }
}

/// The mode that STAT reports.
pub open spec fn mode_of_stat(stat: u8) -> PpuMode {
    let bits = stat & 3;
    if bits == 0 {
        PpuMode::HBlank
    } else if bits == 1 {
        PpuMode::VBlank
    } else if bits == 2 {
        PpuMode::SearchingOAM
    } else {
        PpuMode::Transferring
    }
}

/// A sprite picked by the OAM scan for the current line.
#[derive(Clone, Copy)]
pub struct LineSprite {
    pub y: u8,
    pub x: u8,
    pub tile_number: u8,
    pub attributes: u8,
    pub oam_index: u8,
}

/// A background pixel waiting in the FIFO: its 2-bit color number.
#[derive(Clone, Copy)]
pub struct BgPixel {
    pub color: u8,
}

/// A sprite pixel waiting in the FIFO.
#[derive(Clone, Copy)]
pub struct SpritePixel {
    pub color: u8,
    pub palette: u8,
    pub behind_bg: bool,
}

/// The background fetcher's four steps.
#[derive(PartialEq, Eq, Structural, Clone, Copy)]
pub enum FetcherStep {
    GetTile,
    GetTileDataLow,
    GetTileDataHigh,
    Push,
}

/// The registers that only CGB hardware uses: KEY1, VBK, the palette index and data
/// registers with their palette RAM, SVBK.
pub struct CgbRegisters {
    pub cgb_hardware: bool,
    pub cgb_mode: bool,
    pub key1: u8,
    pub vbk: u8,
    pub bcps: u8,
    pub bcpd: u8,
    pub ocps: u8,
    pub ocpd: u8,
    pub svbk: u8,
    pub bg_palette_ram: [u8; 64],
    pub obj_palette_ram: [u8; 64],
}

/// The picture processing unit: LCD registers, VRAM, OAM and the pixel pipeline.
pub struct Ppu {
    pub lcdc: u8,
    pub stat: u8,
    pub scy: u8,
    pub scx: u8,
    pub ly: u8,
    pub lyc: u8,
    pub bgp: u8,
    pub obp0: u8,
    pub obp1: u8,
    pub wy: u8,
    pub wx: u8,
    pub cgb: CgbRegisters,
    pub vram: Vec<u8>,
    pub oam: [u8; 0xA0],
    pub oam_corruption_bug: bool,
    pub mode: PpuMode,
    pub hdma: Hdma,
    pub mode_clock: u32,
    pub line_clock: u32,
    pub frame_ready: bool,
    pub screen: [[u8; 160]; 144],
    pub bg_fifo: VecDeque<BgPixel>,
    pub sprite_fifo: VecDeque<Option<SpritePixel>>,
    pub line_sprites: Vec<LineSprite>,
    pub oam_scan_index: usize,
    pub next_sprite_index: usize,
    pub fetcher_step: FetcherStep,
    pub fetcher_step_clock: u8,
    pub fetcher_map_x: usize,
    pub fetcher_using_window: bool,
    pub fetcher_tile_number: u8,
    pub fetcher_tile_data_low: u8,
    pub fetcher_tile_data_high: u8,
    pub fetch_x: i16,
    pub visible_x: u8,
    pub sprite_fetch_delay: u8,
    pub window_line_counter: u8,
    pub window_triggered: bool,
    pub window_rendering_this_line: bool,
}

/// The 2-bit color number of pixel `bit` (7 is leftmost) of a tile row.
pub open spec fn tile_color(high: u8, low: u8, bit: u8) -> u8 {
    (((high >> bit) & 1) << 1) | ((low >> bit) & 1)
}

pub proof fn lemma_tile_color_small(high: u8, low: u8, bit: u8)
    ensures
        tile_color(high, low, bit) < 4,
{
    assert(((((high >> bit) & 1) << 1) | ((low >> bit) & 1)) < 4) by (bit_vector);
}

/// Pixel `x` of a sprite row with data bytes `low` and `high`: attribute bit 5 flips it
/// horizontally, bit 4 picks OBP1 over OBP0, bit 7 puts it behind the background; color 0 is
/// transparent.
#[verifier::opaque]
pub open spec fn row_pixel(low: u8, high: u8, attributes: u8, obp0: u8, obp1: u8, x: int) -> Option<SpritePixel> {
    let bit = if attributes & 0x20 != 0 { x } else { 7 - x };
    let color = tile_color(high, low, bit as u8);
    if 0 <= x < 8 && color != 0 {
        Some(SpritePixel {
            color,
            palette: if attributes & 0x10 != 0 { obp1 } else { obp0 },
            behind_bg: attributes & 0x80 != 0,
        })
    } else {
        None
    }
}

/// A palette index register after a data write: with bit 7 (auto-increment) set, the index
/// in bits 0-5 moves to the next byte, wrapping within the 64 bytes.
pub open spec fn next_palette_index(index: u8) -> u8 {
    if index & 0x80 != 0 {
        (index & 0xC0) | ((((index & 0x3F) + 1) % 64) as u8)
    } else {
        index
    }
}

fn next_palette_index_exec(index: u8) -> (r: u8)
    ensures
        r == next_palette_index(index),
{
    if index & 0x80 != 0 {
        proof {
            lemma_byte_fields();
        }
        (index & 0xC0) | (((index & 0x3F) + 1) % 64)
    } else {
        index
    }
}

/// The shade that `palette` gives color number `color`.
pub open spec fn palette_shade(palette: u8, color: u8) -> u8 {
    (palette >> (color * 2)) & 0x03
}

/// The shade of a screen pixel: the sprite pixel wins unless it sits behind a non-zero
/// background pixel while the background is enabled.
pub open spec fn resolve_spec(lcdc: u8, bgp: u8, bg: BgPixel, sprite: Option<SpritePixel>) -> u8 {
    match sprite {
        Some(s) => if lcdc & 1 == 0 || !s.behind_bg || bg.color == 0 {
            palette_shade(s.palette, s.color)
        } else {
            palette_shade(bgp, bg.color)
        },
        None => palette_shade(bgp, bg.color),
    }
}

/// Whether `sprite` covers `line` for sprites `height` rows tall.
pub open spec fn sprite_on_line(y: u8, line: u8, height: int) -> bool {
    y - 16 <= line < y - 16 + height
}

/// The scan order of line sprites: by X, then by OAM index.
pub open spec fn sprite_le(a: LineSprite, b: LineSprite) -> bool {
    a.x < b.x || (a.x == b.x && a.oam_index <= b.oam_index)
}

pub open spec fn sprites_sorted(s: Seq<LineSprite>) -> bool {
    forall|i: int, j: int| 0 <= i < j < s.len() ==> sprite_le(#[trigger] s[i], #[trigger] s[j])
}

/// The sprite held by OAM entry `index`.
pub open spec fn oam_sprite(oam: [u8; 0xA0], index: int) -> LineSprite {
    LineSprite {
        y: oam@[index * 4],
        x: oam@[index * 4 + 1],
        tile_number: oam@[index * 4 + 2],
        attributes: oam@[index * 4 + 3],
        oam_index: index as u8,
    }
}

fn sprite_before(a: &LineSprite, b: &LineSprite) -> (r: bool)
    ensures
        r == (sprite_le(*a, *b) && !sprite_le(*b, *a)),
{
    a.x < b.x || (a.x == b.x && a.oam_index < b.oam_index)
}

/// Sorts line sprites by X, then by OAM index, keeping the same sprites.
pub fn sort_line_sprites(sprites: &mut Vec<LineSprite>)
    ensures
        sprites_sorted(final(sprites)@),
        final(sprites)@.to_multiset() == old(sprites)@.to_multiset(),
        final(sprites)@.len() == old(sprites)@.len(),
{
    broadcast use vstd::seq_lib::group_to_multiset_ensures;
    let ghost original = sprites@;
    let mut rest: Vec<LineSprite> = Vec::new();
    let mut i: usize = 0;
    while i < sprites.len()
        invariant
            i <= sprites.len(),
            sprites@ == original,
            rest@ == original.subrange(0, i as int),
        decreases sprites.len() - i,
    {
        rest.push(sprites[i]);
        i = i + 1;
        assert(rest@ =~= original.subrange(0, i as int));
    }
    assert(rest@ =~= original);
    let mut sorted: Vec<LineSprite> = Vec::new();
    assert(sorted@.to_multiset() =~= vstd::multiset::Multiset::empty());
    assert(sorted@.to_multiset().add(rest@.to_multiset()) =~= original.to_multiset());
    while rest.len() > 0
        invariant
            sorted@.to_multiset().add(rest@.to_multiset()) == original.to_multiset(),
            sorted@.len() + rest@.len() == original.len(),
            sprites_sorted(sorted@),
            forall|a: int, b: int| 0 <= a < sorted@.len() && 0 <= b < rest@.len()
                ==> sprite_le(#[trigger] sorted@[a], #[trigger] rest@[b]),
        decreases rest.len(),
    {
        let mut k: usize = 0;
        let mut j: usize = 1;
        while j < rest.len()
            invariant
                0 < rest.len(),
                k < rest.len(),
                k < j <= rest.len(),
                forall|t: int| 0 <= t < j ==> sprite_le(rest@[k as int], #[trigger] rest@[t]),
            decreases rest.len() - j,
        {
            if sprite_before(&rest[j], &rest[k]) {
                k = j;
            }
            j = j + 1;
        }
        let ghost rest_before = rest@;
        let ghost sorted_before = sorted@;
        let m = rest.remove(k);
        sorted.push(m);
        proof {
            vstd::seq_lib::to_multiset_remove(rest_before, k as int);
            vstd::seq_lib::to_multiset_build(sorted_before, m);
            assert(rest_before.to_multiset().count(m) > 0) by {
                rest_before.to_multiset_ensures();
                assert(rest_before.contains(m)) by {
                    assert(rest_before[k as int] == m);
                }
            }
            assert(sorted@.to_multiset().add(rest@.to_multiset()) =~= original.to_multiset());
            assert forall|a: int, b: int| 0 <= a < b < sorted@.len() implies sprite_le(
                #[trigger] sorted@[a],
                #[trigger] sorted@[b],
            ) by {
                if b == sorted@.len() - 1 {
                    assert(sprite_le(sorted_before[a], rest_before[k as int]));
                } else {
                    assert(sprite_le(sorted_before[a], sorted_before[b]));
                }
            }
            assert forall|a: int, b: int| 0 <= a < sorted@.len() && 0 <= b < rest@.len() implies sprite_le(
                #[trigger] sorted@[a],
                #[trigger] rest@[b],
            ) by {
                let ob = if b < k { b } else { b + 1 };
                assert(rest@[b] == rest_before[ob]);
                if a == sorted@.len() - 1 {
                    assert(sprite_le(rest_before[k as int], rest_before[ob]));
                } else {
                    assert(sprite_le(sorted_before[a], rest_before[ob]));
                }
            }
        }
    }
    assert(rest@.to_multiset() =~= vstd::multiset::Multiset::empty());
    assert(sorted@.to_multiset() =~= original.to_multiset());
    *sprites = sorted;
}

impl Ppu {
    /// The state every operation keeps: VRAM has one or two 8 KiB banks, LY stays on the
    /// visible lines outside V-Blank, the pixel pipeline stays inside the line while it
    /// transfers, and the FIFOs hold 2-bit color numbers.
    pub open spec fn wf(&self) -> bool {
        &&& self.core_wf()
        &&& (self.stat & 3 == 3 ==> self.visible_x < 160)
    }

    /// `wf` without the bound that a transfer still has pixels to draw.
    pub open spec fn core_wf(&self) -> bool {
        &&& (self.vram.len() == 0x2000 || self.vram.len() == 0x4000)
        &&& self.ly <= 153
        &&& (self.stat & 3 != 1 ==> self.ly < 144)
        &&& self.line_sprites.len() <= 10
        &&& self.oam_scan_index <= 40
        &&& self.fetcher_map_x < 32
        &&& (self.stat & 3 == 3 ==> (self.visible_x <= 160 && -8 <= self.fetch_x <= self.visible_x))
        &&& (forall|i: int| 0 <= i < self.bg_fifo@.len() ==> (#[trigger] self.bg_fifo@[i]).color < 4)
        &&& (forall|i: int| 0 <= i < self.sprite_fifo@.len() && (#[trigger] self.sprite_fifo@[i]) is Some
            ==> self.sprite_fifo@[i]->0.color < 4)
        &&& (forall|y: int, x: int| 0 <= y < 144 && 0 <= x < 160 ==> #[trigger] self.screen[y][x] < 4)
    }

    /// The height of sprites: 16 rows when LCDC bit 2 is set, else 8.
    pub open spec fn sprite_height_spec(&self) -> u8 {
        if self.lcdc & 0x04 != 0 { 16 } else { 8 }
    }

    /// Whether the window shows on the current line.
    pub open spec fn window_on_line(&self) -> bool {
        self.lcdc & 0x01 != 0 && self.lcdc & 0x20 != 0 && self.ly >= self.wy && self.wx <= 166
    }

    /// The VRAM index that a CPU access at `address` reaches: in CGB mode with two banks,
    /// the bank that VBK bit 0 selects, else the first bank.
    pub open spec fn vram_index(&self, address: u16) -> int {
        if self.cgb.cgb_mode && self.vram.len() == 0x4000 {
            (self.cgb.vbk as int % 2) * 0x2000 + (address as int % 0x2000)
        } else {
            address as int % 0x2000
        }
    }

    /// The PPU that `new` builds: the power-on state.
    pub open spec fn started(&self, cgb_hardware: bool, cgb_mode: bool) -> bool {
        &&& (self.wf())
        &&& (self.cgb.cgb_hardware == cgb_hardware && self.cgb.cgb_mode == cgb_mode)
        &&& (self.vram@ == Seq::new(if cgb_hardware { 0x4000 } else { 0x2000 }, |i: int| 0u8))
        &&& (self.cgb.bg_palette_ram@ == Seq::new(64, |i: int| 0u8) && self.cgb.obj_palette_ram@ == Seq::new(64, |i: int| 0u8))
        &&& (self.oam@ == Seq::new(0xA0, |i: int| 0u8))
        &&& (self.lcdc == 0x91 && self.stat == 0xC6 && self.scy == 0 && self.scx == 0 && self.ly == 0 && self.lyc == 0)
        &&& (self.bgp == 0xFC && self.obp0 == 0xFF && self.obp1 == 0xFF && self.wy == 0 && self.wx == 0)
        &&& (self.cgb.key1 == 0xFF && self.cgb.vbk == 0xFE && self.cgb.bcps == 0xFF && self.cgb.bcpd == 0xFF)
        &&& (self.cgb.ocps == 0xFF && self.cgb.ocpd == 0xFF && self.cgb.svbk == 0xFF)
        &&& (self.mode == PpuMode::SearchingOAM)
        &&& (!self.frame_ready && !self.oam_corruption_bug)
        &&& (self.mode_clock == 0 && self.line_clock == 0)
        &&& (self.hdma.hdma1 == 0xFF && self.hdma.hdma2 == 0xFF && self.hdma.hdma3 == 0xFF && self.hdma.hdma4 == 0xFF)
        &&& (self.hdma.hdma5 == 0xFF && !self.hdma.active && !self.hdma.hblank_mode && self.hdma.remaining_blocks == 0)
        &&& (forall|y: int, x: int| 0 <= y < 144 && 0 <= x < 160 ==> self.screen[y][x] == 0)
        &&& (self.bg_fifo@.len() == 0 && self.sprite_fifo@.len() == 0 && self.line_sprites@.len() == 0)
        &&& (self.oam_scan_index == 0 && self.next_sprite_index == 0)
        &&& (self.fetcher_step == FetcherStep::GetTile && self.fetcher_step_clock == 0 && self.fetcher_map_x == 0)
        &&& (!self.fetcher_using_window && self.fetch_x == 0 && self.visible_x == 0 && self.sprite_fetch_delay == 0)
        &&& (self.window_line_counter == 0 && !self.window_triggered && !self.window_rendering_this_line)
    }

    /// A PPU after power-on: LCD on, STAT reporting mode 2 (OAM search) with the LYC=LY
    /// interrupt enabled and the LY=LYC flag set (LY = LYC = 0), one VRAM bank (two on CGB
    /// hardware), palette RAM cleared.
    pub fn new(cgb_hardware: bool, cgb_mode: bool) -> (r: Self)
        ensures
            r.started(cgb_hardware, cgb_mode),
    {
        let vram: Vec<u8> = if cgb_hardware {
            vec![0; 0x4000]
        } else {
            vec![0; 0x2000]
        };
        let oam: [u8; 0xA0] = [0; 0xA0];
        let r = Self {
            lcdc: 0x91,
            stat: 0xC6,
            scy: 0,
            scx: 0,
            ly: 0,
            lyc: 0,
            bgp: 0xFC,
            obp0: 0xFF,
            obp1: 0xFF,
            wy: 0,
            wx: 0,
            cgb: CgbRegisters {
                cgb_hardware,
                cgb_mode,
                key1: 0xFF,
                vbk: 0xFE,
                bcps: 0xFF,
                bcpd: 0xFF,
                ocps: 0xFF,
                ocpd: 0xFF,
                svbk: 0xFF,
                bg_palette_ram: [0; 64],
                obj_palette_ram: [0; 64],
            },
            vram,
            oam,
            oam_corruption_bug: false,
            mode: PpuMode::SearchingOAM,
            frame_ready: false,
            hdma: Hdma::new(),
            mode_clock: 0,
            line_clock: 0,
            screen: [[0; 160]; 144],
            bg_fifo: VecDeque::with_capacity(16),
            sprite_fifo: VecDeque::with_capacity(16),
            line_sprites: Vec::with_capacity(10),
            oam_scan_index: 0,
            next_sprite_index: 0,
            fetcher_step: FetcherStep::GetTile,
            fetcher_step_clock: 0,
            fetcher_map_x: 0,
            fetcher_using_window: false,
            fetcher_tile_number: 0,
            fetcher_tile_data_low: 0,
            fetcher_tile_data_high: 0,
            fetch_x: 0,
            visible_x: 0,
            sprite_fetch_delay: 0,
            window_line_counter: 0,
            window_triggered: false,
            window_rendering_this_line: false,
        };
        assert(0xC6u8 & 3 == 2 && 0xC6u8 & 0x40 != 0 && 0xC6u8 & 0x04 != 0) by (bit_vector);
        assert(r.vram@ =~= Seq::new(if cgb_hardware { 0x4000 } else { 0x2000 }, |i: int| 0u8));
        assert(r.cgb.bg_palette_ram@ =~= Seq::new(64, |i: int| 0u8));
        assert(r.cgb.obj_palette_ram@ =~= Seq::new(64, |i: int| 0u8));
        assert(r.oam@ =~= Seq::new(0xA0, |i: int| 0u8));
        r
    }

    /// The mode that STAT bits 0-1 report.
    pub fn get_ppu_mode(&self) -> (r: PpuMode)
        ensures
            r == mode_of_stat(self.stat),
    {
        let mode = self.stat & 0x03;
        match mode {
            0 => PpuMode::HBlank,
            1 => PpuMode::VBlank,
            2 => PpuMode::SearchingOAM,
            _ => PpuMode::Transferring,
        }
    }

    /// Puts `mode` in STAT bits 0-1, keeping the other bits.
    pub fn set_mode(&mut self, mode: PpuMode)
        ensures
            *final(self) == (Ppu { stat: (old(self).stat & 0xFC) | mode.bits_spec(), mode, ..*old(self) }),
            final(self).stat & 3 == mode.bits_spec(),
            final(self).stat & 0xFC == old(self).stat & 0xFC,
    {
        let bits = mode.bits();
        let stat = self.stat;
        assert(((stat & 0xFC) | bits) & 3 == bits && ((stat & 0xFC) | bits) & 0xFC == stat & 0xFC)
            by (bit_vector)
            requires bits < 4;
        self.stat = (self.stat & 0xFC) | bits;
        self.mode = mode;
    }

    /// Updates the LY=LYC flag (STAT bit 2) and says whether the LY=LYC STAT interrupt fires:
    /// the flag rises now and its interrupt (STAT bit 6) is enabled.
    pub fn check_lyc(&mut self) -> (r: bool)
        ensures
            *final(self) == (Ppu {
                stat: if old(self).ly == old(self).lyc { old(self).stat | 0x04 } else { old(self).stat & 0xFB },
                ..*old(self)
            }),
            final(self).stat & 3 == old(self).stat & 3,
            r == (old(self).ly == old(self).lyc && old(self).stat & 0x04 == 0 && old(self).stat & 0x40 != 0),
    {
        let stat = self.stat;
        assert((stat | 4) & 3 == stat & 3 && (stat & 0xFB) & 3 == stat & 3 && (stat | 4) & 0x40 == stat & 0x40 && (stat & 0xFB)
            & 0x40 == stat & 0x40) by (bit_vector);
        let previous = self.stat & 0x04 != 0;
        let coincidence = self.ly == self.lyc;
        if coincidence {
            self.stat = self.stat | 0x04;
        } else {
            self.stat = self.stat & 0xFB;
        }
        coincidence && !previous && self.stat & 0x40 != 0
    }

    fn bg_enabled(&self) -> (r: bool)
        ensures
            r == (self.lcdc & 0x01 != 0),
    {
        self.lcdc & 0x01 != 0
    }

    fn sprites_enabled(&self) -> (r: bool)
        ensures
            r == (self.lcdc & 0x02 != 0),
    {
        self.lcdc & 0x02 != 0
    }

    fn tall_sprites(&self) -> (r: bool)
        ensures
            r == (self.lcdc & 0x04 != 0),
    {
        self.lcdc & 0x04 != 0
    }

    fn sprite_height(&self) -> (r: u8)
        ensures
            r == self.sprite_height_spec(),
    {
        if self.tall_sprites() {
            16
        } else {
            8
        }
    }

    fn window_enabled_for_line(&self) -> (r: bool)
        ensures
            r == self.window_on_line(),
    {
        self.bg_enabled() && self.lcdc & 0x20 != 0 && self.ly >= self.wy && self.wx <= 166
    }

    fn window_start_x(&self) -> (r: i16)
        ensures
            r == self.wx - 7,
    {
        self.wx as i16 - 7
    }

    /// What starting a line's pipeline leaves: no line sprites, empty FIFOs, the window not
    /// yet reached, and the fetcher at the first background tile of the line.
    pub open spec fn line_restarted(&self) -> bool {
        &&& self.line_sprites@.len() == 0
        &&& self.bg_fifo@.len() == 0
        &&& self.sprite_fifo@.len() == 0
        &&& self.oam_scan_index == 0
        &&& self.next_sprite_index == 0
        &&& self.sprite_fetch_delay == 0
        &&& self.visible_x == 0
        &&& self.fetch_x == 0
        &&& !self.window_triggered
        &&& !self.window_rendering_this_line
        &&& self.fetcher_fresh(false)
    }

    /// The fetcher at the first tile of the background (or of the window).
    pub open spec fn fetcher_fresh(&self, using_window: bool) -> bool {
        &&& self.fetcher_using_window == using_window
        &&& self.fetcher_step == FetcherStep::GetTile
        &&& self.fetcher_step_clock == 0
        &&& self.fetcher_map_x == (if using_window { 0 } else { (self.scx / 8) as int % 32 })
        &&& self.fetcher_tile_number == 0
        &&& self.fetcher_tile_data_low == 0
        &&& self.fetcher_tile_data_high == 0
    }

    fn clear_pixel_fifos(&mut self)
        ensures
            *final(self) == (Ppu {
                bg_fifo: final(self).bg_fifo,
                sprite_fifo: final(self).sprite_fifo,
                next_sprite_index: 0,
                sprite_fetch_delay: 0,
                visible_x: 0,
                ..*old(self)
            }),
            final(self).bg_fifo@.len() == 0,
            final(self).sprite_fifo@.len() == 0,
    {
        self.bg_fifo.clear();
        self.sprite_fifo.clear();
        self.next_sprite_index = 0;
        self.sprite_fetch_delay = 0;
        self.visible_x = 0;
    }

    fn reset_fetcher(&mut self, using_window: bool)
        ensures
            *final(self) == (Ppu {
                fetcher_using_window: using_window,
                fetcher_step: FetcherStep::GetTile,
                fetcher_step_clock: 0,
                fetcher_map_x: final(self).fetcher_map_x,
                fetcher_tile_number: 0,
                fetcher_tile_data_low: 0,
                fetcher_tile_data_high: 0,
                ..*old(self)
            }),
            final(self).fetcher_fresh(using_window),
    {
        self.fetcher_using_window = using_window;
        self.fetcher_step = FetcherStep::GetTile;
        self.fetcher_step_clock = 0;
        self.fetcher_map_x = if using_window {
            0
        } else {
            (self.scx as usize / 8) % 32
        };
        self.fetcher_tile_number = 0;
        self.fetcher_tile_data_low = 0;
        self.fetcher_tile_data_high = 0;
    }

    /// Restarts the line pipeline: the part common to turning the LCD off or on and to
    /// starting an OAM scan.
    fn restart_line(&mut self)
        ensures
            *final(self) == (Ppu {
                line_sprites: final(self).line_sprites,
                bg_fifo: final(self).bg_fifo,
                sprite_fifo: final(self).sprite_fifo,
                oam_scan_index: 0,
                next_sprite_index: 0,
                sprite_fetch_delay: 0,
                visible_x: 0,
                fetch_x: 0,
                window_triggered: false,
                window_rendering_this_line: false,
                fetcher_using_window: false,
                fetcher_step: FetcherStep::GetTile,
                fetcher_step_clock: 0,
                fetcher_map_x: final(self).fetcher_map_x,
                fetcher_tile_number: 0,
                fetcher_tile_data_low: 0,
                fetcher_tile_data_high: 0,
                ..*old(self)
            }),
            final(self).line_restarted(),
    {
        self.oam_scan_index = 0;
        self.line_sprites.clear();
        self.window_triggered = false;
        self.window_rendering_this_line = false;
        self.fetch_x = 0;
        self.clear_pixel_fifos();
        self.reset_fetcher(false);
    }

    /// Turning the LCD off: line 0, H-Blank, clocks and window line counter at zero.
    fn reset_lcd_state(&mut self)
        requires
            old(self).vram.len() == 0x2000 || old(self).vram.len() == 0x4000,
        ensures
            (forall|y: int, x: int| 0 <= y < 144 && 0 <= x < 160 ==> #[trigger] old(self).screen[y][x] < 4) ==> final(self).wf(),
            final(self).line_restarted(),
            *final(self) == (Ppu {
                ly: 0,
                mode_clock: 0,
                line_clock: 0,
                window_line_counter: 0,
                stat: final(self).stat,
                mode: PpuMode::HBlank,
                line_sprites: final(self).line_sprites,
                bg_fifo: final(self).bg_fifo,
                sprite_fifo: final(self).sprite_fifo,
                oam_scan_index: 0,
                next_sprite_index: 0,
                sprite_fetch_delay: 0,
                visible_x: 0,
                fetch_x: 0,
                window_triggered: false,
                window_rendering_this_line: false,
                fetcher_using_window: false,
                fetcher_step: FetcherStep::GetTile,
                fetcher_step_clock: 0,
                fetcher_map_x: final(self).fetcher_map_x,
                fetcher_tile_number: 0,
                fetcher_tile_data_low: 0,
                fetcher_tile_data_high: 0,
                ..*old(self)
            }),
            final(self).stat == (if old(self).lyc == 0 { (old(self).stat & 0xFC) | 0x04 } else { old(self).stat & 0xF8 }),
    {
        let stat = self.stat;
        self.ly = 0;
        self.mode_clock = 0;
        self.line_clock = 0;
        self.window_line_counter = 0;
        self.restart_line();
        self.set_mode(PpuMode::HBlank);
        let _ = self.check_lyc();
        assert(((stat & 0xFC) | 0) | 0x04 == (stat & 0xFC) | 0x04 && ((stat & 0xFC) | 0) & 0xFB == stat & 0xF8)
            by (bit_vector);
    }

    /// Turning the LCD on: line 0, OAM scan, clocks and window line counter at zero.
    fn enable_lcd(&mut self)
        requires
            old(self).vram.len() == 0x2000 || old(self).vram.len() == 0x4000,
        ensures
            (forall|y: int, x: int| 0 <= y < 144 && 0 <= x < 160 ==> #[trigger] old(self).screen[y][x] < 4) ==> final(self).wf(),
            final(self).line_restarted(),
            *final(self) == (Ppu {
                ly: 0,
                mode_clock: 0,
                line_clock: 0,
                window_line_counter: 0,
                stat: final(self).stat,
                mode: PpuMode::SearchingOAM,
                line_sprites: final(self).line_sprites,
                bg_fifo: final(self).bg_fifo,
                sprite_fifo: final(self).sprite_fifo,
                oam_scan_index: 0,
                next_sprite_index: 0,
                sprite_fetch_delay: 0,
                visible_x: 0,
                fetch_x: 0,
                window_triggered: false,
                window_rendering_this_line: false,
                fetcher_using_window: false,
                fetcher_step: FetcherStep::GetTile,
                fetcher_step_clock: 0,
                fetcher_map_x: final(self).fetcher_map_x,
                fetcher_tile_number: 0,
                fetcher_tile_data_low: 0,
                fetcher_tile_data_high: 0,
                ..*old(self)
            }),
            final(self).stat == (if old(self).lyc == 0 { (old(self).stat & 0xFC) | 0x06 } else { (old(self).stat & 0xF8) | 0x02 }),
    {
        let stat = self.stat;
        self.ly = 0;
        self.mode_clock = 0;
        self.line_clock = 0;
        self.window_line_counter = 0;
        self.restart_line();
        self.set_mode(PpuMode::SearchingOAM);
        let _ = self.check_lyc();
        assert(((stat & 0xFC) | 2) | 0x04 == (stat & 0xFC) | 0x06 && ((stat & 0xFC) | 2) & 0xFB == (stat & 0xF8) | 0x02)
            by (bit_vector);
    }

    /// Starts the OAM scan of a new line (LY unchanged).
    fn start_oam_search(&mut self)
        ensures
            final(self).line_restarted(),
            *final(self) == (Ppu {
                mode_clock: 0,
                stat: (old(self).stat & 0xFC) | 2,
                mode: PpuMode::SearchingOAM,
                line_sprites: final(self).line_sprites,
                bg_fifo: final(self).bg_fifo,
                sprite_fifo: final(self).sprite_fifo,
                oam_scan_index: 0,
                next_sprite_index: 0,
                sprite_fetch_delay: 0,
                visible_x: 0,
                fetch_x: 0,
                window_triggered: false,
                window_rendering_this_line: false,
                fetcher_using_window: false,
                fetcher_step: FetcherStep::GetTile,
                fetcher_step_clock: 0,
                fetcher_map_x: final(self).fetcher_map_x,
                fetcher_tile_number: 0,
                fetcher_tile_data_low: 0,
                fetcher_tile_data_high: 0,
                ..*old(self)
            }),
    {
        self.mode_clock = 0;
        self.set_mode(PpuMode::SearchingOAM);
        self.restart_line();
    }

    /// Starts the pixel transfer of the current line: the line's sprites are put in drawing
    /// order, and the fetcher starts on the window when it covers the left edge, else on the
    /// background with the fine scroll (SCX % 8) discarded from the left.
    fn start_transfer(&mut self)
        requires
            old(self).wf(),
            old(self).stat & 3 == 2,
        ensures
            final(self).wf(),
            final(self).stat == (old(self).stat & 0xFC) | 3,
            final(self).mode == PpuMode::Transferring,
            final(self).mode_clock == 0,
            sprites_sorted(final(self).line_sprites@),
            final(self).line_sprites@.to_multiset() == old(self).line_sprites@.to_multiset(),
            final(self).window_triggered == (old(self).window_on_line() && old(self).wx <= 7),
            final(self).window_rendering_this_line == final(self).window_triggered,
            final(self).fetch_x == (if final(self).window_triggered { 0 } else { -(old(self).scx % 8) }),
            final(self).bg_fifo@.len() == 0 && final(self).sprite_fifo@.len() == 0,
            final(self).next_sprite_index == 0 && final(self).sprite_fetch_delay == 0 && final(self).visible_x == 0,
            final(self).fetcher_fresh(final(self).window_triggered),
            *final(self) == (Ppu {
                mode_clock: 0,
                stat: final(self).stat,
                mode: PpuMode::Transferring,
                line_sprites: final(self).line_sprites,
                window_triggered: final(self).window_triggered,
                window_rendering_this_line: final(self).window_rendering_this_line,
                fetch_x: final(self).fetch_x,
                bg_fifo: final(self).bg_fifo,
                sprite_fifo: final(self).sprite_fifo,
                next_sprite_index: 0,
                sprite_fetch_delay: 0,
                visible_x: 0,
                fetcher_using_window: final(self).fetcher_using_window,
                fetcher_step: FetcherStep::GetTile,
                fetcher_step_clock: 0,
                fetcher_map_x: final(self).fetcher_map_x,
                fetcher_tile_number: 0,
                fetcher_tile_data_low: 0,
                fetcher_tile_data_high: 0,
                ..*old(self)
            }),
    {
        self.mode_clock = 0;
        self.set_mode(PpuMode::Transferring);
        sort_line_sprites(&mut self.line_sprites);
        let start_with_window = self.window_enabled_for_line() && self.window_start_x() <= 0;
        self.window_triggered = start_with_window;
        self.window_rendering_this_line = start_with_window;
        self.fetch_x = if start_with_window {
            0
        } else {
            -((self.scx % 8) as i16)
        };
        self.clear_pixel_fifos();
        self.reset_fetcher(start_with_window);
    }

    /// Looks at OAM entry `sprite_index` and keeps it for the line when it covers LY and
    /// fewer than ten sprites are kept.
    fn scan_oam_entry(&mut self, sprite_index: usize)
        requires
            sprite_index < 40,
        ensures
            *final(self) == (Ppu { line_sprites: final(self).line_sprites, ..*old(self) }),
            final(self).line_sprites@ == (if old(self).line_sprites@.len() < 10 && sprite_on_line(
                old(self).oam[sprite_index * 4],
                old(self).ly,
                old(self).sprite_height_spec() as int,
            ) {
                old(self).line_sprites@.push(oam_sprite(old(self).oam, sprite_index as int))
            } else {
                old(self).line_sprites@
            }),
    {
        if self.line_sprites.len() >= 10 {
            return;
        }
        let oam_addr = sprite_index * 4;
        let sprite = LineSprite {
            y: self.oam[oam_addr],
            x: self.oam[oam_addr + 1],
            tile_number: self.oam[oam_addr + 2],
            attributes: self.oam[oam_addr + 3],
            oam_index: sprite_index as u8,
        };
        let top = sprite.y as i16 - 16;
        let line = self.ly as i16;
        let height = self.sprite_height() as i16;
        if line >= top && line < top + height {
            self.line_sprites.push(sprite);
        }
    }

    /// One dot of OAM scan: an entry is looked at every other dot, 40 in all.
    fn tick_oam_search(&mut self)
        requires
            old(self).oam_scan_index <= 40,
        ensures
            old(self).mode_clock % 2 == 0 && old(self).oam_scan_index < 40 ==> ({
                &&& final(self).oam_scan_index == old(self).oam_scan_index + 1
                &&& final(self).line_sprites@ == (if old(self).line_sprites@.len() < 10 && sprite_on_line(
                    old(self).oam[old(self).oam_scan_index * 4],
                    old(self).ly,
                    old(self).sprite_height_spec() as int,
                ) {
                    old(self).line_sprites@.push(oam_sprite(old(self).oam, old(self).oam_scan_index as int))
                } else {
                    old(self).line_sprites@
                })
            }),
            !(old(self).mode_clock % 2 == 0 && old(self).oam_scan_index < 40) ==> final(self).line_sprites@
                == old(self).line_sprites@ && final(self).oam_scan_index == old(self).oam_scan_index,
            *final(self) == (Ppu {
                line_sprites: final(self).line_sprites,
                oam_scan_index: final(self).oam_scan_index,
                ..*old(self)
            }),
            final(self).line_sprites@.len() <= 10 || final(self).line_sprites@ == old(self).line_sprites@,
    {
        if self.mode_clock % 2 == 0 && self.oam_scan_index < 40 {
            self.scan_oam_entry(self.oam_scan_index);
            self.oam_scan_index = self.oam_scan_index + 1;
        }
    }

    /// The start of the tile map that the background (LCDC bit 3) or the window (bit 6) uses,
    /// as an offset into VRAM.
    pub open spec fn tile_map_base_spec(&self, using_window: bool) -> int {
        if (using_window && self.lcdc & 0x40 != 0) || (!using_window && self.lcdc & 0x08 != 0) {
            0x1C00
        } else {
            0x1800
        }
    }

    /// The tile row of the map that the fetcher reads on this line.
    pub open spec fn fetcher_tile_y_spec(&self) -> int {
        if self.fetcher_using_window {
            (self.window_line_counter / 8) as int % 32
        } else {
            ((self.scy + self.ly) % 256) / 8
        }
    }

    /// The pixel row inside the tile that the fetcher reads on this line.
    pub open spec fn fetcher_pixel_y_spec(&self) -> int {
        if self.fetcher_using_window {
            self.window_line_counter as int % 8
        } else {
            (self.scy + self.ly) % 8
        }
    }

    /// The VRAM offset of the tile number that the fetcher reads next.
    pub open spec fn tile_number_addr(&self) -> int {
        self.tile_map_base_spec(self.fetcher_using_window) + self.fetcher_tile_y_spec() * 32 + self.fetcher_map_x as int % 32
    }

    /// The VRAM offset of the fetcher's row of tile `tile`: from 0x8000 with unsigned tile
    /// numbers (LCDC bit 4), else from 0x9000 with signed ones.
    pub open spec fn tile_row_addr(&self, tile: u8) -> int {
        let row = self.fetcher_pixel_y_spec() * 2;
        if self.lcdc & 0x10 != 0 {
            tile * 16 + row
        } else if tile < 128 {
            0x1000 + tile * 16 + row
        } else {
            tile * 16 + row
        }
    }

    fn tile_map_base(&self, using_window: bool) -> (r: usize)
        ensures
            r == self.tile_map_base_spec(using_window),
    {
        if using_window {
            if self.lcdc & 0x40 != 0 {
                0x1C00
            } else {
                0x1800
            }
        } else if self.lcdc & 0x08 != 0 {
            0x1C00
        } else {
            0x1800
        }
    }

    fn fetcher_tile_y(&self) -> (r: usize)
        ensures
            r == self.fetcher_tile_y_spec(),
            r < 32,
    {
        if self.fetcher_using_window {
            (self.window_line_counter as usize / 8) % 32
        } else {
            ((self.scy as usize + self.ly as usize) % 256) / 8
        }
    }

    fn fetcher_pixel_y(&self) -> (r: usize)
        ensures
            r == self.fetcher_pixel_y_spec(),
            r < 8,
    {
        if self.fetcher_using_window {
            self.window_line_counter as usize % 8
        } else {
            (self.scy as usize + self.ly as usize) % 8
        }
    }

    /// The tile number at the fetcher's place in the tile map.
    fn read_bg_tile_number(&self) -> (r: u8)
        requires
            self.vram.len() >= 0x2000,
        ensures
            0 <= self.tile_number_addr() < 0x2000,
            r == self.vram@[self.tile_number_addr()],
    {
        let tile_map_base = self.tile_map_base(self.fetcher_using_window);
        let tile_addr = tile_map_base + self.fetcher_tile_y() * 32 + (self.fetcher_map_x % 32);
        self.vram[tile_addr]
    }

    /// The VRAM offset of the fetcher's row of `tile_number` (always inside the first bank).
    fn read_bg_tile_row_addr(&self, tile_number: u8) -> (r: usize)
        ensures
            r == self.tile_row_addr(tile_number),
            r + 1 < 0x2000,
    {
        let tile_row = self.fetcher_pixel_y() * 2;
        if self.lcdc & 0x10 != 0 {
            (tile_number as usize) * 16 + tile_row
        } else if tile_number < 128 {
            0x1000 + (tile_number as usize) * 16 + tile_row
        } else {
            (tile_number as usize) * 16 + tile_row
        }
    }

    /// One dot of the background fetcher. Fetching a tile number and its two data bytes
    /// takes two dots each; the eight pixels are then pushed as soon as the background FIFO
    /// holds at most eight, with the sprite FIFO padded to the same length.
    fn tick_fetcher(&mut self)
        requires
            old(self).wf(),
        ensures
            old(self).fetcher_ticked(&*final(self)),
    {
        match self.fetcher_step {
            FetcherStep::Push => {
                if self.bg_fifo.len() <= 8 {
                    let bg_enabled = self.bg_enabled();
                    let high = self.fetcher_tile_data_high;
                    let low = self.fetcher_tile_data_low;
                    let ghost bg_before = self.bg_fifo@;
                    let mut bit: u8 = 8;
                    while bit > 0
                        invariant
                            bit <= 8,
                            bg_before.len() <= 8,
                            self.bg_fifo@ == bg_before + Seq::new((8 - bit) as nat, |i: int| BgPixel {
                                color: if bg_enabled { tile_color(high, low, (7 - i) as u8) } else { 0 },
                            }),
                            forall|i: int| 0 <= i < self.bg_fifo@.len() ==> (#[trigger] self.bg_fifo@[i]).color < 4,
                            *self == (Ppu { bg_fifo: self.bg_fifo, ..*old(self) }),
                        decreases bit,
                    {
                        bit = bit - 1;
                        let color = if bg_enabled {
                            (((high >> bit) & 1) << 1) | ((low >> bit) & 1)
                        } else {
                            0
                        };
                        proof {
                            lemma_tile_color_small(high, low, bit);
                        }
                        self.bg_fifo.push_back(BgPixel { color });
                        assert(self.bg_fifo@ =~= bg_before + Seq::new((8 - bit) as nat, |i: int| BgPixel {
                            color: if bg_enabled { tile_color(high, low, (7 - i) as u8) } else { 0 },
                        }));
                    }
                    let ghost sprite_before = self.sprite_fifo@;
                    while self.sprite_fifo.len() < self.bg_fifo.len()
                        invariant
                            self.bg_fifo@.len() <= 16,
                            self.sprite_fifo@.len() >= sprite_before.len(),
                            self.sprite_fifo@.len() <= sprite_before.len() || self.sprite_fifo@.len() <= self.bg_fifo@.len(),
                            forall|i: int| 0 <= i < sprite_before.len() ==> #[trigger] self.sprite_fifo@[i] == sprite_before[i],
                            forall|i: int| sprite_before.len() <= i < self.sprite_fifo@.len() ==> #[trigger] self.sprite_fifo@[i] is None,
                            *self == (Ppu { sprite_fifo: self.sprite_fifo, ..*old(self) }) || *self == (Ppu {
                                sprite_fifo: self.sprite_fifo,
                                bg_fifo: self.bg_fifo,
                                ..*old(self)
                            }),
                            self.bg_fifo@ == old(self).bg_fifo@ + Seq::new(8, |i: int| BgPixel {
                                color: if bg_enabled { tile_color(high, low, (7 - i) as u8) } else { 0 },
                            }),
                            *self == (Ppu { sprite_fifo: self.sprite_fifo, bg_fifo: self.bg_fifo, ..*old(self) }),
                        decreases self.bg_fifo@.len() - self.sprite_fifo@.len(),
                    {
                        self.sprite_fifo.push_back(None);
                    }
                    self.fetcher_map_x = (self.fetcher_map_x + 1) % 32;
                    self.fetcher_step = FetcherStep::GetTile;
                }
            },
            _ => {
                self.fetcher_step_clock = self.fetcher_step_clock.wrapping_add(1);
                if self.fetcher_step_clock < 2 {
                    return;
                }
                self.fetcher_step_clock = 0;
                match self.fetcher_step {
                    FetcherStep::GetTile => {
                        self.fetcher_tile_number = self.read_bg_tile_number();
                        self.fetcher_step = FetcherStep::GetTileDataLow;
                    },
                    FetcherStep::GetTileDataLow => {
                        let row_addr = self.read_bg_tile_row_addr(self.fetcher_tile_number);
                        self.fetcher_tile_data_low = self.vram[row_addr];
                        self.fetcher_step = FetcherStep::GetTileDataHigh;
                    },
                    FetcherStep::GetTileDataHigh => {
                        let row_addr = self.read_bg_tile_row_addr(self.fetcher_tile_number);
                        self.fetcher_tile_data_high = self.vram[row_addr + 1];
                        self.fetcher_step = FetcherStep::Push;
                    },
                    FetcherStep::Push => {},
                }
            },
        }
    }

    /// How far LY is below the top of `sprite`, as an 8-bit difference.
    pub open spec fn sprite_line(&self, sprite: LineSprite) -> int {
        (self.ly as int - sprite.y as int + 16) % 256
    }

    /// The row of the sprite's tile that this line shows, vertically flipped by attribute bit
    /// 6. A line outside the sprite (its height changed since the scan) counts rows from the
    /// other side, modulo 4096 as the unsigned wrap-around leaves them.
    pub open spec fn sprite_row(&self, sprite: LineSprite) -> int {
        let h = self.sprite_height_spec() as int;
        let line = self.sprite_line(sprite);
        if sprite.attributes & 0x40 != 0 {
            if line < h { h - 1 - line } else { h - 1 + 4096 - line }
        } else {
            line
        }
    }

    /// The VRAM offset of the sprite's row; 8x16 sprites use the even tile for the top half
    /// and the odd one for the bottom.
    pub open spec fn sprite_row_addr(&self, sprite: LineSprite) -> int {
        let row = self.sprite_row(sprite);
        if self.lcdc & 0x04 != 0 {
            let tile: int = if row >= 8 { (sprite.tile_number & 0xFE) + 1 } else { (sprite.tile_number & 0xFE) as int };
            (tile * 16 + (row % 8) * 2) % 0x2000
        } else {
            (sprite.tile_number * 16 + row * 2) % 0x2000
        }
    }

    /// Pixel `x` (0 is leftmost on screen) of the sprite on this line, `None` where it is
    /// transparent.
    pub open spec fn sprite_pixel(&self, sprite: LineSprite, x: int) -> Option<SpritePixel> {
        let addr = self.sprite_row_addr(sprite);
        row_pixel(self.vram@[addr], self.vram@[(addr + 1) % 0x2000], sprite.attributes, self.obp0, self.obp1, x)
    }

    /// The sprite's pixel that lands in sprite FIFO slot `slot` (slot 0 is the next pixel out).
    pub open spec fn sprite_pixel_in_slot(&self, sprite: LineSprite, slot: int) -> Option<SpritePixel> {
        self.sprite_pixel(sprite, slot + self.fetch_x - (sprite.x - 8))
    }

    /// The two data bytes (low, high) of the sprite's row on this line.
    #[verifier::rlimit(40)]
    fn sprite_row_bytes(&self, sprite: LineSprite) -> (r: (u8, u8))
        requires
            self.vram.len() >= 0x2000,
        ensures
            0 <= self.sprite_row_addr(sprite) < 0x2000,
            r.0 == self.vram@[self.sprite_row_addr(sprite)],
            r.1 == self.vram@[(self.sprite_row_addr(sprite) + 1) % 0x2000],
    {
        let sprite_height = self.sprite_height() as usize;
        let line: usize = (self.ly as usize + 272 - sprite.y as usize) % 256;
        let flip_y = sprite.attributes & 0x40 != 0;
        let mut row: usize = if flip_y {
            if line < sprite_height {
                sprite_height - 1 - line
            } else {
                sprite_height - 1 + 4096 - line
            }
        } else {
            line
        };
        assert(line == self.sprite_line(sprite));
        assert(row == self.sprite_row(sprite));
        let mut tile_number = sprite.tile_number;
        if self.tall_sprites() {
            let even = tile_number & 0xFE;
            proof {
                lemma_byte_fields();
            }
            tile_number = even;
            if row >= 8 {
                tile_number = tile_number + 1;
            }
            row = row % 8;
        }
        let row_addr = ((tile_number as usize) * 16 + row * 2) % 0x2000;
        (self.vram[row_addr], self.vram[(row_addr + 1) % 0x2000])
    }

    /// Puts `pixel` in sprite FIFO slot `slot` unless a sprite pixel is there already,
    /// growing the FIFO with empty slots to reach it.
    fn place_sprite_pixel(&mut self, slot: usize, pixel: SpritePixel)
        requires
            slot < 8,
        ensures
            *final(self) == (Ppu { sprite_fifo: final(self).sprite_fifo, ..*old(self) }),
            final(self).sprite_fifo@.len() == (if old(self).sprite_fifo@.len() > slot { old(self).sprite_fifo@.len() as int } else { slot + 1 }),
            forall|t: int| 0 <= t < final(self).sprite_fifo@.len() ==> #[trigger] final(self).sprite_fifo@[t] == (
                if t < old(self).sprite_fifo@.len() && old(self).sprite_fifo@[t] is Some {
                    old(self).sprite_fifo@[t]
                } else if t == slot {
                    Some(pixel)
                } else {
                    None
                }),
    {
        let ghost before = self.sprite_fifo@;
        while self.sprite_fifo.len() <= slot
            invariant
                slot < 8,
                *self == (Ppu { sprite_fifo: self.sprite_fifo, ..*old(self) }),
                before.len() <= self.sprite_fifo@.len(),
                before.len() < self.sprite_fifo@.len() ==> self.sprite_fifo@.len() <= slot + 1,
                forall|t: int| 0 <= t < self.sprite_fifo@.len() ==> #[trigger] self.sprite_fifo@[t] == (
                    if t < before.len() { before[t] } else { None }),
            decreases slot + 1 - self.sprite_fifo@.len(),
        {
            self.sprite_fifo.push_back(None);
        }
        if self.sprite_fifo[slot].is_none() {
            let _ = self.sprite_fifo.remove(slot);
            self.sprite_fifo.insert(slot, Some(pixel));
        }
    }

    /// Mixes a sprite's row into the sprite FIFO: each opaque pixel fills its slot unless an
    /// earlier sprite already did, and the FIFO grows to reach the rightmost one.
    fn fetch_sprite(&mut self, sprite: LineSprite)
        requires
            old(self).wf(),
            old(self).stat & 3 == 3,
            sprite.x - 8 <= old(self).fetch_x,
        ensures
            old(self).sprite_fetched(&*final(self), sprite),
    {
        let (low, high) = self.sprite_row_bytes(sprite);
        let attributes = sprite.attributes;
        let obp0 = self.obp0;
        let obp1 = self.obp1;
        let left_edge: i16 = sprite.x as i16 - 8;
        let ghost d: int = self.fetch_x - left_edge;
        let ghost before = self.sprite_fifo@;
        let mut x: u8 = 0;
        while x < 8
            invariant
                x <= 8,
                d >= 0,
                d == old(self).fetch_x - left_edge,
                left_edge == sprite.x - 8,
                *self == (Ppu { sprite_fifo: self.sprite_fifo, ..*old(self) }),
                before == old(self).sprite_fifo@,
                before.len() <= self.sprite_fifo@.len(),
                self.sprite_fifo@.len() <= before.len() || self.sprite_fifo@.len() <= 8,
                forall|q: int| 0 <= q < self.sprite_fifo@.len() ==> #[trigger] self.sprite_fifo@[q] == (
                    if q < before.len() && before[q] is Some {
                        before[q]
                    } else if q + d < x {
                        row_pixel(low, high, attributes, obp0, obp1, q + d)
                    } else {
                        None
                    }),
                forall|q: int| q >= self.sprite_fifo@.len() && q + d < x ==> #[trigger] row_pixel(low, high, attributes, obp0, obp1, q + d) is None,
                self.sprite_fifo@.len() > before.len() ==> self.sprite_fifo@[self.sprite_fifo@.len() - 1] is Some,
            decreases 8 - x,
        {
            let screen_x: i16 = left_edge + x as i16;
            if screen_x >= self.fetch_x {
                let bit: u8 = if attributes & 0x20 != 0 { x } else { 7 - x };
                let color = (((high >> bit) & 1) << 1) | ((low >> bit) & 1);
                if color == 0 {
                    assert(row_pixel(low, high, attributes, obp0, obp1, x as int) is None) by {
                        reveal(row_pixel);
                    }
                } else {
                    let slot = (screen_x - self.fetch_x) as usize;
                    let palette = if attributes & 0x10 != 0 { obp1 } else { obp0 };
                    let pixel = SpritePixel { color, palette, behind_bg: attributes & 0x80 != 0 };
                    assert(row_pixel(low, high, attributes, obp0, obp1, slot + d) == Some(pixel)) by {
                        reveal(row_pixel);
                    }
                    self.place_sprite_pixel(slot, pixel);
                }
            }
            x = x + 1;
        }
        proof {
            reveal(row_pixel);
            assert forall|q: int| 0 <= q < self.sprite_fifo@.len() && (#[trigger] self.sprite_fifo@[q]) is Some
                implies self.sprite_fifo@[q]->0.color < 4 by {
                if !(q < before.len() && before[q] is Some) {
                    let bit = if attributes & 0x20 != 0 { q + d } else { 7 - (q + d) };
                    lemma_tile_color_small(high, low, bit as u8);
                }
            }
            assert forall|q: int| q >= self.sprite_fifo@.len() implies #[trigger] old(self).sprite_pixel_in_slot(sprite, q) is None by {
                assert(old(self).sprite_pixel_in_slot(sprite, q) == row_pixel(low, high, attributes, obp0, obp1, q + d));
            }
            assert forall|q: int| 0 <= q < self.sprite_fifo@.len() implies #[trigger] self.sprite_fifo@[q] == (
                if q < before.len() && before[q] is Some {
                    before[q]
                } else {
                    old(self).sprite_pixel_in_slot(sprite, q)
                }) by {
                assert(old(self).sprite_pixel_in_slot(sprite, q) == row_pixel(low, high, attributes, obp0, obp1, q + d));
            }
        }
    }

    /// The shade of a screen pixel from the background and sprite pixels that meet there.
    fn resolve_pixel(&self, bg_pixel: BgPixel, sprite_pixel: Option<SpritePixel>) -> (r: u8)
        requires
            bg_pixel.color < 4,
            sprite_pixel is Some ==> sprite_pixel->0.color < 4,
        ensures
            r == resolve_spec(self.lcdc, self.bgp, bg_pixel, sprite_pixel),
            r < 4,
    {
        proof {
            lemma_byte_fields();
        }
        if let Some(sprite_pixel) = sprite_pixel {
            if !self.bg_enabled() || !sprite_pixel.behind_bg || bg_pixel.color == 0 {
                return (sprite_pixel.palette >> (sprite_pixel.color * 2)) & 0x03;
            }
        }
        (self.bgp >> (bg_pixel.color * 2)) & 0x03
    }

    /// Hands the fetcher to the window once the pixel position reaches WX - 7 on a line the
    /// window covers (the background pixels queued are dropped).
    fn check_window_start(&mut self)
        requires
            old(self).wf(),
        ensures
            old(self).window_checked(&*final(self)),
    {
        if !self.window_triggered && self.window_enabled_for_line() && self.fetch_x >= self.window_start_x() {
            self.window_triggered = true;
            self.window_rendering_this_line = true;
            self.bg_fifo.clear();
            self.reset_fetcher(true);
        }
    }

    /// With more than eight background pixels queued, one pixel leaves both FIFOs; past the
    /// discarded fine-scroll pixels it is drawn at the next screen position.
    fn shift_out_pixel(&mut self)
        requires
            old(self).wf(),
            old(self).stat & 3 == 3,
        ensures
            old(self).pixel_shifted(&*final(self)),
    {
        if self.bg_fifo.len() > 8 {
            let bg_pixel = match self.bg_fifo.pop_front() {
                Some(pixel) => pixel,
                None => BgPixel { color: 0 },
            };
            let sprite_pixel = if self.sprite_fifo.len() == 0 {
                None
            } else {
                match self.sprite_fifo.pop_front() {
                    Some(pixel) => pixel,
                    None => None,
                }
            };
            if self.fetch_x >= 0 && self.visible_x < 160 {
                let current_line = self.ly as usize;
                let screen_x = self.visible_x as usize;
                let shade = self.resolve_pixel(bg_pixel, sprite_pixel);
                let ghost before = self.screen;
                self.screen[current_line][screen_x] = shade;
                assert forall|y: int, x: int| 0 <= y < 144 && 0 <= x < 160 implies #[trigger] self.screen[y][x] < 4 by {
                    if y != current_line || x != screen_x {
                        assert(self.screen[y][x] == before[y][x]);
                    }
                }
                self.visible_x = self.visible_x + 1;
            }
            self.fetch_x = self.fetch_x + 1;
        }
    }

    /// The window check at the start of a transfer dot: once the pixel position reaches
    /// WX - 7 on a line the window covers, the fetcher restarts on the window with the
    /// background FIFO emptied; otherwise nothing changes.
    pub open spec fn window_checked(&self, next: &Ppu) -> bool {
        &&& (next.wf())
        &&& (!self.window_triggered && self.window_on_line() && self.fetch_x >= self.wx - 7 ==> ({
                &&& next.window_triggered && next.window_rendering_this_line
                &&& next.bg_fifo@.len() == 0
                &&& next.fetcher_fresh(true)
            }))
        &&& (!(!self.window_triggered && self.window_on_line() && self.fetch_x >= self.wx - 7)
                ==> *next == *self)
        &&& (*next == (Ppu {
                window_triggered: next.window_triggered,
                window_rendering_this_line: next.window_rendering_this_line,
                bg_fifo: next.bg_fifo,
                fetcher_using_window: next.fetcher_using_window,
                fetcher_step: next.fetcher_step,
                fetcher_step_clock: next.fetcher_step_clock,
                fetcher_map_x: next.fetcher_map_x,
                fetcher_tile_number: next.fetcher_tile_number,
                fetcher_tile_data_low: next.fetcher_tile_data_low,
                fetcher_tile_data_high: next.fetcher_tile_data_high,
                ..*self
            }))
    }

    /// One dot of the background fetcher (see `tick_fetcher`).
    pub open spec fn fetcher_ticked(&self, next: &Ppu) -> bool {
        &&& (next.wf())
        &&& (self.fetcher_step == FetcherStep::Push && self.bg_fifo@.len() <= 8 ==> ({
                &&& next.bg_fifo@ == self.bg_fifo@ + Seq::new(8, |i: int| BgPixel {
                    color: if self.lcdc & 1 != 0 {
                        tile_color(self.fetcher_tile_data_high, self.fetcher_tile_data_low, (7 - i) as u8)
                    } else {
                        0
                    },
                })
                &&& next.sprite_fifo@.len() == (if self.sprite_fifo@.len() < next.bg_fifo@.len() {
                    next.bg_fifo@.len()
                } else {
                    self.sprite_fifo@.len()
                })
                &&& (forall|i: int| 0 <= i < self.sprite_fifo@.len()
                    ==> #[trigger] next.sprite_fifo@[i] == self.sprite_fifo@[i])
                &&& (forall|i: int| self.sprite_fifo@.len() <= i < next.sprite_fifo@.len()
                    ==> #[trigger] next.sprite_fifo@[i] is None)
                &&& *next == (Ppu {
                    bg_fifo: next.bg_fifo,
                    sprite_fifo: next.sprite_fifo,
                    fetcher_map_x: (self.fetcher_map_x + 1) as usize % 32,
                    fetcher_step: FetcherStep::GetTile,
                    ..*self
                })
            }))
        &&& (self.fetcher_step == FetcherStep::Push && self.bg_fifo@.len() > 8 ==> *next
                == *self)
        &&& (self.fetcher_step != FetcherStep::Push && (self.fetcher_step_clock + 1) % 256 < 2 ==> *next == (Ppu {
                fetcher_step_clock: ((self.fetcher_step_clock + 1) % 256) as u8,
                ..*self
            }))
        &&& (self.fetcher_step == FetcherStep::GetTile && (self.fetcher_step_clock + 1) % 256 >= 2 ==> *next == (Ppu {
                fetcher_step_clock: 0,
                fetcher_tile_number: self.vram@[self.tile_number_addr()],
                fetcher_step: FetcherStep::GetTileDataLow,
                ..*self
            }))
        &&& (self.fetcher_step == FetcherStep::GetTileDataLow && (self.fetcher_step_clock + 1) % 256 >= 2 ==> *next
                == (Ppu {
                fetcher_step_clock: 0,
                fetcher_tile_data_low: self.vram@[self.tile_row_addr(self.fetcher_tile_number)],
                fetcher_step: FetcherStep::GetTileDataHigh,
                ..*self
            }))
        &&& (self.fetcher_step == FetcherStep::GetTileDataHigh && (self.fetcher_step_clock + 1) % 256 >= 2 ==> *next
                == (Ppu {
                fetcher_step_clock: 0,
                fetcher_tile_data_high: self.vram@[self.tile_row_addr(self.fetcher_tile_number) + 1],
                fetcher_step: FetcherStep::Push,
                ..*self
            }))
    }

    /// One pixel shifted out of the FIFOs and drawn (see `shift_out_pixel`).
    pub open spec fn pixel_shifted(&self, next: &Ppu) -> bool {
        &&& (next.core_wf())
        &&& (self.bg_fifo@.len() <= 8 ==> *next == *self)
        &&& (self.bg_fifo@.len() > 8 ==> ({
                &&& next.bg_fifo@ == self.bg_fifo@.drop_first()
                &&& next.sprite_fifo@ == (if self.sprite_fifo@.len() == 0 {
                    self.sprite_fifo@
                } else {
                    self.sprite_fifo@.drop_first()
                })
                &&& next.fetch_x == self.fetch_x + 1
                &&& next.visible_x == (if self.fetch_x >= 0 { self.visible_x + 1 } else { self.visible_x as int })
                &&& self.fetch_x >= 0 ==> next.screen[self.ly as int][self.visible_x as int]
                    == resolve_spec(self.lcdc, self.bgp, self.bg_fifo@[0],
                        if self.sprite_fifo@.len() == 0 { None } else { self.sprite_fifo@[0] })
            }))
        &&& (forall|y: int, x: int| 0 <= y < 144 && 0 <= x < 160 && (y != self.ly || x != self.visible_x)
                ==> next.screen[y][x] == self.screen[y][x])
        &&& (*next == (Ppu {
                bg_fifo: next.bg_fifo,
                sprite_fifo: next.sprite_fifo,
                screen: next.screen,
                visible_x: next.visible_x,
                fetch_x: next.fetch_x,
                ..*self
            }))
    }

    /// A sprite's row mixed into the sprite FIFO (see `fetch_sprite`).
    pub open spec fn sprite_fetched(&self, next: &Ppu, sprite: LineSprite) -> bool {
        &&& (next.wf())
        &&& (*next == (Ppu { sprite_fifo: next.sprite_fifo, ..*self }))
        &&& (self.sprite_fifo@.len() <= next.sprite_fifo@.len())
        &&& (next.sprite_fifo@.len() <= self.sprite_fifo@.len() || next.sprite_fifo@.len() <= 8)
        &&& (forall|q: int| 0 <= q < next.sprite_fifo@.len() ==> #[trigger] next.sprite_fifo@[q] == (
                if q < self.sprite_fifo@.len() && self.sprite_fifo@[q] is Some {
                    self.sprite_fifo@[q]
                } else {
                    self.sprite_pixel_in_slot(sprite, q)
                }))
        &&& (forall|q: int| q >= next.sprite_fifo@.len() ==> #[trigger] self.sprite_pixel_in_slot(sprite, q) is None)
        &&& (next.sprite_fifo@.len() > self.sprite_fifo@.len() ==> next.sprite_fifo@[next.sprite_fifo@.len() - 1] is Some)
    }

    /// A transfer dot after the window check: a pending sprite stall counts down; else a
    /// sprite whose left edge is reached is fetched and starts a six-dot stall; else the
    /// fetcher runs one dot and a pixel may leave the FIFOs. `done` says whether the line's
    /// 160 pixels are drawn.
    pub open spec fn transfer_after_window(&self, next: &Ppu, done: bool) -> bool {
        if self.sprite_fetch_delay > 0 {
            &&& *next == (Ppu { sprite_fetch_delay: (self.sprite_fetch_delay - 1) as u8, ..*self })
            &&& !done
        } else if self.lcdc & 0x02 != 0 && self.next_sprite_index < self.line_sprites@.len()
            && self.line_sprites@[self.next_sprite_index as int].x - 8 <= self.fetch_x {
            &&& exists|f: Ppu|
                #![trigger self.sprite_fetched(&f, self.line_sprites@[self.next_sprite_index as int])]
                self.sprite_fetched(&f, self.line_sprites@[self.next_sprite_index as int]) && *next == (Ppu {
                    next_sprite_index: (self.next_sprite_index + 1) as usize,
                    sprite_fetch_delay: 5,
                    ..f
                })
            &&& !done
        } else {
            &&& exists|t: Ppu| #![trigger self.fetcher_ticked(&t)] self.fetcher_ticked(&t) && t.pixel_shifted(next)
            &&& done == (next.visible_x >= 160)
        }
    }

    /// One dot of pixel transfer: the window check, then the rest of the dot.
    pub open spec fn transfer_pixel_dot(&self, next: &Ppu, done: bool) -> bool {
        exists|w: Ppu| #![trigger self.window_checked(&w)] self.window_checked(&w) && w.transfer_after_window(next, done)
    }

    /// One dot of pixel transfer: the window may take over the fetcher, a sprite whose left
    /// edge is reached is fetched (a six-dot stall), else the fetcher runs and a pixel may be
    /// drawn. Says whether the line's 160 pixels are drawn.
    #[verifier::rlimit(80)]
    fn tick_transfer(&mut self) -> (done: bool)
        requires
            old(self).wf(),
            old(self).stat & 3 == 3,
        ensures
            old(self).transfer_pixel_dot(&*final(self), done),
            final(self).core_wf(),
            done == (final(self).visible_x >= 160),
            !done ==> final(self).wf(),
            final(self).visible_x == old(self).visible_x || final(self).visible_x == old(self).visible_x + 1,
            forall|y: int, x: int| 0 <= y < 144 && 0 <= x < 160 && (y != old(self).ly || x != old(self).visible_x)
                ==> final(self).screen[y][x] == old(self).screen[y][x],
            *final(self) == (Ppu {
                window_triggered: final(self).window_triggered,
                window_rendering_this_line: final(self).window_rendering_this_line,
                bg_fifo: final(self).bg_fifo,
                sprite_fifo: final(self).sprite_fifo,
                fetcher_using_window: final(self).fetcher_using_window,
                fetcher_step: final(self).fetcher_step,
                fetcher_step_clock: final(self).fetcher_step_clock,
                fetcher_map_x: final(self).fetcher_map_x,
                fetcher_tile_number: final(self).fetcher_tile_number,
                fetcher_tile_data_low: final(self).fetcher_tile_data_low,
                fetcher_tile_data_high: final(self).fetcher_tile_data_high,
                sprite_fetch_delay: final(self).sprite_fetch_delay,
                next_sprite_index: final(self).next_sprite_index,
                screen: final(self).screen,
                visible_x: final(self).visible_x,
                fetch_x: final(self).fetch_x,
                ..*old(self)
            }),
    {
        let ghost start = *self;
        self.check_window_start();
        let ghost w = *self;
        assert(start.window_checked(&w));
        if self.sprite_fetch_delay > 0 {
            self.sprite_fetch_delay = self.sprite_fetch_delay - 1;
            assert(w.transfer_after_window(&*self, false));
            return false;
        }
        if self.sprites_enabled() && self.next_sprite_index < self.line_sprites.len() {
            let sprite = self.line_sprites[self.next_sprite_index];
            if sprite.x as i16 - 8 <= self.fetch_x {
                self.fetch_sprite(sprite);
                let ghost f = *self;
                assert(w.sprite_fetched(&f, sprite));
                self.next_sprite_index = self.next_sprite_index + 1;
                self.sprite_fetch_delay = 5;
                assert(w.transfer_after_window(&*self, false));
                return false;
            }
        }
        self.tick_fetcher();
        let ghost t = *self;
        assert(w.fetcher_ticked(&t));
        self.shift_out_pixel();
        assert(t.pixel_shifted(&*self));
        let done = self.visible_x >= 160;
        assert(w.transfer_after_window(&*self, done));
        done
    }

    /// Whether two PPUs hold the same registers, VRAM, OAM and HDMA controller.
    pub open spec fn same_registers(&self, other: &Ppu) -> bool {
        &&& self.lcdc == other.lcdc && self.scy == other.scy && self.scx == other.scx && self.lyc == other.lyc
        &&& self.bgp == other.bgp && self.obp0 == other.obp0 && self.obp1 == other.obp1
        &&& self.wy == other.wy && self.wx == other.wx && self.cgb == other.cgb
        &&& self.vram@ == other.vram@ && self.oam == other.oam
        &&& self.oam_corruption_bug == other.oam_corruption_bug && self.hdma == other.hdma
    }

    /// Whether LY = `ly` sets the LY=LYC flag.
    pub open spec fn lyc_flag(&self, ly: u8) -> bool {
        ly == self.lyc
    }

    /// Whether moving to line `ly` fires the LY=LYC interrupt: the flag rises and STAT bit 6
    /// enables it.
    pub open spec fn lyc_fires(&self, ly: u8) -> bool {
        ly == self.lyc && self.stat & 0x04 == 0 && self.stat & 0x40 != 0
    }

    /// STAT after moving to line `ly` and into the mode numbered `mode_bits`.
    pub open spec fn stat_for(&self, ly: u8, mode_bits: u8) -> u8 {
        (self.stat & 0xF8) | (if self.lyc_flag(ly) { 4u8 } else { 0u8 }) | mode_bits
    }

    pub open spec fn next_line_clock(&self) -> u32 {
        ((self.line_clock + 1) % 0x1_0000_0000) as u32
    }

    pub open spec fn next_mode_clock(&self) -> u32 {
        ((self.mode_clock + 1) % 0x1_0000_0000) as u32
    }

    /// One H-Blank dot (`r` = V-Blank, LCD STAT interrupt requests): at dot 456 LY moves on,
    /// to V-Blank after line 143 and to the next line's OAM scan otherwise.
    pub open spec fn hblank_step(&self, next: &Ppu, r: (bool, bool)) -> bool {
        let next_ly = (self.ly + 1) as u8;
        let counter = if self.window_rendering_this_line {
            ((self.window_line_counter + 1) % 256) as u8
        } else {
            self.window_line_counter
        };
        if self.next_line_clock() < 456 {
            &&& *next == (Ppu { line_clock: self.next_line_clock(), mode_clock: self.next_mode_clock(), ..*self })
            &&& r == (false, false)
        } else if next_ly == 144 {
            &&& *next == (Ppu {
                line_clock: 0,
                mode_clock: 0,
                ly: 144,
                window_line_counter: counter,
                stat: self.stat_for(144, 1),
                mode: PpuMode::VBlank,
                ..*self
            })
            &&& r == (true, self.lyc_fires(144) || self.stat & 0x10 != 0)
        } else {
            &&& next.line_restarted()
            &&& *next == (Ppu {
                line_clock: 0,
                mode_clock: 0,
                ly: next_ly,
                window_line_counter: counter,
                stat: self.stat_for(next_ly, 2),
                mode: PpuMode::SearchingOAM,
                line_sprites: next.line_sprites,
                bg_fifo: next.bg_fifo,
                sprite_fifo: next.sprite_fifo,
                oam_scan_index: 0,
                next_sprite_index: 0,
                sprite_fetch_delay: 0,
                visible_x: 0,
                fetch_x: 0,
                window_triggered: false,
                window_rendering_this_line: false,
                fetcher_using_window: false,
                fetcher_step: FetcherStep::GetTile,
                fetcher_step_clock: 0,
                fetcher_map_x: next.fetcher_map_x,
                fetcher_tile_number: 0,
                fetcher_tile_data_low: 0,
                fetcher_tile_data_high: 0,
                ..*self
            })
            &&& r == (false, self.lyc_fires(next_ly) || self.stat & 0x20 != 0)
        }
    }

    /// One dot of an enabled LCD, by the mode STAT reports (`r` is the pair of V-Blank and
    /// LCD STAT interrupt requests the dot makes).
    pub open spec fn dot_step(&self, next: &Ppu, r: (bool, bool)) -> bool {
        match mode_of_stat(self.stat) {
            PpuMode::HBlank => self.hblank_step(next, r),
            PpuMode::VBlank => self.vblank_step(next, r),
            PpuMode::SearchingOAM => self.oam_step(next, r),
            PpuMode::Transferring => self.transfer_step(next, r),
        }
    }

    /// The PPU states `states` and the requests `reqs` are a run of `n` dots from this PPU to
    /// `next`: each state is a `dot_step` from the one before, making that dot's requests.
    pub open spec fn dots_path(&self, next: &Ppu, n: nat, states: Seq<Ppu>, reqs: Seq<(bool, bool)>) -> bool {
        &&& states.len() == n + 1 && reqs.len() == n
        &&& states[0] == *self && states[n as int] == *next
        &&& forall|i: int| 0 <= i < n ==> #[trigger] states[i].dot_step(&states[i + 1], reqs[i])
    }

    /// `n` dots lead from this PPU to `next`, each a `dot_step`; `vblank` and `lcd_stat` say
    /// whether any of them requested the V-Blank or the LCD STAT interrupt.
    pub open spec fn dots_run(&self, next: &Ppu, n: nat, vblank: bool, lcd_stat: bool) -> bool {
        exists|states: Seq<Ppu>, reqs: Seq<(bool, bool)>|
            #[trigger] self.dots_path(next, n, states, reqs) && vblank == any_request(reqs, 0) && lcd_stat
                == any_request(reqs, 1)
    }

    /// One V-Blank dot: at dot 456 LY moves on; after line 153 the frame is ready and line 0
    /// of the next frame starts with its OAM scan.
    pub open spec fn vblank_step(&self, next: &Ppu, r: (bool, bool)) -> bool {
        let next_ly = (self.ly + 1) as u8;
        if self.next_line_clock() < 456 {
            &&& *next == (Ppu { line_clock: self.next_line_clock(), mode_clock: self.next_mode_clock(), ..*self })
            &&& r == (false, false)
        } else if next_ly <= 153 {
            &&& *next == (Ppu {
                line_clock: 0,
                mode_clock: 0,
                ly: next_ly,
                stat: self.stat_for(next_ly, 1),
                ..*self
            })
            &&& r == (false, self.lyc_fires(next_ly))
        } else {
            &&& next.line_restarted()
            &&& *next == (Ppu {
                line_clock: 0,
                mode_clock: 0,
                ly: 0,
                frame_ready: true,
                window_line_counter: 0,
                stat: self.stat_for(0, 2),
                mode: PpuMode::SearchingOAM,
                line_sprites: next.line_sprites,
                bg_fifo: next.bg_fifo,
                sprite_fifo: next.sprite_fifo,
                oam_scan_index: 0,
                next_sprite_index: 0,
                sprite_fetch_delay: 0,
                visible_x: 0,
                fetch_x: 0,
                window_triggered: false,
                window_rendering_this_line: false,
                fetcher_using_window: false,
                fetcher_step: FetcherStep::GetTile,
                fetcher_step_clock: 0,
                fetcher_map_x: next.fetcher_map_x,
                fetcher_tile_number: 0,
                fetcher_tile_data_low: 0,
                fetcher_tile_data_high: 0,
                ..*self
            })
            &&& r == (false, self.lyc_fires(0) || self.stat & 0x20 != 0)
        }
    }

    /// One OAM-scan dot: an entry is scanned every other dot, and after 80 dots the transfer
    /// starts with the line's sprites in drawing order.
    pub open spec fn oam_step(&self, next: &Ppu, r: (bool, bool)) -> bool {
        &&& r == (false, false)
        &&& next.same_registers(self)
        &&& next.ly == self.ly
        &&& next.line_clock == self.next_line_clock()
        &&& next.frame_ready == self.frame_ready
        &&& next.window_line_counter == self.window_line_counter
        &&& next.screen == self.screen
        &&& if self.next_mode_clock() >= 80 {
            &&& next.stat == (self.stat & 0xFC) | 3
            &&& next.mode == PpuMode::Transferring
            &&& next.mode_clock == 0
            &&& sprites_sorted(next.line_sprites@)
        } else {
            &&& next.stat == self.stat
            &&& next.mode == self.mode
            &&& next.mode_clock == self.next_mode_clock()
        }
    }

    /// One transfer dot: at most the pixel at the current screen position is drawn, and once
    /// the line's 160 pixels are drawn H-Blank starts.
    pub open spec fn transfer_step(&self, next: &Ppu, r: (bool, bool)) -> bool {
        &&& next.same_registers(self)
        &&& next.ly == self.ly
        &&& next.line_clock == self.next_line_clock()
        &&& next.frame_ready == self.frame_ready
        &&& next.window_line_counter == self.window_line_counter
        &&& next.line_sprites == self.line_sprites
        &&& (forall|y: int, x: int| 0 <= y < 144 && 0 <= x < 160 && (y != self.ly || x != self.visible_x)
            ==> next.screen[y][x] == self.screen[y][x])
        &&& if next.visible_x >= 160 {
            &&& next.stat == (self.stat & 0xFC)
            &&& next.mode == PpuMode::HBlank
            &&& next.mode_clock == 0
            &&& r == (false, self.stat & 0x08 != 0)
        } else {
            &&& next.stat == self.stat
            &&& next.mode == self.mode
            &&& next.mode_clock == self.next_mode_clock()
            &&& r == (false, false)
        }
    }

    fn hblank_dot(&mut self) -> (r: (bool, bool))
        requires
            old(self).wf(),
            old(self).stat & 3 == 0,
        ensures
            final(self).wf(),
            old(self).hblank_step(&*final(self), r),
    {
        let stat = self.stat;
        self.line_clock = self.line_clock.wrapping_add(1);
        self.mode_clock = self.mode_clock.wrapping_add(1);
        if self.line_clock < 456 {
            return (false, false);
        }
        self.line_clock = 0;
        self.mode_clock = 0;
        if self.window_rendering_this_line {
            self.window_line_counter = self.window_line_counter.wrapping_add(1);
        }
        self.ly = self.ly + 1;
        let lyc = self.check_lyc();
        assert(((stat | 4) & 0xFC) | 1 == (stat & 0xF8) | 4 | 1 && ((stat & 0xFB) & 0xFC) | 1 == (stat & 0xF8) | 0 | 1
            && ((stat | 4) & 0xFC) | 2 == (stat & 0xF8) | 4 | 2 && ((stat & 0xFB) & 0xFC) | 2 == (stat & 0xF8) | 0 | 2
            && (((stat | 4) & 0xFC) | 1) & 0x30 == stat & 0x30 && (((stat & 0xFB) & 0xFC) | 1) & 0x30 == stat & 0x30
            && (((stat | 4) & 0xFC) | 2) & 0x30 == stat & 0x30 && (((stat & 0xFB) & 0xFC) | 2) & 0x30 == stat & 0x30
            && ((stat & 0xF8) | 4 | 1) & 3 == 1 && ((stat & 0xF8) | 0 | 1) & 3 == 1
            && ((stat & 0xF8) | 4 | 2) & 3 == 2 && ((stat & 0xF8) | 0 | 2) & 3 == 2
            && (((stat | 4) & 0xFC) | 1) & 0x10 == stat & 0x10 && (((stat & 0xFB) & 0xFC) | 1) & 0x10 == stat & 0x10
            && (((stat | 4) & 0xFC) | 2) & 0x20 == stat & 0x20 && (((stat & 0xFB) & 0xFC) | 2) & 0x20 == stat & 0x20)
            by (bit_vector);
        if self.ly == 144 {
            self.set_mode(PpuMode::VBlank);
            assert(self.stat == old(self).stat_for(144, 1));
            assert(self.window_line_counter == (if old(self).window_rendering_this_line {
                ((old(self).window_line_counter + 1) % 256) as u8 } else { old(self).window_line_counter }));
            assert(lyc == old(self).lyc_fires(144));
            (true, lyc || self.stat & 0x10 != 0)
        } else {
            self.start_oam_search();
            assert(self.ly == (old(self).ly + 1) as u8);
            assert(self.stat == old(self).stat_for(self.ly, 2));
            assert(lyc == old(self).lyc_fires(self.ly));
            assert(self.line_restarted());
            (false, lyc || self.stat & 0x20 != 0)
        }
    }

    fn vblank_dot(&mut self) -> (r: (bool, bool))
        requires
            old(self).wf(),
            old(self).stat & 3 == 1,
        ensures
            final(self).wf(),
            old(self).vblank_step(&*final(self), r),
    {
        let stat = self.stat;
        self.line_clock = self.line_clock.wrapping_add(1);
        self.mode_clock = self.mode_clock.wrapping_add(1);
        if self.line_clock < 456 {
            return (false, false);
        }
        self.line_clock = 0;
        self.mode_clock = 0;
        self.ly = self.ly + 1;
        let mut scan_request = false;
        if self.ly > 153 {
            self.ly = 0;
            self.frame_ready = true;
            self.window_line_counter = 0;
            self.start_oam_search();
            scan_request = self.stat & 0x20 != 0;
        }
        let lyc = self.check_lyc();
        assert((((stat & 0xFC) | 2) | 4) == (stat & 0xF8) | 4 | 2 && (((stat & 0xFC) | 2) & 0xFB) == (stat & 0xF8) | 0 | 2
            && ((stat & 0xFC) | 2) & 0x64 == stat & 0x64 && (stat | 4) == (stat & 0xF8) | 4 | 1
            && ((stat & 0xFC) | 2) & 0x20 == stat & 0x20
            && ((stat & 0xF8) | 4 | 2) & 3 == 2 && ((stat & 0xF8) | 0 | 2) & 3 == 2
            && ((stat & 0xF8) | 4 | 1) & 3 == 1 && ((stat & 0xF8) | 0 | 1) & 3 == 1
            && (stat & 0xFB) == (stat & 0xF8) | 0 | 1
            && ((stat & 0xFC) | 2) & 0x04 == stat & 0x04 && ((stat & 0xFC) | 2) & 0x40 == stat & 0x40) by (bit_vector)
            requires stat & 3 == 1;
        (false, scan_request || lyc)
    }

    fn oam_dot(&mut self) -> (r: (bool, bool))
        requires
            old(self).wf(),
            old(self).stat & 3 == 2,
        ensures
            final(self).wf(),
            old(self).oam_step(&*final(self), r),
    {
        self.line_clock = self.line_clock.wrapping_add(1);
        self.mode_clock = self.mode_clock.wrapping_add(1);
        self.tick_oam_search();
        if self.mode_clock >= 80 {
            self.start_transfer();
        }
        (false, false)
    }

    fn transfer_dot(&mut self) -> (r: (bool, bool))
        requires
            old(self).wf(),
            old(self).stat & 3 == 3,
        ensures
            final(self).wf(),
            old(self).transfer_step(&*final(self), r),
    {
        let stat = self.stat;
        self.line_clock = self.line_clock.wrapping_add(1);
        self.mode_clock = self.mode_clock.wrapping_add(1);
        if self.tick_transfer() {
            self.mode_clock = 0;
            self.set_mode(PpuMode::HBlank);
            assert(((stat & 0xFC) | 0) & 0x08 == stat & 0x08 && (stat & 0xFC) | 0 == stat & 0xFC
                && ((stat & 0xFC) | 0) & 3 == 0) by (bit_vector);
            (false, self.stat & 0x08 != 0)
        } else {
            (false, false)
        }
    }

    /// One dot of an enabled LCD, by the mode STAT reports. Returns the interrupts requested:
    /// (V-Blank, LCD STAT).
    pub fn tick_dot(&mut self) -> (r: (bool, bool))
        requires
            old(self).wf(),
            old(self).lcdc & 0x80 != 0,
        ensures
            final(self).wf(),
            final(self).same_registers(&*old(self)),
            match mode_of_stat(old(self).stat) {
                PpuMode::HBlank => old(self).hblank_step(&*final(self), r),
                PpuMode::VBlank => old(self).vblank_step(&*final(self), r),
                PpuMode::SearchingOAM => old(self).oam_step(&*final(self), r),
                PpuMode::Transferring => old(self).transfer_step(&*final(self), r),
            },
    {
        proof {
            lemma_byte_fields();
        }
        let bits = self.stat & 3;
        if bits == 0 {
            self.hblank_dot()
        } else if bits == 1 {
            self.vblank_dot()
        } else if bits == 2 {
            self.oam_dot()
        } else {
            self.transfer_dot()
        }
    }

    /// What a CPU read of `address` gives: VRAM except during the transfer, OAM only in
    /// H-Blank and V-Blank, the LCD and CGB registers, HDMA5's status; 0xFF elsewhere.
    pub open spec fn read_spec(&self, address: u16) -> u8 {
        let mode = mode_of_stat(self.stat);
        if 0x8000 <= address <= 0x9FFF {
            if mode == PpuMode::Transferring { 0xFF } else { self.vram@[self.vram_index(address)] }
        } else if 0xFE00 <= address <= 0xFE9F {
            if mode == PpuMode::SearchingOAM || mode == PpuMode::Transferring {
                0xFF
            } else {
                self.oam@[address - 0xFE00]
            }
        } else if address == 0xFF40 {
            self.lcdc
        } else if address == 0xFF41 {
            self.stat
        } else if address == 0xFF42 {
            self.scy
        } else if address == 0xFF43 {
            self.scx
        } else if address == 0xFF44 {
            self.ly
        } else if address == 0xFF45 {
            self.lyc
        } else if address == 0xFF47 {
            self.bgp
        } else if address == 0xFF48 {
            self.obp0
        } else if address == 0xFF49 {
            self.obp1
        } else if address == 0xFF4A {
            self.wy
        } else if address == 0xFF4B {
            self.wx
        } else if address == 0xFF4D {
            self.cgb.key1
        } else if address == 0xFF4F {
            if self.cgb.cgb_hardware { self.cgb.vbk } else { 0xFF }
        } else if address == 0xFF55 {
            self.hdma.status_spec()
        } else if address == 0xFF68 {
            if self.cgb.cgb_hardware { self.cgb.bcps } else { 0xFF }
        } else if address == 0xFF69 {
            if self.cgb.cgb_hardware { self.cgb.bg_palette_ram@[self.cgb.bcps as int % 64] } else { 0xFF }
        } else if address == 0xFF6A {
            if self.cgb.cgb_hardware { self.cgb.ocps } else { 0xFF }
        } else if address == 0xFF6B {
            if self.cgb.cgb_hardware { self.cgb.obj_palette_ram@[self.cgb.ocps as int % 64] } else { 0xFF }
        } else if address == 0xFF70 {
            self.cgb.svbk
        } else {
            0xFF
        }
    }

    /// A VRAM write by the HDMA controller: it reaches the bank VBK selects whatever the
    /// PPU mode.
    pub fn write_vram_dma_byte(&mut self, address: u16, value: u8)
        requires
            old(self).vram.len() == 0x2000 || old(self).vram.len() == 0x4000,
        ensures
            *final(self) == (Ppu { vram: final(self).vram, ..*old(self) }),
            final(self).vram@ == old(self).vram@.update(old(self).vram_index(address), value),
    {
        let index = self.vram_offset(address);
        self.vram.set(index, value);
    }

    fn vram_offset(&self, address: u16) -> (r: usize)
        requires
            self.vram.len() == 0x2000 || self.vram.len() == 0x4000,
        ensures
            r == self.vram_index(address),
            r < self.vram.len(),
    {
        if self.cgb.cgb_mode && self.vram.len() == 0x4000 {
            (self.cgb.vbk as usize % 2) * 0x2000 + (address as usize % 0x2000)
        } else {
            address as usize % 0x2000
        }
    }

    /// The current line's screen, and the frame marked as taken.
    pub fn get_screen(&mut self) -> (r: &[[u8; 160]; 144])
        ensures
            *final(self) == (Ppu { frame_ready: false, ..*old(self) }),
            *r == old(self).screen,
    {
        self.frame_ready = false;
        &self.screen
    }

    pub fn get_ly(&self) -> (r: u8)
        ensures
            r == self.ly,
    {
        self.ly
    }
}

impl CgbRegisters {
    /// The registers after a write of `value` to `address`: KEY1 and SVBK take any write;
    /// VBK, BCPS and OCPS only on CGB hardware; a BCPD or OCPD write on CGB hardware goes to
    /// palette RAM at the index register's bits 0-5, which then auto-increments if bit 7 asks.
    pub open spec fn written(&self, address: u16, value: u8, next: CgbRegisters) -> bool {
        if address == 0xFF4D {
            next == CgbRegisters { key1: value, ..*self }
        } else if address == 0xFF70 {
            next == CgbRegisters { svbk: value, ..*self }
        } else if !self.cgb_hardware {
            next == *self
        } else if address == 0xFF4F {
            next == CgbRegisters { vbk: value, ..*self }
        } else if address == 0xFF68 {
            next == CgbRegisters { bcps: value, ..*self }
        } else if address == 0xFF6A {
            next == CgbRegisters { ocps: value, ..*self }
        } else if address == 0xFF69 {
            &&& next == CgbRegisters { bcpd: value, bcps: next_palette_index(self.bcps), bg_palette_ram: next.bg_palette_ram, ..*self }
            &&& next.bg_palette_ram@ == self.bg_palette_ram@.update(self.bcps as int % 64, value)
        } else if address == 0xFF6B {
            &&& next == CgbRegisters { ocpd: value, ocps: next_palette_index(self.ocps), obj_palette_ram: next.obj_palette_ram, ..*self }
            &&& next.obj_palette_ram@ == self.obj_palette_ram@.update(self.ocps as int % 64, value)
        } else {
            next == *self
        }
    }

    pub fn write(&mut self, address: u16, value: u8)
        ensures
            old(self).written(address, value, *final(self)),
    {
        if address == 0xFF4D {
            self.key1 = value;
        } else if address == 0xFF70 {
            self.svbk = value;
        } else if !self.cgb_hardware {
        } else if address == 0xFF4F {
            self.vbk = value;
        } else if address == 0xFF68 {
            self.bcps = value;
        } else if address == 0xFF69 {
            self.bcpd = value;
            self.bg_palette_ram[(self.bcps % 64) as usize] = value;
            self.bcps = next_palette_index_exec(self.bcps);
        } else if address == 0xFF6A {
            self.ocps = value;
        } else if address == 0xFF6B {
            self.ocpd = value;
            self.obj_palette_ram[(self.ocps % 64) as usize] = value;
            self.ocps = next_palette_index_exec(self.ocps);
        }
    }
}

impl Ppu {
    /// What a CPU write of `value` to `address` leaves: `next`.
    pub open spec fn write_result(&self, address: u16, value: u8, next: &Ppu) -> bool {
        let mode = mode_of_stat(self.stat);
        if 0x8000 <= address <= 0x9FFF {
            &&& *next == (Ppu { vram: next.vram, ..*self })
            &&& next.vram@ == if mode == PpuMode::Transferring {
                self.vram@
            } else {
                self.vram@.update(self.vram_index(address), value)
            }
        } else if 0xFE00 <= address <= 0xFE9F {
            &&& *next == (Ppu { oam: next.oam, ..*self })
            &&& next.oam@ == if mode == PpuMode::HBlank || mode == PpuMode::VBlank {
                self.oam@.update(address - 0xFE00, value)
            } else {
                self.oam@
            }
        } else if address == 0xFF40 {
            &&& next.lcdc == value
            &&& (self.lcdc & 0x80 != 0) == (value & 0x80 != 0) ==> *next == (Ppu { lcdc: value, ..*self })
            &&& self.lcdc & 0x80 != 0 && value & 0x80 == 0 ==> {
                &&& next.ly == 0 && next.line_clock == 0 && next.mode_clock == 0
                &&& next.window_line_counter == 0
                &&& next.mode == PpuMode::HBlank
                &&& next.stat == (if self.lyc == 0 { (self.stat & 0xFC) | 0x04 } else { self.stat & 0xF8 })
                &&& next.line_restarted()
                &&& next.same_registers(&Ppu { lcdc: value, ..*self })
                &&& next.frame_ready == self.frame_ready && next.screen == self.screen
            }
            &&& self.lcdc & 0x80 == 0 && value & 0x80 != 0 ==> {
                &&& next.ly == 0 && next.line_clock == 0 && next.mode_clock == 0
                &&& next.window_line_counter == 0
                &&& next.mode == PpuMode::SearchingOAM
                &&& next.stat == (if self.lyc == 0 { (self.stat & 0xFC) | 0x06 } else { (self.stat & 0xF8) | 0x02 })
                &&& next.line_restarted()
                &&& next.same_registers(&Ppu { lcdc: value, ..*self })
                &&& next.frame_ready == self.frame_ready && next.screen == self.screen
            }
        } else if address == 0xFF41 {
            *next == (Ppu {
                stat: (self.stat & 0x87) | (value & 0x78),
                mode: mode_of_stat((self.stat & 0x87) | (value & 0x78)),
                ..*self
            })
        } else if address == 0xFF42 {
            *next == (Ppu { scy: value, ..*self })
        } else if address == 0xFF43 {
            *next == (Ppu { scx: value, ..*self })
        } else if address == 0xFF45 {
            *next == (Ppu { lyc: value, stat: if self.ly == value { self.stat | 0x04 } else { self.stat & 0xFB }, ..*self })
        } else if address == 0xFF47 {
            *next == (Ppu { bgp: value, ..*self })
        } else if address == 0xFF48 {
            *next == (Ppu { obp0: value, ..*self })
        } else if address == 0xFF49 {
            *next == (Ppu { obp1: value, ..*self })
        } else if address == 0xFF4A {
            *next == (Ppu { wy: value, ..*self })
        } else if address == 0xFF4B {
            *next == (Ppu { wx: value, ..*self })
        } else if 0xFF51 <= address <= 0xFF55 {
            &&& *next == (Ppu { hdma: next.hdma, ..*self })
            &&& self.hdma.register_written(address, value, next.hdma)
        } else if address == 0xFF4D || address == 0xFF4F || 0xFF68 <= address <= 0xFF6B || address == 0xFF70 {
            &&& *next == (Ppu { cgb: next.cgb, ..*self })
            &&& self.cgb.written(address, value, next.cgb)
        } else {
            *next == *self
        }
    }

}

impl Memory for Ppu {
    open spec fn readable(&self, address: u16) -> bool {
        self.vram.len() == 0x2000 || self.vram.len() == 0x4000
    }

    open spec fn writable(&self, address: u16) -> bool {
        self.vram.len() == 0x2000 || self.vram.len() == 0x4000
    }

    fn read_byte(&self, address: u16) -> (r: u8)
        ensures
            r == self.read_spec(address),
    {
        if 0x8000 <= address && address <= 0x9FFF {
            if self.get_ppu_mode() == PpuMode::Transferring {
                0xFF
            } else {
                self.vram[self.vram_offset(address)]
            }
        } else if 0xFE00 <= address && address <= 0xFE9F {
            let mode = self.get_ppu_mode();
            if mode == PpuMode::SearchingOAM || mode == PpuMode::Transferring {
                0xFF
            } else {
                self.oam[(address - 0xFE00) as usize]
            }
        } else {
            match address {
                0xFF40 => self.lcdc,
                0xFF41 => self.stat,
                0xFF42 => self.scy,
                0xFF43 => self.scx,
                0xFF44 => self.ly,
                0xFF45 => self.lyc,
                0xFF47 => self.bgp,
                0xFF48 => self.obp0,
                0xFF49 => self.obp1,
                0xFF4A => self.wy,
                0xFF4B => self.wx,
                0xFF4D => self.cgb.key1,
                0xFF4F => if self.cgb.cgb_hardware { self.cgb.vbk } else { 0xFF },
                0xFF51..=0xFF55 => self.hdma.read_byte(address),
                0xFF68 => if self.cgb.cgb_hardware { self.cgb.bcps } else { 0xFF },
                0xFF69 => if self.cgb.cgb_hardware { self.cgb.bg_palette_ram[(self.cgb.bcps % 64) as usize] } else { 0xFF },
                0xFF6A => if self.cgb.cgb_hardware { self.cgb.ocps } else { 0xFF },
                0xFF6B => if self.cgb.cgb_hardware { self.cgb.obj_palette_ram[(self.cgb.ocps % 64) as usize] } else { 0xFF },
                0xFF70 => self.cgb.svbk,
                _ => 0xFF,
            }
        }
    }

    /// VRAM takes writes outside the transfer and OAM in H-Blank and V-Blank. Turning the
    /// LCD off (LCDC bit 7) resets it to line 0 in H-Blank, turning it on starts line 0's OAM
    /// scan. STAT bits 3-6 are writable, LY is not, a write to LYC updates the LY=LYC flag.
    /// A write to the OAM DMA register (0xFF46) changes nothing here: the copy reads the
    /// whole memory map, so the machine makes it (see `Gb::write_byte`).
    fn write_byte(&mut self, address: u16, value: u8)
        ensures
            old(self).wf() ==> final(self).wf(),
            old(self).write_result(address, value, &*final(self)),
    {
        if 0x8000 <= address && address <= 0x9FFF {
            if self.get_ppu_mode() != PpuMode::Transferring {
                let index = self.vram_offset(address);
                self.vram.set(index, value);
            }
        } else if 0xFE00 <= address && address <= 0xFE9F {
            let mode = self.get_ppu_mode();
            if mode == PpuMode::HBlank || mode == PpuMode::VBlank {
                self.oam[(address - 0xFE00) as usize] = value;
            }
        } else if address == 0xFF40 {
            let was_enabled = self.lcdc & 0x80 != 0;
            self.lcdc = value;
            let is_enabled = self.lcdc & 0x80 != 0;
            if was_enabled && !is_enabled {
                self.reset_lcd_state();
            } else if !was_enabled && is_enabled {
                self.enable_lcd();
            }
        } else if address == 0xFF41 {
            let stat = self.stat;
            assert(((stat & 0x87) | (value & 0x78)) & 3 == stat & 3) by (bit_vector);
            self.stat = (self.stat & 0x87) | (value & 0x78);
            self.mode = self.get_ppu_mode();
        } else if address == 0xFF45 {
            self.lyc = value;
            let _ = self.check_lyc();
        } else if 0xFF51 <= address && address <= 0xFF55 {
            self.hdma.write_byte(address, value);
        } else if address == 0xFF4D || address == 0xFF4F || (0xFF68 <= address && address <= 0xFF6B) || address == 0xFF70 {
            self.cgb.write(address, value);
        } else {
            match address {
                0xFF42 => self.scy = value,
                0xFF43 => self.scx = value,
                0xFF47 => self.bgp = value,
                0xFF48 => self.obp0 = value,
                0xFF49 => self.obp1 = value,
                0xFF4A => self.wy = value,
                0xFF4B => self.wx = value,
                _ => {},
            }
        }
    }
}

/// What the CPU writes to VRAM outside the pixel transfer it reads back, and the other
/// VRAM bytes it reads as before.
pub proof fn lemma_vram_write_then_read(before: Ppu, after: Ppu, address: u16, value: u8, other: u16)
    requires
        before.wf(),
        0x8000 <= address <= 0x9FFF,
        0x8000 <= other <= 0x9FFF,
        mode_of_stat(before.stat) != PpuMode::Transferring,
        after == (Ppu { vram: after.vram, ..before }),
        after.vram@ == before.vram@.update(before.vram_index(address), value),
    ensures
        after.read_spec(address) == value,
        address % 0x2000 != other % 0x2000 ==> after.read_spec(other) == before.read_spec(other),
{
}

/// What the CPU writes to OAM in H-Blank or V-Blank it reads back there.
pub proof fn lemma_oam_write_then_read(before: Ppu, after: Ppu, address: u16, value: u8)
    requires
        0xFE00 <= address <= 0xFE9F,
        mode_of_stat(before.stat) == PpuMode::HBlank || mode_of_stat(before.stat) == PpuMode::VBlank,
        after == (Ppu { oam: after.oam, ..before }),
        after.oam@ == before.oam@.update(address - 0xFE00, value),
    ensures
        after.read_spec(address) == value,
{
}

/// A STAT write changes only the interrupt-enable bits 3-6: the mode, the LY=LYC flag and
/// bit 7 read as before.
pub proof fn lemma_stat_write_keeps_status(stat: u8, value: u8)
    ensures
        ((stat & 0x87) | (value & 0x78)) & 0x87 == stat & 0x87,
        ((stat & 0x87) | (value & 0x78)) & 0x78 == value & 0x78,
        mode_of_stat((stat & 0x87) | (value & 0x78)) == mode_of_stat(stat),
{
    assert(((stat & 0x87) | (value & 0x78)) & 0x87 == stat & 0x87 && ((stat & 0x87) | (value & 0x78)) & 0x78 == value & 0x78
        && ((stat & 0x87) | (value & 0x78)) & 3 == stat & 3) by (bit_vector);
}

/// Whether any of `reqs` has its request `k` (0: V-Blank, 1: LCD STAT) set.
pub open spec fn any_request(reqs: Seq<(bool, bool)>, k: int) -> bool
    decreases reqs.len(),
{
    if reqs.len() == 0 {
        false
    } else {
        any_request(reqs.drop_last(), k) || (if k == 0 { reqs.last().0 } else { reqs.last().1 })
    }
}

/// No dots lead from a PPU to itself with no requests.
pub proof fn lemma_dots_run_none(p: Ppu)
    ensures
        p.dots_run(&p, 0, false, false),
{
    let states = seq![p];
    let reqs = Seq::<(bool, bool)>::empty();
    assert(p.dots_path(&p, 0, states, reqs));
}

/// One more dot extends a run of dots.
pub proof fn lemma_dots_run_step(p: Ppu, mid: Ppu, q: Ppu, n: nat, v: bool, s: bool, r: (bool, bool))
    requires
        p.dots_run(&mid, n, v, s),
        mid.dot_step(&q, r),
    ensures
        p.dots_run(&q, n + 1, v || r.0, s || r.1),
{
    let (states, reqs) = choose|states: Seq<Ppu>, reqs: Seq<(bool, bool)>|
        #[trigger] p.dots_path(&mid, n, states, reqs) && v == any_request(reqs, 0) && s == any_request(reqs, 1);
    let states2 = states.push(q);
    let reqs2 = reqs.push(r);
    assert(reqs2.drop_last() =~= reqs);
    assert forall|i: int| 0 <= i < n + 1 implies #[trigger] states2[i].dot_step(&states2[i + 1], reqs2[i]) by {
        if i < n {
            assert(states2[i] == states[i] && states2[i + 1] == states[i + 1] && reqs2[i] == reqs[i]);
            assert(states[i].dot_step(&states[i + 1], reqs[i]));
        }
    }
    assert(p.dots_path(&q, n + 1, states2, reqs2));
}

/// A dot of an enabled LCD sets the frame-ready flag only when LY wraps from 153 to 0, and
/// keeps LY within 0..=153.
pub proof fn lemma_frame_ready_only_at_wrap(p: Ppu, q: Ppu, r: (bool, bool))
    requires
        p.wf(),
        p.dot_step(&q, r),
    ensures
        !p.frame_ready && q.frame_ready ==> p.ly == 153 && q.ly == 0,
        q.ly <= 153,
{
}

/// The shade a palette register gives color `c` (0 to 3): its two-bit field number `c`,
/// counted from the low end.
pub open spec fn palette_field(palette: u8, c: u8) -> int {
    (palette as int / (if c == 0 { 1int } else if c == 1 { 4 } else if c == 2 { 16 } else { 64 })) % 4
}

/// How a screen pixel mixes the background and a sprite: without a sprite pixel the background
/// shows; with the background disabled (LCDC bit 0 clear) the sprite
/// pixel shows; with it enabled a sprite pixel in front of the background (OAM attribute bit 7
/// clear) shows, and one behind it shows only where the background color is 0, the
/// background's shade showing elsewhere. Every shade is a field of the palette that applies.
pub proof fn lemma_sprite_priority(lcdc: u8, bgp: u8, bg_color: u8, sprite: SpritePixel)
    requires
        bg_color < 4,
        sprite.color < 4,
    ensures
        resolve_spec(lcdc, bgp, BgPixel { color: bg_color }, None) == palette_field(bgp, bg_color),
        lcdc & 1 == 0 ==> resolve_spec(lcdc, bgp, BgPixel { color: bg_color }, Some(sprite)) == palette_field(
            sprite.palette,
            sprite.color,
        ),
        lcdc & 1 != 0 && !sprite.behind_bg ==> resolve_spec(lcdc, bgp, BgPixel { color: bg_color }, Some(sprite))
            == palette_field(sprite.palette, sprite.color),
        lcdc & 1 != 0 && sprite.behind_bg && bg_color == 0 ==> resolve_spec(lcdc, bgp, BgPixel { color: bg_color }, Some(sprite))
            == palette_field(sprite.palette, sprite.color),
        lcdc & 1 != 0 && sprite.behind_bg && bg_color != 0 ==> resolve_spec(lcdc, bgp, BgPixel { color: bg_color }, Some(sprite))
            == palette_field(bgp, bg_color),
{
    lemma_palette_field(bgp, bg_color);
    lemma_palette_field(sprite.palette, sprite.color);
}

/// `palette_shade` reads the two-bit field of the color.
proof fn lemma_palette_field(palette: u8, c: u8)
    requires
        c < 4,
    ensures
        palette_shade(palette, c) == palette_field(palette, c),
{
    crate::bits::lemma_byte_digits();
    if c == 0 {
        assert(c * 2 == 0);
    } else if c == 1 {
        assert(c * 2 == 2);
    } else if c == 2 {
        assert(c * 2 == 4);
    } else {
        assert(c * 2 == 6);
    }
}

/// A sprite's pixel takes its priority and palette from the OAM attribute byte: bit 7 puts it
/// behind the background, bit 4 picks OBP1 over OBP0; color 0 is transparent.
pub proof fn lemma_sprite_attributes(low: u8, high: u8, attributes: u8, obp0: u8, obp1: u8, x: int)
    ensures
        row_pixel(low, high, attributes, obp0, obp1, x) matches Some(px) ==> px.behind_bg == (attributes >= 0x80)
            && px.palette == (if (attributes / 16) % 2 == 1 { obp1 } else { obp0 }) && px.color != 0,
{
    reveal(row_pixel);
    crate::bits::lemma_byte_digits();
}

} // verus!
