use vstd::prelude::*;
use crate::bus::io_address::IoRegister;
use crate::bus::{Bus, MemoryInterface};
use crate::cpu::CPU;
use crate::ppu::{PPUMode, PPU};
use crate::ppu::fetcher::{spec_tile_color, tile_color};
use vstd::string::StrSliceExecFns;

verus! {

// The debugger's view of the machine: a snapshot of the registers, video memory, OAM and
// cartridge header, and the pictures drawn from it (tile sheet, tile maps, viewport, sprites).

/// The debugger window's size in pixels.
pub const WINDOW_WIDTH: usize = 800;
pub const WINDOW_HEIGHT: usize = 600;

/// The shades the debugger draws colour numbers 0-3 with.
pub open spec fn spec_colors() -> Seq<u32> {
    seq![0xA8D08Du32, 0x6A8E3Cu32, 0x3A5D1Du32, 0x1F3C06u32]
}

/// The shade of a colour number.
pub fn color_of(index: u8) -> (r: u32)
    requires
        index < 4,
    ensures
        r == spec_colors()[index as int],
{
    match index {
        0 => 0xA8D08D,
        1 => 0x6A8E3C,
        2 => 0x3A5D1D,
        _ => 0x1F3C06,
    }
}

/// The registers the debugger lists, in its order.
pub open spec fn debug_io_list() -> Seq<IoRegister> {
    seq![
        IoRegister::Lcdc, IoRegister::Stat, IoRegister::Scy, IoRegister::Scx, IoRegister::Ly,
        IoRegister::Lyc, IoRegister::Div, IoRegister::Tima, IoRegister::Tma, IoRegister::Tac,
        IoRegister::If, IoRegister::Ie, IoRegister::Joyp, IoRegister::Sb, IoRegister::Sc,
        IoRegister::Nr10, IoRegister::Nr11
    ]
}

fn debug_io_registers() -> (r: Vec<IoRegister>)
    ensures
        r@ == debug_io_list(),
{
    let v = vec![
        IoRegister::Lcdc, IoRegister::Stat, IoRegister::Scy, IoRegister::Scx, IoRegister::Ly,
        IoRegister::Lyc, IoRegister::Div, IoRegister::Tima, IoRegister::Tma, IoRegister::Tac,
        IoRegister::If, IoRegister::Ie, IoRegister::Joyp, IoRegister::Sb, IoRegister::Sc,
        IoRegister::Nr10, IoRegister::Nr11,
    ];
    assert(v@ =~= debug_io_list());
    v
}

/// A snapshot of the machine for the debugger.
#[derive(Clone, Debug)]
pub struct DebugWindow {
    /// A, F, B, C, D, E, H, L.
    pub cpu_registers: [u8; 8],
    pub interrupt_enable: u8,
    pub interrupt_request: u8,
    pub sp: u16,
    pub pc: u16,
    /// The byte at PC.
    pub op: u8,
    pub ime: bool,
    pub halt: bool,
    /// T-cycles of the last processor step.
    pub last_cycle: usize,
    /// The listed registers (see `debug_io_list`) with their values.
    pub io_registers: Vec<(IoRegister, u8)>,
    /// Tile data, 0x8000-0x97FF.
    pub tile_data: [u8; 0x1800],
    /// The background tile map LCDC bit 3 selects.
    pub bg_tilemap: [u8; 0x800],
    pub oam_data: [u8; 0xA0],
    /// The window tile map LCDC bit 6 selects.
    pub window_tilemap: [u8; 0x800],
    pub cartridge_header: [u8; 0x50],
    pub cartridge_header_read: bool,
    pub lcdc: u8,
    pub window_y: u8,
    pub window_x: u8,
    pub mode_cycles: usize,
    pub mode: PPUMode,
}

/// A tile map's base address for the LCDC bit that selects it.
pub open spec fn tilemap_base(lcdc: u8, bit: u8) -> u16 {
    if lcdc & bit != 0 { 0x9C00 } else { 0x9800 }
}

/// `n` bytes read from `mem` from address `base` on.
pub open spec fn block_read<M: MemoryInterface>(mem: M, base: u16, block: Seq<u8>, n: int) -> bool {
    &&& block.len() == n
    &&& forall|i: int| 0 <= i < n ==> #[trigger] block[i] == mem.spec_read_byte((base + i) as u16)
}

fn read_tiles<M: MemoryInterface>(mem: &M, out: &mut [u8; 0x1800])
    requires
        mem.mem_wf(),
    ensures
        block_read(*mem, 0x8000, final(out)@, 0x1800),
{
    let mut i: usize = 0;
    while i < 0x1800
        invariant
            i <= 0x1800,
            mem.mem_wf(),
            out@.len() == 0x1800,
            forall|j: int| 0 <= j < i ==> #[trigger] out@[j] == mem.spec_read_byte((0x8000 + j) as u16),
        decreases 0x1800 - i,
    {
        out[i] = mem.read_byte(0x8000 + i as u16);
        i += 1;
    }
}

fn read_map<M: MemoryInterface>(mem: &M, base: u16, out: &mut [u8; 0x800])
    requires
        mem.mem_wf(),
        base == 0x9800 || base == 0x9C00,
    ensures
        block_read(*mem, base, final(out)@, 0x800),
{
    let mut i: usize = 0;
    while i < 0x800
        invariant
            i <= 0x800,
            mem.mem_wf(),
            base == 0x9800 || base == 0x9C00,
            out@.len() == 0x800,
            forall|j: int| 0 <= j < i ==> #[trigger] out@[j] == mem.spec_read_byte((base + j) as u16),
        decreases 0x800 - i,
    {
        out[i] = mem.read_byte(base + i as u16);
        i += 1;
    }
}

fn read_oam<M: MemoryInterface>(mem: &M, out: &mut [u8; 0xA0])
    requires
        mem.mem_wf(),
    ensures
        block_read(*mem, 0xFE00, final(out)@, 0xA0),
{
    let mut i: usize = 0;
    while i < 0xA0
        invariant
            i <= 0xA0,
            mem.mem_wf(),
            out@.len() == 0xA0,
            forall|j: int| 0 <= j < i ==> #[trigger] out@[j] == mem.spec_read_byte((0xFE00 + j) as u16),
        decreases 0xA0 - i,
    {
        out[i] = mem.read_byte(0xFE00 + i as u16);
        i += 1;
    }
}

/// The listed registers with what `mem` reads at their addresses.
pub open spec fn io_snapshot<M: MemoryInterface>(mem: M, list: Seq<IoRegister>, regs: Seq<(IoRegister, u8)>) -> bool {
    &&& regs.len() == list.len()
    &&& forall|i: int| 0 <= i < list.len() ==> #[trigger] regs[i] == (list[i], mem.spec_read_byte(list[i].spec_address()))
}

fn read_io<M: MemoryInterface>(mem: &M) -> (r: Vec<(IoRegister, u8)>)
    requires
        mem.mem_wf(),
    ensures
        io_snapshot(*mem, debug_io_list(), r@),
{
    let list = debug_io_registers();
    let mut out: Vec<(IoRegister, u8)> = Vec::new();
    let mut i: usize = 0;
    while i < list.len()
        invariant
            i <= list@.len(),
            list@ == debug_io_list(),
            mem.mem_wf(),
            out@.len() == i,
            forall|j: int| 0 <= j < i ==> #[trigger] out@[j] == (list@[j], mem.spec_read_byte(list@[j].spec_address())),
        decreases list@.len() - i,
    {
        let reg = list[i];
        out.push((reg, mem.read_byte(reg.address())));
        i += 1;
    }
    out
}

/// The pictures the debugger draws, each over a box of cells.
#[derive(Debug, Clone, Copy, PartialEq, Eq, Structural)]
pub enum Picture {
    /// All 384 tiles, 12 per row (LCDC bit 4 clear: tiles 0-255 in signed order from 128).
    TileSheet,
    /// The one-pixel frame round a 32 x 32 tile map.
    MapBorder,
    /// The background (false) or window (true) tile map; window tiles are tinted.
    TileMap(bool),
    /// The outline of the 160 x 144 visible area.
    Viewport,
    /// The eight-pixel mark at the window's position.
    WindowMarker,
    /// The frame round the sprite grid.
    OamBorder,
    /// The tiles of the 40 sprites, 4 per row.
    Sprites,
}

/// The width and height of a picture's box.
pub open spec fn box_size(p: Picture) -> (int, int) {
    match p {
        Picture::TileSheet => (96, 256),
        Picture::MapBorder => (256, 256),
        Picture::TileMap(_) => (256, 256),
        Picture::Viewport => (160, 144),
        Picture::WindowMarker => (8, 1),
        Picture::OamBorder => (34, 82),
        Picture::Sprites => (32, 80),
    }
}

/// Whether a picture skips the cells that fall right of or below the window.
pub open spec fn clips(p: Picture) -> bool {
    p == Picture::TileSheet || p == Picture::WindowMarker || p == Picture::Sprites
}

/// A buffer index: row `y`, column `x`.
pub open spec fn pixel_index(x: int, y: int) -> int {
    y * WINDOW_WIDTH + x
}

/// The colour of pixel (`col`, `row`) of tile `tile` in the tile data.
pub open spec fn tile_pixel(tile_data: [u8; 0x1800], tile: int, row: int, col: int) -> u8 {
    spec_tile_color(tile_data@[tile * 16 + row * 2], tile_data@[tile * 16 + row * 2 + 1], col)
}

/// The tile the sheet shows at position `t` (signed order when LCDC bit 4 is clear).
pub open spec fn sheet_tile(lcdc: u8, t: int) -> int {
    if lcdc & 0x10 == 0 { (t + 128) % 256 } else { t }
}

pub const MAP_BORDER_COLOR: u32 = 0x6f6f6f;
pub const VIEWPORT_COLOR: u32 = 0xFF0000;
pub const WINDOW_MARK_COLOR: u32 = 0x0000FF;

impl DebugWindow {
    /// What a picture puts at cell (`dx`, `dy`) of its box, if anything.
    pub open spec fn spec_shade(&self, p: Picture, dx: int, dy: int) -> Option<u32> {
        match p {
            Picture::TileSheet => {
                let t = (dy / 8) * 12 + dx / 8;
                Some(spec_colors()[tile_pixel(self.tile_data, sheet_tile(self.lcdc, t), dy % 8, dx % 8) as int])
            },
            Picture::MapBorder => if dy == 0 || dy == 255 || dx == 0 || dx == 255 {
                Some(MAP_BORDER_COLOR)
            } else {
                None
            },
            Picture::TileMap(window) => {
                let map = if window { self.window_tilemap } else { self.bg_tilemap };
                let tile = map@[(dy / 8) * 32 + dx / 8];
                let c = spec_colors()[tile_pixel(self.tile_data, tile as int, dy % 8, dx % 8) as int];
                Some(if window { (c + 0x40) as u32 } else { c })
            },
            Picture::Viewport => if dx == 0 || dx == 159 || dy == 0 || dy == 143 {
                Some(VIEWPORT_COLOR)
            } else {
                None
            },
            Picture::WindowMarker => Some(WINDOW_MARK_COLOR),
            Picture::OamBorder => if dy == 0 || dy == 81 || dx == 0 || dx == 33 {
                Some(MAP_BORDER_COLOR)
            } else {
                None
            },
            Picture::Sprites => {
                let sprite = (dy / 8) * 4 + dx / 8;
                let tile = self.oam_data@[sprite * 4 + 2];
                Some(spec_colors()[tile_pixel(self.tile_data, tile as int, dy % 8, dx % 8) as int])
            },
        }
    }

    fn shade(&self, p: Picture, dx: usize, dy: usize) -> (r: Option<u32>)
        requires
            dx < box_size(p).0,
            dy < box_size(p).1,
        ensures
            r == self.spec_shade(p, dx as int, dy as int),
    {
        match p {
            Picture::TileSheet => {
                let t = (dy / 8) * 12 + dx / 8;
                let tile = if self.lcdc & 0x10 == 0 { (t + 128) % 256 } else { t };
                let row = dy % 8;
                let c = tile_color(self.tile_data[tile * 16 + row * 2], self.tile_data[tile * 16 + row * 2 + 1], (dx % 8) as u8);
                Some(color_of(c))
            },
            Picture::MapBorder => if dy == 0 || dy == 255 || dx == 0 || dx == 255 {
                Some(MAP_BORDER_COLOR)
            } else {
                None
            },
            Picture::TileMap(window) => {
                let tile = if window { self.window_tilemap[(dy / 8) * 32 + dx / 8] } else { self.bg_tilemap[(dy / 8) * 32 + dx / 8] } as usize;
                let row = dy % 8;
                let c = color_of(tile_color(self.tile_data[tile * 16 + row * 2], self.tile_data[tile * 16 + row * 2 + 1], (dx % 8) as u8));
                Some(if window { c.saturating_add(0x000040) } else { c })
            },
            Picture::Viewport => if dx == 0 || dx == 159 || dy == 0 || dy == 143 {
                Some(VIEWPORT_COLOR)
            } else {
                None
            },
            Picture::WindowMarker => Some(WINDOW_MARK_COLOR),
            Picture::OamBorder => if dy == 0 || dy == 81 || dx == 0 || dx == 33 {
                Some(MAP_BORDER_COLOR)
            } else {
                None
            },
            Picture::Sprites => {
                let sprite = (dy / 8) * 4 + dx / 8;
                let tile = self.oam_data[sprite * 4 + 2] as usize;
                let row = dy % 8;
                let c = tile_color(self.tile_data[tile * 16 + row * 2], self.tile_data[tile * 16 + row * 2 + 1], (dx % 8) as u8);
                Some(color_of(c))
            },
        }
    }

    /// Whether cell (`dx`, `dy`) of a picture with its box at (`ox`, `oy`) is drawn: it is in
    /// the box, inside the window when the picture clips, and the picture puts a colour there.
    pub open spec fn draws(&self, p: Picture, ox: int, oy: int, dx: int, dy: int) -> bool {
        &&& 0 <= dx < box_size(p).0
        &&& 0 <= dy < box_size(p).1
        &&& (clips(p) ==> ox + dx < WINDOW_WIDTH && oy + dy < WINDOW_HEIGHT)
        &&& self.spec_shade(p, dx, dy) is Some
    }

    /// Buffer entry `k` after the cells before (`cx`, `cy`) in row order are drawn: the cell
    /// that lands on `k` decides, if it is drawn; otherwise `k` keeps its value.
    pub open spec fn painted_entry(&self, p: Picture, old: Seq<u32>, ox: int, oy: int, cx: int, cy: int, k: int) -> u32 {
        let d = k - pixel_index(ox, oy);
        let dx = d % (WINDOW_WIDTH as int);
        let dy = d / (WINDOW_WIDTH as int);
        if d >= 0 && (dy < cy || (dy == cy && dx < cx)) && self.draws(p, ox, oy, dx, dy) {
            self.spec_shade(p, dx, dy)->0
        } else {
            old[k]
        }
    }

    pub open spec fn painted_upto(&self, p: Picture, old: Seq<u32>, ox: int, oy: int, cx: int, cy: int) -> Seq<u32> {
        Seq::new(old.len(), |k: int| self.painted_entry(p, old, ox, oy, cx, cy, k))
    }

    /// The buffer with the whole picture drawn with its box at (`ox`, `oy`).
    pub open spec fn painted(&self, p: Picture, old: Seq<u32>, ox: int, oy: int) -> Seq<u32> {
        self.painted_upto(p, old, ox, oy, 0, box_size(p).1)
    }

    proof fn lemma_cell_index(dx: int, dy: int)
        requires
            0 <= dx < WINDOW_WIDTH,
            0 <= dy,
        ensures
            (dy * WINDOW_WIDTH + dx) % (WINDOW_WIDTH as int) == dx,
            (dy * WINDOW_WIDTH + dx) / (WINDOW_WIDTH as int) == dy,
    {
        vstd::arithmetic::div_mod::lemma_fundamental_div_mod_converse(dy * WINDOW_WIDTH + dx, WINDOW_WIDTH as int, dy, dx);
    }

    proof fn lemma_cell_of(d: int)
        requires
            0 <= d,
        ensures
            d == (d / (WINDOW_WIDTH as int)) * WINDOW_WIDTH + d % (WINDOW_WIDTH as int),
            0 <= d % (WINDOW_WIDTH as int) < WINDOW_WIDTH,
    {
        vstd::arithmetic::div_mod::lemma_fundamental_div_mod(d, WINDOW_WIDTH as int);
    }

    /// Draws a picture with its box at (`ox`, `oy`): each cell's colour goes to the buffer
    /// entry `(oy + dy) * WINDOW_WIDTH + ox + dx` when that entry exists.
    fn paint(&self, buffer: &mut Vec<u32>, p: Picture, ox: usize, oy: usize)
        requires
            ox <= 2 * WINDOW_WIDTH,
            oy <= 2 * WINDOW_HEIGHT,
        ensures
            final(buffer)@ == self.painted(p, old(buffer)@, ox as int, oy as int),
    {
        let (w, h): (usize, usize) = match p {
            Picture::TileSheet => (96, 256),
            Picture::MapBorder => (256, 256),
            Picture::TileMap(_) => (256, 256),
            Picture::Viewport => (160, 144),
            Picture::WindowMarker => (8, 1),
            Picture::OamBorder => (34, 82),
            Picture::Sprites => (32, 80),
        };
        let clip = match p {
            Picture::TileSheet | Picture::WindowMarker | Picture::Sprites => true,
            _ => false,
        };
        let ghost old_buf = buffer@;
        let mut dy: usize = 0;
        proof {
            assert(buffer@ =~= self.painted_upto(p, old_buf, ox as int, oy as int, 0, 0));
        }
        while dy < h
            invariant
                (w as int, h as int) == box_size(p),
                clip == clips(p),
                ox <= 2 * WINDOW_WIDTH,
                oy <= 2 * WINDOW_HEIGHT,
                dy <= h,
                buffer@ == self.painted_upto(p, old_buf, ox as int, oy as int, 0, dy as int),
            decreases h - dy,
        {
            let mut dx: usize = 0;
            while dx < w
                invariant
                    (w as int, h as int) == box_size(p),
                    clip == clips(p),
                    ox <= 2 * WINDOW_WIDTH,
                    oy <= 2 * WINDOW_HEIGHT,
                    dy < h,
                    dx <= w,
                    buffer@ == self.painted_upto(p, old_buf, ox as int, oy as int, dx as int, dy as int),
                decreases w - dx,
            {
                let x = ox + dx;
                let y = oy + dy;
                let idx = y * WINDOW_WIDTH + x;
                let ghost before = buffer@;
                let ghost next = self.painted_upto(p, old_buf, ox as int, oy as int, dx as int + 1, dy as int);
                proof {
                    Self::lemma_cell_index(dx as int, dy as int);
                    assert(idx - pixel_index(ox as int, oy as int) == dy * WINDOW_WIDTH + dx) by (nonlinear_arith)
                        requires idx == (oy + dy) * WINDOW_WIDTH + ox + dx;
                    assert forall|k: int| 0 <= k < old_buf.len() && k != idx implies
                        #[trigger] next[k] == before[k] by {
                        let d = k - pixel_index(ox as int, oy as int);
                        if d >= 0 {
                            Self::lemma_cell_of(d);
                            if d / (WINDOW_WIDTH as int) == dy && d % (WINDOW_WIDTH as int) == dx {
                                assert(d == dy * WINDOW_WIDTH + dx);
                            }
                        }
                    }
                }
                if !(clip && (x >= WINDOW_WIDTH || y >= WINDOW_HEIGHT)) && idx < buffer.len() {
                    if let Some(c) = self.shade(p, dx, dy) {
                        buffer.set(idx, c);
                    }
                }
                proof {
                    assert(buffer@ =~= next);
                }
                dx += 1;
            }
            proof {
                assert(buffer@ =~= self.painted_upto(p, old_buf, ox as int, oy as int, 0, dy as int + 1));
            }
            dy += 1;
        }
    }
}

/// The value of the first listed entry for `reg`, or 0 when it is not listed.
pub open spec fn listed_io(regs: Seq<(IoRegister, u8)>, reg: IoRegister) -> u8
    decreases regs.len(),
{
    if regs.len() == 0 {
        0
    } else if regs[0].0 == reg {
        regs[0].1
    } else {
        listed_io(regs.drop_first(), reg)
    }
}

proof fn lemma_listed_io(regs: Seq<(IoRegister, u8)>, reg: IoRegister, i: int)
    requires
        0 <= i <= regs.len(),
        forall|j: int| 0 <= j < i ==> (#[trigger] regs[j]).0 != reg,
        i < regs.len() ==> regs[i].0 == reg,
    ensures
        listed_io(regs, reg) == (if i < regs.len() { regs[i].1 } else { 0u8 }),
    decreases i,
{
    if i > 0 {
        let t = regs.drop_first();
        assert forall|j: int| 0 <= j < i - 1 implies (#[trigger] t[j]).0 != reg by {
            assert(t[j] == regs[j + 1]);
        }
        lemma_listed_io(t, reg, i - 1);
    }
}

fn find_io(regs: &Vec<(IoRegister, u8)>, reg: IoRegister) -> (r: u8)
    ensures
        r == listed_io(regs@, reg),
{
    let mut i: usize = 0;
    while i < regs.len()
        invariant
            i <= regs@.len(),
            forall|j: int| 0 <= j < i ==> (#[trigger] regs@[j]).0 != reg,
        decreases regs@.len() - i,
    {
        if regs[i].0 == reg {
            proof { lemma_listed_io(regs@, reg, i as int); }
            return regs[i].1;
        }
        i += 1;
    }
    proof { lemma_listed_io(regs@, reg, i as int); }
    0
}

impl DebugWindow {
    /// The tile sheet with its top-left corner at (`x`, `y`).
    pub open spec fn spec_tile_sheet(&self, b: Seq<u32>, x: int, y: int) -> Seq<u32> {
        self.painted(Picture::TileSheet, b, x, y)
    }

    fn render_tile_data(&self, buffer: &mut Vec<u32>, start_x: usize, start_y: usize)
        requires
            start_x <= WINDOW_WIDTH,
            start_y <= WINDOW_HEIGHT,
        ensures
            final(buffer)@ == self.spec_tile_sheet(old(buffer)@, start_x as int, start_y as int),
    {
        self.paint(buffer, Picture::TileSheet, start_x, start_y);
    }

    /// A tile map at (`x`, `y`): its frame, then, while the background is on (LCDC bit 0) and,
    /// for the window map, the window too (LCDC bit 5), the map's tiles over it.
    pub open spec fn spec_tilemap(&self, b: Seq<u32>, x: int, y: int, window: bool) -> Seq<u32> {
        let framed = self.painted(Picture::MapBorder, b, x, y);
        if self.lcdc & 0x01 == 0 || (window && self.lcdc & 0x20 == 0) {
            framed
        } else {
            self.painted(Picture::TileMap(window), framed, x, y)
        }
    }

    fn render_tilemap(&self, buffer: &mut Vec<u32>, start_x: usize, start_y: usize, window: bool)
        requires
            start_x <= WINDOW_WIDTH,
            start_y <= WINDOW_HEIGHT,
        ensures
            final(buffer)@ == self.spec_tilemap(old(buffer)@, start_x as int, start_y as int, window),
    {
        self.paint(buffer, Picture::MapBorder, start_x, start_y);
        if (self.lcdc & 0x01) == 0 {
            return;
        }
        if window && (self.lcdc & 0x20) == 0 {
            return;
        }
        self.paint(buffer, Picture::TileMap(window), start_x, start_y);
    }

    /// The visible area's outline at (`x` + SCX, `y` + SCY) (SCX and SCY as listed, 0 if not),
    /// and, while the window is on (LCDC bit 5), the window mark at (`x` + WX - 7, `y` + WY).
    pub open spec fn spec_viewport(&self, b: Seq<u32>, x: int, y: int) -> Seq<u32> {
        let scx = listed_io(self.io_registers@, IoRegister::Scx);
        let scy = listed_io(self.io_registers@, IoRegister::Scy);
        let outlined = self.painted(Picture::Viewport, b, x + scx, y + scy);
        if self.lcdc & 0x20 != 0 {
            let wx = if self.window_x >= 7 { self.window_x - 7 } else { 0 };
            self.painted(Picture::WindowMarker, outlined, x + wx, y + self.window_y)
        } else {
            outlined
        }
    }

    fn render_viewport(&self, buffer: &mut Vec<u32>, start_x: usize, start_y: usize)
        requires
            start_x <= WINDOW_WIDTH,
            start_y <= WINDOW_HEIGHT,
        ensures
            final(buffer)@ == self.spec_viewport(old(buffer)@, start_x as int, start_y as int),
    {
        let scx = find_io(&self.io_registers, IoRegister::Scx) as usize;
        let scy = find_io(&self.io_registers, IoRegister::Scy) as usize;
        self.paint(buffer, Picture::Viewport, start_x + scx, start_y + scy);
        if (self.lcdc & 0x20) != 0 {
            let wx = self.window_x.saturating_sub(7) as usize;
            let wy = self.window_y as usize;
            self.paint(buffer, Picture::WindowMarker, start_x + wx, start_y + wy);
        }
    }

    /// The sprite grid at (`x`, `y`) inside its frame one pixel out.
    pub open spec fn spec_oam(&self, b: Seq<u32>, x: int, y: int) -> Seq<u32> {
        self.painted(Picture::Sprites, self.painted(Picture::OamBorder, b, x - 1, y - 1), x, y)
    }

    fn render_oam(&self, buffer: &mut Vec<u32>, start_x: usize, start_y: usize)
        requires
            1 <= start_x <= WINDOW_WIDTH,
            1 <= start_y <= WINDOW_HEIGHT,
        ensures
            final(buffer)@ == self.spec_oam(old(buffer)@, start_x as int, start_y as int),
    {
        self.paint(buffer, Picture::OamBorder, start_x - 1, start_y - 1);
        self.paint(buffer, Picture::Sprites, start_x, start_y);
    }
}

impl DebugWindow {
    pub fn new() -> (r: DebugWindow)
        ensures
            r.cpu_registers@ == seq![0u8, 0, 0, 0, 0, 0, 0, 0],
            r.io_registers@ == Seq::<(IoRegister, u8)>::empty(),
            !r.cartridge_header_read,
            r.mode == PPUMode::OAM_SCAN,
            r.sp == 0 && r.pc == 0 && r.op == 0 && !r.ime && !r.halt && r.last_cycle == 0,
            r.interrupt_enable == 0 && r.interrupt_request == 0,
            r.lcdc == 0 && r.window_x == 0 && r.window_y == 0 && r.mode_cycles == 0,
            forall|i: int| 0 <= i < 0x1800 ==> r.tile_data@[i] == 0,
            forall|i: int| 0 <= i < 0x800 ==> r.bg_tilemap@[i] == 0 && r.window_tilemap@[i] == 0,
            forall|i: int| 0 <= i < 0xA0 ==> r.oam_data@[i] == 0,
            forall|i: int| 0 <= i < 0x50 ==> r.cartridge_header@[i] == 0,
    {
        let r = DebugWindow {
            cpu_registers: [0; 8],
            interrupt_enable: 0,
            interrupt_request: 0,
            sp: 0,
            pc: 0,
            op: 0,
            ime: false,
            halt: false,
            last_cycle: 0,
            io_registers: Vec::new(),
            tile_data: [0; 0x1800],
            bg_tilemap: [0; 0x800],
            oam_data: [0; 0xA0],
            window_tilemap: [0; 0x800],
            cartridge_header: [0; 0x50],
            cartridge_header_read: false,
            lcdc: 0,
            window_y: 0,
            window_x: 0,
            mode_cycles: 0,
            mode: PPUMode::OAM_SCAN,
        };
        assert(r.cpu_registers@ =~= seq![0u8, 0, 0, 0, 0, 0, 0, 0]);
        r
    }

    /// Takes a new snapshot: processor registers, the byte at PC, LCDC and the window
    /// position, the PPU's mode and dot count, the listed I/O registers, tile data, both tile
    /// maps (as LCDC selects them), OAM, and the cartridge header the first time only.
    /// Nothing reads IE or IF into `interrupt_enable` and `interrupt_request`.
    pub fn update(&mut self, cpu: &CPU, bus: &Bus, ppu: &PPU)
        requires
            bus.wf(),
        ensures
            final(self).cpu_registers@ == seq![cpu.a, cpu.f.spec_bits(), cpu.b, cpu.c, cpu.d, cpu.e, cpu.h, cpu.l],
            final(self).sp == cpu.sp,
            final(self).pc == cpu.pc,
            final(self).op == bus.spec_read_byte(cpu.pc),
            final(self).ime == cpu.ime,
            final(self).halt == cpu.halt,
            final(self).last_cycle == cpu.cycles,
            final(self).lcdc == bus.spec_read_byte(IoRegister::Lcdc.spec_address()),
            final(self).window_y == bus.spec_read_byte(IoRegister::Wy.spec_address()),
            final(self).window_x == bus.spec_read_byte(IoRegister::Wx.spec_address()),
            final(self).mode_cycles == ppu.mode_cycles,
            final(self).mode == ppu.mode,
            io_snapshot(*bus, debug_io_list(), final(self).io_registers@),
            block_read(*bus, 0x8000, final(self).tile_data@, 0x1800),
            block_read(*bus, tilemap_base(final(self).lcdc, 0x08), final(self).bg_tilemap@, 0x800),
            block_read(*bus, tilemap_base(final(self).lcdc, 0x40), final(self).window_tilemap@, 0x800),
            block_read(*bus, 0xFE00, final(self).oam_data@, 0xA0),
            final(self).cartridge_header_read,
            old(self).cartridge_header_read ==> final(self).cartridge_header == old(self).cartridge_header,
            !old(self).cartridge_header_read ==> forall|i: int|
                0 <= i < 0x50 ==> final(self).cartridge_header@[i] == bus.spec_read_byte((0x100 + i) as u16),
            final(self).interrupt_enable == old(self).interrupt_enable,
            final(self).interrupt_request == old(self).interrupt_request,
    {
        self.cpu_registers = [cpu.a, cpu.f.bits(), cpu.b, cpu.c, cpu.d, cpu.e, cpu.h, cpu.l];
        self.sp = cpu.sp;
        self.pc = cpu.pc;
        self.op = bus.read_byte(cpu.pc);
        self.ime = cpu.ime;
        self.halt = cpu.halt;
        self.lcdc = bus.read_byte(IoRegister::Lcdc.address());
        self.window_y = bus.read_byte(IoRegister::Wy.address());
        self.window_x = bus.read_byte(IoRegister::Wx.address());
        self.last_cycle = cpu.cycles;
        self.mode_cycles = ppu.mode_cycles;
        self.mode = ppu.mode;
        self.io_registers = read_io(bus);
        read_tiles(bus, &mut self.tile_data);
        let background_tilemap_base: u16 = if (self.lcdc & 0x08) != 0 { 0x9C00 } else { 0x9800 };
        let window_tilemap_base: u16 = if (self.lcdc & 0x40) != 0 { 0x9C00 } else { 0x9800 };
        read_map(bus, background_tilemap_base, &mut self.bg_tilemap);
        read_map(bus, window_tilemap_base, &mut self.window_tilemap);
        read_oam(bus, &mut self.oam_data);
        if !self.cartridge_header_read {
            self.cartridge_header = bus.read_cartridge_header();
            self.cartridge_header_read = true;
        }
        assert(self.cpu_registers@ =~= seq![cpu.a, cpu.f.spec_bits(), cpu.b, cpu.c, cpu.d, cpu.e, cpu.h, cpu.l]);
    }
}

pub const TITLE_COLOR: u32 = 0x4f4f4f;
pub const TEXT_COLOR: u32 = 0x6F6F6F;
pub const VALUE_COLOR: u32 = 0x8F8F8F;

/// What the 5x8 font of minifb_fonts leaves in a `width` x `height` `buffer` after drawing
/// `text` at (`x`, `y`) in `color`.
pub uninterp spec fn text_drawn(
    buffer: Seq<u32>,
    width: usize,
    height: usize,
    x: usize,
    y: usize,
    text: Seq<char>,
    color: u32,
) -> Seq<u32>;

/// Draws `text` with `minifb_fonts::font5x8`: a renderer for a `width` x `height` buffer in
/// `color` (`font5x8::new_renderer`), then `FbFontRenderer::draw_text`. The pixels it sets
/// depend on the font's glyphs and are named by `text_drawn`, not stated; the crate only
/// writes entries inside the width and height, so the length stays.
#[verifier::external_body]
fn draw_text(buffer: &mut Vec<u32>, width: usize, height: usize, x: usize, y: usize, text: &Vec<char>, color: u32)
    requires
        old(buffer)@.len() == width * height,
        x < width,
        y < height,
    ensures
        final(buffer)@ == text_drawn(old(buffer)@, width, height, x, y, text@, color),
        final(buffer)@.len() == old(buffer)@.len(),
{
    let s: String = text.iter().collect();
    minifb_fonts::font5x8::new_renderer(width, height, color).draw_text(buffer, x, y, &s);
}

/// What drawing `text` at (`x`, `y`) leaves in a buffer the size of the debug window.
pub open spec fn window_text(buffer: Seq<u32>, x: usize, y: usize, text: Seq<char>, color: u32) -> Seq<u32> {
    text_drawn(buffer, WINDOW_WIDTH, WINDOW_HEIGHT, x, y, text, color)
}

/// Draws `text` into a buffer the size of the debug window.
fn draw_window_text(buffer: &mut Vec<u32>, x: usize, y: usize, text: &Vec<char>, color: u32)
    requires
        old(buffer)@.len() == WINDOW_WIDTH * WINDOW_HEIGHT,
        x < WINDOW_WIDTH,
        y < WINDOW_HEIGHT,
    ensures
        final(buffer)@ == window_text(old(buffer)@, x, y, text@, color),
        final(buffer)@.len() == old(buffer)@.len(),
{
    draw_text(buffer, WINDOW_WIDTH, WINDOW_HEIGHT, x, y, text, color);
}

fn chars_of(s: &str) -> (r: Vec<char>)
    ensures
        r@ == s@,
{
    let n = s.unicode_len();
    let mut v: Vec<char> = Vec::new();
    let mut i: usize = 0;
    while i < n
        invariant
            n == s@.len(),
            i <= n,
            v@ == s@.take(i as int),
        decreases n - i,
    {
        v.push(s.get_char(i));
        proof { assert(v@ =~= s@.take(i as int + 1)); }
        i += 1;
    }
    assert(v@ =~= s@);
    v
}

pub open spec fn hex_digits() -> Seq<char> {
    seq!['0', '1', '2', '3', '4', '5', '6', '7', '8', '9', 'A', 'B', 'C', 'D', 'E', 'F']
}

/// `v` in upper-case hexadecimal, padded with zeros to at least `width` digits.
pub open spec fn hex_text(v: nat, width: nat) -> Seq<char>
    decreases v, width,
{
    if v < 16 && width <= 1 {
        seq![hex_digits()[v as int]]
    } else {
        hex_text(v / 16, if width > 0 { (width - 1) as nat } else { 0 }).push(hex_digits()[(v % 16) as int])
    }
}

fn hex_digit(d: u64) -> (r: char)
    requires
        d < 16,
    ensures
        r == hex_digits()[d as int],
{
    match d {
        0 => '0',
        1 => '1',
        2 => '2',
        3 => '3',
        4 => '4',
        5 => '5',
        6 => '6',
        7 => '7',
        8 => '8',
        9 => '9',
        10 => 'A',
        11 => 'B',
        12 => 'C',
        13 => 'D',
        14 => 'E',
        _ => 'F',
    }
}

fn hex_chars(v: u64, width: usize) -> (r: Vec<char>)
    ensures
        r@ == hex_text(v as nat, width as nat),
    decreases v, width,
{
    if v < 16 && width <= 1 {
        vec![hex_digit(v)]
    } else {
        let w = if width > 0 { width - 1 } else { 0 };
        let mut r = hex_chars(v / 16, w);
        r.push(hex_digit(v % 16));
        r
    }
}

/// The name of a PPU mode, as the debugger prints it.
pub open spec fn mode_text(m: PPUMode) -> Seq<char> {
    match m {
        PPUMode::HBLANK => "HBLANK"@,
        PPUMode::VBLANK => "VBLANK"@,
        PPUMode::OAM_SCAN => "OAM_SCAN"@,
        PPUMode::DRAWING => "DRAWING"@,
    }
}

fn mode_name(m: PPUMode) -> (r: Vec<char>)
    ensures
        r@ == mode_text(m),
{
    match m {
        PPUMode::HBLANK => chars_of("HBLANK"),
        PPUMode::VBLANK => chars_of("VBLANK"),
        PPUMode::OAM_SCAN => chars_of("OAM_SCAN"),
        PPUMode::DRAWING => chars_of("DRAWING"),
    }
}

/// The label the debugger gives a listed register ("?" for one it does not list).
pub open spec fn io_label(r: IoRegister) -> Seq<char> {
    match r {
        IoRegister::Lcdc => "LCDC"@,
        IoRegister::Stat => "STAT"@,
        IoRegister::Scy => "SCY"@,
        IoRegister::Scx => "SCX"@,
        IoRegister::Ly => "LY"@,
        IoRegister::Lyc => "LYC"@,
        IoRegister::Div => "DIV"@,
        IoRegister::Tima => "TIMA"@,
        IoRegister::Tma => "TMA"@,
        IoRegister::Tac => "TAC"@,
        IoRegister::If => "IF"@,
        IoRegister::Ie => "IE"@,
        IoRegister::Joyp => "JOY"@,
        IoRegister::Sb => "SB"@,
        IoRegister::Sc => "SC"@,
        IoRegister::Nr10 => "NR10"@,
        IoRegister::Nr11 => "NR11"@,
        _ => "?"@,
    }
}

fn io_name(r: IoRegister) -> (v: Vec<char>)
    ensures
        v@ == io_label(r),
{
    match r {
        IoRegister::Lcdc => chars_of("LCDC"),
        IoRegister::Stat => chars_of("STAT"),
        IoRegister::Scy => chars_of("SCY"),
        IoRegister::Scx => chars_of("SCX"),
        IoRegister::Ly => chars_of("LY"),
        IoRegister::Lyc => chars_of("LYC"),
        IoRegister::Div => chars_of("DIV"),
        IoRegister::Tima => chars_of("TIMA"),
        IoRegister::Tma => chars_of("TMA"),
        IoRegister::Tac => chars_of("TAC"),
        IoRegister::If => chars_of("IF"),
        IoRegister::Ie => chars_of("IE"),
        IoRegister::Joyp => chars_of("JOY"),
        IoRegister::Sb => chars_of("SB"),
        IoRegister::Sc => chars_of("SC"),
        IoRegister::Nr10 => chars_of("NR10"),
        IoRegister::Nr11 => chars_of("NR11"),
        _ => chars_of("?"),
    }
}

/// A label at (`x`, `y`) and a hexadecimal value of `width` digits at (`vx`, `y`).
pub open spec fn labelled(b: Seq<u32>, x: usize, vx: usize, y: usize, label: Seq<char>, v: nat, width: nat) -> Seq<u32> {
    window_text(window_text(b, x, y, label, TEXT_COLOR), vx, y, hex_text(v, width), VALUE_COLOR)
}

fn draw_labelled(buffer: &mut Vec<u32>, x: usize, vx: usize, y: usize, label: &Vec<char>, v: u64, width: usize)
    requires
        old(buffer)@.len() == WINDOW_WIDTH * WINDOW_HEIGHT,
        x < WINDOW_WIDTH,
        vx < WINDOW_WIDTH,
        y < WINDOW_HEIGHT,
    ensures
        final(buffer)@ == labelled(old(buffer)@, x, vx, y, label@, v as nat, width as nat),
        final(buffer)@.len() == old(buffer)@.len(),
{
    draw_window_text(buffer, x, y, label, TEXT_COLOR);
    let value = hex_chars(v, width);
    draw_window_text(buffer, vx, y, &value, VALUE_COLOR);
}

/// The listed registers from entry `k` on, one line each from line `y` while lines fit in
/// the window: the label at x 10 and the value at x 60, 15 pixels apart.
pub open spec fn io_lines(b: Seq<u32>, regs: Seq<(IoRegister, u8)>, k: int, y: usize) -> Seq<u32>
    decreases regs.len() - k,
{
    if k < 0 || k >= regs.len() || y >= WINDOW_HEIGHT {
        b
    } else {
        io_lines(labelled(b, 10, 60, y, io_label(regs[k].0), regs[k].1 as nat, 2), regs, k + 1, (y + 15) as usize)
    }
}

/// The title of a cartridge header: its bytes 0x34-0x43 up to the first zero, as characters.
pub open spec fn title_byte(h: Seq<u8>, k: int) -> u8 {
    h[0x34 + k]
}

pub open spec fn title_len(h: Seq<u8>, i: int) -> int
    decreases 16 - i,
{
    if i >= 16 || title_byte(h, i) == 0 { i } else { title_len(h, i + 1) }
}

pub open spec fn header_title(h: Seq<u8>) -> Seq<char> {
    Seq::new(title_len(h, 0) as nat, |i: int| (h[0x34 + i] as u32) as char)
}

proof fn lemma_title_len(h: Seq<u8>, i: int, j: int)
    requires
        0 <= i <= j <= 16,
        forall|k: int| i <= k < j ==> #[trigger] title_byte(h, k) != 0,
        j == 16 || title_byte(h, j) == 0,
    ensures
        title_len(h, i) == j,
    decreases j - i,
{
    if i < j {
        lemma_title_len(h, i + 1, j);
    }
}

fn title_chars(h: &[u8; 0x50]) -> (r: Vec<char>)
    ensures
        r@ == header_title(h@),
{
    let mut v: Vec<char> = Vec::new();
    let mut i: usize = 0;
    while i < 16 && h[0x34 + i] != 0
        invariant
            i <= 16,
            v@.len() == i,
            forall|k: int| 0 <= k < i ==> #[trigger] title_byte(h@, k) != 0,
            forall|k: int| 0 <= k < i ==> #[trigger] v@[k] == (h@[0x34 + k] as u32) as char,
        decreases 16 - i,
    {
        v.push(h[0x34 + i] as char);
        i += 1;
    }
    proof {
        lemma_title_len(h@, 0, i as int);
        assert(v@ =~= header_title(h@));
    }
    v
}

impl DebugWindow {
    /// The processor part: the title, the eight registers in pairs, SP, PC, the opcode and
    /// the cycle count.
    pub open spec fn spec_cpu_part(&self, b: Seq<u32>) -> Seq<u32> {
        let r = self.cpu_registers@;
        let b1 = window_text(b, 10, 10, "CPU Registers"@, TITLE_COLOR);
        let b2 = labelled(labelled(b1, 10, 30, 30, "A"@, r[0] as nat, 2), 70, 90, 30, "F"@, r[1] as nat, 2);
        let b3 = labelled(labelled(b2, 10, 30, 45, "B"@, r[2] as nat, 2), 70, 90, 45, "C"@, r[3] as nat, 2);
        let b4 = labelled(labelled(b3, 10, 30, 60, "D"@, r[4] as nat, 2), 70, 90, 60, "E"@, r[5] as nat, 2);
        let b5 = labelled(labelled(b4, 10, 30, 75, "H"@, r[6] as nat, 2), 70, 90, 75, "L"@, r[7] as nat, 2);
        let b6 = labelled(labelled(b5, 10, 60, 160, "SP"@, self.sp as nat, 4), 10, 60, 175, "PC"@, self.pc as nat, 4);
        labelled(labelled(b6, 10, 60, 190, "OP"@, self.op as nat, 2), 10, 60, 205, "CYCLES"@, self.last_cycle as nat, 2)
    }

    fn draw_cpu_part(&self, buffer: &mut Vec<u32>)
        requires
            old(buffer)@.len() == WINDOW_WIDTH * WINDOW_HEIGHT,
        ensures
            final(buffer)@ == self.spec_cpu_part(old(buffer)@),
            final(buffer)@.len() == old(buffer)@.len(),
    {
        draw_window_text(buffer, 10, 10, &chars_of("CPU Registers"), TITLE_COLOR);
        let r = self.cpu_registers;
        draw_labelled(buffer, 10, 30, 30, &chars_of("A"), r[0] as u64, 2);
        draw_labelled(buffer, 70, 90, 30, &chars_of("F"), r[1] as u64, 2);
        draw_labelled(buffer, 10, 30, 45, &chars_of("B"), r[2] as u64, 2);
        draw_labelled(buffer, 70, 90, 45, &chars_of("C"), r[3] as u64, 2);
        draw_labelled(buffer, 10, 30, 60, &chars_of("D"), r[4] as u64, 2);
        draw_labelled(buffer, 70, 90, 60, &chars_of("E"), r[5] as u64, 2);
        draw_labelled(buffer, 10, 30, 75, &chars_of("H"), r[6] as u64, 2);
        draw_labelled(buffer, 70, 90, 75, &chars_of("L"), r[7] as u64, 2);
        draw_labelled(buffer, 10, 60, 160, &chars_of("SP"), self.sp as u64, 4);
        draw_labelled(buffer, 10, 60, 175, &chars_of("PC"), self.pc as u64, 4);
        draw_labelled(buffer, 10, 60, 190, &chars_of("OP"), self.op as u64, 2);
        draw_labelled(buffer, 10, 60, 205, &chars_of("CYCLES"), self.last_cycle as u64, 2);
    }

    /// The I/O part: its title and one line per listed register.
    pub open spec fn spec_io_part(&self, b: Seq<u32>) -> Seq<u32> {
        io_lines(window_text(b, 10, 220, "IO Registers"@, TITLE_COLOR), self.io_registers@, 0, 240)
    }

    fn draw_io_part(&self, buffer: &mut Vec<u32>)
        requires
            old(buffer)@.len() == WINDOW_WIDTH * WINDOW_HEIGHT,
        ensures
            final(buffer)@ == self.spec_io_part(old(buffer)@),
            final(buffer)@.len() == old(buffer)@.len(),
    {
        draw_window_text(buffer, 10, 220, &chars_of("IO Registers"), TITLE_COLOR);
        let ghost start = buffer@;
        let mut y: usize = 240;
        let mut k: usize = 0;
        while k < self.io_registers.len() && y < WINDOW_HEIGHT
            invariant
                k <= self.io_registers@.len(),
                y < WINDOW_HEIGHT + 15,
                buffer@.len() == WINDOW_WIDTH * WINDOW_HEIGHT,
                io_lines(start, self.io_registers@, 0, 240) == io_lines(buffer@, self.io_registers@, k as int, y),
            decreases self.io_registers@.len() - k,
        {
            let (reg, value) = self.io_registers[k];
            let label = io_name(reg);
            draw_labelled(buffer, 10, 60, y, &label, value as u64, 2);
            k += 1;
            y += 15;
        }
    }

    /// The pictures and the PPU part: tile sheet, background map with the viewport, window
    /// map, sprites, the PPU mode and dot count.
    pub open spec fn spec_picture_part(&self, b: Seq<u32>) -> Seq<u32> {
        let b1 = self.spec_tile_sheet(window_text(b, 300, 5, "VRAM"@, TITLE_COLOR), 300, 20);
        let b2 = self.spec_viewport(self.spec_tilemap(window_text(b1, 400, 5, "Background Tilemap"@, TITLE_COLOR), 400, 20, false), 400, 20);
        let b3 = self.spec_tilemap(window_text(b2, 400, 300, "Window Tilemap"@, TITLE_COLOR), 400, 320, true);
        let b4 = self.spec_oam(window_text(b3, 300, 430, "OAM"@, TITLE_COLOR), 300, 440);
        let b5 = window_text(window_text(b4, 300, 320, "PPU Mode"@, TITLE_COLOR), 300, 335, mode_text(self.mode), VALUE_COLOR);
        window_text(
            window_text(b5, 300, 350, "Mode Cycles"@, TITLE_COLOR),
            300,
            365,
            hex_text(self.mode_cycles as nat, 2),
            VALUE_COLOR,
        )
    }

    fn draw_picture_part(&self, buffer: &mut Vec<u32>)
        requires
            old(buffer)@.len() == WINDOW_WIDTH * WINDOW_HEIGHT,
        ensures
            final(buffer)@ == self.spec_picture_part(old(buffer)@),
            final(buffer)@.len() == old(buffer)@.len(),
    {
        draw_window_text(buffer, 300, 5, &chars_of("VRAM"), TITLE_COLOR);
        self.render_tile_data(buffer, 300, 20);
        draw_window_text(buffer, 400, 5, &chars_of("Background Tilemap"), TITLE_COLOR);
        self.render_tilemap(buffer, 400, 20, false);
        self.render_viewport(buffer, 400, 20);
        draw_window_text(buffer, 400, 300, &chars_of("Window Tilemap"), TITLE_COLOR);
        self.render_tilemap(buffer, 400, 320, true);
        draw_window_text(buffer, 300, 430, &chars_of("OAM"), TITLE_COLOR);
        self.render_oam(buffer, 300, 440);
        draw_window_text(buffer, 300, 320, &chars_of("PPU Mode"), TITLE_COLOR);
        draw_window_text(buffer, 300, 335, &mode_name(self.mode), VALUE_COLOR);
        draw_window_text(buffer, 300, 350, &chars_of("Mode Cycles"), TITLE_COLOR);
        draw_window_text(buffer, 300, 365, &hex_chars(self.mode_cycles as u64, 2), VALUE_COLOR);
    }

    /// The cartridge part: the title, and the header bytes for the type (0x47), ROM size
    /// (0x48), RAM size (0x49), destination (0x4A), SGB flag (0x46), version (0x4C) and
    /// licensee (0x4B) in hexadecimal.
    pub open spec fn spec_cartridge_part(&self, b: Seq<u32>) -> Seq<u32> {
        let h = self.cartridge_header@;
        let b1 = window_text(b, 150, 10, "CARTRIDGE HEADER"@, TITLE_COLOR);
        let b2 = window_text(window_text(b1, 150, 25, "Title"@, TITLE_COLOR), 190, 25, header_title(h), VALUE_COLOR);
        let b3 = labelled(labelled(b2, 150, 190, 40, "Type"@, h[0x47] as nat, 2), 150, 190, 55, "ROM "@, h[0x48] as nat, 2);
        let b4 = labelled(labelled(b3, 150, 190, 70, "RAM "@, h[0x49] as nat, 2), 150, 190, 85, "Destin"@, h[0x4A] as nat, 2);
        let b5 = labelled(labelled(b4, 150, 190, 100, "SGB"@, h[0x46] as nat, 2), 150, 190, 115, "Version"@, h[0x4C] as nat, 2);
        labelled(b5, 150, 190, 130, "Licensee"@, h[0x4B] as nat, 2)
    }

    fn draw_cartridge_part(&self, buffer: &mut Vec<u32>)
        requires
            old(buffer)@.len() == WINDOW_WIDTH * WINDOW_HEIGHT,
        ensures
            final(buffer)@ == self.spec_cartridge_part(old(buffer)@),
            final(buffer)@.len() == old(buffer)@.len(),
    {
        let h = &self.cartridge_header;
        draw_window_text(buffer, 150, 10, &chars_of("CARTRIDGE HEADER"), TITLE_COLOR);
        draw_window_text(buffer, 150, 25, &chars_of("Title"), TITLE_COLOR);
        draw_window_text(buffer, 190, 25, &title_chars(h), VALUE_COLOR);
        draw_labelled(buffer, 150, 190, 40, &chars_of("Type"), h[0x47] as u64, 2);
        draw_labelled(buffer, 150, 190, 55, &chars_of("ROM "), h[0x48] as u64, 2);
        draw_labelled(buffer, 150, 190, 70, &chars_of("RAM "), h[0x49] as u64, 2);
        draw_labelled(buffer, 150, 190, 85, &chars_of("Destin"), h[0x4A] as u64, 2);
        draw_labelled(buffer, 150, 190, 100, &chars_of("SGB"), h[0x46] as u64, 2);
        draw_labelled(buffer, 150, 190, 115, &chars_of("Version"), h[0x4C] as u64, 2);
        draw_labelled(buffer, 150, 190, 130, &chars_of("Licensee"), h[0x4B] as u64, 2);
    }

    /// The whole debugger picture over a black WINDOW_WIDTH x WINDOW_HEIGHT buffer.
    pub open spec fn spec_debug_buffer(&self) -> Seq<u32> {
        let black = Seq::new((WINDOW_WIDTH * WINDOW_HEIGHT) as nat, |i: int| 0u32);
        self.spec_cartridge_part(self.spec_picture_part(self.spec_io_part(self.spec_cpu_part(black))))
    }

    /// Draws the debugger picture: registers, I/O registers, tile sheet, tile maps with the
    /// viewport, sprites, PPU state and cartridge header.
    pub fn debug_buffer(&self) -> (r: Vec<u32>)
        ensures
            r@ == self.spec_debug_buffer(),
    {
        let mut buffer: Vec<u32> = vec![0; WINDOW_WIDTH * WINDOW_HEIGHT];
        assert(buffer@ =~= Seq::new((WINDOW_WIDTH * WINDOW_HEIGHT) as nat, |i: int| 0u32));
        self.draw_cpu_part(&mut buffer);
        self.draw_io_part(&mut buffer);
        self.draw_picture_part(&mut buffer);
        self.draw_cartridge_part(&mut buffer);
        buffer
    }
}

} // verus!
