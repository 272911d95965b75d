//! What every frontend shares: the window geometry, the DMG palette, turning
//! the framebuffer into RGBA, and a quick check that a file is a Game Boy ROM.

use vstd::prelude::*;
use crate::cartridge::{self, CHECKSUM};
use crate::emulator::Emulator;

verus! {

pub const GB_WIDTH: u32 = 160;
pub const GB_HEIGHT: u32 = 144;
pub const WINDOW_SCALE: u32 = 4;

/// The DMG's four shades, lightest to darkest, as RGBA.
pub const PALETTE: [[u8; 4]; 4] = [
    [0x9B, 0xBC, 0x0F, 0xFF],
    [0x8B, 0xAC, 0x0F, 0xFF],
    [0x30, 0x62, 0x30, 0xFF],
    [0x0F, 0x38, 0x0F, 0xFF],
];

/// The RGBA of DMG shade `shade` (0 lightest, 3 darkest).
pub open spec fn palette_spec(shade: int) -> Seq<u8> {
    if shade == 0 {
        seq![0x9Bu8, 0xBC, 0x0F, 0xFF]
    } else if shade == 1 {
        seq![0x8Bu8, 0xAC, 0x0F, 0xFF]
    } else if shade == 2 {
        seq![0x30u8, 0x62, 0x30, 0xFF]
    } else {
        seq![0x0Fu8, 0x38, 0x0F, 0xFF]
    }
}

/// A 5-bit channel widened to 8 bits: shifted up three, with its top two
/// bits repeated below so that 0 stays 0 and 31 becomes 255.
pub open spec fn expand5(channel: int) -> int {
    channel * 8 + channel / 4
}

/// The RGBA of a CGB RGB555 color: red in bits 0..=4, green 5..=9, blue 10..=14.
pub open spec fn rgba_from_555_spec(color: u16) -> Seq<u8> {
    seq![
        expand5(color as int % 32) as u8,
        expand5(color as int / 32 % 32) as u8,
        expand5(color as int / 1024 % 32) as u8,
        0xFFu8,
    ]
}

/// What a frontend shows for one framebuffer entry.
pub open spec fn pixel_rgba(cgb: bool, value: u16) -> Seq<u8> {
    if cgb {
        rgba_from_555_spec(value)
    } else {
        palette_spec(value as int)
    }
}

fn expand_channel(channel: u16) -> (r: u8)
    requires
        channel < 32,
    ensures
        r == expand5(channel as int),
{
    proof {
        assert((channel << 3u16 | channel >> 2u16) == channel * 8 + channel / 4) by (bit_vector)
            requires channel < 32u16;
    }
    (channel << 3 | channel >> 2) as u8
}

/// The RGBA of a CGB RGB555 color, each channel widened to 8 bits.
pub fn rgba_from_555(color: u16) -> (r: [u8; 4])
    ensures
        r@ == rgba_from_555_spec(color),
{
    proof {
        assert(color & 0x1F == color % 32 && color >> 5u16 & 0x1F == color / 32 % 32
            && color >> 10u16 & 0x1F == color / 1024 % 32) by (bit_vector);
    }
    let r = [
        expand_channel(color & 0x1F),
        expand_channel(color >> 5 & 0x1F),
        expand_channel(color >> 10 & 0x1F),
        0xFF,
    ];
    assert(r@ =~= rgba_from_555_spec(color));
    r
}

/// Paints the screen into `surface`, one RGBA pixel per framebuffer entry,
/// as far as the shorter of the two reaches: CGB colors widened from RGB555,
/// DMG shades through `PALETTE`.
pub fn to_rgba(emulator: &Emulator, surface: &mut [[u8; 4]])
    requires
        emulator.wf(),
    ensures
        final(surface)@.len() == old(surface)@.len(),
        forall|i: int| 0 <= i < old(surface)@.len() ==> {
            if i < emulator.bus@.ppu.framebuffer.len() {
                final(surface)@[i]@ == pixel_rgba(emulator.bus@.cgb, emulator.bus@.ppu.framebuffer[i])
            } else {
                final(surface)@[i] == old(surface)@[i]
            }
        },
{
    let framebuffer = emulator.framebuffer();
    let cgb = emulator.is_cgb();
    assert(emulator.bus@.ppu.screen_valid());
    let n = if surface.len() < framebuffer.len() { surface.len() } else { framebuffer.len() };
    let mut i: usize = 0;
    while i < n
        invariant
            n <= surface@.len(),
            n <= framebuffer@.len(),
            framebuffer@ == emulator.bus@.ppu.framebuffer,
            cgb == emulator.bus@.cgb,
            n == old(surface)@.len() || n == framebuffer@.len(),
            surface@.len() == old(surface)@.len(),
            i <= n,
            forall|k: int| 0 <= k < framebuffer@.len() ==> #[trigger] framebuffer@[k] < crate::ppu::screen_limit(cgb),
            forall|k: int| 0 <= k < i ==> surface@[k]@ == pixel_rgba(cgb, framebuffer@[k]),
            forall|k: int| i <= k < surface@.len() ==> surface@[k] == old(surface)@[k],
        decreases n - i,
    {
        let value = framebuffer[i];
        let pixel = if cgb {
            rgba_from_555(value)
        } else {
            let p = PALETTE[value as usize];
            assert(p@ =~= palette_spec(value as int));
            p
        };
        surface[i] = pixel;
        i = i + 1;
    }
}

/// Whether `rom` is long enough to hold a cartridge header and the header
/// checksum at 0x014D matches the bytes 0x0134..=0x014C.
pub fn looks_like_a_rom(rom: &[u8]) -> (r: bool)
    ensures
        r <==> rom@.len() >= 0x0150 && rom@[CHECKSUM as int] == cartridge::header_checksum_spec(rom@),
{
    if rom.len() < 0x0150 {
        return false;
    }
    cartridge::header_checksum(rom) == rom[0x014D]
}

} // verus!
