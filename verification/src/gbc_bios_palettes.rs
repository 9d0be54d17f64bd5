//! The GBC boot ROM's colourisation of DMG games: a checksum of the title
//! and the title's fourth character select one of twelve palette slots,
//! written into CGB palette RAM as RGB555.

use crate::ppu::cgb_palette::CgbPalette;
use crate::text::{all_ascii, ascii_upper, contains_str, lossy_text, occurs, to_upper, uppercase_text, utf8_lossy};
use vstd::prelude::*;

verus! {

/// Background palettes of the twelve slots (0x00RRGGBB, lightest first).
pub const BG_PALETTES: [[u32; 4]; 12] = [
    [0xE0F8D0, 0x88C070, 0x346856, 0x081820],
    [0xF8F8F8, 0xA8A8A8, 0x505050, 0x000000],
    [0xF8E8C8, 0xD0A870, 0x885830, 0x281000],
    [0xD0E8F8, 0x6090C8, 0x204878, 0x081020],
    [0xF8F0C8, 0xE09038, 0x904808, 0x201000],
    [0xF8F888, 0xD8C838, 0x807010, 0x181800],
    [0xF8D8E8, 0xF090B8, 0xB02878, 0x300010],
    [0xF0FFF0, 0x50E8A0, 0x007860, 0x001820],
    [0xF8F8F8, 0x90B8C8, 0x385878, 0x080818],
    [0xF8F8E0, 0xB8C858, 0x507818, 0x182808],
    [0xF8D8E8, 0xC888A8, 0x785870, 0x100020],
    [0x9BBC0F, 0x8BAC0F, 0x306230, 0x0F380F],
];

/// Sprite palettes of the twelve slots.
pub const OBJ_PALETTES: [[u32; 4]; 12] = [
    [0xE0F8D0, 0x88C070, 0x346856, 0x081820],
    [0xF8F8F8, 0xA8A8A8, 0x505050, 0x000000],
    [0xF8D888, 0xE09030, 0x905008, 0x201000],
    [0xF8E8D0, 0xD09858, 0x784820, 0x200800],
    [0xC8F8C8, 0x60C050, 0x208030, 0x082010],
    [0xF8C8F8, 0xC870C8, 0x683068, 0x180818],
    [0xF8F8A8, 0xD8D040, 0x808000, 0x181800],
    [0xF8E8C8, 0xD0A870, 0x885830, 0x281000],
    [0xF8D8A8, 0xE09050, 0x884818, 0x200800],
    [0xF8E888, 0xD8A000, 0x905000, 0x281800],
    [0xE8C880, 0xC89830, 0x785008, 0x181000],
    [0x9BBC0F, 0x8BAC0F, 0x306230, 0x0F380F],
];

/// (title checksum, fourth title character or 0 for any, palette slot),
/// searched in order.
pub const COMBINATION_TABLE: [(u8, u8, u8); 11] = [
    (0x00, 0x00, 0),
    (0x88, 0x4B, 11),
    (0x16, 0x41, 4),
    (0xB3, 0x00, 3),
    (0x03, 0x42, 5),
    (0xE8, 0x00, 2),
    (0x97, 0x4F, 7),
    (0x54, 0x00, 1),
    (0x39, 0x45, 5),
    (0x43, 0x53, 0),
    (0x97, 0x43, 6),
];

/// Pokemon Yellow's world colours.
pub const YELLOW: [u32; 4] = [0xF8F8F8, 0xF8D000, 0xD09000, 0x302000];

/// Pikachu's cheeks.
pub const CHEEKS: [u32; 4] = [0xFF0000, 0xD82000, 0xA00000, 0x300000];

/// The byte sum, modulo 256.
pub open spec fn byte_sum(s: Seq<u8>) -> int
    decreases s.len(),
{
    if s.len() == 0 {
        0
    } else {
        (byte_sum(s.drop_last()) + s.last()) % 256
    }
}

/// The title checksum: the bytes 0x0134-0x013C (as far as the ROM goes)
/// summed modulo 256.
pub open spec fn title_checksum_spec(rom: Seq<u8>) -> u8 {
    let end = if rom.len() < 0x013D { rom.len() as int } else { 0x013D };
    let start = if end < 0x0134 { end } else { 0x0134 };
    byte_sum(rom.subrange(start, end)) as u8
}

/// The title's fourth character (0 when the ROM is too short).
pub open spec fn fourth_char(rom: Seq<u8>) -> u8 {
    if rom.len() > 0x0137 {
        rom[0x0137]
    } else {
        0
    }
}

/// The palette slot of the first matching combination (from entry `k` on),
/// or slot 0.
pub open spec fn combination_slot(checksum: u8, fourth: u8, k: int) -> u8
    decreases 11 - k,
{
    if k < 0 || k >= 11 {
        0
    } else if COMBINATION_TABLE[k].0 == checksum && (COMBINATION_TABLE[k].1 == 0 || COMBINATION_TABLE[k].1
        == fourth) {
        COMBINATION_TABLE[k].2
    } else {
        combination_slot(checksum, fourth, k + 1)
    }
}

/// Every byte is ASCII.
pub open spec fn ascii_bytes(b: Seq<u8>) -> bool {
    forall|i: int| 0 <= i < b.len() ==> #[trigger] b[i] < 128
}

/// ASCII bytes as characters, letters upper-cased.
pub open spec fn ascii_upper_bytes(b: Seq<u8>) -> Seq<char> {
    b.map_values(|x: u8| ascii_upper(x as char))
}

/// Whether the upper-cased title field (0x0134-0x0143) contains "POKEMON Y".
pub open spec fn is_pokemon_yellow_spec(rom: Seq<u8>) -> bool {
    let text = if rom.len() >= 0x0144 { lossy_text(rom.subrange(0x0134, 0x0144)) } else { Seq::empty() };
    occurs(uppercase_text(text), "POKEMON Y"@)
}

/// An 0x00RRGGBB colour as RGB555 (each channel's top five bits).
pub open spec fn rgb555_of(c: u32) -> u16 {
    ((c / 0x10000 % 256) / 8 + ((c / 0x100 % 256) / 8) * 32 + ((c % 256) / 8) * 1024) as u16
}

/// Palette RAM with slot `slot` set to `colors`, little-endian RGB555.
pub open spec fn with_slot(ram: Seq<u8>, slot: int, colors: [u32; 4]) -> Seq<u8> {
    Seq::new(
        ram.len(),
        |o: int|
            if slot * 8 <= o < slot * 8 + 8 && o < 64 {
                let c = rgb555_of(colors[(o - slot * 8) / 2]);
                if (o - slot * 8) % 2 == 0 {
                    (c % 256) as u8
                } else {
                    (c / 256) as u8
                }
            } else {
                ram[o]
            },
    )
}

/// The palette RAM `apply_bios_palettes` leaves: Pokemon Yellow's own
/// colours, or the background and sprite palette of the selected slot in
/// palette 0.
pub open spec fn bios_palettes(rom: Seq<u8>, bg: Seq<u8>, obj: Seq<u8>) -> (Seq<u8>, Seq<u8>) {
    if is_pokemon_yellow_spec(rom) {
        (with_slot(bg, 0, YELLOW), with_slot(with_slot(with_slot(obj, 0, YELLOW), 1, YELLOW), 2, CHEEKS))
    } else {
        let slot = combination_slot(title_checksum_spec(rom), fourth_char(rom), 0) as int;
        (with_slot(bg, 0, BG_PALETTES[slot]), with_slot(obj, 0, OBJ_PALETTES[slot]))
    }
}

/// Colourise a DMG cartridge as the GBC boot ROM does, writing CGB
/// background and sprite palette RAM.
pub fn apply_bios_palettes(rom: &[u8], bg: &mut CgbPalette, obj: &mut CgbPalette)
    requires
        old(bg).wf(),
        old(obj).wf(),
    ensures
        final(bg).wf(),
        final(obj).wf(),
        (final(bg).ram@, final(obj).ram@) == bios_palettes(rom@, old(bg).ram@, old(obj).ram@),
        final(bg).spec == old(bg).spec && final(obj).spec == old(obj).spec,
{
    let checksum = title_checksum(rom);
    let fourth = if rom.len() > 0x0137 { rom[0x0137] } else { 0 };
    if is_pokemon_yellow(rom) {
        apply_pokemon_yellow_palettes(bg, obj);
        return;
    }
    let slot = combination(checksum, fourth) as usize;
    write_palette_slot(bg, &BG_PALETTES[slot]);
    write_palette_slot(obj, &OBJ_PALETTES[slot]);
}

fn combination(checksum: u8, fourth: u8) -> (r: u8)
    ensures
        r == combination_slot(checksum, fourth, 0),
        r < 12,
{
    let mut k: usize = 0;
    while k < 11
        invariant
            k <= 11,
            combination_slot(checksum, fourth, 0) == combination_slot(checksum, fourth, k as int),
            forall|j: int| 0 <= j < 11 ==> #[trigger] COMBINATION_TABLE[j].2 < 12,
        decreases 11 - k,
    {
        let (cs, fc, slot) = COMBINATION_TABLE[k];
        if cs == checksum && (fc == 0 || fc == fourth) {
            return slot;
        }
        k = k + 1;
    }
    0
}

/// Whether the title field (0x0134-0x0143, read as text, upper-cased)
/// names Pokemon Yellow.
pub fn is_pokemon_yellow(rom: &[u8]) -> (r: bool)
    ensures
        r == is_pokemon_yellow_spec(rom@),
        rom@.len() >= 0x0144 && ascii_bytes(rom@.subrange(0x0134, 0x0144)) ==> r == occurs(
            ascii_upper_bytes(rom@.subrange(0x0134, 0x0144)),
            "POKEMON Y"@,
        ),
{
    let title = if rom.len() >= 0x0144 {
        utf8_lossy(vstd::slice::slice_subrange(rom, 0x0134, 0x0144))
    } else {
        String::new()
    };
    let upper = to_upper(title.as_str());
    proof {
        if rom@.len() >= 0x0144 && ascii_bytes(rom@.subrange(0x0134, 0x0144)) {
            let b = rom@.subrange(0x0134, 0x0144);
            assert(title@ == b.map_values(|x: u8| x as char));
            assert(all_ascii(title@));
            assert(upper@ =~= ascii_upper_bytes(b));
        }
    }
    contains_str(upper.as_str(), "POKEMON Y")
}

fn apply_pokemon_yellow_palettes(bg: &mut CgbPalette, obj: &mut CgbPalette)
    requires
        old(bg).wf(),
        old(obj).wf(),
    ensures
        final(bg).wf(),
        final(obj).wf(),
        final(bg).ram@ == with_slot(old(bg).ram@, 0, YELLOW),
        final(obj).ram@ == with_slot(with_slot(with_slot(old(obj).ram@, 0, YELLOW), 1, YELLOW), 2, CHEEKS),
        final(bg).spec == old(bg).spec && final(obj).spec == old(obj).spec,
{
    write_palette_slot(bg, &YELLOW);
    write_obj_palette_slot(obj, 0, &YELLOW);
    write_obj_palette_slot(obj, 1, &YELLOW);
    write_obj_palette_slot(obj, 2, &CHEEKS);
}

/// The wrapping sum of the title bytes 0x0134-0x013C (as far as the ROM
/// reaches).
pub fn title_checksum(rom: &[u8]) -> (r: u8)
    ensures
        r == title_checksum_spec(rom@),
{
    let end = if rom.len() < 0x013D { rom.len() } else { 0x013D };
    let start = if end < 0x0134 { end } else { 0x0134 };
    let mut acc: u8 = 0;
    let mut i = start;
    while i < end
        invariant
            start <= i <= end <= rom@.len(),
            acc == byte_sum(rom@.subrange(start as int, i as int)),
        decreases end - i,
    {
        proof {
            assert(rom@.subrange(start as int, i + 1).drop_last() =~= rom@.subrange(start as int, i as int));
        }
        acc = acc.wrapping_add(rom[i]);
        i = i + 1;
    }
    acc
}

fn write_palette_slot(pal: &mut CgbPalette, colors: &[u32; 4])
    requires
        old(pal).wf(),
    ensures
        final(pal).wf(),
        final(pal).ram@ == with_slot(old(pal).ram@, 0, *colors),
        final(pal).spec == old(pal).spec,
{
    write_obj_palette_slot(pal, 0, colors);
}

fn write_obj_palette_slot(pal: &mut CgbPalette, slot: usize, colors: &[u32; 4])
    requires
        old(pal).wf(),
        slot < 8,
    ensures
        final(pal).wf(),
        final(pal).ram@ == with_slot(old(pal).ram@, slot as int, *colors),
        final(pal).spec == old(pal).spec,
{
    let ghost ram0 = pal.ram@;
    let mut i: usize = 0;
    while i < 4
        invariant
            i <= 4,
            slot < 8,
            pal.wf(),
            pal.spec == old(pal).spec,
            ram0 == old(pal).ram@,
            pal.ram@ == Seq::new(
                64,
                |o: int|
                    if slot * 8 <= o < slot * 8 + 2 * i && o < 64 {
                        let c = rgb555_of(colors[(o - slot * 8) / 2]);
                        if (o - slot * 8) % 2 == 0 {
                            (c % 256) as u8
                        } else {
                            (c / 256) as u8
                        }
                    } else {
                        ram0[o]
                    },
            ),
        decreases 4 - i,
    {
        let rgb888 = colors[i];
        let r5 = (rgb888 / 0x10000 % 256) / 8;
        let g5 = (rgb888 / 0x100 % 256) / 8;
        let b5 = (rgb888 % 256) / 8;
        let rgb555 = (r5 + g5 * 32 + b5 * 1024) as u16;
        let off = slot * 8 + i * 2;
        if off + 1 < 64 {
            pal.ram.set(off, (rgb555 % 256) as u8);
            pal.ram.set(off + 1, (rgb555 / 256) as u8);
        }
        i = i + 1;
        proof {
            assert(pal.ram@ =~= Seq::new(
                64,
                |o: int|
                    if slot * 8 <= o < slot * 8 + 2 * i && o < 64 {
                        let c = rgb555_of(colors[(o - slot * 8) / 2]);
                        if (o - slot * 8) % 2 == 0 {
                            (c % 256) as u8
                        } else {
                            (c / 256) as u8
                        }
                    } else {
                        ram0[o]
                    },
            ));
        }
    }
    proof {
        assert(pal.ram@ =~= with_slot(ram0, slot as int, *colors));
    }
}

} // verus!
