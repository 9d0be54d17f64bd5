//! Cartridge header parsing (0x0134-0x014D of the ROM image).

pub mod mbc_type;

use crate::text::{hex2, hex_message, push_char, push_hex2};
use vstd::prelude::*;

verus! {

pub const HEADER_END: usize = 0x014E;

#[derive(Debug, Clone)]
pub struct CartridgeHeader {
    pub title: String,
    /// 0x80 = CGB compatible, 0xC0 = CGB only.
    pub cgb_flag: u8,
    pub cartridge_type: u8,
    pub rom_size_code: u8,
    pub ram_size_code: u8,
    pub checksum: u8,
}

/// The header checksum of `bytes`: starting from 0, every byte `b` takes the
/// running value `x` to `x - b - 1` (mod 256).
pub open spec fn checksum_fold(bytes: Seq<u8>) -> u8
    decreases bytes.len(),
{
    if bytes.len() == 0 {
        0
    } else {
        ((checksum_fold(bytes.drop_last()) - bytes.last() - 1) % 256) as u8
    }
}

/// The checksum computed over 0x0134-0x014C.
pub open spec fn header_checksum(rom: Seq<u8>) -> u8 {
    checksum_fold(rom.subrange(0x0134, 0x014D))
}

/// The bytes of `s` before its first zero byte.
pub open spec fn take_nonzero(s: Seq<u8>) -> Seq<u8>
    decreases s.len(),
{
    if s.len() == 0 || s[0] == 0 {
        Seq::empty()
    } else {
        seq![s[0]] + take_nonzero(s.drop_first())
    }
}

/// Whether the character with code `b` (a byte) is white space.
pub open spec fn is_space_byte(b: u8) -> bool {
    (0x09 <= b <= 0x0D) || b == 0x20 || b == 0x85 || b == 0xA0
}

/// Number of leading white-space bytes.
pub open spec fn leading_spaces(s: Seq<u8>) -> nat
    decreases s.len(),
{
    if s.len() > 0 && is_space_byte(s[0]) {
        1 + leading_spaces(s.drop_first())
    } else {
        0
    }
}

/// Number of trailing white-space bytes.
pub open spec fn trailing_spaces(s: Seq<u8>) -> nat
    decreases s.len(),
{
    if s.len() > 0 && is_space_byte(s.last()) {
        1 + trailing_spaces(s.drop_last())
    } else {
        0
    }
}

/// `s` without leading and trailing white space.
pub open spec fn trim_spaces(s: Seq<u8>) -> Seq<u8> {
    if leading_spaces(s) == s.len() {
        Seq::empty()
    } else {
        s.subrange(leading_spaces(s) as int, s.len() - trailing_spaces(s))
    }
}

/// Each byte read as the character with that code.
pub open spec fn latin1(s: Seq<u8>) -> Seq<char> {
    Seq::new(s.len(), |i: int| s[i] as char)
}

/// The title: 0x0134-0x0143 up to the first zero byte, as characters, trimmed.
pub open spec fn title_spec(rom: Seq<u8>) -> Seq<char> {
    latin1(trim_spaces(take_nonzero(rom.subrange(0x0134, 0x0144))))
}

/// A ROM image that `parse` accepts: long enough, with a matching checksum.
pub open spec fn header_valid(rom: Seq<u8>) -> bool {
    rom.len() >= 0x0150 && header_checksum(rom) == rom[0x014D]
}

/// `h` holds the fields of the header of `rom`.
pub open spec fn header_of(h: CartridgeHeader, rom: Seq<u8>) -> bool {
    &&& h.title@ == title_spec(rom)
    &&& h.cgb_flag == rom[0x0143]
    &&& h.cartridge_type == rom[0x0147]
    &&& h.rom_size_code == rom[0x0148]
    &&& h.ram_size_code == rom[0x0149]
    &&& h.checksum == rom[0x014D]
}

proof fn lemma_take_nonzero_step(s: Seq<u8>, i: int)
    requires
        0 <= i < s.len(),
        forall|j: int| 0 <= j < i ==> s[j] != 0,
    ensures
        take_nonzero(s.subrange(0, i)) == s.subrange(0, i),
        s[i] != 0 ==> take_nonzero(s.subrange(0, i + 1)) == s.subrange(0, i + 1),
    decreases i,
{
    if i > 0 {
        lemma_take_nonzero_step(s.drop_first(), i - 1);
        assert(s.subrange(0, i).drop_first() =~= s.drop_first().subrange(0, i - 1));
        assert(s.subrange(0, i + 1).drop_first() =~= s.drop_first().subrange(0, i));
    } else {
        assert(s.subrange(0, 1).drop_first() =~= Seq::<u8>::empty());
    }
}

proof fn lemma_take_nonzero_prefix(s: Seq<u8>, i: int)
    requires
        0 <= i <= s.len(),
        forall|j: int| 0 <= j < i ==> s[j] != 0,
        i == s.len() || s[i] == 0,
    ensures
        take_nonzero(s) == s.subrange(0, i),
    decreases i,
{
    if i == 0 {
    } else {
        lemma_take_nonzero_prefix(s.drop_first(), i - 1);
        assert(s.drop_first().subrange(0, i - 1) =~= s.subrange(1, i));
        assert(s.subrange(0, i) =~= seq![s[0]] + s.subrange(1, i));
    }
}

proof fn lemma_leading(s: Seq<u8>, k: int)
    requires
        0 <= k <= s.len(),
        forall|j: int| 0 <= j < k ==> is_space_byte(s[j]),
        k == s.len() || !is_space_byte(s[k]),
    ensures
        leading_spaces(s) == k,
    decreases k,
{
    if k > 0 {
        lemma_leading(s.drop_first(), k - 1);
    }
}

proof fn lemma_trailing(s: Seq<u8>, k: int)
    requires
        0 <= k <= s.len(),
        forall|j: int| s.len() - k <= j < s.len() ==> is_space_byte(s[j]),
        k == s.len() || !is_space_byte(s[s.len() - k - 1]),
    ensures
        trailing_spaces(s) == k,
    decreases k,
{
    if k > 0 {
        lemma_trailing(s.drop_last(), k - 1);
    }
}

fn is_space(b: u8) -> (r: bool)
    ensures
        r == is_space_byte(b),
{
    (0x09 <= b && b <= 0x0D) || b == 0x20 || b == 0x85 || b == 0xA0
}

/// The title field: bytes up to the first zero, trimmed, as characters.
pub fn parse_title(rom: &[u8]) -> (r: String)
    requires
        rom@.len() >= 0x0144,
    ensures
        r@ == title_spec(rom@),
{
    let ghost field = rom@.subrange(0x0134, 0x0144);
    let mut end: usize = 0x0134;
    while end < 0x0144 && rom[end] != 0
        invariant
            0x0134 <= end <= 0x0144,
            rom@.len() >= 0x0144,
            field == rom@.subrange(0x0134, 0x0144),
            forall|j: int| 0x0134 <= j < end ==> rom@[j] != 0,
        decreases 0x0144 - end,
    {
        end = end + 1;
    }
    let ghost raw = field.subrange(0, end - 0x0134);
    proof {
        lemma_take_nonzero_prefix(field, end - 0x0134);
    }
    let mut start: usize = 0x0134;
    while start < end && is_space(rom[start])
        invariant
            0x0134 <= start <= end <= 0x0144,
            rom@.len() >= 0x0144,
            raw == rom@.subrange(0x0134, end as int),
            forall|j: int| 0x0134 <= j < start ==> is_space_byte(rom@[j]),
        decreases end - start,
    {
        start = start + 1;
    }
    proof {
        lemma_leading(raw, start - 0x0134);
    }
    let mut stop: usize = end;
    if start < end {
        while stop > start && is_space(rom[stop - 1])
            invariant
                0x0134 <= start < end <= 0x0144,
                start <= stop <= end,
                rom@.len() >= 0x0144,
                raw == rom@.subrange(0x0134, end as int),
                forall|j: int| stop <= j < end ==> is_space_byte(rom@[j]),
                !is_space_byte(rom@[start as int]),
            decreases stop,
        {
            stop = stop - 1;
        }
        proof {
            lemma_trailing(raw, end - stop);
        }
    }
    let mut title = String::new();
    let mut i = start;
    while i < stop
        invariant
            start <= i <= stop <= end <= 0x0144,
            rom@.len() >= 0x0144,
            title@ == latin1(rom@.subrange(start as int, i as int)),
        decreases stop - i,
    {
        push_char(&mut title, rom[i] as char);
        assert(latin1(rom@.subrange(start as int, i + 1)) =~= latin1(rom@.subrange(start as int, i as int)).push(
            rom@[i as int] as char));
        i = i + 1;
    }
    proof {
        if leading_spaces(raw) == raw.len() {
            assert(start == end && stop == end);
            assert(latin1(rom@.subrange(start as int, stop as int)) =~= latin1(Seq::<u8>::empty()));
        } else {
            assert(raw.subrange(start - 0x0134, stop - 0x0134) =~= rom@.subrange(start as int, stop as int));
        }
    }
    title
}

/// The checksum over 0x0134-0x014C.
pub fn compute_checksum(rom: &[u8]) -> (r: u8)
    requires
        rom@.len() >= 0x014D,
    ensures
        r == header_checksum(rom@),
{
    let mut acc: u8 = 0;
    let mut i: usize = 0x0134;
    while i <= 0x014C
        invariant
            0x0134 <= i <= 0x014D,
            rom@.len() >= 0x014D,
            acc == checksum_fold(rom@.subrange(0x0134, i as int)),
        decreases 0x014D - i,
    {
        let b = rom[i];
        proof {
            let s = rom@.subrange(0x0134, i + 1);
            assert(s.drop_last() =~= rom@.subrange(0x0134, i as int));
            assert(acc.wrapping_sub(b).wrapping_sub(1) == ((acc - b - 1) % 256) as u8);
        }
        acc = acc.wrapping_sub(b).wrapping_sub(1);
        i = i + 1;
    }
    acc
}

impl CartridgeHeader {
    /// Parse the header of a ROM image. Fails when the image is shorter than
    /// 0x0150 bytes or the header checksum (0x014D) does not match.
    pub fn parse(rom: &[u8]) -> (r: Result<Self, String>)
        ensures
            match r {
                Ok(h) => header_valid(rom@) && header_of(h, rom@),
                Err(e) => !header_valid(rom@) && (rom@.len() < 0x0150 ==> e@
                    == "ROM too short to contain header"@) && (rom@.len() >= 0x0150 ==> e@
                    == "Header checksum mismatch: expected 0x"@ + hex2(rom@[0x014D]) + ", got 0x"@ + hex2(
                    header_checksum(rom@),
                )),
            },
    {
        if rom.len() < 0x0150 {
            return Err(String::from_str("ROM too short to contain header"));
        }
        let title = parse_title(rom);
        let cgb_flag = rom[0x0143];
        let cartridge_type = rom[0x0147];
        let rom_size_code = rom[0x0148];
        let ram_size_code = rom[0x0149];
        let checksum = rom[0x014D];
        let calc = compute_checksum(rom);
        if calc != checksum {
            let mut e = hex_message("Header checksum mismatch: expected ", checksum);
            e.append(", got 0x");
            push_hex2(&mut e, calc);
            proof {
                reveal_strlit("Header checksum mismatch: expected ");
                reveal_strlit("Header checksum mismatch: expected 0x");
                assert("Header checksum mismatch: expected "@ + seq!['0', 'x'] =~= "Header checksum mismatch: expected 0x"@);
            }
            return Err(e);
        }
        Ok(CartridgeHeader { title, cgb_flag, cartridge_type, rom_size_code, ram_size_code, checksum })
    }

    /// True when the cartridge supports or requires CGB mode.
    pub fn is_cgb(&self) -> (r: bool)
        ensures
            r == (self.cgb_flag == 0x80 || self.cgb_flag == 0xC0),
    {
        self.cgb_flag == 0x80 || self.cgb_flag == 0xC0
    }

    /// True for a DMG-only cartridge.
    pub fn is_dmg_only(&self) -> (r: bool)
        ensures
            r == !(self.cgb_flag == 0x80 || self.cgb_flag == 0xC0),
    {
        !self.is_cgb()
    }
}

/// RAM banks for a RAM size code; unknown codes count as no banks.
pub open spec fn ram_banks_spec(code: u8) -> u8 {
    if code == 0x02 {
        1
    } else if code == 0x03 {
        4
    } else if code == 0x04 {
        16
    } else if code == 0x05 {
        8
    } else {
        0
    }
}

/// The number of RAM banks for a RAM size code (always `Some`: unknown codes
/// and the 2 KiB code give 0 banks).
pub fn ram_banks(code: u8) -> (r: Option<u8>)
    ensures
        r == Some(ram_banks_spec(code)),
{
    match code {
        0x00 => Some(0),
        0x01 => Some(0),
        0x02 => Some(1),
        0x03 => Some(4),
        0x04 => Some(16),
        0x05 => Some(8),
        _ => Some(0),
    }
}

} // verus!
