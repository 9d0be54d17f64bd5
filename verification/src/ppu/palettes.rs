//! DMG colourisation: three four-colour palettes (background, sprite
//! palette 0, sprite palette 1) of 0x00RRGGBB colours, lightest first; the
//! twelve selectable palettes of the GBC boot ROM; and the palettes of
//! particular games, found by a substring of the cartridge title.

use crate::text::{all_ascii, ascii_upper, contains_str, occurs, to_upper, uppercase_text};
use vstd::prelude::*;

verus! {

#[derive(Clone, Copy, Debug)]
pub struct DmgColorPalettes {
    pub bg: [u32; 4],
    pub obj0: [u32; 4],
    pub obj1: [u32; 4],
}

/// Names of the selectable palettes (the twelve of the GBC boot ROM).
pub const MANUAL_PALETTE_NAMES: [&'static str; 12] = [
    "Classic Green",
    "GB Pocket",
    "Grayscale",
    "GBC Green",
    "GBC Cool",
    "GBC Red",
    "GBC Orange",
    "GBC Blue",
    "GBC Brown",
    "GBC Pastel",
    "GBC Yellow",
    "GBC Teal",
];

/// Their colours: background, sprite palette 0, sprite palette 1.
pub const MANUAL_PALETTE_COLORS: [[[u32; 4]; 3]; 12] = [
    [
        [0x9BBC0F, 0x8BAC0F, 0x306230, 0x0F380F],
        [0x9BBC0F, 0x8BAC0F, 0x306230, 0x0F380F],
        [0x9BBC0F, 0x8BAC0F, 0x306230, 0x0F380F],
    ],
    [
        [0xC4CFA1, 0x8B956D, 0x4A5139, 0x1A1F12],
        [0xC4CFA1, 0x8B956D, 0x4A5139, 0x1A1F12],
        [0xC4CFA1, 0x8B956D, 0x4A5139, 0x1A1F12],
    ],
    [
        [0xFFFFFF, 0xAAAAAA, 0x555555, 0x000000],
        [0xFFFFFF, 0xAAAAAA, 0x555555, 0x000000],
        [0xFFFFFF, 0xAAAAAA, 0x555555, 0x000000],
    ],
    [
        [0xE0F8D0, 0x88C070, 0x346856, 0x081820],
        [0xE0F8D0, 0x88C070, 0x346856, 0x081820],
        [0xD0D058, 0xA0A840, 0x607028, 0x283800],
    ],
    [
        [0xF8F8F8, 0x90B8C8, 0x385878, 0x080818],
        [0xF8F8F8, 0x90B8C8, 0x385878, 0x080818],
        [0xF8E8A8, 0xC8A030, 0x785000, 0x201000],
    ],
    [
        [0xF8F8F8, 0xE09090, 0xA02010, 0x300000],
        [0xF8F8F8, 0xF8A050, 0xA04010, 0x200000],
        [0xF8F8F8, 0xA0C8F0, 0x2060C0, 0x000828],
    ],
    [
        [0xF8F0C8, 0xE09038, 0x904808, 0x201000],
        [0xF8F0C8, 0xE09038, 0x904808, 0x201000],
        [0xC8F8C8, 0x60C050, 0x208030, 0x082010],
    ],
    [
        [0xD0E8F8, 0x6090C8, 0x204878, 0x081020],
        [0xD0E8F8, 0x6090C8, 0x204878, 0x081020],
        [0xF8E8D0, 0xD09858, 0x784820, 0x200800],
    ],
    [
        [0xF8E8C8, 0xD0A870, 0x885830, 0x281000],
        [0xF8E8C8, 0xD0A870, 0x885830, 0x281000],
        [0xD8F0D8, 0x80B878, 0x386838, 0x081808],
    ],
    [
        [0xF8F8F8, 0x90E8C8, 0x386888, 0x081828],
        [0xF8F8F8, 0x90E8C8, 0x386888, 0x081828],
        [0xF8D8A8, 0xE09050, 0x884818, 0x200800],
    ],
    [
        [0xF8F888, 0xD8C838, 0x807010, 0x181800],
        [0xF8F888, 0xD8C838, 0x807010, 0x181800],
        [0xF8C8F8, 0xC870C8, 0x683068, 0x180818],
    ],
    [
        [0xF0FFF0, 0x50E8A0, 0x007860, 0x001820],
        [0xF0FFF0, 0x50E8A0, 0x007860, 0x001820],
        [0xFFE8C8, 0xE0A050, 0x905820, 0x201008],
    ],
];

/// Title substrings of the games with their own palette, in lookup order.
pub const GAME_TITLES: [&'static str; 12] = [
    "POKEMON RED",
    "POKEMON BLUE",
    "POKEMON YELLO",
    "ZELDA",
    "TETRIS",
    "KIRBY",
    "METROID",
    "MEGAMAN",
    "DONKEY KONG",
    "MARIO",
    "CASTLEVANIA",
    "WARIO",
];

/// Display names of those games.
pub const GAME_NAMES: [&'static str; 12] = [
    "Pokémon Red",
    "Pokémon Blue",
    "Pokémon Yellow",
    "The Legend of Zelda",
    "Tetris",
    "Kirby",
    "Metroid",
    "Mega Man",
    "Donkey Kong",
    "Super Mario",
    "Castlevania",
    "Wario Land",
];

/// Their colours: background, sprite palette 0, sprite palette 1.
pub const GAME_COLORS: [[[u32; 4]; 3]; 12] = [
    [
        [0xF8F8F8, 0xE09090, 0xA02010, 0x300000],
        [0xF8F8F8, 0xF8A050, 0xA04010, 0x200000],
        [0xF8F8F8, 0xA0C8F0, 0x2060C0, 0x000828],
    ],
    [
        [0xF8F8F8, 0x80A8F0, 0x1840C8, 0x000010],
        [0xF8F8F8, 0xA0C8F0, 0x2060C0, 0x000828],
        [0xF8F8F8, 0xF8A050, 0xA04010, 0x200000],
    ],
    [
        [0xF8F8F8, 0xF8D000, 0xD09000, 0x302000],
        [0xF8F8F8, 0xF8D000, 0xD09000, 0x302000],
        [0xFF0000, 0xD82000, 0xA00000, 0x300000],
    ],
    [
        [0xF8F8E0, 0xB8C858, 0x507818, 0x182808],
        [0xF8E888, 0xD8A000, 0x905000, 0x281800],
        [0xE8E8E8, 0xA8A0A8, 0x605860, 0x181018],
    ],
    [
        [0xF8F8F8, 0x60A8D0, 0x1050A0, 0x000818],
        [0xF8F8F8, 0xF8A838, 0xD05000, 0x281800],
        [0xF8F8F8, 0x80C840, 0x308030, 0x081800],
    ],
    [
        [0xF8D8E8, 0xF090B8, 0xB02878, 0x300010],
        [0xF8D8E8, 0xF090B8, 0xB02878, 0x300010],
        [0xF8F8A8, 0xD8D040, 0x808000, 0x181800],
    ],
    [
        [0xF8F0C8, 0xC0A800, 0x785800, 0x201400],
        [0xF8F8A8, 0xB0D010, 0x507800, 0x101800],
        [0xF8A0A0, 0xD04848, 0x901010, 0x200000],
    ],
    [
        [0xF8F8F8, 0x70C8F8, 0x1870C8, 0x000828],
        [0xF8F8F8, 0x70C8F8, 0x1870C8, 0x000828],
        [0xF8D888, 0xE09030, 0x905008, 0x201000],
    ],
    [
        [0xF8D888, 0xE09030, 0x905008, 0x201000],
        [0xF8D888, 0xE09030, 0x905008, 0x201000],
        [0xF8F8F8, 0xA0D878, 0x308848, 0x081808],
    ],
    [
        [0xF8F8F8, 0xF87858, 0xC02020, 0x280000],
        [0xF8F8F8, 0xF87858, 0xC02020, 0x280000],
        [0xF8F8A8, 0xD8B000, 0x807000, 0x181800],
    ],
    [
        [0xE8E0D0, 0xA098A8, 0x585068, 0x100818],
        [0xE8C880, 0xC89830, 0x785008, 0x181000],
        [0xF8A0A0, 0xC84040, 0x780808, 0x180000],
    ],
    [
        [0xF8F8A8, 0xD8B000, 0x807000, 0x181800],
        [0xF8F8A8, 0xD8B000, 0x807000, 0x181800],
        [0xF8A8F8, 0xC850C8, 0x701870, 0x180018],
    ],
];

/// The palettes made of a colour table entry.
pub open spec fn palettes_of(c: [[u32; 4]; 3]) -> DmgColorPalettes {
    DmgColorPalettes { bg: c[0], obj0: c[1], obj1: c[2] }
}

/// The grey palette used when no game-specific one is found.
pub open spec fn grey() -> [u32; 4] {
    [0xFFFFFF, 0xAAAAAA, 0x555555, 0x000000]
}

/// The first game (in table order) whose title substring occurs in `upper`.
pub open spec fn first_game(upper: Seq<char>, from: int) -> Option<int>
    decreases 12 - from,
{
    if from < 0 || from >= 12 {
        None
    } else if occurs(upper, GAME_TITLES[from]@) {
        Some(from)
    } else {
        first_game(upper, from + 1)
    }
}

pub struct GameEntry {
    pub title_substr: &'static str,
    pub name: &'static str,
    pub palette: DmgColorPalettes,
}

impl DmgColorPalettes {
    /// The same four colours for background and both sprite palettes.
    pub fn uniform(c: [u32; 4]) -> (r: Self)
        ensures
            r.bg == c && r.obj0 == c && r.obj1 == c,
    {
        DmgColorPalettes { bg: c, obj0: c, obj1: c }
    }
}

/// The grey palette for background and both sprite palettes.
pub open spec fn grey_palettes() -> DmgColorPalettes {
    DmgColorPalettes { bg: grey(), obj0: grey(), obj1: grey() }
}

/// The default palette: grey for background and both sprite palettes.
pub fn default_palette() -> (r: DmgColorPalettes)
    ensures
        r == grey_palettes(),
        r.bg@ == grey()@ && r.obj0@ == grey()@ && r.obj1@ == grey()@,
{
    DmgColorPalettes::uniform([0xFFFFFF, 0xAAAAAA, 0x555555, 0x000000])
}

/// Selectable palette `i`: its name and colours.
pub fn manual_palette(i: usize) -> (r: (&'static str, DmgColorPalettes))
    requires
        i < 12,
    ensures
        r.0@ == MANUAL_PALETTE_NAMES[i as int]@,
        r.1 == palettes_of(MANUAL_PALETTE_COLORS[i as int]),
{
    let c = MANUAL_PALETTE_COLORS[i];
    (MANUAL_PALETTE_NAMES[i], DmgColorPalettes { bg: c[0], obj0: c[1], obj1: c[2] })
}

/// All twelve selectable palettes, in order.
pub fn all_manual_palettes() -> (r: Vec<(&'static str, DmgColorPalettes)>)
    ensures
        r@.len() == 12,
        forall|i: int|
            0 <= i < 12 ==> #[trigger] r@[i].0@ == MANUAL_PALETTE_NAMES[i]@ && r@[i].1 == palettes_of(
                MANUAL_PALETTE_COLORS[i],
            ),
{
    let mut r: Vec<(&'static str, DmgColorPalettes)> = Vec::new();
    let mut i: usize = 0;
    while i < 12
        invariant
            i <= 12,
            r@.len() == i,
            forall|k: int|
                0 <= k < i ==> #[trigger] r@[k].0@ == MANUAL_PALETTE_NAMES[k]@ && r@[k].1 == palettes_of(
                    MANUAL_PALETTE_COLORS[k],
                ),
        decreases 12 - i,
    {
        r.push(manual_palette(i));
        i = i + 1;
    }
    r
}

/// The table of games with their own palette, in lookup order.
pub fn game_db() -> (r: Vec<GameEntry>)
    ensures
        r@.len() == 12,
        forall|i: int|
            0 <= i < 12 ==> #[trigger] r@[i].title_substr@ == GAME_TITLES[i]@ && r@[i].name@ == GAME_NAMES[i]@
                && r@[i].palette == palettes_of(GAME_COLORS[i]),
{
    let mut r: Vec<GameEntry> = Vec::new();
    let mut i: usize = 0;
    while i < 12
        invariant
            i <= 12,
            r@.len() == i,
            forall|k: int|
                0 <= k < i ==> #[trigger] r@[k].title_substr@ == GAME_TITLES[k]@ && r@[k].name@ == GAME_NAMES[k]@
                    && r@[k].palette == palettes_of(GAME_COLORS[k]),
        decreases 12 - i,
    {
        let c = GAME_COLORS[i];
        r.push(GameEntry {
            title_substr: GAME_TITLES[i],
            name: GAME_NAMES[i],
            palette: DmgColorPalettes { bg: c[0], obj0: c[1], obj1: c[2] },
        });
        i = i + 1;
    }
    r
}

/// The index of the first game whose title substring occurs in `upper`.
fn find_game(upper: &str) -> (r: Option<usize>)
    ensures
        r matches Some(i) ==> i < 12 && first_game(upper@, 0) == Some(i as int),
        r is None ==> first_game(upper@, 0) is None,
{
    let mut i: usize = 0;
    while i < 12
        invariant
            i <= 12,
            first_game(upper@, 0) == first_game(upper@, i as int),
        decreases 12 - i,
    {
        if contains_str(upper, GAME_TITLES[i]) {
            return Some(i);
        }
        i = i + 1;
    }
    None
}

/// The palettes of the first game whose title substring occurs in the
/// upper-cased title `upper`.
pub open spec fn game_palette_for(upper: Seq<char>) -> Option<DmgColorPalettes> {
    match first_game(upper, 0) {
        Some(i) => Some(palettes_of(GAME_COLORS[i])),
        None => None,
    }
}

/// The display name of the first game whose title substring occurs in the
/// upper-cased title `upper`.
pub open spec fn game_name_for(upper: Seq<char>) -> Option<Seq<char>> {
    match first_game(upper, 0) {
        Some(i) => Some(GAME_NAMES[i]@),
        None => None,
    }
}

/// A title names a game exactly when it has that game's palettes: the name
/// and the palettes come from the same (first matching) entry of the table.
pub proof fn lemma_name_and_palette_agree(upper: Seq<char>)
    ensures
        game_name_for(upper) is Some <==> game_palette_for(upper) is Some,
        forall|i: int|
            first_game(upper, 0) == Some(i) ==> game_name_for(upper) == Some(GAME_NAMES[i]@) && game_palette_for(
                upper,
            ) == Some(palettes_of(GAME_COLORS[i])),
{
}

/// The palette of the first game whose title substring occurs in the
/// upper-cased title.
pub fn detect_game_palette(title: &str) -> (r: Option<DmgColorPalettes>)
    ensures
        r == game_palette_for(uppercase_text(title@)),
        all_ascii(title@) ==> r == game_palette_for(title@.map_values(|c: char| ascii_upper(c))),
{
    let upper = to_upper(title);
    match find_game(upper.as_str()) {
        Some(i) => {
            let c = GAME_COLORS[i];
            Some(DmgColorPalettes { bg: c[0], obj0: c[1], obj1: c[2] })
        },
        None => None,
    }
}

/// The display name of the first game whose title substring occurs in the
/// upper-cased title.
pub fn detect_game_name(title: &str) -> (r: Option<&'static str>)
    ensures
        match r {
            Some(n) => game_name_for(uppercase_text(title@)) == Some(n@),
            None => game_name_for(uppercase_text(title@)) is None,
        },
        all_ascii(title@) ==> match r {
            Some(n) => game_name_for(title@.map_values(|c: char| ascii_upper(c))) == Some(n@),
            None => game_name_for(title@.map_values(|c: char| ascii_upper(c))) is None,
        },
{
    let upper = to_upper(title);
    match find_game(upper.as_str()) {
        Some(i) => Some(GAME_NAMES[i]),
        None => None,
    }
}

} // verus!
