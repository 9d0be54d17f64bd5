use gb_core::ppu::palettes::{all_manual_palettes, detect_game_name, detect_game_palette};

#[test]
fn test_manual_palette_count() {
    assert!(all_manual_palettes().len() >= 10);
}

#[test]
fn test_all_palettes_have_4_colors() {
    for (name, p) in all_manual_palettes() {
        assert_eq!(p.bg.len(),   4, "{}", name);
        assert_eq!(p.obj0.len(), 4, "{}", name);
        assert_eq!(p.obj1.len(), 4, "{}", name);
    }
}

#[test]
fn test_detect_tetris() {
    assert!(detect_game_palette("TETRIS").is_some());
}

#[test]
fn test_detect_pokemon_red() {
    assert!(detect_game_palette("POKEMON RED").is_some());
}

#[test]
fn test_detect_unknown_returns_none() {
    assert!(detect_game_palette("ZZUNKNOWNZZ").is_none());
}

#[test]
fn test_game_name_lookup() {
    assert_eq!(detect_game_name("TETRIS"), Some("Tetris"));
}

#[test]
fn test_colors_are_valid_rgb888() {
    for (_, p) in all_manual_palettes() {
        for &c in p.bg.iter().chain(&p.obj0).chain(&p.obj1) {
            assert_eq!(c >> 24, 0, "high byte must be zero in 0x{:08X}", c);
        }
    }
}
