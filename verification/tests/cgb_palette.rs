use gb_core::ppu::cgb_palette::{rgb555_to_rgb888, CgbPalette};

#[test]
fn test_rgb555_white()  { assert_eq!(rgb555_to_rgb888(0x7FFF), 0x00FFFFFF); }
#[test]
fn test_rgb555_black()  { assert_eq!(rgb555_to_rgb888(0x0000), 0x00000000); }
#[test]
fn test_rgb555_red()    { assert_eq!(rgb555_to_rgb888(0x001F), 0x00FF0000); }
#[test]
fn test_rgb555_green()  { assert_eq!(rgb555_to_rgb888(0x03E0), 0x0000FF00); }
#[test]
fn test_rgb555_blue()   { assert_eq!(rgb555_to_rgb888(0x7C00), 0x000000FF); }

#[test]
fn test_write_read_data() {
    let mut p = CgbPalette::new();
    p.spec = 0x00;
    p.write_data(0xAB);
    p.spec = 0x00;
    assert_eq!(p.read_data(), 0xAB);
}

#[test]
fn test_auto_increment() {
    let mut p = CgbPalette::new();
    p.spec = 0x80;
    p.write_data(0x11);
    assert_eq!(p.index(), 1);
    p.write_data(0x22);
    assert_eq!(p.index(), 2);
}

#[test]
fn test_get_color_white() {
    let mut p = CgbPalette::new();
    p.ram[0] = 0xFF; p.ram[1] = 0x7F;
    assert_eq!(p.get_color(0, 0), 0x00FFFFFF);
}

#[test]
fn test_get_color_black() {
    let mut p = CgbPalette::new();
    p.ram[0] = 0x00; p.ram[1] = 0x00;
    assert_eq!(p.get_color(0, 0), 0x00000000);
}
