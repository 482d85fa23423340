use leaflet::palette::container::PalettedContainer;
use leaflet::palette::content::PaletteContent;
use leaflet::palette::palette::PaletteType;

#[test]
fn new_container_reads_zero_everywhere() {
    let c: PalettedContainer<4> = PalettedContainer::new();
    for i in 0..64 {
        assert_eq!(c.get(i), 0);
    }
}

#[test]
fn set_and_get_single_value() {
    let mut c: PalettedContainer<4> = PalettedContainer::new();
    c.set(5, 0);
    assert_eq!(c.get(5), 0);
    assert!(matches!(c.palette, PaletteType::SingleValue(0)));
}

#[test]
fn growth_preserves_previously_stored_values() {
    let mut c: PalettedContainer<4> = PalettedContainer::new();
    // A missing id grows the palette in exactly one step: the single-value
    // palette becomes a width-4 table holding both ids.
    c.set(0, 7);
    assert!(matches!(c.palette, PaletteType::Indirect(4, _)));
    assert_eq!(c.get(0), 7);
    for i in 1..64 {
        assert_eq!(c.get(i), 0);
    }
    // Further missing ids append to the table in place while it has room.
    c.set(1, 9);
    c.set(2, 100);
    assert!(matches!(c.palette, PaletteType::Indirect(4, _)));
    assert_eq!(c.get(0), 7);
    assert_eq!(c.get(1), 9);
    assert_eq!(c.get(2), 100);
    for i in 3..64 {
        assert_eq!(c.get(i), 0);
    }
}

#[test]
fn full_widest_table_promotes_to_direct_in_one_step() {
    let mut c: PalettedContainer<4> = PalettedContainer::new();
    for i in 0..64usize {
        c.set(i, i as i32);
    }
    for i in 0..64usize {
        assert_eq!(c.get(i), i as i32);
    }
    // 64 distinct ids fill the widest indirect table; one more id promotes
    // the palette to Direct, and every stored id survives the promotion.
    c.set(0, 100);
    assert!(matches!(c.palette, PaletteType::Direct));
    assert_eq!(c.get(0), 100);
    for i in 1..64usize {
        assert_eq!(c.get(i), i as i32);
    }
}

#[test]
fn widest_indirect_table_with_room_appends_in_place() {
    // One step below the maximum width, with room left in the table: a
    // missing id appends without changing the width, and the stored
    // values are untouched.
    let mut palette = PaletteType::SingleValue(0);
    for bpe in [1u8, 5, 6] {
        palette = palette.grow(bpe, 7);
    }
    assert_eq!(palette.bpe(7), 6);
    let mut c = PalettedContainer::<4> { palette, content: PaletteContent::new(6) };
    c.set(3, 99);
    assert_eq!(c.palette.bpe(7), 6);
    assert_eq!(c.get(3), 99);
    for i in 0..64 {
        if i != 3 {
            assert_eq!(c.get(i), 0);
        }
    }
}

#[test]
fn direct_palette_maps_index_to_itself() {
    let palette = PaletteType::Direct;
    for index in [0usize, 1, 17, 127] {
        assert_eq!(palette.get_id(index), index as i32);
    }
}

#[test]
fn indirect_lookup_finds_first_match() {
    let grown = PaletteType::SingleValue(42).grow(1, 7);
    assert_eq!(grown.bpe(7), 4);
    assert_eq!(grown.get_index(42), Some(0));
    assert_eq!(grown.get_index(43), None);
    assert_eq!(grown.get_id(0), 42);
}

#[test]
fn content_bit_packing_round_trip() {
    let mut content: PaletteContent<4> = PaletteContent::new(5);
    content.set(0, 31);
    content.set(1, 1);
    content.set(63, 17);
    assert_eq!(content.get(0), 31);
    assert_eq!(content.get(1), 1);
    assert_eq!(content.get(63), 17);
    assert_eq!(content.get(2), 0);
}

#[test]
fn default_palette_is_single_zero() {
    let p = PaletteType::default();
    assert!(matches!(p, PaletteType::SingleValue(0)));
}
