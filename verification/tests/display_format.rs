use ghostscript::callback::display::consts::{
    DisplayFormat, DISPLAY_ALL_BITS, DISPLAY_ALPHA_FIRST, DISPLAY_ALPHA_LAST, DISPLAY_ALPHA_MASK,
    DISPLAY_ALPHA_NONE, DISPLAY_BIGENDIAN, DISPLAY_BOTTOMFIRST, DISPLAY_COLORS_CMYK,
    DISPLAY_COLORS_GRAY, DISPLAY_COLORS_MASK, DISPLAY_COLORS_NATIVE, DISPLAY_COLORS_RGB,
    DISPLAY_COLORS_SEPARATION, DISPLAY_DEPTH_1, DISPLAY_DEPTH_12, DISPLAY_DEPTH_16,
    DISPLAY_DEPTH_2, DISPLAY_DEPTH_4, DISPLAY_DEPTH_8, DISPLAY_DEPTH_MASK, DISPLAY_LITTLEENDIAN,
    DISPLAY_NATIVE_565, DISPLAY_ROW_ALIGN_64, DISPLAY_ROW_ALIGN_MASK, DISPLAY_UNUSED_FIRST,
    DISPLAY_UNUSED_LAST,
};
use ghostscript::callback::display::{
    bits_per_pixel, components_for_alpha, components_per_pixel, depth_bits,
};

fn format(bits: u32) -> DisplayFormat {
    DisplayFormat::from_bits_truncate(bits)
}

const COLORS: [u32; 5] = [
    DISPLAY_COLORS_NATIVE,
    DISPLAY_COLORS_GRAY,
    DISPLAY_COLORS_RGB,
    DISPLAY_COLORS_CMYK,
    DISPLAY_COLORS_SEPARATION,
];

const DEPTHS: [(u32, u8); 6] = [
    (DISPLAY_DEPTH_1, 1),
    (DISPLAY_DEPTH_2, 2),
    (DISPLAY_DEPTH_4, 4),
    (DISPLAY_DEPTH_8, 8),
    (DISPLAY_DEPTH_12, 12),
    (DISPLAY_DEPTH_16, 16),
];

#[test]
fn format_bits_have_their_places() {
    assert_eq!(DISPLAY_COLORS_NATIVE, 1 << 0);
    assert_eq!(DISPLAY_COLORS_GRAY, 1 << 1);
    assert_eq!(DISPLAY_COLORS_RGB, 1 << 2);
    assert_eq!(DISPLAY_COLORS_CMYK, 1 << 3);
    assert_eq!(DISPLAY_COLORS_SEPARATION, 1 << 19);
    assert_eq!(DISPLAY_ALPHA_MASK, 0xf << 4);
    assert_eq!(DISPLAY_DEPTH_1, 1 << 8);
    assert_eq!(DISPLAY_DEPTH_16, 1 << 13);
    assert_eq!(DISPLAY_LITTLEENDIAN, 1 << 16);
    assert_eq!(DISPLAY_BOTTOMFIRST, 1 << 17);
    assert_eq!(DISPLAY_NATIVE_565, 1 << 18);
    assert_eq!(DISPLAY_ROW_ALIGN_MASK, 7 << 20);
    assert_eq!(DISPLAY_ROW_ALIGN_64, 7 << 20);
    assert_eq!(
        DISPLAY_ALL_BITS,
        DISPLAY_COLORS_MASK
            | DISPLAY_ALPHA_MASK
            | DISPLAY_DEPTH_MASK
            | DISPLAY_LITTLEENDIAN
            | DISPLAY_BOTTOMFIRST
            | DISPLAY_NATIVE_565
            | DISPLAY_ROW_ALIGN_MASK
    );
}

#[test]
fn rgb_depth_8_without_alpha_has_three_components_and_24_bits() {
    let rgb = format(DISPLAY_COLORS_RGB | DISPLAY_DEPTH_8 | DISPLAY_ALPHA_NONE | DISPLAY_BIGENDIAN);
    assert_eq!(components_per_pixel(rgb), Some(3));
    assert_eq!(depth_bits(rgb), Some(8));
    assert_eq!(bits_per_pixel(rgb), Some(24));
    let little = format(DISPLAY_COLORS_RGB | DISPLAY_DEPTH_8 | DISPLAY_LITTLEENDIAN);
    assert_eq!(components_per_pixel(little), Some(3));
    assert_eq!(bits_per_pixel(little), Some(24));
}

#[test]
fn gray_depth_1_without_alpha_has_one_bit() {
    let gray = format(DISPLAY_COLORS_GRAY | DISPLAY_DEPTH_1 | DISPLAY_ALPHA_NONE);
    assert_eq!(components_per_pixel(gray), Some(1));
    assert_eq!(bits_per_pixel(gray), Some(1));
}

#[test]
fn alpha_first_or_last_is_unsupported_with_any_colors() {
    for alpha in [DISPLAY_ALPHA_FIRST, DISPLAY_ALPHA_LAST, DISPLAY_ALPHA_FIRST | DISPLAY_ALPHA_LAST]
    {
        for colors in COLORS.iter() {
            for (depth, _) in DEPTHS.iter() {
                let f = format(alpha | colors | depth);
                assert_eq!(components_for_alpha(f), None);
                assert_eq!(components_per_pixel(f), None);
                assert_eq!(bits_per_pixel(f), None);
            }
        }
    }
}

#[test]
fn padding_byte_counts_as_a_component_of_rgb_only() {
    for unused in [DISPLAY_UNUSED_FIRST, DISPLAY_UNUSED_LAST] {
        assert_eq!(components_for_alpha(format(unused)), Some(1));
        let rgb = format(DISPLAY_COLORS_RGB | unused | DISPLAY_DEPTH_8);
        assert_eq!(components_per_pixel(rgb), Some(4));
        assert_eq!(bits_per_pixel(rgb), Some(32));
        for colors in [
            DISPLAY_COLORS_NATIVE,
            DISPLAY_COLORS_GRAY,
            DISPLAY_COLORS_CMYK,
            DISPLAY_COLORS_SEPARATION,
        ] {
            assert_eq!(components_per_pixel(format(colors | unused | DISPLAY_DEPTH_8)), None);
        }
    }
    assert_eq!(components_for_alpha(format(DISPLAY_UNUSED_FIRST | DISPLAY_UNUSED_LAST)), None);
    assert_eq!(components_for_alpha(format(DISPLAY_ALPHA_NONE)), Some(0));
}

#[test]
fn components_by_color_model() {
    assert_eq!(components_per_pixel(format(DISPLAY_COLORS_NATIVE | DISPLAY_DEPTH_16)), Some(1));
    assert_eq!(components_per_pixel(format(DISPLAY_COLORS_GRAY | DISPLAY_DEPTH_8)), Some(1));
    assert_eq!(components_per_pixel(format(DISPLAY_COLORS_RGB | DISPLAY_DEPTH_8)), Some(3));
    assert_eq!(components_per_pixel(format(DISPLAY_COLORS_CMYK | DISPLAY_DEPTH_8)), Some(4));
    assert_eq!(bits_per_pixel(format(DISPLAY_COLORS_CMYK | DISPLAY_DEPTH_8)), Some(32));
    assert_eq!(bits_per_pixel(format(DISPLAY_COLORS_NATIVE | DISPLAY_DEPTH_16)), Some(16));
    assert_eq!(bits_per_pixel(format(DISPLAY_COLORS_RGB | DISPLAY_DEPTH_16)), Some(48));
    // No colour model, or more than one, is no format.
    assert_eq!(components_per_pixel(format(DISPLAY_DEPTH_8)), None);
    assert_eq!(
        components_per_pixel(format(DISPLAY_COLORS_RGB | DISPLAY_COLORS_GRAY | DISPLAY_DEPTH_8)),
        None
    );
    // Components do not need a depth, bits do.
    assert_eq!(components_per_pixel(format(DISPLAY_COLORS_RGB)), Some(3));
    assert_eq!(bits_per_pixel(format(DISPLAY_COLORS_RGB)), None);
}

#[test]
fn separation_is_as_wide_as_a_pointer_at_depth_8_only() {
    let pointer = std::mem::size_of::<usize>() as u8;
    let sep = format(DISPLAY_COLORS_SEPARATION | DISPLAY_DEPTH_8);
    assert_eq!(components_per_pixel(sep), Some(pointer));
    assert_eq!(bits_per_pixel(sep), Some(pointer * 8));
    for (depth, bits) in DEPTHS.iter() {
        if *bits != 8 {
            assert_eq!(components_per_pixel(format(DISPLAY_COLORS_SEPARATION | depth)), None);
        }
    }
    assert_eq!(components_per_pixel(format(DISPLAY_COLORS_SEPARATION)), None);
}

#[test]
fn depth_decodes_exactly_one_depth_bit() {
    for (depth, bits) in DEPTHS.iter() {
        assert_eq!(depth_bits(format(*depth)), Some(*bits));
        assert_eq!(depth_bits(format(*depth | DISPLAY_COLORS_RGB | DISPLAY_ROW_ALIGN_64)), Some(*bits));
    }
    assert_eq!(depth_bits(format(0)), None);
    assert_eq!(depth_bits(format(DISPLAY_DEPTH_1 | DISPLAY_DEPTH_8)), None);
    assert_eq!(depth_bits(format(1 << 14)), None);
    assert_eq!(depth_bits(format(1 << 15)), None);
}

#[test]
fn unknown_bits_are_dropped_or_refused() {
    assert_eq!(format(u32::MAX).bits(), DISPLAY_ALL_BITS);
    assert_eq!(format(0x8000_0004).bits(), 4);
    assert_eq!(DisplayFormat::from_bits(0x8000_0004), None);
    assert_eq!(DisplayFormat::from_bits(0x0080_0000), None);
    assert_eq!(DisplayFormat::from_bits(0x804).map(|f| f.bits()), Some(0x804));
    assert_eq!(DisplayFormat::all().bits(), DISPLAY_ALL_BITS);
    assert_eq!(DisplayFormat::empty().bits(), 0);
    assert_eq!(DisplayFormat::default().bits(), 0);
    assert!(DisplayFormat::empty().is_empty());
    assert!(!format(1).is_empty());
}

#[test]
fn formats_combine_as_sets_of_bits() {
    let rgb = format(DISPLAY_COLORS_RGB);
    let deep = format(DISPLAY_DEPTH_8);
    let both = rgb.union(deep);
    assert_eq!(both.bits(), DISPLAY_COLORS_RGB | DISPLAY_DEPTH_8);
    assert!(both.contains(rgb));
    assert!(both.contains(deep));
    assert!(!rgb.contains(deep));
    assert_eq!(both.intersection(format(DISPLAY_COLORS_MASK)).bits(), DISPLAY_COLORS_RGB);
    assert_eq!(both.intersection(format(DISPLAY_DEPTH_MASK)), deep);
}

#[test]
fn format_as_init_arg_is_prefix_and_lower_case_hex() {
    assert_eq!(format(0).format_as_init_arg(), "-dDisplayFormat=16#0");
    assert_eq!(
        format(DISPLAY_COLORS_RGB | DISPLAY_DEPTH_8).format_as_init_arg(),
        "-dDisplayFormat=16#804"
    );
    assert_eq!(
        format(DISPLAY_COLORS_SEPARATION | DISPLAY_DEPTH_8 | DISPLAY_ROW_ALIGN_64).format_as_init_arg(),
        "-dDisplayFormat=16#780800"
    );
    assert_eq!(DisplayFormat::all().format_as_init_arg(), "-dDisplayFormat=16#7fffff");
    assert_eq!(
        format(DISPLAY_LITTLEENDIAN | DISPLAY_UNUSED_LAST | DISPLAY_COLORS_RGB | DISPLAY_DEPTH_8)
            .format_as_init_arg(),
        "-dDisplayFormat=16#10884"
    );
}
