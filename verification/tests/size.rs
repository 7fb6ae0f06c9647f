use terminal_size::{Height, PixelSize, Width};

#[test]
fn width_addition_adds_columns() {
    assert_eq!(Width(3) + Width(4), Width(7));
    assert_eq!(Width(0) + Width(0), Width(0));
    assert_eq!(Width(65535) + Width(0), Width(65535));
    assert_eq!(Width(65534) + Width(1), Width(65535));
}

#[test]
fn height_addition_adds_rows() {
    assert_eq!(Height(24) + Height(1), Height(25));
    assert_eq!(Height(32768) + Height(32767), Height(65535));
}

#[test]
fn width_subtraction_takes_columns_away() {
    assert_eq!(Width(80) - Width(2), Width(78));
    assert_eq!(Width(80) - Width(80), Width(0));
    assert_eq!(Width(65535) - Width(0), Width(65535));
}

#[test]
fn height_subtraction_takes_rows_away() {
    assert_eq!(Height(24) - Height(1), Height(23));
    assert_eq!(Height(1) - Height(1), Height(0));
}

#[test]
fn width_scaling_multiplies_columns() {
    assert_eq!(Width(40) * 2, Width(80));
    assert_eq!(Width(80) * 0, Width(0));
    assert_eq!(Width(255) * 257, Width(65535));
}

#[test]
fn height_scaling_multiplies_rows() {
    assert_eq!(Height(12) * 2, Height(24));
    assert_eq!(Height(1) * 65535, Height(65535));
}

#[test]
fn width_division_rounds_down() {
    assert_eq!(Width(80) / 2, Width(40));
    assert_eq!(Width(81) / 2, Width(40));
    assert_eq!(Width(1) / 2, Width(0));
    assert_eq!(Width(65535) / 1, Width(65535));
}

#[test]
fn height_division_rounds_down() {
    assert_eq!(Height(24) / 5, Height(4));
    assert_eq!(Height(24) / 25, Height(0));
}

#[test]
fn sum_then_difference_gives_the_first_back() {
    let a = Width(1234);
    let b = Width(4321);
    assert_eq!((a + b) - b, a);
    let c = Height(7);
    let d = Height(9);
    assert_eq!((c + d) - d, c);
}

#[test]
fn width_round_trip_is_lossless() {
    for raw in [0u16, 1, 80, 255, 256, 32767, 32768, 65535] {
        assert_eq!(u16::from(Width(raw)), raw);
        assert_eq!(Width(u16::from(Width(raw))), Width(raw));
    }
}

#[test]
fn height_round_trip_is_lossless() {
    for raw in [0u16, 1, 24, 255, 256, 32767, 32768, 65535] {
        assert_eq!(u16::from(Height(raw)), raw);
        assert_eq!(Height(u16::from(Height(raw))), Height(raw));
    }
}

#[test]
fn conversion_works_through_into() {
    let columns: u16 = Width(132).into();
    let rows: u16 = Height(43).into();
    assert_eq!(columns, 132);
    assert_eq!(rows, 43);
}

#[test]
fn widths_are_ordered_by_columns() {
    assert!(Width(79) < Width(80));
    assert!(Width(80) <= Width(80));
    assert!(Width(81) > Width(80));
    assert!(Width(80) >= Width(80));
    assert!(!(Width(80) < Width(80)));
    assert_eq!(Width(1).partial_cmp(&Width(2)), Some(std::cmp::Ordering::Less));
    assert_eq!(Width(2).partial_cmp(&Width(2)), Some(std::cmp::Ordering::Equal));
    assert_eq!(Width(3).partial_cmp(&Width(2)), Some(std::cmp::Ordering::Greater));
    assert_eq!(Width(3).cmp(&Width(2)), std::cmp::Ordering::Greater);
    assert_eq!(Width(3).max(Width(9)), Width(9));
    assert_eq!(Width(3).min(Width(9)), Width(3));
}

#[test]
fn heights_are_ordered_by_rows() {
    assert!(Height(23) < Height(24));
    assert!(Height(24) <= Height(24));
    assert!(Height(25) > Height(24));
    assert!(!(Height(24) > Height(24)));
    assert_eq!(Height(0).partial_cmp(&Height(65535)), Some(std::cmp::Ordering::Less));
    assert_eq!(Height(7).partial_cmp(&Height(7)), Some(std::cmp::Ordering::Equal));
    assert_eq!(Height(65535).partial_cmp(&Height(0)), Some(std::cmp::Ordering::Greater));
    assert_eq!(Height(5).cmp(&Height(6)), std::cmp::Ordering::Less);
}

#[test]
fn hand_written_order_agrees_with_the_total_order() {
    for a in [0u16, 1, 2, 80, 65534, 65535] {
        for b in [0u16, 1, 2, 80, 65534, 65535] {
            assert_eq!(Width(a).partial_cmp(&Width(b)), Some(Width(a).cmp(&Width(b))));
            assert_eq!(Height(a).partial_cmp(&Height(b)), Some(Height(a).cmp(&Height(b))));
            assert_eq!(Width(a).cmp(&Width(b)), a.cmp(&b));
            assert_eq!(Height(a).cmp(&Height(b)), a.cmp(&b));
        }
    }
}

#[test]
fn equality_compares_the_raw_counts() {
    assert_eq!(Width(80), Width(80));
    assert_ne!(Width(80), Width(81));
    assert_eq!(Height(24), Height(24));
    assert_ne!(Height(24), Height(25));
    assert_eq!(PixelSize { x: 640, y: 480 }, PixelSize { x: 640, y: 480 });
    assert_ne!(PixelSize { x: 640, y: 480 }, PixelSize { x: 480, y: 640 });
}

#[test]
fn values_are_copied_not_moved() {
    let width = Width(80);
    let copy = width;
    assert_eq!(width, copy);
    let height = Height(24);
    let clone = height.clone();
    assert_eq!(height, clone);
}

#[test]
fn width_is_shown_with_its_tag() {
    assert_eq!(Width(80).to_string(), "Width: 80");
    assert_eq!(Width(0).to_string(), "Width: 0");
    assert_eq!(Width(9).to_string(), "Width: 9");
    assert_eq!(Width(10).to_string(), "Width: 10");
    assert_eq!(Width(65535).to_string(), "Width: 65535");
}

#[test]
fn height_is_shown_with_its_tag() {
    assert_eq!(Height(24).to_string(), "Height: 24");
    assert_eq!(Height(0).to_string(), "Height: 0");
    assert_eq!(Height(100).to_string(), "Height: 100");
    assert_eq!(Height(1001).to_string(), "Height: 1001");
    assert_eq!(Height(65535).to_string(), "Height: 65535");
}

#[test]
fn decimal_numerals_match_the_standard_ones() {
    for number in [0u16, 1, 9, 10, 11, 99, 100, 101, 999, 1000, 9999, 10000, 12345, 60000, 65535] {
        assert_eq!(terminal_size::decimal::decimal_string(number), format!("{}", number));
    }
}

#[test]
fn debug_output_names_the_type() {
    assert_eq!(format!("{:?}", Width(80)), "Width(80)");
    assert_eq!(format!("{:?}", Height(24)), "Height(24)");
}
