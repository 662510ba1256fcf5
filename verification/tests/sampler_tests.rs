use sampler::color::{color_label, rgb_channels, u8_decimal, Color, ImageType};
use sampler::geometry::{area, filter_large, Point, Rectangle, Shape};
use sampler::sequences::{count_up, countdown, even_numbers, parity_label};

#[test]
fn area_of_four_by_three() {
    assert_eq!(area(4, 3), 12);
}

#[test]
fn area_of_zero_by_zero() {
    assert_eq!(area(0, 0), 0);
}

#[test]
fn area_is_commutative_on_samples() {
    assert_eq!(area(7, 9), area(9, 7));
    assert_eq!(area(1, 250), area(250, 1));
    assert_eq!(area(0, 1000), area(1000, 0));
}

#[test]
fn rectangle_method_matches_standalone_area() {
    let rect = Rectangle {
        width: 3,
        height: 4,
    };
    assert_eq!(rect.area(), 12);
    assert_eq!(rect.area(), area(3, 4));
}

#[test]
fn shape_capability_reports_rectangle_area() {
    let rect = Rectangle {
        width: 3,
        height: 4,
    };
    assert_eq!(Shape::area(&rect), 12);
}

#[test]
fn small_rectangle_is_filtered_out() {
    let filtered = filter_large(&vec![(3, 4)]);
    assert!(filtered.is_empty());
}

#[test]
fn large_rectangle_is_kept() {
    let filtered = filter_large(&vec![(20, 20)]);
    assert_eq!(
        filtered,
        vec![Rectangle {
            width: 20,
            height: 20,
        }]
    );
}

#[test]
fn filter_keeps_input_order_of_large_rectangles() {
    let filtered = filter_large(&vec![(11, 10), (1, 1), (20, 20), (10, 10)]);
    assert_eq!(
        filtered,
        vec![
            Rectangle {
                width: 11,
                height: 10,
            },
            Rectangle {
                width: 20,
                height: 20,
            },
        ]
    );
}

#[test]
fn filter_of_empty_input_is_empty() {
    let filtered = filter_large(&vec![]);
    assert!(filtered.is_empty());
}

#[test]
fn threshold_area_is_not_large() {
    let filtered = filter_large(&vec![(10, 10)]);
    assert!(filtered.is_empty());
}

#[test]
fn even_numbers_of_one_to_ten() {
    assert_eq!(even_numbers(1, 10), vec![2, 4, 6, 8]);
}

#[test]
fn even_numbers_restart_from_the_beginning() {
    let first = even_numbers(1, 10);
    let second = even_numbers(1, 10);
    assert_eq!(first, second);
    assert_eq!(second, vec![2, 4, 6, 8]);
}

#[test]
fn even_numbers_of_empty_range() {
    assert_eq!(even_numbers(5, 5), Vec::<u32>::new());
    assert_eq!(even_numbers(9, 2), Vec::<u32>::new());
}

#[test]
fn even_numbers_include_even_lower_bound() {
    assert_eq!(even_numbers(2, 3), vec![2]);
    assert_eq!(even_numbers(0, 5), vec![0, 2, 4]);
}

#[test]
fn countdown_from_three() {
    assert_eq!(countdown(3), vec![3, 2, 1]);
}

#[test]
fn countdown_never_reaches_zero() {
    for v in countdown(25) {
        assert_ne!(v, 0);
    }
}

#[test]
fn countdown_from_zero_is_empty() {
    assert_eq!(countdown(0), Vec::<u32>::new());
}

#[test]
fn count_up_over_one_to_four() {
    assert_eq!(count_up(1, 4), vec![1, 2, 3]);
}

#[test]
fn count_up_over_empty_range() {
    assert_eq!(count_up(4, 4), Vec::<u32>::new());
    assert_eq!(count_up(7, 2), Vec::<u32>::new());
}

#[test]
fn parity_labels() {
    assert_eq!(parity_label(3), "odd");
    assert_eq!(parity_label(4), "even");
    assert_eq!(parity_label(0), "even");
}

#[test]
fn red_color_label() {
    assert_eq!(color_label(&Color::Rgb(255, 0, 0)), "255/0/0");
}

#[test]
fn transparent_color_label() {
    assert_eq!(color_label(&Color::Transparent), "No Color");
}

#[test]
fn mixed_color_label() {
    assert_eq!(color_label(&Color::Rgb(7, 42, 108)), "7/42/108");
}

#[test]
fn rgb_channels_of_red() {
    assert_eq!(rgb_channels(&Color::Rgb(255, 0, 0)), Some((255, 0, 0)));
}

#[test]
fn rgb_channels_of_transparent() {
    assert_eq!(rgb_channels(&Color::Transparent), None);
}

#[test]
fn decimal_strings_of_u8() {
    assert_eq!(u8_decimal(0), "0");
    assert_eq!(u8_decimal(7), "7");
    assert_eq!(u8_decimal(10), "10");
    assert_eq!(u8_decimal(42), "42");
    assert_eq!(u8_decimal(100), "100");
    assert_eq!(u8_decimal(255), "255");
}

#[test]
fn image_type_tags_are_distinct() {
    assert_ne!(ImageType::Png, ImageType::Jpeg);
    assert_ne!(ImageType::Jpeg, ImageType::Tiff);
    assert_eq!(ImageType::Png, ImageType::Png);
}

#[test]
fn point_holds_integer_coordinates() {
    let integer = Point::new(5, 10);
    assert_eq!(integer.x, 5);
    assert_eq!(integer.y, 10);
}

#[test]
fn point_holds_float_coordinates() {
    let float = Point::new(1.0, 4.0);
    assert_eq!(float.x, 1.0);
    assert_eq!(float.y, 4.0);
}
