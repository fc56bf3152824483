use tgs::tgs_display::{segments, Segments};

const DARK: Segments = Segments {
    top: false,
    upper_right: false,
    lower_right: false,
    bottom: false,
    lower_left: false,
    upper_left: false,
    middle: false,
};

#[test]
fn zero_lights_nothing() {
    assert_eq!(segments(0), DARK);
}

#[test]
fn top_bit_lights_nothing() {
    assert_eq!(segments(0x80), DARK);
}

#[test]
fn each_bit_lights_its_segment() {
    assert_eq!(segments(0x01), Segments { top: true, ..DARK });
    assert_eq!(segments(0x02), Segments { upper_right: true, ..DARK });
    assert_eq!(segments(0x04), Segments { lower_right: true, ..DARK });
    assert_eq!(segments(0x08), Segments { bottom: true, ..DARK });
    assert_eq!(segments(0x10), Segments { lower_left: true, ..DARK });
    assert_eq!(segments(0x20), Segments { upper_left: true, ..DARK });
    assert_eq!(segments(0x40), Segments { middle: true, ..DARK });
}

#[test]
fn digit_one_and_digit_eight() {
    assert_eq!(segments(0x06), Segments { upper_right: true, lower_right: true, ..DARK });
    let all = Segments {
        top: true,
        upper_right: true,
        lower_right: true,
        bottom: true,
        lower_left: true,
        upper_left: true,
        middle: true,
    };
    assert_eq!(segments(0x7F), all);
    assert_eq!(segments(0xFF), all);
}

#[test]
fn letters_of_the_demo() {
    // 116 = 0b0111_0100 and 6 = 0b0000_0110, the two bytes the demo shows.
    assert_eq!(
        segments(116),
        Segments { lower_right: true, lower_left: true, upper_left: true, middle: true, ..DARK }
    );
    assert_eq!(segments(6), Segments { upper_right: true, lower_right: true, ..DARK });
}
