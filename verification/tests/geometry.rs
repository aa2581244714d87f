use bongocat_rs::geometry::{cap_rects, CapRect};
use bongocat_rs::graphics::{
    KEYBOARD_LEFT, KEYBOARD_RISE, PADDING_PIXELS, WINDOW_HEIGHT, WINDOW_WIDTH,
};
use bongocat_rs::key::LogicalKey;
use bongocat_rs::keyboard::{keys, VisualKeybdKeyHolder};

fn cap(size: u64) -> VisualKeybdKeyHolder {
    VisualKeybdKeyHolder { size, key: LogicalKey::AKey, name: "A" }
}

#[test]
fn window_measures() {
    assert_eq!(WINDOW_WIDTH, 250);
    assert_eq!(WINDOW_HEIGHT, 250);
    assert_eq!(PADDING_PIXELS, 10);
    assert_eq!(KEYBOARD_LEFT, 4);
    assert_eq!(KEYBOARD_RISE, 95);
}

#[test]
fn the_keyboard_is_laid_out_from_its_last_cap() {
    let layout = keys();
    let rects = cap_rects(&layout).unwrap();
    assert_eq!(rects.len(), layout.len());
    for (row, caps) in rects.iter().zip(&layout) {
        assert_eq!(row.len(), caps.len());
    }
    assert_eq!(rects[5][14], CapRect { min_x: 8, min_y: 310, max_x: 28, max_y: 330 });
    assert_eq!(rects[5][13], CapRect { min_x: 28, min_y: 310, max_x: 48, max_y: 330 });
    assert_eq!(rects[5][12], CapRect { min_x: 48, min_y: 310, max_x: 88, max_y: 330 });
    assert_eq!(rects[5][0], CapRect { min_x: 438, min_y: 310, max_x: 468, max_y: 330 });
    assert_eq!(rects[0][20], CapRect { min_x: 8, min_y: 410, max_x: 98, max_y: 430 });
    assert_eq!(rects[0][19], CapRect { min_x: 98, min_y: 410, max_x: 118, max_y: 430 });
    assert_eq!(rects[0][0], CapRect { min_x: 448, min_y: 410, max_x: 468, max_y: 430 });
    assert_eq!(rects[3][0], CapRect { min_x: 432, min_y: 350, max_x: 467, max_y: 370 });
    assert_eq!(rects[2][9], CapRect { min_x: 258, min_y: 370, max_x: 278, max_y: 390 });
    assert_eq!(rects[4][11], CapRect { min_x: 168, min_y: 330, max_x: 218, max_y: 350 });
    assert_eq!(rects[1][13], CapRect { min_x: 168, min_y: 390, max_x: 208, max_y: 410 });
}

#[test]
fn a_fraction_of_a_pixel_is_dropped_from_the_advance_but_not_from_the_width() {
    let layout = vec![vec![cap(4), cap(7), cap(1)]];
    let rects = cap_rects(&layout).unwrap();
    assert_eq!(rects[0][2], CapRect { min_x: 8, min_y: 310, max_x: 13, max_y: 330 });
    assert_eq!(rects[0][1], CapRect { min_x: 12, min_y: 310, max_x: 47, max_y: 330 });
    assert_eq!(rects[0][0], CapRect { min_x: 46, min_y: 310, max_x: 66, max_y: 330 });
}

#[test]
fn empty_layouts_and_rows_have_no_rects() {
    assert_eq!(cap_rects(&Vec::new()), Some(Vec::new()));
    let layout = vec![Vec::new(), vec![cap(4)], Vec::new()];
    let rects = cap_rects(&layout).unwrap();
    assert_eq!(rects[0], Vec::new());
    assert_eq!(rects[1], vec![CapRect { min_x: 8, min_y: 330, max_x: 28, max_y: 350 }]);
    assert_eq!(rects[2], Vec::new());
}

#[test]
fn a_cap_that_lies_too_far_out_has_no_rect() {
    assert_eq!(cap_rects(&vec![vec![cap(u64::MAX)]]), None);
    assert_eq!(cap_rects(&vec![vec![cap(4), cap(u64::MAX / 2)]]), None);
    assert_eq!(cap_rects(&vec![vec![cap(4)], vec![cap(4), cap(4), cap(u64::MAX / 4)]]), None);
    let widest = (u64::MAX - 8) / 5;
    let rects = cap_rects(&vec![vec![cap(widest)]]).unwrap();
    assert_eq!(rects[0][0].max_x, 8 + 5 * widest);
    assert_eq!(cap_rects(&vec![vec![cap(widest + 1)]]), None);
    assert!(cap_rects(&vec![vec![cap(u64::MAX / 3), cap(0)]]).is_none());
}
