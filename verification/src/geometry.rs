use crate::graphics::{KEYBOARD_LEFT, KEYBOARD_RISE, PADDING_PIXELS, WINDOW_HEIGHT};
use crate::keyboard::{
    in_layout, keys_spec, row_five_spec, row_four_spec, row_one_spec, row_six_spec,
    row_three_spec, row_two_spec, rows_of, VisualKeybdKeyHolder,
};
use vstd::prelude::*;

verus! {

/// Where a key cap lies in the window before the keyboard is turned to face the
/// character. All four numbers count half pixels, from the top left corner.
#[derive(Clone, Copy, Debug, PartialEq, Eq, Structural)]
pub struct CapRect {
    pub min_x: u64,
    pub min_y: u64,
    pub max_x: u64,
    pub max_y: u64,
}

/// How far a key cap pushes the caps to its left, in whole pixels: a letter key
/// pushes by `PADDING_PIXELS`, and a fraction of a pixel is dropped.
pub open spec fn advance(cap: VisualKeybdKeyHolder) -> int {
    (PADDING_PIXELS * cap.size) / 4
}

/// How far the cap at column `x` of `row` lies from the start of the row, in whole
/// pixels. The keyboard is seen from behind, so the row is laid out from its last
/// cap: a cap is pushed by every cap that comes after it.
pub open spec fn col_offset(row: Seq<VisualKeybdKeyHolder>, x: int) -> int
    decreases row.len() - x,
{
    if x + 1 >= row.len() {
        0
    } else {
        advance(row[x + 1]) + col_offset(row, x + 1)
    }
}

/// How far row `y` lies from the top of the keyboard, in whole pixels. Seen from
/// behind, the last row of the layout is the topmost.
pub open spec fn row_offset(row_count: int, y: int) -> int {
    PADDING_PIXELS * (row_count - 1 - y)
}

/// Width of a cap of the given size, in half pixels. A letter key is
/// `PADDING_PIXELS` wide, and other caps in proportion.
pub open spec fn width_spec(size: u64) -> int {
    (2 * PADDING_PIXELS * size) / 4
}

/// Left edge of the cap at column `x` of `row`, in half pixels.
pub open spec fn min_x_spec(row: Seq<VisualKeybdKeyHolder>, x: int) -> int {
    2 * (KEYBOARD_LEFT + col_offset(row, x))
}

/// Right edge of the cap at column `x` of `row`, in half pixels.
pub open spec fn max_x_spec(row: Seq<VisualKeybdKeyHolder>, x: int) -> int {
    min_x_spec(row, x) + width_spec(row[x].size)
}

/// Top edge of the caps of row `y`, in half pixels.
pub open spec fn min_y_spec(row_count: int, y: int) -> int {
    2 * (WINDOW_HEIGHT - KEYBOARD_RISE + row_offset(row_count, y))
}

/// Bottom edge of the caps of row `y`, in half pixels.
pub open spec fn max_y_spec(row_count: int, y: int) -> int {
    min_y_spec(row_count, y) + 2 * PADDING_PIXELS
}

/// Every cap of the layout lies where a `CapRect` can say.
pub open spec fn fits(rows: Seq<Seq<VisualKeybdKeyHolder>>) -> bool {
    forall|y: int, x: int| #[trigger]
        in_layout(rows, y, x) ==> max_x_spec(rows[y], x) <= u64::MAX && max_y_spec(
            rows.len() as int,
            y,
        ) <= u64::MAX
}

/// `rect` is where the cap at column `x` of row `y` lies.
pub open spec fn is_rect_of(
    rect: CapRect,
    rows: Seq<Seq<VisualKeybdKeyHolder>>,
    y: int,
    x: int,
) -> bool {
    &&& rect.min_x == min_x_spec(rows[y], x)
    &&& rect.max_x == max_x_spec(rows[y], x)
    &&& rect.min_y == min_y_spec(rows.len() as int, y)
    &&& rect.max_y == max_y_spec(rows.len() as int, y)
}

/// `rects` holds, for each cap of the layout, where that cap lies.
pub open spec fn rects_match(rows: Seq<Seq<VisualKeybdKeyHolder>>, rects: Seq<Vec<CapRect>>) -> bool {
    &&& rects.len() == rows.len()
    &&& forall|y: int| 0 <= y < rows.len() ==> (#[trigger] rects[y])@.len() == rows[y].len()
    &&& forall|y: int, x: int| #[trigger]
        in_layout(rows, y, x) ==> is_rect_of(rects[y]@[x], rows, y, x)
}

/// Works out the width of a cap, in half pixels.
fn cap_width(size: u64) -> (width: u128)
    ensures
        width == width_spec(size),
{
    let doubled: u128 = 2 * PADDING_PIXELS as u128;
    assert(doubled == 20);
    doubled * (size as u128) / 4
}

/// Works out how far a cap pushes the caps to its left, in whole pixels.
fn cap_advance(cap: &VisualKeybdKeyHolder) -> (pixels: u128)
    ensures
        pixels == advance(*cap),
{
    let padding: u128 = PADDING_PIXELS as u128;
    assert(padding == 10);
    padding * (cap.size as u128) / 4
}

/// Lays out the key caps of one row, from the last cap to the first. `None` means
/// that some cap of the row lies too far out for a `CapRect`.
fn row_rects(
    layout: &Vec<Vec<VisualKeybdKeyHolder>>,
    y: usize,
    min_y: u64,
    max_y: u64,
) -> (rects: Option<Vec<CapRect>>)
    requires
        y < layout@.len(),
        min_y == min_y_spec(layout@.len() as int, y as int),
        max_y == max_y_spec(layout@.len() as int, y as int),
    ensures
        match rects {
            Some(found) => {
                &&& found@.len() == layout@[y as int]@.len()
                &&& forall|x: int|
                    0 <= x < found@.len() ==> is_rect_of(
                        #[trigger] found@[x],
                        rows_of(layout@),
                        y as int,
                        x,
                    )
            },
            None => exists|x: int|
                0 <= x < layout@[y as int]@.len() && max_x_spec(layout@[y as int]@, x) > u64::MAX,
        },
{
    let row = &layout[y];
    let ghost caps = row@;
    let ghost rows = rows_of(layout@);
    let mut rects: Vec<CapRect> = Vec::new();
    let mut col_off: u64 = 0;
    let mut x: usize = row.len();
    while x > 0
        invariant
            caps == layout@[y as int]@,
            caps == row@,
            rows == rows_of(layout@),
            y < layout@.len(),
            min_y == min_y_spec(layout@.len() as int, y as int),
            max_y == max_y_spec(layout@.len() as int, y as int),
            x <= caps.len(),
            x > 0 ==> col_off == col_offset(caps, x - 1),
            rects@.len() == caps.len() - x,
            forall|k: int|
                0 <= k < rects@.len() ==> is_rect_of(#[trigger] rects@[k], rows, y as int, x + k),
        decreases x,
    {
        x = x - 1;
        let cap = &row[x];
        let min_x: u128 = 2 * (KEYBOARD_LEFT as u128 + col_off as u128);
        let max_x: u128 = min_x + cap_width(cap.size);
        assert(rows[y as int] == caps);
        if max_x > u64::MAX as u128 {
            assert(max_x_spec(caps, x as int) > u64::MAX);
            return None;
        }
        let ghost before = rects@;
        rects.insert(0, CapRect { min_x: min_x as u64, min_y, max_x: max_x as u64, max_y });
        assert forall|k: int| 0 <= k < rects@.len() implies is_rect_of(
            #[trigger] rects@[k],
            rows,
            y as int,
            x + k,
        ) by {
            if k > 0 {
                assert(rects@[k] == before[k - 1]);
            }
        }
        if x > 0 {
            let next: u128 = col_off as u128 + cap_advance(cap);
            if next > u64::MAX as u128 {
                assert(max_x_spec(caps, x - 1) > u64::MAX);
                return None;
            }
            col_off = next as u64;
        }
    }
    Some(rects)
}

/// Lays out the key caps of the on-screen keyboard: for each cap of the layout,
/// where it lies before the keyboard is turned. `None` means that the layout is
/// too large for the window's coordinates, which is so exactly if some cap does
/// not fit.
pub fn cap_rects(layout: &Vec<Vec<VisualKeybdKeyHolder>>) -> (rects: Option<Vec<Vec<CapRect>>>)
    ensures
        match rects {
            Some(found) => fits(rows_of(layout@)) && rects_match(rows_of(layout@), found@),
            None => !fits(rows_of(layout@)),
        },
{
    let ghost rows = rows_of(layout@);
    let row_count = layout.len();
    let mut rects: Vec<Vec<CapRect>> = Vec::new();
    let mut y: usize = 0;
    while y < row_count
        invariant
            rows == rows_of(layout@),
            row_count == layout@.len(),
            y <= row_count,
            rects@.len() == y,
            forall|j: int| 0 <= j < y ==> (#[trigger] rects@[j])@.len() == rows[j].len(),
            forall|j: int, x: int|
                0 <= j < y && 0 <= x < rows[j].len() ==> is_rect_of(
                    #[trigger] rects@[j]@[x],
                    rows,
                    j,
                    x,
                ),
        decreases row_count - y,
    {
        if layout[y].len() == 0 {
            rects.push(Vec::new());
        } else {
            let row_off: u128 = PADDING_PIXELS as u128 * ((row_count - 1 - y) as u128);
            let min_y: u128 = 2 * ((WINDOW_HEIGHT - KEYBOARD_RISE) as u128 + row_off);
            let max_y: u128 = min_y + 2 * PADDING_PIXELS as u128;
            if max_y > u64::MAX as u128 {
                assert(in_layout(rows, y as int, 0));
                return None;
            }
            match row_rects(layout, y, min_y as u64, max_y as u64) {
                Some(row) => {
                    rects.push(row);
                },
                None => {
                    proof {
                        let x = choose|x: int|
                            0 <= x < layout@[y as int]@.len() && max_x_spec(layout@[y as int]@, x)
                                > u64::MAX;
                        assert(in_layout(rows, y as int, x));
                    }
                    return None;
                },
            }
        }
        y = y + 1;
    }
    assert forall|j: int, x: int| #[trigger] in_layout(rows, j, x) implies max_x_spec(rows[j], x)
        <= u64::MAX && max_y_spec(rows.len() as int, j) <= u64::MAX by {
        assert(is_rect_of(rects@[j]@[x], rows, j, x));
    }
    Some(rects)
}

/// No cap of the on-screen keyboard is wider than this many quarters of a letter key.
pub const WIDEST_CAP: u64 = 24;

/// No cap of `row` is wider than `WIDEST_CAP`.
pub open spec fn caps_within(row: Seq<VisualKeybdKeyHolder>) -> bool {
    forall|x: int| 0 <= x < row.len() ==> (#[trigger] row[x]).size <= WIDEST_CAP
}

/// In a row of caps no wider than `WIDEST_CAP`, a cap is pushed by at most 60
/// pixels for each cap that comes after it.
pub proof fn lemma_col_offset_bound(row: Seq<VisualKeybdKeyHolder>, x: int)
    requires
        caps_within(row),
        0 <= x < row.len(),
    ensures
        0 <= col_offset(row, x) <= 60 * (row.len() - 1 - x),
    decreases row.len() - x,
{
    if x + 1 < row.len() {
        lemma_col_offset_bound(row, x + 1);
        assert(row[x + 1].size <= WIDEST_CAP);
    }
}

/// The on-screen keyboard fits the window's coordinates, so laying it out always
/// gives a rect for every cap.
pub proof fn lemma_keyboard_fits()
    ensures
        fits(keys_spec()),
{
    let rows = keys_spec();
    assert(caps_within(row_one_spec()));
    assert(caps_within(row_two_spec()));
    assert(caps_within(row_three_spec()));
    assert(caps_within(row_four_spec()));
    assert(caps_within(row_five_spec()));
    assert(caps_within(row_six_spec()));
    assert forall|y: int, x: int| #[trigger] in_layout(rows, y, x) implies max_x_spec(rows[y], x)
        <= u64::MAX && max_y_spec(rows.len() as int, y) <= u64::MAX by {
        assert(rows.len() == 6);
        assert(caps_within(rows[y]) && rows[y].len() <= 23) by {
            if y == 0 {
                assert(rows[y] == row_one_spec());
            } else if y == 1 {
                assert(rows[y] == row_two_spec());
            } else if y == 2 {
                assert(rows[y] == row_three_spec());
            } else if y == 3 {
                assert(rows[y] == row_four_spec());
            } else if y == 4 {
                assert(rows[y] == row_five_spec());
            } else {
                assert(rows[y] == row_six_spec());
            }
        }
        lemma_col_offset_bound(rows[y], x);
        assert(rows[y][x].size <= WIDEST_CAP);
    }
}

} // verus!
