use crate::key::LogicalKey;
use crate::keyboard::{in_layout, rows_of, VisualKeybdKeyHolder};
use crate::keystroke::KeystrokeState;
use crate::registry::Registry;
use vstd::prelude::*;

verus! {

/// A named key belongs to the left half of the keyboard if its column is below this.
pub const NAMED_LEFT_COLUMNS: usize = 8;

/// A key known by raw code belongs to the left half if its column is below this.
pub const OTHER_LEFT_COLUMNS: usize = 10;

/// How one key cap is drawn in a frame.
#[derive(Clone, Copy, Debug, PartialEq, Eq, Structural)]
pub struct KeyPaint {
    /// Whether the outline of the cap is drawn. Gaps have none.
    pub outlined: bool,
    /// Whether the cap is filled in, because its key is lit.
    pub lit: bool,
}

/// What a frame shows: every key cap, what the two halves of the keyboard are
/// doing, whether a key that opens the mouth is down, and the running total.
pub struct Frame {
    /// One entry for each cap of the layout, in the layout's order.
    pub caps: Vec<Vec<KeyPaint>>,
    pub left_side_down: bool,
    pub right_side_down: bool,
    pub is_o_face: bool,
    pub keystrokes: u64,
}

/// Something that a lit key cap tells about the frame.
pub enum Mark {
    /// A key of the left half is down.
    LeftSide,
    /// A key of the right half is down.
    RightSide,
    /// A key that opens the mouth is down.
    Mouth,
}

/// The key cap at `column` of its row belongs to the left half of the keyboard.
pub open spec fn on_left_spec(key: LogicalKey, column: int) -> bool {
    if key.is_other_spec() {
        column < OTHER_LEFT_COLUMNS
    } else {
        column < NAMED_LEFT_COLUMNS
    }
}

/// Tells whether the key cap at `column` of its row belongs to the left half.
pub fn on_left(key: &LogicalKey, column: usize) -> (left: bool)
    ensures
        left == on_left_spec(*key, column as int),
{
    if key.is_other() {
        column < OTHER_LEFT_COLUMNS
    } else {
        column < NAMED_LEFT_COLUMNS
    }
}

/// A frame shows `key` lit: the registry has it lit, and it is no decoration. A
/// gap or an unbound cap stays dark in every frame, whatever the registry holds.
pub open spec fn glows(m: Registry, key: LogicalKey) -> bool {
    !key.is_decoration_spec() && m.is_lit(key)
}

/// How the key cap `cap` is drawn.
pub open spec fn paint_spec(m: Registry, cap: VisualKeybdKeyHolder) -> KeyPaint {
    KeyPaint { outlined: !cap.key.is_spacer_spec(), lit: glows(m, cap.key) }
}

/// The key cap `cap` at `column` of its row is shown lit and tells `mark`.
pub open spec fn cap_shows(m: Registry, cap: VisualKeybdKeyHolder, column: int, mark: Mark) -> bool {
    glows(m, cap.key) && match mark {
        Mark::LeftSide => on_left_spec(cap.key, column),
        Mark::RightSide => !on_left_spec(cap.key, column),
        Mark::Mouth => cap.key.is_mouth_trigger_spec(),
    }
}

/// Some key cap of the layout is lit and tells `mark`.
pub open spec fn shown(m: Registry, rows: Seq<Seq<VisualKeybdKeyHolder>>, mark: Mark) -> bool {
    exists|y: int, x: int| in_layout(rows, y, x) && #[trigger] cap_shows(m, rows[y][x], x, mark)
}

/// Some key cap that comes before column `x_end` of row `y_end` is lit and tells `mark`.
pub open spec fn shown_before(
    m: Registry,
    rows: Seq<Seq<VisualKeybdKeyHolder>>,
    mark: Mark,
    y_end: int,
    x_end: int,
) -> bool {
    exists|y: int, x: int|
        in_layout(rows, y, x) && (y < y_end || (y == y_end && x < x_end)) && #[trigger] cap_shows(
            m,
            rows[y][x],
            x,
            mark,
        )
}

/// The caps of a frame, row by row.
pub open spec fn paints_of(caps: Seq<Vec<KeyPaint>>) -> Seq<Seq<KeyPaint>> {
    Seq::new(caps.len(), |y: int| caps[y]@)
}

/// `paints` holds, for each cap of the layout, how that cap is drawn.
pub open spec fn paints_match(
    m: Registry,
    rows: Seq<Seq<VisualKeybdKeyHolder>>,
    paints: Seq<Seq<KeyPaint>>,
) -> bool {
    &&& paints.len() == rows.len()
    &&& forall|y: int| 0 <= y < rows.len() ==> (#[trigger] paints[y]).len() == rows[y].len()
    &&& forall|y: int, x: int|
        in_layout(rows, y, x) ==> #[trigger] paints[y][x] == paint_spec(m, rows[y][x])
}

/// Looks at the registry once and works out what the next frame shows: which
/// caps are lit, which halves of the keyboard are down, and whether the mouth is
/// open.
pub fn scan(state: &KeystrokeState, layout: &Vec<Vec<VisualKeybdKeyHolder>>) -> (frame: Frame)
    ensures
        paints_match(state@, rows_of(layout@), paints_of(frame.caps@)),
        frame.left_side_down == shown(state@, rows_of(layout@), Mark::LeftSide),
        frame.right_side_down == shown(state@, rows_of(layout@), Mark::RightSide),
        frame.is_o_face == shown(state@, rows_of(layout@), Mark::Mouth),
        frame.keystrokes == state@.keystrokes,
{
    let ghost m = state@;
    let ghost rows = rows_of(layout@);
    let mut caps: Vec<Vec<KeyPaint>> = Vec::new();
    let mut left_side_down = false;
    let mut right_side_down = false;
    let mut is_o_face = false;
    let mut y: usize = 0;
    while y < layout.len()
        invariant
            m == state@,
            rows == rows_of(layout@),
            y <= layout@.len(),
            caps@.len() == y,
            forall|j: int| 0 <= j < y ==> (#[trigger] caps@[j])@.len() == rows[j].len(),
            forall|j: int, x: int|
                0 <= j < y && 0 <= x < rows[j].len() ==> #[trigger] caps@[j]@[x] == paint_spec(
                    m,
                    rows[j][x],
                ),
            left_side_down == shown_before(m, rows, Mark::LeftSide, y as int, 0),
            right_side_down == shown_before(m, rows, Mark::RightSide, y as int, 0),
            is_o_face == shown_before(m, rows, Mark::Mouth, y as int, 0),
        decreases layout@.len() - y,
    {
        let row = &layout[y];
        let mut paints: Vec<KeyPaint> = Vec::new();
        let mut x: usize = 0;
        while x < row.len()
            invariant
                m == state@,
                rows == rows_of(layout@),
                y < layout@.len(),
                *row == layout@[y as int],
                x <= row@.len(),
                paints@.len() == x,
                forall|k: int| 0 <= k < x ==> #[trigger] paints@[k] == paint_spec(m, rows[y as int][k]),
                left_side_down == shown_before(m, rows, Mark::LeftSide, y as int, x as int),
                right_side_down == shown_before(m, rows, Mark::RightSide, y as int, x as int),
                is_o_face == shown_before(m, rows, Mark::Mouth, y as int, x as int),
            decreases row@.len() - x,
        {
            let cap = &row[x];
            let lit = !cap.key.is_decoration() && state.is_lit(&cap.key);
            let left = on_left(&cap.key, x);
            let mouth = cap.key.is_mouth_trigger();
            proof {
                assert(rows[y as int][x as int] == *cap);
                lemma_shown_before_next_cap(m, rows, Mark::LeftSide, y as int, x as int);
                lemma_shown_before_next_cap(m, rows, Mark::RightSide, y as int, x as int);
                lemma_shown_before_next_cap(m, rows, Mark::Mouth, y as int, x as int);
            }
            if lit {
                if left {
                    left_side_down = true;
                } else {
                    right_side_down = true;
                }
                if mouth {
                    is_o_face = true;
                }
            }
            paints.push(KeyPaint { outlined: !cap.key.is_spacer(), lit });
            x = x + 1;
        }
        proof {
            lemma_shown_before_next_row(m, rows, Mark::LeftSide, y as int);
            lemma_shown_before_next_row(m, rows, Mark::RightSide, y as int);
            lemma_shown_before_next_row(m, rows, Mark::Mouth, y as int);
        }
        caps.push(paints);
        y = y + 1;
    }
    proof {
        lemma_shown_before_end(m, rows, Mark::LeftSide);
        lemma_shown_before_end(m, rows, Mark::RightSide);
        lemma_shown_before_end(m, rows, Mark::Mouth);
    }
    Frame { caps, left_side_down, right_side_down, is_o_face, keystrokes: state.total_keystrokes() }
}

/// Taking in the cap at column `x` of row `y` adds what that cap tells.
proof fn lemma_shown_before_next_cap(
    m: Registry,
    rows: Seq<Seq<VisualKeybdKeyHolder>>,
    mark: Mark,
    y: int,
    x: int,
)
    requires
        in_layout(rows, y, x),
    ensures
        shown_before(m, rows, mark, y, x + 1) == (shown_before(m, rows, mark, y, x) || cap_shows(
            m,
            rows[y][x],
            x,
            mark,
        )),
{
    if shown_before(m, rows, mark, y, x + 1) {
        let (j, k) = choose|j: int, k: int|
            in_layout(rows, j, k) && (j < y || (j == y && k < x + 1)) && #[trigger] cap_shows(
                m,
                rows[j][k],
                k,
                mark,
            );
        if !(j == y && k == x) {
            assert(in_layout(rows, j, k) && (j < y || (j == y && k < x)) && cap_shows(
                m,
                rows[j][k],
                k,
                mark,
            ));
        }
    }
    if shown_before(m, rows, mark, y, x) {
        let (j, k) = choose|j: int, k: int|
            in_layout(rows, j, k) && (j < y || (j == y && k < x)) && #[trigger] cap_shows(
                m,
                rows[j][k],
                k,
                mark,
            );
        assert(in_layout(rows, j, k) && (j < y || (j == y && k < x + 1)) && cap_shows(
            m,
            rows[j][k],
            k,
            mark,
        ));
    }
    if cap_shows(m, rows[y][x], x, mark) {
        assert(in_layout(rows, y, x) && (y < y || (y == y && x < x + 1)) && cap_shows(
            m,
            rows[y][x],
            x,
            mark,
        ));
    }
}

/// The end of row `y` is the start of row `y + 1`.
proof fn lemma_shown_before_next_row(
    m: Registry,
    rows: Seq<Seq<VisualKeybdKeyHolder>>,
    mark: Mark,
    y: int,
)
    requires
        0 <= y < rows.len(),
    ensures
        shown_before(m, rows, mark, y, rows[y].len() as int) == shown_before(
            m,
            rows,
            mark,
            y + 1,
            0,
        ),
{
    if shown_before(m, rows, mark, y, rows[y].len() as int) {
        let (j, k) = choose|j: int, k: int|
            in_layout(rows, j, k) && (j < y || (j == y && k < rows[y].len())) && #[trigger] cap_shows(
                m,
                rows[j][k],
                k,
                mark,
            );
        assert(in_layout(rows, j, k) && (j < y + 1 || (j == y + 1 && k < 0)) && cap_shows(
            m,
            rows[j][k],
            k,
            mark,
        ));
    }
    if shown_before(m, rows, mark, y + 1, 0) {
        let (j, k) = choose|j: int, k: int|
            in_layout(rows, j, k) && (j < y + 1 || (j == y + 1 && k < 0)) && #[trigger] cap_shows(
                m,
                rows[j][k],
                k,
                mark,
            );
        assert(in_layout(rows, j, k) && (j < y || (j == y && k < rows[y].len())) && cap_shows(
            m,
            rows[j][k],
            k,
            mark,
        ));
    }
}

/// Once every row has been taken in, every cap has been.
proof fn lemma_shown_before_end(m: Registry, rows: Seq<Seq<VisualKeybdKeyHolder>>, mark: Mark)
    ensures
        shown_before(m, rows, mark, rows.len() as int, 0) == shown(m, rows, mark),
{
    if shown(m, rows, mark) {
        let (j, k) = choose|j: int, k: int|
            in_layout(rows, j, k) && #[trigger] cap_shows(m, rows[j][k], k, mark);
        assert(in_layout(rows, j, k) && (j < rows.len() || (j == rows.len() && k < 0))
            && cap_shows(m, rows[j][k], k, mark));
    }
}

/// Gaps of the layout and unbound caps stay dark and silent in every frame: even
/// where the registry holds a press of one, its cap is not filled in, it moves no
/// paw and it does not open the mouth.
pub proof fn lemma_decorations_stay_dark(
    m: Registry,
    cap: VisualKeybdKeyHolder,
    column: int,
    mark: Mark,
)
    requires
        cap.key.is_decoration_spec(),
    ensures
        !paint_spec(m, cap).lit,
        !cap_shows(m, cap, column, mark),
{
}

} // verus!
