use crate::key::{LogicalKey, SPACER_CODE, UNBOUND_CODE};
use vstd::prelude::*;

verus! {

/// One key cap of the on-screen keyboard.
pub struct VisualKeybdKeyHolder {
    /// Width of the cap, in quarters of the width of a letter key.
    pub size: u64,
    /// The key that lights this cap.
    pub key: LogicalKey,
    /// What is printed on the cap.
    pub name: &'static str,
}

/// Number of rows of the on-screen keyboard.
pub const ROW_COUNT: usize = 6;

/// A key cap, written short.
pub open spec fn cap(size: u64, key: LogicalKey, name: &'static str) -> VisualKeybdKeyHolder {
    VisualKeybdKeyHolder { size, key, name }
}

/// A gap of the given width.
pub open spec fn gap(size: u64) -> VisualKeybdKeyHolder {
    VisualKeybdKeyHolder { size, key: LogicalKey::OtherKey(SPACER_CODE), name: " " }
}

/// Row one, top to bottom: the function keys.
pub open spec fn row_one_spec() -> Seq<VisualKeybdKeyHolder> {
    seq![
        cap(4, LogicalKey::EscapeKey, "Esc"),
        gap(4),
        cap(4, LogicalKey::F1Key, "F1"),
        cap(4, LogicalKey::F2Key, "F2"),
        cap(4, LogicalKey::F3Key, "F3"),
        cap(4, LogicalKey::F4Key, "F4"),
        gap(2),
        cap(4, LogicalKey::F5Key, "F5"),
        cap(4, LogicalKey::F6Key, "F6"),
        cap(4, LogicalKey::F7Key, "F7"),
        cap(4, LogicalKey::F8Key, "F8"),
        gap(2),
        cap(4, LogicalKey::F9Key, "F9"),
        cap(4, LogicalKey::F10Key, "F10"),
        cap(4, LogicalKey::F11Key, "F11"),
        cap(4, LogicalKey::F12Key, "F12"),
        gap(2),
        cap(4, LogicalKey::OtherKey(UNBOUND_CODE), "Prt.Scn"),
        cap(4, LogicalKey::OtherKey(UNBOUND_CODE), "Pause"),
        cap(4, LogicalKey::ScrollLockKey, "Scrl.Lock"),
        gap(18),
    ]
}

/// Row two, top to bottom: the digits.
pub open spec fn row_two_spec() -> Seq<VisualKeybdKeyHolder> {
    seq![
        cap(4, LogicalKey::BackquoteKey, "`"),
        cap(4, LogicalKey::Numrow1Key, "1"),
        cap(4, LogicalKey::Numrow2Key, "2"),
        cap(4, LogicalKey::Numrow3Key, "3"),
        cap(4, LogicalKey::Numrow4Key, "4"),
        cap(4, LogicalKey::Numrow5Key, "5"),
        cap(4, LogicalKey::Numrow6Key, "6"),
        cap(4, LogicalKey::Numrow7Key, "7"),
        cap(4, LogicalKey::Numrow8Key, "8"),
        cap(4, LogicalKey::Numrow9Key, "9"),
        cap(4, LogicalKey::Numrow0Key, "0"),
        cap(4, LogicalKey::MinusKey, "-"),
        cap(4, LogicalKey::EqualKey, "="),
        cap(8, LogicalKey::BackspaceKey, "<--"),
        gap(2),
        cap(4, LogicalKey::InsertKey, "Ins"),
        cap(4, LogicalKey::HomeKey, "Home"),
        cap(4, LogicalKey::PageUpKey, "Pg.Up"),
        gap(2),
        cap(4, LogicalKey::NumLockKey, "NumLk"),
        cap(4, LogicalKey::OtherKey(61), "/"),
        cap(4, LogicalKey::OtherKey(63), "*"),
        cap(4, LogicalKey::OtherKey(109), "-"),
    ]
}

/// Row three, top to bottom: the upper letter row.
pub open spec fn row_three_spec() -> Seq<VisualKeybdKeyHolder> {
    seq![
        cap(6, LogicalKey::TabKey, "-->"),
        cap(4, LogicalKey::QKey, "Q"),
        cap(4, LogicalKey::WKey, "W"),
        cap(4, LogicalKey::EKey, "E"),
        cap(4, LogicalKey::RKey, "R"),
        cap(4, LogicalKey::TKey, "T"),
        cap(4, LogicalKey::YKey, "Y"),
        cap(4, LogicalKey::UKey, "U"),
        cap(4, LogicalKey::IKey, "I"),
        cap(4, LogicalKey::OKey, "O"),
        cap(4, LogicalKey::PKey, "P"),
        cap(4, LogicalKey::LBracketKey, "["),
        cap(4, LogicalKey::RBracketKey, "]"),
        cap(6, LogicalKey::BackslashKey, "\\"),
        gap(2),
        cap(4, LogicalKey::DeleteKey, "Del"),
        cap(4, LogicalKey::EndKey, "End"),
        cap(4, LogicalKey::PageDownKey, "Pg.Down"),
        gap(2),
        cap(4, LogicalKey::Numpad7Key, "7"),
        cap(4, LogicalKey::Numpad8Key, "88"),
        cap(4, LogicalKey::Numpad9Key, "9"),
        cap(4, LogicalKey::OtherKey(69), "+"),
    ]
}

/// Row four, top to bottom: the home row.
pub open spec fn row_four_spec() -> Seq<VisualKeybdKeyHolder> {
    seq![
        cap(7, LogicalKey::CapsLockKey, "Caps"),
        cap(4, LogicalKey::AKey, "A"),
        cap(4, LogicalKey::SKey, "S"),
        cap(4, LogicalKey::DKey, "D"),
        cap(4, LogicalKey::FKey, "F"),
        cap(4, LogicalKey::GKey, "G"),
        cap(4, LogicalKey::HKey, "H"),
        cap(4, LogicalKey::JKey, "J"),
        cap(4, LogicalKey::KKey, "K"),
        cap(4, LogicalKey::LKey, "L"),
        cap(4, LogicalKey::SemicolonKey, ";"),
        cap(4, LogicalKey::QuoteKey, "'"),
        cap(9, LogicalKey::EnterKey, "Enter"),
        gap(16),
        cap(4, LogicalKey::Numpad4Key, "4"),
        cap(4, LogicalKey::Numpad5Key, "5"),
        cap(4, LogicalKey::Numpad6Key, "6"),
        cap(4, LogicalKey::OtherKey(69), "+"),
    ]
}

/// Row five, top to bottom: the lower letter row.
pub open spec fn row_five_spec() -> Seq<VisualKeybdKeyHolder> {
    seq![
        cap(10, LogicalKey::LShiftKey, "Shift"),
        cap(4, LogicalKey::ZKey, "Z"),
        cap(4, LogicalKey::XKey, "X"),
        cap(4, LogicalKey::CKey, "C"),
        cap(4, LogicalKey::VKey, "V"),
        cap(4, LogicalKey::BKey, "B"),
        cap(4, LogicalKey::NKey, "N"),
        cap(4, LogicalKey::MKey, "M"),
        cap(4, LogicalKey::CommaKey, ","),
        cap(4, LogicalKey::PeriodKey, "."),
        cap(4, LogicalKey::SlashKey, "/"),
        cap(10, LogicalKey::RShiftKey, "Shift"),
        gap(6),
        cap(4, LogicalKey::UpKey, "^"),
        gap(6),
        cap(4, LogicalKey::Numpad1Key, "1"),
        cap(4, LogicalKey::Numpad2Key, "2"),
        cap(4, LogicalKey::Numpad3Key, "3"),
        cap(4, LogicalKey::OtherKey(96), "Enter"),
    ]
}

/// Row six, top to bottom: the modifiers and the space bar.
pub open spec fn row_six_spec() -> Seq<VisualKeybdKeyHolder> {
    seq![
        cap(6, LogicalKey::LControlKey, "Ctrl"),
        cap(6, LogicalKey::LSuper, "Win"),
        cap(6, LogicalKey::LAltKey, "Alt"),
        cap(24, LogicalKey::SpaceKey, "----"),
        cap(6, LogicalKey::RAltKey, "Alt"),
        cap(6, LogicalKey::RSuper, "Win"),
        cap(6, LogicalKey::RControlKey, "Ctrl"),
        gap(2),
        cap(4, LogicalKey::LeftKey, "<"),
        cap(4, LogicalKey::DownKey, "V"),
        cap(4, LogicalKey::RightKey, ">"),
        gap(2),
        cap(8, LogicalKey::Numpad0Key, "0"),
        cap(4, LogicalKey::DeleteKey, "."),
        cap(4, LogicalKey::OtherKey(96), "Enter"),
    ]
}

/// The whole on-screen keyboard, row by row from the top, each row from the left.
pub open spec fn keys_spec() -> Seq<Seq<VisualKeybdKeyHolder>> {
    seq![
        row_one_spec(),
        row_two_spec(),
        row_three_spec(),
        row_four_spec(),
        row_five_spec(),
        row_six_spec(),
    ]
}

/// The rows of a layout, each as a sequence of key caps.
pub open spec fn rows_of(layout: Seq<Vec<VisualKeybdKeyHolder>>) -> Seq<Seq<VisualKeybdKeyHolder>> {
    Seq::new(layout.len(), |y: int| layout[y]@)
}

/// Builds row one.
pub fn row_one() -> (row: Vec<VisualKeybdKeyHolder>)
    ensures
        row@ == row_one_spec(),
{
    let row = vec![
        VisualKeybdKeyHolder { size: 4, key: LogicalKey::EscapeKey, name: "Esc" },
        VisualKeybdKeyHolder { size: 4, key: LogicalKey::OtherKey(SPACER_CODE), name: " " },
        VisualKeybdKeyHolder { size: 4, key: LogicalKey::F1Key, name: "F1" },
        VisualKeybdKeyHolder { size: 4, key: LogicalKey::F2Key, name: "F2" },
        VisualKeybdKeyHolder { size: 4, key: LogicalKey::F3Key, name: "F3" },
        VisualKeybdKeyHolder { size: 4, key: LogicalKey::F4Key, name: "F4" },
        VisualKeybdKeyHolder { size: 2, key: LogicalKey::OtherKey(SPACER_CODE), name: " " },
        VisualKeybdKeyHolder { size: 4, key: LogicalKey::F5Key, name: "F5" },
        VisualKeybdKeyHolder { size: 4, key: LogicalKey::F6Key, name: "F6" },
        VisualKeybdKeyHolder { size: 4, key: LogicalKey::F7Key, name: "F7" },
        VisualKeybdKeyHolder { size: 4, key: LogicalKey::F8Key, name: "F8" },
        VisualKeybdKeyHolder { size: 2, key: LogicalKey::OtherKey(SPACER_CODE), name: " " },
        VisualKeybdKeyHolder { size: 4, key: LogicalKey::F9Key, name: "F9" },
        VisualKeybdKeyHolder { size: 4, key: LogicalKey::F10Key, name: "F10" },
        VisualKeybdKeyHolder { size: 4, key: LogicalKey::F11Key, name: "F11" },
        VisualKeybdKeyHolder { size: 4, key: LogicalKey::F12Key, name: "F12" },
        VisualKeybdKeyHolder { size: 2, key: LogicalKey::OtherKey(SPACER_CODE), name: " " },
        VisualKeybdKeyHolder { size: 4, key: LogicalKey::OtherKey(UNBOUND_CODE), name: "Prt.Scn" },
        VisualKeybdKeyHolder { size: 4, key: LogicalKey::OtherKey(UNBOUND_CODE), name: "Pause" },
        VisualKeybdKeyHolder { size: 4, key: LogicalKey::ScrollLockKey, name: "Scrl.Lock" },
        VisualKeybdKeyHolder { size: 18, key: LogicalKey::OtherKey(SPACER_CODE), name: " " },
    ];
    assert(row@ =~= row_one_spec());
    row
}

/// Builds row two.
pub fn row_two() -> (row: Vec<VisualKeybdKeyHolder>)
    ensures
        row@ == row_two_spec(),
{
    let row = vec![
        VisualKeybdKeyHolder { size: 4, key: LogicalKey::BackquoteKey, name: "`" },
        VisualKeybdKeyHolder { size: 4, key: LogicalKey::Numrow1Key, name: "1" },
        VisualKeybdKeyHolder { size: 4, key: LogicalKey::Numrow2Key, name: "2" },
        VisualKeybdKeyHolder { size: 4, key: LogicalKey::Numrow3Key, name: "3" },
        VisualKeybdKeyHolder { size: 4, key: LogicalKey::Numrow4Key, name: "4" },
        VisualKeybdKeyHolder { size: 4, key: LogicalKey::Numrow5Key, name: "5" },
        VisualKeybdKeyHolder { size: 4, key: LogicalKey::Numrow6Key, name: "6" },
        VisualKeybdKeyHolder { size: 4, key: LogicalKey::Numrow7Key, name: "7" },
        VisualKeybdKeyHolder { size: 4, key: LogicalKey::Numrow8Key, name: "8" },
        VisualKeybdKeyHolder { size: 4, key: LogicalKey::Numrow9Key, name: "9" },
        VisualKeybdKeyHolder { size: 4, key: LogicalKey::Numrow0Key, name: "0" },
        VisualKeybdKeyHolder { size: 4, key: LogicalKey::MinusKey, name: "-" },
        VisualKeybdKeyHolder { size: 4, key: LogicalKey::EqualKey, name: "=" },
        VisualKeybdKeyHolder { size: 8, key: LogicalKey::BackspaceKey, name: "<--" },
        VisualKeybdKeyHolder { size: 2, key: LogicalKey::OtherKey(SPACER_CODE), name: " " },
        VisualKeybdKeyHolder { size: 4, key: LogicalKey::InsertKey, name: "Ins" },
        VisualKeybdKeyHolder { size: 4, key: LogicalKey::HomeKey, name: "Home" },
        VisualKeybdKeyHolder { size: 4, key: LogicalKey::PageUpKey, name: "Pg.Up" },
        VisualKeybdKeyHolder { size: 2, key: LogicalKey::OtherKey(SPACER_CODE), name: " " },
        VisualKeybdKeyHolder { size: 4, key: LogicalKey::NumLockKey, name: "NumLk" },
        VisualKeybdKeyHolder { size: 4, key: LogicalKey::OtherKey(61), name: "/" },
        VisualKeybdKeyHolder { size: 4, key: LogicalKey::OtherKey(63), name: "*" },
        VisualKeybdKeyHolder { size: 4, key: LogicalKey::OtherKey(109), name: "-" },
    ];
    assert(row@ =~= row_two_spec());
    row
}

/// Builds row three.
pub fn row_three() -> (row: Vec<VisualKeybdKeyHolder>)
    ensures
        row@ == row_three_spec(),
{
    let row = vec![
        VisualKeybdKeyHolder { size: 6, key: LogicalKey::TabKey, name: "-->" },
        VisualKeybdKeyHolder { size: 4, key: LogicalKey::QKey, name: "Q" },
        VisualKeybdKeyHolder { size: 4, key: LogicalKey::WKey, name: "W" },
        VisualKeybdKeyHolder { size: 4, key: LogicalKey::EKey, name: "E" },
        VisualKeybdKeyHolder { size: 4, key: LogicalKey::RKey, name: "R" },
        VisualKeybdKeyHolder { size: 4, key: LogicalKey::TKey, name: "T" },
        VisualKeybdKeyHolder { size: 4, key: LogicalKey::YKey, name: "Y" },
        VisualKeybdKeyHolder { size: 4, key: LogicalKey::UKey, name: "U" },
        VisualKeybdKeyHolder { size: 4, key: LogicalKey::IKey, name: "I" },
        VisualKeybdKeyHolder { size: 4, key: LogicalKey::OKey, name: "O" },
        VisualKeybdKeyHolder { size: 4, key: LogicalKey::PKey, name: "P" },
        VisualKeybdKeyHolder { size: 4, key: LogicalKey::LBracketKey, name: "[" },
        VisualKeybdKeyHolder { size: 4, key: LogicalKey::RBracketKey, name: "]" },
        VisualKeybdKeyHolder { size: 6, key: LogicalKey::BackslashKey, name: "\\" },
        VisualKeybdKeyHolder { size: 2, key: LogicalKey::OtherKey(SPACER_CODE), name: " " },
        VisualKeybdKeyHolder { size: 4, key: LogicalKey::DeleteKey, name: "Del" },
        VisualKeybdKeyHolder { size: 4, key: LogicalKey::EndKey, name: "End" },
        VisualKeybdKeyHolder { size: 4, key: LogicalKey::PageDownKey, name: "Pg.Down" },
        VisualKeybdKeyHolder { size: 2, key: LogicalKey::OtherKey(SPACER_CODE), name: " " },
        VisualKeybdKeyHolder { size: 4, key: LogicalKey::Numpad7Key, name: "7" },
        VisualKeybdKeyHolder { size: 4, key: LogicalKey::Numpad8Key, name: "88" },
        VisualKeybdKeyHolder { size: 4, key: LogicalKey::Numpad9Key, name: "9" },
        VisualKeybdKeyHolder { size: 4, key: LogicalKey::OtherKey(69), name: "+" },
    ];
    assert(row@ =~= row_three_spec());
    row
}

/// Builds row four.
pub fn row_four() -> (row: Vec<VisualKeybdKeyHolder>)
    ensures
        row@ == row_four_spec(),
{
    let row = vec![
        VisualKeybdKeyHolder { size: 7, key: LogicalKey::CapsLockKey, name: "Caps" },
        VisualKeybdKeyHolder { size: 4, key: LogicalKey::AKey, name: "A" },
        VisualKeybdKeyHolder { size: 4, key: LogicalKey::SKey, name: "S" },
        VisualKeybdKeyHolder { size: 4, key: LogicalKey::DKey, name: "D" },
        VisualKeybdKeyHolder { size: 4, key: LogicalKey::FKey, name: "F" },
        VisualKeybdKeyHolder { size: 4, key: LogicalKey::GKey, name: "G" },
        VisualKeybdKeyHolder { size: 4, key: LogicalKey::HKey, name: "H" },
        VisualKeybdKeyHolder { size: 4, key: LogicalKey::JKey, name: "J" },
        VisualKeybdKeyHolder { size: 4, key: LogicalKey::KKey, name: "K" },
        VisualKeybdKeyHolder { size: 4, key: LogicalKey::LKey, name: "L" },
        VisualKeybdKeyHolder { size: 4, key: LogicalKey::SemicolonKey, name: ";" },
        VisualKeybdKeyHolder { size: 4, key: LogicalKey::QuoteKey, name: "'" },
        VisualKeybdKeyHolder { size: 9, key: LogicalKey::EnterKey, name: "Enter" },
        VisualKeybdKeyHolder { size: 16, key: LogicalKey::OtherKey(SPACER_CODE), name: " " },
        VisualKeybdKeyHolder { size: 4, key: LogicalKey::Numpad4Key, name: "4" },
        VisualKeybdKeyHolder { size: 4, key: LogicalKey::Numpad5Key, name: "5" },
        VisualKeybdKeyHolder { size: 4, key: LogicalKey::Numpad6Key, name: "6" },
        VisualKeybdKeyHolder { size: 4, key: LogicalKey::OtherKey(69), name: "+" },
    ];
    assert(row@ =~= row_four_spec());
    row
}

/// Builds row five.
pub fn row_five() -> (row: Vec<VisualKeybdKeyHolder>)
    ensures
        row@ == row_five_spec(),
{
    let row = vec![
        VisualKeybdKeyHolder { size: 10, key: LogicalKey::LShiftKey, name: "Shift" },
        VisualKeybdKeyHolder { size: 4, key: LogicalKey::ZKey, name: "Z" },
        VisualKeybdKeyHolder { size: 4, key: LogicalKey::XKey, name: "X" },
        VisualKeybdKeyHolder { size: 4, key: LogicalKey::CKey, name: "C" },
        VisualKeybdKeyHolder { size: 4, key: LogicalKey::VKey, name: "V" },
        VisualKeybdKeyHolder { size: 4, key: LogicalKey::BKey, name: "B" },
        VisualKeybdKeyHolder { size: 4, key: LogicalKey::NKey, name: "N" },
        VisualKeybdKeyHolder { size: 4, key: LogicalKey::MKey, name: "M" },
        VisualKeybdKeyHolder { size: 4, key: LogicalKey::CommaKey, name: "," },
        VisualKeybdKeyHolder { size: 4, key: LogicalKey::PeriodKey, name: "." },
        VisualKeybdKeyHolder { size: 4, key: LogicalKey::SlashKey, name: "/" },
        VisualKeybdKeyHolder { size: 10, key: LogicalKey::RShiftKey, name: "Shift" },
        VisualKeybdKeyHolder { size: 6, key: LogicalKey::OtherKey(SPACER_CODE), name: " " },
        VisualKeybdKeyHolder { size: 4, key: LogicalKey::UpKey, name: "^" },
        VisualKeybdKeyHolder { size: 6, key: LogicalKey::OtherKey(SPACER_CODE), name: " " },
        VisualKeybdKeyHolder { size: 4, key: LogicalKey::Numpad1Key, name: "1" },
        VisualKeybdKeyHolder { size: 4, key: LogicalKey::Numpad2Key, name: "2" },
        VisualKeybdKeyHolder { size: 4, key: LogicalKey::Numpad3Key, name: "3" },
        VisualKeybdKeyHolder { size: 4, key: LogicalKey::OtherKey(96), name: "Enter" },
    ];
    assert(row@ =~= row_five_spec());
    row
}

/// Builds row six.
pub fn row_six() -> (row: Vec<VisualKeybdKeyHolder>)
    ensures
        row@ == row_six_spec(),
{
    let row = vec![
        VisualKeybdKeyHolder { size: 6, key: LogicalKey::LControlKey, name: "Ctrl" },
        VisualKeybdKeyHolder { size: 6, key: LogicalKey::LSuper, name: "Win" },
        VisualKeybdKeyHolder { size: 6, key: LogicalKey::LAltKey, name: "Alt" },
        VisualKeybdKeyHolder { size: 24, key: LogicalKey::SpaceKey, name: "----" },
        VisualKeybdKeyHolder { size: 6, key: LogicalKey::RAltKey, name: "Alt" },
        VisualKeybdKeyHolder { size: 6, key: LogicalKey::RSuper, name: "Win" },
        VisualKeybdKeyHolder { size: 6, key: LogicalKey::RControlKey, name: "Ctrl" },
        VisualKeybdKeyHolder { size: 2, key: LogicalKey::OtherKey(SPACER_CODE), name: " " },
        VisualKeybdKeyHolder { size: 4, key: LogicalKey::LeftKey, name: "<" },
        VisualKeybdKeyHolder { size: 4, key: LogicalKey::DownKey, name: "V" },
        VisualKeybdKeyHolder { size: 4, key: LogicalKey::RightKey, name: ">" },
        VisualKeybdKeyHolder { size: 2, key: LogicalKey::OtherKey(SPACER_CODE), name: " " },
        VisualKeybdKeyHolder { size: 8, key: LogicalKey::Numpad0Key, name: "0" },
        VisualKeybdKeyHolder { size: 4, key: LogicalKey::DeleteKey, name: "." },
        VisualKeybdKeyHolder { size: 4, key: LogicalKey::OtherKey(96), name: "Enter" },
    ];
    assert(row@ =~= row_six_spec());
    row
}

/// Builds the on-screen keyboard.
pub fn keys() -> (layout: Vec<Vec<VisualKeybdKeyHolder>>)
    ensures
        rows_of(layout@) == keys_spec(),
{
    let layout = vec![row_one(), row_two(), row_three(), row_four(), row_five(), row_six()];
    assert(rows_of(layout@) =~= keys_spec());
    layout
}

/// Row `y` of the layout has a cap at column `x`.
pub open spec fn in_layout(rows: Seq<Seq<VisualKeybdKeyHolder>>, y: int, x: int) -> bool {
    0 <= y < rows.len() && 0 <= x < rows[y].len()
}

/// `key` lights a cap that comes before column `x_end` of row `y_end`.
pub open spec fn on_cap_before(
    rows: Seq<Seq<VisualKeybdKeyHolder>>,
    key: LogicalKey,
    y_end: int,
    x_end: int,
) -> bool {
    exists|y: int, x: int|
        in_layout(rows, y, x) && (y < y_end || (y == y_end && x < x_end)) && (
        #[trigger] rows[y][x]).key == key
}

/// `key` lights some cap of the layout.
pub open spec fn on_cap(rows: Seq<Seq<VisualKeybdKeyHolder>>, key: LogicalKey) -> bool {
    exists|y: int, x: int| in_layout(rows, y, x) && (#[trigger] rows[y][x]).key == key
}

/// In reading order, column `x1` of row `y1` comes before column `x2` of row `y2`.
pub open spec fn comes_before(y1: int, x1: int, y2: int, x2: int) -> bool {
    y1 < y2 || (y1 == y2 && x1 < x2)
}

/// The first cap that `key` lights, in reading order, is at column `x` of row `y`.
pub open spec fn first_cap(
    rows: Seq<Seq<VisualKeybdKeyHolder>>,
    key: LogicalKey,
    y: int,
    x: int,
) -> bool {
    in_layout(rows, y, x) && rows[y][x].key == key && !on_cap_before(rows, key, y, x)
}

/// `keys` are listed in the order in which their first caps are read.
pub open spec fn in_first_cap_order(
    rows: Seq<Seq<VisualKeybdKeyHolder>>,
    keys: Seq<LogicalKey>,
) -> bool {
    forall|i: int, j: int, y1: int, x1: int, y2: int, x2: int|
        0 <= i < j < keys.len() && #[trigger] first_cap(rows, keys[i], y1, x1) && #[trigger] first_cap(
            rows,
            keys[j],
            y2,
            x2,
        ) ==> comes_before(y1, x1, y2, x2)
}

/// Tells whether `key` is one of `keys`.
fn is_listed(keys: &Vec<LogicalKey>, key: &LogicalKey) -> (listed: bool)
    ensures
        listed == keys@.contains(*key),
{
    let mut i: usize = 0;
    while i < keys.len()
        invariant
            i <= keys@.len(),
            forall|k: int| 0 <= k < i ==> keys@[k] != *key,
        decreases keys@.len() - i,
    {
        if keys[i] == *key {
            return true;
        }
        i = i + 1;
    }
    false
}

/// The keys that the key hook listens to: every key that lights a cap of the
/// layout, is no decoration and has a slot in the registry, each of them once, in
/// the order in which their caps are first read. Gaps and unbound caps are left
/// out by their kind, so the hook never delivers an event of theirs.
pub fn hook_keys(layout: &Vec<Vec<VisualKeybdKeyHolder>>) -> (keys: Vec<LogicalKey>)
    ensures
        keys@.no_duplicates(),
        in_first_cap_order(rows_of(layout@), keys@),
        forall|key: LogicalKey|
            #![trigger keys@.contains(key)]
            #![trigger key.is_hooked_spec()]
            keys@.contains(key) <==> key.is_hooked_spec() && on_cap(rows_of(layout@), key),
{
    let ghost rows = rows_of(layout@);
    let mut keys: Vec<LogicalKey> = Vec::new();
    let mut y: usize = 0;
    while y < layout.len()
        invariant
            rows == rows_of(layout@),
            y <= layout@.len(),
            keys@.no_duplicates(),
            in_first_cap_order(rows, keys@),
            forall|key: LogicalKey|
                #![trigger keys@.contains(key)]
                #![trigger key.is_hooked_spec()]
                keys@.contains(key) <==> key.is_hooked_spec() && on_cap_before(
                    rows,
                    key,
                    y as int,
                    0,
                ),
        decreases layout@.len() - y,
    {
        let row = &layout[y];
        let mut x: usize = 0;
        while x < row.len()
            invariant
                rows == rows_of(layout@),
                y < layout@.len(),
                *row == layout@[y as int],
                x <= row@.len(),
                keys@.no_duplicates(),
                in_first_cap_order(rows, keys@),
                forall|key: LogicalKey|
                    #![trigger keys@.contains(key)]
                    #![trigger key.is_hooked_spec()]
                    keys@.contains(key) <==> key.is_hooked_spec() && on_cap_before(
                        rows,
                        key,
                        y as int,
                        x as int,
                    ),
            decreases row@.len() - x,
        {
            let key = row[x].key;
            let ghost before = keys@;
            let fresh = key.is_hooked() && !is_listed(&keys, &key);
            if fresh {
                keys.push(key);
            }
            proof {
                assert(rows[y as int][x as int].key == key);
                if fresh {
                    assert(keys@ == before.push(key));
                    assert forall|i: int, j: int, y1: int, x1: int, y2: int, x2: int|
                        0 <= i < j < keys@.len() && #[trigger] first_cap(rows, keys@[i], y1, x1)
                            && #[trigger] first_cap(rows, keys@[j], y2, x2) implies comes_before(
                        y1,
                        x1,
                        y2,
                        x2,
                    ) by {
                        assert(keys@[i] == before[i]);
                        if j == before.len() {
                            assert(before.contains(before[i]));
                            lemma_first_cap_is_read_first(rows, before[i], y1, x1, y as int, x as int);
                            lemma_first_cap_is_the_only_one(rows, key, y as int, x as int, y2, x2);
                        } else {
                            assert(keys@[j] == before[j]);
                        }
                    }
                }
                assert forall|other: LogicalKey|
                    #![trigger keys@.contains(other)]
                    #![trigger other.is_hooked_spec()]
                    keys@.contains(other) <==> other.is_hooked_spec() && on_cap_before(
                        rows,
                        other,
                        y as int,
                        x + 1,
                    ) by {
                    lemma_on_cap_before_next_cap(rows, other, y as int, x as int);
                    assert(before.contains(other) <==> other.is_hooked_spec() && on_cap_before(
                        rows,
                        other,
                        y as int,
                        x as int,
                    ));
                    if fresh {
                        assert(keys@ == before.push(key));
                        if other == key {
                            assert(keys@[before.len() as int] == key);
                        } else if keys@.contains(other) {
                            let i = choose|i: int| 0 <= i < keys@.len() && keys@[i] == other;
                            assert(before[i] == other);
                        } else if before.contains(other) {
                            let i = choose|i: int| 0 <= i < before.len() && before[i] == other;
                            assert(keys@[i] == other);
                        }
                    } else {
                        assert(keys@ == before);
                    }
                }
            }
            x = x + 1;
        }
        proof {
            assert forall|other: LogicalKey|
                on_cap_before(rows, other, y as int, rows[y as int].len() as int)
                    == on_cap_before(rows, other, y + 1, 0) by {
                lemma_on_cap_before_next_row(rows, other, y as int);
            }
        }
        y = y + 1;
    }
    proof {
        assert forall|other: LogicalKey|
            on_cap_before(rows, other, rows.len() as int, 0) == on_cap(rows, other) by {
            lemma_on_cap_before_end(rows, other);
        }
    }
    keys
}

/// Taking in the cap at column `x` of row `y` adds the key of that cap.
proof fn lemma_on_cap_before_next_cap(
    rows: Seq<Seq<VisualKeybdKeyHolder>>,
    key: LogicalKey,
    y: int,
    x: int,
)
    requires
        in_layout(rows, y, x),
    ensures
        on_cap_before(rows, key, y, x + 1) == (on_cap_before(rows, key, y, x) || rows[y][x].key
            == key),
{
    if on_cap_before(rows, key, y, x + 1) {
        let (j, k) = choose|j: int, k: int|
            in_layout(rows, j, k) && (j < y || (j == y && k < x + 1)) && (
            #[trigger] rows[j][k]).key == key;
        if !(j == y && k == x) {
            assert(in_layout(rows, j, k) && (j < y || (j == y && k < x)) && rows[j][k].key == key);
        }
    }
    if on_cap_before(rows, key, y, x) {
        let (j, k) = choose|j: int, k: int|
            in_layout(rows, j, k) && (j < y || (j == y && k < x)) && (#[trigger] rows[j][k]).key
                == key;
        assert(in_layout(rows, j, k) && (j < y || (j == y && k < x + 1)) && rows[j][k].key == key);
    }
    if rows[y][x].key == key {
        assert(in_layout(rows, y, x) && (y < y || (y == y && x < x + 1)) && rows[y][x].key == key);
    }
}

/// The end of row `y` is the start of row `y + 1`.
proof fn lemma_on_cap_before_next_row(rows: Seq<Seq<VisualKeybdKeyHolder>>, key: LogicalKey, y: int)
    requires
        0 <= y < rows.len(),
    ensures
        on_cap_before(rows, key, y, rows[y].len() as int) == on_cap_before(rows, key, y + 1, 0),
{
    if on_cap_before(rows, key, y, rows[y].len() as int) {
        let (j, k) = choose|j: int, k: int|
            in_layout(rows, j, k) && (j < y || (j == y && k < rows[y].len())) && (
            #[trigger] rows[j][k]).key == key;
        assert(in_layout(rows, j, k) && (j < y + 1 || (j == y + 1 && k < 0)) && rows[j][k].key
            == key);
    }
    if on_cap_before(rows, key, y + 1, 0) {
        let (j, k) = choose|j: int, k: int|
            in_layout(rows, j, k) && (j < y + 1 || (j == y + 1 && k < 0)) && (
            #[trigger] rows[j][k]).key == key;
        assert(in_layout(rows, j, k) && (j < y || (j == y && k < rows[y].len())) && rows[j][k].key
            == key);
    }
}

/// Once every row has been taken in, every cap has been.
proof fn lemma_on_cap_before_end(rows: Seq<Seq<VisualKeybdKeyHolder>>, key: LogicalKey)
    ensures
        on_cap_before(rows, key, rows.len() as int, 0) == on_cap(rows, key),
{
    if on_cap(rows, key) {
        let (j, k) = choose|j: int, k: int|
            in_layout(rows, j, k) && (#[trigger] rows[j][k]).key == key;
        assert(in_layout(rows, j, k) && (j < rows.len() || (j == rows.len() && k < 0))
            && rows[j][k].key == key);
    }
}

/// The first cap of a key comes before every place by which the key has been read.
proof fn lemma_first_cap_is_read_first(
    rows: Seq<Seq<VisualKeybdKeyHolder>>,
    key: LogicalKey,
    y1: int,
    x1: int,
    y: int,
    x: int,
)
    requires
        first_cap(rows, key, y1, x1),
        on_cap_before(rows, key, y, x),
    ensures
        comes_before(y1, x1, y, x),
{
    let (j, k) = choose|j: int, k: int|
        in_layout(rows, j, k) && (j < y || (j == y && k < x)) && (#[trigger] rows[j][k]).key == key;
    if j < y1 || (j == y1 && k < x1) {
        assert(in_layout(rows, j, k) && (j < y1 || (j == y1 && k < x1)) && rows[j][k].key == key);
    }
}

/// A key has one first cap.
proof fn lemma_first_cap_is_the_only_one(
    rows: Seq<Seq<VisualKeybdKeyHolder>>,
    key: LogicalKey,
    y: int,
    x: int,
    y2: int,
    x2: int,
)
    requires
        first_cap(rows, key, y, x),
        first_cap(rows, key, y2, x2),
    ensures
        y2 == y && x2 == x,
{
    if comes_before(y, x, y2, x2) {
        assert(in_layout(rows, y, x) && (y < y2 || (y == y2 && x < x2)) && rows[y][x].key == key);
    }
    if comes_before(y2, x2, y, x) {
        assert(in_layout(rows, y2, x2) && (y2 < y || (y2 == y && x2 < x)) && rows[y2][x2].key
            == key);
    }
}

/// Every cap of `row` shows a key that has a slot in the registry.
pub open spec fn caps_have_slots(row: Seq<VisualKeybdKeyHolder>) -> bool {
    forall|x: int| 0 <= x < row.len() ==> (#[trigger] row[x]).key.slot_spec() is Some
}

/// Every cap of row one shows a key that has a slot.
proof fn lemma_row_one_has_slots()
    ensures
        caps_have_slots(row_one_spec()),
{
}

/// Every cap of row two shows a key that has a slot.
proof fn lemma_row_two_has_slots()
    ensures
        caps_have_slots(row_two_spec()),
{
}

/// Every cap of row three shows a key that has a slot.
proof fn lemma_row_three_has_slots()
    ensures
        caps_have_slots(row_three_spec()),
{
}

/// Every cap of row four shows a key that has a slot.
proof fn lemma_row_four_has_slots()
    ensures
        caps_have_slots(row_four_spec()),
{
}

/// Every cap of row five shows a key that has a slot.
proof fn lemma_row_five_has_slots()
    ensures
        caps_have_slots(row_five_spec()),
{
}

/// Every cap of row six shows a key that has a slot.
proof fn lemma_row_six_has_slots()
    ensures
        caps_have_slots(row_six_spec()),
{
}

/// Every key that lies on a cap of the on-screen keyboard has a slot in the
/// registry, the gaps and the unbound caps too: no press of a key of the layout
/// is dropped.
pub proof fn lemma_layout_keys_have_slots(key: LogicalKey)
    requires
        on_cap(keys_spec(), key),
    ensures
        key.slot_spec() is Some,
{
    let rows = keys_spec();
    let (y, x) = choose|y: int, x: int| in_layout(rows, y, x) && (#[trigger] rows[y][x]).key == key;
    assert(rows.len() == 6);
    if y == 0 {
        lemma_row_one_has_slots();
        assert(rows[y] == row_one_spec());
    } else if y == 1 {
        lemma_row_two_has_slots();
        assert(rows[y] == row_two_spec());
    } else if y == 2 {
        lemma_row_three_has_slots();
        assert(rows[y] == row_three_spec());
    } else if y == 3 {
        lemma_row_four_has_slots();
        assert(rows[y] == row_four_spec());
    } else if y == 4 {
        lemma_row_five_has_slots();
        assert(rows[y] == row_five_spec());
    } else {
        lemma_row_six_has_slots();
        assert(rows[y] == row_six_spec());
    }
    assert(rows[y][x].key.slot_spec() is Some);
}

} // verus!
