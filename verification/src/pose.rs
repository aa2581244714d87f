use crate::frame::{cap_shows, glows, on_left_spec, scan, shown, Frame, Mark};
use crate::keyboard::{in_layout, rows_of, VisualKeybdKeyHolder};
use crate::keystroke::KeystrokeState;
use crate::registry::Registry;
use crate::theme::{AppThemeTexture, Orientation, DEFAULT_POSE_SET, MOUTH_POSE_SET};
use vstd::prelude::*;

verus! {

/// The image of the character that a frame shows: which theme, and which pose of it.
#[derive(Clone, Copy, Debug, PartialEq, Eq, Structural)]
pub struct ActivePose {
    /// Index of the theme among the rendered themes.
    pub pose_set: usize,
    pub orientation: Orientation,
}

/// The theme to draw from. With its mouth open the character is drawn from the
/// second theme, as long as there is one and all its textures are there; in every
/// other case from the first. Without any theme there is nothing to draw from.
pub open spec fn pose_set_spec<T>(themes: Seq<AppThemeTexture<T>>, is_o_face: bool) -> Option<
    usize,
> {
    if themes.len() == 0 {
        None
    } else if is_o_face && themes.len() > MOUTH_POSE_SET
        && themes[MOUTH_POSE_SET as int].is_complete_spec() {
        Some(MOUTH_POSE_SET)
    } else {
        Some(DEFAULT_POSE_SET)
    }
}

/// The pose for given halves and mouth: the theme by the mouth alone, the pose
/// within the theme by the halves alone.
pub open spec fn pose_for_spec<T>(
    themes: Seq<AppThemeTexture<T>>,
    left_side_down: bool,
    right_side_down: bool,
    is_o_face: bool,
) -> Option<ActivePose> {
    match pose_set_spec(themes, is_o_face) {
        Some(pose_set) => Some(
            ActivePose {
                pose_set,
                orientation: Orientation::from_sides_spec(left_side_down, right_side_down),
            },
        ),
        None => None,
    }
}

/// The pose that the lit keys of `m` call for.
pub open spec fn active_pose_spec<T>(
    m: Registry,
    rows: Seq<Seq<VisualKeybdKeyHolder>>,
    themes: Seq<AppThemeTexture<T>>,
) -> Option<ActivePose> {
    pose_for_spec(
        themes,
        shown(m, rows, Mark::LeftSide),
        shown(m, rows, Mark::RightSide),
        shown(m, rows, Mark::Mouth),
    )
}

/// The texture to draw for a pose of `theme`: that of the pose itself, or else
/// the nearest one that is there. Both paws down falls back to the left paw, then
/// to the right; every pose falls back to both paws up.
pub open spec fn pose_texture_spec<T>(theme: AppThemeTexture<T>, orientation: Orientation) -> Option<
    T,
> {
    match orientation {
        Orientation::Both => if theme.paws_both is Some {
            theme.paws_both
        } else if theme.paws_left is Some {
            theme.paws_left
        } else if theme.paws_right is Some {
            theme.paws_right
        } else {
            theme.paws_up
        },
        Orientation::Left => if theme.paws_left is Some {
            theme.paws_left
        } else {
            theme.paws_up
        },
        Orientation::Right => if theme.paws_right is Some {
            theme.paws_right
        } else {
            theme.paws_up
        },
        Orientation::Neutral => theme.paws_up,
    }
}

/// Chooses the pose that a frame shows.
pub fn pose_of_frame<T>(frame: &Frame, themes: &Vec<AppThemeTexture<T>>) -> (pose: Option<
    ActivePose,
>)
    ensures
        pose == pose_for_spec(
            themes@,
            frame.left_side_down,
            frame.right_side_down,
            frame.is_o_face,
        ),
{
    if themes.len() == 0 {
        return None;
    }
    let pose_set = if frame.is_o_face && themes.len() > MOUTH_POSE_SET
        && themes[MOUTH_POSE_SET].is_complete() {
        MOUTH_POSE_SET
    } else {
        DEFAULT_POSE_SET
    };
    Some(
        ActivePose {
            pose_set,
            orientation: Orientation::from_sides(frame.left_side_down, frame.right_side_down),
        },
    )
}

/// Chooses the pose that the keys lit right now call for.
pub fn active_pose<T>(
    state: &KeystrokeState,
    layout: &Vec<Vec<VisualKeybdKeyHolder>>,
    themes: &Vec<AppThemeTexture<T>>,
) -> (pose: Option<ActivePose>)
    ensures
        pose == active_pose_spec(state@, rows_of(layout@), themes@),
{
    let frame = scan(state, layout);
    pose_of_frame(&frame, themes)
}

/// Finds the texture to draw for `pose`. `None` means that the character is left
/// out of the frame: the theme is not there, or it has no texture to fall back to.
pub fn pose_texture<'a, T>(themes: &'a Vec<AppThemeTexture<T>>, pose: &ActivePose) -> (texture:
    Option<&'a T>)
    ensures
        match texture {
            Some(found) => pose.pose_set < themes@.len() && pose_texture_spec(
                themes@[pose.pose_set as int],
                pose.orientation,
            ) == Some(*found),
            None => pose.pose_set >= themes@.len() || pose_texture_spec(
                themes@[pose.pose_set as int],
                pose.orientation,
            ) is None,
        },
{
    if pose.pose_set >= themes.len() {
        return None;
    }
    let theme = &themes[pose.pose_set];
    match pose.orientation {
        Orientation::Both => {
            if theme.paws_both.is_some() {
                theme.paws_both.as_ref()
            } else if theme.paws_left.is_some() {
                theme.paws_left.as_ref()
            } else if theme.paws_right.is_some() {
                theme.paws_right.as_ref()
            } else {
                theme.paws_up.as_ref()
            }
        },
        Orientation::Left => {
            if theme.paws_left.is_some() {
                theme.paws_left.as_ref()
            } else {
                theme.paws_up.as_ref()
            }
        },
        Orientation::Right => {
            if theme.paws_right.is_some() {
                theme.paws_right.as_ref()
            } else {
                theme.paws_up.as_ref()
            }
        },
        Orientation::Neutral => theme.paws_up.as_ref(),
    }
}

/// What a frame tells depends on the registry through the set of lit keys alone.
pub proof fn lemma_shown_depends_on_lit_keys(
    m1: Registry,
    m2: Registry,
    rows: Seq<Seq<VisualKeybdKeyHolder>>,
    mark: Mark,
)
    requires
        forall|y: int, x: int|
            in_layout(rows, y, x) ==> m1.is_lit(#[trigger] rows[y][x].key) == m2.is_lit(
                rows[y][x].key,
            ),
    ensures
        shown(m1, rows, mark) == shown(m2, rows, mark),
{
    if shown(m1, rows, mark) {
        let (y, x) = choose|y: int, x: int|
            in_layout(rows, y, x) && #[trigger] cap_shows(m1, rows[y][x], x, mark);
        assert(m1.is_lit(rows[y][x].key) == m2.is_lit(rows[y][x].key));
        assert(cap_shows(m2, rows[y][x], x, mark));
    }
    if shown(m2, rows, mark) {
        let (y, x) = choose|y: int, x: int|
            in_layout(rows, y, x) && #[trigger] cap_shows(m2, rows[y][x], x, mark);
        assert(m1.is_lit(rows[y][x].key) == m2.is_lit(rows[y][x].key));
        assert(cap_shows(m1, rows[y][x], x, mark));
    }
}

/// The pose is a function of the lit keys: two registries in which the same caps
/// of the layout are lit call for the same pose, whatever else differs between
/// them.
pub proof fn lemma_pose_depends_on_lit_keys<T>(
    m1: Registry,
    m2: Registry,
    rows: Seq<Seq<VisualKeybdKeyHolder>>,
    themes: Seq<AppThemeTexture<T>>,
)
    requires
        forall|y: int, x: int|
            in_layout(rows, y, x) ==> m1.is_lit(#[trigger] rows[y][x].key) == m2.is_lit(
                rows[y][x].key,
            ),
    ensures
        active_pose_spec(m1, rows, themes) == active_pose_spec(m2, rows, themes),
{
    lemma_shown_depends_on_lit_keys(m1, m2, rows, Mark::LeftSide);
    lemma_shown_depends_on_lit_keys(m1, m2, rows, Mark::RightSide);
    lemma_shown_depends_on_lit_keys(m1, m2, rows, Mark::Mouth);
}

/// With keys shown lit in the left half only, the left paw is down and the right
/// is not.
pub proof fn lemma_left_half_gives_left_pose<T>(
    m: Registry,
    rows: Seq<Seq<VisualKeybdKeyHolder>>,
    themes: Seq<AppThemeTexture<T>>,
    y: int,
    x: int,
)
    requires
        themes.len() > 0,
        in_layout(rows, y, x),
        glows(m, rows[y][x].key),
        forall|j: int, k: int|
            in_layout(rows, j, k) && glows(m, #[trigger] rows[j][k].key) ==> on_left_spec(
                rows[j][k].key,
                k,
            ),
    ensures
        active_pose_spec(m, rows, themes) matches Some(pose) && pose.orientation
            == Orientation::Left,
{
    assert(cap_shows(m, rows[y][x], x, Mark::LeftSide));
    if shown(m, rows, Mark::RightSide) {
        let (j, k) = choose|j: int, k: int|
            in_layout(rows, j, k) && #[trigger] cap_shows(m, rows[j][k], k, Mark::RightSide);
        assert(glows(m, rows[j][k].key));
    }
}

/// With a key shown lit in each half, both paws are down.
pub proof fn lemma_both_halves_give_both_pose<T>(
    m: Registry,
    rows: Seq<Seq<VisualKeybdKeyHolder>>,
    themes: Seq<AppThemeTexture<T>>,
    left: (int, int),
    right: (int, int),
)
    requires
        themes.len() > 0,
        in_layout(rows, left.0, left.1),
        glows(m, rows[left.0][left.1].key),
        on_left_spec(rows[left.0][left.1].key, left.1),
        in_layout(rows, right.0, right.1),
        glows(m, rows[right.0][right.1].key),
        !on_left_spec(rows[right.0][right.1].key, right.1),
    ensures
        active_pose_spec(m, rows, themes) matches Some(pose) && pose.orientation
            == Orientation::Both,
{
    assert(cap_shows(m, rows[left.0][left.1], left.1, Mark::LeftSide));
    assert(cap_shows(m, rows[right.0][right.1], right.1, Mark::RightSide));
}

/// The theme is chosen by the mouth alone and the pose within it by the halves
/// alone: neither choice bears on the other.
pub proof fn lemma_theme_and_pose_are_chosen_apart<T>(
    themes: Seq<AppThemeTexture<T>>,
    left_side_down: bool,
    right_side_down: bool,
    is_o_face: bool,
)
    requires
        themes.len() > 0,
    ensures
        pose_for_spec(themes, left_side_down, right_side_down, is_o_face) matches Some(pose)
            && pose.orientation == Orientation::from_sides_spec(left_side_down, right_side_down)
            && Some(pose.pose_set) == pose_set_spec(themes, is_o_face),
{
}

/// Where no second theme is set up, or not all of its textures are there, an open
/// mouth is drawn from the first theme, in the pose that the halves call for, and
/// a first theme with all its textures always has that pose to show.
pub proof fn lemma_open_mouth_falls_back_to_default<T>(
    themes: Seq<AppThemeTexture<T>>,
    left_side_down: bool,
    right_side_down: bool,
)
    requires
        themes.len() > 0,
        themes.len() <= MOUTH_POSE_SET || !themes[MOUTH_POSE_SET as int].is_complete_spec(),
    ensures
        pose_for_spec(themes, left_side_down, right_side_down, true) == Some(
            ActivePose {
                pose_set: DEFAULT_POSE_SET,
                orientation: Orientation::from_sides_spec(left_side_down, right_side_down),
            },
        ),
        themes[DEFAULT_POSE_SET as int].is_complete_spec() ==> pose_texture_spec(
            themes[DEFAULT_POSE_SET as int],
            Orientation::from_sides_spec(left_side_down, right_side_down),
        ) is Some && pose_texture_spec(
            themes[DEFAULT_POSE_SET as int],
            Orientation::from_sides_spec(left_side_down, right_side_down),
        ) == themes[DEFAULT_POSE_SET as int].texture_spec(
            Orientation::from_sides_spec(left_side_down, right_side_down),
        ),
{
}

} // verus!
