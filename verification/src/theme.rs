use vstd::prelude::*;
use vstd::string::StringExecFns;

verus! {

/// What the character does with its paws.
#[derive(Clone, Copy, Debug, PartialEq, Eq, Structural)]
pub enum Orientation {
    /// Both paws up: nothing is pressed.
    Neutral,
    /// The left paw is down.
    Left,
    /// The right paw is down.
    Right,
    /// Both paws are down.
    Both,
}

impl Orientation {
    /// The pose for what the two halves of the keyboard are doing.
    pub open spec fn from_sides_spec(left_side_down: bool, right_side_down: bool) -> Orientation {
        if left_side_down && right_side_down {
            Orientation::Both
        } else if left_side_down {
            Orientation::Left
        } else if right_side_down {
            Orientation::Right
        } else {
            Orientation::Neutral
        }
    }

    /// Chooses the pose for what the two halves of the keyboard are doing.
    pub fn from_sides(left_side_down: bool, right_side_down: bool) -> (pose: Orientation)
        ensures
            pose == Orientation::from_sides_spec(left_side_down, right_side_down),
    {
        if left_side_down && right_side_down {
            Orientation::Both
        } else if left_side_down {
            Orientation::Left
        } else if right_side_down {
            Orientation::Right
        } else {
            Orientation::Neutral
        }
    }

    /// The name under which the image of this pose is kept, without its extension.
    pub open spec fn stem_spec(self) -> Seq<char> {
        match self {
            Orientation::Neutral => "paws_up"@,
            Orientation::Left => "paws_left"@,
            Orientation::Right => "paws_right"@,
            Orientation::Both => "paws_both"@,
        }
    }

    /// The name under which the image of this pose is kept, without its extension.
    pub fn stem(&self) -> (name: &'static str)
        ensures
            name@ == self.stem_spec(),
    {
        match self {
            Orientation::Neutral => "paws_up",
            Orientation::Left => "paws_left",
            Orientation::Right => "paws_right",
            Orientation::Both => "paws_both",
        }
    }
}

/// Where the four pose images of a theme are found on disk.
pub struct AppTheme {
    pub paws_both: String,
    pub paws_left: String,
    pub paws_right: String,
    pub paws_up: String,
}

/// The path of the image of `pose` in the directory `dir`.
pub open spec fn pose_path(dir: Seq<char>, pose: Orientation) -> Seq<char> {
    dir + seq!['/'] + pose.stem_spec() + seq!['.', 'p', 'n', 'g']
}

/// Builds the path of the image of `pose` in the directory `dir`.
fn pose_file(dir: &str, pose: Orientation) -> (path: String)
    ensures
        path@ == pose_path(dir@, pose),
{
    let mut path = String::from_str(dir);
    path.append("/");
    path.append(pose.stem());
    path.append(".png");
    proof {
        reveal_strlit("/");
        reveal_strlit(".png");
        assert("/"@ =~= seq!['/']);
        assert(".png"@ =~= seq!['.', 'p', 'n', 'g']);
    }
    path
}

impl AppTheme {
    /// The theme whose images lie in the directory `path`.
    pub fn new(path: &str) -> (theme: Self)
        ensures
            theme.paws_both@ == pose_path(path@, Orientation::Both),
            theme.paws_left@ == pose_path(path@, Orientation::Left),
            theme.paws_right@ == pose_path(path@, Orientation::Right),
            theme.paws_up@ == pose_path(path@, Orientation::Neutral),
    {
        AppTheme {
            paws_both: pose_file(path, Orientation::Both),
            paws_left: pose_file(path, Orientation::Left),
            paws_right: pose_file(path, Orientation::Right),
            paws_up: pose_file(path, Orientation::Neutral),
        }
    }

    /// The path of the image of `pose`.
    pub open spec fn path_spec(&self, pose: Orientation) -> Seq<char> {
        match pose {
            Orientation::Neutral => self.paws_up@,
            Orientation::Left => self.paws_left@,
            Orientation::Right => self.paws_right@,
            Orientation::Both => self.paws_both@,
        }
    }

    /// The path of the image of `pose`.
    pub fn path(&self, pose: Orientation) -> (path: &String)
        ensures
            path@ == self.path_spec(pose),
    {
        match pose {
            Orientation::Neutral => &self.paws_up,
            Orientation::Left => &self.paws_left,
            Orientation::Right => &self.paws_right,
            Orientation::Both => &self.paws_both,
        }
    }
}

/// The decoded images of one theme, ready to be turned into textures.
pub struct AppThemeImage<I> {
    /// The entry of `ThemeSet::themes` that the images were read from, if they were
    /// read from disk.
    pub app_theme: Option<usize>,
    pub id: String,
    pub paws_both: I,
    pub paws_left: I,
    pub paws_right: I,
    pub paws_up: I,
}

impl<I> AppThemeImage<I> {
    /// The image of `pose`.
    pub open spec fn image_spec(self, pose: Orientation) -> I {
        match pose {
            Orientation::Neutral => self.paws_up,
            Orientation::Left => self.paws_left,
            Orientation::Right => self.paws_right,
            Orientation::Both => self.paws_both,
        }
    }

    /// The image of `pose`.
    pub fn image(&self, pose: Orientation) -> (image: &I)
        ensures
            *image == self.image_spec(pose),
    {
        match pose {
            Orientation::Neutral => &self.paws_up,
            Orientation::Left => &self.paws_left,
            Orientation::Right => &self.paws_right,
            Orientation::Both => &self.paws_both,
        }
    }
}

/// The textures of one theme. A pose has none until its image has been uploaded.
pub struct AppThemeTexture<T> {
    pub id: String,
    pub paws_both: Option<T>,
    pub paws_left: Option<T>,
    pub paws_right: Option<T>,
    pub paws_up: Option<T>,
}

impl<T> AppThemeTexture<T> {
    /// A theme none of whose images has been uploaded yet.
    pub fn blank(id: String) -> (theme: Self)
        ensures
            theme.id == id,
            theme.paws_both is None,
            theme.paws_left is None,
            theme.paws_right is None,
            theme.paws_up is None,
    {
        AppThemeTexture { id, paws_both: None, paws_left: None, paws_right: None, paws_up: None }
    }

    /// The texture of `pose`, if it has been uploaded.
    pub open spec fn texture_spec(self, pose: Orientation) -> Option<T> {
        match pose {
            Orientation::Neutral => self.paws_up,
            Orientation::Left => self.paws_left,
            Orientation::Right => self.paws_right,
            Orientation::Both => self.paws_both,
        }
    }

    /// The texture of `pose`, if it has been uploaded.
    pub fn texture(&self, pose: Orientation) -> (texture: &Option<T>)
        ensures
            *texture == self.texture_spec(pose),
    {
        match pose {
            Orientation::Neutral => &self.paws_up,
            Orientation::Left => &self.paws_left,
            Orientation::Right => &self.paws_right,
            Orientation::Both => &self.paws_both,
        }
    }

    /// All four poses have their texture.
    pub open spec fn is_complete_spec(self) -> bool {
        self.paws_both is Some && self.paws_left is Some && self.paws_right is Some
            && self.paws_up is Some
    }

    /// Tells whether all four poses have their texture.
    pub fn is_complete(&self) -> (complete: bool)
        ensures
            complete == self.is_complete_spec(),
    {
        self.paws_both.is_some() && self.paws_left.is_some() && self.paws_right.is_some()
            && self.paws_up.is_some()
    }

    /// The first pose without a texture, in the order both, left, right, up.
    pub open spec fn first_missing_spec(self) -> Option<Orientation> {
        if self.paws_both is None {
            Some(Orientation::Both)
        } else if self.paws_left is None {
            Some(Orientation::Left)
        } else if self.paws_right is None {
            Some(Orientation::Right)
        } else if self.paws_up is None {
            Some(Orientation::Neutral)
        } else {
            None
        }
    }

    /// Finds the first pose without a texture, in the order both, left, right, up.
    pub fn first_missing(&self) -> (pose: Option<Orientation>)
        ensures
            pose == self.first_missing_spec(),
    {
        if self.paws_both.is_none() {
            Some(Orientation::Both)
        } else if self.paws_left.is_none() {
            Some(Orientation::Left)
        } else if self.paws_right.is_none() {
            Some(Orientation::Right)
        } else if self.paws_up.is_none() {
            Some(Orientation::Neutral)
        } else {
            None
        }
    }

    /// This theme with `texture` as the texture of `pose`, unless that pose has one
    /// already.
    pub open spec fn with_texture_spec(self, pose: Orientation, texture: T) -> Self {
        if self.texture_spec(pose) is Some {
            self
        } else {
            match pose {
                Orientation::Neutral => AppThemeTexture { paws_up: Some(texture), ..self },
                Orientation::Left => AppThemeTexture { paws_left: Some(texture), ..self },
                Orientation::Right => AppThemeTexture { paws_right: Some(texture), ..self },
                Orientation::Both => AppThemeTexture { paws_both: Some(texture), ..self },
            }
        }
    }

    /// Gives `pose` the texture `texture`, unless it has one already.
    pub fn with_texture(self, pose: Orientation, texture: T) -> (theme: Self)
        ensures
            theme == self.with_texture_spec(pose, texture),
    {
        let mut theme = self;
        match pose {
            Orientation::Neutral => {
                if theme.paws_up.is_none() {
                    theme.paws_up = Some(texture);
                }
            },
            Orientation::Left => {
                if theme.paws_left.is_none() {
                    theme.paws_left = Some(texture);
                }
            },
            Orientation::Right => {
                if theme.paws_right.is_none() {
                    theme.paws_right = Some(texture);
                }
            },
            Orientation::Both => {
                if theme.paws_both.is_none() {
                    theme.paws_both = Some(texture);
                }
            },
        }
        theme
    }
}

/// The name under which the texture of `pose` of the theme `id` is uploaded.
pub open spec fn texture_name_spec(pose: Orientation, id: Seq<char>) -> Seq<char> {
    pose.stem_spec() + seq!['_'] + id
}

/// Builds the name under which the texture of `pose` of the theme `id` is uploaded.
pub fn texture_name(pose: Orientation, id: &str) -> (name: String)
    ensures
        name@ == texture_name_spec(pose, id@),
{
    let mut name = String::from_str(pose.stem());
    name.append("_");
    name.append(id);
    proof {
        reveal_strlit("_");
        assert("_"@ =~= seq!['_']);
    }
    name
}

/// Index of the theme that is shown by default.
pub const DEFAULT_POSE_SET: usize = 0;

/// Index of the theme that is shown while the character's mouth is open.
pub const MOUTH_POSE_SET: usize = 1;

/// One image that is still to be uploaded as a texture.
pub struct Upload {
    /// Index of the theme in `ThemeSet::themes_rendered` that lacks the texture.
    pub rendered: usize,
    /// Index of the theme in `ThemeSet::themes_loaded` that holds the image.
    pub loaded: usize,
    pub pose: Orientation,
    /// The name to upload the texture under.
    pub name: String,
}

/// `at` is the first of `loaded` that goes by the name `id`.
pub open spec fn is_first_match<I>(loaded: Seq<AppThemeImage<I>>, id: Seq<char>, at: int) -> bool {
    &&& 0 <= at < loaded.len()
    &&& loaded[at].id@ == id
    &&& forall|k: int| 0 <= k < at ==> (#[trigger] loaded[k]).id@ != id
}

/// One of `loaded` goes by the name `id`.
pub open spec fn has_match<I>(loaded: Seq<AppThemeImage<I>>, id: Seq<char>) -> bool {
    exists|k: int| 0 <= k < loaded.len() && (#[trigger] loaded[k]).id@ == id
}

/// The textures that `loaded` start out with: for each theme its name, and no
/// texture yet.
pub open spec fn is_blank_for<I, T>(rendered: AppThemeTexture<T>, loaded: AppThemeImage<I>) -> bool {
    &&& rendered.id@ == loaded.id@
    &&& rendered.paws_both is None
    &&& rendered.paws_left is None
    &&& rendered.paws_right is None
    &&& rendered.paws_up is None
}

/// The themes that the application knows: where to read them, what was read, and
/// what has been uploaded for drawing.
pub struct ThemeSet<I, T> {
    pub themes: Vec<AppTheme>,
    pub themes_loaded: Vec<AppThemeImage<I>>,
    pub themes_rendered: Vec<AppThemeTexture<T>>,
}

impl<I, T> ThemeSet<I, T> {
    /// The set that the application starts with: the standard theme first, then
    /// the standard theme with its mouth open, if that one is at hand. Nothing is
    /// uploaded yet.
    pub fn new(standard: AppThemeImage<I>, standard_o: Option<AppThemeImage<I>>) -> (set: Self)
        ensures
            set.themes@.len() == 0,
            set.themes_loaded@ == (match standard_o {
                Some(mouth) => seq![standard, mouth],
                None => seq![standard],
            }),
            set.themes_rendered@.len() == 0,
    {
        let mut themes_loaded = Vec::new();
        themes_loaded.push(standard);
        if let Some(mouth) = standard_o {
            themes_loaded.push(mouth);
            assert(themes_loaded@ =~= seq![standard, mouth]);
        } else {
            assert(themes_loaded@ =~= seq![standard]);
        }
        ThemeSet { themes: Vec::new(), themes_loaded, themes_rendered: Vec::new() }
    }

    /// Gives every loaded theme its entry among the rendered themes, in the same
    /// order and behind those that are already there, with no texture yet.
    pub fn prepare_rendered(&mut self)
        ensures
            final(self).themes == old(self).themes,
            final(self).themes_loaded == old(self).themes_loaded,
            final(self).themes_rendered@.len() == old(self).themes_rendered@.len() + old(
                self,
            ).themes_loaded@.len(),
            forall|r: int|
                0 <= r < old(self).themes_rendered@.len() ==> final(self).themes_rendered@[r]
                    == old(self).themes_rendered@[r],
            forall|l: int|
                0 <= l < old(self).themes_loaded@.len() ==> is_blank_for(
                    #[trigger] final(self).themes_rendered@[old(self).themes_rendered@.len() + l],
                    old(self).themes_loaded@[l],
                ),
    {
        let ghost before = self.themes_rendered@;
        let mut l: usize = 0;
        while l < self.themes_loaded.len()
            invariant
                l <= self.themes_loaded@.len(),
                self.themes == old(self).themes,
                self.themes_loaded == old(self).themes_loaded,
                before == old(self).themes_rendered@,
                self.themes_rendered@.len() == before.len() + l,
                forall|r: int| 0 <= r < before.len() ==> self.themes_rendered@[r] == before[r],
                forall|k: int|
                    0 <= k < l ==> is_blank_for(
                        #[trigger] self.themes_rendered@[before.len() + k],
                        self.themes_loaded@[k],
                    ),
            decreases self.themes_loaded@.len() - l,
        {
            let id = self.themes_loaded[l].id.clone();
            self.themes_rendered.push(AppThemeTexture::blank(id));
            l = l + 1;
        }
    }

    /// Finds the first loaded theme that goes by the name `id`.
    pub fn find_loaded(&self, id: &String) -> (found: Option<usize>)
        ensures
            match found {
                Some(at) => is_first_match(self.themes_loaded@, id@, at as int),
                None => !has_match(self.themes_loaded@, id@),
            },
    {
        let mut l: usize = 0;
        while l < self.themes_loaded.len()
            invariant
                l <= self.themes_loaded@.len(),
                forall|k: int| 0 <= k < l ==> (#[trigger] self.themes_loaded@[k]).id@ != id@,
            decreases self.themes_loaded@.len() - l,
        {
            if self.themes_loaded[l].id == *id {
                return Some(l);
            }
            l = l + 1;
        }
        None
    }

    /// The rendered theme `r` lacks a texture whose image is at hand.
    pub open spec fn needs_upload(&self, r: int) -> bool {
        &&& 0 <= r < self.themes_rendered@.len()
        &&& !self.themes_rendered@[r].is_complete_spec()
        &&& has_match(self.themes_loaded@, self.themes_rendered@[r].id@)
    }

    /// The next image to upload: of the first rendered theme that lacks a texture
    /// and has its images loaded, the first pose that lacks one. `None` once no
    /// theme is left that an upload could complete.
    pub fn next_upload(&self) -> (next: Option<Upload>)
        ensures
            match next {
                Some(upload) => {
                    &&& self.needs_upload(upload.rendered as int)
                    &&& forall|r: int| 0 <= r < upload.rendered ==> !self.needs_upload(r)
                    &&& is_first_match(
                        self.themes_loaded@,
                        self.themes_rendered@[upload.rendered as int].id@,
                        upload.loaded as int,
                    )
                    &&& self.themes_rendered@[upload.rendered as int].first_missing_spec() == Some(
                        upload.pose,
                    )
                    &&& upload.name@ == texture_name_spec(
                        upload.pose,
                        self.themes_rendered@[upload.rendered as int].id@,
                    )
                },
                None => forall|r: int| !self.needs_upload(r),
            },
    {
        let mut r: usize = 0;
        while r < self.themes_rendered.len()
            invariant
                r <= self.themes_rendered@.len(),
                forall|k: int| 0 <= k < r ==> !self.needs_upload(k),
            decreases self.themes_rendered@.len() - r,
        {
            let theme = &self.themes_rendered[r];
            if let Some(pose) = theme.first_missing() {
                if let Some(loaded) = self.find_loaded(&theme.id) {
                    let name = texture_name(pose, theme.id.as_str());
                    return Some(Upload { rendered: r, loaded, pose, name });
                }
            }
            r = r + 1;
        }
        None
    }

    /// Takes the texture that was uploaded for `pose` of the rendered theme
    /// `rendered`. A pose that has a texture keeps it, and an index past the last
    /// theme changes nothing.
    pub fn install(&mut self, rendered: usize, pose: Orientation, texture: T)
        ensures
            final(self).themes == old(self).themes,
            final(self).themes_loaded == old(self).themes_loaded,
            final(self).themes_rendered@ == (if rendered < old(self).themes_rendered@.len() {
                old(self).themes_rendered@.update(
                    rendered as int,
                    old(self).themes_rendered@[rendered as int].with_texture_spec(pose, texture),
                )
            } else {
                old(self).themes_rendered@
            }),
    {
        if rendered < self.themes_rendered.len() {
            let theme = self.themes_rendered.remove(rendered);
            self.themes_rendered.insert(rendered, theme.with_texture(pose, texture));
            assert(self.themes_rendered@ =~= old(self).themes_rendered@.update(
                rendered as int,
                old(self).themes_rendered@[rendered as int].with_texture_spec(pose, texture),
            ));
        }
    }
}

/// How many poses of `theme` have no texture yet.
pub open spec fn missing_in<T>(theme: AppThemeTexture<T>) -> nat {
    (if theme.paws_both is None {
        1nat
    } else {
        0nat
    }) + (if theme.paws_left is None {
        1nat
    } else {
        0nat
    }) + (if theme.paws_right is None {
        1nat
    } else {
        0nat
    }) + (if theme.paws_up is None {
        1nat
    } else {
        0nat
    })
}

/// How many textures are still to come for `rendered`, all themes taken together.
pub open spec fn missing<T>(rendered: Seq<AppThemeTexture<T>>) -> nat
    decreases rendered.len(),
{
    if rendered.len() == 0 {
        0
    } else {
        missing(rendered.drop_last()) + missing_in(rendered.last())
    }
}

/// A texture for a pose that has none brings the number of missing textures down
/// by one.
pub proof fn lemma_texture_fills_one<T>(
    rendered: Seq<AppThemeTexture<T>>,
    at: int,
    pose: Orientation,
    texture: T,
)
    requires
        0 <= at < rendered.len(),
        rendered[at].texture_spec(pose) is None,
    ensures
        missing(rendered.update(at, rendered[at].with_texture_spec(pose, texture))) + 1 == missing(
            rendered,
        ),
    decreases rendered.len(),
{
    let after = rendered.update(at, rendered[at].with_texture_spec(pose, texture));
    if at == rendered.len() - 1 {
        assert(after.drop_last() =~= rendered.drop_last());
    } else {
        lemma_texture_fills_one(rendered.drop_last(), at, pose, texture);
        assert(after.drop_last() =~= rendered.drop_last().update(
            at,
            rendered[at].with_texture_spec(pose, texture),
        ));
    }
}

/// Uploading comes to an end: every upload that `next_upload` asks for is for a
/// pose without a texture, so taking the texture in with `install` leaves one
/// texture fewer to come.
pub proof fn lemma_upload_makes_progress<I, T>(set: ThemeSet<I, T>, upload: Upload, texture: T)
    requires
        set.needs_upload(upload.rendered as int),
        set.themes_rendered@[upload.rendered as int].first_missing_spec() == Some(upload.pose),
    ensures
        missing(
            set.themes_rendered@.update(
                upload.rendered as int,
                set.themes_rendered@[upload.rendered as int].with_texture_spec(
                    upload.pose,
                    texture,
                ),
            ),
        ) < missing(set.themes_rendered@),
{
    lemma_texture_fills_one(set.themes_rendered@, upload.rendered as int, upload.pose, texture);
}

} // verus!
