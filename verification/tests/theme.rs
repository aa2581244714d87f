use bongocat_rs::theme::{
    texture_name, AppTheme, AppThemeImage, AppThemeTexture, Orientation, ThemeSet,
    DEFAULT_POSE_SET, MOUTH_POSE_SET,
};

fn images(id: &str, base: u8) -> AppThemeImage<u8> {
    AppThemeImage {
        app_theme: None,
        id: id.to_string(),
        paws_both: base,
        paws_left: base + 1,
        paws_right: base + 2,
        paws_up: base + 3,
    }
}

#[test]
fn theme_paths_are_joined_with_a_slash() {
    let theme = AppTheme::new("themes/neko");
    assert_eq!(theme.paws_both, "themes/neko/paws_both.png");
    assert_eq!(theme.paws_left, "themes/neko/paws_left.png");
    assert_eq!(theme.paws_right, "themes/neko/paws_right.png");
    assert_eq!(theme.paws_up, "themes/neko/paws_up.png");
    assert_eq!(theme.path(Orientation::Both), "themes/neko/paws_both.png");
    assert_eq!(theme.path(Orientation::Left), "themes/neko/paws_left.png");
    assert_eq!(theme.path(Orientation::Right), "themes/neko/paws_right.png");
    assert_eq!(theme.path(Orientation::Neutral), "themes/neko/paws_up.png");
}

#[test]
fn an_empty_directory_name_gives_paths_from_the_root() {
    let theme = AppTheme::new("");
    assert_eq!(theme.paws_up, "/paws_up.png");
}

#[test]
fn orientation_follows_the_two_halves() {
    assert_eq!(Orientation::from_sides(false, false), Orientation::Neutral);
    assert_eq!(Orientation::from_sides(true, false), Orientation::Left);
    assert_eq!(Orientation::from_sides(false, true), Orientation::Right);
    assert_eq!(Orientation::from_sides(true, true), Orientation::Both);
    assert_eq!(Orientation::Neutral.stem(), "paws_up");
    assert_eq!(Orientation::Left.stem(), "paws_left");
    assert_eq!(Orientation::Right.stem(), "paws_right");
    assert_eq!(Orientation::Both.stem(), "paws_both");
}

#[test]
fn texture_names_carry_pose_and_theme() {
    assert_eq!(texture_name(Orientation::Both, "standard"), "paws_both_standard");
    assert_eq!(texture_name(Orientation::Left, "standard-o"), "paws_left_standard-o");
    assert_eq!(texture_name(Orientation::Right, ""), "paws_right_");
    assert_eq!(texture_name(Orientation::Neutral, "x"), "paws_up_x");
}

#[test]
fn images_and_textures_are_found_by_pose() {
    let loaded = images("standard", 10);
    assert_eq!(*loaded.image(Orientation::Both), 10);
    assert_eq!(*loaded.image(Orientation::Left), 11);
    assert_eq!(*loaded.image(Orientation::Right), 12);
    assert_eq!(*loaded.image(Orientation::Neutral), 13);

    let theme: AppThemeTexture<u8> = AppThemeTexture::blank("standard".to_string());
    assert_eq!(theme.id, "standard");
    assert!(!theme.is_complete());
    assert_eq!(theme.first_missing(), Some(Orientation::Both));
    let theme = theme.with_texture(Orientation::Both, 1);
    assert_eq!(theme.first_missing(), Some(Orientation::Left));
    let theme = theme.with_texture(Orientation::Right, 3);
    assert_eq!(theme.first_missing(), Some(Orientation::Left));
    let theme = theme.with_texture(Orientation::Left, 2);
    assert_eq!(theme.first_missing(), Some(Orientation::Neutral));
    assert!(!theme.is_complete());
    let theme = theme.with_texture(Orientation::Neutral, 4);
    assert_eq!(theme.first_missing(), None);
    assert!(theme.is_complete());
    assert_eq!(*theme.texture(Orientation::Both), Some(1));
    assert_eq!(*theme.texture(Orientation::Left), Some(2));
    assert_eq!(*theme.texture(Orientation::Right), Some(3));
    assert_eq!(*theme.texture(Orientation::Neutral), Some(4));
    let theme = theme.with_texture(Orientation::Left, 9);
    assert_eq!(*theme.texture(Orientation::Left), Some(2));
}

#[test]
fn the_set_starts_with_the_two_standard_themes_loaded() {
    let set: ThemeSet<u8, u16> = ThemeSet::new(images("standard", 10), Some(images("standard-o", 20)));
    assert!(set.themes.is_empty());
    assert!(set.themes_rendered.is_empty());
    assert_eq!(set.themes_loaded.len(), 2);
    assert_eq!(set.themes_loaded[DEFAULT_POSE_SET].id, "standard");
    assert_eq!(set.themes_loaded[MOUTH_POSE_SET].id, "standard-o");
    assert_eq!(set.themes_loaded[1].paws_up, 23);
    assert!(set.next_upload().is_none());
}

#[test]
fn the_set_can_start_without_the_open_mouth_theme() {
    let mut set: ThemeSet<u8, u16> = ThemeSet::new(images("standard", 10), None);
    assert_eq!(set.themes_loaded.len(), 1);
    assert_eq!(set.themes_loaded[0].id, "standard");
    set.prepare_rendered();
    assert_eq!(set.themes_rendered.len(), 1);
    assert_eq!(set.themes_rendered[0].id, "standard");
}

#[test]
fn every_loaded_theme_gets_a_blank_rendered_entry() {
    let mut set: ThemeSet<u8, u16> = ThemeSet::new(images("standard", 10), Some(images("standard-o", 20)));
    set.prepare_rendered();
    assert_eq!(set.themes_rendered.len(), 2);
    assert_eq!(set.themes_rendered[0].id, "standard");
    assert_eq!(set.themes_rendered[1].id, "standard-o");
    assert!(set.themes_rendered.iter().all(|theme| theme.first_missing() == Some(Orientation::Both)));
    assert_eq!(set.themes_loaded.len(), 2);
    set.themes_loaded.push(images("extra", 30));
    set.prepare_rendered();
    let ids: Vec<&str> = set.themes_rendered.iter().map(|theme| theme.id.as_str()).collect();
    assert_eq!(ids, vec!["standard", "standard-o", "standard", "standard-o", "extra"]);
}

#[test]
fn loaded_themes_are_found_by_name() {
    let mut set: ThemeSet<u8, u16> = ThemeSet::new(images("standard", 10), Some(images("standard-o", 20)));
    set.themes_loaded.push(images("standard", 30));
    assert_eq!(set.find_loaded(&"standard".to_string()), Some(0));
    assert_eq!(set.find_loaded(&"standard-o".to_string()), Some(1));
    assert_eq!(set.find_loaded(&"missing".to_string()), None);
}

#[test]
fn uploads_are_asked_for_in_order_until_every_theme_is_complete() {
    let mut set: ThemeSet<u8, u16> = ThemeSet::new(images("standard", 10), Some(images("standard-o", 20)));
    set.prepare_rendered();
    let mut asked = Vec::new();
    while let Some(upload) = set.next_upload() {
        let image = *set.themes_loaded[upload.loaded].image(upload.pose);
        asked.push((upload.rendered, upload.loaded, upload.pose, upload.name.clone(), image));
        set.install(upload.rendered, upload.pose, 100 + image as u16);
        assert!(asked.len() <= 8);
    }
    let expected = vec![
        (0, 0, Orientation::Both, "paws_both_standard".to_string(), 10),
        (0, 0, Orientation::Left, "paws_left_standard".to_string(), 11),
        (0, 0, Orientation::Right, "paws_right_standard".to_string(), 12),
        (0, 0, Orientation::Neutral, "paws_up_standard".to_string(), 13),
        (1, 1, Orientation::Both, "paws_both_standard-o".to_string(), 20),
        (1, 1, Orientation::Left, "paws_left_standard-o".to_string(), 21),
        (1, 1, Orientation::Right, "paws_right_standard-o".to_string(), 22),
        (1, 1, Orientation::Neutral, "paws_up_standard-o".to_string(), 23),
    ];
    assert_eq!(asked, expected);
    assert!(set.themes_rendered.iter().all(|theme| theme.is_complete()));
    assert_eq!(set.themes_rendered[1].paws_right, Some(122));
}

#[test]
fn a_rendered_theme_without_images_is_passed_over() {
    let mut set: ThemeSet<u8, u16> = ThemeSet::new(images("standard", 10), Some(images("standard-o", 20)));
    set.themes_rendered.push(AppThemeTexture::blank("ghost".to_string()));
    set.themes_rendered.push(AppThemeTexture::blank("standard-o".to_string()));
    let upload = set.next_upload().unwrap();
    assert_eq!(upload.rendered, 1);
    assert_eq!(upload.loaded, 1);
    assert_eq!(upload.pose, Orientation::Both);
    assert_eq!(upload.name, "paws_both_standard-o");
}

#[test]
fn install_keeps_a_texture_that_is_already_there() {
    let mut set: ThemeSet<u8, u16> = ThemeSet::new(images("standard", 10), Some(images("standard-o", 20)));
    set.prepare_rendered();
    set.install(1, Orientation::Left, 5);
    set.install(1, Orientation::Left, 6);
    set.install(7, Orientation::Left, 8);
    assert_eq!(set.themes_rendered.len(), 2);
    assert_eq!(set.themes_rendered[1].paws_left, Some(5));
    assert_eq!(set.themes_rendered[1].paws_both, None);
    assert_eq!(set.themes_rendered[0].paws_left, None);
    assert_eq!(set.themes_rendered[0].id, "standard");
    assert_eq!(set.themes_loaded.len(), 2);
}
