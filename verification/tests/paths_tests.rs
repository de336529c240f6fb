use ref_editor::paths::{
    config_file_path, extension_or_png, file_name_part, file_stem_part, get_image_path,
    get_model_path, join_path, ref_asset_path, replaced_asset_path, under_assets,
};

#[test]
fn file_name_after_last_slash() {
    assert_eq!(file_name_part("ref/x.png"), "x.png");
    assert_eq!(file_name_part("a/b/c.glb"), "c.glb");
    assert_eq!(file_name_part("plain.png"), "plain.png");
}

#[test]
fn file_stem_before_last_dot() {
    assert_eq!(file_stem_part("ref/x.png"), "x");
    assert_eq!(file_stem_part("a/b.tar.gz"), "b.tar");
    assert_eq!(file_stem_part("a/nodot"), "nodot");
    assert_eq!(file_stem_part("a/.hidden"), ".hidden");
}

#[test]
fn extension_with_png_default() {
    assert_eq!(extension_or_png("ref/x.jpeg"), "jpeg");
    assert_eq!(extension_or_png("ref/x"), "png");
    assert_eq!(extension_or_png("ref/.hidden"), "png");
    assert_eq!(extension_or_png("dir.d/file"), "png");
}

#[test]
fn ref_asset_paths() {
    assert_eq!(ref_asset_path("tree", "png"), "ref/tree.png");
    assert_eq!(replaced_asset_path("ref/old.jpg", "new"), "ref/new.jpg");
    assert_eq!(replaced_asset_path("ref/old", "new"), "ref/new.png");
}

#[test]
fn stored_or_default_asset_paths() {
    let name = "tree".to_string();
    assert_eq!(get_image_path(&name, &Some("ref/kept.png".to_string())), "ref/kept.png");
    assert_eq!(get_image_path(&name, &None), "ref/tree.png");
    assert_eq!(get_model_path(&name, &Some("ref/kept.glb".to_string())), "ref/kept.glb");
    assert_eq!(get_model_path(&name, &None), "ref/tree.glb");
}

#[test]
fn joining_paths() {
    assert_eq!(join_path("assets", "ref/x.png"), "assets/ref/x.png");
    assert_eq!(join_path("./assets/", "ref/x.png"), "./assets/ref/x.png");
    assert_eq!(join_path("", "ref/x.png"), "ref/x.png");
    assert_eq!(join_path("assets", "/abs/x.png"), "/abs/x.png");
    assert_eq!(under_assets("ref/x.png"), "assets/ref/x.png");
}

#[test]
fn unicode_names_are_handled_by_character() {
    assert_eq!(file_name_part("ref/bäumchen.png"), "bäumchen.png");
    assert_eq!(file_stem_part("ref/bäumchen.png"), "bäumchen");
    assert_eq!(extension_or_png("ref/bäumchen.jpeg"), "jpeg");
}

#[test]
fn config_paths() {
    assert_eq!(config_file_path(""), "assets/ref/config.ron");
    assert_eq!(config_file_path("/home/someone"), "/home/someone/assets/ref/config.ron");
    assert_eq!(config_file_path("/home/someone/"), "/home/someone/assets/ref/config.ron");
}
