use polyfjord3d::paths::{file_stem, join, parent_dir};

#[test]
fn join_puts_one_slash_between() {
    assert_eq!(join("scenes", "clip"), "scenes/clip");
    assert_eq!(join("scenes/clip", "images"), "scenes/clip/images");
}

#[test]
fn join_adds_no_slash_after_a_separator() {
    assert_eq!(join("scenes/", "clip"), "scenes/clip");
    assert_eq!(join("C:\\scenes\\", "clip"), "C:\\scenes\\clip");
}

#[test]
fn join_to_the_empty_base_is_the_name() {
    assert_eq!(join("", "clip"), "clip");
    assert_eq!(join("scenes", ""), "scenes/");
}

#[test]
fn file_stem_drops_directories_and_extension() {
    assert_eq!(file_stem("clip.mp4"), Some("clip".to_string()));
    assert_eq!(file_stem("videos/holiday/clip.mp4"), Some("clip".to_string()));
    assert_eq!(file_stem("C:\\videos\\clip.mov"), Some("clip".to_string()));
    assert_eq!(file_stem("C:\\videos/clip.mov"), Some("clip".to_string()));
}

#[test]
fn file_stem_drops_the_last_extension_only() {
    assert_eq!(file_stem("clip.final.mp4"), Some("clip.final".to_string()));
    assert_eq!(file_stem("clip."), Some("clip".to_string()));
}

#[test]
fn file_stem_keeps_names_without_extension() {
    assert_eq!(file_stem("clip"), Some("clip".to_string()));
    assert_eq!(file_stem(".hidden"), Some(".hidden".to_string()));
    assert_eq!(file_stem("dir/.hidden"), Some(".hidden".to_string()));
    assert_eq!(file_stem("..."), Some("..".to_string()));
}

#[test]
fn file_stem_is_missing_without_a_file_name() {
    assert_eq!(file_stem(""), None);
    assert_eq!(file_stem("/"), None);
    assert_eq!(file_stem("\\"), None);
    assert_eq!(file_stem("."), None);
    assert_eq!(file_stem("./"), None);
    assert_eq!(file_stem(".."), None);
    assert_eq!(file_stem("videos/.."), None);
    assert_eq!(file_stem("videos/../"), None);
}

#[test]
fn file_stem_passes_over_trailing_separators_and_dots() {
    assert_eq!(file_stem("videos/"), Some("videos".to_string()));
    assert_eq!(file_stem("videos/clip.mp4/"), Some("clip".to_string()));
    assert_eq!(file_stem("videos\\."), Some("videos".to_string()));
    assert_eq!(file_stem("videos/clip.mp4/./"), Some("clip".to_string()));
    assert_eq!(file_stem("videos//"), Some("videos".to_string()));
}

#[test]
fn file_stem_agrees_with_the_standard_library_on_plain_paths() {
    for path in [
        "clip.mp4",
        "a/b/clip.mp4",
        "a/b.c/clip",
        "x/.hidden",
        "x/a.b.c",
        "caf\u{e9}/\u{4e2d}.mov",
        "",
        "/",
        ".",
        "..",
        "a/..",
        "a/",
        "a/.",
        "a/b.c/./",
        "./a.b",
        "a//b.c//",
    ] {
        let expected = std::path::Path::new(path)
            .file_stem()
            .and_then(|stem| stem.to_str())
            .map(|stem| stem.to_string());
        assert_eq!(file_stem(path), expected, "{}", path);
    }
}

#[test]
fn parent_dir_drops_the_last_component() {
    assert_eq!(
        parent_dir("C:\\tools\\colmap\\bin\\colmap.exe"),
        Some("C:\\tools\\colmap\\bin".to_string())
    );
    assert_eq!(parent_dir("tools/colmap/colmap.exe"), Some("tools/colmap".to_string()));
}

#[test]
fn parent_dir_of_a_single_component_is_empty() {
    assert_eq!(parent_dir("colmap.exe"), Some(String::new()));
}

#[test]
fn parent_dir_keeps_a_root_and_a_drive() {
    assert_eq!(parent_dir("/colmap"), Some("/".to_string()));
    assert_eq!(parent_dir("C:\\colmap.exe"), Some("C:\\".to_string()));
    assert_eq!(parent_dir("C:/colmap.exe"), Some("C:/".to_string()));
}

#[test]
fn parent_dir_is_missing_without_a_last_component() {
    assert_eq!(parent_dir(""), None);
    assert_eq!(parent_dir("/"), None);
    assert_eq!(parent_dir("//"), None);
    assert_eq!(parent_dir("/."), None);
}

#[test]
fn parent_dir_passes_over_trailing_separators_and_dots() {
    assert_eq!(parent_dir("tools/"), Some(String::new()));
    assert_eq!(parent_dir("C:\\x\\colmap\\"), Some("C:\\x".to_string()));
    assert_eq!(parent_dir("tools/colmap/bin/."), Some("tools/colmap".to_string()));
    assert_eq!(parent_dir("/a/"), Some("/".to_string()));
}

#[test]
fn parent_dir_drops_every_separator_before_the_last_component() {
    assert_eq!(parent_dir("a//b"), Some("a".to_string()));
    assert_eq!(parent_dir("a/./b"), Some("a".to_string()));
    assert_eq!(parent_dir("./a"), Some(".".to_string()));
    assert_eq!(parent_dir("a/.."), Some("a".to_string()));
}

#[test]
fn parent_dir_agrees_with_the_standard_library_on_plain_paths() {
    for path in [
        "colmap", "a/b", "a/b/", "a//b", "a/./b", "a/b/.", "/a", "/", "", ".", "..", "a/..",
        "./a", "/a/b/c.exe", "a//b//",
    ] {
        let expected = std::path::Path::new(path)
            .parent()
            .and_then(|dir| dir.to_str())
            .map(|dir| dir.to_string());
        assert_eq!(parent_dir(path), expected, "{:?}", path);
    }
}

#[test]
fn a_joined_path_is_taken_apart_again() {
    for (base, name) in [("scenes", "clip"), ("C:\\tools\\colmap", "bin"), ("a/b", "c.d")] {
        let path = join(base, name);
        assert_eq!(parent_dir(&path), Some(base.to_string()));
    }
    assert_eq!(file_stem(&join("scenes", "clip")), Some("clip".to_string()));
}
