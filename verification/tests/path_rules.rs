use video_upscaler::paths::{file_stem, place, resolve_path, stem};

#[test]
fn relative_paths_are_followed_from_the_base() {
    assert_eq!(resolve_path("/opt/tool", "bin/ffmpeg"), "/opt/tool/bin/ffmpeg");
    assert_eq!(resolve_path("/opt/tool/", "out"), "/opt/tool/out");
    assert_eq!(resolve_path("/opt/tool", "../out"), "/opt/tool/../out");
    assert_eq!(resolve_path("/opt/tool", ""), "/opt/tool/");
}

#[test]
fn absolute_paths_are_kept() {
    assert_eq!(resolve_path("/opt/tool", "/usr/bin/ffmpeg"), "/usr/bin/ffmpeg");
    assert_eq!(resolve_path("/opt/tool", "/"), "/");
}

#[test]
fn paths_are_cleaned_first() {
    assert_eq!(resolve_path("/opt/tool", " \"/videos/a b.mp4\" "), "/videos/a b.mp4");
    assert_eq!(resolve_path("/opt/tool", "'clips/a.mp4'"), "/opt/tool/clips/a.mp4");
}

#[test]
fn an_absolute_base_gives_an_absolute_path() {
    for path in ["out", "a/b", "/a", "..", "'x'", "", "12:30.mp4", "视频:1.mp4", "a/b:c"] {
        assert!(resolve_path("/opt/tool", path).starts_with('/'));
    }
}

#[test]
fn a_resolved_path_is_resolved() {
    for path in ["out", "a/b.mp4", "/videos/a b.mp4", " \"clips/x\" ", "'y'", "..", "12:30.mp4", "c:x", "C:"] {
        let resolved = resolve_path("/opt/tool", path);
        assert_eq!(resolve_path("/opt/tool", &resolved), resolved);
        assert_eq!(resolve_path("/elsewhere", &resolved), resolved);
    }
}

#[test]
fn a_colon_is_kept() {
    assert_eq!(resolve_path("/opt/tool", "12:30.mp4"), "/opt/tool/12:30.mp4");
    assert_eq!(resolve_path("/opt/tool", "a/b:c.mp4"), "/opt/tool/a/b:c.mp4");
}

#[test]
fn a_place_is_chosen() {
    assert_eq!(place("a".to_string(), true, "b/a".to_string()), "a");
    assert_eq!(place("a".to_string(), false, "b/a".to_string()), "b/a");
}

#[test]
fn extensions_are_taken_off() {
    assert_eq!(stem("clip.mp4"), "clip");
    assert_eq!(stem("clip.part.mp4"), "clip.part");
    assert_eq!(stem("clip"), "clip");
    assert_eq!(stem(".hidden"), ".hidden");
    assert_eq!(stem(".hidden.mp4"), ".hidden");
    assert_eq!(stem("clip."), "clip");
    assert_eq!(stem(""), "");
    assert_eq!(stem("视频.mkv"), "视频");
}

#[test]
fn stems_agree_with_the_standard_library() {
    let samples = [
        "clip.mp4", "/a/b.c/clip", "/a/.hidden", "/a/x.y.z", "/a/b/", "/", "..", "a/..", "", ".", "a/.",
        "a..", "...", "..a", "a.b/",
    ];
    for sample in samples {
        let expected = std::path::Path::new(sample)
            .file_stem()
            .map(|name| name.to_string_lossy().into_owned());
        assert_eq!(file_stem(sample), expected);
    }
}

#[test]
fn the_stem_of_a_path_is_that_of_its_file() {
    assert_eq!(file_stem("/videos/clip.mp4"), Some("clip".to_string()));
    assert_eq!(file_stem("/"), None);
    assert_eq!(file_stem("/videos/.."), None);
}
