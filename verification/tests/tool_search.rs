use video_upscaler::tools::{
    check_candidates, count_files_in_dir, exe_exists, exe_name, ffmpeg_version, find_in_path,
    first_file, frame_rate, resolve_tool, tool_candidates, Entry, Listing,
};

fn strings(list: &[&str]) -> Vec<String> {
    list.iter().map(|item| item.to_string()).collect()
}

#[test]
fn executables_are_named() {
    assert_eq!(exe_name("ffmpeg", false), "ffmpeg");
    assert_eq!(exe_name("ffmpeg", true), "ffmpeg.exe");
}

#[test]
fn a_tool_is_looked_for_in_order() {
    let dirs = strings(&["/usr/bin", "/bin"]);
    assert_eq!(
        tool_candidates("/opt/tool", "lib/ffmpeg", "ffmpeg", false, &dirs),
        strings(&[
            "/opt/tool/lib/ffmpeg",
            "/opt/tool/lib/ffmpeg/ffmpeg",
            "/opt/tool/ffmpeg",
            "/opt/tool/bin/ffmpeg",
            "/usr/bin/ffmpeg",
            "/bin/ffmpeg",
        ])
    );
    assert_eq!(
        tool_candidates("/opt/tool", " ", "ffmpeg", true, &dirs),
        strings(&[
            "/opt/tool/ffmpeg.exe",
            "/opt/tool/bin/ffmpeg.exe",
            "/usr/bin/ffmpeg.exe",
            "/bin/ffmpeg.exe",
        ])
    );
}

#[test]
fn the_first_file_wins() {
    let list = strings(&["a", "b", "c"]);
    assert_eq!(first_file(&list, &vec![false, true, true]), Some("b".to_string()));
    assert_eq!(first_file(&list, &vec![false, false, false]), None);
    assert_eq!(first_file(&list, &vec![false]), None);
    assert_eq!(first_file(&list, &vec![]), None);
    assert_eq!(first_file(&vec![], &vec![true]), None);
    assert_eq!(first_file(&list, &vec![false, false, false, true]), None);
}

#[test]
fn a_tool_is_run_from_the_first_place_that_has_it() {
    let dirs = strings(&["/usr/bin"]);
    let find = |answers: Vec<bool>| resolve_tool("/opt/tool", "x/ffmpeg", "ffmpeg", false, &dirs, &answers);
    assert_eq!(find(vec![true, true, true, true, true]), "/opt/tool/x/ffmpeg");
    assert_eq!(find(vec![false, true, false, true, true]), "/opt/tool/x/ffmpeg/ffmpeg");
    assert_eq!(find(vec![false, false, true, true, true]), "/opt/tool/ffmpeg");
    assert_eq!(find(vec![false, false, false, true, true]), "/opt/tool/bin/ffmpeg");
    assert_eq!(find(vec![false, false, false, false, true]), "/usr/bin/ffmpeg");
}

#[test]
fn a_tool_that_is_nowhere_is_shown_as_configured() {
    let dirs = strings(&["/usr/bin"]);
    let none = vec![false; 5];
    assert_eq!(resolve_tool("/opt/tool", "x/ffmpeg", "ffmpeg", false, &dirs, &none), "/opt/tool/x/ffmpeg");
    assert_eq!(resolve_tool("/opt/tool", "", "ffmpeg", false, &dirs, &none), "/opt/tool/ffmpeg");
}

#[test]
fn the_search_path_is_searched_in_order() {
    let dirs = strings(&["/usr/local/bin", "/usr/bin"]);
    assert_eq!(find_in_path("ffmpeg", &dirs, &vec![false, true]), Some("/usr/bin/ffmpeg".to_string()));
    assert_eq!(find_in_path("ffmpeg", &dirs, &vec![true, true]), Some("/usr/local/bin/ffmpeg".to_string()));
    assert_eq!(find_in_path("ffmpeg", &dirs, &vec![false, false]), None);
    assert_eq!(find_in_path("ffmpeg", &vec![], &vec![]), None);
}

#[test]
fn a_tool_is_checked_at_its_path_and_on_the_search_path() {
    let dirs = strings(&["/usr/bin", "/bin"]);
    assert_eq!(
        check_candidates("/opt/tool/realesrgan-ncnn-vulkan", &dirs),
        strings(&[
            "/opt/tool/realesrgan-ncnn-vulkan",
            "/usr/bin/realesrgan-ncnn-vulkan",
            "/bin/realesrgan-ncnn-vulkan",
        ])
    );
    assert_eq!(check_candidates("/opt/tool/..", &dirs), strings(&["/opt/tool/.."]));
    assert!(exe_exists("/opt/tool/x", &dirs, &vec![true, false, false]));
    assert!(exe_exists("/opt/tool/x", &dirs, &vec![false, false, true]));
    assert!(!exe_exists("/opt/tool/x", &dirs, &vec![false, false, false]));
    assert!(!exe_exists("/opt/tool/..", &dirs, &vec![false, true, true]));
}

#[test]
fn versions_are_read_from_output() {
    let output = b"ffmpeg version 6.1.1 Copyright\nbuilt with gcc\n".to_vec();
    assert_eq!(ffmpeg_version(&Some(output)), Some("ffmpeg version 6.1.1 Copyright".to_string()));
    assert_eq!(ffmpeg_version(&Some(vec![0x61, 0xff, 0x0a])), Some("a\u{fffd}".to_string()));
    let output = "版本 6.1\r\n配置\n".as_bytes().to_vec();
    assert_eq!(ffmpeg_version(&Some(output)), Some("版本 6.1".to_string()));
    assert_eq!(ffmpeg_version(&Some(vec![])), None);
    assert_eq!(ffmpeg_version(&None), None);
}

#[test]
fn frame_rates_are_read_from_output() {
    assert_eq!(frame_rate(&b"30000/1001\n".to_vec()), "30000/1001");
    assert_eq!(frame_rate(&b"  \r\n".to_vec()), "");
    assert_eq!(frame_rate(&b"25/1\n25/1\n".to_vec()), "25/1\n25/1");
    assert_eq!(frame_rate(&"\u{3000}每秒 25\n".as_bytes().to_vec()), "每秒 25");
    assert_eq!(frame_rate(&vec![0x20, 0xc3, 0x28]), "\u{fffd}(");
}

#[test]
fn files_are_counted() {
    assert_eq!(count_files_in_dir(&Listing::Missing), 0);
    assert_eq!(count_files_in_dir(&Listing::Unreadable), 0);
    assert_eq!(count_files_in_dir(&Listing::Entries(vec![])), 0);
    let entries = vec![Entry::File, Entry::Other, Entry::File, Entry::Unreadable, Entry::File];
    assert_eq!(count_files_in_dir(&Listing::Entries(entries)), 3);
}
