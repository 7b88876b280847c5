use std::collections::BTreeSet;
use video_upscaler::config::Config;
use video_upscaler::session::{Part, Session, Stage};
use video_upscaler::steps::{Action, Command, Event, Failure, Notice};
use video_upscaler::tools::{Entry, Listing};

type Step = Action<String, Vec<String>>;

/// A small world for a run to work in.
struct World {
    existing: BTreeSet<String>,
    files: BTreeSet<String>,
    config: Config,
    lines: Vec<String>,
    busy_polls: u32,
    frames_done: usize,
    asked: Vec<Step>,
}

fn text(value: &str) -> String {
    value.to_string()
}

fn texts(list: &[&str]) -> Vec<String> {
    list.iter().map(|item| item.to_string()).collect()
}

fn world() -> World {
    let mut existing = BTreeSet::new();
    existing.insert(text("/v/clip.mp4"));
    let mut files = BTreeSet::new();
    files.insert(text("/usr/bin/ffmpeg"));
    files.insert(text("/opt/tool/bin/ffprobe"));
    files.insert(text("/opt/tool/realesrgan-ncnn-vulkan"));
    World {
        existing,
        files,
        config: Config::default_for(""),
        lines: texts(&["\n", "\n", " \"/v/clip.mp4\" \n"]),
        busy_polls: 1,
        frames_done: 0,
        asked: Vec::new(),
    }
}

fn listing(files: usize) -> Event {
    let mut entries = vec![Entry::File; files];
    entries.push(Entry::Other);
    Event::Listed(Listing::Entries(entries))
}

impl World {
    /// Does a piece of work as it should be done.
    fn reply(&mut self, action: &Step) -> Event {
        match action {
            Action::LocateProgram => Event::Located(text("/opt/tool/upscaler")),
            Action::CheckExists(path) => Event::Answer(self.existing.contains(path)),
            Action::WriteFile { path, .. } => {
                self.existing.insert(path.clone());
                Event::Done
            }
            Action::LoadConfig(_) => Event::Loaded(self.config.clone()),
            Action::ListSearchDirs => Event::SearchDirs(texts(&["/usr/bin", "/bin"])),
            Action::ProbeFiles(paths) => {
                Event::Probed(paths.iter().map(|path| self.files.contains(path)).collect())
            }
            Action::QueryVersion { .. } => Event::Printed {
                success: true,
                stdout: b"ffmpeg version 6.1.1\nbuilt\n".to_vec(),
            },
            Action::Ask(_) => Event::Line(self.lines.pop().unwrap()),
            Action::CreateDir(path) => {
                self.existing.insert(path.clone());
                Event::Done
            }
            Action::RemoveDir(path) => {
                self.existing.remove(path);
                Event::Done
            }
            Action::Run(_) => Event::Exited { success: true, code: Some(0) },
            Action::ListDir(path) => {
                if path.ends_with("input_image_tmp") {
                    listing(3)
                } else {
                    self.frames_done += 1;
                    listing(self.frames_done)
                }
            }
            Action::Poll => {
                if self.busy_polls > 0 {
                    self.busy_polls -= 1;
                    Event::Running
                } else {
                    Event::Exited { success: true, code: Some(0) }
                }
            }
            Action::Capture(_) => Event::Printed { success: true, stdout: b"25/1\n".to_vec() },
            _ => Event::Done,
        }
    }

    /// Runs to the end, with one piece of work that comes out otherwise.
    fn run(&mut self, other: impl Fn(&Step) -> Option<Event>) -> Step {
        let mut session = Session::new(false);
        for _ in 0..200 {
            let action = session.action();
            if matches!(action, Action::Finish | Action::Fail(_)) {
                session.advance(Event::Done);
                session.advance(Event::Failed(text("late")));
                assert_eq!(session.action(), action);
                return action;
            }
            let event = match other(&action) {
                Some(event) => event,
                None => self.reply(&action),
            };
            session.advance(event);
            self.asked.push(action);
        }
        panic!("the run does not end");
    }

    fn removed(&self) -> usize {
        self.asked.iter().filter(|action| matches!(action, Action::RemoveDir(_))).count()
    }
}

/// Runs in a world with one change, and expects a failure.
fn expect_failure(
    mut place: World,
    other: impl Fn(&Step) -> Option<Event>,
    failure: Failure<String>,
) -> World {
    assert_eq!(place.run(other), Action::Fail(failure));
    assert_eq!(place.removed(), 0);
    place
}

fn broken() -> Option<Event> {
    Some(Event::Failed(text("no luck")))
}

fn command(program: &str, args: &[&str]) -> Command<String, Vec<String>> {
    Command { program: text(program), args: texts(args), dir: text("/opt/tool") }
}

#[test]
fn a_first_run_asks_for_this_work() {
    let mut place = world();
    assert_eq!(place.run(|_| None), Action::Finish);
    let expected: Vec<Step> = vec![
        Action::LocateProgram,
        Action::EnterDir(text("/opt/tool")),
        Action::CheckExists(text("/opt/tool/config.yaml")),
        Action::WriteFile {
            path: text("/opt/tool/config.yaml"),
            content: Config::default_for("/opt/tool").to_commented_yaml(),
        },
        Action::Show(Notice::ConfigCreated(text("/opt/tool/config.yaml"))),
        Action::LoadConfig(text("/opt/tool/config.yaml")),
        Action::ListSearchDirs,
        Action::ProbeFiles(texts(&[
            "/opt/tool/ffmpeg",
            "/opt/tool/ffmpeg/ffmpeg",
            "/opt/tool/ffmpeg",
            "/opt/tool/bin/ffmpeg",
            "/usr/bin/ffmpeg",
            "/bin/ffmpeg",
        ])),
        Action::ProbeFiles(texts(&[
            "/opt/tool/ffprobe",
            "/opt/tool/ffprobe/ffprobe",
            "/opt/tool/ffprobe",
            "/opt/tool/bin/ffprobe",
            "/usr/bin/ffprobe",
            "/bin/ffprobe",
        ])),
        Action::ProbeFiles(texts(&[
            "/opt/tool/realesrgan-ncnn-vulkan",
            "/opt/tool/realesrgan-ncnn-vulkan/realesrgan-ncnn-vulkan",
            "/opt/tool/realesrgan-ncnn-vulkan",
            "/opt/tool/bin/realesrgan-ncnn-vulkan",
            "/usr/bin/realesrgan-ncnn-vulkan",
            "/bin/realesrgan-ncnn-vulkan",
        ])),
        Action::Show(Notice::Welcome {
            work_dir: text("/opt/tool"),
            output_dir: text("/opt/tool/out"),
        }),
        Action::QueryVersion { program: text("/usr/bin/ffmpeg"), args: texts(&["-version"]) },
        Action::Show(Notice::Version(text("ffmpeg version 6.1.1"))),
        Action::ProbeFiles(texts(&[
            "/opt/tool/realesrgan-ncnn-vulkan",
            "/usr/bin/realesrgan-ncnn-vulkan",
            "/bin/realesrgan-ncnn-vulkan",
        ])),
        Action::Show(Notice::UpscalerFound(text("/opt/tool/realesrgan-ncnn-vulkan"))),
        Action::Show(Notice::Divider),
        Action::Ask(text("请输入视频文件路径 (可直接拖入文件，相对路径基于工作目录): ")),
        Action::CheckExists(text("/v/clip.mp4")),
        Action::Ask(text("请输入视频放大输出目录 (/opt/tool/out): ")),
        Action::Show(Notice::OutputDir(text("/opt/tool/out"))),
        Action::CreateDir(text("/opt/tool/out")),
        Action::Show(Notice::Gap),
        Action::CheckExists(text("/opt/tool/input_image_tmp")),
        Action::CreateDir(text("/opt/tool/input_image_tmp")),
        Action::CheckExists(text("/opt/tool/out_image_tmp")),
        Action::CreateDir(text("/opt/tool/out_image_tmp")),
        Action::Show(Notice::ExportStep),
        Action::Run(command(
            "/usr/bin/ffmpeg",
            &[
                "-i", "/v/clip.mp4", "-qscale:v", "1", "-qmin", "1", "-qmax", "1", "-vsync", "0",
                "/opt/tool/input_image_tmp/frame%08d.png",
            ],
        )),
        Action::ListDir(text("/opt/tool/input_image_tmp")),
        Action::Show(Notice::Frames(3)),
        Action::Show(Notice::UpscaleStep { scale: 2, model: text("realesr-animevideov3") }),
        Action::OpenProgress(3),
        Action::Spawn(command(
            "/opt/tool/realesrgan-ncnn-vulkan",
            &[
                "-i", "/opt/tool/input_image_tmp", "-o", "/opt/tool/out_image_tmp", "-n",
                "realesr-animevideov3", "-s", "2", "-f", "png",
            ],
        )),
        Action::ListDir(text("/opt/tool/out_image_tmp")),
        Action::MoveProgress(1),
        Action::Poll,
        Action::Sleep(500),
        Action::ListDir(text("/opt/tool/out_image_tmp")),
        Action::MoveProgress(2),
        Action::Poll,
        Action::ListDir(text("/opt/tool/out_image_tmp")),
        Action::MoveProgress(3),
        Action::CloseProgress,
        Action::Show(Notice::Gap),
        Action::Show(Notice::ProbeStep),
        Action::Capture(command(
            "/opt/tool/bin/ffprobe",
            &[
                "-v", "error", "-select_streams", "v:0", "-show_entries", "stream=r_frame_rate",
                "-of", "default=noprint_wrappers=1:nokey=1", "/v/clip.mp4",
            ],
        )),
        Action::Show(Notice::Rate(text("25/1"))),
        Action::Show(Notice::ComposeStep),
        Action::Run(command(
            "/usr/bin/ffmpeg",
            &[
                "-framerate", "25/1", "-i", "/opt/tool/out_image_tmp/frame%08d.png", "-i",
                "/v/clip.mp4", "-map", "0:v:0", "-map", "1:a:0", "-c:a", "copy", "-c:v", "libx264",
                "-r", "25/1", "-pix_fmt", "yuv420p", "/opt/tool/out/out_clip.mp4",
            ],
        )),
        Action::Show(Notice::Complete(text("/opt/tool/out/out_clip.mp4"))),
        Action::CheckExists(text("/opt/tool/input_image_tmp")),
        Action::RemoveDir(text("/opt/tool/input_image_tmp")),
        Action::CheckExists(text("/opt/tool/out_image_tmp")),
        Action::RemoveDir(text("/opt/tool/out_image_tmp")),
        Action::Show(Notice::Cleaned),
        Action::Ask(String::new()),
    ];
    assert_eq!(place.asked.len(), expected.len());
    for (asked, expected) in place.asked.iter().zip(expected.iter()) {
        assert_eq!(asked, expected);
    }
}

#[test]
fn a_later_run_writes_no_configuration() {
    let mut place = world();
    place.existing.insert(text("/opt/tool/config.yaml"));
    assert_eq!(place.run(|_| None), Action::Finish);
    assert!(!place.asked.iter().any(|action| matches!(action, Action::WriteFile { .. })));
}

#[test]
fn answers_are_cleaned_and_followed_from_the_program() {
    let mut place = world();
    place.existing.insert(text("/opt/tool/clips/b.mkv"));
    place.lines = texts(&["\n", "'results'\n", "\"clips/b.mkv\"\r\n"]);
    assert_eq!(place.run(|_| None), Action::Finish);
    assert!(place.asked.contains(&Action::CheckExists(text("/opt/tool/clips/b.mkv"))));
    assert!(place.asked.contains(&Action::CreateDir(text("/opt/tool/results"))));
    assert!(place.asked.contains(&Action::Show(Notice::Complete(text("/opt/tool/results/out_b.mp4")))));
}

#[test]
fn answers_may_be_quoted_more_than_once() {
    let mut place = world();
    place.lines = texts(&["\n", "\"'results'\"\n", "'\"/v/clip.mp4\"'\n"]);
    assert_eq!(place.run(|_| None), Action::Finish);
    assert!(place.asked.contains(&Action::CheckExists(text("/v/clip.mp4"))));
    assert!(place.asked.contains(&Action::CreateDir(text("/opt/tool/results"))));
}

#[test]
fn quotes_alone_name_no_video() {
    for line in ["\n", "\"\"\n", "'\"\"'\n", " ' ' \r\n"] {
        let mut place = world();
        place.lines = texts(&["\n", "\n", line]);
        expect_failure(place, |_| None, Failure::NoVideo);
    }
}

#[test]
fn quotes_alone_leave_the_output_directory_at_its_default() {
    let mut place = world();
    place.config.output_dir = text("videos");
    place.lines = texts(&["\n", "'\"\"'\n", "/v/clip.mp4\n"]);
    assert_eq!(place.run(|_| None), Action::Finish);
    assert!(place.asked.contains(&Action::Ask(text("请输入视频放大输出目录 (/opt/tool/videos): "))));
    assert!(place.asked.contains(&Action::CreateDir(text("/opt/tool/videos"))));
    let end = Action::Show(Notice::Complete(text("/opt/tool/videos/out_clip.mp4")));
    assert!(place.asked.contains(&end));
}

#[test]
fn a_good_run_ends_when_real_esrgan_does() {
    for polls in 0..20_u32 {
        let mut place = world();
        place.busy_polls = polls;
        assert_eq!(place.run(|_| None), Action::Finish);
        assert!(place.asked.len() <= 54 + 4 * polls as usize);
        let waits = place.asked.iter().filter(|action| matches!(action, Action::Sleep(500))).count();
        assert_eq!(waits, polls as usize);
    }
}

#[test]
fn the_work_is_done_in_its_order() {
    let mut place = world();
    assert_eq!(place.run(|_| None), Action::Finish);
    let work: Vec<&str> = place
        .asked
        .iter()
        .filter_map(|action| match action {
            Action::Run(_) => Some("run"),
            Action::Spawn(_) => Some("start"),
            Action::Poll => Some("poll"),
            Action::Capture(_) => Some("probe"),
            Action::RemoveDir(_) => Some("remove"),
            _ => None,
        })
        .collect();
    assert_eq!(work, vec!["run", "start", "poll", "poll", "probe", "run", "remove", "remove"]);
}

#[test]
fn unsupported_settings_end_a_run() {
    for (model, scale) in [("other", 2), ("realesrgan-x4plus", 5)] {
        let mut place = world();
        place.config.realesrgan_model = text(model);
        place.config.realesrgan_scale = scale;
        assert!(matches!(place.run(|_| None), Action::Fail(_)));
        assert!(!place.asked.iter().any(|action| {
            matches!(action, Action::Spawn(_) | Action::Capture(_) | Action::RemoveDir(_))
        }));
    }
}

#[test]
fn programs_are_run_by_the_paths_they_were_found_under() {
    let mut place = world();
    place.files.insert(text("/srv/ff/ffmpeg"));
    place.config.ffmpeg_path = text("/srv/ff");
    let end = place.run(|action| match action {
        Action::Capture(_) => {
            Some(Event::Printed { success: true, stdout: b" 30000/1001 \n".to_vec() })
        }
        _ => None,
    });
    assert_eq!(end, Action::Finish);
    for action in &place.asked {
        if let Action::Run(command) = action {
            assert_eq!(command.program, "/srv/ff/ffmpeg");
        }
    }
    assert!(place.asked.contains(&Action::Show(Notice::Rate(text("30000/1001")))));
}

#[test]
fn nothing_follows_a_failed_export() {
    let mut place = world();
    let end = place.run(|action| match action {
        Action::Run(_) => Some(Event::Exited { success: false, code: Some(1) }),
        _ => None,
    });
    assert!(matches!(end, Action::Fail(_)));
    assert!(matches!(place.asked.last(), Some(Action::Run(_))));
    assert!(!place.asked.iter().any(|action| {
        matches!(action, Action::Spawn(_) | Action::Capture(_) | Action::RemoveDir(_))
    }));
}

#[test]
fn executables_have_an_extension_on_windows() {
    let mut session = Session::new(true);
    let mut place = world();
    for _ in 0..7 {
        let event = place.reply(&session.action());
        session.advance(event);
    }
    match session.action() {
        Action::ProbeFiles(paths) => assert!(paths.iter().skip(1).all(|path| path.ends_with("ffmpeg.exe"))),
        other => panic!("{:?}", other),
    }
}

#[test]
fn events_that_do_not_fit_change_nothing() {
    let mut session = Session::new(false);
    session.advance(Event::Done);
    session.advance(Event::Running);
    session.advance(Event::Answer(true));
    assert_eq!(session.action(), Action::LocateProgram);
    session.advance(Event::Located(text("/opt/tool/upscaler")));
    session.advance(Event::Located(text("/elsewhere/upscaler")));
    assert_eq!(session.action(), Action::EnterDir(text("/opt/tool")));
}

#[test]
fn cleaning_up_does_not_fail() {
    let mut place = world();
    let end = place.run(|action| match action {
        Action::RemoveDir(_) => broken(),
        _ => None,
    });
    assert_eq!(end, Action::Finish);
    assert_eq!(place.removed(), 2);
}

#[test]
fn directories_that_are_gone_are_not_removed() {
    let mut place = world();
    let end = place.run(|action| match action {
        Action::CheckExists(path) if path.ends_with("_tmp") => Some(Event::Answer(false)),
        _ => None,
    });
    assert_eq!(end, Action::Finish);
    assert_eq!(place.removed(), 0);
}

#[test]
fn the_last_question_does_not_fail() {
    let mut place = world();
    let end = place.run(|action| match action {
        Action::Ask(question) if question.is_empty() => broken(),
        _ => None,
    });
    assert_eq!(end, Action::Finish);
}

#[test]
fn the_program_must_be_found() {
    expect_failure(
        world(),
        |action| if matches!(action, Action::LocateProgram) { broken() } else { None },
        Failure::NoProgramPath,
    );
    expect_failure(
        world(),
        |action| match action {
            Action::LocateProgram => Some(Event::Located(text("/"))),
            _ => None,
        },
        Failure::NoProgramDir,
    );
    expect_failure(
        world(),
        |action| if matches!(action, Action::EnterDir(_)) { broken() } else { None },
        Failure::EnterDir(text("/opt/tool")),
    );
}

#[test]
fn the_configuration_must_be_readable() {
    let path = text("/opt/tool/config.yaml");
    expect_failure(
        world(),
        |action| if matches!(action, Action::WriteFile { .. }) { broken() } else { None },
        Failure::WriteConfig(path.clone()),
    );
    expect_failure(
        world(),
        |action| if matches!(action, Action::LoadConfig(_)) { broken() } else { None },
        Failure::ReadConfig(path.clone()),
    );
    expect_failure(
        world(),
        |action| if matches!(action, Action::LoadConfig(_)) { Some(Event::Malformed) } else { None },
        Failure::ConfigFormat(path),
    );
}

#[test]
fn missing_tools_stop_a_run() {
    let mut place = world();
    place.files.remove("/opt/tool/realesrgan-ncnn-vulkan");
    let place = expect_failure(
        place,
        |_| None,
        Failure::MissingTools {
            ffmpeg: None,
            upscaler: Some(text("/opt/tool/realesrgan-ncnn-vulkan")),
        },
    );
    assert!(!place.asked.iter().any(|action| matches!(action, Action::Ask(_) | Action::CreateDir(_))));
    assert!(place.asked.contains(&Action::Show(Notice::NoUpscaler(text("/opt/tool/realesrgan-ncnn-vulkan")))));

    let mut place = world();
    place.files.clear();
    let place = expect_failure(
        place,
        |action| if matches!(action, Action::QueryVersion { .. }) { broken() } else { None },
        Failure::MissingTools {
            ffmpeg: Some(text("/opt/tool/ffmpeg")),
            upscaler: Some(text("/opt/tool/realesrgan-ncnn-vulkan")),
        },
    );
    assert!(place.asked.contains(&Action::Show(Notice::NoFfmpeg(text("/opt/tool/ffmpeg")))));

    expect_failure(
        world(),
        |action| match action {
            Action::QueryVersion { .. } => Some(Event::Printed { success: true, stdout: vec![] }),
            _ => None,
        },
        Failure::MissingTools { ffmpeg: Some(text("/usr/bin/ffmpeg")), upscaler: None },
    );
}

#[test]
fn a_version_counts_whatever_the_exit_status() {
    let mut place = world();
    let end = place.run(|action| match action {
        Action::QueryVersion { .. } => Some(Event::Printed { success: false, stdout: b"v\n".to_vec() }),
        _ => None,
    });
    assert_eq!(end, Action::Finish);
}

#[test]
fn a_video_must_be_named_and_exist() {
    let mut place = world();
    place.lines = texts(&[" '' \n"]);
    expect_failure(place, |_| None, Failure::NoVideo);

    let mut place = world();
    place.lines = texts(&["nowhere.mp4\n"]);
    expect_failure(place, |_| None, Failure::VideoMissing(text("/opt/tool/nowhere.mp4")));

    expect_failure(
        world(),
        |action| if matches!(action, Action::Ask(_)) { broken() } else { None },
        Failure::Console(text("no luck")),
    );
    expect_failure(
        world(),
        |action| match action {
            Action::Ask(question) if question.contains("输出目录") => broken(),
            _ => None,
        },
        Failure::Console(text("no luck")),
    );

    let mut place = world();
    place.existing.insert(text("/"));
    place.lines = texts(&["\n", "/\n"]);
    expect_failure(place, |_| None, Failure::NoFileName);
}

#[test]
fn directories_must_be_made_anew() {
    expect_failure(
        world(),
        |action| match action {
            Action::CreateDir(path) if path == "/opt/tool/out" => broken(),
            _ => None,
        },
        Failure::CreateOutput(text("/opt/tool/out")),
    );

    let mut place = world();
    place.existing.insert(text("/opt/tool/input_image_tmp"));
    expect_failure(place, |_| None, Failure::FramesExist(text("input_image_tmp")));

    let mut place = world();
    place.existing.insert(text("/opt/tool/out_image_tmp"));
    let place = expect_failure(place, |_| None, Failure::FramesExist(text("out_image_tmp")));
    assert!(place.existing.contains("/opt/tool/input_image_tmp"));

    for name in ["/opt/tool/input_image_tmp", "/opt/tool/out_image_tmp"] {
        expect_failure(
            world(),
            |action| match action {
                Action::CreateDir(path) if path == name => broken(),
                _ => None,
            },
            Failure::CreateFrames(text(name)),
        );
    }
}

#[test]
fn ffmpeg_must_take_the_video_apart() {
    expect_failure(
        world(),
        |action| if matches!(action, Action::Run(_)) { broken() } else { None },
        Failure::StartExport(text("/usr/bin/ffmpeg")),
    );
    expect_failure(
        world(),
        |action| match action {
            Action::Run(_) => Some(Event::Exited { success: false, code: Some(1) }),
            _ => None,
        },
        Failure::ExportFailed(Some(1)),
    );
}

#[test]
fn settings_must_be_supported() {
    let mut place = world();
    place.config.realesrgan_model = text("waifu2x");
    let place = expect_failure(place, |_| None, Failure::BadModel(text("waifu2x")));
    assert!(!place.asked.iter().any(|action| matches!(action, Action::Spawn(_))));

    let mut place = world();
    place.config.realesrgan_scale = 8;
    let place = expect_failure(place, |_| None, Failure::BadScale(8));
    assert!(place.asked.contains(&Action::Show(Notice::Frames(3))));
    assert!(!place.asked.iter().any(|action| matches!(action, Action::Spawn(_))));
}

#[test]
fn frames_must_be_enlarged() {
    expect_failure(
        world(),
        |action| if matches!(action, Action::Spawn(_)) { broken() } else { None },
        Failure::StartUpscale(text("/opt/tool/realesrgan-ncnn-vulkan")),
    );
    let place = expect_failure(
        world(),
        |action| match action {
            Action::Poll => Some(Event::Exited { success: false, code: None }),
            _ => None,
        },
        Failure::UpscaleFailed(None),
    );
    assert_eq!(place.asked.last(), Some(&Action::CloseProgress));
    let place = expect_failure(
        world(),
        |action| if matches!(action, Action::Poll) { broken() } else { None },
        Failure::WaitFailed(text("no luck")),
    );
    assert_eq!(place.asked.last(), Some(&Action::AbandonProgress));
}

#[test]
fn the_frame_rate_must_be_known() {
    expect_failure(
        world(),
        |action| if matches!(action, Action::Capture(_)) { broken() } else { None },
        Failure::StartProbe(text("/opt/tool/bin/ffprobe")),
    );
    expect_failure(
        world(),
        |action| match action {
            Action::Capture(_) => Some(Event::Printed { success: false, stdout: b"25/1".to_vec() }),
            _ => None,
        },
        Failure::ProbeFailed,
    );
    expect_failure(
        world(),
        |action| match action {
            Action::Capture(_) => Some(Event::Printed { success: true, stdout: b" \n".to_vec() }),
            _ => None,
        },
        Failure::NoRate,
    );
}

#[test]
fn ffmpeg_must_put_the_video_together() {
    let composes = |action: &Step| match action {
        Action::Run(command) => command.args[0] == "-framerate",
        _ => false,
    };
    expect_failure(
        world(),
        |action| if composes(action) { broken() } else { None },
        Failure::StartCompose,
    );
    expect_failure(
        world(),
        |action| {
            if composes(action) {
                Some(Event::Exited { success: false, code: Some(69) })
            } else {
                None
            }
        },
        Failure::ComposeFailed(Some(69)),
    );
}

#[test]
fn a_slow_upscaler_is_waited_for() {
    let mut place = world();
    place.busy_polls = 5;
    assert_eq!(place.run(|_| None), Action::Finish);
    let sleeps = place.asked.iter().filter(|action| matches!(action, Action::Sleep(500))).count();
    assert_eq!(sleeps, 5);
    let runs = place.asked.iter().filter(|action| matches!(action, Action::Spawn(_))).count();
    assert_eq!(runs, 1);
}

#[test]
fn stages_belong_to_parts() {
    assert_eq!(Stage::Locate.part_of(), Part::Setup);
    assert_eq!(Stage::AskVideo.part_of(), Part::Input);
    assert_eq!(Stage::Wait.part_of(), Part::Frames);
    assert_eq!(Stage::Compose.part_of(), Part::Compose);
    assert_eq!(Stage::Failed.part_of(), Part::Compose);
}
