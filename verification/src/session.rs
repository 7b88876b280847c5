//! A run as a whole: which outside work is asked for next, going by what came of the work before.

use crate::commands;
use crate::config;
use crate::paths;
use crate::steps::{Action, Command, Event, Failure, Notice};
use crate::text;
use crate::tools;
use vstd::prelude::*;

verus! {

/// How long to wait between two looks at the program that enlarges the frames, in milliseconds.
pub const POLL_INTERVAL: u64 = 500;

/// The question for the video.
pub const ASK_VIDEO: &'static str = "请输入视频文件路径 (可直接拖入文件，相对路径基于工作目录): ";

/// How far a run has come.
#[derive(Clone, Copy, Debug, PartialEq, Eq, Structural)]
pub enum Stage {
    Locate,
    Enter,
    CheckConfig,
    WriteConfig,
    ShowConfig,
    LoadConfig,
    ListSearchDirs,
    FindFfmpeg,
    FindFfprobe,
    FindUpscaler,
    Welcome,
    QueryVersion,
    ShowVersion,
    CheckUpscaler,
    ShowUpscaler,
    Divide,
    AskVideo,
    CheckVideo,
    AskOutput,
    ShowOutput,
    CreateOutput,
    Prepare,
    CheckInput,
    CreateInput,
    CheckOutput,
    CreateOutputFrames,
    ShowExport,
    Export,
    CountFrames,
    ShowFrames,
    ShowUpscale,
    OpenProgress,
    Launch,
    CountDone,
    MoveProgress,
    Poll,
    Wait,
    CountLast,
    MoveLast,
    CloseProgress,
    AbandonProgress,
    Upscaled,
    ShowProbe,
    Probe,
    ShowRate,
    ShowCompose,
    Compose,
    ShowComplete,
    CheckInputLeft,
    RemoveInput,
    CheckOutputLeft,
    RemoveOutput,
    ShowCleaned,
    AskExit,
    Finished,
    Failed,
}

/// The parts of a run.
#[derive(Clone, Copy, Debug, PartialEq, Eq, Structural)]
pub enum Part {
    /// The configuration and the tools.
    Setup,
    /// The questions, and the directories that their answers call for.
    Input,
    /// Taking the video apart, and enlarging its frames.
    Frames,
    /// Putting the video together, and cleaning up.
    Compose,
}

impl Stage {
    /// The part of the run that a stage belongs to.
    pub open spec fn part(self) -> Part {
        match self {
            Stage::Locate | Stage::Enter | Stage::CheckConfig | Stage::WriteConfig
            | Stage::ShowConfig | Stage::LoadConfig | Stage::ListSearchDirs | Stage::FindFfmpeg
            | Stage::FindFfprobe | Stage::FindUpscaler | Stage::Welcome | Stage::QueryVersion
            | Stage::ShowVersion | Stage::CheckUpscaler | Stage::ShowUpscaler
            | Stage::Divide => Part::Setup,
            Stage::AskVideo | Stage::CheckVideo | Stage::AskOutput | Stage::ShowOutput
            | Stage::CreateOutput | Stage::Prepare | Stage::CheckInput | Stage::CreateInput
            | Stage::CheckOutput | Stage::CreateOutputFrames => Part::Input,
            Stage::ShowExport | Stage::Export | Stage::CountFrames | Stage::ShowFrames
            | Stage::ShowUpscale | Stage::OpenProgress | Stage::Launch | Stage::CountDone
            | Stage::MoveProgress | Stage::Poll | Stage::Wait | Stage::CountLast | Stage::MoveLast
            | Stage::CloseProgress | Stage::AbandonProgress | Stage::Upscaled => Part::Frames,
            _ => Part::Compose,
        }
    }

    /// Tells which part of the run a stage belongs to.
    pub fn part_of(&self) -> (part: Part)
        ensures
            part == self.part(),
    {
        match self {
            Stage::Locate | Stage::Enter | Stage::CheckConfig | Stage::WriteConfig
            | Stage::ShowConfig | Stage::LoadConfig | Stage::ListSearchDirs | Stage::FindFfmpeg
            | Stage::FindFfprobe | Stage::FindUpscaler | Stage::Welcome | Stage::QueryVersion
            | Stage::ShowVersion | Stage::CheckUpscaler | Stage::ShowUpscaler
            | Stage::Divide => Part::Setup,
            Stage::AskVideo | Stage::CheckVideo | Stage::AskOutput | Stage::ShowOutput
            | Stage::CreateOutput | Stage::Prepare | Stage::CheckInput | Stage::CreateInput
            | Stage::CheckOutput | Stage::CreateOutputFrames => Part::Input,
            Stage::ShowExport | Stage::Export | Stage::CountFrames | Stage::ShowFrames
            | Stage::ShowUpscale | Stage::OpenProgress | Stage::Launch | Stage::CountDone
            | Stage::MoveProgress | Stage::Poll | Stage::Wait | Stage::CountLast | Stage::MoveLast
            | Stage::CloseProgress | Stage::AbandonProgress | Stage::Upscaled => Part::Frames,
            _ => Part::Compose,
        }
    }
}

/// What is known in a run.
pub struct SessionView {
    /// Whether the program runs on Windows.
    pub windows: bool,
    /// How far the run has come.
    pub stage: Stage,
    /// The program's directory.
    pub exe_dir: Seq<char>,
    /// The configuration.
    pub config: config::ConfigView,
    /// The directories of the search path.
    pub search_dirs: Seq<Seq<char>>,
    /// The path of ffmpeg.
    pub ffmpeg: Seq<char>,
    /// The path of ffprobe.
    pub ffprobe: Seq<char>,
    /// The path of Real-ESRGAN.
    pub upscaler: Seq<char>,
    /// The version of ffmpeg, where it can be run.
    pub version: Option<Seq<char>>,
    /// Whether Real-ESRGAN is there.
    pub upscaler_found: bool,
    /// The path of the video.
    pub video: Seq<char>,
    /// The output directory.
    pub output_dir: Seq<char>,
    /// The name of the video without its extension.
    pub stem: Seq<char>,
    /// How many frames the video has.
    pub frames: usize,
    /// How many of them are enlarged.
    pub done: usize,
    /// Whether Real-ESRGAN ended well.
    pub upscaled: bool,
    /// The exit code of Real-ESRGAN.
    pub upscale_code: Option<i32>,
    /// Why Real-ESRGAN cannot be waited for.
    pub wait_error: Seq<char>,
    /// The frame rate of the video.
    pub rate: Seq<char>,
    /// Why the run failed.
    pub failure: Failure<Seq<char>>,
}

/// Nothing is known yet.
pub open spec fn start(windows: bool) -> SessionView {
    SessionView {
        windows,
        stage: Stage::Locate,
        exe_dir: ""@,
        config: config::default_config(),
        search_dirs: seq![],
        ffmpeg: ""@,
        ffprobe: ""@,
        upscaler: ""@,
        version: None,
        upscaler_found: false,
        video: ""@,
        output_dir: ""@,
        stem: ""@,
        frames: 0,
        done: 0,
        upscaled: false,
        upscale_code: None,
        wait_error: ""@,
        rate: ""@,
        failure: Failure::NoProgramPath,
    }
}

impl SessionView {
    /// The same run at another stage.
    pub open spec fn at(self, stage: Stage) -> SessionView {
        SessionView { stage, ..self }
    }

    /// The same run, failed.
    pub open spec fn failed(self, failure: Failure<Seq<char>>) -> SessionView {
        SessionView { stage: Stage::Failed, failure, ..self }
    }

    /// Where a tool is looked for.
    pub open spec fn places(self, configured: Seq<char>, tool: Seq<char>) -> Seq<Seq<char>> {
        tools::tool_places(
            self.exe_dir,
            configured,
            tools::executable_name(tool, self.windows),
            self.search_dirs,
        )
    }

    /// The directory for the frames of the video.
    pub open spec fn input(self) -> Seq<char> {
        commands::input_frames(self.exe_dir)
    }

    /// The directory for the enlarged frames.
    pub open spec fn output(self) -> Seq<char> {
        commands::output_frames(self.exe_dir)
    }

    /// The output directory where the user names none.
    pub open spec fn default_output(self) -> Seq<char> {
        config::default_output(self.exe_dir, self.config.output_dir)
    }

    /// The file that the enlarged video is written to.
    pub open spec fn file(self) -> Seq<char> {
        commands::video_file(self.output_dir, self.stem)
    }

    /// A program with its arguments, run in the program's directory.
    pub open spec fn command(self, program: Seq<char>, args: Seq<Seq<char>>) -> Command<
        Seq<char>,
        Seq<Seq<char>>,
    > {
        Command { program, args, dir: self.exe_dir }
    }

    /// The work that is asked for.
    pub open spec fn action(self) -> Action<Seq<char>, Seq<Seq<char>>> {
        match self.stage {
            Stage::Locate => Action::LocateProgram,
            Stage::Enter => Action::EnterDir(self.exe_dir),
            Stage::CheckConfig => Action::CheckExists(config::config_file(self.exe_dir)),
            Stage::WriteConfig => Action::WriteFile {
                path: config::config_file(self.exe_dir),
                content: config::commented_yaml(config::default_config()),
            },
            Stage::ShowConfig => Action::Show(
                Notice::ConfigCreated(config::config_file(self.exe_dir)),
            ),
            Stage::LoadConfig => Action::LoadConfig(config::config_file(self.exe_dir)),
            Stage::ListSearchDirs => Action::ListSearchDirs,
            Stage::FindFfmpeg => Action::ProbeFiles(
                self.places(self.config.ffmpeg_path, "ffmpeg"@),
            ),
            Stage::FindFfprobe => Action::ProbeFiles(
                self.places(self.config.ffprobe_path, "ffprobe"@),
            ),
            Stage::FindUpscaler => Action::ProbeFiles(
                self.places(self.config.realesrgan_path, "realesrgan-ncnn-vulkan"@),
            ),
            Stage::Welcome => Action::Show(
                Notice::Welcome { work_dir: self.exe_dir, output_dir: self.default_output() },
            ),
            Stage::QueryVersion => Action::QueryVersion {
                program: self.ffmpeg,
                args: commands::version_arguments(),
            },
            Stage::ShowVersion => Action::Show(
                match self.version {
                    Some(version) => Notice::Version(version),
                    None => Notice::NoFfmpeg(self.ffmpeg),
                },
            ),
            Stage::CheckUpscaler => Action::ProbeFiles(
                tools::check_places(self.upscaler, self.search_dirs),
            ),
            Stage::ShowUpscaler => Action::Show(
                if self.upscaler_found {
                    Notice::UpscalerFound(self.upscaler)
                } else {
                    Notice::NoUpscaler(self.upscaler)
                },
            ),
            Stage::Divide => Action::Show(Notice::Divider),
            Stage::AskVideo => Action::Ask(ASK_VIDEO@),
            Stage::CheckVideo => Action::CheckExists(self.video),
            Stage::AskOutput => Action::Ask(
                "请输入视频放大输出目录 ("@ + self.default_output() + "): "@,
            ),
            Stage::ShowOutput => Action::Show(Notice::OutputDir(self.output_dir)),
            Stage::CreateOutput => Action::CreateDir(self.output_dir),
            Stage::Prepare => Action::Show(Notice::Gap),
            Stage::CheckInput => Action::CheckExists(self.input()),
            Stage::CreateInput => Action::CreateDir(self.input()),
            Stage::CheckOutput => Action::CheckExists(self.output()),
            Stage::CreateOutputFrames => Action::CreateDir(self.output()),
            Stage::ShowExport => Action::Show(Notice::ExportStep),
            Stage::Export => Action::Run(
                self.command(
                    self.ffmpeg,
                    commands::export_arguments(self.video, self.input()),
                ),
            ),
            Stage::CountFrames => Action::ListDir(self.input()),
            Stage::ShowFrames => Action::Show(Notice::Frames(self.frames)),
            Stage::ShowUpscale => Action::Show(
                Notice::UpscaleStep {
                    scale: self.config.realesrgan_scale,
                    model: self.config.realesrgan_model,
                },
            ),
            Stage::OpenProgress => Action::OpenProgress(self.frames),
            Stage::Launch => Action::Spawn(
                self.command(
                    self.upscaler,
                    commands::upscale_arguments(
                        self.input(),
                        self.output(),
                        self.config.realesrgan_model,
                        self.config.realesrgan_scale,
                    ),
                ),
            ),
            Stage::CountDone => Action::ListDir(self.output()),
            Stage::MoveProgress => Action::MoveProgress(self.done),
            Stage::Poll => Action::Poll,
            Stage::Wait => Action::Sleep(POLL_INTERVAL),
            Stage::CountLast => Action::ListDir(self.output()),
            Stage::MoveLast => Action::MoveProgress(self.done),
            Stage::CloseProgress => Action::CloseProgress,
            Stage::AbandonProgress => Action::AbandonProgress,
            Stage::Upscaled => Action::Show(Notice::Gap),
            Stage::ShowProbe => Action::Show(Notice::ProbeStep),
            Stage::Probe => Action::Capture(
                self.command(self.ffprobe, commands::probe_arguments(self.video)),
            ),
            Stage::ShowRate => Action::Show(Notice::Rate(self.rate)),
            Stage::ShowCompose => Action::Show(Notice::ComposeStep),
            Stage::Compose => Action::Run(
                self.command(
                    self.ffmpeg,
                    commands::compose_arguments(
                        self.rate,
                        self.output(),
                        self.video,
                        self.file(),
                    ),
                ),
            ),
            Stage::ShowComplete => Action::Show(Notice::Complete(self.file())),
            Stage::CheckInputLeft => Action::CheckExists(self.input()),
            Stage::RemoveInput => Action::RemoveDir(self.input()),
            Stage::CheckOutputLeft => Action::CheckExists(self.output()),
            Stage::RemoveOutput => Action::RemoveDir(self.output()),
            Stage::ShowCleaned => Action::Show(Notice::Cleaned),
            Stage::AskExit => Action::Ask(""@),
            Stage::Finished => Action::Finish,
            Stage::Failed => Action::Fail(self.failure),
        }
    }

    /// Once a stage that only shows or waits is over.
    pub open spec fn shown(self, event: Event, stage: Stage) -> SessionView {
        if event is Done {
            self.at(stage)
        } else {
            self
        }
    }

    /// Once it is known whether there is something under a path.
    pub open spec fn checked(self, event: Event, there: SessionView, absent: SessionView) -> SessionView {
        match event {
            Event::Answer(true) => there,
            Event::Answer(false) => absent,
            _ => self,
        }
    }

    /// Once work was done, or failed.
    pub open spec fn tried(
        self,
        event: Event,
        done: SessionView,
        failure: Failure<Seq<char>>,
    ) -> SessionView {
        match event {
            Event::Done => done,
            Event::Failed(_) => self.failed(failure),
            _ => self,
        }
    }

    /// The run up to the questions: the configuration and the tools.
    pub open spec fn next_setup(self, event: Event) -> SessionView {
        match self.stage {
            Stage::Locate => match event {
                Event::Located(path) => match paths::parent_path(path@) {
                    Some(dir) => SessionView { stage: Stage::Enter, exe_dir: dir, ..self },
                    None => self.failed(Failure::NoProgramDir),
                },
                Event::Failed(_) => self.failed(Failure::NoProgramPath),
                _ => self,
            },
            Stage::Enter => self.tried(
                event,
                self.at(Stage::CheckConfig),
                Failure::EnterDir(self.exe_dir),
            ),
            Stage::CheckConfig => self.checked(
                event,
                self.at(Stage::LoadConfig),
                self.at(Stage::WriteConfig),
            ),
            Stage::WriteConfig => self.tried(
                event,
                self.at(Stage::ShowConfig),
                Failure::WriteConfig(config::config_file(self.exe_dir)),
            ),
            Stage::ShowConfig => self.shown(event, Stage::LoadConfig),
            Stage::LoadConfig => match event {
                Event::Loaded(config) => SessionView {
                    stage: Stage::ListSearchDirs,
                    config: config@,
                    ..self
                },
                Event::Failed(_) => self.failed(
                    Failure::ReadConfig(config::config_file(self.exe_dir)),
                ),
                Event::Malformed => self.failed(
                    Failure::ConfigFormat(config::config_file(self.exe_dir)),
                ),
                _ => self,
            },
            Stage::ListSearchDirs => match event {
                Event::SearchDirs(dirs) => SessionView {
                    stage: Stage::FindFfmpeg,
                    search_dirs: text::texts(dirs@),
                    ..self
                },
                _ => self,
            },
            Stage::FindFfmpeg => match event {
                Event::Probed(answers) => SessionView {
                    stage: Stage::FindFfprobe,
                    ffmpeg: tools::tool_path(
                        self.places(self.config.ffmpeg_path, "ffmpeg"@),
                        answers@,
                    ),
                    ..self
                },
                _ => self,
            },
            Stage::FindFfprobe => match event {
                Event::Probed(answers) => SessionView {
                    stage: Stage::FindUpscaler,
                    ffprobe: tools::tool_path(
                        self.places(self.config.ffprobe_path, "ffprobe"@),
                        answers@,
                    ),
                    ..self
                },
                _ => self,
            },
            Stage::FindUpscaler => match event {
                Event::Probed(answers) => SessionView {
                    stage: Stage::Welcome,
                    upscaler: tools::tool_path(
                        self.places(self.config.realesrgan_path, "realesrgan-ncnn-vulkan"@),
                        answers@,
                    ),
                    ..self
                },
                _ => self,
            },
            Stage::Welcome => self.shown(event, Stage::QueryVersion),
            Stage::QueryVersion => match event {
                Event::Printed { success: _, stdout } => SessionView {
                    stage: Stage::ShowVersion,
                    version: tools::version_line(Some(stdout@)),
                    ..self
                },
                Event::Failed(_) => SessionView {
                    stage: Stage::ShowVersion,
                    version: None,
                    ..self
                },
                _ => self,
            },
            Stage::ShowVersion => self.shown(event, Stage::CheckUpscaler),
            Stage::CheckUpscaler => match event {
                Event::Probed(answers) => SessionView {
                    stage: Stage::ShowUpscaler,
                    upscaler_found: tools::first_found(
                        tools::check_places(self.upscaler, self.search_dirs),
                        answers@,
                    ) is Some,
                    ..self
                },
                _ => self,
            },
            Stage::ShowUpscaler => if event !is Done {
                self
            } else if self.version is Some && self.upscaler_found {
                self.at(Stage::Divide)
            } else {
                self.failed(
                    Failure::MissingTools {
                        ffmpeg: if self.version is Some {
                            None
                        } else {
                            Some(self.ffmpeg)
                        },
                        upscaler: if self.upscaler_found {
                            None
                        } else {
                            Some(self.upscaler)
                        },
                    },
                )
            },
            Stage::Divide => self.shown(event, Stage::AskVideo),
            _ => self,
        }
    }

    /// The questions, and the directories that their answers call for.
    pub open spec fn next_input(self, event: Event) -> SessionView {
        match self.stage {
            Stage::AskVideo => match event {
                Event::Line(line) => if text::answered(line@).len() == 0 {
                    self.failed(Failure::NoVideo)
                } else {
                    SessionView {
                        stage: Stage::CheckVideo,
                        video: paths::resolved_path(self.exe_dir, text::answered(line@)),
                        ..self
                    }
                },
                Event::Failed(reason) => self.failed(Failure::Console(reason@)),
                _ => self,
            },
            Stage::CheckVideo => self.checked(
                event,
                self.at(Stage::AskOutput),
                self.failed(Failure::VideoMissing(self.video)),
            ),
            Stage::AskOutput => match event {
                Event::Line(line) => SessionView {
                    stage: Stage::ShowOutput,
                    output_dir: if text::answered(line@).len() == 0 {
                        self.default_output()
                    } else {
                        paths::resolved_path(self.exe_dir, text::answered(line@))
                    },
                    ..self
                },
                Event::Failed(reason) => self.failed(Failure::Console(reason@)),
                _ => self,
            },
            Stage::ShowOutput => self.shown(event, Stage::CreateOutput),
            Stage::CreateOutput => self.tried(
                event,
                match paths::path_stem(self.video) {
                    Some(stem) => SessionView { stage: Stage::Prepare, stem, ..self },
                    None => self.failed(Failure::NoFileName),
                },
                Failure::CreateOutput(self.output_dir),
            ),
            Stage::Prepare => self.shown(event, Stage::CheckInput),
            Stage::CheckInput => self.checked(
                event,
                self.failed(Failure::FramesExist(commands::INPUT_TMP@)),
                self.at(Stage::CreateInput),
            ),
            Stage::CreateInput => self.tried(
                event,
                self.at(Stage::CheckOutput),
                Failure::CreateFrames(self.input()),
            ),
            Stage::CheckOutput => self.checked(
                event,
                self.failed(Failure::FramesExist(commands::OUTPUT_TMP@)),
                self.at(Stage::CreateOutputFrames),
            ),
            Stage::CreateOutputFrames => self.tried(
                event,
                self.at(Stage::ShowExport),
                Failure::CreateFrames(self.output()),
            ),
            _ => self,
        }
    }

    /// Taking the video apart, and enlarging its frames.
    pub open spec fn next_frames(self, event: Event) -> SessionView {
        match self.stage {
            Stage::ShowExport => self.shown(event, Stage::Export),
            Stage::Export => match event {
                Event::Exited { success: true, code: _ } => self.at(Stage::CountFrames),
                Event::Exited { success: false, code } => self.failed(Failure::ExportFailed(code)),
                Event::Failed(_) => self.failed(Failure::StartExport(self.ffmpeg)),
                _ => self,
            },
            Stage::CountFrames => match event {
                Event::Listed(listing) => SessionView {
                    stage: Stage::ShowFrames,
                    frames: tools::file_count(listing) as usize,
                    ..self
                },
                _ => self,
            },
            Stage::ShowFrames => if event !is Done {
                self
            } else if !config::models().contains(self.config.realesrgan_model) {
                self.failed(Failure::BadModel(self.config.realesrgan_model))
            } else if !config::is_scale(self.config.realesrgan_scale) {
                self.failed(Failure::BadScale(self.config.realesrgan_scale))
            } else {
                self.at(Stage::ShowUpscale)
            },
            Stage::ShowUpscale => self.shown(event, Stage::OpenProgress),
            Stage::OpenProgress => self.shown(event, Stage::Launch),
            Stage::Launch => self.tried(
                event,
                self.at(Stage::CountDone),
                Failure::StartUpscale(self.upscaler),
            ),
            Stage::CountDone => match event {
                Event::Listed(listing) => SessionView {
                    stage: Stage::MoveProgress,
                    done: tools::file_count(listing) as usize,
                    ..self
                },
                _ => self,
            },
            Stage::MoveProgress => self.shown(event, Stage::Poll),
            Stage::Poll => match event {
                Event::Running => self.at(Stage::Wait),
                Event::Exited { success, code } => SessionView {
                    stage: Stage::CountLast,
                    upscaled: success,
                    upscale_code: code,
                    ..self
                },
                Event::Failed(reason) => SessionView {
                    stage: Stage::AbandonProgress,
                    wait_error: reason@,
                    ..self
                },
                _ => self,
            },
            Stage::Wait => self.shown(event, Stage::CountDone),
            Stage::CountLast => match event {
                Event::Listed(listing) => SessionView {
                    stage: Stage::MoveLast,
                    done: tools::file_count(listing) as usize,
                    ..self
                },
                _ => self,
            },
            Stage::MoveLast => self.shown(event, Stage::CloseProgress),
            Stage::CloseProgress => if event !is Done {
                self
            } else if self.upscaled {
                self.at(Stage::Upscaled)
            } else {
                self.failed(Failure::UpscaleFailed(self.upscale_code))
            },
            Stage::AbandonProgress => if event is Done {
                self.failed(Failure::WaitFailed(self.wait_error))
            } else {
                self
            },
            Stage::Upscaled => self.shown(event, Stage::ShowProbe),
            _ => self,
        }
    }

    /// Putting the video together, and cleaning up.
    pub open spec fn next_compose(self, event: Event) -> SessionView {
        match self.stage {
            Stage::ShowProbe => self.shown(event, Stage::Probe),
            Stage::Probe => match event {
                Event::Printed { success: true, stdout } => if tools::printed_rate(stdout@).len()
                    == 0 {
                    self.failed(Failure::NoRate)
                } else {
                    SessionView {
                        stage: Stage::ShowRate,
                        rate: tools::printed_rate(stdout@),
                        ..self
                    }
                },
                Event::Printed { success: false, stdout: _ } => self.failed(Failure::ProbeFailed),
                Event::Failed(_) => self.failed(Failure::StartProbe(self.ffprobe)),
                _ => self,
            },
            Stage::ShowRate => self.shown(event, Stage::ShowCompose),
            Stage::ShowCompose => self.shown(event, Stage::Compose),
            Stage::Compose => match event {
                Event::Exited { success: true, code: _ } => self.at(Stage::ShowComplete),
                Event::Exited { success: false, code } => self.failed(Failure::ComposeFailed(code)),
                Event::Failed(_) => self.failed(Failure::StartCompose),
                _ => self,
            },
            Stage::ShowComplete => self.shown(event, Stage::CheckInputLeft),
            Stage::CheckInputLeft => self.checked(
                event,
                self.at(Stage::RemoveInput),
                self.at(Stage::CheckOutputLeft),
            ),
            Stage::RemoveInput => if event is Done || event is Failed {
                self.at(Stage::CheckOutputLeft)
            } else {
                self
            },
            Stage::CheckOutputLeft => self.checked(
                event,
                self.at(Stage::RemoveOutput),
                self.at(Stage::ShowCleaned),
            ),
            Stage::RemoveOutput => if event is Done || event is Failed {
                self.at(Stage::ShowCleaned)
            } else {
                self
            },
            Stage::ShowCleaned => self.shown(event, Stage::AskExit),
            Stage::AskExit => if event is Line || event is Failed {
                self.at(Stage::Finished)
            } else {
                self
            },
            _ => self,
        }
    }

    /// The run after an event. An event that does not answer the work asked for leaves the run
    /// as it is, and so does any event once it is over.
    pub open spec fn next(self, event: Event) -> SessionView {
        match self.stage.part() {
            Part::Setup => self.next_setup(event),
            Part::Input => self.next_input(event),
            Part::Frames => self.next_frames(event),
            Part::Compose => self.next_compose(event),
        }
    }
}

/// A run.
pub struct Session {
    windows: bool,
    stage: Stage,
    exe_dir: String,
    config: config::Config,
    search_dirs: Vec<String>,
    ffmpeg: String,
    ffprobe: String,
    upscaler: String,
    version: Option<String>,
    upscaler_found: bool,
    video: String,
    output_dir: String,
    stem: String,
    frames: usize,
    done: usize,
    upscaled: bool,
    upscale_code: Option<i32>,
    wait_error: String,
    rate: String,
    failure: Failure<String>,
}

impl View for Session {
    type V = SessionView;

    closed spec fn view(&self) -> SessionView {
        SessionView {
            windows: self.windows,
            stage: self.stage,
            exe_dir: self.exe_dir@,
            config: self.config@,
            search_dirs: text::texts(self.search_dirs@),
            ffmpeg: self.ffmpeg@,
            ffprobe: self.ffprobe@,
            upscaler: self.upscaler@,
            version: text::optional_text(self.version),
            upscaler_found: self.upscaler_found,
            video: self.video@,
            output_dir: self.output_dir@,
            stem: self.stem@,
            frames: self.frames,
            done: self.done,
            upscaled: self.upscaled,
            upscale_code: self.upscale_code,
            wait_error: self.wait_error@,
            rate: self.rate@,
            failure: self.failure@,
        }
    }
}

impl Session {
    /// Begins a run.
    pub fn new(windows: bool) -> (session: Session)
        ensures
            session@ == start(windows),
    {
        let search_dirs: Vec<String> = Vec::new();
        assert(text::texts(search_dirs@) =~= seq![]);
        Session {
            windows,
            stage: Stage::Locate,
            exe_dir: "".to_owned(),
            config: config::Config::default_for(""),
            search_dirs,
            ffmpeg: "".to_owned(),
            ffprobe: "".to_owned(),
            upscaler: "".to_owned(),
            version: None,
            upscaler_found: false,
            video: "".to_owned(),
            output_dir: "".to_owned(),
            stem: "".to_owned(),
            frames: 0,
            done: 0,
            upscaled: false,
            upscale_code: None,
            wait_error: "".to_owned(),
            rate: "".to_owned(),
            failure: Failure::NoProgramPath,
        }
    }

    /// Lists where a tool is looked for.
    fn candidates(&self, configured: &str, tool: &str) -> (list: Vec<String>)
        ensures
            text::texts(list@) == self@.places(configured@, tool@),
    {
        tools::tool_candidates(
            self.exe_dir.as_str(),
            configured,
            tool,
            self.windows,
            &self.search_dirs,
        )
    }

    /// Decides by which path a tool is run.
    fn resolve(&self, configured: &str, tool: &str, answers: &Vec<bool>) -> (path: String)
        ensures
            path@ == tools::tool_path(self@.places(configured@, tool@), answers@),
    {
        tools::resolve_tool(
            self.exe_dir.as_str(),
            configured,
            tool,
            self.windows,
            &self.search_dirs,
            answers,
        )
    }

    /// Names the configuration file.
    fn config_path(&self) -> (path: String)
        ensures
            path@ == config::config_file(self@.exe_dir),
    {
        config::config_path(self.exe_dir.as_str())
    }

    /// Names the directory for the frames of the video.
    fn input(&self) -> (dir: String)
        ensures
            dir@ == self@.input(),
    {
        commands::input_tmp(self.exe_dir.as_str())
    }

    /// Names the directory for the enlarged frames.
    fn output(&self) -> (dir: String)
        ensures
            dir@ == self@.output(),
    {
        commands::output_tmp(self.exe_dir.as_str())
    }

    /// Decides on the output directory where the user names none.
    fn default_output(&self) -> (dir: String)
        ensures
            dir@ == self@.default_output(),
    {
        config::default_output_dir(self.exe_dir.as_str(), self.config.output_dir.as_str())
    }

    /// Names the file that the enlarged video is written to.
    fn file(&self) -> (file: String)
        ensures
            file@ == self@.file(),
    {
        commands::out_file(self.output_dir.as_str(), self.stem.as_str())
    }

    /// A program with its arguments, run in the program's directory.
    fn command(&self, program: &String, args: Vec<String>) -> (command: Command<
        String,
        Vec<String>,
    >)
        ensures
            command@ == self@.command(program@, text::texts(args@)),
    {
        Command { program: program.clone(), args, dir: self.exe_dir.clone() }
    }

    /// Says which work is asked for.
    pub fn action(&self) -> (action: Action<String, Vec<String>>)
        ensures
            action@ == self@.action(),
    {
        match self.stage {
            Stage::Locate => Action::LocateProgram,
            Stage::Enter => Action::EnterDir(self.exe_dir.clone()),
            Stage::CheckConfig => Action::CheckExists(self.config_path()),
            Stage::WriteConfig => Action::WriteFile {
                path: self.config_path(),
                content: config::Config::default_for(self.exe_dir.as_str()).to_commented_yaml(),
            },
            Stage::ShowConfig => Action::Show(Notice::ConfigCreated(self.config_path())),
            Stage::LoadConfig => Action::LoadConfig(self.config_path()),
            Stage::ListSearchDirs => Action::ListSearchDirs,
            Stage::FindFfmpeg => Action::ProbeFiles(
                self.candidates(self.config.ffmpeg_path.as_str(), "ffmpeg"),
            ),
            Stage::FindFfprobe => Action::ProbeFiles(
                self.candidates(self.config.ffprobe_path.as_str(), "ffprobe"),
            ),
            Stage::FindUpscaler => Action::ProbeFiles(
                self.candidates(self.config.realesrgan_path.as_str(), "realesrgan-ncnn-vulkan"),
            ),
            Stage::Welcome => Action::Show(
                Notice::Welcome {
                    work_dir: self.exe_dir.clone(),
                    output_dir: self.default_output(),
                },
            ),
            Stage::QueryVersion => Action::QueryVersion {
                program: self.ffmpeg.clone(),
                args: commands::version_args(),
            },
            Stage::ShowVersion => match &self.version {
                Some(version) => Action::Show(Notice::Version(version.clone())),
                None => Action::Show(Notice::NoFfmpeg(self.ffmpeg.clone())),
            },
            Stage::CheckUpscaler => Action::ProbeFiles(
                tools::check_candidates(self.upscaler.as_str(), &self.search_dirs),
            ),
            Stage::ShowUpscaler => if self.upscaler_found {
                Action::Show(Notice::UpscalerFound(self.upscaler.clone()))
            } else {
                Action::Show(Notice::NoUpscaler(self.upscaler.clone()))
            },
            Stage::Divide => Action::Show(Notice::Divider),
            Stage::AskVideo => Action::Ask(ASK_VIDEO.to_owned()),
            Stage::CheckVideo => Action::CheckExists(self.video.clone()),
            Stage::AskOutput => Action::Ask(
                "请输入视频放大输出目录 (".to_owned().concat(self.default_output().as_str()).concat("): "),
            ),
            Stage::ShowOutput => Action::Show(Notice::OutputDir(self.output_dir.clone())),
            Stage::CreateOutput => Action::CreateDir(self.output_dir.clone()),
            Stage::Prepare => Action::Show(Notice::Gap),
            Stage::CheckInput => Action::CheckExists(self.input()),
            Stage::CreateInput => Action::CreateDir(self.input()),
            Stage::CheckOutput => Action::CheckExists(self.output()),
            Stage::CreateOutputFrames => Action::CreateDir(self.output()),
            Stage::ShowExport => Action::Show(Notice::ExportStep),
            Stage::Export => Action::Run(
                self.command(
                    &self.ffmpeg,
                    commands::export_args(self.video.as_str(), self.input().as_str()),
                ),
            ),
            Stage::CountFrames => Action::ListDir(self.input()),
            Stage::ShowFrames => Action::Show(Notice::Frames(self.frames)),
            Stage::ShowUpscale => Action::Show(
                Notice::UpscaleStep {
                    scale: self.config.realesrgan_scale,
                    model: self.config.realesrgan_model.clone(),
                },
            ),
            Stage::OpenProgress => Action::OpenProgress(self.frames),
            Stage::Launch => Action::Spawn(
                self.command(
                    &self.upscaler,
                    commands::upscale_args(
                        self.input().as_str(),
                        self.output().as_str(),
                        self.config.realesrgan_model.as_str(),
                        self.config.realesrgan_scale,
                    ),
                ),
            ),
            Stage::CountDone => Action::ListDir(self.output()),
            Stage::MoveProgress => Action::MoveProgress(self.done),
            Stage::Poll => Action::Poll,
            Stage::Wait => Action::Sleep(POLL_INTERVAL),
            Stage::CountLast => Action::ListDir(self.output()),
            Stage::MoveLast => Action::MoveProgress(self.done),
            Stage::CloseProgress => Action::CloseProgress,
            Stage::AbandonProgress => Action::AbandonProgress,
            Stage::Upscaled => Action::Show(Notice::Gap),
            Stage::ShowProbe => Action::Show(Notice::ProbeStep),
            Stage::Probe => Action::Capture(
                self.command(&self.ffprobe, commands::probe_args(self.video.as_str())),
            ),
            Stage::ShowRate => Action::Show(Notice::Rate(self.rate.clone())),
            Stage::ShowCompose => Action::Show(Notice::ComposeStep),
            Stage::Compose => Action::Run(
                self.command(
                    &self.ffmpeg,
                    commands::compose_args(
                        self.rate.as_str(),
                        self.output().as_str(),
                        self.video.as_str(),
                        self.file().as_str(),
                    ),
                ),
            ),
            Stage::ShowComplete => Action::Show(Notice::Complete(self.file())),
            Stage::CheckInputLeft => Action::CheckExists(self.input()),
            Stage::RemoveInput => Action::RemoveDir(self.input()),
            Stage::CheckOutputLeft => Action::CheckExists(self.output()),
            Stage::RemoveOutput => Action::RemoveDir(self.output()),
            Stage::ShowCleaned => Action::Show(Notice::Cleaned),
            Stage::AskExit => Action::Ask("".to_owned()),
            Stage::Finished => Action::Finish,
            Stage::Failed => Action::Fail(self.failure.clone()),
        }
    }

    /// Goes on to a stage.
    fn go(&mut self, stage: Stage)
        ensures
            final(self)@ == old(self)@.at(stage),
    {
        self.stage = stage;
    }

    /// Fails.
    fn fail(&mut self, failure: Failure<String>)
        ensures
            final(self)@ == old(self)@.failed(failure@),
    {
        self.stage = Stage::Failed;
        self.failure = failure;
    }

    /// Goes on to a stage once something was shown.
    fn after_show(&mut self, event: &Event, stage: Stage)
        ensures
            final(self)@ == old(self)@.shown(*event, stage),
    {
        match event {
            Event::Done => self.go(stage),
            _ => {},
        }
    }

    /// Goes on to a stage once work was done, and fails where it failed.
    fn after_try(&mut self, event: &Event, stage: Stage, failure: Failure<String>)
        ensures
            final(self)@ == old(self)@.tried(*event, old(self)@.at(stage), failure@),
    {
        match event {
            Event::Done => self.go(stage),
            Event::Failed(_) => self.fail(failure),
            _ => {},
        }
    }

    /// Goes on to one of two stages, by an answer.
    fn after_check(&mut self, event: &Event, there: Stage, absent: Stage)
        ensures
            final(self)@ == old(self)@.checked(
                *event,
                old(self)@.at(there),
                old(self)@.at(absent),
            ),
    {
        match event {
            Event::Answer(true) => self.go(there),
            Event::Answer(false) => self.go(absent),
            _ => {},
        }
    }

    /// Goes on to a stage where a directory for frames is not there yet, and fails where it is.
    fn after_frames_check(&mut self, event: &Event, name: &str, absent: Stage)
        ensures
            final(self)@ == old(self)@.checked(
                *event,
                old(self)@.failed(Failure::FramesExist(name@)),
                old(self)@.at(absent),
            ),
    {
        match event {
            Event::Answer(true) => self.fail(Failure::FramesExist(name.to_owned())),
            Event::Answer(false) => self.go(absent),
            _ => {},
        }
    }

    /// Takes in an event of the part up to the questions.
    fn advance_setup(&mut self, event: Event)
        ensures
            final(self)@ == old(self)@.next_setup(event),
    {
        match self.stage {
            Stage::Locate => match event {
                Event::Located(path) => match paths::parent(path.as_str()) {
                    Some(dir) => {
                        self.exe_dir = dir;
                        self.stage = Stage::Enter;
                    },
                    None => self.fail(Failure::NoProgramDir),
                },
                Event::Failed(_) => self.fail(Failure::NoProgramPath),
                _ => {},
            },
            Stage::Enter => {
                let failure = Failure::EnterDir(self.exe_dir.clone());
                self.after_try(&event, Stage::CheckConfig, failure);
            },
            Stage::CheckConfig => self.after_check(&event, Stage::LoadConfig, Stage::WriteConfig),
            Stage::WriteConfig => {
                let failure = Failure::WriteConfig(self.config_path());
                self.after_try(&event, Stage::ShowConfig, failure);
            },
            Stage::ShowConfig => self.after_show(&event, Stage::LoadConfig),
            Stage::LoadConfig => match event {
                Event::Loaded(config) => {
                    self.config = config;
                    self.stage = Stage::ListSearchDirs;
                },
                Event::Failed(_) => {
                    let path = self.config_path();
                    self.fail(Failure::ReadConfig(path));
                },
                Event::Malformed => {
                    let path = self.config_path();
                    self.fail(Failure::ConfigFormat(path));
                },
                _ => {},
            },
            Stage::ListSearchDirs => match event {
                Event::SearchDirs(dirs) => {
                    self.search_dirs = dirs;
                    self.stage = Stage::FindFfmpeg;
                },
                _ => {},
            },
            Stage::FindFfmpeg => match event {
                Event::Probed(answers) => {
                    self.ffmpeg = self.resolve(
                        self.config.ffmpeg_path.as_str(),
                        "ffmpeg",
                        &answers,
                    );
                    self.stage = Stage::FindFfprobe;
                },
                _ => {},
            },
            Stage::FindFfprobe => match event {
                Event::Probed(answers) => {
                    self.ffprobe = self.resolve(
                        self.config.ffprobe_path.as_str(),
                        "ffprobe",
                        &answers,
                    );
                    self.stage = Stage::FindUpscaler;
                },
                _ => {},
            },
            Stage::FindUpscaler => match event {
                Event::Probed(answers) => {
                    self.upscaler = self.resolve(
                        self.config.realesrgan_path.as_str(),
                        "realesrgan-ncnn-vulkan",
                        &answers,
                    );
                    self.stage = Stage::Welcome;
                },
                _ => {},
            },
            Stage::Welcome => self.after_show(&event, Stage::QueryVersion),
            Stage::QueryVersion => match event {
                Event::Printed { success: _, stdout } => {
                    self.version = tools::ffmpeg_version(&Some(stdout));
                    self.stage = Stage::ShowVersion;
                },
                Event::Failed(_) => {
                    self.version = tools::ffmpeg_version(&None);
                    self.stage = Stage::ShowVersion;
                },
                _ => {},
            },
            Stage::ShowVersion => self.after_show(&event, Stage::CheckUpscaler),
            Stage::CheckUpscaler => match event {
                Event::Probed(answers) => {
                    self.upscaler_found = tools::exe_exists(
                        self.upscaler.as_str(),
                        &self.search_dirs,
                        &answers,
                    );
                    self.stage = Stage::ShowUpscaler;
                },
                _ => {},
            },
            Stage::ShowUpscaler => match event {
                Event::Done => {
                    if self.version.is_some() && self.upscaler_found {
                        self.go(Stage::Divide);
                    } else {
                        let ffmpeg = if self.version.is_some() {
                            None
                        } else {
                            Some(self.ffmpeg.clone())
                        };
                        let upscaler = if self.upscaler_found {
                            None
                        } else {
                            Some(self.upscaler.clone())
                        };
                        self.fail(Failure::MissingTools { ffmpeg, upscaler });
                    }
                },
                _ => {},
            },
            Stage::Divide => self.after_show(&event, Stage::AskVideo),
            _ => {},
        }
    }

    /// Takes in an event of the part with the questions.
    fn advance_input(&mut self, event: Event)
        ensures
            final(self)@ == old(self)@.next_input(event),
    {
        match self.stage {
            Stage::AskVideo => match event {
                Event::Line(line) => {
                    let answer = text::answer(line.as_str());
                    if answer.as_str().is_empty() {
                        self.fail(Failure::NoVideo);
                    } else {
                        self.video = paths::resolve_path(self.exe_dir.as_str(), answer.as_str());
                        self.stage = Stage::CheckVideo;
                    }
                },
                Event::Failed(reason) => self.fail(Failure::Console(reason)),
                _ => {},
            },
            Stage::CheckVideo => match event {
                Event::Answer(true) => self.go(Stage::AskOutput),
                Event::Answer(false) => {
                    let path = self.video.clone();
                    self.fail(Failure::VideoMissing(path));
                },
                _ => {},
            },
            Stage::AskOutput => match event {
                Event::Line(line) => {
                    let answer = text::answer(line.as_str());
                    self.output_dir = if answer.as_str().is_empty() {
                        self.default_output()
                    } else {
                        paths::resolve_path(self.exe_dir.as_str(), answer.as_str())
                    };
                    self.stage = Stage::ShowOutput;
                },
                Event::Failed(reason) => self.fail(Failure::Console(reason)),
                _ => {},
            },
            Stage::ShowOutput => self.after_show(&event, Stage::CreateOutput),
            Stage::CreateOutput => match event {
                Event::Done => match paths::file_stem(self.video.as_str()) {
                    Some(stem) => {
                        self.stem = stem;
                        self.stage = Stage::Prepare;
                    },
                    None => self.fail(Failure::NoFileName),
                },
                Event::Failed(_) => {
                    let path = self.output_dir.clone();
                    self.fail(Failure::CreateOutput(path));
                },
                _ => {},
            },
            Stage::Prepare => self.after_show(&event, Stage::CheckInput),
            Stage::CheckInput => self.after_frames_check(
                &event,
                commands::INPUT_TMP,
                Stage::CreateInput,
            ),
            Stage::CreateInput => {
                let failure = Failure::CreateFrames(self.input());
                self.after_try(&event, Stage::CheckOutput, failure);
            },
            Stage::CheckOutput => self.after_frames_check(
                &event,
                commands::OUTPUT_TMP,
                Stage::CreateOutputFrames,
            ),
            Stage::CreateOutputFrames => {
                let failure = Failure::CreateFrames(self.output());
                self.after_try(&event, Stage::ShowExport, failure);
            },
            _ => {},
        }
    }

    /// Takes in an event of the part that makes the enlarged frames.
    fn advance_frames(&mut self, event: Event)
        ensures
            final(self)@ == old(self)@.next_frames(event),
    {
        match self.stage {
            Stage::ShowExport => self.after_show(&event, Stage::Export),
            Stage::Export => match event {
                Event::Exited { success, code } => {
                    if success {
                        self.go(Stage::CountFrames);
                    } else {
                        self.fail(Failure::ExportFailed(code));
                    }
                },
                Event::Failed(_) => {
                    let path = self.ffmpeg.clone();
                    self.fail(Failure::StartExport(path));
                },
                _ => {},
            },
            Stage::CountFrames => match event {
                Event::Listed(listing) => {
                    self.frames = tools::count_files_in_dir(&listing);
                    self.stage = Stage::ShowFrames;
                },
                _ => {},
            },
            Stage::ShowFrames => match event {
                Event::Done => {
                    if !config::supports_model(&self.config.realesrgan_model) {
                        let model = self.config.realesrgan_model.clone();
                        self.fail(Failure::BadModel(model));
                    } else if !config::supports_scale(self.config.realesrgan_scale) {
                        let scale: u32 = self.config.realesrgan_scale;
                        self.fail(Failure::BadScale(scale));
                    } else {
                        self.go(Stage::ShowUpscale);
                    }
                },
                _ => {},
            },
            Stage::ShowUpscale => self.after_show(&event, Stage::OpenProgress),
            Stage::OpenProgress => self.after_show(&event, Stage::Launch),
            Stage::Launch => {
                let failure = Failure::StartUpscale(self.upscaler.clone());
                self.after_try(&event, Stage::CountDone, failure);
            },
            Stage::CountDone => match event {
                Event::Listed(listing) => {
                    self.done = tools::count_files_in_dir(&listing);
                    self.stage = Stage::MoveProgress;
                },
                _ => {},
            },
            Stage::MoveProgress => self.after_show(&event, Stage::Poll),
            Stage::Poll => match event {
                Event::Running => self.go(Stage::Wait),
                Event::Exited { success, code } => {
                    self.upscaled = success;
                    self.upscale_code = code;
                    self.stage = Stage::CountLast;
                },
                Event::Failed(reason) => {
                    self.wait_error = reason;
                    self.stage = Stage::AbandonProgress;
                },
                _ => {},
            },
            Stage::Wait => self.after_show(&event, Stage::CountDone),
            Stage::CountLast => match event {
                Event::Listed(listing) => {
                    self.done = tools::count_files_in_dir(&listing);
                    self.stage = Stage::MoveLast;
                },
                _ => {},
            },
            Stage::MoveLast => self.after_show(&event, Stage::CloseProgress),
            Stage::CloseProgress => match event {
                Event::Done => {
                    if self.upscaled {
                        self.go(Stage::Upscaled);
                    } else {
                        let code = self.upscale_code;
                        self.fail(Failure::UpscaleFailed(code));
                    }
                },
                _ => {},
            },
            Stage::AbandonProgress => match event {
                Event::Done => {
                    let reason = self.wait_error.clone();
                    self.fail(Failure::WaitFailed(reason));
                },
                _ => {},
            },
            Stage::Upscaled => self.after_show(&event, Stage::ShowProbe),
            _ => {},
        }
    }

    /// Takes in an event of the part that puts the video together.
    fn advance_compose(&mut self, event: Event)
        ensures
            final(self)@ == old(self)@.next_compose(event),
    {
        match self.stage {
            Stage::ShowProbe => self.after_show(&event, Stage::Probe),
            Stage::Probe => match event {
                Event::Printed { success, stdout } => {
                    let rate = tools::frame_rate(&stdout);
                    if !success {
                        self.fail(Failure::ProbeFailed);
                    } else if rate.as_str().is_empty() {
                        self.fail(Failure::NoRate);
                    } else {
                        self.rate = rate;
                        self.stage = Stage::ShowRate;
                    }
                },
                Event::Failed(_) => {
                    let path = self.ffprobe.clone();
                    self.fail(Failure::StartProbe(path));
                },
                _ => {},
            },
            Stage::ShowRate => self.after_show(&event, Stage::ShowCompose),
            Stage::ShowCompose => self.after_show(&event, Stage::Compose),
            Stage::Compose => match event {
                Event::Exited { success, code } => {
                    if success {
                        self.go(Stage::ShowComplete);
                    } else {
                        self.fail(Failure::ComposeFailed(code));
                    }
                },
                Event::Failed(_) => self.fail(Failure::StartCompose),
                _ => {},
            },
            Stage::ShowComplete => self.after_show(&event, Stage::CheckInputLeft),
            Stage::CheckInputLeft => self.after_check(
                &event,
                Stage::RemoveInput,
                Stage::CheckOutputLeft,
            ),
            Stage::RemoveInput => match event {
                Event::Done | Event::Failed(_) => self.go(Stage::CheckOutputLeft),
                _ => {},
            },
            Stage::CheckOutputLeft => self.after_check(
                &event,
                Stage::RemoveOutput,
                Stage::ShowCleaned,
            ),
            Stage::RemoveOutput => match event {
                Event::Done | Event::Failed(_) => self.go(Stage::ShowCleaned),
                _ => {},
            },
            Stage::ShowCleaned => self.after_show(&event, Stage::AskExit),
            Stage::AskExit => match event {
                Event::Line(_) | Event::Failed(_) => self.go(Stage::Finished),
                _ => {},
            },
            _ => {},
        }
    }

    /// Takes in what came of the work that was asked for.
    pub fn advance(&mut self, event: Event)
        ensures
            final(self)@ == old(self)@.next(event),
    {
        match self.stage.part_of() {
            Part::Setup => self.advance_setup(event),
            Part::Input => self.advance_input(event),
            Part::Frames => self.advance_frames(event),
            Part::Compose => self.advance_compose(event),
        }
    }
}

} // verus!
