//! What is exchanged with the outside: the work that is asked for, what came of it, what is
//! shown, and why a run fails.
//!
//! The types are generic in the kind of text, so that the same words serve for the values that
//! are handed out (`String`, `Vec<String>`) and for what they mean (`Seq<char>`, and sequences
//! of it).

use crate::config;
use crate::text;
use crate::tools;
use vstd::prelude::*;

verus! {

/// Why a run fails.
#[derive(Debug, PartialEq, Eq)]
pub enum Failure<T> {
    /// The program's own path cannot be had.
    NoProgramPath,
    /// The program's path has no directory.
    NoProgramDir,
    /// The program's directory cannot be entered.
    EnterDir(T),
    /// The configuration file cannot be written.
    WriteConfig(T),
    /// The configuration file cannot be read.
    ReadConfig(T),
    /// The configuration file does not hold a configuration.
    ConfigFormat(T),
    /// Tools were not found under these paths.
    MissingTools { ffmpeg: Option<T>, upscaler: Option<T> },
    /// The user cannot be asked, for the reason given.
    Console(T),
    /// The user named no video.
    NoVideo,
    /// The video does not exist.
    VideoMissing(T),
    /// The output directory cannot be made.
    CreateOutput(T),
    /// The video's path does not end in a file name.
    NoFileName,
    /// A directory for frames is there already.
    FramesExist(T),
    /// A directory for frames cannot be made.
    CreateFrames(T),
    /// ffmpeg cannot be started to take the video apart.
    StartExport(T),
    /// ffmpeg did not take the video apart.
    ExportFailed(Option<i32>),
    /// The configured model is not supported.
    BadModel(T),
    /// The configured factor is not supported.
    BadScale(u32),
    /// Real-ESRGAN cannot be started.
    StartUpscale(T),
    /// Real-ESRGAN did not enlarge the frames.
    UpscaleFailed(Option<i32>),
    /// Real-ESRGAN cannot be waited for, for the reason given.
    WaitFailed(T),
    /// ffprobe cannot be started.
    StartProbe(T),
    /// ffprobe did not probe the video.
    ProbeFailed,
    /// ffprobe printed no frame rate.
    NoRate,
    /// ffmpeg cannot be started to put the video together.
    StartCompose,
    /// ffmpeg did not put the video together.
    ComposeFailed(Option<i32>),
}

impl View for Failure<String> {
    type V = Failure<Seq<char>>;

    open spec fn view(&self) -> Failure<Seq<char>> {
        match *self {
            Failure::NoProgramPath => Failure::NoProgramPath,
            Failure::NoProgramDir => Failure::NoProgramDir,
            Failure::EnterDir(path) => Failure::EnterDir(path@),
            Failure::WriteConfig(path) => Failure::WriteConfig(path@),
            Failure::ReadConfig(path) => Failure::ReadConfig(path@),
            Failure::ConfigFormat(path) => Failure::ConfigFormat(path@),
            Failure::MissingTools { ffmpeg, upscaler } => Failure::MissingTools {
                ffmpeg: text::optional_text(ffmpeg),
                upscaler: text::optional_text(upscaler),
            },
            Failure::Console(reason) => Failure::Console(reason@),
            Failure::NoVideo => Failure::NoVideo,
            Failure::VideoMissing(path) => Failure::VideoMissing(path@),
            Failure::CreateOutput(path) => Failure::CreateOutput(path@),
            Failure::NoFileName => Failure::NoFileName,
            Failure::FramesExist(name) => Failure::FramesExist(name@),
            Failure::CreateFrames(path) => Failure::CreateFrames(path@),
            Failure::StartExport(path) => Failure::StartExport(path@),
            Failure::ExportFailed(code) => Failure::ExportFailed(code),
            Failure::BadModel(model) => Failure::BadModel(model@),
            Failure::BadScale(scale) => Failure::BadScale(scale),
            Failure::StartUpscale(path) => Failure::StartUpscale(path@),
            Failure::UpscaleFailed(code) => Failure::UpscaleFailed(code),
            Failure::WaitFailed(reason) => Failure::WaitFailed(reason@),
            Failure::StartProbe(path) => Failure::StartProbe(path@),
            Failure::ProbeFailed => Failure::ProbeFailed,
            Failure::NoRate => Failure::NoRate,
            Failure::StartCompose => Failure::StartCompose,
            Failure::ComposeFailed(code) => Failure::ComposeFailed(code),
        }
    }
}

/// An exit code as it is shown.
pub open spec fn code_text(code: Option<i32>) -> Seq<char> {
    match code {
        Some(code) => "Some("@ + text::signed_text(code as int) + ")"@,
        None => "None"@,
    }
}

/// Writes an exit code as it is shown.
pub fn show_code(code: &Option<i32>) -> (shown: String)
    ensures
        shown@ == code_text(*code),
{
    match code {
        Some(code) => "Some(".to_owned().concat(text::signed_decimal(*code).as_str()).concat(")"),
        None => "None".to_owned(),
    }
}

/// The tools that are missing, each with the path that was tried.
pub open spec fn missing_lines(
    ffmpeg: Option<Seq<char>>,
    upscaler: Option<Seq<char>>,
) -> Seq<Seq<char>> {
    let first = match ffmpeg {
        Some(path) => seq!["ffmpeg（路径: "@ + path + "）"@],
        None => seq![],
    };
    match upscaler {
        Some(path) => first.push("realesrgan-ncnn-vulkan（路径: "@ + path + "）"@),
        None => first,
    }
}

/// Lists the tools that are missing.
pub fn list_missing(ffmpeg: &Option<String>, upscaler: &Option<String>) -> (lines: Vec<String>)
    ensures
        text::texts(lines@) == missing_lines(
            text::optional_text(*ffmpeg),
            text::optional_text(*upscaler),
        ),
{
    let mut lines: Vec<String> = Vec::new();
    assert(text::texts(lines@) =~= Seq::empty());
    match ffmpeg {
        Some(path) => {
            let line = "ffmpeg（路径: ".to_owned().concat(path.as_str()).concat("）");
            text::push_text(&mut lines, line.as_str());
        },
        None => {},
    }
    match upscaler {
        Some(path) => {
            let line = "realesrgan-ncnn-vulkan（路径: ".to_owned().concat(path.as_str()).concat(
                "）",
            );
            text::push_text(&mut lines, line.as_str());
        },
        None => {},
    }
    lines
}

/// What is said of a failure.
pub open spec fn failure_text(failure: Failure<Seq<char>>) -> Seq<char> {
    match failure {
        Failure::NoProgramPath => "无法获取程序路径"@,
        Failure::NoProgramDir => "无法获取程序所在目录"@,
        Failure::EnterDir(path) => "无法切换到工作目录: "@ + path,
        Failure::WriteConfig(path) => "无法写入配置文件: "@ + path,
        Failure::ReadConfig(path) => "无法读取配置文件: "@ + path,
        Failure::ConfigFormat(path) => "配置文件格式错误: "@ + path,
        Failure::MissingTools { ffmpeg, upscaler } => {
            "以下必要工具未找到，无法继续运行：\n  - "@ + text::joined_texts(
                missing_lines(ffmpeg, upscaler),
                "\n  - "@,
            ) + "\n请检查 config.yaml 中的路径配置。"@
        },
        Failure::Console(reason) => reason,
        Failure::NoVideo => "视频路径不能为空"@,
        Failure::VideoMissing(path) => "视频文件不存在: "@ + path,
        Failure::CreateOutput(path) => "无法创建输出目录: "@ + path,
        Failure::NoFileName => "无法获取文件名"@,
        Failure::FramesExist(name) => {
            "文件夹 \""@ + name + "\" 已存在，请先处理该文件夹后再运行。"@
        },
        Failure::CreateFrames(path) => "无法创建目录: "@ + path,
        Failure::StartExport(path) => "启动 ffmpeg 失败，请检查路径: "@ + path,
        Failure::ExportFailed(code) => "FFmpeg 导出帧失败（退出码: "@ + code_text(code) + "）"@,
        Failure::BadModel(model) => {
            "不支持的模型名 \""@ + model + "\", 可选值: "@ + text::joined_texts(
                config::models(),
                " | "@,
            )
        },
        Failure::BadScale(scale) => {
            "不支持的放大倍数 "@ + text::decimal_text(scale as nat) + ", 可选值: 2 | 3 | 4"@
        },
        Failure::StartUpscale(path) => {
            "启动 realesrgan-ncnn-vulkan 失败，请检查路径: "@ + path
        },
        Failure::UpscaleFailed(code) => {
            "Real-ESRGAN 处理失败（退出码: "@ + code_text(code) + "）"@
        },
        Failure::WaitFailed(reason) => "等待 Real-ESRGAN 子进程时出错: "@ + reason,
        Failure::StartProbe(path) => "启动 ffprobe 失败，请检查路径: "@ + path,
        Failure::ProbeFailed => "ffprobe 检测帧率失败"@,
        Failure::NoRate => "ffprobe 未能获取帧率信息"@,
        Failure::StartCompose => "启动 ffmpeg 合成失败"@,
        Failure::ComposeFailed(code) => "FFmpeg 合成视频失败（退出码: "@ + code_text(code) + "）"@,
    }
}

impl Clone for Failure<String> {
    fn clone(&self) -> (copied: Failure<String>)
        ensures
            copied@ == self@,
    {
        match self {
            Failure::NoProgramPath => Failure::NoProgramPath,
            Failure::NoProgramDir => Failure::NoProgramDir,
            Failure::EnterDir(path) => Failure::EnterDir(path.clone()),
            Failure::WriteConfig(path) => Failure::WriteConfig(path.clone()),
            Failure::ReadConfig(path) => Failure::ReadConfig(path.clone()),
            Failure::ConfigFormat(path) => Failure::ConfigFormat(path.clone()),
            Failure::MissingTools { ffmpeg, upscaler } => Failure::MissingTools {
                ffmpeg: ffmpeg.clone(),
                upscaler: upscaler.clone(),
            },
            Failure::Console(reason) => Failure::Console(reason.clone()),
            Failure::NoVideo => Failure::NoVideo,
            Failure::VideoMissing(path) => Failure::VideoMissing(path.clone()),
            Failure::CreateOutput(path) => Failure::CreateOutput(path.clone()),
            Failure::NoFileName => Failure::NoFileName,
            Failure::FramesExist(name) => Failure::FramesExist(name.clone()),
            Failure::CreateFrames(path) => Failure::CreateFrames(path.clone()),
            Failure::StartExport(path) => Failure::StartExport(path.clone()),
            Failure::ExportFailed(code) => Failure::ExportFailed(*code),
            Failure::BadModel(model) => Failure::BadModel(model.clone()),
            Failure::BadScale(scale) => Failure::BadScale(*scale),
            Failure::StartUpscale(path) => Failure::StartUpscale(path.clone()),
            Failure::UpscaleFailed(code) => Failure::UpscaleFailed(*code),
            Failure::WaitFailed(reason) => Failure::WaitFailed(reason.clone()),
            Failure::StartProbe(path) => Failure::StartProbe(path.clone()),
            Failure::ProbeFailed => Failure::ProbeFailed,
            Failure::NoRate => Failure::NoRate,
            Failure::StartCompose => Failure::StartCompose,
            Failure::ComposeFailed(code) => Failure::ComposeFailed(*code),
        }
    }
}

impl Failure<String> {
    /// Says what failed.
    pub fn message(&self) -> (message: String)
        ensures
            message@ == failure_text(self@),
    {
        match self {
            Failure::NoProgramPath => "无法获取程序路径".to_owned(),
            Failure::NoProgramDir => "无法获取程序所在目录".to_owned(),
            Failure::EnterDir(path) => "无法切换到工作目录: ".to_owned().concat(path.as_str()),
            Failure::WriteConfig(path) => "无法写入配置文件: ".to_owned().concat(path.as_str()),
            Failure::ReadConfig(path) => "无法读取配置文件: ".to_owned().concat(path.as_str()),
            Failure::ConfigFormat(path) => "配置文件格式错误: ".to_owned().concat(path.as_str()),
            Failure::MissingTools { ffmpeg, upscaler } => {
                let lines = list_missing(ffmpeg, upscaler);
                "以下必要工具未找到，无法继续运行：\n  - ".to_owned().concat(
                    text::join_texts(&lines, "\n  - ").as_str(),
                ).concat("\n请检查 config.yaml 中的路径配置。")
            },
            Failure::Console(reason) => reason.clone(),
            Failure::NoVideo => "视频路径不能为空".to_owned(),
            Failure::VideoMissing(path) => "视频文件不存在: ".to_owned().concat(path.as_str()),
            Failure::CreateOutput(path) => "无法创建输出目录: ".to_owned().concat(path.as_str()),
            Failure::NoFileName => "无法获取文件名".to_owned(),
            Failure::FramesExist(name) => "文件夹 \"".to_owned().concat(name.as_str()).concat(
                "\" 已存在，请先处理该文件夹后再运行。",
            ),
            Failure::CreateFrames(path) => "无法创建目录: ".to_owned().concat(path.as_str()),
            Failure::StartExport(path) => "启动 ffmpeg 失败，请检查路径: ".to_owned().concat(
                path.as_str(),
            ),
            Failure::ExportFailed(code) => "FFmpeg 导出帧失败（退出码: ".to_owned().concat(
                show_code(code).as_str(),
            ).concat("）"),
            Failure::BadModel(model) => "不支持的模型名 \"".to_owned().concat(
                model.as_str(),
            ).concat("\", 可选值: ").concat(
                text::join_texts(&config::valid_models(), " | ").as_str(),
            ),
            Failure::BadScale(scale) => "不支持的放大倍数 ".to_owned().concat(
                text::decimal(*scale as u64).as_str(),
            ).concat(", 可选值: 2 | 3 | 4"),
            Failure::StartUpscale(path) => {
                "启动 realesrgan-ncnn-vulkan 失败，请检查路径: ".to_owned().concat(path.as_str())
            },
            Failure::UpscaleFailed(code) => "Real-ESRGAN 处理失败（退出码: ".to_owned().concat(
                show_code(code).as_str(),
            ).concat("）"),
            Failure::WaitFailed(reason) => "等待 Real-ESRGAN 子进程时出错: ".to_owned().concat(
                reason.as_str(),
            ),
            Failure::StartProbe(path) => "启动 ffprobe 失败，请检查路径: ".to_owned().concat(
                path.as_str(),
            ),
            Failure::ProbeFailed => "ffprobe 检测帧率失败".to_owned(),
            Failure::NoRate => "ffprobe 未能获取帧率信息".to_owned(),
            Failure::StartCompose => "启动 ffmpeg 合成失败".to_owned(),
            Failure::ComposeFailed(code) => "FFmpeg 合成视频失败（退出码: ".to_owned().concat(
                show_code(code).as_str(),
            ).concat("）"),
        }
    }
}

/// What is shown to the user on the way.
#[derive(Clone, Debug, PartialEq, Eq)]
pub enum Notice<T> {
    /// A configuration file was written, at this path.
    ConfigCreated(T),
    /// The welcome, with the program's directory and the default output directory.
    Welcome { work_dir: T, output_dir: T },
    /// The version of ffmpeg.
    Version(T),
    /// ffmpeg was not found under this path.
    NoFfmpeg(T),
    /// Real-ESRGAN was found under this path.
    UpscalerFound(T),
    /// Real-ESRGAN was not found under this path.
    NoUpscaler(T),
    /// A line between the welcome and the questions.
    Divider,
    /// The output directory.
    OutputDir(T),
    /// An empty line.
    Gap,
    /// The video is about to be taken apart.
    ExportStep,
    /// So many frames were taken out.
    Frames(usize),
    /// The frames are about to be enlarged.
    UpscaleStep { scale: u32, model: T },
    /// The frame rate is about to be read.
    ProbeStep,
    /// The frame rate.
    Rate(T),
    /// The video is about to be put together.
    ComposeStep,
    /// The video was written to this file.
    Complete(T),
    /// The directories for frames were cleaned up.
    Cleaned,
}

impl View for Notice<String> {
    type V = Notice<Seq<char>>;

    open spec fn view(&self) -> Notice<Seq<char>> {
        match *self {
            Notice::ConfigCreated(path) => Notice::ConfigCreated(path@),
            Notice::Welcome { work_dir, output_dir } => Notice::Welcome {
                work_dir: work_dir@,
                output_dir: output_dir@,
            },
            Notice::Version(version) => Notice::Version(version@),
            Notice::NoFfmpeg(path) => Notice::NoFfmpeg(path@),
            Notice::UpscalerFound(path) => Notice::UpscalerFound(path@),
            Notice::NoUpscaler(path) => Notice::NoUpscaler(path@),
            Notice::Divider => Notice::Divider,
            Notice::OutputDir(path) => Notice::OutputDir(path@),
            Notice::Gap => Notice::Gap,
            Notice::ExportStep => Notice::ExportStep,
            Notice::Frames(count) => Notice::Frames(count),
            Notice::UpscaleStep { scale, model } => Notice::UpscaleStep { scale, model: model@ },
            Notice::ProbeStep => Notice::ProbeStep,
            Notice::Rate(rate) => Notice::Rate(rate@),
            Notice::ComposeStep => Notice::ComposeStep,
            Notice::Complete(file) => Notice::Complete(file@),
            Notice::Cleaned => Notice::Cleaned,
        }
    }
}

/// An outside program with its arguments, and the directory that it runs in.
#[derive(Clone, Debug, PartialEq, Eq)]
pub struct Command<T, L> {
    pub program: T,
    pub args: L,
    pub dir: T,
}

impl View for Command<String, Vec<String>> {
    type V = Command<Seq<char>, Seq<Seq<char>>>;

    open spec fn view(&self) -> Command<Seq<char>, Seq<Seq<char>>> {
        Command { program: self.program@, args: text::texts(self.args@), dir: self.dir@ }
    }
}

/// The outside work that is asked for.
#[derive(Debug, PartialEq, Eq)]
pub enum Action<T, L> {
    /// Find the path of the program itself.
    LocateProgram,
    /// Make a directory the current one.
    EnterDir(T),
    /// Find out whether there is anything under a path.
    CheckExists(T),
    /// Write a file.
    WriteFile { path: T, content: T },
    /// Read and parse the configuration file.
    LoadConfig(T),
    /// List the directories of the search path.
    ListSearchDirs,
    /// Find out which of the paths are files.
    ProbeFiles(L),
    /// Show something to the user.
    Show(Notice<T>),
    /// Run a program where the current directory is, and catch what it prints.
    QueryVersion { program: T, args: L },
    /// Ask the user for a line.
    Ask(T),
    /// Make a directory, with those above it.
    CreateDir(T),
    /// Run a program to its end.
    Run(Command<T, L>),
    /// List a directory.
    ListDir(T),
    /// Put up a progress bar that ends at a count.
    OpenProgress(usize),
    /// Start a program, and leave it running.
    Spawn(Command<T, L>),
    /// Move the progress bar to a count.
    MoveProgress(usize),
    /// Find out whether the program that was started has ended.
    Poll,
    /// Wait for so many milliseconds.
    Sleep(u64),
    /// Leave the progress bar as complete.
    CloseProgress,
    /// Leave the progress bar as abandoned.
    AbandonProgress,
    /// Run a program to its end, and catch what it prints.
    Capture(Command<T, L>),
    /// Remove a directory with all that it holds.
    RemoveDir(T),
    /// Nothing more: the run has succeeded.
    Finish,
    /// Nothing more: the run has failed.
    Fail(Failure<T>),
}

impl View for Action<String, Vec<String>> {
    type V = Action<Seq<char>, Seq<Seq<char>>>;

    open spec fn view(&self) -> Action<Seq<char>, Seq<Seq<char>>> {
        match *self {
            Action::LocateProgram => Action::LocateProgram,
            Action::EnterDir(path) => Action::EnterDir(path@),
            Action::CheckExists(path) => Action::CheckExists(path@),
            Action::WriteFile { path, content } => Action::WriteFile {
                path: path@,
                content: content@,
            },
            Action::LoadConfig(path) => Action::LoadConfig(path@),
            Action::ListSearchDirs => Action::ListSearchDirs,
            Action::ProbeFiles(paths) => Action::ProbeFiles(text::texts(paths@)),
            Action::Show(notice) => Action::Show(notice@),
            Action::QueryVersion { program, args } => Action::QueryVersion {
                program: program@,
                args: text::texts(args@),
            },
            Action::Ask(question) => Action::Ask(question@),
            Action::CreateDir(path) => Action::CreateDir(path@),
            Action::Run(command) => Action::Run(command@),
            Action::ListDir(path) => Action::ListDir(path@),
            Action::OpenProgress(count) => Action::OpenProgress(count),
            Action::Spawn(command) => Action::Spawn(command@),
            Action::MoveProgress(count) => Action::MoveProgress(count),
            Action::Poll => Action::Poll,
            Action::Sleep(millis) => Action::Sleep(millis),
            Action::CloseProgress => Action::CloseProgress,
            Action::AbandonProgress => Action::AbandonProgress,
            Action::Capture(command) => Action::Capture(command@),
            Action::RemoveDir(path) => Action::RemoveDir(path@),
            Action::Finish => Action::Finish,
            Action::Fail(failure) => Action::Fail(failure@),
        }
    }
}

/// What came of the work that was asked for.
#[derive(Clone, Debug)]
pub enum Event {
    /// It was done.
    Done,
    /// It could not be done, for the reason given.
    Failed(String),
    /// The configuration file was read, but holds no configuration.
    Malformed,
    /// The answer to a question that is answered by yes or no.
    Answer(bool),
    /// The path of the program.
    Located(String),
    /// The directories of the search path, in order.
    SearchDirs(Vec<String>),
    /// For each of the paths, whether it is a file.
    Probed(Vec<bool>),
    /// The configuration.
    Loaded(config::Config),
    /// The line that the user typed.
    Line(String),
    /// The program ended, and printed this.
    Printed { success: bool, stdout: Vec<u8> },
    /// The program ended.
    Exited { success: bool, code: Option<i32> },
    /// The program has not ended yet.
    Running,
    /// What the directory holds.
    Listed(tools::Listing),
}

/// An exit code is shown as a number in brackets, and none as none.
pub proof fn law_exit_codes_are_shown(code: i32)
    ensures
        code_text(Some(code)) == "Some("@ + text::signed_text(code as int) + ")"@,
        code_text(None) == "None"@,
{
}

/// What is said of a failure names the path, the reason or the value that it is about, whole and
/// unchanged.
pub proof fn law_failures_are_told_in_full(it: Seq<char>, code: Option<i32>, scale: u32)
    ensures
        failure_text(Failure::EnterDir(it)) == "无法切换到工作目录: "@ + it,
        failure_text(Failure::WriteConfig(it)) == "无法写入配置文件: "@ + it,
        failure_text(Failure::ReadConfig(it)) == "无法读取配置文件: "@ + it,
        failure_text(Failure::ConfigFormat(it)) == "配置文件格式错误: "@ + it,
        failure_text(Failure::Console(it)) == it,
        failure_text(Failure::VideoMissing(it)) == "视频文件不存在: "@ + it,
        failure_text(Failure::CreateOutput(it)) == "无法创建输出目录: "@ + it,
        failure_text(Failure::FramesExist(it)) == "文件夹 \""@ + it
            + "\" 已存在，请先处理该文件夹后再运行。"@,
        failure_text(Failure::CreateFrames(it)) == "无法创建目录: "@ + it,
        failure_text(Failure::StartExport(it)) == "启动 ffmpeg 失败，请检查路径: "@ + it,
        failure_text(Failure::ExportFailed(code)) == "FFmpeg 导出帧失败（退出码: "@ + code_text(code)
            + "）"@,
        failure_text(Failure::BadModel(it)) == "不支持的模型名 \""@ + it + "\", 可选值: "@
            + text::joined_texts(config::models(), " | "@),
        failure_text(Failure::BadScale(scale)) == "不支持的放大倍数 "@ + text::decimal_text(
            scale as nat,
        ) + ", 可选值: 2 | 3 | 4"@,
        failure_text(Failure::StartUpscale(it))
            == "启动 realesrgan-ncnn-vulkan 失败，请检查路径: "@ + it,
        failure_text(Failure::UpscaleFailed(code)) == "Real-ESRGAN 处理失败（退出码: "@ + code_text(
            code,
        ) + "）"@,
        failure_text(Failure::WaitFailed(it)) == "等待 Real-ESRGAN 子进程时出错: "@ + it,
        failure_text(Failure::StartProbe(it)) == "启动 ffprobe 失败，请检查路径: "@ + it,
        failure_text(Failure::ComposeFailed(code)) == "FFmpeg 合成视频失败（退出码: "@ + code_text(
            code,
        ) + "）"@,
{
}

/// Failures that are about nothing in particular have a text of their own.
pub proof fn law_plain_failures_are_told()
    ensures
        failure_text(Failure::NoProgramPath) == "无法获取程序路径"@,
        failure_text(Failure::NoProgramDir) == "无法获取程序所在目录"@,
        failure_text(Failure::NoVideo) == "视频路径不能为空"@,
        failure_text(Failure::NoFileName) == "无法获取文件名"@,
        failure_text(Failure::ProbeFailed) == "ffprobe 检测帧率失败"@,
        failure_text(Failure::NoRate) == "ffprobe 未能获取帧率信息"@,
        failure_text(Failure::StartCompose) == "启动 ffmpeg 合成失败"@,
{
}

/// Each missing tool is told with the path that was tried, ffmpeg first, and no other is.
pub proof fn law_missing_tools_are_told(ffmpeg: Seq<char>, upscaler: Seq<char>)
    ensures
        ({
            let head = "以下必要工具未找到，无法继续运行：\n  - "@;
            let tail = "\n请检查 config.yaml 中的路径配置。"@;
            let first = "ffmpeg（路径: "@ + ffmpeg + "）"@;
            let second = "realesrgan-ncnn-vulkan（路径: "@ + upscaler + "）"@;
            &&& failure_text(Failure::MissingTools { ffmpeg: Some(ffmpeg), upscaler: None }) == head
                + first + tail
            &&& failure_text(Failure::MissingTools { ffmpeg: None, upscaler: Some(upscaler) })
                == head + second + tail
            &&& failure_text(
                Failure::MissingTools { ffmpeg: Some(ffmpeg), upscaler: Some(upscaler) },
            ) == head + (first + "\n  - "@ + second) + tail
        }),
{
    let first = "ffmpeg（路径: "@ + ffmpeg + "）"@;
    let second = "realesrgan-ncnn-vulkan（路径: "@ + upscaler + "）"@;
    text::law_rows_grow_by_one_text(seq![first], "\n  - "@, second);
    text::law_rows_grow_by_one_text(seq![first], "\n  - "@, first);
    assert(missing_lines(None, Some(upscaler)) =~= seq![second]);
    assert(missing_lines(Some(ffmpeg), Some(upscaler)) =~= seq![first].push(second));
}

/// What is handed out means what it holds: the failures.
pub proof fn law_failures_mean_what_they_hold(
    it: String,
    ffmpeg: Option<String>,
    upscaler: Option<String>,
    code: Option<i32>,
    scale: u32,
)
    ensures
        Failure::<String>::NoProgramPath@ == Failure::<Seq<char>>::NoProgramPath,
        Failure::<String>::NoProgramDir@ == Failure::<Seq<char>>::NoProgramDir,
        Failure::EnterDir(it)@ == Failure::EnterDir(it@),
        Failure::WriteConfig(it)@ == Failure::WriteConfig(it@),
        Failure::ReadConfig(it)@ == Failure::ReadConfig(it@),
        Failure::ConfigFormat(it)@ == Failure::ConfigFormat(it@),
        (Failure::MissingTools { ffmpeg, upscaler })@ == (Failure::MissingTools {
            ffmpeg: text::optional_text(ffmpeg),
            upscaler: text::optional_text(upscaler),
        }),
        Failure::Console(it)@ == Failure::Console(it@),
        Failure::<String>::NoVideo@ == Failure::<Seq<char>>::NoVideo,
        Failure::VideoMissing(it)@ == Failure::VideoMissing(it@),
        Failure::CreateOutput(it)@ == Failure::CreateOutput(it@),
        Failure::<String>::NoFileName@ == Failure::<Seq<char>>::NoFileName,
        Failure::FramesExist(it)@ == Failure::FramesExist(it@),
        Failure::CreateFrames(it)@ == Failure::CreateFrames(it@),
        Failure::StartExport(it)@ == Failure::StartExport(it@),
        Failure::<String>::ExportFailed(code)@ == Failure::<Seq<char>>::ExportFailed(code),
        Failure::BadModel(it)@ == Failure::BadModel(it@),
        Failure::<String>::BadScale(scale)@ == Failure::<Seq<char>>::BadScale(scale),
        Failure::StartUpscale(it)@ == Failure::StartUpscale(it@),
        Failure::<String>::UpscaleFailed(code)@ == Failure::<Seq<char>>::UpscaleFailed(code),
        Failure::WaitFailed(it)@ == Failure::WaitFailed(it@),
        Failure::StartProbe(it)@ == Failure::StartProbe(it@),
        Failure::<String>::ProbeFailed@ == Failure::<Seq<char>>::ProbeFailed,
        Failure::<String>::NoRate@ == Failure::<Seq<char>>::NoRate,
        Failure::<String>::StartCompose@ == Failure::<Seq<char>>::StartCompose,
        Failure::<String>::ComposeFailed(code)@ == Failure::<Seq<char>>::ComposeFailed(code),
{
}

/// What is handed out means what it holds: the notices.
pub proof fn law_notices_mean_what_they_hold(it: String, other: String, count: usize, scale: u32)
    ensures
        Notice::ConfigCreated(it)@ == Notice::ConfigCreated(it@),
        (Notice::Welcome { work_dir: it, output_dir: other })@ == (Notice::Welcome {
            work_dir: it@,
            output_dir: other@,
        }),
        Notice::Version(it)@ == Notice::Version(it@),
        Notice::NoFfmpeg(it)@ == Notice::NoFfmpeg(it@),
        Notice::UpscalerFound(it)@ == Notice::UpscalerFound(it@),
        Notice::NoUpscaler(it)@ == Notice::NoUpscaler(it@),
        Notice::<String>::Divider@ == Notice::<Seq<char>>::Divider,
        Notice::OutputDir(it)@ == Notice::OutputDir(it@),
        Notice::<String>::Gap@ == Notice::<Seq<char>>::Gap,
        Notice::<String>::ExportStep@ == Notice::<Seq<char>>::ExportStep,
        Notice::<String>::Frames(count)@ == Notice::<Seq<char>>::Frames(count),
        (Notice::UpscaleStep { scale, model: it })@ == (Notice::UpscaleStep { scale, model: it@ }),
        Notice::<String>::ProbeStep@ == Notice::<Seq<char>>::ProbeStep,
        Notice::Rate(it)@ == Notice::Rate(it@),
        Notice::<String>::ComposeStep@ == Notice::<Seq<char>>::ComposeStep,
        Notice::Complete(it)@ == Notice::Complete(it@),
        Notice::<String>::Cleaned@ == Notice::<Seq<char>>::Cleaned,
{
}

/// What is handed out means what it holds: the work.
pub proof fn law_work_means_what_it_holds(
    it: String,
    other: String,
    list: Vec<String>,
    notice: Notice<String>,
    failure: Failure<String>,
    count: usize,
    millis: u64,
)
    ensures
        ({
            let command = Command { program: it, args: list, dir: other };
            let meant = Command { program: it@, args: text::texts(list@), dir: other@ };
            &&& command@ == meant
            &&& Action::Run(command)@ == Action::Run(meant)
            &&& Action::Spawn(command)@ == Action::Spawn(meant)
            &&& Action::Capture(command)@ == Action::Capture(meant)
        }),
        Action::<String, Vec<String>>::LocateProgram@ == Action::<Seq<char>, Seq<Seq<char>>>::LocateProgram,
        Action::<String, Vec<String>>::EnterDir(it)@ == Action::<Seq<char>, Seq<Seq<char>>>::EnterDir(it@),
        Action::<String, Vec<String>>::CheckExists(it)@ == Action::<Seq<char>, Seq<Seq<char>>>::CheckExists(it@),
        (Action::<String, Vec<String>>::WriteFile { path: it, content: other })@ == (Action::<Seq<char>, Seq<Seq<char>>>::WriteFile {
            path: it@,
            content: other@,
        }),
        Action::<String, Vec<String>>::LoadConfig(it)@ == Action::<Seq<char>, Seq<Seq<char>>>::LoadConfig(it@),
        Action::<String, Vec<String>>::ListSearchDirs@ == Action::<Seq<char>, Seq<Seq<char>>>::ListSearchDirs,
        Action::<String, Vec<String>>::ProbeFiles(list)@ == Action::<Seq<char>, Seq<Seq<char>>>::ProbeFiles(text::texts(list@)),
        Action::<String, Vec<String>>::Show(notice)@ == Action::<Seq<char>, Seq<Seq<char>>>::Show(notice@),
        (Action::<String, Vec<String>>::QueryVersion { program: it, args: list })@ == (Action::<Seq<char>, Seq<Seq<char>>>::QueryVersion {
            program: it@,
            args: text::texts(list@),
        }),
        Action::<String, Vec<String>>::Ask(it)@ == Action::<Seq<char>, Seq<Seq<char>>>::Ask(it@),
        Action::<String, Vec<String>>::CreateDir(it)@ == Action::<Seq<char>, Seq<Seq<char>>>::CreateDir(it@),
        Action::<String, Vec<String>>::ListDir(it)@ == Action::<Seq<char>, Seq<Seq<char>>>::ListDir(it@),
        Action::<String, Vec<String>>::OpenProgress(count)@ == Action::<Seq<char>, Seq<Seq<char>>>::OpenProgress(count),
        Action::<String, Vec<String>>::MoveProgress(count)@ == Action::<Seq<char>, Seq<Seq<char>>>::MoveProgress(count),
        Action::<String, Vec<String>>::Poll@ == Action::<Seq<char>, Seq<Seq<char>>>::Poll,
        Action::<String, Vec<String>>::Sleep(millis)@ == Action::<Seq<char>, Seq<Seq<char>>>::Sleep(millis),
        Action::<String, Vec<String>>::CloseProgress@ == Action::<Seq<char>, Seq<Seq<char>>>::CloseProgress,
        Action::<String, Vec<String>>::AbandonProgress@ == Action::<Seq<char>, Seq<Seq<char>>>::AbandonProgress,
        Action::<String, Vec<String>>::RemoveDir(it)@ == Action::<Seq<char>, Seq<Seq<char>>>::RemoveDir(it@),
        Action::<String, Vec<String>>::Finish@ == Action::<Seq<char>, Seq<Seq<char>>>::Finish,
        Action::<String, Vec<String>>::Fail(failure)@ == Action::<Seq<char>, Seq<Seq<char>>>::Fail(failure@),
{
}

/// The missing tools are listed one by one, each with the path that was tried.
pub proof fn law_missing_tools_are_listed(ffmpeg: Seq<char>, upscaler: Seq<char>)
    ensures
        missing_lines(None, None).len() == 0,
        missing_lines(Some(ffmpeg), None) == seq!["ffmpeg（路径: "@ + ffmpeg + "）"@],
        missing_lines(None, Some(upscaler)) == seq![
            "realesrgan-ncnn-vulkan（路径: "@ + upscaler + "）"@,
        ],
        missing_lines(Some(ffmpeg), Some(upscaler)) == seq![
            "ffmpeg（路径: "@ + ffmpeg + "）"@,
            "realesrgan-ncnn-vulkan（路径: "@ + upscaler + "）"@,
        ],
{
    assert(missing_lines(None, Some(upscaler)) =~= seq![
        "realesrgan-ncnn-vulkan（路径: "@ + upscaler + "）"@,
    ]);
    assert(missing_lines(Some(ffmpeg), Some(upscaler)) =~= seq![
        "ffmpeg（路径: "@ + ffmpeg + "）"@,
        "realesrgan-ncnn-vulkan（路径: "@ + upscaler + "）"@,
    ]);
}

} // verus!
