use video_upscaler::steps::{list_missing, show_code, Failure};

fn text(value: &str) -> String {
    value.to_string()
}

fn says(failure: Failure<String>, message: &str) {
    assert_eq!(failure.message(), message);
    assert_eq!(failure.clone(), failure);
}

#[test]
fn exit_codes_are_shown() {
    for code in [None, Some(0), Some(1), Some(-1), Some(-1073741515)] {
        assert_eq!(show_code(&code), format!("{:?}", code));
    }
}

#[test]
fn failures_of_the_setup() {
    says(Failure::NoProgramPath, "无法获取程序路径");
    says(Failure::NoProgramDir, "无法获取程序所在目录");
    says(Failure::EnterDir(text("/a")), "无法切换到工作目录: /a");
    says(Failure::WriteConfig(text("/a")), "无法写入配置文件: /a");
    says(Failure::ReadConfig(text("/a")), "无法读取配置文件: /a");
    says(Failure::ConfigFormat(text("/a")), "配置文件格式错误: /a");
}

#[test]
fn missing_tools_are_listed() {
    assert_eq!(list_missing(&None, &None).len(), 0);
    says(
        Failure::MissingTools { ffmpeg: Some(text("/a/ffmpeg")), upscaler: None },
        "以下必要工具未找到，无法继续运行：\n  - ffmpeg（路径: /a/ffmpeg）\n请检查 config.yaml 中的路径配置。",
    );
    says(
        Failure::MissingTools { ffmpeg: None, upscaler: Some(text("/a/r")) },
        "以下必要工具未找到，无法继续运行：\n  - realesrgan-ncnn-vulkan（路径: /a/r）\n请检查 config.yaml 中的路径配置。",
    );
    says(
        Failure::MissingTools { ffmpeg: Some(text("/a/ffmpeg")), upscaler: Some(text("/a/r")) },
        "以下必要工具未找到，无法继续运行：\n  - ffmpeg（路径: /a/ffmpeg）\n  - realesrgan-ncnn-vulkan（路径: /a/r）\n请检查 config.yaml 中的路径配置。",
    );
}

#[test]
fn failures_of_the_questions() {
    says(Failure::Console(text("broken pipe")), "broken pipe");
    says(Failure::NoVideo, "视频路径不能为空");
    says(Failure::VideoMissing(text("/v")), "视频文件不存在: /v");
    says(Failure::CreateOutput(text("/o")), "无法创建输出目录: /o");
    says(Failure::NoFileName, "无法获取文件名");
    says(
        Failure::FramesExist(text("input_image_tmp")),
        "文件夹 \"input_image_tmp\" 已存在，请先处理该文件夹后再运行。",
    );
    says(Failure::CreateFrames(text("/t")), "无法创建目录: /t");
}

#[test]
fn failures_of_the_work() {
    says(Failure::StartExport(text("/f")), "启动 ffmpeg 失败，请检查路径: /f");
    says(Failure::ExportFailed(Some(1)), "FFmpeg 导出帧失败（退出码: Some(1)）");
    says(
        Failure::BadModel(text("x")),
        "不支持的模型名 \"x\", 可选值: realesr-animevideov3 | realesrgan-x4plus | realesrgan-x4plus-anime | realesrnet-x4plus",
    );
    says(Failure::BadScale(7), "不支持的放大倍数 7, 可选值: 2 | 3 | 4");
    says(Failure::StartUpscale(text("/r")), "启动 realesrgan-ncnn-vulkan 失败，请检查路径: /r");
    says(Failure::UpscaleFailed(None), "Real-ESRGAN 处理失败（退出码: None）");
    says(Failure::WaitFailed(text("gone")), "等待 Real-ESRGAN 子进程时出错: gone");
    says(Failure::StartProbe(text("/p")), "启动 ffprobe 失败，请检查路径: /p");
    says(Failure::ProbeFailed, "ffprobe 检测帧率失败");
    says(Failure::NoRate, "ffprobe 未能获取帧率信息");
    says(Failure::StartCompose, "启动 ffmpeg 合成失败");
    says(Failure::ComposeFailed(Some(-5)), "FFmpeg 合成视频失败（退出码: Some(-5)）");
}
