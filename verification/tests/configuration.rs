use video_upscaler::config::{
    config_path, default_output_dir, supports_model, supports_scale, valid_models, Config,
    CONFIG_FILENAME, DEFAULT_OUTPUT_DIRNAME,
};

const DEFAULT_FILE: &str = "# 视频 AI 放大工具 配置文件
# ─────────────────────────────────────────────
# 工作目录：本程序所在目录（配置文件、临时目录均在此）
# 路径规则：所有路径都支持相对路径，且一律以【程序所在目录】为基准解析。
#           若指定路径不存在，会自动回退查找：
#             程序目录 → 程序目录/bin → 系统 PATH

# 视频放大默认输出目录（相对路径基于工作目录；留空则默认使用 工作目录/out 目录）
output_dir: \"out\"

# ffmpeg 可执行文件（可只写文件名，如 ffmpeg 或 bin/ffmpeg）
ffmpeg_path: \"ffmpeg\"

# ffprobe 可执行文件（通常与 ffmpeg 同目录）
ffprobe_path: \"ffprobe\"

# realesrgan-ncnn-vulkan 可执行文件
realesrgan_path: \"realesrgan-ncnn-vulkan\"

# 使用的模型名（-n 参数）
# 可选: realesr-animevideov3 | realesrgan-x4plus | realesrgan-x4plus-anime | realesrnet-x4plus
realesrgan_model: \"realesr-animevideov3\"

# 放大倍数（-s 参数），可选: 2 | 3 | 4
realesrgan_scale: 2
";

#[test]
fn the_default_configuration() {
    let config = Config::default_for("/opt/tool");
    assert_eq!(config.output_dir, "out");
    assert_eq!(config.ffmpeg_path, "ffmpeg");
    assert_eq!(config.ffprobe_path, "ffprobe");
    assert_eq!(config.realesrgan_path, "realesrgan-ncnn-vulkan");
    assert_eq!(config.realesrgan_model, "realesr-animevideov3");
    assert_eq!(config.realesrgan_scale, 2);
    assert_eq!(DEFAULT_OUTPUT_DIRNAME, "out");
}

#[test]
fn the_default_paths_are_relative() {
    let config = Config::default_for("/opt/tool");
    for path in [config.output_dir, config.ffmpeg_path, config.ffprobe_path, config.realesrgan_path] {
        assert!(std::path::Path::new(&path).is_relative());
        assert!(!path.contains('/'));
    }
}

#[test]
fn the_default_configuration_is_supported() {
    let config = Config::default_for("");
    assert!(supports_model(&config.realesrgan_model));
    assert!(supports_scale(config.realesrgan_scale));
}

#[test]
fn the_configuration_file_is_commented() {
    assert_eq!(Config::default_for("/opt/tool").to_commented_yaml(), DEFAULT_FILE);
}

#[test]
fn the_configuration_file_reads_back() {
    let mut config = Config::default_for("/opt/tool");
    config.output_dir = "我的 视频/out".to_string();
    config.realesrgan_scale = 4;
    let value: serde_yaml::Value = serde_yaml::from_str(&config.to_commented_yaml()).unwrap();
    assert_eq!(value.get("output_dir").unwrap().as_str(), Some("我的 视频/out"));
    assert_eq!(value.get("ffmpeg_path").unwrap().as_str(), Some("ffmpeg"));
    assert_eq!(value.get("ffprobe_path").unwrap().as_str(), Some("ffprobe"));
    assert_eq!(value.get("realesrgan_path").unwrap().as_str(), Some("realesrgan-ncnn-vulkan"));
    assert_eq!(value.get("realesrgan_model").unwrap().as_str(), Some("realesr-animevideov3"));
    assert_eq!(value.get("realesrgan_scale").unwrap().as_u64(), Some(4));
}

#[test]
fn different_configurations_are_written_differently() {
    let base = Config::default_for("").to_commented_yaml();
    let mut other = Config::default_for("");
    other.realesrgan_scale = 12;
    assert_ne!(other.to_commented_yaml(), base);
    let mut other = Config::default_for("");
    other.ffmpeg_path = "ffprobe".to_string();
    assert_ne!(other.to_commented_yaml(), base);
}

#[test]
fn values_are_written_as_they_stand() {
    let mut config = Config::default_for("");
    config.ffmpeg_path = "a\"b".to_string();
    assert!(config.to_commented_yaml().contains("\nffmpeg_path: \"a\"b\"\n"));
}

#[test]
fn values_with_quotes_or_line_feeds_are_told_apart() {
    let values = ["a", "a\"", "\"a", "a\nb", "\na", "a\n", "a\"b", "ab", "a\" b", ""];
    for (i, left) in values.iter().enumerate() {
        for (j, right) in values.iter().enumerate() {
            let mut one = Config::default_for("");
            one.ffmpeg_path = left.to_string();
            let mut other = Config::default_for("");
            other.ffmpeg_path = right.to_string();
            assert_eq!(one.to_commented_yaml() == other.to_commented_yaml(), i == j);
        }
    }
    let mut one = Config::default_for("");
    one.output_dir = "x\ny".to_string();
    one.ffmpeg_path = "z".to_string();
    let mut other = Config::default_for("");
    other.output_dir = "x".to_string();
    other.ffmpeg_path = "y\nz".to_string();
    assert_ne!(one.to_commented_yaml(), other.to_commented_yaml());
}

#[test]
fn the_configuration_file_lies_beside_the_program() {
    assert_eq!(CONFIG_FILENAME, "config.yaml");
    assert_eq!(config_path("/opt/tool"), "/opt/tool/config.yaml");
}

#[test]
fn the_default_output_directory() {
    assert_eq!(default_output_dir("/opt/tool", ""), "/opt/tool/out");
    assert_eq!(default_output_dir("/opt/tool", " \t"), "/opt/tool/out");
    assert_eq!(default_output_dir("/opt/tool", "videos"), "/opt/tool/videos");
    assert_eq!(default_output_dir("/opt/tool", "/srv/videos"), "/srv/videos");
    assert_eq!(default_output_dir("/opt/tool", "\"\""), "/opt/tool/");
}

#[test]
fn models_and_factors() {
    assert_eq!(
        valid_models(),
        vec![
            "realesr-animevideov3".to_string(),
            "realesrgan-x4plus".to_string(),
            "realesrgan-x4plus-anime".to_string(),
            "realesrnet-x4plus".to_string(),
        ]
    );
    assert!(supports_model(&"realesrnet-x4plus".to_string()));
    assert!(!supports_model(&"realesrnet".to_string()));
    assert!(!supports_model(&String::new()));
    assert!(!supports_scale(0) && !supports_scale(1) && !supports_scale(5));
    assert!(supports_scale(2) && supports_scale(3) && supports_scale(4));
}
