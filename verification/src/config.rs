//! The configuration: its defaults, its file, and what it may say.

use crate::paths;
use crate::text;
use vstd::prelude::*;

verus! {

/// The directory, below the program's own, that videos are written to by default.
pub const DEFAULT_OUTPUT_DIRNAME: &'static str = "out";

/// The name of the configuration file, in the program's directory.
pub const CONFIG_FILENAME: &'static str = "config.yaml";

/// What a user can configure.
#[derive(Clone, Debug)]
pub struct Config {
    /// Where videos are written by default. Blank for the default directory.
    pub output_dir: String,
    /// The executable of ffmpeg.
    pub ffmpeg_path: String,
    /// The executable of ffprobe.
    pub ffprobe_path: String,
    /// The executable of realesrgan-ncnn-vulkan.
    pub realesrgan_path: String,
    /// The model that Real-ESRGAN uses.
    pub realesrgan_model: String,
    /// By how much a video is enlarged.
    pub realesrgan_scale: u32,
}

/// What a configuration says.
pub struct ConfigView {
    pub output_dir: Seq<char>,
    pub ffmpeg_path: Seq<char>,
    pub ffprobe_path: Seq<char>,
    pub realesrgan_path: Seq<char>,
    pub realesrgan_model: Seq<char>,
    pub realesrgan_scale: u32,
}

impl View for Config {
    type V = ConfigView;

    open spec fn view(&self) -> ConfigView {
        ConfigView {
            output_dir: self.output_dir@,
            ffmpeg_path: self.ffmpeg_path@,
            ffprobe_path: self.ffprobe_path@,
            realesrgan_path: self.realesrgan_path@,
            realesrgan_model: self.realesrgan_model@,
            realesrgan_scale: self.realesrgan_scale,
        }
    }
}

/// The configuration that a first run writes.
pub open spec fn default_config() -> ConfigView {
    ConfigView {
        output_dir: DEFAULT_OUTPUT_DIRNAME@,
        ffmpeg_path: "ffmpeg"@,
        ffprobe_path: "ffprobe"@,
        realesrgan_path: "realesrgan-ncnn-vulkan"@,
        realesrgan_model: "realesr-animevideov3"@,
        realesrgan_scale: 2,
    }
}

/// The lines of the configuration file up to its first value.
pub const YAML_HEAD: &'static str = "# 视频 AI 放大工具 配置文件
# ─────────────────────────────────────────────
# 工作目录：本程序所在目录（配置文件、临时目录均在此）
# 路径规则：所有路径都支持相对路径，且一律以【程序所在目录】为基准解析。
#           若指定路径不存在，会自动回退查找：
#             程序目录 → 程序目录/bin → 系统 PATH

# 视频放大默认输出目录（相对路径基于工作目录；留空则默认使用 工作目录/out 目录）
output_dir: ";

/// The lines between the values `output_dir` and `ffmpeg_path`.
pub const YAML_FFMPEG: &'static str = "
# ffmpeg 可执行文件（可只写文件名，如 ffmpeg 或 bin/ffmpeg）
ffmpeg_path: ";

/// The lines between the values `ffmpeg_path` and `ffprobe_path`.
pub const YAML_FFPROBE: &'static str = "
# ffprobe 可执行文件（通常与 ffmpeg 同目录）
ffprobe_path: ";

/// The lines between the values `ffprobe_path` and `realesrgan_path`.
pub const YAML_REALESRGAN: &'static str = "
# realesrgan-ncnn-vulkan 可执行文件
realesrgan_path: ";

/// The lines between the values `realesrgan_path` and `realesrgan_model`.
pub const YAML_MODEL: &'static str = "
# 使用的模型名（-n 参数）
# 可选: realesr-animevideov3 | realesrgan-x4plus | realesrgan-x4plus-anime | realesrnet-x4plus
realesrgan_model: ";

/// The lines between the values `realesrgan_model` and `realesrgan_scale`.
pub const YAML_SCALE: &'static str = "
# 放大倍数（-s 参数），可选: 2 | 3 | 4
realesrgan_scale: ";

/// A value of the configuration file in its quotes, and the end of its line.
pub open spec fn quoted(value: Seq<char>) -> Seq<char> {
    "\""@ + value + "\"\n"@
}

/// The configuration file: each value below a comment that explains it, and each text in double
/// quotes, as it stands.
pub open spec fn commented_yaml(config: ConfigView) -> Seq<char> {
    YAML_HEAD@ + quoted(config.output_dir) + YAML_FFMPEG@ + quoted(config.ffmpeg_path)
        + YAML_FFPROBE@ + quoted(config.ffprobe_path) + YAML_REALESRGAN@ + quoted(
        config.realesrgan_path,
    ) + YAML_MODEL@ + quoted(config.realesrgan_model) + YAML_SCALE@ + text::decimal_text(
        config.realesrgan_scale as nat,
    ) + "\n"@
}

impl Config {
    /// The configuration for a first run. All its paths are relative, so that the program's
    /// directory can be moved as a whole.
    pub fn default_for(_exe_dir: &str) -> (config: Config)
        ensures
            config@ == default_config(),
            config.output_dir@ == "out"@,
            config.ffmpeg_path@ == "ffmpeg"@,
            config.ffprobe_path@ == "ffprobe"@,
            config.realesrgan_path@ == "realesrgan-ncnn-vulkan"@,
            config.realesrgan_model@ == "realesr-animevideov3"@,
            config.realesrgan_scale == 2,
            paths::is_bare(config@.output_dir),
            paths::is_bare(config@.ffmpeg_path),
            paths::is_bare(config@.ffprobe_path),
            paths::is_bare(config@.realesrgan_path),
    {
        proof {
            reveal_strlit("out");
            reveal_strlit("ffmpeg");
            reveal_strlit("ffprobe");
            reveal_strlit("realesrgan-ncnn-vulkan");
        }
        Config {
            output_dir: DEFAULT_OUTPUT_DIRNAME.to_owned(),
            ffmpeg_path: "ffmpeg".to_owned(),
            ffprobe_path: "ffprobe".to_owned(),
            realesrgan_path: "realesrgan-ncnn-vulkan".to_owned(),
            realesrgan_model: "realesr-animevideov3".to_owned(),
            realesrgan_scale: 2,
        }
    }

    /// Writes the configuration file, with comments.
    pub fn to_commented_yaml(&self) -> (yaml: String)
        ensures
            yaml@ == commented_yaml(self@),
            yaml@ == YAML_HEAD@ + "\""@ + self.output_dir@ + "\"\n"@ + YAML_FFMPEG@ + "\""@
                + self.ffmpeg_path@ + "\"\n"@ + YAML_FFPROBE@ + "\""@ + self.ffprobe_path@
                + "\"\n"@ + YAML_REALESRGAN@ + "\""@ + self.realesrgan_path@ + "\"\n"@
                + YAML_MODEL@ + "\""@ + self.realesrgan_model@ + "\"\n"@ + YAML_SCALE@
                + text::decimal_text(self.realesrgan_scale as nat) + "\n"@,
    {
        let mut yaml = YAML_HEAD.to_owned();
        append_quoted(&mut yaml, self.output_dir.as_str());
        yaml.append(YAML_FFMPEG);
        append_quoted(&mut yaml, self.ffmpeg_path.as_str());
        yaml.append(YAML_FFPROBE);
        append_quoted(&mut yaml, self.ffprobe_path.as_str());
        yaml.append(YAML_REALESRGAN);
        append_quoted(&mut yaml, self.realesrgan_path.as_str());
        yaml.append(YAML_MODEL);
        append_quoted(&mut yaml, self.realesrgan_model.as_str());
        yaml.append(YAML_SCALE);
        yaml.append(text::decimal(self.realesrgan_scale as u64).as_str());
        yaml.append("\n");
        proof {
            law_the_configuration_file_holds_every_value(self@);
        }
        yaml
    }
}

/// Appends a value in quotes, and ends its line.
fn append_quoted(yaml: &mut String, value: &str)
    ensures
        final(yaml)@ == old(yaml)@ + quoted(value@),
{
    yaml.append("\"");
    yaml.append(value);
    yaml.append("\"\n");
    assert(yaml@ =~= old(yaml)@ + quoted(value@));
}

/// Where the configuration file lies.
pub open spec fn config_file(exe_dir: Seq<char>) -> Seq<char> {
    paths::joined_path(exe_dir, CONFIG_FILENAME@)
}

/// Names the configuration file.
pub fn config_path(exe_dir: &str) -> (path: String)
    ensures
        path@ == config_file(exe_dir@),
        path@ == paths::joined_path(exe_dir@, "config.yaml"@),
{
    paths::join_path(exe_dir, CONFIG_FILENAME)
}

/// The directory that videos are written to where the user names none: the configured one, or
/// the default one where none is configured.
pub open spec fn default_output(exe_dir: Seq<char>, configured: Seq<char>) -> Seq<char> {
    if text::is_blank(configured) {
        paths::resolved_path(exe_dir, DEFAULT_OUTPUT_DIRNAME@)
    } else {
        paths::resolved_path(exe_dir, configured)
    }
}

/// Decides on the directory that videos are written to where the user names none.
pub fn default_output_dir(exe_dir: &str, configured: &str) -> (dir: String)
    ensures
        dir@ == default_output(exe_dir@, configured@),
        !text::is_blank(configured@) ==> dir@ == paths::resolved_path(exe_dir@, configured@),
        text::is_blank(configured@) ==> dir@ == paths::joined_path(
            exe_dir@,
            DEFAULT_OUTPUT_DIRNAME@,
        ),
{
    proof {
        reveal_strlit("out");
        text::law_clean_values_are_kept("out"@);
    }
    if text::blank(configured) {
        paths::resolve_path(exe_dir, DEFAULT_OUTPUT_DIRNAME)
    } else {
        paths::resolve_path(exe_dir, configured)
    }
}

/// The models that can be chosen.
pub open spec fn models() -> Seq<Seq<char>> {
    seq![
        "realesr-animevideov3"@,
        "realesrgan-x4plus"@,
        "realesrgan-x4plus-anime"@,
        "realesrnet-x4plus"@,
    ]
}

/// Whether a video can be enlarged by a factor.
pub open spec fn is_scale(scale: u32) -> bool {
    scale == 2 || scale == 3 || scale == 4
}

/// Lists the models that can be chosen.
pub fn valid_models() -> (list: Vec<String>)
    ensures
        text::texts(list@) == models(),
{
    let mut list: Vec<String> = Vec::new();
    assert(text::texts(list@) =~= Seq::empty());
    text::push_text(&mut list, "realesr-animevideov3");
    text::push_text(&mut list, "realesrgan-x4plus");
    text::push_text(&mut list, "realesrgan-x4plus-anime");
    text::push_text(&mut list, "realesrnet-x4plus");
    list
}

/// Tests whether a model can be chosen.
pub fn supports_model(model: &String) -> (supported: bool)
    ensures
        supported == models().contains(model@),
        supported == (model@ == "realesr-animevideov3"@ || model@ == "realesrgan-x4plus"@ || model@
            == "realesrgan-x4plus-anime"@ || model@ == "realesrnet-x4plus"@),
{
    proof {
        law_four_models_can_be_chosen(model@);
    }
    let list = valid_models();
    let mut at: usize = 0;
    assert(forall|i: int| 0 <= i < list@.len() ==> models()[i] == (#[trigger] list@[i])@);
    while at < list.len()
        invariant
            at <= list.len(),
            list@.len() == models().len(),
            forall|i: int| 0 <= i < list@.len() ==> models()[i] == (#[trigger] list@[i])@,
            forall|i: int| 0 <= i < at ==> models()[i] != model@,
        decreases list.len() - at,
    {
        if list[at] == *model {
            assert(models()[at as int] == model@);
            return true;
        }
        at = at + 1;
    }
    false
}

/// Tests whether a video can be enlarged by a factor.
pub fn supports_scale(scale: u32) -> (supported: bool)
    ensures
        supported == is_scale(scale),
        supported == (2 <= scale <= 4),
{
    scale == 2 || scale == 3 || scale == 4
}

/// The default configuration asks for a model and a factor that are supported.
pub proof fn law_defaults_are_supported()
    ensures
        models().contains(default_config().realesrgan_model),
        is_scale(default_config().realesrgan_scale),
{
    assert(models()[0] == default_config().realesrgan_model);
}

/// Whether a value stays within its quotes in the configuration file: it holds no double quote at
/// the end of a line of its own.
pub open spec fn stays_in_quotes(value: Seq<char>) -> bool {
    forall|i: int|
        0 <= i < value.len() - 1 && #[trigger] value[i] == '"' ==> value[i + 1] != '\n'
}

impl ConfigView {
    /// Whether all texts of a configuration stay within their quotes in the configuration file.
    /// Those without a double quote do, and those without a line feed.
    pub open spec fn is_quotable(self) -> bool {
        &&& stays_in_quotes(self.output_dir)
        &&& stays_in_quotes(self.ffmpeg_path)
        &&& stays_in_quotes(self.ffprobe_path)
        &&& stays_in_quotes(self.realesrgan_path)
        &&& stays_in_quotes(self.realesrgan_model)
    }
}

/// A value does not end after another one that stands at the same place.
proof fn lemma_no_longer(a: Seq<char>, rest_a: Seq<char>, b: Seq<char>, rest_b: Seq<char>)
    requires
        stays_in_quotes(b),
        quoted(a) + rest_a == quoted(b) + rest_b,
    ensures
        b.len() <= a.len(),
{
    reveal_strlit("\"");
    reveal_strlit("\"\n");
    let (m, n) = (a.len() as int, b.len() as int);
    let (x, y) = (quoted(a) + rest_a, quoted(b) + rest_b);
    if m < n {
        assert(x[m + 1] == '"' && x[m + 2] == '\n');
        assert(y[m + 1] == b[m]);
        if m + 1 < n {
            assert(y[m + 2] == b[m + 1]);
        } else {
            assert(y[m + 2] == '"');
        }
    }
}

/// A value in its quotes ends where the first quote at the end of a line stands.
proof fn lemma_quoted(a: Seq<char>, rest_a: Seq<char>, b: Seq<char>, rest_b: Seq<char>)
    requires
        stays_in_quotes(a),
        stays_in_quotes(b),
        quoted(a) + rest_a == quoted(b) + rest_b,
    ensures
        a == b,
        rest_a == rest_b,
{
    lemma_no_longer(a, rest_a, b, rest_b);
    lemma_no_longer(b, rest_b, a, rest_a);
    reveal_strlit("\"");
    reveal_strlit("\"\n");
    let n = a.len() as int;
    let (x, y) = (quoted(a) + rest_a, quoted(b) + rest_b);
    assert(x.subrange(1, n + 1) =~= a);
    assert(y.subrange(1, n + 1) =~= b);
    assert(x.skip(n + 3) =~= rest_a);
    assert(y.skip(n + 3) =~= rest_b);
}

/// The same text before two others tells nothing of them.
proof fn lemma_same_head(head: Seq<char>, a: Seq<char>, b: Seq<char>)
    requires
        head + a == head + b,
    ensures
        a == b,
{
    assert((head + a).skip(head.len() as int) =~= a);
    assert((head + b).skip(head.len() as int) =~= b);
}

/// The configuration file from its last text on.
spec fn yaml_from_model(config: ConfigView) -> Seq<char> {
    quoted(config.realesrgan_model) + (YAML_SCALE@ + (text::decimal_text(
        config.realesrgan_scale as nat,
    ) + "\n"@))
}

/// The configuration file from its second text on.
spec fn yaml_from_ffmpeg(config: ConfigView) -> Seq<char> {
    quoted(config.ffmpeg_path) + (YAML_FFPROBE@ + (quoted(config.ffprobe_path) + (YAML_REALESRGAN@
        + (quoted(config.realesrgan_path) + (YAML_MODEL@ + yaml_from_model(config))))))
}

/// The configuration file, put together from its end.
proof fn lemma_yaml_from_end(config: ConfigView)
    ensures
        commented_yaml(config) == YAML_HEAD@ + (quoted(config.output_dir) + (YAML_FFMPEG@
            + yaml_from_ffmpeg(config))),
{
    assert(commented_yaml(config) =~= YAML_HEAD@ + (quoted(config.output_dir) + (YAML_FFMPEG@
        + yaml_from_ffmpeg(config))));
}

/// A text without a double quote, or without a line feed, stays within its quotes.
pub proof fn law_common_values_stay_in_quotes(value: Seq<char>)
    requires
        !value.contains('"') || !value.contains('\n'),
    ensures
        stays_in_quotes(value),
{
}

/// The configuration file tells all of a configuration: no two of them are written alike, as
/// long as their texts stay within their quotes.
pub proof fn law_config_file_tells_all(a: ConfigView, b: ConfigView)
    requires
        a.is_quotable(),
        b.is_quotable(),
        commented_yaml(a) == commented_yaml(b),
    ensures
        a == b,
{
    lemma_yaml_from_end(a);
    lemma_yaml_from_end(b);
    let (from_a, from_b) = (yaml_from_ffmpeg(a), yaml_from_ffmpeg(b));
    lemma_same_head(
        YAML_HEAD@,
        quoted(a.output_dir) + (YAML_FFMPEG@ + from_a),
        quoted(b.output_dir) + (YAML_FFMPEG@ + from_b),
    );
    lemma_quoted(a.output_dir, YAML_FFMPEG@ + from_a, b.output_dir, YAML_FFMPEG@ + from_b);
    lemma_same_head(YAML_FFMPEG@, from_a, from_b);
    let (model_a, model_b) = (yaml_from_model(a), yaml_from_model(b));
    let (path_a, path_b) = (YAML_MODEL@ + model_a, YAML_MODEL@ + model_b);
    let (upscaler_a, upscaler_b) = (
        quoted(a.realesrgan_path) + path_a,
        quoted(b.realesrgan_path) + path_b,
    );
    let (probe_a, probe_b) = (
        quoted(a.ffprobe_path) + (YAML_REALESRGAN@ + upscaler_a),
        quoted(b.ffprobe_path) + (YAML_REALESRGAN@ + upscaler_b),
    );
    lemma_quoted(a.ffmpeg_path, YAML_FFPROBE@ + probe_a, b.ffmpeg_path, YAML_FFPROBE@ + probe_b);
    lemma_same_head(YAML_FFPROBE@, probe_a, probe_b);
    lemma_quoted(
        a.ffprobe_path,
        YAML_REALESRGAN@ + upscaler_a,
        b.ffprobe_path,
        YAML_REALESRGAN@ + upscaler_b,
    );
    lemma_same_head(YAML_REALESRGAN@, upscaler_a, upscaler_b);
    lemma_quoted(a.realesrgan_path, path_a, b.realesrgan_path, path_b);
    lemma_same_head(YAML_MODEL@, model_a, model_b);
    let (number_a, number_b) = (
        text::decimal_text(a.realesrgan_scale as nat),
        text::decimal_text(b.realesrgan_scale as nat),
    );
    lemma_quoted(
        a.realesrgan_model,
        YAML_SCALE@ + (number_a + "\n"@),
        b.realesrgan_model,
        YAML_SCALE@ + (number_b + "\n"@),
    );
    lemma_same_head(YAML_SCALE@, number_a + "\n"@, number_b + "\n"@);
    reveal_strlit("\n");
    assert((number_a + "\n"@).drop_last() =~= number_a);
    assert((number_b + "\n"@).drop_last() =~= number_b);
    text::law_decimal_is_unambiguous(a.realesrgan_scale as nat, b.realesrgan_scale as nat);
}

/// The configuration file holds every value as it stands, each text in quotes, in a fixed order,
/// and nothing else but the comments and keys around them.
pub proof fn law_the_configuration_file_holds_every_value(config: ConfigView)
    ensures
        commented_yaml(config) == YAML_HEAD@ + "\""@ + config.output_dir + "\"\n"@ + YAML_FFMPEG@
            + "\""@ + config.ffmpeg_path + "\"\n"@ + YAML_FFPROBE@ + "\""@ + config.ffprobe_path
            + "\"\n"@ + YAML_REALESRGAN@ + "\""@ + config.realesrgan_path + "\"\n"@ + YAML_MODEL@
            + "\""@ + config.realesrgan_model + "\"\n"@ + YAML_SCALE@ + text::decimal_text(
            config.realesrgan_scale as nat,
        ) + "\n"@,
{
    assert(commented_yaml(config) =~= YAML_HEAD@ + "\""@ + config.output_dir + "\"\n"@
        + YAML_FFMPEG@ + "\""@ + config.ffmpeg_path + "\"\n"@ + YAML_FFPROBE@ + "\""@
        + config.ffprobe_path + "\"\n"@ + YAML_REALESRGAN@ + "\""@ + config.realesrgan_path
        + "\"\n"@ + YAML_MODEL@ + "\""@ + config.realesrgan_model + "\"\n"@ + YAML_SCALE@
        + text::decimal_text(config.realesrgan_scale as nat) + "\n"@);
}

/// What a configuration says is what its fields hold.
pub proof fn law_a_configuration_says_what_it_holds(config: Config)
    ensures
        config@.output_dir == config.output_dir@,
        config@.ffmpeg_path == config.ffmpeg_path@,
        config@.ffprobe_path == config.ffprobe_path@,
        config@.realesrgan_path == config.realesrgan_path@,
        config@.realesrgan_model == config.realesrgan_model@,
        config@.realesrgan_scale == config.realesrgan_scale,
{
}

/// Four models can be chosen, and no other.
pub proof fn law_four_models_can_be_chosen(model: Seq<char>)
    ensures
        models().contains(model) <==> {
            ||| model == "realesr-animevideov3"@
            ||| model == "realesrgan-x4plus"@
            ||| model == "realesrgan-x4plus-anime"@
            ||| model == "realesrnet-x4plus"@
        },
        models().len() == 4,
        models()[0] == "realesr-animevideov3"@,
        models()[1] == "realesrgan-x4plus"@,
        models()[2] == "realesrgan-x4plus-anime"@,
        models()[3] == "realesrnet-x4plus"@,
{
    assert(models()[0] == "realesr-animevideov3"@);
    assert(models()[1] == "realesrgan-x4plus"@);
    assert(models()[2] == "realesrgan-x4plus-anime"@);
    assert(models()[3] == "realesrnet-x4plus"@);
}

/// A video can be enlarged by two, three or four, and by no other factor.
pub proof fn law_three_factors_can_be_chosen(scale: u32)
    ensures
        is_scale(scale) <==> 2 <= scale <= 4,
{
}

/// The configuration lies beside the program, and so does the output by default: in the
/// configured directory where anything but white space is configured, and in `out` where not.
pub proof fn law_the_default_output_is_the_configured_one(
    exe_dir: Seq<char>,
    configured: Seq<char>,
)
    ensures
        config_file(exe_dir) == paths::joined_path(exe_dir, "config.yaml"@),
        (forall|i: int| 0 <= i < configured.len() ==> text::is_space(#[trigger] configured[i]))
            ==> default_output(exe_dir, configured) == paths::resolved_path(exe_dir, "out"@),
        (exists|i: int| 0 <= i < configured.len() && !text::is_space(#[trigger] configured[i]))
            ==> default_output(exe_dir, configured) == paths::resolved_path(exe_dir, configured),
{
}

} // verus!
