//! The directories and files of a run, and the command lines of the outside programs.

use crate::paths;
use crate::text;
use vstd::prelude::*;

verus! {

/// The directory, below the program's own, for the frames of the video.
pub const INPUT_TMP: &'static str = "input_image_tmp";

/// The directory, below the program's own, for the enlarged frames.
pub const OUTPUT_TMP: &'static str = "out_image_tmp";

/// How the files of numbered frames are named.
pub const FRAME_NAME: &'static str = "frame%08d.png";

/// Where the frames of the video go.
pub open spec fn input_frames(exe_dir: Seq<char>) -> Seq<char> {
    paths::joined_path(exe_dir, INPUT_TMP@)
}

/// Where the enlarged frames go.
pub open spec fn output_frames(exe_dir: Seq<char>) -> Seq<char> {
    paths::joined_path(exe_dir, OUTPUT_TMP@)
}

/// The files of the frames in a directory, as ffmpeg is told of them.
pub open spec fn frame_files(dir: Seq<char>) -> Seq<char> {
    paths::joined_path(dir, FRAME_NAME@)
}

/// The file that the enlarged video is written to.
pub open spec fn video_file(output_dir: Seq<char>, stem: Seq<char>) -> Seq<char> {
    paths::joined_path(output_dir, "out_"@ + stem + ".mp4"@)
}

/// Names the directory for the frames of the video.
pub fn input_tmp(exe_dir: &str) -> (dir: String)
    ensures
        dir@ == input_frames(exe_dir@),
        dir@ == paths::joined_path(exe_dir@, "input_image_tmp"@),
{
    paths::join_path(exe_dir, INPUT_TMP)
}

/// Names the directory for the enlarged frames.
pub fn output_tmp(exe_dir: &str) -> (dir: String)
    ensures
        dir@ == output_frames(exe_dir@),
        dir@ == paths::joined_path(exe_dir@, "out_image_tmp"@),
{
    paths::join_path(exe_dir, OUTPUT_TMP)
}

/// Names the file that the enlarged video is written to.
pub fn out_file(output_dir: &str, stem: &str) -> (file: String)
    ensures
        file@ == video_file(output_dir@, stem@),
        file@ == paths::joined_path(output_dir@, "out_"@ + stem@ + ".mp4"@),
{
    let name = "out_".to_owned().concat(stem).concat(".mp4");
    paths::join_path(output_dir, name.as_str())
}

/// The arguments by which ffmpeg prints its version.
pub open spec fn version_arguments() -> Seq<Seq<char>> {
    seq!["-version"@]
}

/// The arguments by which ffmpeg takes a video apart into the frames in a directory.
pub open spec fn export_arguments(video: Seq<char>, dir: Seq<char>) -> Seq<Seq<char>> {
    seq![
        "-i"@,
        video,
        "-qscale:v"@,
        "1"@,
        "-qmin"@,
        "1"@,
        "-qmax"@,
        "1"@,
        "-vsync"@,
        "0"@,
        frame_files(dir),
    ]
}

/// The arguments by which Real-ESRGAN enlarges the frames of one directory into another.
pub open spec fn upscale_arguments(
    from: Seq<char>,
    to: Seq<char>,
    model: Seq<char>,
    scale: u32,
) -> Seq<Seq<char>> {
    seq![
        "-i"@,
        from,
        "-o"@,
        to,
        "-n"@,
        model,
        "-s"@,
        text::decimal_text(scale as nat),
        "-f"@,
        "png"@,
    ]
}

/// The arguments by which ffprobe prints the frame rate of a video.
pub open spec fn probe_arguments(video: Seq<char>) -> Seq<Seq<char>> {
    seq![
        "-v"@,
        "error"@,
        "-select_streams"@,
        "v:0"@,
        "-show_entries"@,
        "stream=r_frame_rate"@,
        "-of"@,
        "default=noprint_wrappers=1:nokey=1"@,
        video,
    ]
}

/// The arguments by which ffmpeg puts the frames in a directory and the sound of the video
/// together, at the frame rate that the video has.
pub open spec fn compose_arguments(
    rate: Seq<char>,
    dir: Seq<char>,
    video: Seq<char>,
    file: Seq<char>,
) -> Seq<Seq<char>> {
    seq![
        "-framerate"@,
        rate,
        "-i"@,
        frame_files(dir),
        "-i"@,
        video,
        "-map"@,
        "0:v:0"@,
        "-map"@,
        "1:a:0"@,
        "-c:a"@,
        "copy"@,
        "-c:v"@,
        "libx264"@,
        "-r"@,
        rate,
        "-pix_fmt"@,
        "yuv420p"@,
        file,
    ]
}

/// An empty list of arguments.
fn no_arguments() -> (args: Vec<String>)
    ensures
        text::texts(args@) == Seq::<Seq<char>>::empty(),
{
    let args: Vec<String> = Vec::new();
    assert(text::texts(args@) =~= Seq::empty());
    args
}

/// Lists the arguments by which ffmpeg prints its version.
pub fn version_args() -> (args: Vec<String>)
    ensures
        text::texts(args@) == version_arguments(),
        args@.len() == 1,
        args@[0]@ == "-version"@,
{
    let mut args = no_arguments();
    text::push_text(&mut args, "-version");
    proof {
        text::law_texts_tell_every_string(args@);
    }
    args
}

/// Lists the arguments by which ffmpeg takes a video apart.
pub fn export_args(video: &str, dir: &str) -> (args: Vec<String>)
    ensures
        text::texts(args@) == export_arguments(video@, dir@),
        args@.len() == 11,
        args@[0]@ == "-i"@,
        args@[1]@ == video@,
        args@[2]@ == "-qscale:v"@,
        args@[3]@ == "1"@,
        args@[4]@ == "-qmin"@,
        args@[5]@ == "1"@,
        args@[6]@ == "-qmax"@,
        args@[7]@ == "1"@,
        args@[8]@ == "-vsync"@,
        args@[9]@ == "0"@,
        args@[10]@ == paths::joined_path(dir@, "frame%08d.png"@),
{
    let mut args = no_arguments();
    text::push_text(&mut args, "-i");
    text::push_text(&mut args, video);
    text::push_text(&mut args, "-qscale:v");
    text::push_text(&mut args, "1");
    text::push_text(&mut args, "-qmin");
    text::push_text(&mut args, "1");
    text::push_text(&mut args, "-qmax");
    text::push_text(&mut args, "1");
    text::push_text(&mut args, "-vsync");
    text::push_text(&mut args, "0");
    text::push_text(&mut args, paths::join_path(dir, FRAME_NAME).as_str());
    proof {
        text::law_texts_tell_every_string(args@);
    }
    args
}

/// Lists the arguments by which Real-ESRGAN enlarges frames.
pub fn upscale_args(from: &str, to: &str, model: &str, scale: u32) -> (args: Vec<String>)
    ensures
        text::texts(args@) == upscale_arguments(from@, to@, model@, scale),
        args@.len() == 10,
        args@[0]@ == "-i"@,
        args@[1]@ == from@,
        args@[2]@ == "-o"@,
        args@[3]@ == to@,
        args@[4]@ == "-n"@,
        args@[5]@ == model@,
        args@[6]@ == "-s"@,
        args@[7]@ == text::decimal_text(scale as nat),
        args@[8]@ == "-f"@,
        args@[9]@ == "png"@,
{
    let mut args = no_arguments();
    text::push_text(&mut args, "-i");
    text::push_text(&mut args, from);
    text::push_text(&mut args, "-o");
    text::push_text(&mut args, to);
    text::push_text(&mut args, "-n");
    text::push_text(&mut args, model);
    text::push_text(&mut args, "-s");
    text::push_text(&mut args, text::decimal(scale as u64).as_str());
    text::push_text(&mut args, "-f");
    text::push_text(&mut args, "png");
    proof {
        text::law_texts_tell_every_string(args@);
    }
    args
}

/// Lists the arguments by which ffprobe prints a frame rate.
pub fn probe_args(video: &str) -> (args: Vec<String>)
    ensures
        text::texts(args@) == probe_arguments(video@),
        args@.len() == 9,
        args@[0]@ == "-v"@,
        args@[1]@ == "error"@,
        args@[2]@ == "-select_streams"@,
        args@[3]@ == "v:0"@,
        args@[4]@ == "-show_entries"@,
        args@[5]@ == "stream=r_frame_rate"@,
        args@[6]@ == "-of"@,
        args@[7]@ == "default=noprint_wrappers=1:nokey=1"@,
        args@[8]@ == video@,
{
    let mut args = no_arguments();
    text::push_text(&mut args, "-v");
    text::push_text(&mut args, "error");
    text::push_text(&mut args, "-select_streams");
    text::push_text(&mut args, "v:0");
    text::push_text(&mut args, "-show_entries");
    text::push_text(&mut args, "stream=r_frame_rate");
    text::push_text(&mut args, "-of");
    text::push_text(&mut args, "default=noprint_wrappers=1:nokey=1");
    text::push_text(&mut args, video);
    proof {
        text::law_texts_tell_every_string(args@);
    }
    args
}

/// Lists the arguments by which ffmpeg puts a video together.
pub fn compose_args(rate: &str, dir: &str, video: &str, file: &str) -> (args: Vec<String>)
    ensures
        text::texts(args@) == compose_arguments(rate@, dir@, video@, file@),
        args@.len() == 19,
        args@[0]@ == "-framerate"@,
        args@[1]@ == rate@,
        args@[2]@ == "-i"@,
        args@[3]@ == paths::joined_path(dir@, "frame%08d.png"@),
        args@[4]@ == "-i"@,
        args@[5]@ == video@,
        args@[6]@ == "-map"@,
        args@[7]@ == "0:v:0"@,
        args@[8]@ == "-map"@,
        args@[9]@ == "1:a:0"@,
        args@[10]@ == "-c:a"@,
        args@[11]@ == "copy"@,
        args@[12]@ == "-c:v"@,
        args@[13]@ == "libx264"@,
        args@[14]@ == "-r"@,
        args@[15]@ == rate@,
        args@[16]@ == "-pix_fmt"@,
        args@[17]@ == "yuv420p"@,
        args@[18]@ == file@,
{
    let mut args = no_arguments();
    text::push_text(&mut args, "-framerate");
    text::push_text(&mut args, rate);
    text::push_text(&mut args, "-i");
    text::push_text(&mut args, paths::join_path(dir, FRAME_NAME).as_str());
    text::push_text(&mut args, "-i");
    text::push_text(&mut args, video);
    text::push_text(&mut args, "-map");
    text::push_text(&mut args, "0:v:0");
    text::push_text(&mut args, "-map");
    text::push_text(&mut args, "1:a:0");
    text::push_text(&mut args, "-c:a");
    text::push_text(&mut args, "copy");
    text::push_text(&mut args, "-c:v");
    text::push_text(&mut args, "libx264");
    text::push_text(&mut args, "-r");
    text::push_text(&mut args, rate);
    text::push_text(&mut args, "-pix_fmt");
    text::push_text(&mut args, "yuv420p");
    text::push_text(&mut args, file);
    proof {
        text::law_texts_tell_every_string(args@);
    }
    args
}

/// Where frames and the video lie: the two directories for frames below the program's own, the
/// frames in one under their pattern, and the video in the output directory, under the name of
/// the one that it was made from.
pub proof fn law_files_lie_where_they_are_said_to(
    exe_dir: Seq<char>,
    dir: Seq<char>,
    stem: Seq<char>,
)
    ensures
        input_frames(exe_dir) == paths::joined_path(exe_dir, "input_image_tmp"@),
        output_frames(exe_dir) == paths::joined_path(exe_dir, "out_image_tmp"@),
        frame_files(dir) == paths::joined_path(dir, "frame%08d.png"@),
        video_file(dir, stem) == paths::joined_path(dir, "out_"@ + stem + ".mp4"@),
{
}

/// ffmpeg is asked for nothing but its version.
pub proof fn law_ffmpeg_is_asked_for_its_version()
    ensures
        ({
            let args = version_arguments();
            &&& args.len() == 1
            &&& args[0] == "-version"@
        }),
{
}

/// ffmpeg takes in the video that is given and writes its frames, each of them and in full
/// quality, under their pattern in the directory that is given.
pub proof fn law_the_video_is_taken_apart_into_the_directory(video: Seq<char>, dir: Seq<char>)
    ensures
        ({
            let args = export_arguments(video, dir);
            &&& args.len() == 11
            &&& args[0] == "-i"@
            &&& args[1] == video
            &&& args[2] == "-qscale:v"@
            &&& args[3] == "1"@
            &&& args[4] == "-qmin"@
            &&& args[5] == "1"@
            &&& args[6] == "-qmax"@
            &&& args[7] == "1"@
            &&& args[8] == "-vsync"@
            &&& args[9] == "0"@
            &&& args[10] == paths::joined_path(dir, "frame%08d.png"@)
        }),
{
}

/// Real-ESRGAN goes from the directory with frames to the other, by the model and the factor that
/// are given.
pub proof fn law_frames_are_enlarged_as_asked(from: Seq<char>, to: Seq<char>, model: Seq<char>, scale: u32)
    ensures
        ({
            let args = upscale_arguments(from, to, model, scale);
            &&& args.len() == 10
            &&& args[0] == "-i"@
            &&& args[1] == from
            &&& args[2] == "-o"@
            &&& args[3] == to
            &&& args[4] == "-n"@
            &&& args[5] == model
            &&& args[6] == "-s"@
            &&& args[7] == text::decimal_text(scale as nat)
            &&& args[8] == "-f"@
            &&& args[9] == "png"@
        }),
{
}

/// ffprobe is asked for the frame rate of the video that is given, and for nothing else.
pub proof fn law_the_rate_of_the_video_is_probed(video: Seq<char>)
    ensures
        ({
            let args = probe_arguments(video);
            &&& args.len() == 9
            &&& args[0] == "-v"@
            &&& args[1] == "error"@
            &&& args[2] == "-select_streams"@
            &&& args[3] == "v:0"@
            &&& args[4] == "-show_entries"@
            &&& args[5] == "stream=r_frame_rate"@
            &&& args[6] == "-of"@
            &&& args[7] == "default=noprint_wrappers=1:nokey=1"@
            &&& args[8] == video
        }),
{
}

/// The enlarged frames are read and written at the rate that is given, and the sound is that of
/// the video.
pub proof fn law_the_video_is_composed_at_its_own_rate(rate: Seq<char>, dir: Seq<char>, video: Seq<char>, file: Seq<char>)
    ensures
        ({
            let args = compose_arguments(rate, dir, video, file);
            &&& args.len() == 19
            &&& args[0] == "-framerate"@
            &&& args[1] == rate
            &&& args[2] == "-i"@
            &&& args[3] == paths::joined_path(dir, "frame%08d.png"@)
            &&& args[4] == "-i"@
            &&& args[5] == video
            &&& args[6] == "-map"@
            &&& args[7] == "0:v:0"@
            &&& args[8] == "-map"@
            &&& args[9] == "1:a:0"@
            &&& args[10] == "-c:a"@
            &&& args[11] == "copy"@
            &&& args[12] == "-c:v"@
            &&& args[13] == "libx264"@
            &&& args[14] == "-r"@
            &&& args[15] == rate
            &&& args[16] == "-pix_fmt"@
            &&& args[17] == "yuv420p"@
            &&& args[18] == file
        }),
{
}

/// No two frame rates, no two models and no two factors are passed on alike.
pub proof fn law_settings_are_passed_on_unchanged(
    a: Seq<char>,
    b: Seq<char>,
    m: u32,
    n: u32,
    from: Seq<char>,
    to: Seq<char>,
    file: Seq<char>,
)
    ensures
        compose_arguments(a, from, to, file) == compose_arguments(b, from, to, file) ==> a == b,
        upscale_arguments(from, to, a, m) == upscale_arguments(from, to, b, n) ==> a == b && m == n,
{
    law_the_video_is_composed_at_its_own_rate(a, from, to, file);
    law_the_video_is_composed_at_its_own_rate(b, from, to, file);
    law_frames_are_enlarged_as_asked(from, to, a, m);
    law_frames_are_enlarged_as_asked(from, to, b, n);
    if text::decimal_text(m as nat) == text::decimal_text(n as nat) {
        text::law_decimal_is_unambiguous(m as nat, n as nat);
    }
}

} // verus!
