use video_upscaler::commands::{
    compose_args, export_args, input_tmp, out_file, output_tmp, probe_args, upscale_args,
};

fn line(args: Vec<String>) -> String {
    args.join(" ")
}

#[test]
fn directories_and_files() {
    assert_eq!(input_tmp("/opt/tool"), "/opt/tool/input_image_tmp");
    assert_eq!(output_tmp("/opt/tool"), "/opt/tool/out_image_tmp");
    assert_eq!(out_file("/srv/out", "clip"), "/srv/out/out_clip.mp4");
}

#[test]
fn taking_a_video_apart() {
    let args = export_args("/v/my clip.mp4", "/t/in");
    assert_eq!(args.len(), 11);
    assert_eq!(args[1], "/v/my clip.mp4");
    assert_eq!(
        line(args),
        "-i /v/my clip.mp4 -qscale:v 1 -qmin 1 -qmax 1 -vsync 0 /t/in/frame%08d.png"
    );
}

#[test]
fn enlarging_frames() {
    assert_eq!(
        line(upscale_args("/t/in", "/t/out", "realesrgan-x4plus", 4)),
        "-i /t/in -o /t/out -n realesrgan-x4plus -s 4 -f png"
    );
}

#[test]
fn probing_a_video() {
    assert_eq!(
        line(probe_args("/v/clip.mp4")),
        "-v error -select_streams v:0 -show_entries stream=r_frame_rate -of \
         default=noprint_wrappers=1:nokey=1 /v/clip.mp4"
    );
}

#[test]
fn putting_a_video_together() {
    let args = compose_args("30000/1001", "/t/out", "/v/clip.mp4", "/o/out_clip.mp4");
    assert_eq!(args.len(), 19);
    assert_eq!(
        line(args),
        "-framerate 30000/1001 -i /t/out/frame%08d.png -i /v/clip.mp4 -map 0:v:0 -map 1:a:0 \
         -c:a copy -c:v libx264 -r 30000/1001 -pix_fmt yuv420p /o/out_clip.mp4"
    );
}
