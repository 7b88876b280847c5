# video_upscaler

Takes a video apart into frames with ffmpeg, enlarges the frames with Real-ESRGAN, and puts them
together again with the sound of the video.

`src/` is the verified library. It decides; it does no outside work of its own. A
`session::Session` says which work is to be done next (`action`), and takes in what came of it
(`advance`). The other modules hold what it decides with:

- `text`: what wraps answers and paths, lines, numbers
- `paths`: paths as text
- `tools`: where the outside programs are looked for, and what is read from their output
- `config`: the configuration and its file
- `commands`: the command lines of the outside programs
- `steps`: the words exchanged with the outside, and what is said of failures
- `runs`: what holds of every run

`app/` is the program: it does the work, and shows what is to be shown.
