use blindtest::clip::Offset;
use blindtest::command::{clip_duration_command, ffmpeg_command, CommandLine, ExportItem};
use blindtest::error::ExportError;
use blindtest::graph::{fade_audio_stream, fade_from, fade_scale_stream, FilterGraph, StreamKind};
use blindtest::text::push_decimal;

const SCALE: &str = "scale=1920:1080:force_original_aspect_ratio=decrease,pad=1920:1080:(ow-iw)/2:(oh-ih)/2,setsar=1";

fn item(offset: u64, music: &str, image: &str) -> ExportItem {
    ExportItem {
        offset: Offset::from_secs(offset),
        music_path: music.to_string(),
        image_path: image.to_string(),
    }
}

fn strings(words: &[&str]) -> Vec<String> {
    words.iter().map(|w| w.to_string()).collect()
}

#[test]
fn it_works() {
    assert_eq!(2 + 2, 4);
}

#[test]
fn decimal_of_small_and_large_numbers() {
    for (n, expected) in [
        (0u128, "0"),
        (7, "7"),
        (10, "10"),
        (1905, "1905"),
        (u64::MAX as u128, "18446744073709551615"),
        (u128::MAX, "340282366920938463463374607431768211455"),
    ] {
        let mut out = String::from("x");
        push_decimal(&mut out, n);
        assert_eq!(out, format!("x{}", expected));
    }
}

#[test]
fn fade_scale_stream_matches_the_format() {
    assert_eq!(
        fade_scale_stream(3, 7, 10),
        format!("[3:v]{},fade=t=out:st=9:d=1[v7]", SCALE)
    );
}

#[test]
fn fade_audio_stream_matches_the_format() {
    assert_eq!(fade_audio_stream(4, 1, 30), "[4:a]afade=t=out:st=29:d=1[a1]");
}

#[test]
fn fade_of_an_empty_stream_starts_at_zero() {
    assert_eq!(fade_from(0), 0);
    assert_eq!(fade_from(1), 0);
    assert_eq!(fade_from(2), 1);
    assert_eq!(fade_from(u32::MAX), u32::MAX - 1);
    assert_eq!(fade_audio_stream(0, 0, 0), "[0:a]afade=t=out:st=0:d=1[a0]");
}

#[test]
fn probe_command_is_ffprobe_with_csv_output() {
    let command = clip_duration_command("/media/countdown.mp4");
    assert_eq!(command.program, "ffprobe");
    assert_eq!(
        command.args,
        strings(&[
            "-i",
            "/media/countdown.mp4",
            "-show_entries",
            "format=duration",
            "-v",
            "quiet",
            "-of",
            "csv=p=0",
        ])
    );
}

#[test]
fn graph_of_two_items_has_four_video_and_two_audio_streams() {
    let graph = FilterGraph::build(2, 3, 10).unwrap();
    assert_eq!(graph.fades.len(), 6);
    assert_eq!(graph.video.kind, StreamKind::Video);
    assert_eq!(graph.video.inputs, vec![0, 1, 2, 3]);
    assert_eq!(graph.video.declared, 4);
    let audio = graph.audio.clone().unwrap();
    assert_eq!(audio.kind, StreamKind::Audio);
    assert_eq!(audio.inputs, vec![0, 1]);
    assert_eq!(audio.declared, 2);
    let inputs: Vec<u128> = graph.fades.iter().map(|f| f.input).collect();
    assert_eq!(inputs, vec![0, 1, 2, 0, 3, 4]);
    let starts: Vec<u32> = graph.fades.iter().map(|f| f.start).collect();
    assert_eq!(starts, vec![2, 6, 9, 2, 6, 9]);
}

#[test]
fn graph_labels_are_distinct_and_all_consumed() {
    for n in 0..20usize {
        let graph = FilterGraph::build(n, 2, 9).unwrap();
        let mut video: Vec<u128> = Vec::new();
        let mut audio: Vec<u128> = Vec::new();
        for fade in &graph.fades {
            assert!((fade.input as usize) < 1 + 2 * n);
            match fade.kind {
                StreamKind::Video => video.push(fade.output),
                StreamKind::Audio => audio.push(fade.output),
            }
        }
        let mut sorted = video.clone();
        sorted.sort();
        sorted.dedup();
        assert_eq!(sorted.len(), video.len());
        assert_eq!(video, graph.video.inputs);
        assert_eq!(graph.video.declared as usize, graph.video.inputs.len());
        assert_eq!(graph.video.declared as usize, if n == 0 { 1 } else { 2 * n });
        match &graph.audio {
            Some(concat) => {
                assert_eq!(audio, concat.inputs);
                assert_eq!(concat.declared as usize, n);
            }
            None => {
                assert_eq!(n, 0);
                assert!(audio.is_empty());
            }
        }
    }
}

#[test]
fn graph_text_of_one_item() {
    let graph = FilterGraph::build(1, 3, 10).unwrap();
    assert_eq!(
        graph.render(),
        format!(
            "[0:v]{s},fade=t=out:st=2:d=1[v0];[1:v]{s},fade=t=out:st=6:d=1[v1];[2:a]afade=t=out:st=9:d=1[a0];[v0][v1]concat=n=2:v=1:a=0[v];[a0]concat=n=1:v=0:a=1[a]",
            s = SCALE
        )
    );
}

#[test]
fn graph_without_items_shows_the_countdown_alone() {
    let graph = FilterGraph::build(0, 3, 10).unwrap();
    assert_eq!(graph.fades.len(), 1);
    assert!(graph.audio.is_none());
    assert_eq!(
        graph.render(),
        format!("[0:v]{},fade=t=out:st=2:d=1[v0];[v0]concat=n=1:v=1:a=0[v]", SCALE)
    );
}

#[test]
fn graph_rejects_a_countdown_longer_than_the_clip() {
    assert_eq!(FilterGraph::build(3, 11, 10), Err(ExportError::InvalidDuration));
    assert_eq!(FilterGraph::build(0, 1, 0), Err(ExportError::InvalidDuration));
    assert!(FilterGraph::build(3, 10, 10).is_ok());
}

#[test]
fn encoder_command_of_two_items() {
    let items = vec![item(12, "/m/a.mp3", "/i/a.png"), item(0, "/m/b.ogg", "/i/b.jpg")];
    let command = ffmpeg_command(30, 5, "/c/count.mp4", &items, "/out/quiz.mp4").unwrap();
    assert_eq!(command.program, "ffmpeg");
    let filter = format!(
        "[0:v]{s},fade=t=out:st=4:d=1[v0];[1:v]{s},fade=t=out:st=24:d=1[v1];[2:a]afade=t=out:st=29:d=1[a0];[0:v]{s},fade=t=out:st=4:d=1[v2];[3:v]{s},fade=t=out:st=24:d=1[v3];[4:a]afade=t=out:st=29:d=1[a1];[v0][v1][v2][v3]concat=n=4:v=1:a=0[v];[a0][a1]concat=n=2:v=0:a=1[a]",
        s = SCALE
    );
    let expected = strings(&[
        "-i",
        "/c/count.mp4",
        "-loop",
        "1",
        "-t",
        "25",
        "-i",
        "/i/a.png",
        "-ss",
        "12",
        "-t",
        "30",
        "-i",
        "/m/a.mp3",
        "-loop",
        "1",
        "-t",
        "25",
        "-i",
        "/i/b.jpg",
        "-ss",
        "0",
        "-t",
        "30",
        "-i",
        "/m/b.ogg",
        "-filter_complex",
        &filter,
        "-map",
        "[v]",
        "-map",
        "[a]",
        "-v",
        "error",
        "-progress",
        "-",
        "-shortest",
        "-y",
        "/out/quiz.mp4",
    ]);
    assert_eq!(command.args, expected);
}

#[test]
fn encoder_command_without_items_maps_video_only() {
    let command = ffmpeg_command(10, 3, "count.mp4", &Vec::new(), "out.mp4").unwrap();
    let filter = format!("[0:v]{},fade=t=out:st=2:d=1[v0];[v0]concat=n=1:v=1:a=0[v]", SCALE);
    assert_eq!(
        command.args,
        strings(&[
            "-i",
            "count.mp4",
            "-filter_complex",
            &filter,
            "-map",
            "[v]",
            "-v",
            "error",
            "-progress",
            "-",
            "-shortest",
            "-y",
            "out.mp4",
        ])
    );
}

#[test]
fn encoder_command_rejects_a_long_countdown() {
    let items = vec![item(0, "a.mp3", "a.png")];
    assert_eq!(
        ffmpeg_command(10, 11, "count.mp4", &items, "out.mp4"),
        Err(ExportError::InvalidDuration)
    );
}

#[test]
fn encoder_command_accepts_equal_durations() {
    let items = vec![item(0, "a.mp3", "a.png")];
    let command = ffmpeg_command(10, 10, "count.mp4", &items, "out.mp4").unwrap();
    assert_eq!(command.args[5], "0");
    assert_eq!(command.args[14], "-filter_complex");
    assert!(command.args[15].contains("[1:v]"));
    assert!(command.args[15].contains("fade=t=out:st=0:d=1[v1]"));
}

#[test]
fn thread_hint_goes_to_the_end() {
    let command = CommandLine { program: "ffmpeg".to_string(), args: strings(&["-y", "out.mp4"]) };
    assert_eq!(
        command.clone().with_threads(Some(8)).args,
        strings(&["-y", "out.mp4", "-threads", "8"])
    );
    assert_eq!(command.clone().with_threads(None), command);
}
