use editor_core::decoder_cmd::decoder_args;
use editor_core::export_cmd::export_args;
use editor_core::numfmt::format_secs_2dp;
use editor_core::numfmt::format_secs_3dp;
use editor_core::player::SpawnRequest;
use editor_core::timeline::Clip;

#[test]
fn three_decimal_seconds() {
    assert_eq!(format_secs_3dp(0), "0.000");
    assert_eq!(format_secs_3dp(1), "0.001");
    assert_eq!(format_secs_3dp(999), "0.999");
    assert_eq!(format_secs_3dp(1000), "1.000");
    assert_eq!(format_secs_3dp(1500), "1.500");
    assert_eq!(format_secs_3dp(65432), "65.432");
    assert_eq!(format_secs_3dp(3600000), "3600.000");
}

#[test]
fn two_decimal_seconds_round_to_nearest() {
    assert_eq!(format_secs_2dp(0), "0.00");
    assert_eq!(format_secs_2dp(1994), "1.99");
    assert_eq!(format_secs_2dp(1995), "2.00");
    assert_eq!(format_secs_2dp(1999), "2.00");
    assert_eq!(format_secs_2dp(2000), "2.00");
    assert_eq!(format_secs_2dp(12340), "12.34");
}

#[test]
fn continuous_invocation_arguments() {
    let req = SpawnRequest::Continuous {
        path: "/media/clip.mp4".to_string(),
        start_ms: 1500,
        end_ms: 10000,
    };
    let args = decoder_args(&req);
    let expected = vec![
        "-ss", "1.500", "-to", "10.000", "-i", "/media/clip.mp4", "-vf", "scale=640:360",
        "-pix_fmt", "rgba", "-f", "rawvideo", "-",
    ];
    assert_eq!(args, expected);
}

#[test]
fn one_shot_invocation_arguments() {
    let req = SpawnRequest::OneShot { path: "b.mkv".to_string(), at_ms: 250 };
    let args = decoder_args(&req);
    let expected = vec![
        "-ss", "0.250", "-i", "b.mkv", "-frames:v", "1", "-vf", "scale=640:360", "-pix_fmt",
        "rgba", "-f", "rawvideo", "-",
    ];
    assert_eq!(args, expected);
}

fn clip(path: &str, duration: u32, timeline_start: u32, trim_start: u32, trim_end: u32) -> Clip {
    Clip {
        path: path.to_string(),
        name: path.to_string(),
        duration,
        timeline_start,
        trim_start,
        trim_end,
    }
}

#[test]
fn export_single_clip_arguments() {
    let clips = vec![clip("a.mp4", 5000, 0, 0, 2000)];
    let args = export_args(&clips, "out.mp4".to_string());
    let expected = vec![
        "-y",
        "-ss",
        "0.00",
        "-t",
        "2.00",
        "-i",
        "a.mp4",
        "-filter_complex",
        "[0:v]scale=w=1920:h=1080:force_original_aspect_ratio=decrease,pad=1920:1080:(ow-iw)/2:(oh-ih)/2,setsar=1,setdar=16/9[v0];[v0][0:a]concat=n=1:v=1:a=1[outv][outa]",
        "-map",
        "[outv]",
        "-map",
        "[outa]",
        "out.mp4",
    ];
    assert_eq!(args, expected);
}

#[test]
fn export_two_clip_arguments() {
    let clips = vec![
        clip("a.mp4", 5000, 0, 1000, 3000),
        clip("b.mp4", 8000, 2000, 0, 4500),
    ];
    let args = export_args(&clips, "movie.mp4".to_string());
    let expected = vec![
        "-y",
        "-ss",
        "1.00",
        "-t",
        "2.00",
        "-i",
        "a.mp4",
        "-ss",
        "0.00",
        "-t",
        "4.50",
        "-i",
        "b.mp4",
        "-filter_complex",
        "[0:v]scale=w=1920:h=1080:force_original_aspect_ratio=decrease,pad=1920:1080:(ow-iw)/2:(oh-ih)/2,setsar=1,setdar=16/9[v0];[1:v]scale=w=1920:h=1080:force_original_aspect_ratio=decrease,pad=1920:1080:(ow-iw)/2:(oh-ih)/2,setsar=1,setdar=16/9[v1];[v0][0:a][v1][1:a]concat=n=2:v=1:a=1[outv][outa]",
        "-map",
        "[outv]",
        "-map",
        "[outa]",
        "movie.mp4",
    ];
    assert_eq!(args, expected);
}
