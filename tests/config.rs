use frag::shader::ShaderStreamer;
use frag::{FragConf, Preset, Tune};

#[test]
fn window_size_defaults_canvas_size() {
    let c = FragConf::new().with_window_width(1600).with_window_height(900);
    assert_eq!((c.window_width(), c.window_height()), (1600, 900));
    assert_eq!((c.canvas_width(), c.canvas_height()), (1600, 900));
    assert!(!c.scales());
}

#[test]
fn canvas_size_defaults_window_size() {
    let c = FragConf::new().with_canvas_width(320).with_canvas_height(180);
    assert_eq!((c.window_width(), c.window_height()), (320, 180));
}

#[test]
fn explicit_sizes_win() {
    let c = FragConf::new()
        .with_window_width(1600)
        .with_window_height(900)
        .with_canvas_width(320)
        .with_canvas_height(180)
        .with_pixelate(true);
    assert_eq!((c.window_width(), c.window_height()), (1600, 900));
    assert_eq!((c.canvas_width(), c.canvas_height()), (320, 180));
    assert!(c.pixelate());
    assert!(c.scales());
}

#[test]
fn default_config_is_empty() {
    let c = FragConf::default();
    assert_eq!(c.window_width(), 0);
    assert!(!c.pixelate());
}

#[test]
fn missing_streamer_falls_back_to_test_body() {
    let mut s = FragConf::new().into_streamer();
    assert_eq!(s.stream_count(), 0);
    let a = s.build(true, 0, &Vec::new()).ok().unwrap();
    assert!(a.source.contains("smoothstep"));
}

#[test]
fn configured_streamer_is_kept() {
    let c = FragConf::new().with_streamer(ShaderStreamer::new().with_file("shader.glsl"));
    let s = c.into_streamer();
    assert_eq!(s.stream_paths(), vec!["shader.glsl".to_string()]);
}

#[test]
fn export_needs_a_streamer() {
    assert!(FragConf::new().into_ffmpeg_renderer().into_streamer().is_none());
    let c = FragConf::new().with_streamer(ShaderStreamer::new()).into_ffmpeg_renderer();
    assert!(c.into_streamer().is_some());
}

#[test]
fn export_defaults() {
    let c = FragConf::new().with_window_width(640).with_window_height(360).into_ffmpeg_renderer();
    assert_eq!(c.framerate(), 30);
    assert_eq!(c.length(), 60);
    let args = c.encoder_args();
    let expected: Vec<&str> = vec![
        "-r", "30", "-f", "rawvideo", "-pix_fmt", "rgba", "-s", "640x360", "-i", "-", "-threads",
        "0", "-preset", "medium", "-tune", "film", "-y", "-pix_fmt", "yuv420p", "-crf", "20",
        "-vf", "vflip", "output.mp4",
    ];
    assert_eq!(args, expected);
}

#[test]
fn export_settings_reach_the_arguments() {
    let c = FragConf::new()
        .with_window_width(1920)
        .with_window_height(1080)
        .into_ffmpeg_renderer()
        .with_framerate(60)
        .with_crf(70)
        .with_preset(Preset::VerySlow)
        .with_tune(Tune::Animation)
        .with_length(600)
        .with_output("render.mp4");
    assert_eq!(c.length(), 600);
    let args = c.encoder_args();
    assert_eq!(args[1], "60");
    assert_eq!(args[7], "1920x1080");
    assert_eq!(args[13], "veryslow");
    assert_eq!(args[15], "animation");
    assert_eq!(args[20], "51");
    assert_eq!(args[23], "render.mp4");
}

#[test]
fn crf_within_range_is_kept() {
    let c = FragConf::new().into_ffmpeg_renderer().with_crf(0);
    assert_eq!(c.encoder_args()[20], "0");
    let c = FragConf::new().into_ffmpeg_renderer().with_crf(51);
    assert_eq!(c.encoder_args()[20], "51");
}

#[test]
fn preset_and_tune_names() {
    let presets = [
        (Preset::UltraFast, "ultrafast"),
        (Preset::SuperFast, "superfast"),
        (Preset::VeryFast, "veryfast"),
        (Preset::Faster, "faster"),
        (Preset::Fast, "fast"),
        (Preset::Medium, "medium"),
        (Preset::Slow, "slow"),
        (Preset::Slower, "slower"),
        (Preset::VerySlow, "veryslow"),
    ];
    for (p, n) in presets.iter() {
        assert_eq!(p.name(), *n);
    }
    let tunes = [
        (Tune::Film, "film"),
        (Tune::Animation, "animation"),
        (Tune::Grain, "grain"),
        (Tune::StillImage, "stillimage"),
        (Tune::FastDecode, "fastdecode"),
        (Tune::ZeroLatency, "zerolatency"),
    ];
    for (t, n) in tunes.iter() {
        assert_eq!(t.name(), *n);
    }
}

#[test]
fn decimal_rendering() {
    assert_eq!(frag::text::decimal_string(0), "0");
    assert_eq!(frag::text::decimal_string(7), "7");
    assert_eq!(frag::text::decimal_string(1080), "1080");
    assert_eq!(frag::text::decimal_string(usize::MAX), usize::MAX.to_string());
    assert_eq!(frag::text::newline_count("a\nb\n\nc"), 3);
}
