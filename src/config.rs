//! Configuration of a run: window and canvas sizes, the upscaling filter and
//! the shader segments; for a render to a video file, the encoder's settings.
use vstd::prelude::*;

use crate::shader::{ShaderStreamer, StreamerView, RENDER_FRAG_HEADER, RENDER_FRAG_STD_BODY};
use crate::text::{decimal, decimal_string};

verus! {

/// The largest constant rate factor the encoder accepts.
pub const MAX_CRF: u32 = 51;

/// The encoder's speed preset.
#[derive(Clone, Copy, PartialEq, Eq, Structural, Debug)]
pub enum Preset {
    UltraFast,
    SuperFast,
    VeryFast,
    Faster,
    Fast,
    Medium,
    Slow,
    Slower,
    VerySlow,
}

/// The encoder's tuning for the kind of picture.
#[derive(Clone, Copy, PartialEq, Eq, Structural, Debug)]
pub enum Tune {
    Film,
    Animation,
    Grain,
    StillImage,
    FastDecode,
    ZeroLatency,
}

pub open spec fn preset_name(p: Preset) -> Seq<char> {
    match p {
        Preset::UltraFast => "ultrafast"@,
        Preset::SuperFast => "superfast"@,
        Preset::VeryFast => "veryfast"@,
        Preset::Faster => "faster"@,
        Preset::Fast => "fast"@,
        Preset::Medium => "medium"@,
        Preset::Slow => "slow"@,
        Preset::Slower => "slower"@,
        Preset::VerySlow => "veryslow"@,
    }
}

pub open spec fn tune_name(t: Tune) -> Seq<char> {
    match t {
        Tune::Film => "film"@,
        Tune::Animation => "animation"@,
        Tune::Grain => "grain"@,
        Tune::StillImage => "stillimage"@,
        Tune::FastDecode => "fastdecode"@,
        Tune::ZeroLatency => "zerolatency"@,
    }
}

impl Preset {
    /// The name the encoder knows the preset by.
    pub fn name(&self) -> (r: &'static str)
        ensures
            r@ == preset_name(*self),
    {
        match self {
            Preset::UltraFast => "ultrafast",
            Preset::SuperFast => "superfast",
            Preset::VeryFast => "veryfast",
            Preset::Faster => "faster",
            Preset::Fast => "fast",
            Preset::Medium => "medium",
            Preset::Slow => "slow",
            Preset::Slower => "slower",
            Preset::VerySlow => "veryslow",
        }
    }
}

impl Tune {
    /// The name the encoder knows the tuning by.
    pub fn name(&self) -> (r: &'static str)
        ensures
            r@ == tune_name(*self),
    {
        match self {
            Tune::Film => "film",
            Tune::Animation => "animation",
            Tune::Grain => "grain",
            Tune::StillImage => "stillimage",
            Tune::FastDecode => "fastdecode",
            Tune::ZeroLatency => "zerolatency",
        }
    }
}

/// What the contracts say of a configuration.
pub struct FragConfView {
    pub cw: u32,
    pub ch: u32,
    pub ww: u32,
    pub wh: u32,
    pub pixelate: bool,
    pub streamer: Option<StreamerView>,
}

/// The configuration of a run. A window size left unset takes the canvas
/// size, and the other way round.
pub struct FragConf {
    cw: u32,
    ch: u32,
    ww: u32,
    wh: u32,
    pixelate: bool,
    streamer: Option<ShaderStreamer>,
}

impl View for FragConf {
    type V = FragConfView;

    closed spec fn view(&self) -> FragConfView {
        FragConfView {
            cw: self.cw,
            ch: self.ch,
            ww: self.ww,
            wh: self.wh,
            pixelate: self.pixelate,
            streamer: match self.streamer {
                Some(s) => Some(s@),
                None => None,
            },
        }
    }
}

impl FragConf {
    /// A streamer, if there is one, is well formed.
    pub closed spec fn wf(&self) -> bool {
        self.streamer matches Some(s) ==> s.wf()
    }

    /// No size set, linear upscaling, no streamer.
    pub fn new() -> (r: Self)
        ensures
            r.wf(),
            r@ == (FragConfView { cw: 0, ch: 0, ww: 0, wh: 0, pixelate: false, streamer: None }),
    {
        FragConf { cw: 0, ch: 0, ww: 0, wh: 0, pixelate: false, streamer: None }
    }

    /// Sets the window width, and the canvas width too while that is unset.
    pub fn with_window_width(self, ww: u32) -> (r: Self)
        requires
            self.wf(),
        ensures
            r.wf(),
            r@ == (FragConfView {
                ww,
                cw: if self@.cw == 0 {
                    ww
                } else {
                    self@.cw
                },
                ..self@
            }),
    {
        let mut r = self;
        if r.cw == 0 {
            r.cw = ww;
        }
        r.ww = ww;
        r
    }

    /// Sets the window height, and the canvas height too while that is unset.
    pub fn with_window_height(self, wh: u32) -> (r: Self)
        requires
            self.wf(),
        ensures
            r.wf(),
            r@ == (FragConfView {
                wh,
                ch: if self@.ch == 0 {
                    wh
                } else {
                    self@.ch
                },
                ..self@
            }),
    {
        let mut r = self;
        if r.ch == 0 {
            r.ch = wh;
        }
        r.wh = wh;
        r
    }

    /// Sets the canvas width, and the window width too while that is unset.
    pub fn with_canvas_width(self, cw: u32) -> (r: Self)
        requires
            self.wf(),
        ensures
            r.wf(),
            r@ == (FragConfView {
                cw,
                ww: if self@.ww == 0 {
                    cw
                } else {
                    self@.ww
                },
                ..self@
            }),
    {
        let mut r = self;
        if r.ww == 0 {
            r.ww = cw;
        }
        r.cw = cw;
        r
    }

    /// Sets the canvas height, and the window height too while that is unset.
    pub fn with_canvas_height(self, ch: u32) -> (r: Self)
        requires
            self.wf(),
        ensures
            r.wf(),
            r@ == (FragConfView {
                ch,
                wh: if self@.wh == 0 {
                    ch
                } else {
                    self@.wh
                },
                ..self@
            }),
    {
        let mut r = self;
        if r.wh == 0 {
            r.wh = ch;
        }
        r.ch = ch;
        r
    }

    /// Chooses nearest-neighbour upscaling (`true`) or linear (`false`).
    pub fn with_pixelate(self, pixelate: bool) -> (r: Self)
        requires
            self.wf(),
        ensures
            r.wf(),
            r@ == (FragConfView { pixelate, ..self@ }),
    {
        let mut r = self;
        r.pixelate = pixelate;
        r
    }

    /// Sets the shader segments.
    pub fn with_streamer(self, streamer: ShaderStreamer) -> (r: Self)
        requires
            self.wf(),
            streamer.wf(),
        ensures
            r.wf(),
            r@ == (FragConfView { streamer: Some(streamer@), ..self@ }),
    {
        let mut r = self;
        r.streamer = Some(streamer);
        r
    }

    /// A configuration for a render to a video file, with 30 frames per
    /// second, quality 20, the medium preset, film tuning, 60 frames and
    /// `output.mp4`.
    pub fn into_ffmpeg_renderer(self) -> (r: FFmpegConf)
        requires
            self.wf(),
        ensures
            r.wf(),
            r@ == (FFmpegConfView {
                base: self@,
                framerate: 30,
                crf: 20,
                preset: "medium"@,
                tune: "film"@,
                length: 60,
                output: "output.mp4"@,
            }),
    {
        FFmpegConf {
            base: self,
            framerate: 30,
            crf: 20,
            preset: String::from_str("medium"),
            tune: String::from_str("film"),
            length: 60,
            output: String::from_str("output.mp4"),
        }
    }

    pub fn canvas_width(&self) -> (r: u32)
        ensures
            r == self@.cw,
    {
        self.cw
    }

    pub fn canvas_height(&self) -> (r: u32)
        ensures
            r == self@.ch,
    {
        self.ch
    }

    pub fn window_width(&self) -> (r: u32)
        ensures
            r == self@.ww,
    {
        self.ww
    }

    pub fn window_height(&self) -> (r: u32)
        ensures
            r == self@.wh,
    {
        self.wh
    }

    pub fn pixelate(&self) -> (r: bool)
        ensures
            r == self@.pixelate,
    {
        self.pixelate
    }

    /// Whether the canvas must be scaled to the window: their sizes differ.
    pub fn scales(&self) -> (r: bool)
        ensures
            r == (self@.ww != self@.cw || self@.wh != self@.ch),
    {
        self.ww != self.cw || self.wh != self.ch
    }

    /// The segments to run live: the configured ones, or without any the
    /// header with a fixed test body.
    pub fn into_streamer(self) -> (r: ShaderStreamer)
        requires
            self.wf(),
        ensures
            r.wf(),
            self@.streamer matches Some(s) ==> r@ == s,
            self@.streamer is None ==> {
                &&& r@.segments.len() == 2
                &&& r@.segments[0] matches crate::shader::StreamElement::Static(t) && t@
                    == RENDER_FRAG_HEADER@
                &&& r@.segments[1] matches crate::shader::StreamElement::Static(t) && t@
                    == RENDER_FRAG_STD_BODY@
                &&& r@.cache.len() == 0
                &&& r@.dirty == 0
            },
    {
        match self.streamer {
            Some(s) => s,
            None => ShaderStreamer::test(),
        }
    }
}

impl Default for FragConf {
    fn default() -> (r: Self)
        ensures
            r.wf(),
            r@ == (FragConfView { cw: 0, ch: 0, ww: 0, wh: 0, pixelate: false, streamer: None }),
    {
        Self::new()
    }
}

/// What the contracts say of an export configuration.
pub struct FFmpegConfView {
    pub base: FragConfView,
    pub framerate: u32,
    pub preset: Seq<char>,
    pub tune: Seq<char>,
    pub crf: u32,
    pub length: usize,
    pub output: Seq<char>,
}

/// The configuration of a render to a video file.
pub struct FFmpegConf {
    base: FragConf,
    framerate: u32,
    preset: String,
    tune: String,
    crf: u32,
    length: usize,
    output: String,
}

impl View for FFmpegConf {
    type V = FFmpegConfView;

    closed spec fn view(&self) -> FFmpegConfView {
        FFmpegConfView {
            base: self.base@,
            framerate: self.framerate,
            preset: self.preset@,
            tune: self.tune@,
            crf: self.crf,
            length: self.length,
            output: self.output@,
        }
    }
}

/// The arguments of the encoder: raw RGBA frames of the window's size on
/// its input, flipped vertically, encoded with the configured settings into
/// the output file.
pub open spec fn encoder_args(c: FFmpegConfView) -> Seq<Seq<char>> {
    seq![
        "-r"@, decimal(c.framerate as nat),
        "-f"@, "rawvideo"@,
        "-pix_fmt"@, "rgba"@,
        "-s"@, decimal(c.base.ww as nat) + "x"@ + decimal(c.base.wh as nat),
        "-i"@, "-"@,
        "-threads"@, "0"@,
        "-preset"@, c.preset,
        "-tune"@, c.tune,
        "-y"@,
        "-pix_fmt"@, "yuv420p"@,
        "-crf"@, decimal(c.crf as nat),
        "-vf"@, "vflip"@,
        c.output,
    ]
}

impl FFmpegConf {
    pub closed spec fn wf(&self) -> bool {
        self.base.wf()
    }

    pub fn with_framerate(self, fr: u32) -> (r: Self)
        requires
            self.wf(),
        ensures
            r.wf(),
            r@ == (FFmpegConfView { framerate: fr, ..self@ }),
    {
        let mut r = self;
        r.framerate = fr;
        r
    }

    /// Sets the constant rate factor, held to at most 51.
    pub fn with_crf(self, crf: u32) -> (r: Self)
        requires
            self.wf(),
        ensures
            r.wf(),
            r@ == (FFmpegConfView {
                crf: if crf > MAX_CRF {
                    MAX_CRF
                } else {
                    crf
                },
                ..self@
            }),
    {
        let mut r = self;
        r.crf = if crf > MAX_CRF {
            MAX_CRF
        } else {
            crf
        };
        r
    }

    pub fn with_preset(self, preset: Preset) -> (r: Self)
        requires
            self.wf(),
        ensures
            r.wf(),
            r@ == (FFmpegConfView { preset: preset_name(preset), ..self@ }),
    {
        let mut r = self;
        r.preset = String::from_str(preset.name());
        r
    }

    pub fn with_tune(self, tune: Tune) -> (r: Self)
        requires
            self.wf(),
        ensures
            r.wf(),
            r@ == (FFmpegConfView { tune: tune_name(tune), ..self@ }),
    {
        let mut r = self;
        r.tune = String::from_str(tune.name());
        r
    }

    /// Sets the number of frames to write.
    pub fn with_length(self, frames: usize) -> (r: Self)
        requires
            self.wf(),
        ensures
            r.wf(),
            r@ == (FFmpegConfView { length: frames, ..self@ }),
    {
        let mut r = self;
        r.length = frames;
        r
    }

    pub fn with_output(self, filename: &str) -> (r: Self)
        requires
            self.wf(),
        ensures
            r.wf(),
            r@ == (FFmpegConfView { output: filename@, ..self@ }),
    {
        let mut r = self;
        r.output = String::from_str(filename);
        r
    }

    pub fn base(&self) -> (r: &FragConf)
        requires
            self.wf(),
        ensures
            r.wf(),
            r@ == self@.base,
    {
        &self.base
    }

    pub fn framerate(&self) -> (r: u32)
        ensures
            r == self@.framerate,
    {
        self.framerate
    }

    pub fn length(&self) -> (r: usize)
        ensures
            r == self@.length,
    {
        self.length
    }

    /// The configured segments; a render to a file needs them.
    pub fn into_streamer(self) -> (r: Option<ShaderStreamer>)
        requires
            self.wf(),
        ensures
            r matches Some(s) ==> s.wf(),
            self@.base.streamer matches Some(s) ==> r matches Some(t) && t@ == s,
            self@.base.streamer is None ==> r is None,
    {
        self.base.streamer
    }

    /// The command-line arguments of the encoder.
    pub fn encoder_args(&self) -> (r: Vec<String>)
        ensures
            r@.map_values(|a: String| a@) == encoder_args(self@),
    {
        let mut size = decimal_string(self.base.ww as usize);
        size.append("x");
        let wh = decimal_string(self.base.wh as usize);
        size.append(wh.as_str());
        let mut r: Vec<String> = Vec::new();
        r.push(String::from_str("-r"));
        r.push(decimal_string(self.framerate as usize));
        r.push(String::from_str("-f"));
        r.push(String::from_str("rawvideo"));
        r.push(String::from_str("-pix_fmt"));
        r.push(String::from_str("rgba"));
        r.push(String::from_str("-s"));
        r.push(size);
        r.push(String::from_str("-i"));
        r.push(String::from_str("-"));
        r.push(String::from_str("-threads"));
        r.push(String::from_str("0"));
        r.push(String::from_str("-preset"));
        r.push(self.preset.clone());
        r.push(String::from_str("-tune"));
        r.push(self.tune.clone());
        r.push(String::from_str("-y"));
        r.push(String::from_str("-pix_fmt"));
        r.push(String::from_str("yuv420p"));
        r.push(String::from_str("-crf"));
        r.push(decimal_string(self.crf as usize));
        r.push(String::from_str("-vf"));
        r.push(String::from_str("vflip"));
        r.push(self.output.clone());
        assert(r@.map_values(|a: String| a@) =~= encoder_args(self@));
        r
    }
}

} // verus!
