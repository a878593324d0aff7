//! The playback controller: virtual time, play and pause, scrubbing, and the
//! decision, once per loop iteration, whether to render. Times are whole
//! microseconds; the wall clock is the time since the loop started.
use vstd::prelude::*;

verus! {

/// How far a jump moves the virtual clock: five seconds.
pub const JUMP_MICROS: i64 = 5_000_000;

/// One frame at the nominal rate of 30 per second.
pub const FRAME_MICROS: i64 = 33_333;

/// Two frames at the nominal rate: a step back while playing.
pub const DOUBLE_FRAME_MICROS: i64 = 66_667;

/// An input event of one loop iteration.
#[derive(Clone, Copy, PartialEq, Eq, Structural, Debug)]
pub enum Command {
    Quit,
    TogglePause,
    Capture,
    Restart,
    JumpForward,
    JumpBack,
}

/// A scrub key held down during an iteration.
#[derive(Clone, Copy, PartialEq, Eq, Structural, Debug)]
pub enum Scrub {
    Still,
    Back,
    Forward,
}

/// What the loop must do after a command.
#[derive(Clone, Copy, PartialEq, Eq, Structural, Debug)]
pub enum Effect {
    Continue,
    /// Save the pixels of the display surface as an image.
    Capture,
    /// End the loop.
    Quit,
}

/// What the contracts say of the controller.
pub struct PlaybackView {
    /// The virtual clock.
    pub play_t: i64,
    pub playing: bool,
    /// The frame counter.
    pub frame: u32,
    /// The wall time between the last two renders while playing.
    pub dt: i64,
    /// The wall time of the last render while playing.
    pub wall_t: u64,
    /// The wall time from which the next `dt` is measured.
    pub ref_t: u64,
    /// Whether this iteration must render even when paused.
    pub refresh: bool,
}

/// `x`, held within the range of `i64`.
pub open spec fn clamp(x: int) -> i64 {
    if x > i64::MAX {
        i64::MAX
    } else if x < i64::MIN {
        i64::MIN
    } else {
        x as i64
    }
}

/// The wall time from `since` to `now`, none if the clock went back.
pub open spec fn elapsed(now: u64, since: u64) -> i64 {
    if now <= since {
        0
    } else {
        clamp(now - since)
    }
}

pub open spec fn next_frame(frame: u32) -> u32 {
    if frame == u32::MAX {
        0
    } else {
        (frame + 1) as u32
    }
}

/// The state when the loop starts: playing from zero.
pub open spec fn initial() -> PlaybackView {
    PlaybackView {
        play_t: 0,
        playing: true,
        frame: 0,
        dt: 0,
        wall_t: 0,
        ref_t: 0,
        refresh: false,
    }
}

/// The start of an iteration: `dt` is measured from the last render, and no
/// render is forced yet.
pub open spec fn on_begin(s: PlaybackView) -> PlaybackView {
    PlaybackView { ref_t: s.wall_t, refresh: false, ..s }
}

/// The virtual clock moved by `delta`, a render forced, and `dt` measured from
/// `now`.
pub open spec fn shifted(s: PlaybackView, delta: int, now: u64) -> PlaybackView {
    PlaybackView { play_t: clamp(s.play_t + delta), ref_t: now, refresh: true, ..s }
}

pub open spec fn on_command(s: PlaybackView, cmd: Command, now: u64) -> PlaybackView {
    match cmd {
        Command::Quit => s,
        Command::Capture => s,
        Command::TogglePause => PlaybackView { playing: !s.playing, ref_t: now, ..s },
        Command::Restart => PlaybackView { play_t: 0, ref_t: now, refresh: true, ..s },
        Command::JumpForward => shifted(s, JUMP_MICROS as int, now),
        Command::JumpBack => shifted(s, -JUMP_MICROS, now),
    }
}

pub open spec fn effect_of(cmd: Command) -> Effect {
    match cmd {
        Command::Quit => Effect::Quit,
        Command::Capture => Effect::Capture,
        _ => Effect::Continue,
    }
}

pub open spec fn on_scrub(s: PlaybackView, scrub: Scrub, now: u64) -> PlaybackView {
    match scrub {
        Scrub::Still => s,
        Scrub::Back => shifted(
            s,
            -(if s.playing {
                DOUBLE_FRAME_MICROS
            } else {
                FRAME_MICROS
            }),
            now,
        ),
        Scrub::Forward => shifted(s, FRAME_MICROS as int, now),
    }
}

/// A successful rebuild forces a render.
pub open spec fn on_rebuild(s: PlaybackView, ok: bool) -> PlaybackView {
    PlaybackView { refresh: s.refresh || ok, ..s }
}

pub open spec fn renders(s: PlaybackView) -> bool {
    s.refresh || s.playing
}

/// After a render at wall time `now`: while playing, `dt` is the time since
/// `ref_t`, the clock advances by it and the frame counter by one.
pub open spec fn on_render(s: PlaybackView, now: u64) -> PlaybackView {
    if s.playing {
        PlaybackView {
            play_t: clamp(s.play_t + elapsed(now, s.ref_t)),
            frame: next_frame(s.frame),
            dt: elapsed(now, s.ref_t),
            wall_t: now,
            ..s
        }
    } else {
        s
    }
}

/// `a + b`, held within the range of `i64`.
fn add_clamped(a: i64, b: i64) -> (r: i64)
    ensures
        r == clamp(a + b),
{
    if b > 0 && a > i64::MAX - b {
        i64::MAX
    } else if b < 0 && a < i64::MIN - b {
        i64::MIN
    } else {
        a + b
    }
}

fn elapsed_since(now: u64, since: u64) -> (r: i64)
    ensures
        r == elapsed(now, since),
{
    if now <= since {
        0
    } else if now - since > i64::MAX as u64 {
        i64::MAX
    } else {
        (now - since) as i64
    }
}

/// The controller of the render loop.
pub struct Playback {
    play_t: i64,
    playing: bool,
    frame: u32,
    dt: i64,
    wall_t: u64,
    ref_t: u64,
    refresh: bool,
}

impl View for Playback {
    type V = PlaybackView;

    closed spec fn view(&self) -> PlaybackView {
        PlaybackView {
            play_t: self.play_t,
            playing: self.playing,
            frame: self.frame,
            dt: self.dt,
            wall_t: self.wall_t,
            ref_t: self.ref_t,
            refresh: self.refresh,
        }
    }
}

impl Playback {
    pub fn new() -> (r: Self)
        ensures
            r@ == initial(),
    {
        Playback {
            play_t: 0,
            playing: true,
            frame: 0,
            dt: 0,
            wall_t: 0,
            ref_t: 0,
            refresh: false,
        }
    }

    /// Starts a loop iteration.
    pub fn begin_iteration(&mut self)
        ensures
            final(self)@ == on_begin(old(self)@),
    {
        self.ref_t = self.wall_t;
        self.refresh = false;
    }

    /// Applies an input event that came at wall time `now`, and says what the
    /// loop must do about it.
    pub fn apply(&mut self, cmd: Command, now: u64) -> (r: Effect)
        ensures
            final(self)@ == on_command(old(self)@, cmd, now),
            r == effect_of(cmd),
    {
        match cmd {
            Command::Quit => Effect::Quit,
            Command::Capture => Effect::Capture,
            Command::TogglePause => {
                self.playing = !self.playing;
                self.ref_t = now;
                Effect::Continue
            },
            Command::Restart => {
                self.play_t = 0;
                self.ref_t = now;
                self.refresh = true;
                Effect::Continue
            },
            Command::JumpForward => {
                self.shift(JUMP_MICROS, now);
                Effect::Continue
            },
            Command::JumpBack => {
                self.shift(-JUMP_MICROS, now);
                Effect::Continue
            },
        }
    }

    fn shift(&mut self, delta: i64, now: u64)
        ensures
            final(self)@ == shifted(old(self)@, delta as int, now),
    {
        self.play_t = add_clamped(self.play_t, delta);
        self.ref_t = now;
        self.refresh = true;
    }

    /// Applies the scrub key held at wall time `now`.
    pub fn apply_scrub(&mut self, scrub: Scrub, now: u64)
        ensures
            final(self)@ == on_scrub(old(self)@, scrub, now),
    {
        match scrub {
            Scrub::Still => {},
            Scrub::Back => {
                let step = if self.playing {
                    DOUBLE_FRAME_MICROS
                } else {
                    FRAME_MICROS
                };
                self.shift(-step, now);
            },
            Scrub::Forward => {
                self.shift(FRAME_MICROS, now);
            },
        }
    }

    /// Records the outcome of a rebuild of the shader.
    pub fn note_rebuild(&mut self, ok: bool)
        ensures
            final(self)@ == on_rebuild(old(self)@, ok),
    {
        self.refresh = self.refresh || ok;
    }

    /// Whether this iteration renders: when playing, or when an event forced it.
    pub fn should_render(&self) -> (r: bool)
        ensures
            r == renders(self@),
    {
        self.refresh || self.playing
    }

    /// Records a render that finished at wall time `now`.
    pub fn rendered(&mut self, now: u64)
        ensures
            final(self)@ == on_render(old(self)@, now),
    {
        if self.playing {
            let dt = elapsed_since(now, self.ref_t);
            self.dt = dt;
            self.play_t = add_clamped(self.play_t, dt);
            self.frame = if self.frame == u32::MAX {
                0
            } else {
                self.frame + 1
            };
            self.wall_t = now;
        }
    }

    /// The virtual clock, for the time uniform.
    pub fn time_micros(&self) -> (r: i64)
        ensures
            r == self@.play_t,
    {
        self.play_t
    }

    /// The last measured `dt`, for the delta-time uniform.
    pub fn delta_micros(&self) -> (r: i64)
        ensures
            r == self@.dt,
    {
        self.dt
    }

    /// The frame counter, for the frame uniform.
    pub fn frame(&self) -> (r: u32)
        ensures
            r == self@.frame,
    {
        self.frame
    }

    pub fn is_playing(&self) -> (r: bool)
        ensures
            r == self@.playing,
    {
        self.playing
    }
}

/// The virtual time of frame `frame` of a render to a file, in microseconds.
pub open spec fn export_time(frame: nat, framerate: nat) -> nat {
    if framerate == 0 {
        0
    } else {
        frame * 1_000_000 / framerate
    }
}

/// The clock of a render to a file: frame `i` shows the virtual time
/// `i / framerate` seconds, and the render ends after `length` frames.
pub struct ExportClock {
    written: u64,
    length: u64,
    framerate: u32,
}

/// What the contracts say of an export clock: frames written, frames to
/// write, frame rate.
pub struct ExportView {
    pub written: nat,
    pub length: nat,
    pub framerate: nat,
}

impl View for ExportClock {
    type V = ExportView;

    closed spec fn view(&self) -> ExportView {
        ExportView {
            written: self.written as nat,
            length: self.length as nat,
            framerate: self.framerate as nat,
        }
    }
}

impl ExportClock {
    pub fn new(length: u64, framerate: u32) -> (r: Self)
        ensures
            r@ == (ExportView { written: 0, length: length as nat, framerate: framerate as nat }),
    {
        ExportClock { written: 0, length, framerate }
    }

    /// Whether all frames are written.
    pub fn done(&self) -> (r: bool)
        ensures
            r == (self@.written >= self@.length),
    {
        self.written >= self.length
    }

    /// The number of frames written so far, which is the index of the next.
    pub fn frame(&self) -> (r: u64)
        ensures
            r == self@.written,
    {
        self.written
    }

    /// The virtual time of the next frame.
    pub fn time_micros(&self) -> (r: u128)
        ensures
            r == export_time(self@.written, self@.framerate),
    {
        frame_time(self.written, self.framerate)
    }

    /// The virtual time between the previous frame and the next; none before
    /// the first.
    pub fn delta_micros(&self) -> (r: u128)
        ensures
            self@.written == 0 ==> r == 0,
            self@.written > 0 ==> r == export_time(self@.written, self@.framerate) - export_time(
                (self@.written - 1) as nat,
                self@.framerate,
            ),
    {
        if self.written == 0 {
            0
        } else {
            let now = frame_time(self.written, self.framerate);
            let before = frame_time(self.written - 1, self.framerate);
            proof {
                if self.framerate > 0 {
                    vstd::arithmetic::div_mod::lemma_div_is_ordered(
                        (self.written - 1) as int * 1_000_000,
                        self.written as int * 1_000_000,
                        self.framerate as int,
                    );
                }
            }
            now - before
        }
    }

    /// Records a written frame.
    pub fn advance(&mut self)
        requires
            old(self)@.written < old(self)@.length,
        ensures
            final(self)@ == (ExportView { written: old(self)@.written + 1, ..old(self)@ }),
    {
        self.written = self.written + 1;
    }
}

fn frame_time(frame: u64, framerate: u32) -> (r: u128)
    ensures
        r == export_time(frame as nat, framerate as nat),
{
    if framerate == 0 {
        0
    } else {
        assert(frame as int * 1_000_000 <= u64::MAX as int * 1_000_000) by (nonlinear_arith);
        (frame as u128 * 1_000_000) / (framerate as u128)
    }
}

/// Pausing and resuming within one instant does not move the clock: the
/// render that follows the resume measures a `dt` of zero.
pub proof fn lemma_resume_measures_from_resume(s: PlaybackView, now: u64)
    requires
        !s.playing,
    ensures
        on_command(s, Command::TogglePause, now).playing,
        on_render(on_command(s, Command::TogglePause, now), now).dt == 0,
        on_render(on_command(s, Command::TogglePause, now), now).play_t == s.play_t,
{
}

/// A jump forward while paused moves the clock by exactly five seconds,
/// keeps the playback paused, and forces one render: after that render the
/// clock stays, and the next iteration renders nothing unless forced again.
pub proof fn lemma_jump_while_paused(s: PlaybackView, now: u64, later: u64)
    requires
        !s.playing,
        s.play_t + JUMP_MICROS <= i64::MAX,
    ensures
        on_command(s, Command::JumpForward, now).play_t == s.play_t + JUMP_MICROS,
        on_command(s, Command::JumpForward, now).playing == s.playing,
        renders(on_command(s, Command::JumpForward, now)),
        on_render(on_command(s, Command::JumpForward, now), later).play_t == s.play_t
            + JUMP_MICROS,
        !renders(on_begin(on_render(on_command(s, Command::JumpForward, now), later))),
{
}

} // verus!
