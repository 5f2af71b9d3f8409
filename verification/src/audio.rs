//! The playback transport: a position cursor that is extrapolated from the
//! clock while running, and the sample cursor handed to the output sink.
//!
//! Speeds are in thousandths (`1000` plays at the recorded speed) and clock
//! readings are microseconds on any monotonic clock of the caller's choice.

use vstd::prelude::*;
use vstd::arithmetic::div_mod::{lemma_div_is_ordered, lemma_hoist_over_denominator};

verus! {

/// The slowest speed that can be set, in thousandths.
pub const MIN_SPEED_PERMILLE: u32 = 100;

/// The recorded speed, in thousandths.
pub const UNIT_SPEED_PERMILLE: u32 = 1000;

/// The bits of a channel mask that name a channel.
pub const KNOWN_CHANNELS: u32 = 0x03ff_ffff;

/// The number of ones in the binary form of `mask`.
pub open spec fn ones(mask: nat) -> nat
    decreases mask,
{
    if mask == 0 {
        0
    } else {
        mask % 2 + ones(mask / 2)
    }
}

/// `symphonia::core::audio::Channels::count`, asked of the layout that
/// `Channels::from_bits_truncate` makes of a mask: the bits that name no
/// channel are dropped, and the count is the number of bits that are left.
#[verifier::external_body]
fn layout_channel_count(mask: u32) -> (count: usize)
    ensures
        count == ones((mask & KNOWN_CHANNELS) as nat),
{
    symphonia::core::audio::Channels::from_bits_truncate(mask).count()
}

/// Why a recording or an output binding was turned down.
#[derive(Clone, Copy, Debug, PartialEq, Eq, Structural)]
pub enum AudioError {
    /// The stream declares no channel at all.
    ZeroChannels,
    /// The stream has more channels than mono or stereo; holds the count.
    UnsupportedChannels(usize),
    /// The interleaved sample count is not a whole number of frames.
    PartialFrame,
    /// No output sink could be bound.
    OutputUnavailable,
}

/// What the transport knows of a decoded recording: its shape, not its samples.
#[derive(Clone, Copy, Debug, PartialEq, Eq, Structural)]
pub struct DecodedAudio {
    pub sample_rate: u32,
    pub channels: u16,
    pub total_samples: usize,
}

impl DecodedAudio {
    /// Mono or stereo, and a whole number of frames.
    pub open spec fn wf(&self) -> bool {
        &&& (self.channels == 1 || self.channels == 2)
        &&& self.total_samples as int % self.channels as int == 0
    }

    /// What `new` answers for a given shape.
    pub open spec fn checked(sample_rate: u32, channel_count: usize, total_samples: usize) -> Result<
        DecodedAudio,
        AudioError,
    > {
        if channel_count == 0 {
            Err(AudioError::ZeroChannels)
        } else if channel_count > 2 {
            Err(AudioError::UnsupportedChannels(channel_count))
        } else if total_samples as int % channel_count as int != 0 {
            Err(AudioError::PartialFrame)
        } else {
            Ok(
                (DecodedAudio {
                    sample_rate,
                    channels: channel_count as u16,
                    total_samples,
                }),
            )
        }
    }

    /// Accepts the shape of a decoded stream, or says why it is rejected.
    pub fn new(sample_rate: u32, channel_count: usize, total_samples: usize) -> (res: Result<
        DecodedAudio,
        AudioError,
    >)
        ensures
            res == Self::checked(sample_rate, channel_count, total_samples),
            res matches Ok(a) ==> a.wf(),
    {
        if channel_count == 0 {
            Err(AudioError::ZeroChannels)
        } else if channel_count > 2 {
            Err(AudioError::UnsupportedChannels(channel_count))
        } else if total_samples % channel_count != 0 {
            Err(AudioError::PartialFrame)
        } else {
            Ok(DecodedAudio { sample_rate, channels: channel_count as u16, total_samples })
        }
    }

    /// Accepts the shape of a decoded stream whose channels are given as a
    /// layout mask, one bit for each channel.
    pub fn from_layout(sample_rate: u32, channel_mask: u32, total_samples: usize) -> (res: Result<
        DecodedAudio,
        AudioError,
    >)
        ensures
            res == Self::checked(
                sample_rate,
                ones((channel_mask & KNOWN_CHANNELS) as nat) as usize,
                total_samples,
            ),
            res matches Ok(a) ==> a.wf(),
    {
        let count = layout_channel_count(channel_mask);
        Self::new(sample_rate, count, total_samples)
    }

    /// Frames in the recording.
    pub open spec fn frames(&self) -> nat {
        (self.total_samples as nat) / (self.channels as nat)
    }
}

/// Microseconds from `start` to `now`; a clock that ran backwards counts as no time.
pub open spec fn elapsed_micros(start: u64, now: u64) -> nat {
    if now >= start {
        (now - start) as nat
    } else {
        0
    }
}

/// Interleaved samples consumed in `elapsed_us` microseconds of playback:
/// seconds times sample rate times channels times speed, rounded down.
pub open spec fn samples_played(
    elapsed_us: nat,
    sample_rate: nat,
    channels: nat,
    speed_permille: nat,
) -> nat {
    (elapsed_us * sample_rate * channels * speed_permille) / 1_000_000_000
}

/// Where a seek by whole seconds lands: the base moved by the seconds' worth
/// of interleaved samples, held inside `[0, total]`.
pub open spec fn seek_target(
    base: int,
    delta_seconds: int,
    sample_rate: int,
    channels: int,
    total: int,
) -> int {
    let moved = base + delta_seconds * sample_rate * channels;
    if moved < 0 {
        0
    } else if moved > total {
        total
    } else {
        moved
    }
}

/// Whole seconds in a number of frames. A rate of zero measures nothing:
/// no frames are no time, any frames are more time than can be counted.
pub open spec fn frames_to_secs(frames: nat, sample_rate: nat) -> nat {
    if sample_rate != 0 {
        frames / sample_rate
    } else if frames == 0 {
        0
    } else {
        u64::MAX as nat
    }
}

/// The speed that is put into effect for a requested one.
pub open spec fn floored_speed(requested: int) -> int {
    if requested < MIN_SPEED_PERMILLE as int {
        MIN_SPEED_PERMILLE as int
    } else {
        requested
    }
}

/// The sample rate reported to the sink so that one source sample per output
/// sample sounds at the given speed: base rate times speed, to the nearest
/// integer, at least 1.
pub open spec fn adjusted_rate(base_sample_rate: nat, speed_permille: nat) -> nat {
    let rounded = (base_sample_rate * speed_permille + 500) / 1000;
    if rounded < 1 {
        1
    } else if rounded > u32::MAX as nat {
        u32::MAX as nat
    } else {
        rounded
    }
}

proof fn lemma_mul_bound(a: nat, b: nat, x: nat, y: nat)
    by (nonlinear_arith)
    requires
        a <= x,
        b <= y,
    ensures
        a * b <= x * y,
{
}

proof fn lemma_split_scaled(base: nat, speed: nat)
    ensures
        (base * speed) / 1_000_000_000 == (base / 1_000_000_000) * speed + ((base % 1_000_000_000)
            * speed) / 1_000_000_000,
{
    let d: nat = 1_000_000_000;
    let q = base / d;
    let r = base % d;
    assert(base == q * d + r) by (nonlinear_arith)
        requires
            q == base / d,
            r == base % d,
            d == 1_000_000_000,
    ;
    assert(base * speed == r * speed + (q * speed) * d) by (nonlinear_arith)
        requires
            base == q * d + r,
    ;
    lemma_hoist_over_denominator((r * speed) as int, (q * speed) as int, d);
}

fn played_samples(elapsed_us: u64, sample_rate: u32, channels: u16, speed_permille: u32) -> (n:
    u128)
    ensures
        n == samples_played(
            elapsed_us as nat,
            sample_rate as nat,
            channels as nat,
            speed_permille as nat,
        ),
{
    proof {
        lemma_mul_bound(elapsed_us as nat, sample_rate as nat, u64::MAX as nat, u32::MAX as nat);
        lemma_mul_bound(
            elapsed_us as nat * sample_rate as nat,
            channels as nat,
            u64::MAX as nat * u32::MAX as nat,
            u16::MAX as nat,
        );
    }
    let base: u128 = (elapsed_us as u128) * (sample_rate as u128) * (channels as u128);
    let whole: u128 = base / 1_000_000_000;
    let part: u128 = base % 1_000_000_000;
    proof {
        assert(base <= 0xffff_ffff_ffff_ffff_ffff_ffff_ffff);
        assert(whole <= 0x7_ffff_ffff_ffff_ffff_ffff);
        lemma_mul_bound(
            whole as nat,
            speed_permille as nat,
            0x7_ffff_ffff_ffff_ffff_ffff,
            u32::MAX as nat,
        );
        lemma_mul_bound(part as nat, speed_permille as nat, 1_000_000_000, u32::MAX as nat);
        lemma_split_scaled(base as nat, speed_permille as nat);
    }
    whole * (speed_permille as u128) + (part * (speed_permille as u128)) / 1_000_000_000
}

/// The read cursor of one sink binding: where in the interleaved buffer the
/// next sample comes from, and the shape reported to the sink. A binding never
/// outlives a seek or a change of speed; each of them starts a fresh cursor.
#[derive(Clone, Copy, Debug, PartialEq, Eq, Structural)]
pub struct SliceSource {
    pub pos: usize,
    pub end: usize,
    pub channels: u16,
    pub sample_rate: u32,
}

impl SliceSource {
    /// The cursor that `new` builds.
    pub open spec fn spec_new(
        len: usize,
        start: usize,
        channels: u16,
        base_sample_rate: u32,
        speed_permille: u32,
    ) -> SliceSource {
        SliceSource {
            pos: if start <= len {
                start
            } else {
                len
            },
            end: len,
            channels,
            sample_rate: adjusted_rate(base_sample_rate as nat, speed_permille as nat) as u32,
        }
    }

    /// Samples that are still to come.
    pub open spec fn remaining(&self) -> nat {
        if self.end >= self.pos {
            (self.end - self.pos) as nat
        } else {
            0
        }
    }

    /// A cursor over a buffer of `len` interleaved samples that starts at
    /// `start`, or at the end if `start` lies beyond it.
    pub fn new(
        len: usize,
        start: usize,
        channels: u16,
        base_sample_rate: u32,
        speed_permille: u32,
    ) -> (source: SliceSource)
        ensures
            source == Self::spec_new(len, start, channels, base_sample_rate, speed_permille),
            source.pos <= source.end,
            source.sample_rate >= 1,
    {
        proof {
            lemma_mul_bound(
                base_sample_rate as nat,
                speed_permille as nat,
                u32::MAX as nat,
                u32::MAX as nat,
            );
        }
        let scaled: u64 = (base_sample_rate as u64) * (speed_permille as u64);
        let rounded: u64 = (scaled + 500) / 1000;
        let rate: u32 = if rounded < 1 {
            1
        } else if rounded > u32::MAX as u64 {
            u32::MAX
        } else {
            rounded as u32
        };
        SliceSource {
            pos: if start <= len {
                start
            } else {
                len
            },
            end: len,
            channels,
            sample_rate: rate,
        }
    }

    /// Steps the cursor: the index of the sample to emit, or `None` once the
    /// end is reached, after which the cursor stays where it is.
    pub fn next_index(&mut self) -> (index: Option<usize>)
        ensures
            old(self).pos < old(self).end ==> index == Some(old(self).pos) && *final(self) == (
            SliceSource { pos: (old(self).pos + 1) as usize, ..*old(self) }),
            old(self).pos >= old(self).end ==> index.is_none() && *final(self) == *old(self),
    {
        if self.pos >= self.end {
            return None;
        }
        let at = self.pos;
        self.pos = self.pos + 1;
        Some(at)
    }

    /// Lower and upper bound of the samples still to come; they coincide.
    pub fn size_hint(&self) -> (hint: (usize, Option<usize>))
        ensures
            hint.0 == self.remaining(),
            hint.1 == Some(hint.0),
    {
        let rem: usize = if self.end >= self.pos {
            self.end - self.pos
        } else {
            0
        };
        (rem, Some(rem))
    }

    /// The cursor does not cut the stream into frames of a fixed length.
    pub fn current_frame_len(&self) -> (len: Option<usize>)
        ensures
            len.is_none(),
    {
        None
    }

    pub fn channels(&self) -> (channels: u16)
        ensures
            channels == self.channels,
    {
        self.channels
    }

    pub fn sample_rate(&self) -> (rate: u32)
        ensures
            rate == self.sample_rate,
    {
        self.sample_rate
    }

    /// Whole frames still to come, from which the sink derives the remaining
    /// duration; `None` for a cursor without channels.
    pub fn remaining_frames(&self) -> (frames: Option<u64>)
        ensures
            self.channels == 0 ==> frames.is_none(),
            self.channels != 0 ==> frames == Some(
                (self.remaining() / (self.channels as nat)) as u64,
            ),
    {
        if self.channels == 0 {
            return None;
        }
        let rem: usize = if self.end >= self.pos {
            self.end - self.pos
        } else {
            0
        };
        Some((rem as u64) / (self.channels as u64))
    }
}

/// What the caller has to do to the output sink after a transport operation.
/// At most one binding is ever live: `Rebind` tears the old one down before
/// the new cursor is attached.
#[derive(Clone, Copy, Debug, PartialEq, Eq, Structural)]
pub enum SinkCommand {
    /// Leave the binding, or its absence, as it is.
    Keep,
    /// Stop and drop the binding, if there is one.
    Stop,
    /// Stop and drop the binding, then play this cursor on a fresh sink.
    Rebind(SliceSource),
}

/// The transport: the authoritative position, the speed and the running flag.
#[derive(Debug)]
pub struct Player {
    pub audio: Option<DecodedAudio>,
    pub file_path: Option<String>,
    pub playing: bool,
    /// Speed in thousandths of the recorded speed.
    pub speed_permille: u32,
    /// The resting position: interleaved index while paused, or last sought.
    pub content_index: usize,
    /// Where the current binding started, as an interleaved index.
    pub play_start_index: usize,
    /// The clock reading at which the current binding started.
    pub play_start_us: Option<u64>,
}

impl Player {
    /// The states that the operations below produce.
    pub open spec fn wf(&self) -> bool {
        &&& self.speed_permille >= MIN_SPEED_PERMILLE
        &&& self.playing == self.play_start_us.is_some()
        &&& match self.audio {
            Some(a) => a.wf() && self.content_index <= a.total_samples && self.play_start_index
                <= a.total_samples,
            None => !self.playing,
        }
    }

    /// The interleaved index that playback has reached at clock reading `now`:
    /// the resting position while paused; while running, the start index plus
    /// the samples played since, never beyond the end.
    pub open spec fn index_at(&self, now: u64) -> nat {
        if !self.playing {
            self.content_index as nat
        } else {
            match (self.audio, self.play_start_us) {
                (None, _) => 0,
                (Some(_), None) => self.content_index as nat,
                (Some(a), Some(start)) => {
                    let reached = self.play_start_index as nat + samples_played(
                        elapsed_micros(start, now),
                        a.sample_rate as nat,
                        a.channels as nat,
                        self.speed_permille as nat,
                    );
                    if reached > a.total_samples as nat {
                        a.total_samples as nat
                    } else {
                        reached
                    }
                },
            }
        }
    }

    /// The cursor of the binding that starts at `play_start_index`.
    pub open spec fn source(&self) -> SliceSource {
        match self.audio {
            Some(a) => SliceSource::spec_new(
                a.total_samples,
                self.play_start_index,
                a.channels,
                a.sample_rate,
                self.speed_permille,
            ),
            None => SliceSource::spec_new(0, 0, 0, 0, self.speed_permille),
        }
    }

    /// The transport before any file is loaded.
    pub open spec fn initial() -> Player {
        Player {
            audio: None,
            file_path: None,
            playing: false,
            speed_permille: UNIT_SPEED_PERMILLE,
            content_index: 0,
            play_start_index: 0,
            play_start_us: None,
        }
    }

    /// After loading: at the start, at the recorded speed, not running.
    pub open spec fn loaded(self, path: String, decoded: DecodedAudio) -> Player {
        Player {
            audio: Some(decoded),
            file_path: Some(path),
            playing: false,
            speed_permille: UNIT_SPEED_PERMILLE,
            content_index: 0,
            play_start_index: 0,
            play_start_us: None,
        }
    }

    /// After unloading: no file, position zero, not running; the speed stays.
    pub open spec fn unloaded(self) -> Player {
        Player {
            audio: None,
            file_path: None,
            playing: false,
            content_index: 0,
            play_start_index: 0,
            play_start_us: None,
            ..self
        }
    }

    /// After stopping: not running, the resting position as it was.
    pub open spec fn stopped(self) -> Player {
        Player { playing: false, play_start_us: None, ..self }
    }

    /// After pausing at `now`: a running transport commits the index it has
    /// reached as its resting position; a paused one is unchanged.
    pub open spec fn paused(self, now: u64) -> Player {
        if self.playing {
            Player {
                content_index: self.index_at(now) as usize,
                playing: false,
                play_start_us: None,
                ..self
            }
        } else {
            self
        }
    }

    /// After starting playback at `index` (held inside the buffer) at `now`;
    /// without a file nothing changes.
    pub open spec fn started_from(self, index: usize, now: u64) -> Player {
        match self.audio {
            Some(a) => Player {
                play_start_index: if index <= a.total_samples {
                    index
                } else {
                    a.total_samples
                },
                play_start_us: Some(now),
                playing: true,
                ..self
            },
            None => self,
        }
    }

    /// After seeking by whole seconds at `now`: the resting position moves to
    /// the seek target of the index reached; a running transport goes on
    /// running from there, a paused one stays paused.
    pub open spec fn sought(self, delta_seconds: i64, now: u64) -> Player {
        match self.audio {
            Some(a) => {
                let target = seek_target(
                    self.index_at(now) as int,
                    delta_seconds as int,
                    a.sample_rate as int,
                    a.channels as int,
                    a.total_samples as int,
                ) as usize;
                let moved = Player { content_index: target, ..self };
                if self.playing {
                    moved.started_from(target, now)
                } else {
                    moved
                }
            },
            None => self,
        }
    }

    /// After a change of speed at `now`: the floored speed is in effect; a
    /// running transport goes on from the index it had reached under the old
    /// speed.
    pub open spec fn with_speed(self, requested_permille: i32, now: u64) -> Player {
        let speed = floored_speed(requested_permille as int) as u32;
        if self.playing {
            let reached = self.index_at(now) as usize;
            (Player { speed_permille: speed, content_index: reached, ..self }).started_from(
                reached,
                now,
            )
        } else {
            Player { speed_permille: speed, ..self }
        }
    }

    /// Whether playback has reached the end of the recording at `now`.
    pub open spec fn at_end(&self, now: u64) -> bool {
        match self.audio {
            Some(a) => self.index_at(now) >= a.total_samples as nat,
            None => false,
        }
    }

    /// After the end-of-stream check at `now`: once the end is reached the
    /// transport is paused with its resting position on the last index.
    pub open spec fn clamped(self, now: u64) -> Player {
        match self.audio {
            Some(a) => if self.at_end(now) {
                Player { content_index: a.total_samples, ..self.paused(now) }
            } else {
                self
            },
            None => self,
        }
    }

    /// A transport with no file loaded.
    pub fn new() -> (player: Player)
        ensures
            player == Self::initial(),
            player.wf(),
    {
        Player {
            audio: None,
            file_path: None,
            playing: false,
            speed_permille: UNIT_SPEED_PERMILLE,
            content_index: 0,
            play_start_index: 0,
            play_start_us: None,
        }
    }

    /// Takes a freshly decoded recording: position zero, recorded speed, any
    /// binding discarded.
    pub fn load_file(&mut self, path: String, decoded: DecodedAudio) -> (cmd: SinkCommand)
        ensures
            *final(self) == old(self).loaded(path, decoded),
            cmd == SinkCommand::Stop,
            decoded.wf() ==> final(self).wf(),
    {
        self.audio = Some(decoded);
        self.file_path = Some(path);
        self.playing = false;
        self.speed_permille = UNIT_SPEED_PERMILLE;
        self.content_index = 0;
        self.play_start_index = 0;
        self.play_start_us = None;
        SinkCommand::Stop
    }

    /// Forgets the recording and discards any binding.
    pub fn unload(&mut self) -> (cmd: SinkCommand)
        ensures
            *final(self) == old(self).unloaded(),
            cmd == SinkCommand::Stop,
            old(self).wf() ==> final(self).wf(),
    {
        self.audio = None;
        self.file_path = None;
        self.playing = false;
        self.content_index = 0;
        self.play_start_index = 0;
        self.play_start_us = None;
        SinkCommand::Stop
    }

    pub fn is_playing(&self) -> (running: bool)
        ensures
            running == self.playing,
    {
        self.playing
    }

    /// Frames in the loaded recording, zero without one.
    pub fn total_frames(&self) -> (frames: usize)
        requires
            self.audio matches Some(a) ==> a.channels != 0,
        ensures
            frames == match self.audio {
                Some(a) => a.frames(),
                None => 0,
            },
    {
        match self.audio {
            Some(a) => a.total_samples / (a.channels as usize),
            None => 0,
        }
    }

    /// The interleaved index reached at `now`; the state is not touched.
    pub fn current_index_interleaved(&self, now: u64) -> (index: usize)
        ensures
            index == self.index_at(now),
            self.wf() && self.audio.is_some() ==> index <= self.audio.unwrap().total_samples,
    {
        if !self.playing {
            return self.content_index;
        }
        let a = match self.audio {
            Some(a) => a,
            None => {
                return 0;
            },
        };
        let start = match self.play_start_us {
            Some(start) => start,
            None => {
                return self.content_index;
            },
        };
        let elapsed: u64 = if now >= start {
            now - start
        } else {
            0
        };
        let played = played_samples(elapsed, a.sample_rate, a.channels, self.speed_permille);
        if self.play_start_index >= a.total_samples {
            return a.total_samples;
        }
        let room: usize = a.total_samples - self.play_start_index;
        if played >= room as u128 {
            a.total_samples
        } else {
            self.play_start_index + played as usize
        }
    }

    /// Position and length in frames at `now`, for display; the state is not
    /// touched.
    pub fn position_snapshot(&self, now: u64) -> (frames: (usize, usize))
        requires
            self.audio matches Some(a) ==> a.channels != 0,
        ensures
            frames.0 == match self.audio {
                Some(a) => self.index_at(now) / (a.channels as nat),
                None => 0,
            },
            frames.1 == match self.audio {
                Some(a) => a.frames(),
                None => 0,
            },
    {
        match self.audio {
            Some(a) => {
                let index = self.current_index_interleaved(now);
                (index / (a.channels as usize), a.total_samples / (a.channels as usize))
            },
            None => (0, 0),
        }
    }

    /// Position and length in whole seconds at `now`, for the clock readout.
    pub fn current_time_secs(&self, now: u64) -> (secs: (u64, u64))
        requires
            self.audio matches Some(a) ==> a.channels != 0,
        ensures
            secs.0 == match self.audio {
                Some(a) => frames_to_secs(
                    self.index_at(now) / (a.channels as nat),
                    a.sample_rate as nat,
                ),
                None => 0,
            },
            secs.1 == match self.audio {
                Some(a) => frames_to_secs(a.frames(), a.sample_rate as nat),
                None => 0,
            },
    {
        match self.audio {
            Some(a) => {
                let (cur, total) = self.position_snapshot(now);
                (secs_of_frames(cur, a.sample_rate), secs_of_frames(total, a.sample_rate))
            },
            None => (0, 0),
        }
    }

    /// Starts playback at `index`, held inside the buffer, on a fresh binding.
    /// Without a file nothing happens.
    pub fn play_from(&mut self, index: usize, now: u64) -> (cmd: SinkCommand)
        ensures
            *final(self) == old(self).started_from(index, now),
            cmd == if old(self).audio.is_some() {
                SinkCommand::Rebind(final(self).source())
            } else {
                SinkCommand::Keep
            },
            old(self).wf() ==> final(self).wf(),
            old(self).audio.is_some() ==> final(self).playing && final(self).index_at(now) == (
            if index <= old(self).audio.unwrap().total_samples {
                index
            } else {
                old(self).audio.unwrap().total_samples
            }),
    {
        match self.audio {
            Some(a) => {
                let start: usize = if index <= a.total_samples {
                    index
                } else {
                    a.total_samples
                };
                self.play_start_index = start;
                self.play_start_us = Some(now);
                self.playing = true;
                proof {
                    lemma_nothing_played(
                        a.sample_rate as nat,
                        a.channels as nat,
                        self.speed_permille as nat,
                    );
                }
                SinkCommand::Rebind(
                    SliceSource::new(
                        a.total_samples,
                        start,
                        a.channels,
                        a.sample_rate,
                        self.speed_permille,
                    ),
                )
            },
            None => SinkCommand::Keep,
        }
    }

    /// Resumes from the resting position.
    pub fn play_from_current(&mut self, now: u64) -> (cmd: SinkCommand)
        ensures
            *final(self) == old(self).started_from(old(self).content_index, now),
            cmd == if old(self).audio.is_some() {
                SinkCommand::Rebind(final(self).source())
            } else {
                SinkCommand::Keep
            },
            old(self).wf() ==> final(self).wf(),
    {
        let index = self.content_index;
        self.play_from(index, now)
    }

    /// The play/pause button: a running transport is paused, a resting one
    /// resumes from its resting position.
    pub fn toggle(&mut self, now: u64) -> (cmd: SinkCommand)
        ensures
            *final(self) == if old(self).playing {
                old(self).paused(now)
            } else {
                old(self).started_from(old(self).content_index, now)
            },
            cmd == if old(self).playing {
                SinkCommand::Stop
            } else if old(self).audio.is_some() {
                SinkCommand::Rebind(final(self).source())
            } else {
                SinkCommand::Keep
            },
            old(self).wf() ==> final(self).wf(),
    {
        if self.playing {
            self.pause(now)
        } else {
            self.play_from_current(now)
        }
    }

    /// Called when the sink for a `Rebind` could not be created: the transport
    /// is left paused at its resting position, with no binding.
    pub fn bind_failed(&mut self) -> (err: AudioError)
        ensures
            *final(self) == old(self).stopped(),
            err == AudioError::OutputUnavailable,
            old(self).wf() ==> final(self).wf(),
    {
        self.playing = false;
        self.play_start_us = None;
        AudioError::OutputUnavailable
    }

    /// Pauses at `now`, committing the index reached as the resting position.
    pub fn pause(&mut self, now: u64) -> (cmd: SinkCommand)
        ensures
            *final(self) == old(self).paused(now),
            cmd == if old(self).playing {
                SinkCommand::Stop
            } else {
                SinkCommand::Keep
            },
            !final(self).playing,
            old(self).wf() ==> final(self).wf(),
            final(self).index_at(now) == old(self).index_at(now),
    {
        if self.playing {
            let index = self.current_index_interleaved(now);
            self.content_index = index;
            self.playing = false;
            self.play_start_us = None;
            SinkCommand::Stop
        } else {
            SinkCommand::Keep
        }
    }

    /// Stops without committing a position.
    pub fn stop(&mut self) -> (cmd: SinkCommand)
        ensures
            *final(self) == old(self).stopped(),
            cmd == SinkCommand::Stop,
            old(self).wf() ==> final(self).wf(),
    {
        self.playing = false;
        self.play_start_us = None;
        SinkCommand::Stop
    }

    /// Moves the position by whole seconds, forwards or backwards, inside the
    /// buffer. A running transport is rebound at the new index.
    pub fn seek_seconds(&mut self, delta_seconds: i64, now: u64) -> (cmd: SinkCommand)
        ensures
            *final(self) == old(self).sought(delta_seconds, now),
            cmd == if old(self).audio.is_some() && old(self).playing {
                SinkCommand::Rebind(final(self).source())
            } else {
                SinkCommand::Keep
            },
            final(self).playing == old(self).playing,
            old(self).wf() ==> final(self).wf(),
            old(self).audio matches Some(a) ==> final(self).index_at(now) == seek_target(
                old(self).index_at(now) as int,
                delta_seconds as int,
                a.sample_rate as int,
                a.channels as int,
                a.total_samples as int,
            ),
    {
        match self.audio {
            Some(a) => {
                let base = self.current_index_interleaved(now);
                proof {
                    lemma_shift_bound(delta_seconds as int, a.sample_rate as int, a.channels as int);
                }
                let shift: i128 = (delta_seconds as i128) * (a.sample_rate as i128) * (
                a.channels as i128);
                let moved: i128 = (base as i128) + shift;
                let target: usize = if moved < 0 {
                    0
                } else if moved > a.total_samples as i128 {
                    a.total_samples
                } else {
                    moved as usize
                };
                self.content_index = target;
                if self.playing {
                    self.play_from(target, now)
                } else {
                    SinkCommand::Keep
                }
            },
            None => SinkCommand::Keep,
        }
    }

    /// Puts a speed into effect, never below the floor. A running transport
    /// is rebound at the index it had reached, so that playback goes on from
    /// there under the new speed.
    pub fn set_speed(&mut self, requested_permille: i32, now: u64) -> (cmd: SinkCommand)
        ensures
            *final(self) == old(self).with_speed(requested_permille, now),
            cmd == if old(self).playing && old(self).audio.is_some() {
                SinkCommand::Rebind(final(self).source())
            } else {
                SinkCommand::Keep
            },
            final(self).speed_permille == floored_speed(requested_permille as int),
            final(self).speed_permille >= MIN_SPEED_PERMILLE,
            old(self).wf() ==> final(self).wf() && final(self).index_at(now) == old(self).index_at(
                now,
            ),
    {
        let speed: u32 = if requested_permille < MIN_SPEED_PERMILLE as i32 {
            MIN_SPEED_PERMILLE
        } else {
            requested_permille as u32
        };
        if self.playing {
            let reached = self.current_index_interleaved(now);
            self.speed_permille = speed;
            self.content_index = reached;
            self.play_from(reached, now)
        } else {
            self.speed_permille = speed;
            SinkCommand::Keep
        }
    }

    /// The end-of-stream check, made on every tick: once playback has reached
    /// the end, the transport is paused there.
    pub fn clamp_at_end_if_needed(&mut self, now: u64) -> (cmd: SinkCommand)
        ensures
            *final(self) == old(self).clamped(now),
            cmd == if old(self).at_end(now) && old(self).playing {
                SinkCommand::Stop
            } else {
                SinkCommand::Keep
            },
            old(self).wf() ==> final(self).wf(),
    {
        match self.audio {
            Some(a) => {
                let index = self.current_index_interleaved(now);
                if index >= a.total_samples {
                    let cmd = self.pause(now);
                    self.content_index = a.total_samples;
                    cmd
                } else {
                    SinkCommand::Keep
                }
            },
            None => SinkCommand::Keep,
        }
    }
}

fn secs_of_frames(frames: usize, sample_rate: u32) -> (secs: u64)
    ensures
        secs == frames_to_secs(frames as nat, sample_rate as nat),
{
    if sample_rate != 0 {
        (frames as u64) / (sample_rate as u64)
    } else if frames == 0 {
        0
    } else {
        u64::MAX
    }
}

proof fn lemma_nothing_played(sample_rate: nat, channels: nat, speed_permille: nat)
    ensures
        samples_played(0, sample_rate, channels, speed_permille) == 0,
{
    assert(0 * sample_rate * channels * speed_permille == 0) by (nonlinear_arith);
}

proof fn lemma_shift_bound(delta: int, sample_rate: int, channels: int)
    by (nonlinear_arith)
    requires
        -0x8000_0000_0000_0000 <= delta < 0x8000_0000_0000_0000,
        0 <= sample_rate < 0x1_0000_0000,
        0 <= channels < 0x1_0000,
    ensures
        -0x8000_0000_0000_0000_0000_0000_0000 <= delta * sample_rate
            <= 0x8000_0000_0000_0000_0000_0000_0000,
        -0x8000_0000_0000_0000_0000_0000_0000 <= delta * sample_rate * channels
            <= 0x8000_0000_0000_0000_0000_0000_0000,
{
}

/// Seeking forwards and then backwards by the same number of seconds, at one
/// clock reading, brings the position back to where it was, whether the
/// transport runs or rests, as long as the first seek is not cut short by the
/// bounds of the buffer.
pub proof fn law_seek_round_trip(p: Player, delta_seconds: i64, now: u64)
    requires
        p.wf(),
        p.audio.is_some(),
        delta_seconds > i64::MIN,
        0 <= p.index_at(now) + delta_seconds * p.audio.unwrap().sample_rate
            * p.audio.unwrap().channels <= p.audio.unwrap().total_samples,
    ensures
        p.sought(delta_seconds, now).sought((-delta_seconds) as i64, now).index_at(now)
            == p.index_at(now),
        p.sought(delta_seconds, now).sought((-delta_seconds) as i64, now).playing == p.playing,
{
    let a = p.audio.unwrap();
    let there = p.sought(delta_seconds, now);
    let back = there.sought((-delta_seconds) as i64, now);
    let shift = delta_seconds * a.sample_rate * a.channels;
    lemma_nothing_played(a.sample_rate as nat, a.channels as nat, p.speed_permille as nat);
    assert(there.index_at(now) == p.index_at(now) + shift);
    assert((-delta_seconds) * a.sample_rate * a.channels == -shift) by (nonlinear_arith)
        requires
            shift == delta_seconds * a.sample_rate * a.channels,
    ;
    assert(back.index_at(now) == p.index_at(now));
}

/// The position never moves backwards as the clock advances, and does not
/// move at all while the transport rests.
pub proof fn law_position_monotone(p: Player, earlier: u64, later: u64)
    requires
        earlier <= later,
    ensures
        p.index_at(earlier) <= p.index_at(later),
        !p.playing ==> p.index_at(earlier) == p.index_at(later),
{
    if p.playing {
        match (p.audio, p.play_start_us) {
            (Some(a), Some(start)) => {
                let e1 = elapsed_micros(start, earlier);
                let e2 = elapsed_micros(start, later);
                assert(e1 * a.sample_rate as nat * a.channels as nat * p.speed_permille as nat
                    <= e2 * a.sample_rate as nat * a.channels as nat * p.speed_permille as nat)
                    by (nonlinear_arith)
                    requires
                        e1 <= e2,
                ;
                lemma_div_is_ordered(
                    (e1 * a.sample_rate as nat * a.channels as nat * p.speed_permille as nat) as int,
                    (e2 * a.sample_rate as nat * a.channels as nat * p.speed_permille as nat) as int,
                    1_000_000_000,
                );
            },
            _ => {},
        }
    }
}

/// Once a running transport has reached the end, the end-of-stream check
/// pauses it exactly once: it then rests on the last index, reads that index
/// at every later clock reading, and further checks change nothing.
pub proof fn law_end_reached_once(p: Player, now: u64, later: u64)
    requires
        p.wf(),
        p.playing,
        p.at_end(now),
    ensures
        !p.clamped(now).playing,
        p.clamped(now).content_index == p.audio.unwrap().total_samples,
        p.clamped(now).index_at(later) == p.audio.unwrap().total_samples,
        p.clamped(now).clamped(later) == p.clamped(now),
        p.clamped(now).wf(),
{
}

/// The position of a valid transport lies inside the buffer at every clock
/// reading.
pub proof fn law_position_in_bounds(p: Player, now: u64)
    requires
        p.wf(),
        p.audio.is_some(),
    ensures
        p.index_at(now) <= p.audio.unwrap().total_samples,
{
}

/// At the recorded speed the sink is told the recording's own sample rate,
/// so the pitch is the recorded one.
pub proof fn law_unit_speed_keeps_rate(base_sample_rate: u32)
    requires
        base_sample_rate >= 1,
    ensures
        adjusted_rate(base_sample_rate as nat, UNIT_SPEED_PERMILLE as nat) == base_sample_rate,
{
}

/// Whatever speed is asked for, the speed in effect is at least the floor,
/// and so above zero.
pub proof fn law_speed_stays_positive(p: Player, requested_permille: i32, now: u64)
    ensures
        p.with_speed(requested_permille, now).speed_permille >= MIN_SPEED_PERMILLE,
        p.with_speed(requested_permille, now).speed_permille > 0,
{
}

} // verus!
