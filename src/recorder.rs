//! The capture session: what the recorder holds and how it moves between
//! idle and recording. The audio device itself is driven from outside; it
//! hands each delivered block of samples to `push_block`.

use vstd::prelude::*;
use crate::audio::{long_enough, AudioData, DEFAULT_CHANNELS, DEFAULT_SAMPLE_RATE};
use crate::error::VoiceError;

verus! {

/// Full-scale magnitude of a 16-bit sample.
pub const FULL_SCALE: u64 = 32767;

/// Largest volume level.
pub const MAX_LEVEL: u32 = 100;

/// Sum of the magnitudes of the samples.
pub open spec fn sum_abs(block: Seq<i16>) -> nat
    decreases block.len(),
{
    if block.len() == 0 {
        0
    } else {
        sum_abs(block.drop_last()) + (if block.last() < 0 {
            -(block.last() as int)
        } else {
            block.last() as int
        }) as nat
    }
}

/// Volume of a block: the mean magnitude as a percentage of full scale,
/// rounded down and clamped to 100; 0 for an empty block.
pub open spec fn block_level(block: Seq<i16>) -> nat {
    if block.len() == 0 {
        0
    } else {
        let level = (sum_abs(block) * 100) as int / (block.len() * FULL_SCALE) as int;
        if level > 100 {
            100
        } else {
            level as nat
        }
    }
}

/// The capture session's shared state.
pub struct AudioRecorder {
    pub samples: Vec<i16>,
    /// Volume of the last delivered block, 0 to 100.
    pub volume_level: u32,
    pub recording: bool,
    pub sample_rate: u32,
}

/// The volume level of a block of samples.
pub fn volume_level_of(block: &[i16]) -> (r: u32)
    ensures
        r as nat == block_level(block@),
        r <= MAX_LEVEL,
{
    let n: usize = block.len();
    if n == 0 {
        return 0;
    }
    let mut sum: u128 = 0;
    let mut i: usize = 0;
    while i < n
        invariant
            n == block@.len(),
            i <= n,
            sum == sum_abs(block@.subrange(0, i as int)),
            sum <= 32768 * i,
        decreases n - i,
    {
        let s: i16 = block[i];
        let m: u128 = if s < 0 {
            (-(s as i32)) as u128
        } else {
            s as u128
        };
        proof {
            let pre = block@.subrange(0, i as int + 1);
            assert(pre.drop_last() =~= block@.subrange(0, i as int));
        }
        sum = sum + m;
        i = i + 1;
    }
    assert(block@.subrange(0, n as int) =~= block@);
    let denom: u128 = (n as u128) * (FULL_SCALE as u128);
    let level: u128 = sum * 100 / denom;
    if level > 100 {
        100
    } else {
        level as u32
    }
}

impl AudioRecorder {
    /// A recorder's volume never exceeds the largest level.
    pub open spec fn inv(&self) -> bool {
        self.volume_level <= MAX_LEVEL
    }

    /// An idle recorder with an empty buffer.
    pub fn new() -> (r: AudioRecorder)
        ensures
            r.inv(),
            !r.recording,
            r.samples@.len() == 0,
            r.volume_level == 0,
            r.sample_rate == DEFAULT_SAMPLE_RATE,
    {
        AudioRecorder {
            samples: Vec::new(),
            volume_level: 0,
            recording: false,
            sample_rate: DEFAULT_SAMPLE_RATE,
        }
    }

    /// Begins a session: a no-op returning `false` while recording; else
    /// clears the buffer, starts recording and returns `true`. The caller
    /// then opens the device, and calls `cancel` if that fails.
    pub fn start(&mut self) -> (started: bool)
        requires
            old(self).inv(),
        ensures
            final(self).inv(),
            started == !old(self).recording,
            !started ==> *final(self) == *old(self),
            started ==> final(self).recording && final(self).samples@.len() == 0
                && final(self).sample_rate == DEFAULT_SAMPLE_RATE && final(self).volume_level
                == old(self).volume_level,
    {
        if self.recording {
            return false;
        }
        self.samples.clear();
        self.sample_rate = DEFAULT_SAMPLE_RATE;
        self.recording = true;
        true
    }

    /// Takes one block delivered by the device: while recording, the volume
    /// becomes the block's level and the samples are appended; otherwise
    /// nothing changes.
    pub fn push_block(&mut self, block: &[i16])
        requires
            old(self).inv(),
        ensures
            final(self).inv(),
            !old(self).recording ==> *final(self) == *old(self),
            old(self).recording ==> final(self).recording && final(self).samples@ == old(
                self,
            ).samples@ + block@ && final(self).volume_level as nat == block_level(block@)
                && final(self).sample_rate == old(self).sample_rate,
    {
        if !self.recording {
            return;
        }
        self.volume_level = volume_level_of(block);
        let mut i: usize = 0;
        let ghost before = self.samples@;
        while i < block.len()
            invariant
                i <= block@.len(),
                self.samples@ == before + block@.subrange(0, i as int),
                self.recording,
                self.volume_level as nat == block_level(block@),
                self.sample_rate == old(self).sample_rate,
            decreases block@.len() - i,
        {
            self.samples.push(block[i]);
            assert(self.samples@ =~= before + block@.subrange(0, i as int + 1));
            i = i + 1;
        }
        assert(block@.subrange(0, block@.len() as int) =~= block@);
    }

    /// Ends the session: fails while idle; otherwise stops recording and
    /// returns the buffer, or fails when it lasts under half a second.
    pub fn stop(&mut self) -> (r: Result<AudioData, VoiceError>)
        requires
            old(self).inv(),
        ensures
            final(self).inv(),
            !old(self).recording ==> *final(self) == *old(self) && (r matches Err(
                e,
            ) && e is RecorderError),
            old(self).recording ==> !final(self).recording && final(self).samples@ == old(
                self,
            ).samples@ && final(self).volume_level == old(self).volume_level && final(self).sample_rate
                == old(self).sample_rate,
            old(self).recording && long_enough(
                old(self).samples@.len(),
                old(self).sample_rate as nat,
                DEFAULT_CHANNELS as nat,
            ) ==> (r matches Ok(a) && a.samples@ == old(self).samples@ && a.sample_rate == old(
                self,
            ).sample_rate && a.channels == DEFAULT_CHANNELS),
            old(self).recording && !long_enough(
                old(self).samples@.len(),
                old(self).sample_rate as nat,
                DEFAULT_CHANNELS as nat,
            ) ==> (r matches Err(e) && e is RecordingTooShort),
    {
        if !self.recording {
            return Err(VoiceError::RecorderError(String::from_str("not recording")));
        }
        self.recording = false;
        let mut copy: Vec<i16> = Vec::new();
        let mut i: usize = 0;
        while i < self.samples.len()
            invariant
                i <= self.samples@.len(),
                copy@ == self.samples@.subrange(0, i as int),
            decreases self.samples@.len() - i,
        {
            copy.push(self.samples[i]);
            assert(copy@ =~= self.samples@.subrange(0, i as int + 1));
            i = i + 1;
        }
        assert(self.samples@.subrange(0, self.samples@.len() as int) =~= self.samples@);
        let audio = AudioData::new(copy, self.sample_rate, DEFAULT_CHANNELS);
        if !audio.is_valid() {
            return Err(VoiceError::RecordingTooShort);
        }
        Ok(audio)
    }

    /// Abandons the session: stops recording and discards the buffer.
    pub fn cancel(&mut self)
        requires
            old(self).inv(),
        ensures
            final(self).inv(),
            !final(self).recording,
            final(self).samples@.len() == 0,
            final(self).volume_level == old(self).volume_level,
            final(self).sample_rate == old(self).sample_rate,
    {
        self.recording = false;
        self.samples.clear();
    }

    /// Volume of the last delivered block, 0 to 100.
    pub fn get_volume(&self) -> (r: u32)
        requires
            self.inv(),
        ensures
            r == self.volume_level,
            r <= MAX_LEVEL,
    {
        self.volume_level
    }

    pub fn is_recording(&self) -> (r: bool)
        ensures
            r == self.recording,
    {
        self.recording
    }
}

} // verus!
