//! Per-channel volume levels in PulseAudio units.
//!
//! PulseAudio expresses a channel's volume as an integer where 65536 is 100%
//! (its "normal" volume). Levels held here are kept within the supported
//! range of 0% to 400%, that is 0 to 262144.

use vstd::prelude::*;

verus! {

/// 100% volume in PulseAudio units.
pub const VOLUME_NORMAL: u32 = 65536;

/// 400% volume in PulseAudio units, the highest level kept.
pub const VOLUME_MAX: u32 = 262144;

/// A raw channel level limited to the supported range.
pub open spec fn clamp_level(v: u32) -> u32 {
    if v > VOLUME_MAX { VOLUME_MAX } else { v }
}

/// Multi-channel volume, one level per channel.
#[derive(Debug, Clone, PartialEq, Eq)]
pub struct VolumeLevels {
    levels: Vec<u32>,
}

impl View for VolumeLevels {
    type V = Seq<u32>;

    closed spec fn view(&self) -> Seq<u32> {
        self.levels@
    }
}

impl VolumeLevels {
    /// Every level lies in the supported range.
    pub closed spec fn wf(&self) -> bool {
        forall|i: int| 0 <= i < self.levels@.len() ==> self.levels@[i] <= VOLUME_MAX
    }

    /// Levels from raw PulseAudio channel volumes; levels above 400% are
    /// lowered to 400%.
    pub fn from_raw(raw: &[u32]) -> (r: Self)
        ensures
            r.wf(),
            r@.len() == raw@.len(),
            forall|i: int| 0 <= i < raw@.len() ==> r@[i] == clamp_level(raw@[i]),
    {
        let mut levels: Vec<u32> = Vec::new();
        let mut i: usize = 0;
        while i < raw.len()
            invariant
                i <= raw@.len(),
                levels@.len() == i,
                forall|j: int| 0 <= j < i ==> levels@[j] == clamp_level(raw@[j]),
            decreases raw@.len() - i,
        {
            let v = raw[i];
            let c = if v > VOLUME_MAX { VOLUME_MAX } else { v };
            levels.push(c);
            i = i + 1;
        }
        VolumeLevels { levels }
    }

    /// Number of channels.
    pub fn channels(&self) -> (r: usize)
        ensures
            r == self@.len(),
    {
        self.levels.len()
    }

    /// The level of one channel, if the channel exists.
    pub fn channel(&self, channel: usize) -> (r: Option<u32>)
        ensures
            r == (if channel < self@.len() { Some(self@[channel as int]) } else { None::<u32> }),
    {
        if channel < self.levels.len() {
            Some(self.levels[channel])
        } else {
            None
        }
    }

    /// All channel levels.
    pub fn as_slice(&self) -> (r: &[u32])
        ensures
            r@ == self@,
    {
        self.levels.as_slice()
    }

    /// Whether both volumes have the same channels at the same levels.
    pub fn same_levels(&self, other: &VolumeLevels) -> (r: bool)
        ensures
            r == (self@ == other@),
    {
        let n = self.levels.len();
        if n != other.levels.len() {
            return false;
        }
        let mut i: usize = 0;
        while i < n
            invariant
                n == self@.len(),
                n == other@.len(),
                i <= n,
                forall|j: int| 0 <= j < i ==> self@[j] == other@[j],
            decreases n - i,
        {
            if self.levels[i] != other.levels[i] {
                return false;
            }
            i = i + 1;
        }
        assert(self@ =~= other@);
        true
    }

    /// A copy with the same levels.
    pub fn duplicate(&self) -> (r: Self)
        ensures
            r@ == self@,
            self.wf() ==> r.wf(),
    {
        VolumeLevels { levels: self.levels.clone() }
    }
}

} // verus!
