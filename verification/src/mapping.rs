//! The discrete choices of the mapping from metrics to musical
//! parameters: which scale a price move plays, which degree of the scale,
//! which harmony a strength reading calls for, and how dense the kick drum
//! is. The caller reads the levels off its measurements; the tables here
//! say what each level means.

use crate::models::{HarmonyQuality, MarketMetrics, MusicalParams};
use crate::styles::CompositionStyle;
use vstd::prelude::*;
use vstd::string::StringExecFns;

verus! {

/// How far and in which direction the price has moved since the open.
#[derive(Debug, Clone, Copy, PartialEq, Eq, Structural)]
pub enum PriceMove {
    /// Up by more than the large-move threshold.
    Surge,
    /// Unchanged or up, within the threshold.
    Rise,
    /// Down, within the threshold.
    Dip,
    /// Down by more than the threshold.
    Plunge,
}

/// The melodic scales.
#[derive(Debug, Clone, Copy, PartialEq, Eq, Structural)]
pub enum Scale {
    /// Six notes a whole tone apart.
    WholeTone,
    /// The five-note major scale.
    MajorPentatonic,
    /// The five-note minor scale.
    MinorPentatonic,
}

/// Where the relative strength index stands.
#[derive(Debug, Clone, Copy, PartialEq, Eq, Structural)]
pub enum RsiZone {
    /// Below the lower bound.
    Oversold,
    /// Between the bounds, bounds included.
    Neutral,
    /// Above the upper bound.
    Overbought,
}

/// How the current volume compares with the usual.
#[derive(Debug, Clone, Copy, PartialEq, Eq, Structural)]
pub enum VolumeLevel {
    Thin,
    Normal,
    Heavy,
}

impl Scale {
    /// The number of notes of the scale.
    pub open spec fn degrees(self) -> nat {
        match self {
            Scale::WholeTone => 6,
            Scale::MajorPentatonic => 5,
            Scale::MinorPentatonic => 5,
        }
    }

    pub fn len(self) -> (len: usize)
        ensures
            len == self.degrees(),
    {
        match self {
            Scale::WholeTone => 6,
            Scale::MajorPentatonic => 5,
            Scale::MinorPentatonic => 5,
        }
    }

    /// The place in the scale of the note at `index` steps from the start
    /// of the melodic direction: counted from the first note when the
    /// melody ascends and from the last when it descends.
    pub open spec fn place(self, ascending: bool, index: nat) -> Option<nat> {
        if index >= self.degrees() {
            None
        } else if ascending {
            Some(index)
        } else {
            Some((self.degrees() - index - 1) as nat)
        }
    }

    /// The place in the scale of the note to play, or `None` where
    /// `index` is beyond the scale.
    pub fn melody_position(self, ascending: bool, index: usize) -> (position: Option<usize>)
        ensures
            position is Some <==> index < self.degrees(),
            position matches Some(at) ==> self.place(ascending, index as nat) == Some(at as nat)
                && at < self.degrees(),
    {
        let len: usize = self.len();
        if index >= len {
            None
        } else if ascending {
            Some(index)
        } else {
            Some(len - index - 1)
        }
    }
}

impl PriceMove {
    /// The scale of a price move and whether its melody ascends. Large
    /// moves play the whole-tone scale in their own direction; small ones
    /// play the major scale upwards or the minor scale downwards.
    pub open spec fn scale(self) -> (Scale, bool) {
        match self {
            PriceMove::Surge => (Scale::WholeTone, true),
            PriceMove::Plunge => (Scale::WholeTone, false),
            PriceMove::Rise => (Scale::MajorPentatonic, true),
            PriceMove::Dip => (Scale::MinorPentatonic, false),
        }
    }

    pub fn scale_for(self) -> (choice: (Scale, bool))
        ensures
            choice == self.scale(),
    {
        match self {
            PriceMove::Surge => (Scale::WholeTone, true),
            PriceMove::Plunge => (Scale::WholeTone, false),
            PriceMove::Rise => (Scale::MajorPentatonic, true),
            PriceMove::Dip => (Scale::MinorPentatonic, false),
        }
    }
}

/// Mirroring is its own inverse: the place of a descending melody's note,
/// read again as a descending index, is the index it came from.
pub proof fn descending_place_mirrors(scale: Scale, index: nat)
    requires
        index < scale.degrees(),
    ensures
        scale.place(false, index) is Some,
        scale.place(false, scale.place(false, index).unwrap()) == Some(index),
        scale.place(true, index) == Some(index),
{
}

impl RsiZone {
    /// The harmony that a strength reading calls for.
    pub open spec fn harmony(self) -> HarmonyQuality {
        match self {
            RsiZone::Oversold => HarmonyQuality::Minor,
            RsiZone::Neutral => HarmonyQuality::Major,
            RsiZone::Overbought => HarmonyQuality::Diminished,
        }
    }

    pub fn harmony_for(self) -> (harmony: HarmonyQuality)
        ensures
            harmony == self.harmony(),
    {
        match self {
            RsiZone::Oversold => HarmonyQuality::Minor,
            RsiZone::Neutral => HarmonyQuality::Major,
            RsiZone::Overbought => HarmonyQuality::Diminished,
        }
    }
}

impl VolumeLevel {
    /// The steps of a sixteen-step bar on which the kick drum sounds.
    pub open spec fn kicks(self) -> Seq<usize> {
        match self {
            VolumeLevel::Thin => seq![0usize, 8],
            VolumeLevel::Normal => seq![0usize, 4, 8, 12],
            VolumeLevel::Heavy => seq![0usize, 3, 4, 7, 8, 11, 12, 15],
        }
    }

    pub fn kick_pattern(self) -> (pattern: Vec<usize>)
        ensures
            pattern@ == self.kicks(),
    {
        let pattern = match self {
            VolumeLevel::Thin => vec![0usize, 8],
            VolumeLevel::Normal => vec![0usize, 4, 8, 12],
            VolumeLevel::Heavy => vec![0usize, 3, 4, 7, 8, 11, 12, 15],
        };
        assert(pattern@ =~= self.kicks());
        pattern
    }
}

/// The values of a mapping that are computed from the metrics: the tempo
/// and the notes and effect levels.
#[derive(Debug, Clone, Copy)]
pub struct MappedLevels<T, N> {
    pub tempo: T,
    pub melody_note: N,
    pub bass_note: N,
    pub reverb_mix: N,
    pub distortion: N,
}

/// Puts the parameters of one mapping together: the computed levels as
/// given, one melody note, the harmony of the strength zone, the volume
/// ratio of the metrics as the intensity, and the label of the style.
pub fn assemble<T: Copy, N: Copy>(
    metrics: &MarketMetrics<T>,
    style: CompositionStyle,
    zone: RsiZone,
    levels: MappedLevels<T, N>,
) -> (params: MusicalParams<T, N>)
    ensures
        params.tempo == levels.tempo,
        params.melody_notes@ == seq![levels.melody_note],
        params.bass_note == levels.bass_note,
        params.harmony == zone.harmony(),
        params.reverb_mix == levels.reverb_mix,
        params.distortion == levels.distortion,
        params.volume_intensity == metrics.volume_ratio,
        params.style@ == style.label(),
{
    let mut melody_notes: Vec<N> = Vec::new();
    melody_notes.push(levels.melody_note);
    assert(melody_notes@ =~= seq![levels.melody_note]);
    MusicalParams {
        tempo: levels.tempo,
        melody_notes,
        bass_note: levels.bass_note,
        harmony: zone.harmony_for(),
        reverb_mix: levels.reverb_mix,
        distortion: levels.distortion,
        volume_intensity: metrics.volume_ratio,
        style: String::from_str(style.as_str()),
    }
}

/// Every kick falls within the bar, and the steps rise strictly.
pub proof fn kicks_stay_in_the_bar(level: VolumeLevel)
    ensures
        forall|i: int| 0 <= i < level.kicks().len() ==> level.kicks()[i] < 16,
        forall|i: int, j: int| 0 <= i < j < level.kicks().len() ==> level.kicks()[i] < level.kicks()[j],
{
}

} // verus!
