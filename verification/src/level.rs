//! The compression presets offered to the user, with their order and the
//! integer level each one maps to for the codec.

use vstd::prelude::*;

verus! {

/// The three compression presets exposed to the user, ordered
/// `Fast < Normal < Best`.
#[derive(Debug, Clone, Copy, PartialEq, Eq, Structural)]
pub enum CompressionLevel {
    Fast,
    Normal,
    Best,
}

/// Position of a preset in the order `Fast < Normal < Best`.
pub open spec fn level_rank(l: CompressionLevel) -> int {
    match l {
        CompressionLevel::Fast => 0,
        CompressionLevel::Normal => 1,
        CompressionLevel::Best => 2,
    }
}

/// The next preset toward `Best`, saturating at `Best`.
pub open spec fn spec_increase(l: CompressionLevel) -> CompressionLevel {
    match l {
        CompressionLevel::Fast => CompressionLevel::Normal,
        CompressionLevel::Normal => CompressionLevel::Best,
        CompressionLevel::Best => CompressionLevel::Best,
    }
}

/// The next preset toward `Fast`, saturating at `Fast`.
pub open spec fn spec_decrease(l: CompressionLevel) -> CompressionLevel {
    match l {
        CompressionLevel::Fast => CompressionLevel::Fast,
        CompressionLevel::Normal => CompressionLevel::Fast,
        CompressionLevel::Best => CompressionLevel::Normal,
    }
}

/// The codec's integer level for a preset.
pub open spec fn spec_zstd_level(l: CompressionLevel) -> i32 {
    match l {
        CompressionLevel::Fast => 1,
        CompressionLevel::Normal => 3,
        CompressionLevel::Best => 19,
    }
}

impl CompressionLevel {
    /// The codec integer level to pass to the encoder.
    pub fn zstd_level(self) -> (r: i32)
        ensures
            r == spec_zstd_level(self),
            1 <= r <= 19,
    {
        match self {
            CompressionLevel::Fast => 1,
            CompressionLevel::Normal => 3,
            CompressionLevel::Best => 19,
        }
    }

    /// Human-readable label shown beside the preset.
    pub fn label(self) -> (r: &'static str)
        ensures
            self is Fast ==> r@ == "Fast"@,
            self is Normal ==> r@ == "Normal"@,
            self is Best ==> r@ == "Best"@,
    {
        match self {
            CompressionLevel::Fast => "Fast",
            CompressionLevel::Normal => "Normal",
            CompressionLevel::Best => "Best",
        }
    }

    /// Step one preset toward `Best`, saturating at `Best`.
    pub fn increase(self) -> (r: Self)
        ensures
            r == spec_increase(self),
    {
        match self {
            CompressionLevel::Fast => CompressionLevel::Normal,
            CompressionLevel::Normal => CompressionLevel::Best,
            CompressionLevel::Best => CompressionLevel::Best,
        }
    }

    /// Step one preset toward `Fast`, saturating at `Fast`.
    pub fn decrease(self) -> (r: Self)
        ensures
            r == spec_decrease(self),
    {
        match self {
            CompressionLevel::Fast => CompressionLevel::Fast,
            CompressionLevel::Normal => CompressionLevel::Fast,
            CompressionLevel::Best => CompressionLevel::Normal,
        }
    }
}

/// Stepping a preset up or down always yields one of the three presets,
/// saturates at the ends (`Fast.decrease() == Fast`, `Best.increase() == Best`),
/// moves rank by at most one in the intended direction, and two steps up from
/// `Normal` reach `Best`.
pub proof fn lemma_level_order(l: CompressionLevel)
    ensures
        0 <= level_rank(spec_increase(l)) <= 2,
        0 <= level_rank(spec_decrease(l)) <= 2,
        level_rank(spec_increase(l)) == if level_rank(l) < 2 { level_rank(l) + 1 } else { 2int },
        level_rank(spec_decrease(l)) == if level_rank(l) > 0 { level_rank(l) - 1 } else { 0int },
        spec_decrease(CompressionLevel::Fast) == CompressionLevel::Fast,
        spec_increase(CompressionLevel::Best) == CompressionLevel::Best,
        spec_increase(spec_increase(CompressionLevel::Normal)) == CompressionLevel::Best,
{
}

} // verus!
