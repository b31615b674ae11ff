//! Display brightness settings and the cyclic order of the predefined ones.

use vstd::prelude::*;

verus! {

/// A brightness setting of the display controller: the pre-charge period and
/// the contrast value that are sent to it.
#[derive(Clone, Copy, Debug, PartialEq, Eq, Structural)]
pub struct BrightnessLevel {
    pub precharge: u8,
    pub contrast: u8,
}

/// Number of predefined settings.
pub const LEVEL_COUNT: usize = 5;

/// The predefined settings, from the dimmest to the brightest.
pub open spec fn ladder() -> Seq<BrightnessLevel> {
    seq![
        BrightnessLevel { precharge: 0x1, contrast: 0x00 },
        BrightnessLevel { precharge: 0x2, contrast: 0x2F },
        BrightnessLevel { precharge: 0x2, contrast: 0x5F },
        BrightnessLevel { precharge: 0x2, contrast: 0x9F },
        BrightnessLevel { precharge: 0x2, contrast: 0xFF },
    ]
}

impl BrightnessLevel {
    /// The display controller accepts pre-charge periods from 1 to 15.
    pub open spec fn well_formed(self) -> bool {
        1 <= self.precharge <= 15
    }

    /// Whether this is one of the predefined settings.
    pub open spec fn is_predefined(self) -> bool {
        exists|i: int| 0 <= i < ladder().len() && ladder()[i] == self
    }

    /// Position of a predefined setting on the ladder.
    pub open spec fn rank(self) -> int
        recommends
            self.is_predefined(),
    {
        choose|i: int| 0 <= i < ladder().len() && ladder()[i] == self
    }

    /// The setting that follows this one: one step up the ladder, from the top
    /// back to the bottom, and the setting itself when it is not predefined.
    pub open spec fn successor(self) -> BrightnessLevel {
        if self.is_predefined() {
            ladder()[(self.rank() + 1) % (ladder().len() as int)]
        } else {
            self
        }
    }

    /// The setting with the given pre-charge period and contrast, if the
    /// display controller accepts the period.
    pub fn custom(precharge: u8, contrast: u8) -> (level: Option<BrightnessLevel>)
        ensures
            level == if 1 <= precharge <= 15 {
                Some(BrightnessLevel { precharge, contrast })
            } else {
                None
            },
            level matches Some(l) ==> l.well_formed(),
    {
        if 1 <= precharge && precharge <= 15 {
            Some(BrightnessLevel { precharge, contrast })
        } else {
            None
        }
    }

    pub fn dimmest() -> (r: BrightnessLevel)
        ensures
            r == ladder()[0],
    {
        BrightnessLevel { precharge: 0x1, contrast: 0x00 }
    }

    pub fn dim() -> (r: BrightnessLevel)
        ensures
            r == ladder()[1],
    {
        BrightnessLevel { precharge: 0x2, contrast: 0x2F }
    }

    pub fn normal() -> (r: BrightnessLevel)
        ensures
            r == ladder()[2],
    {
        BrightnessLevel { precharge: 0x2, contrast: 0x5F }
    }

    pub fn bright() -> (r: BrightnessLevel)
        ensures
            r == ladder()[3],
    {
        BrightnessLevel { precharge: 0x2, contrast: 0x9F }
    }

    pub fn brightest() -> (r: BrightnessLevel)
        ensures
            r == ladder()[4],
    {
        BrightnessLevel { precharge: 0x2, contrast: 0xFF }
    }
}

/// The predefined settings are pairwise different, so each has one rank.
pub proof fn lemma_rank_of_ladder(i: int)
    requires
        0 <= i < ladder().len(),
    ensures
        ladder().len() == 5,
        ladder()[i].is_predefined(),
        ladder()[i].rank() == i,
        ladder()[i].well_formed(),
{
    let level = ladder()[i];
    assert(0 <= i < ladder().len() && ladder()[i] == level);
    let r = level.rank();
    assert(0 <= r < ladder().len() && ladder()[r] == level);
}

/// Below the top of the ladder the successor is the next setting up, at the
/// top it is the bottom one, and a setting off the ladder is its own
/// successor.
pub proof fn lemma_successor_steps(level: BrightnessLevel)
    ensures
        forall|i: int| 0 <= i < 4 ==> (#[trigger] ladder()[i]).successor() == ladder()[i + 1],
        ladder()[4].successor() == ladder()[0],
        !level.is_predefined() ==> level.successor() == level,
        level.is_predefined() ==> level.successor().is_predefined() && level.successor().rank()
            == (level.rank() + 1) % 5,
{
    lemma_rank_of_ladder(0);
    lemma_rank_of_ladder(1);
    lemma_rank_of_ladder(2);
    lemma_rank_of_ladder(3);
    lemma_rank_of_ladder(4);
    if level.is_predefined() {
        let r = level.rank();
        assert(0 <= r < ladder().len() && ladder()[r] == level);
    }
}

/// Five steps from a predefined setting lead back to it.
pub proof fn lemma_successor_cycle(level: BrightnessLevel)
    requires
        level.is_predefined(),
    ensures
        level.successor().successor().successor().successor().successor() == level,
{
    let s1 = level.successor();
    let s2 = s1.successor();
    let s3 = s2.successor();
    let s4 = s3.successor();
    lemma_successor_steps(level);
    lemma_successor_steps(s1);
    lemma_successor_steps(s2);
    lemma_successor_steps(s3);
    lemma_successor_steps(s4);
    let r = level.rank();
    assert(0 <= r < ladder().len() && ladder()[r] == level);
    let r5 = s4.successor().rank();
    assert(r5 == r);
    assert(0 <= r5 < ladder().len() && ladder()[r5] == s4.successor());
}

/// The setting to switch to when the brightness is cycled.
pub fn next_brightness(current_brightness: &BrightnessLevel) -> (next: BrightnessLevel)
    ensures
        next == current_brightness.successor(),
{
    let current: BrightnessLevel = *current_brightness;
    proof {
        lemma_rank_of_ladder(0);
        lemma_rank_of_ladder(1);
        lemma_rank_of_ladder(2);
        lemma_rank_of_ladder(3);
        lemma_rank_of_ladder(4);
    }
    if current == BrightnessLevel::dimmest() {
        BrightnessLevel::dim()
    } else if current == BrightnessLevel::dim() {
        BrightnessLevel::normal()
    } else if current == BrightnessLevel::normal() {
        BrightnessLevel::bright()
    } else if current == BrightnessLevel::bright() {
        BrightnessLevel::brightest()
    } else if current == BrightnessLevel::brightest() {
        BrightnessLevel::dimmest()
    } else {
        current
    }
}

} // verus!
