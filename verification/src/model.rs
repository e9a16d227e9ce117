//! The game data that the views read: judgements, hit counts, judgement
//! labels and hit windows.
use vstd::prelude::*;

verus! {

/// How precisely a note was hit, from best to worst, and a press that hit
/// no note.
#[derive(Debug, Clone, Copy, PartialEq, Eq, Structural)]
pub enum Judgement {
    Marv,
    Perfect,
    Great,
    Good,
    Bad,
    Miss,
    GhostTap,
}

/// How many hits of a play fell under each judgement.
#[derive(Debug, Clone, Copy, PartialEq, Eq, Structural)]
pub struct HitStats {
    pub marv: u32,
    pub perfect: u32,
    pub great: u32,
    pub good: u32,
    pub bad: u32,
    pub miss: u32,
    pub ghost_tap: u32,
}

impl HitStats {
    /// Counts that are all zero.
    pub fn new() -> (r: Self)
        ensures
            r == (HitStats { marv: 0, perfect: 0, great: 0, good: 0, bad: 0, miss: 0, ghost_tap: 0 }),
    {
        HitStats { marv: 0, perfect: 0, great: 0, good: 0, bad: 0, miss: 0, ghost_tap: 0 }
    }

    /// The count kept for one judgement.
    pub open spec fn count_spec(self, j: Judgement) -> u32 {
        match j {
            Judgement::Marv => self.marv,
            Judgement::Perfect => self.perfect,
            Judgement::Great => self.great,
            Judgement::Good => self.good,
            Judgement::Bad => self.bad,
            Judgement::Miss => self.miss,
            Judgement::GhostTap => self.ghost_tap,
        }
    }

    /// The count kept for one judgement.
    pub fn count(&self, j: Judgement) -> (r: u32)
        ensures
            r == self.count_spec(j),
    {
        match j {
            Judgement::Marv => self.marv,
            Judgement::Perfect => self.perfect,
            Judgement::Great => self.great,
            Judgement::Good => self.good,
            Judgement::Bad => self.bad,
            Judgement::Miss => self.miss,
            Judgement::GhostTap => self.ghost_tap,
        }
    }
}

/// The texts that the skin shows for each judgement.
pub struct JudgementLabels {
    pub marv: String,
    pub perfect: String,
    pub great: String,
    pub good: String,
    pub bad: String,
    pub miss: String,
    pub ghost_tap: String,
}

impl JudgementLabels {
    /// The text shown for one judgement.
    pub open spec fn label_spec(&self, j: Judgement) -> Seq<char> {
        match j {
            Judgement::Marv => self.marv@,
            Judgement::Perfect => self.perfect@,
            Judgement::Great => self.great@,
            Judgement::Good => self.good@,
            Judgement::Bad => self.bad@,
            Judgement::Miss => self.miss@,
            Judgement::GhostTap => self.ghost_tap@,
        }
    }

    /// The text shown for one judgement.
    pub fn label(&self, j: Judgement) -> (r: &str)
        ensures
            r@ == self.label_spec(j),
    {
        match j {
            Judgement::Marv => self.marv.as_str(),
            Judgement::Perfect => self.perfect.as_str(),
            Judgement::Great => self.great.as_str(),
            Judgement::Good => self.good.as_str(),
            Judgement::Bad => self.bad.as_str(),
            Judgement::Miss => self.miss.as_str(),
            Judgement::GhostTap => self.ghost_tap.as_str(),
        }
    }
}

/// The timing windows of each judgement, in microseconds either side of the
/// note.
#[derive(Debug, Clone, Copy, PartialEq, Eq, Structural)]
pub struct HitWindow {
    pub marv_us: i64,
    pub perfect_us: i64,
    pub great_us: i64,
    pub good_us: i64,
    pub bad_us: i64,
    pub miss_us: i64,
}


/// The judgements in the order that panels list them.
pub open spec fn judgement_order() -> Seq<Judgement> {
    seq![
        Judgement::Marv,
        Judgement::Perfect,
        Judgement::Great,
        Judgement::Good,
        Judgement::Bad,
        Judgement::Miss,
        Judgement::GhostTap,
    ]
}

/// The judgements in the order that panels list them.
pub fn judgements_in_order() -> (r: Vec<Judgement>)
    ensures
        r@ == judgement_order(),
{
    let r = vec![
        Judgement::Marv,
        Judgement::Perfect,
        Judgement::Great,
        Judgement::Good,
        Judgement::Bad,
        Judgement::Miss,
        Judgement::GhostTap,
    ];
    assert(r@ =~= judgement_order());
    r
}

} // verus!
