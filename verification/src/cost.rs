use vstd::prelude::*;

verus! {

/// How terrain codes are read.
#[derive(Clone, Copy, Debug, PartialEq, Eq, Structural)]
pub enum CostModel {
    /// Code 0 is walkable and every other code blocks; what a move costs is
    /// a matter of its direction alone.
    Direct,
    /// Three classes: 0 is cheap, 1 is expensive, 2 cannot be entered. Codes
    /// above 1 are folded into the expensive class before a map is built.
    Weighted,
}

/// What a tile is to a walker.
#[derive(Clone, Copy, Debug, PartialEq, Eq, Structural)]
pub enum Terrain {
    Cheap,
    Expensive,
    Impassable,
}

impl Terrain {
    /// The cost of entering a tile of this kind: 1 where it is cheap, 10 where
    /// it is expensive, none where it cannot be entered.
    pub open spec fn spec_weight(self) -> Option<u32> {
        match self {
            Terrain::Cheap => Some(1u32),
            Terrain::Expensive => Some(10u32),
            Terrain::Impassable => None,
        }
    }

    pub fn weight(self) -> (r: Option<u32>)
        ensures
            r == self.spec_weight(),
    {
        match self {
            Terrain::Cheap => Some(1),
            Terrain::Expensive => Some(10),
            Terrain::Impassable => None,
        }
    }
}

impl CostModel {
    /// The code that stands for `code` in a map built under this model: the
    /// weighted model keeps 0 and 1 and turns every other code into 1; the
    /// direct model keeps every code.
    pub open spec fn spec_normalize(self, code: u8) -> u8 {
        match self {
            CostModel::Direct => code,
            CostModel::Weighted => if code <= 1 {
                code
            } else {
                1u8
            },
        }
    }

    /// The class of a code as it stands in a map, with no folding.
    pub open spec fn spec_class_of(self, code: u8) -> Terrain {
        match self {
            CostModel::Direct => if code == 0 {
                Terrain::Cheap
            } else {
                Terrain::Impassable
            },
            CostModel::Weighted => if code == 0 {
                Terrain::Cheap
            } else if code == 1 {
                Terrain::Expensive
            } else {
                Terrain::Impassable
            },
        }
    }

    /// The class that a code of an input grid ends in: that of the code that
    /// stands for it.
    pub open spec fn spec_classify(self, code: u8) -> Terrain {
        self.spec_class_of(self.spec_normalize(code))
    }

    pub fn normalize(self, code: u8) -> (r: u8)
        ensures
            r == self.spec_normalize(code),
    {
        match self {
            CostModel::Direct => code,
            CostModel::Weighted => if code <= 1 {
                code
            } else {
                1
            },
        }
    }

    pub fn class_of(self, code: u8) -> (r: Terrain)
        ensures
            r == self.spec_class_of(code),
    {
        match self {
            CostModel::Direct => if code == 0 {
                Terrain::Cheap
            } else {
                Terrain::Impassable
            },
            CostModel::Weighted => if code == 0 {
                Terrain::Cheap
            } else if code == 1 {
                Terrain::Expensive
            } else {
                Terrain::Impassable
            },
        }
    }

    pub fn classify(self, code: u8) -> (r: Terrain)
        ensures
            r == self.spec_classify(code),
    {
        self.class_of(self.normalize(code))
    }
}

/// A code that stands for another stands for itself, and under the weighted
/// model it is 0 or 1: of an input grid every tile can be entered, at cost 1
/// where its code is 0 and at cost 10 elsewhere.
pub proof fn lemma_normalize(model: CostModel, code: u8)
    ensures
        model.spec_normalize(model.spec_normalize(code)) == model.spec_normalize(code),
        model.spec_classify(model.spec_normalize(code)) == model.spec_classify(code),
        model == CostModel::Weighted ==> model.spec_normalize(code) <= 1,
        model == CostModel::Weighted ==> model.spec_classify(code).spec_weight() == Some(
            if code == 0 {
                1u32
            } else {
                10u32
            },
        ),
        model == CostModel::Direct ==> (model.spec_classify(code) == Terrain::Cheap <==> code == 0),
        model == CostModel::Direct ==> model.spec_classify(code) != Terrain::Expensive,
{
}

} // verus!
