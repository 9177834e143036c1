//! Positions on the chain and the peer's report of its best block.

use vstd::prelude::*;

verus! {

/// Mathematical value of a chain point.
pub enum PointValue {
    Origin,
    Specific { slot: u64, hash: Seq<u8> },
}

/// Mathematical value of a tip: the peer's best point and its block height.
pub struct TipValue {
    pub point: PointValue,
    pub height: u64,
}

/// Mathematical value of a flat point: a slot and the bytes of a hash.
pub struct FlatPoint {
    pub slot: u64,
    pub hash: Seq<u8>,
}

/// The flat form of a point. A specific point has one; the origin has none,
/// so that no flat form stands for two points.
pub open spec fn flatten_point(p: PointValue) -> Option<FlatPoint> {
    match p {
        PointValue::Origin => None,
        PointValue::Specific { slot, hash } => Some(FlatPoint { slot, hash }),
    }
}

/// The slot of a point; the origin counts as slot 0.
pub open spec fn slot_of(p: PointValue) -> u64 {
    match p {
        PointValue::Origin => 0,
        PointValue::Specific { slot, .. } => slot,
    }
}

/// The point that a flat form names on the wire: always a specific one.
pub open spec fn specific_point(f: FlatPoint) -> PointValue {
    PointValue::Specific { slot: f.slot, hash: f.hash }
}

/// A reference to a position in the ledger's history, or its origin.
#[derive(Clone, Debug, PartialEq, Eq)]
pub enum ChainPoint {
    Origin,
    Specific(u64, Vec<u8>),
}

impl View for ChainPoint {
    type V = PointValue;

    open spec fn view(&self) -> PointValue {
        match self {
            ChainPoint::Origin => PointValue::Origin,
            ChainPoint::Specific(slot, hash) => PointValue::Specific { slot: *slot, hash: hash@ },
        }
    }
}

impl ChainPoint {
    /// A copy with the same value.
    pub fn duplicate(&self) -> (r: ChainPoint)
        ensures
            r@ == self@,
    {
        match self {
            ChainPoint::Origin => ChainPoint::Origin,
            ChainPoint::Specific(slot, hash) => ChainPoint::Specific(*slot, hash.clone()),
        }
    }

    /// The slot of the point; the origin counts as slot 0.
    pub fn slot_or_default(&self) -> (s: u64)
        ensures
            s == slot_of(self@),
    {
        match self {
            ChainPoint::Origin => 0,
            ChainPoint::Specific(slot, _) => *slot,
        }
    }

    /// Whether two points have the same value.
    pub fn same_as(&self, other: &ChainPoint) -> (r: bool)
        ensures
            r == (self@ == other@),
    {
        match (self, other) {
            (ChainPoint::Origin, ChainPoint::Origin) => true,
            (ChainPoint::Specific(s1, h1), ChainPoint::Specific(s2, h2)) => {
                let r = *s1 == *s2 && same_bytes(h1, h2);
                r
            },
            _ => false,
        }
    }
}

/// Whether two byte vectors hold the same bytes.
pub fn same_bytes(a: &Vec<u8>, b: &Vec<u8>) -> (r: bool)
    ensures
        r == (a@ == b@),
{
    if a.len() != b.len() {
        return false;
    }
    let mut i: usize = 0;
    while i < a.len()
        invariant
            a@.len() == b@.len(),
            i <= a@.len(),
            forall|j: int| 0 <= j < i ==> a@[j] == b@[j],
        decreases a@.len() - i,
    {
        if a[i] != b[i] {
            return false;
        }
        i += 1;
    }
    assert(a@ =~= b@);
    true
}

/// The peer's current best point and the height of its block.
#[derive(Clone, Debug, PartialEq, Eq)]
pub struct Tip {
    pub point: ChainPoint,
    pub height: u64,
}

impl View for Tip {
    type V = TipValue;

    open spec fn view(&self) -> TipValue {
        TipValue { point: self.point@, height: self.height }
    }
}

impl Tip {
    /// A copy with the same value.
    pub fn duplicate(&self) -> (r: Tip)
        ensures
            r@ == self@,
    {
        Tip { point: self.point.duplicate(), height: self.height }
    }
}

/// A specific point in flat form, as it crosses the caller's boundary: a slot
/// and a hash. The origin has no flat form.
#[derive(Clone, Debug, PartialEq, Eq)]
pub struct Point {
    pub slot: u64,
    pub hash: Vec<u8>,
}

impl View for Point {
    type V = FlatPoint;

    open spec fn view(&self) -> FlatPoint {
        FlatPoint { slot: self.slot, hash: self.hash@ }
    }
}

impl Point {
    /// The flat form of a chain point: none for the origin.
    pub fn from_chain_point(p: ChainPoint) -> (r: Option<Point>)
        ensures
            flat_value(r) == flatten_point(p@),
    {
        match p {
            ChainPoint::Origin => None,
            ChainPoint::Specific(slot, hash) => Some(Point { slot, hash }),
        }
    }

    /// The chain point that this flat form names when it is sent to a peer.
    pub fn to_chain_point(self) -> (r: ChainPoint)
        ensures
            r@ == specific_point(self@),
    {
        ChainPoint::Specific(self.slot, self.hash)
    }

    /// A copy with the same value.
    pub fn duplicate(&self) -> (r: Point)
        ensures
            r@ == self@,
    {
        Point { slot: self.slot, hash: self.hash.clone() }
    }
}

pub open spec fn flat_value(p: Option<Point>) -> Option<FlatPoint> {
    match p {
        Some(p) => Some(p@),
        None => None,
    }
}

/// Flattening the point that a flat form names gives the flat form back.
pub proof fn flat_point_round_trip(f: FlatPoint)
    ensures
        flatten_point(specific_point(f)) == Some(f),
{
}

/// The origin alone has no flat form; a specific point is named again by its
/// flat form; and two points of one flat form are one point.
pub proof fn chain_point_round_trip(p: PointValue, q: PointValue)
    ensures
        flatten_point(p) is None <==> p is Origin,
        flatten_point(p) matches Some(f) ==> specific_point(f) == p,
        flatten_point(p) == flatten_point(q) ==> p == q,
{
}

} // verus!
