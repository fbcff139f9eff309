use vstd::prelude::*;

verus! {

/// Depth at which insertion stops subdividing and only aggregates.
pub const MAX_DEPTH: usize = 20;

/// Child slot for a point: bit 0 when it lies in the upper half along x,
/// bit 1 along y, bit 2 along z.
pub open spec fn octant_of(x_upper: bool, y_upper: bool, z_upper: bool) -> int {
    (if x_upper { 1int } else { 0int }) + (if y_upper { 2int } else { 0int }) + (if z_upper {
        4int
    } else {
        0int
    })
}

pub fn octant(x_upper: bool, y_upper: bool, z_upper: bool) -> (r: usize)
    ensures
        r == octant_of(x_upper, y_upper, z_upper),
        r < 8,
{
    let mut idx: usize = 0;
    if x_upper {
        idx = idx + 1;
    }
    if y_upper {
        idx = idx + 2;
    }
    if z_upper {
        idx = idx + 4;
    }
    idx
}

/// For each axis, whether the child in slot `octant` lies in the upper half.
pub fn upper_halves(octant: usize) -> (r: (bool, bool, bool))
    requires
        octant < 8,
    ensures
        octant_of(r.0, r.1, r.2) == octant,
{
    (octant % 2 == 1, (octant / 2) % 2 == 1, octant / 4 == 1)
}

/// What inserting a body into a node does.
#[derive(Clone, Copy, Debug, PartialEq, Eq, Structural)]
pub enum InsertStep {
    /// Depth cap reached: fold the body into the node's aggregate.
    Accumulate,
    /// Empty leaf: keep the body here.
    StoreLeaf,
    /// Single-body leaf: move its body into a child, then place the new one.
    SplitLeaf,
    /// Internal node: place the body into a child.
    Descend,
}

pub open spec fn insert_step_for(depth: int, holds_mass: bool, holds_body: bool) -> InsertStep {
    if depth >= MAX_DEPTH {
        InsertStep::Accumulate
    } else if !holds_mass && !holds_body {
        InsertStep::StoreLeaf
    } else if holds_body {
        InsertStep::SplitLeaf
    } else {
        InsertStep::Descend
    }
}

/// The step for a node at `depth`, given whether it has any mass and
/// whether it stores a single body.
pub fn insert_step(depth: usize, holds_mass: bool, holds_body: bool) -> (r: InsertStep)
    ensures
        r == insert_step_for(depth as int, holds_mass, holds_body),
{
    if depth >= MAX_DEPTH {
        InsertStep::Accumulate
    } else if !holds_mass && !holds_body {
        InsertStep::StoreLeaf
    } else if holds_body {
        InsertStep::SplitLeaf
    } else {
        InsertStep::Descend
    }
}

/// What an acceleration query does at a node.
#[derive(Clone, Copy, Debug, PartialEq, Eq, Structural)]
pub enum QueryStep {
    /// The node contributes nothing.
    Nothing,
    /// A leaf holding another body: its exact pull.
    Direct,
    /// A far node: its aggregate as one source.
    Aggregate,
    /// A near node: the sum over its children.
    Open,
}

pub open spec fn query_step_for(
    holds_mass: bool,
    leaf_body: Option<usize>,
    self_index: usize,
    far_enough: bool,
) -> QueryStep {
    if !holds_mass {
        QueryStep::Nothing
    } else {
        match leaf_body {
            Some(k) => if k == self_index {
                QueryStep::Nothing
            } else {
                QueryStep::Direct
            },
            None => if far_enough {
                QueryStep::Aggregate
            } else {
                QueryStep::Open
            },
        }
    }
}

/// The step for a query from body `self_index` at a node, given whether the
/// node has mass, the body it stores if it is a leaf, and whether it passes
/// the opening criterion (`s² < θ²·d²`).
pub fn query_step(
    holds_mass: bool,
    leaf_body: Option<usize>,
    self_index: usize,
    far_enough: bool,
) -> (r: QueryStep)
    ensures
        r == query_step_for(holds_mass, leaf_body, self_index, far_enough),
{
    if !holds_mass {
        QueryStep::Nothing
    } else {
        match leaf_body {
            Some(k) => if k == self_index {
                QueryStep::Nothing
            } else {
                QueryStep::Direct
            },
            None => if far_enough {
                QueryStep::Aggregate
            } else {
                QueryStep::Open
            },
        }
    }
}

} // verus!
