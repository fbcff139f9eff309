use vstd::prelude::*;

verus! {

/// What a body is, for display and for the thrust rule.
#[derive(Clone, Copy, Debug, PartialEq, Eq, Structural)]
pub enum BodyType {
    Star,
    Planet,
    Spacecraft,
}

impl Default for BodyType {
    fn default() -> (r: Self)
        ensures
            r == BodyType::Planet,
    {
        BodyType::Planet
    }
}

impl BodyType {
    /// The kind that the plain constructor gives a body: a fixed body is a star,
    /// any other a planet.
    pub fn for_new_body(is_fixed: bool) -> (r: BodyType)
        ensures
            r == (if is_fixed { BodyType::Star } else { BodyType::Planet }),
    {
        if is_fixed {
            BodyType::Star
        } else {
            BodyType::Planet
        }
    }

    /// Only a spacecraft carries a thrust vector.
    pub fn accepts_thrust(&self) -> (r: bool)
        ensures
            r == (*self == BodyType::Spacecraft),
    {
        match self {
            BodyType::Spacecraft => true,
            _ => false,
        }
    }
}

} // verus!
