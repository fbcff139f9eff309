use vstd::prelude::*;

verus! {

/// The named initial conditions.
#[derive(Clone, Copy, Debug, PartialEq, Eq, Structural)]
pub enum Scenario {
    SunEarth,
    InnerSolar,
    OuterSolar,
    FullSolar,
    BinaryStar,
    FigureEight,
    InclinedSolar,
    AsteroidBelt,
    GalaxyCollision,
}

/// The scenario that a name selects, if any.
pub open spec fn scenario_named(name: Seq<char>) -> Option<Scenario> {
    if name == "sun_earth"@ {
        Some(Scenario::SunEarth)
    } else if name == "inner_solar"@ {
        Some(Scenario::InnerSolar)
    } else if name == "outer_solar"@ {
        Some(Scenario::OuterSolar)
    } else if name == "full_solar"@ {
        Some(Scenario::FullSolar)
    } else if name == "binary_star"@ {
        Some(Scenario::BinaryStar)
    } else if name == "figure_eight"@ {
        Some(Scenario::FigureEight)
    } else if name == "inclined_solar"@ {
        Some(Scenario::InclinedSolar)
    } else if name == "asteroid_belt"@ {
        Some(Scenario::AsteroidBelt)
    } else if name == "galaxy_collision"@ {
        Some(Scenario::GalaxyCollision)
    } else {
        None
    }
}

fn same_text(a: &str, b: &str) -> (r: bool)
    ensures
        r == (a@ == b@),
{
    let x = a.to_owned();
    let y = b.to_owned();
    x == y
}

impl Scenario {
    /// Looks a scenario up by name; an unknown name selects none.
    pub fn from_name(name: &str) -> (r: Option<Scenario>)
        ensures
            r == scenario_named(name@),
    {
        if same_text(name, "sun_earth") {
            Some(Scenario::SunEarth)
        } else if same_text(name, "inner_solar") {
            Some(Scenario::InnerSolar)
        } else if same_text(name, "outer_solar") {
            Some(Scenario::OuterSolar)
        } else if same_text(name, "full_solar") {
            Some(Scenario::FullSolar)
        } else if same_text(name, "binary_star") {
            Some(Scenario::BinaryStar)
        } else if same_text(name, "figure_eight") {
            Some(Scenario::FigureEight)
        } else if same_text(name, "inclined_solar") {
            Some(Scenario::InclinedSolar)
        } else if same_text(name, "asteroid_belt") {
            Some(Scenario::AsteroidBelt)
        } else if same_text(name, "galaxy_collision") {
            Some(Scenario::GalaxyCollision)
        } else {
            None
        }
    }
}

} // verus!
