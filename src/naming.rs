use vstd::prelude::*;
use vstd::string::*;

verus! {

/// Number of distinct planet names before the generic one.
pub const PLANET_NAME_COUNT: u32 = 20;

/// Names given to generated planets, in order.
pub open spec fn planet_names() -> Seq<Seq<char>> {
    seq![
        "Alpha"@, "Beta"@, "Gamma"@, "Delta"@, "Epsilon"@,
        "Zeta"@, "Eta"@, "Theta"@, "Iota"@, "Kappa"@,
        "Lambda"@, "Mu"@, "Nu"@, "Xi"@, "Omicron"@,
        "Pi"@, "Rho"@, "Sigma"@, "Tau"@, "Upsilon"@,
    ]
}

/// Name of the `i`-th generated planet: from the list, then "Planet".
pub open spec fn planet_name_text(i: u32) -> Seq<char> {
    if i < PLANET_NAME_COUNT {
        planet_names()[i as int]
    } else {
        "Planet"@
    }
}

pub fn planet_name(i: u32) -> (r: &'static str)
    ensures
        r@ == planet_name_text(i),
{
    match i {
        0 => "Alpha",
        1 => "Beta",
        2 => "Gamma",
        3 => "Delta",
        4 => "Epsilon",
        5 => "Zeta",
        6 => "Eta",
        7 => "Theta",
        8 => "Iota",
        9 => "Kappa",
        10 => "Lambda",
        11 => "Mu",
        12 => "Nu",
        13 => "Xi",
        14 => "Omicron",
        15 => "Pi",
        16 => "Rho",
        17 => "Sigma",
        18 => "Tau",
        19 => "Upsilon",
        _ => "Planet",
    }
}

/// The decimal digit `d`.
pub open spec fn digit_text(d: int) -> Seq<char> {
    if d == 0 {
        "0"@
    } else if d == 1 {
        "1"@
    } else if d == 2 {
        "2"@
    } else if d == 3 {
        "3"@
    } else if d == 4 {
        "4"@
    } else if d == 5 {
        "5"@
    } else if d == 6 {
        "6"@
    } else if d == 7 {
        "7"@
    } else if d == 8 {
        "8"@
    } else {
        "9"@
    }
}

/// `n` in decimal, without leading zeros.
pub open spec fn decimal_text(n: nat) -> Seq<char>
    decreases n,
{
    if n < 10 {
        digit_text(n as int)
    } else {
        decimal_text(n / 10) + digit_text((n % 10) as int)
    }
}

fn digit(d: u32) -> (r: &'static str)
    requires
        d < 10,
    ensures
        r@ == digit_text(d as int),
{
    match d {
        0 => "0",
        1 => "1",
        2 => "2",
        3 => "3",
        4 => "4",
        5 => "5",
        6 => "6",
        7 => "7",
        8 => "8",
        _ => "9",
    }
}

/// `n` written in decimal.
pub fn decimal(n: u32) -> (r: String)
    ensures
        r@ == decimal_text(n as nat),
    decreases n,
{
    if n < 10 {
        digit(n).to_owned()
    } else {
        let mut s = decimal(n / 10);
        s.append(digit(n % 10));
        s
    }
}

/// A name made of a prefix and a running number, such as "A17".
pub fn numbered_name(prefix: &str, i: u32) -> (r: String)
    ensures
        r@ == prefix@ + decimal_text(i as nat),
{
    let mut s = prefix.to_owned();
    s.append(decimal(i).as_str());
    s
}

/// A colour given by hue (degrees), saturation and lightness (percent).
#[derive(Clone, Copy, Debug, PartialEq, Eq, Structural)]
pub struct HslColor {
    pub hue: u32,
    pub saturation: u32,
    pub lightness: u32,
}

/// The CSS text of a colour: `hsl(h, s%, l%)`.
pub open spec fn hsl_text(c: HslColor) -> Seq<char> {
    "hsl("@ + decimal_text(c.hue as nat) + ", "@ + decimal_text(c.saturation as nat) + "%, "@
        + decimal_text(c.lightness as nat) + "%)"@
}

impl HslColor {
    pub fn css(&self) -> (r: String)
        ensures
            r@ == hsl_text(*self),
    {
        let mut s = "hsl(".to_owned();
        s.append(decimal(self.hue).as_str());
        s.append(", ");
        s.append(decimal(self.saturation).as_str());
        s.append("%, ");
        s.append(decimal(self.lightness).as_str());
        s.append("%)");
        s
    }
}

/// Relies on rand::Rng::random_range, drawing from rand::rng(): a value in
/// `[low, high)`; it panics on an empty range, which `requires` rules out.
#[verifier::external_body]
fn random_in(low: u32, high: u32) -> (r: u32)
    requires
        low < high,
    ensures
        low <= r < high,
{
    rand::Rng::random_range(&mut rand::rng(), low..high)
}

/// A star's colour: a random warm hue in `[30, 60)`, saturation 80, lightness 70.
pub fn random_star_color() -> (r: HslColor)
    ensures
        30 <= r.hue < 60,
        r.saturation == 80,
        r.lightness == 70,
{
    HslColor { hue: random_in(30, 60), saturation: 80, lightness: 70 }
}

/// A planet's colour: hue in `[0, 360)`, saturation in `[40, 80)`, lightness
/// in `[50, 80)`, each drawn at random.
pub fn random_planet_color() -> (r: HslColor)
    ensures
        r.hue < 360,
        40 <= r.saturation < 80,
        50 <= r.lightness < 80,
{
    let hue = random_in(0, 360);
    let saturation = random_in(40, 80);
    let lightness = random_in(50, 80);
    HslColor { hue, saturation, lightness }
}

} // verus!
