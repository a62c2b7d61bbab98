use vstd::prelude::*;

verus! {

/// The named colors a color light can be set to.
#[derive(Debug, Clone, Copy, PartialEq, Eq, Structural, Hash)]
pub enum Color {
    CoolWhite,
    Daylight,
    Ivory,
    WarmWhite,
    Incandescent,
    Candlelight,
    Snow,
    GhostWhite,
    AliceBlue,
    LightGoldenrod,
    LemonChiffon,
    AntiqueWhite,
    Gold,
    Peru,
    Chocolate,
    SandyBrown,
    Coral,
    Pumpkin,
    Tomato,
    Vermilion,
    OrangeRed,
    Pink,
    Crimson,
    DarkRed,
    HotPink,
    Smitten,
    MediumPurple,
    BlueViolet,
    Indigo,
    LightSkyBlue,
    CornflowerBlue,
    Ultramarine,
    DeepSkyBlue,
    Azure,
    NavyBlue,
    LightTurquoise,
    Aquamarine,
    Turquoise,
    LightGreen,
    Lime,
    ForestGreen,
}

/// The wire values of a named color: hue, saturation and color temperature.
pub type ColorDefinition = (Option<u16>, Option<u8>, Option<u16>);

/// The definition of each named color.
pub open spec fn spec_color_definition(color: Color) -> ColorDefinition {
    match color {
        Color::CoolWhite => (Some(0), Some(100), Some(4000)),
        Color::Daylight => (Some(0), Some(100), Some(5000)),
        Color::Ivory => (Some(0), Some(100), Some(6000)),
        Color::WarmWhite => (Some(0), Some(100), Some(3000)),
        Color::Incandescent => (Some(0), Some(100), Some(2700)),
        Color::Candlelight => (Some(0), Some(100), Some(2500)),
        Color::Snow => (Some(0), Some(100), Some(6500)),
        Color::GhostWhite => (Some(0), Some(100), Some(6500)),
        Color::AliceBlue => (Some(208), Some(5), None),
        Color::LightGoldenrod => (Some(54), Some(28), None),
        Color::LemonChiffon => (Some(54), Some(19), None),
        Color::AntiqueWhite => (Some(0), Some(100), Some(5500)),
        Color::Gold => (Some(50), Some(100), None),
        Color::Peru => (Some(29), Some(69), None),
        Color::Chocolate => (Some(30), Some(100), None),
        Color::SandyBrown => (Some(27), Some(60), None),
        Color::Coral => (Some(16), Some(68), None),
        Color::Pumpkin => (Some(24), Some(90), None),
        Color::Tomato => (Some(9), Some(72), None),
        Color::Vermilion => (Some(4), Some(77), None),
        Color::OrangeRed => (Some(16), Some(100), None),
        Color::Pink => (Some(349), Some(24), None),
        Color::Crimson => (Some(348), Some(90), None),
        Color::DarkRed => (Some(0), Some(100), None),
        Color::HotPink => (Some(330), Some(58), None),
        Color::Smitten => (Some(329), Some(67), None),
        Color::MediumPurple => (Some(259), Some(48), None),
        Color::BlueViolet => (Some(271), Some(80), None),
        Color::Indigo => (Some(274), Some(100), None),
        Color::LightSkyBlue => (Some(202), Some(46), None),
        Color::CornflowerBlue => (Some(218), Some(57), None),
        Color::Ultramarine => (Some(254), Some(100), None),
        Color::DeepSkyBlue => (Some(195), Some(100), None),
        Color::Azure => (Some(210), Some(100), None),
        Color::NavyBlue => (Some(230), Some(100), None),
        Color::LightTurquoise => (Some(180), Some(26), None),
        Color::Aquamarine => (Some(159), Some(50), None),
        Color::Turquoise => (Some(174), Some(71), None),
        Color::LightGreen => (Some(120), Some(39), None),
        Color::Lime => (Some(75), Some(100), None),
        Color::ForestGreen => (Some(120), Some(75), None),
    }
}

/// Looks up the definition of a named color.
pub fn color_definition(color: Color) -> (r: ColorDefinition)
    ensures
        r == spec_color_definition(color),
{
    match color {
        Color::CoolWhite => (Some(0), Some(100), Some(4000)),
        Color::Daylight => (Some(0), Some(100), Some(5000)),
        Color::Ivory => (Some(0), Some(100), Some(6000)),
        Color::WarmWhite => (Some(0), Some(100), Some(3000)),
        Color::Incandescent => (Some(0), Some(100), Some(2700)),
        Color::Candlelight => (Some(0), Some(100), Some(2500)),
        Color::Snow => (Some(0), Some(100), Some(6500)),
        Color::GhostWhite => (Some(0), Some(100), Some(6500)),
        Color::AliceBlue => (Some(208), Some(5), None),
        Color::LightGoldenrod => (Some(54), Some(28), None),
        Color::LemonChiffon => (Some(54), Some(19), None),
        Color::AntiqueWhite => (Some(0), Some(100), Some(5500)),
        Color::Gold => (Some(50), Some(100), None),
        Color::Peru => (Some(29), Some(69), None),
        Color::Chocolate => (Some(30), Some(100), None),
        Color::SandyBrown => (Some(27), Some(60), None),
        Color::Coral => (Some(16), Some(68), None),
        Color::Pumpkin => (Some(24), Some(90), None),
        Color::Tomato => (Some(9), Some(72), None),
        Color::Vermilion => (Some(4), Some(77), None),
        Color::OrangeRed => (Some(16), Some(100), None),
        Color::Pink => (Some(349), Some(24), None),
        Color::Crimson => (Some(348), Some(90), None),
        Color::DarkRed => (Some(0), Some(100), None),
        Color::HotPink => (Some(330), Some(58), None),
        Color::Smitten => (Some(329), Some(67), None),
        Color::MediumPurple => (Some(259), Some(48), None),
        Color::BlueViolet => (Some(271), Some(80), None),
        Color::Indigo => (Some(274), Some(100), None),
        Color::LightSkyBlue => (Some(202), Some(46), None),
        Color::CornflowerBlue => (Some(218), Some(57), None),
        Color::Ultramarine => (Some(254), Some(100), None),
        Color::DeepSkyBlue => (Some(195), Some(100), None),
        Color::Azure => (Some(210), Some(100), None),
        Color::NavyBlue => (Some(230), Some(100), None),
        Color::LightTurquoise => (Some(180), Some(26), None),
        Color::Aquamarine => (Some(159), Some(50), None),
        Color::Turquoise => (Some(174), Some(71), None),
        Color::LightGreen => (Some(120), Some(39), None),
        Color::Lime => (Some(75), Some(100), None),
        Color::ForestGreen => (Some(120), Some(75), None),
    }
}

} // verus!
