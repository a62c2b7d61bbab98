use vstd::prelude::*;

use crate::color::{color_definition, spec_color_definition, Color};

verus! {

/// Why a staged state change is refused.
#[derive(Debug, Clone, Copy, PartialEq, Eq, Structural)]
pub enum ValidationError {
    /// No property was set at all.
    NoProperty,
    /// The brightness lies outside 1 to 100.
    Brightness,
    /// The hue lies outside 1 to 360 while hue/saturation mode is active.
    Hue,
    /// The saturation lies outside 1 to 100.
    Saturation,
    /// The color temperature lies outside 2500 to 6500 while temperature mode is active.
    ColorTemperature,
}

impl ValidationError {
    pub open spec fn spec_field(self) -> Seq<char> {
        match self {
            ValidationError::NoProperty => "DeviceInfoParams"@,
            ValidationError::Brightness => "brightness"@,
            ValidationError::Hue => "hue"@,
            ValidationError::Saturation => "saturation"@,
            ValidationError::ColorTemperature => "color_temperature"@,
        }
    }

    pub open spec fn spec_message(self) -> Seq<char> {
        match self {
            ValidationError::NoProperty => "requires at least one property"@,
            ValidationError::Brightness => "must be between 1 and 100"@,
            ValidationError::Hue => "must be between 1 and 360"@,
            ValidationError::Saturation => "must be between 1 and 100"@,
            ValidationError::ColorTemperature => "must be between 2500 and 6500"@,
        }
    }

    /// The name of the offending field, or of the whole parameter set.
    pub fn field(&self) -> (r: &'static str)
        ensures
            r@ == self.spec_field(),
    {
        match self {
            ValidationError::NoProperty => "DeviceInfoParams",
            ValidationError::Brightness => "brightness",
            ValidationError::Hue => "hue",
            ValidationError::Saturation => "saturation",
            ValidationError::ColorTemperature => "color_temperature",
        }
    }

    /// A description of the constraint that was broken.
    pub fn message(&self) -> (r: &'static str)
        ensures
            r@ == self.spec_message(),
    {
        match self {
            ValidationError::NoProperty => "requires at least one property",
            ValidationError::Brightness => "must be between 1 and 100",
            ValidationError::Hue => "must be between 1 and 360",
            ValidationError::Saturation => "must be between 1 and 100",
            ValidationError::ColorTemperature => "must be between 2500 and 6500",
        }
    }
}

/// One field of the request payload, under its wire key.
#[derive(Debug, Clone, Copy, PartialEq, Eq, Structural)]
pub enum PayloadField {
    DeviceOn(bool),
    Brightness(u8),
    Hue(u16),
    Saturation(u8),
    ColorTemp(u16),
}

impl PayloadField {
    pub open spec fn spec_key(self) -> Seq<char> {
        match self {
            PayloadField::DeviceOn(_) => "device_on"@,
            PayloadField::Brightness(_) => "brightness"@,
            PayloadField::Hue(_) => "hue"@,
            PayloadField::Saturation(_) => "saturation"@,
            PayloadField::ColorTemp(_) => "color_temp"@,
        }
    }

    /// The key under which the field is sent.
    pub fn key(&self) -> (r: &'static str)
        ensures
            r@ == self.spec_key(),
    {
        match self {
            PayloadField::DeviceOn(_) => "device_on",
            PayloadField::Brightness(_) => "brightness",
            PayloadField::Hue(_) => "hue",
            PayloadField::Saturation(_) => "saturation",
            PayloadField::ColorTemp(_) => "color_temp",
        }
    }
}

/// Builder that stages several properties of a color light, to be applied in a single request.
///
/// Hue/saturation and color temperature share the same three wire fields: `hue == 0` with
/// `saturation == 100` marks temperature mode, `color_temperature == 0` marks hue/saturation mode.
#[derive(Debug, Clone, Copy, PartialEq, Eq, Structural)]
pub struct ColorLightSetDeviceInfoParams {
    pub device_on: Option<bool>,
    pub brightness: Option<u8>,
    pub hue: Option<u16>,
    pub saturation: Option<u8>,
    pub color_temperature: Option<u16>,
}

impl ColorLightSetDeviceInfoParams {
    /// Whether at least one property has been staged.
    pub open spec fn has_any_property(self) -> bool {
        ||| self.device_on is Some
        ||| self.brightness is Some
        ||| self.hue is Some
        ||| self.saturation is Some
        ||| self.color_temperature is Some
    }

    /// Hue/saturation mode is active when no non-zero color temperature is staged.
    pub open spec fn hue_saturation_mode(self) -> bool {
        self.color_temperature is None || self.color_temperature->0 == 0
    }

    /// Temperature mode is active when the hue is absent or zero and the saturation
    /// is absent or 100.
    pub open spec fn temperature_mode(self) -> bool {
        &&& (self.hue is None || self.hue->0 == 0)
        &&& (self.saturation is None || self.saturation->0 == 100)
    }

    pub open spec fn brightness_out_of_range(self) -> bool {
        self.brightness is Some && !(1 <= self.brightness->0 <= 100)
    }

    pub open spec fn hue_out_of_range(self) -> bool {
        self.hue is Some && self.hue_saturation_mode() && !(1 <= self.hue->0 <= 360)
    }

    pub open spec fn saturation_out_of_range(self) -> bool {
        self.saturation is Some && !(1 <= self.saturation->0 <= 100)
    }

    pub open spec fn color_temperature_out_of_range(self) -> bool {
        &&& self.color_temperature is Some
        &&& self.temperature_mode()
        &&& !(2500 <= self.color_temperature->0 <= 6500)
    }

    /// The outcome of validation: the first rule that the staged state breaks, checked in
    /// this order, or success.
    pub open spec fn spec_validate(self) -> Result<(), ValidationError> {
        if !self.has_any_property() {
            Err(ValidationError::NoProperty)
        } else if self.brightness_out_of_range() {
            Err(ValidationError::Brightness)
        } else if self.hue_out_of_range() {
            Err(ValidationError::Hue)
        } else if self.saturation_out_of_range() {
            Err(ValidationError::Saturation)
        } else if self.color_temperature_out_of_range() {
            Err(ValidationError::ColorTemperature)
        } else {
            Ok(())
        }
    }

    /// Checks the staged state before it is sent.
    pub fn validate(&self) -> (r: Result<(), ValidationError>)
        ensures
            r == self.spec_validate(),
    {
        if self.device_on.is_none() && self.brightness.is_none() && self.hue.is_none()
            && self.saturation.is_none() && self.color_temperature.is_none() {
            return Err(ValidationError::NoProperty);
        }
        if let Some(brightness) = self.brightness {
            if !(1 <= brightness && brightness <= 100) {
                return Err(ValidationError::Brightness);
            }
        }
        if let Some(hue) = self.hue {
            let color_temperature: u16 = match self.color_temperature {
                Some(t) => t,
                None => 0,
            };
            if color_temperature == 0 && !(1 <= hue && hue <= 360) {
                return Err(ValidationError::Hue);
            }
        }
        if let Some(saturation) = self.saturation {
            if !(1 <= saturation && saturation <= 100) {
                return Err(ValidationError::Saturation);
            }
        }
        if let Some(color_temperature) = self.color_temperature {
            let hue: u16 = match self.hue {
                Some(h) => h,
                None => 0,
            };
            let saturation: u8 = match self.saturation {
                Some(s) => s,
                None => 100,
            };
            if hue == 0 && saturation == 100 && !(2500 <= color_temperature && color_temperature
                <= 6500) {
                return Err(ValidationError::ColorTemperature);
            }
        }
        Ok(())
    }
}

impl ColorLightSetDeviceInfoParams {
    /// The builder with nothing staged.
    pub open spec fn spec_new() -> Self {
        ColorLightSetDeviceInfoParams {
            device_on: None,
            brightness: None,
            hue: None,
            saturation: None,
            color_temperature: None,
        }
    }

    /// The state after selecting hue/saturation mode.
    pub open spec fn with_hue_saturation(self, hue: u16, saturation: u8) -> Self {
        ColorLightSetDeviceInfoParams {
            hue: Some(hue),
            saturation: Some(saturation),
            color_temperature: Some(0),
            ..self
        }
    }

    /// The state after selecting temperature mode.
    pub open spec fn with_color_temperature(self, value: u16) -> Self {
        ColorLightSetDeviceInfoParams {
            hue: Some(0),
            saturation: Some(100),
            color_temperature: Some(value),
            ..self
        }
    }

    /// The state after selecting a named color.
    pub open spec fn with_color(self, color: Color) -> Self {
        let (hue, saturation, color_temperature) = spec_color_definition(color);
        ColorLightSetDeviceInfoParams { hue, saturation, color_temperature, ..self }
    }

    pub fn new() -> (r: Self)
        ensures
            r == Self::spec_new(),
    {
        ColorLightSetDeviceInfoParams {
            device_on: None,
            brightness: None,
            hue: None,
            saturation: None,
            color_temperature: None,
        }
    }

    /// Turns *on* the device.
    pub fn on(self) -> (r: Self)
        ensures
            r == (ColorLightSetDeviceInfoParams { device_on: Some(true), ..self }),
    {
        ColorLightSetDeviceInfoParams { device_on: Some(true), ..self }
    }

    /// Turns *off* the device.
    pub fn off(self) -> (r: Self)
        ensures
            r == (ColorLightSetDeviceInfoParams { device_on: Some(false), ..self }),
    {
        ColorLightSetDeviceInfoParams { device_on: Some(false), ..self }
    }

    /// Sets the *brightness*, between 1 and 100; the range is checked by `validate`.
    pub fn brightness(self, value: u8) -> (r: Self)
        ensures
            r == (ColorLightSetDeviceInfoParams { brightness: Some(value), ..self }),
    {
        ColorLightSetDeviceInfoParams { brightness: Some(value), ..self }
    }

    /// Sets a named *color*, which overwrites hue, saturation and color temperature.
    pub fn color(self, color: Color) -> (r: Self)
        ensures
            r == self.with_color(color),
    {
        let (hue, saturation, color_temperature) = color_definition(color);
        ColorLightSetDeviceInfoParams { hue, saturation, color_temperature, ..self }
    }

    /// Sets the *hue* (1 to 360) and *saturation* (1 to 100), and leaves temperature mode.
    pub fn hue_saturation(self, hue: u16, saturation: u8) -> (r: Self)
        ensures
            r == self.with_hue_saturation(hue, saturation),
    {
        ColorLightSetDeviceInfoParams {
            hue: Some(hue),
            saturation: Some(saturation),
            color_temperature: Some(0),
            ..self
        }
    }

    /// Sets the *color temperature* (2500 to 6500), and leaves hue/saturation mode.
    pub fn color_temperature(self, value: u16) -> (r: Self)
        ensures
            r == self.with_color_temperature(value),
    {
        ColorLightSetDeviceInfoParams {
            hue: Some(0),
            saturation: Some(100),
            color_temperature: Some(value),
            ..self
        }
    }

    /// The payload: each staged field under its wire key, in a fixed order, and nothing else.
    pub open spec fn spec_payload(self) -> Seq<PayloadField> {
        (match self.device_on {
            Some(v) => seq![PayloadField::DeviceOn(v)],
            None => Seq::empty(),
        }) + (match self.brightness {
            Some(v) => seq![PayloadField::Brightness(v)],
            None => Seq::empty(),
        }) + (match self.hue {
            Some(v) => seq![PayloadField::Hue(v)],
            None => Seq::empty(),
        }) + (match self.saturation {
            Some(v) => seq![PayloadField::Saturation(v)],
            None => Seq::empty(),
        }) + (match self.color_temperature {
            Some(v) => seq![PayloadField::ColorTemp(v)],
            None => Seq::empty(),
        })
    }

    /// Encodes the staged fields; fields left unset are omitted.
    pub fn encode(&self) -> (r: Vec<PayloadField>)
        ensures
            r@ == self.spec_payload(),
    {
        let mut fields: Vec<PayloadField> = Vec::new();
        if let Some(v) = self.device_on {
            fields.push(PayloadField::DeviceOn(v));
        }
        if let Some(v) = self.brightness {
            fields.push(PayloadField::Brightness(v));
        }
        if let Some(v) = self.hue {
            fields.push(PayloadField::Hue(v));
        }
        if let Some(v) = self.saturation {
            fields.push(PayloadField::Saturation(v));
        }
        if let Some(v) = self.color_temperature {
            fields.push(PayloadField::ColorTemp(v));
        }
        proof {
            assert(fields@ =~= self.spec_payload());
        }
        fields
    }

    /// Validates the staged state and, if it passes, gives the payload to send; on failure
    /// nothing is to be sent.
    pub fn prepare(self) -> (r: Result<Vec<PayloadField>, ValidationError>)
        ensures
            match self.spec_validate() {
                Ok(()) => r is Ok && r->Ok_0@ == self.spec_payload(),
                Err(e) => r == Err::<Vec<PayloadField>, ValidationError>(e),
            },
    {
        match self.validate() {
            Ok(()) => Ok(self.encode()),
            Err(e) => Err(e),
        }
    }
}

/// A builder with only a brightness staged passes validation exactly when the brightness
/// lies in 1 to 100, and otherwise fails with the brightness error, so nothing is sent.
pub proof fn lemma_brightness_alone(value: u8)
    ensures
        ({
            let p = ColorLightSetDeviceInfoParams {
                brightness: Some(value),
                ..ColorLightSetDeviceInfoParams::spec_new()
            };
            &&& (1 <= value <= 100) ==> p.spec_validate() is Ok
            &&& !(1 <= value <= 100) ==> p.spec_validate() == Err::<(), ValidationError>(
                ValidationError::Brightness,
            )
        }),
{
}

/// Selecting a color temperature after a hue and saturation leaves temperature mode in force:
/// hue 0, saturation 100 and the given temperature.
pub proof fn lemma_color_temperature_wins(
    p: ColorLightSetDeviceInfoParams,
    hue: u16,
    saturation: u8,
    value: u16,
)
    ensures
        ({
            let q = p.with_hue_saturation(hue, saturation).with_color_temperature(value);
            &&& q.hue == Some(0u16)
            &&& q.saturation == Some(100u8)
            &&& q.color_temperature == Some(value)
        }),
{
}

/// Selecting a hue and saturation after a color temperature leaves hue/saturation mode in
/// force: the given hue and saturation, and color temperature 0.
pub proof fn lemma_hue_saturation_wins(
    p: ColorLightSetDeviceInfoParams,
    value: u16,
    hue: u16,
    saturation: u8,
)
    ensures
        ({
            let q = p.with_color_temperature(value).with_hue_saturation(hue, saturation);
            &&& q.hue == Some(hue)
            &&& q.saturation == Some(saturation)
            &&& q.color_temperature == Some(0u16)
        }),
{
}

/// Encoding a builder with only a brightness staged yields that one field, under the key
/// `brightness`, and no other key.
pub proof fn lemma_brightness_only_payload(value: u8)
    ensures
        ({
            let p = ColorLightSetDeviceInfoParams {
                brightness: Some(value),
                ..ColorLightSetDeviceInfoParams::spec_new()
            };
            &&& p.spec_payload() == seq![PayloadField::Brightness(value)]
            &&& p.spec_payload().map_values(|f: PayloadField| f.spec_key()) == seq!["brightness"@]
        }),
{
    let p = ColorLightSetDeviceInfoParams {
        brightness: Some(value),
        ..ColorLightSetDeviceInfoParams::spec_new()
    };
    assert(p.spec_payload() =~= seq![PayloadField::Brightness(value)]);
    assert(p.spec_payload().map_values(|f: PayloadField| f.spec_key()) =~= seq!["brightness"@]);
}

} // verus!
