use tapo::{color_definition, Color, ColorLightSetDeviceInfoParams, PayloadField, ValidationError};

fn assert_validation(result: Result<Vec<PayloadField>, ValidationError>, field: &str, message: &str) {
    let err = result.err().expect("validation should fail");
    assert_eq!(err.field(), field);
    assert_eq!(err.message(), message);
}

#[test]
fn hue_saturation_overrides_color_temperature() {
    let params = ColorLightSetDeviceInfoParams::new();

    let params = params.color_temperature(3000);
    let params = params.hue_saturation(50, 50);

    assert_eq!(params.hue, Some(50));
    assert_eq!(params.saturation, Some(50));
    assert_eq!(params.color_temperature, Some(0));

    assert!(params.prepare().is_ok())
}

#[test]
fn color_temperature_overrides_hue_saturation() {
    let params = ColorLightSetDeviceInfoParams::new();

    let params = params.hue_saturation(50, 50);
    let params = params.color_temperature(3000);

    assert_eq!(params.hue, Some(0));
    assert_eq!(params.saturation, Some(100));
    assert_eq!(params.color_temperature, Some(3000));

    assert!(params.prepare().is_ok())
}

#[test]
fn no_property_validation() {
    let params = ColorLightSetDeviceInfoParams::new();
    let result = params.prepare();
    assert_validation(result, "DeviceInfoParams", "requires at least one property");
}

#[test]
fn brightness_validation() {
    let params = ColorLightSetDeviceInfoParams::new();
    let result = params.brightness(0).prepare();
    assert_validation(result, "brightness", "must be between 1 and 100");

    let params = ColorLightSetDeviceInfoParams::new();
    let result = params.brightness(101).prepare();
    assert_validation(result, "brightness", "must be between 1 and 100");
}

#[test]
fn hue_validation() {
    let params = ColorLightSetDeviceInfoParams::new();
    let result = params.hue_saturation(0, 50).prepare();
    assert_validation(result, "hue", "must be between 1 and 360");

    let params = ColorLightSetDeviceInfoParams::new();
    let result = params.hue_saturation(361, 50).prepare();
    assert_validation(result, "hue", "must be between 1 and 360");
}

#[test]
fn saturation_validation() {
    let params = ColorLightSetDeviceInfoParams::new();
    let result = params.hue_saturation(1, 0).prepare();
    assert_validation(result, "saturation", "must be between 1 and 100");

    let params = ColorLightSetDeviceInfoParams::new();
    let result = params.hue_saturation(1, 101).prepare();
    assert_validation(result, "saturation", "must be between 1 and 100");
}

#[test]
fn color_temperature_validation() {
    let params: ColorLightSetDeviceInfoParams = ColorLightSetDeviceInfoParams::new();
    let result = params.color_temperature(2499).prepare();
    assert_validation(result, "color_temperature", "must be between 2500 and 6500");

    let params = ColorLightSetDeviceInfoParams::new();
    let result = params.color_temperature(6501).prepare();
    assert_validation(result, "color_temperature", "must be between 2500 and 6500");
}

#[test]
fn every_valid_brightness_is_accepted() {
    for value in 1..=100u8 {
        let payload = ColorLightSetDeviceInfoParams::new().brightness(value).prepare();
        assert_eq!(payload, Ok(vec![PayloadField::Brightness(value)]));
    }
}

#[test]
fn validate_reports_the_same_errors() {
    assert_eq!(
        ColorLightSetDeviceInfoParams::new().validate(),
        Err(ValidationError::NoProperty)
    );
    assert_eq!(
        ColorLightSetDeviceInfoParams::new().brightness(0).validate(),
        Err(ValidationError::Brightness)
    );
    assert_eq!(ColorLightSetDeviceInfoParams::new().on().validate(), Ok(()));
}

#[test]
fn brightness_only_payload_has_only_brightness_key() {
    let params = ColorLightSetDeviceInfoParams::new().brightness(50);
    let payload = params.encode();
    assert_eq!(payload, vec![PayloadField::Brightness(50)]);
    let keys: Vec<&str> = payload.iter().map(|f| f.key()).collect();
    assert_eq!(keys, vec!["brightness"]);
}

#[test]
fn full_payload_uses_wire_keys_in_order() {
    let params = ColorLightSetDeviceInfoParams::new().off().brightness(20).hue_saturation(120, 40);
    let payload = params.prepare().expect("valid state");
    assert_eq!(
        payload,
        vec![
            PayloadField::DeviceOn(false),
            PayloadField::Brightness(20),
            PayloadField::Hue(120),
            PayloadField::Saturation(40),
            PayloadField::ColorTemp(0),
        ]
    );
    let keys: Vec<&str> = payload.iter().map(|f| f.key()).collect();
    assert_eq!(keys, vec!["device_on", "brightness", "hue", "saturation", "color_temp"]);
}

#[test]
fn on_and_off_set_power() {
    assert_eq!(ColorLightSetDeviceInfoParams::new().on().device_on, Some(true));
    assert_eq!(ColorLightSetDeviceInfoParams::new().on().off().device_on, Some(false));
    assert_eq!(ColorLightSetDeviceInfoParams::new().on().encode(), vec![PayloadField::DeviceOn(true)]);
}

#[test]
fn range_bounds_are_inclusive() {
    assert!(ColorLightSetDeviceInfoParams::new().brightness(1).prepare().is_ok());
    assert!(ColorLightSetDeviceInfoParams::new().brightness(100).prepare().is_ok());
    assert!(ColorLightSetDeviceInfoParams::new().hue_saturation(1, 1).prepare().is_ok());
    assert!(ColorLightSetDeviceInfoParams::new().hue_saturation(360, 100).prepare().is_ok());
    assert!(ColorLightSetDeviceInfoParams::new().color_temperature(2500).prepare().is_ok());
    assert!(ColorLightSetDeviceInfoParams::new().color_temperature(6500).prepare().is_ok());
}

#[test]
fn inactive_mode_is_not_range_checked() {
    let stale_hue = ColorLightSetDeviceInfoParams {
        device_on: None,
        brightness: None,
        hue: Some(500),
        saturation: Some(100),
        color_temperature: Some(3000),
    };
    assert_eq!(stale_hue.validate(), Ok(()));

    let stale_temperature = ColorLightSetDeviceInfoParams {
        device_on: None,
        brightness: None,
        hue: Some(10),
        saturation: Some(50),
        color_temperature: Some(9000),
    };
    assert_eq!(stale_temperature.validate(), Ok(()));
}

#[test]
fn brightness_is_checked_before_hue() {
    let params = ColorLightSetDeviceInfoParams::new().brightness(0).hue_saturation(0, 0);
    assert_eq!(params.validate(), Err(ValidationError::Brightness));
}

#[test]
fn named_color_overwrites_mode_fields() {
    let params = ColorLightSetDeviceInfoParams::new().hue_saturation(10, 10).color(Color::WarmWhite);
    assert_eq!(params.hue, Some(0));
    assert_eq!(params.saturation, Some(100));
    assert_eq!(params.color_temperature, Some(3000));
    assert!(params.prepare().is_ok());

    let params = ColorLightSetDeviceInfoParams::new().color_temperature(4000).color(Color::Coral);
    assert_eq!(params.hue, Some(16));
    assert_eq!(params.saturation, Some(68));
    assert_eq!(params.color_temperature, None);
    assert_eq!(
        params.encode(),
        vec![PayloadField::Hue(16), PayloadField::Saturation(68)]
    );
}

#[test]
fn color_definitions_of_a_few_colors() {
    assert_eq!(color_definition(Color::Candlelight), (Some(0), Some(100), Some(2500)));
    assert_eq!(color_definition(Color::Indigo), (Some(274), Some(100), None));
    assert_eq!(color_definition(Color::AliceBlue), (Some(208), Some(5), None));
}
