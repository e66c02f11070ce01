use arsdk::common::{format_date, format_time, Class, Common, DateTime};

#[test]
fn common_test_class() {
    assert_class(Class::Network, 0);
    assert_class(Class::NetworkEvent, 1);
    assert_class(Class::Settings, 2);
    assert_class(Class::SettingsState, 3);
    assert_class(Class::Common(Common::AllStates), 4);
    assert_class(Class::CommonState, 5);
    assert_class(Class::Overheat, 6);
    assert_class(Class::OverheatState, 7);
    assert_class(Class::Controller, 8);
    assert_class(Class::WifiSettings, 9);
    assert_class(Class::WifiSettingsState, 10);
    assert_class(Class::Mavlink, 11);
    assert_class(Class::MavlinkState, 12);
    assert_class(Class::FlightPlanSettings, 32);
    assert_class(Class::FlightPlanSettingsState, 33);
    assert_class(Class::Calibration, 13);
    assert_class(Class::CalibrationState, 14);
    assert_class(Class::CameraSettingsState, 15);
    assert_class(Class::Gps, 16);
    assert_class(Class::FlightPlanState, 17);
    assert_class(Class::FlightPlanEvent, 19);
    assert_class(Class::ArLibsVersionsState, 18);
    assert_class(Class::Audio, 20);
    assert_class(Class::AudioState, 21);
    assert_class(Class::HeadLights, 22);
    assert_class(Class::HeadLightsState, 23);
    assert_class(Class::Animations, 24);
    assert_class(Class::AnimationsState, 25);
    assert_class(Class::Accessory, 26);
    assert_class(Class::AccessoryState, 27);
    assert_class(Class::Charger, 28);
    assert_class(Class::ChargerState, 29);
    assert_class(Class::Runstate, 30);
    assert_class(Class::Factory, 31);
}

#[test]
fn test_common() {
    let date = DateTime {
        year: 2020,
        month: 4,
        day: 26,
        hour: 15,
        minute: 6,
        second: 11,
    };
    assert_common(Common::AllStates, 0);
    assert_common(Common::CurrentDate(date), 1);
    assert_common(Common::CurrentTime(date), 2);
    assert_common(Common::Reboot, 3);
}

#[test]
fn test_format_time() {
    let test_time = DateTime {
        year: 2014,
        month: 7,
        day: 8,
        hour: 9,
        minute: 10,
        second: 11,
    };
    assert_eq!(
        "2014-07-08".to_string(),
        String::from_utf8_lossy(&format_date(&test_time))
    );

    assert_eq!(
        "T091011+0000".to_string(),
        String::from_utf8_lossy(&format_time(&test_time))
    );
}

fn assert_class(dc: Class, v: u8) {
    let as_u8: u8 = dc.code();
    assert_eq!(v, as_u8);
}

fn assert_common(c: Common, v: u8) {
    let as_u8: u8 = c.code();
    assert_eq!(v, as_u8);
}
