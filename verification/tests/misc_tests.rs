use dali_tools::device_type::DeviceType;
use dali_tools::dummy::DummyDriver;
use dali_tools::driver::{DaliFrame, DaliSendResult};
use dali_tools::fade::FadeTime;
use dali_tools::registry::{
    driver_names, init, open, parse_name_params, DriverFeatures, DriverRegistry, OpenError,
};
use dali_tools::send_flags::Flags;
use dali_tools::serial::{parse_serial_params, Parity};
use dali_tools::simulator::gear::GearState;
use dali_tools::simulator::gear_config::{
    configure, get_parameter, set_parameter, ConfKey, ConfValue, ConfigError, GearConfig,
    ParameterError,
};
use dali_tools::status::GearStatus;
use std::collections::HashMap;

// Stand-ins for the open callbacks of two drivers: both fail, the second
// after checking its parameters.
fn abc_open_callback(_params: HashMap<String, String>) -> Result<(), OpenError> {
    Err(OpenError::DriverError("abc".into()))
}

fn def_open_callback(params: HashMap<String, String>) -> Result<(), OpenError> {
    match params.get("one") {
        Some(s) if s == "1" => {}
        Some(_) => panic!("Incorrect value for parameter one"),
        None => panic!("Missing parameter one"),
    };
    match params.get("two") {
        Some(s) if s == "2" => {}
        Some(_) => panic!("Incorrect value for parameter two"),
        None => panic!("Missing parameter two"),
    };

    Err(OpenError::DriverError("def".into()))
}

type OpenCallback = fn(HashMap<String, String>) -> Result<(), OpenError>;

fn open_with(
    reg: &DriverRegistry,
    callbacks: &[OpenCallback],
    name_params: &str,
) -> Result<(), OpenError> {
    let (idx, params) = open(reg, name_params)?;
    let map: HashMap<String, String> = params.into_iter().collect();
    callbacks[idx](map)
}

#[test]
fn register_driver_test() {
    let mut reg = DriverRegistry::new();
    let mut callbacks: Vec<OpenCallback> = Vec::new();
    reg.add_driver("abc".to_string(), "abc driver".to_string());
    callbacks.push(abc_open_callback);
    reg.add_driver("def".to_string(), "def driver".to_string());
    callbacks.push(def_open_callback);

    match open_with(&reg, &callbacks, "foobar") {
        Err(OpenError::NotFound) => {}
        _ => panic!("Unexpected return from open_driver"),
    }

    match open_with(&reg, &callbacks, "abc") {
        Err(OpenError::DriverError(_)) => {}
        _ => panic!("Unexpected return from open_driver"),
    }

    match open_with(&reg, &callbacks, "def: three=a, two = 2, one= 1") {
        Err(OpenError::DriverError(_)) => {}
        _ => panic!("Unexpected return from open_driver"),
    }
}

#[test]
fn name_params_parsing() {
    let (n, ps) = parse_name_params("def: three=a, two = 2, one= 1").unwrap();
    assert_eq!(n, "def");
    assert_eq!(
        ps,
        vec![
            ("three".to_string(), "a".to_string()),
            ("two".to_string(), "2".to_string()),
            ("one".to_string(), "1".to_string())
        ]
    );
    let (n, ps) = parse_name_params(" sim ").unwrap();
    assert_eq!(n, " sim ");
    assert!(ps.is_empty());
    let (n, ps) = parse_name_params("sim :  ").unwrap();
    assert_eq!(n, "sim");
    assert!(ps.is_empty());
    match parse_name_params("sim: a=1, b") {
        Err(e) => assert_eq!(
            e.message(),
            "Parameter error: Parameter delimit name and value with '='"
        ),
        Ok(_) => panic!("Missing '=' accepted"),
    }
    assert_eq!(OpenError::NotFound.message(), "Driver not found");
}

#[test]
fn registry_init_and_names() {
    let mut reg = DriverRegistry::new();
    let features = DriverFeatures { helvar510: false, dgw521: true, pru: false, dali_rpi: true };
    assert!(init(&mut reg, features).is_ok());
    assert_eq!(driver_names(&reg), vec!["DGW521".to_string(), "DALI_RPI".to_string()]);
    assert_eq!(reg.find("DALI_RPI"), Some(1));
    assert_eq!(reg.find("PRU"), None);
    match open(&reg, "DGW521:port=/dev/x") {
        Ok((0, ps)) => assert_eq!(ps, vec![("port".to_string(), "/dev/x".to_string())]),
        _ => panic!("Driver not chosen"),
    }
}

#[test]
fn serial_params() {
    let p = parse_serial_params(None, None, None).unwrap();
    assert_eq!(p.port, "/dev/ttyACM0");
    assert_eq!(p.baud_rate, 9600);
    assert_eq!(p.parity, Parity::Even);
    let p = parse_serial_params(Some("/dev/ttyS1"), Some("19200"), Some("none")).unwrap();
    assert_eq!(p.port, "/dev/ttyS1");
    assert_eq!(p.baud_rate, 19200);
    assert_eq!(p.parity, Parity::NoParity);
    assert_eq!(parse_serial_params(None, None, Some("odd")).unwrap().parity, Parity::Odd);
    match parse_serial_params(None, Some("fast"), Some("x")) {
        Err(OpenError::ParameterError(m)) => assert_eq!(m, "baud_rate has invalid value"),
        _ => panic!("Bad baud rate accepted"),
    }
    match parse_serial_params(None, Some("4800"), Some("x")) {
        Err(OpenError::ParameterError(m)) => assert_eq!(m, "parity has invalid value"),
        _ => panic!("Bad parity accepted"),
    }
}

#[test]
fn fade_time_values() {
    let ft = FadeTime::from_value(15);
    assert_eq!(ft.value(), 15);
    let ft = FadeTime::from_value(0);
    assert_eq!(ft.value(), 0);
    assert_eq!(FadeTime::from_integer(8).value(), 8);
}

#[test]
fn dummy_outcomes() {
    let d = DummyDriver::new(false);
    assert!(matches!(d.outcome(Flags::SendTwice(true)), (DaliSendResult::Sent, 19)));
    assert!(matches!(d.outcome(Flags::ExpectAnswer(true)), (DaliSendResult::Timeout, 11)));
    assert!(matches!(d.outcome(Flags::Empty), (DaliSendResult::Sent, 9)));
    assert_eq!(d.log_prefix(Flags::SendTwice(true) | Flags::ExpectAnswer(true)), "T ");
    assert_eq!(d.log_prefix(Flags::ExpectAnswer(true)), "A ");
    assert_eq!(d.log_prefix(Flags::Priority(2)), "  ");
    assert_eq!(d.log_line(&DaliFrame::Frame8(0x0a), Flags::ExpectAnswer(true)), "A 0a\n");
    assert_eq!(d.log_line(&DaliFrame::Frame16([0xff, 0x90]), Flags::Empty), "  ff 90\n");
    assert_eq!(
        d.log_line(&DaliFrame::Frame24([1, 2, 3]), Flags::SendTwice(true)),
        "T 01 02 03\n"
    );
    assert_eq!(d.log_line(&DaliFrame::Frame25([1, 2, 3, 4]), Flags::Empty), "  01 02 03 4\n");
    assert_eq!(d.log_line(&DaliFrame::Frame25([1, 2, 3, 0x1f]), Flags::Empty), "  01 02 03 1f\n");
}

#[test]
fn status_and_device_type_text() {
    assert_eq!(GearStatus::new(0).to_string(), "");
    assert_eq!(GearStatus::new(0x05).to_string(), "gear failure, lamp on");
    assert_eq!(GearStatus::new(0xc0).flag_names(), vec!["no address", "power cycle"]);
    assert_eq!(DeviceType::new(6).to_string(), "LED");
    assert_eq!(DeviceType::new(254).to_string(), "Not implemented");
    assert_eq!(DeviceType::new(42).to_string(), "Unknown type 42");
}

fn empty_config() -> GearConfig {
    GearConfig {
        random_address: None,
        short_address_step: None,
        short_address: None,
        last_light_level: None,
        target_level: None,
        power_on_level: None,
        system_failure_level: None,
        min_level: None,
        max_level: None,
        fade_rate: None,
        fade_time: None,
        extended_fade_time_base: None,
        extended_fade_time_multiplier: None,
        gear_groups: None,
        scenes: None,
    }
}

#[test]
fn configure_gear() {
    let mut dev = GearState::new("G".to_string(), 1, 0);
    let mut conf = empty_config();
    conf.short_address = Some(ConfValue::UInt(5));
    conf.short_address_step = Some(ConfValue::UInt(2));
    conf.random_address = Some(ConfValue::UInt(0xabcdef));
    conf.gear_groups = Some(ConfValue::List(vec![Some(1), Some(4)]));
    assert!(configure(&mut dev, &conf, 3).is_ok());
    assert_eq!(dev.short_address, 10);
    assert_eq!(dev.random_address, 0xabcdef);
    assert_eq!(dev.gear_groups, 0x0009);
    let mut conf = empty_config();
    conf.gear_groups = Some(ConfValue::List(vec![Some(17)]));
    assert_eq!(configure(&mut dev, &conf, 0), Err(ConfigError::InvalidGroupNumber));

    let mut conf = empty_config();
    conf.short_address = Some(ConfValue::UInt(65));
    assert_eq!(
        configure(&mut dev, &conf, 0),
        Err(ConfigError::OutOfRange(ConfKey::ShortAddress))
    );
    conf.short_address = Some(ConfValue::Other);
    assert_eq!(
        configure(&mut dev, &conf, 0),
        Err(ConfigError::NotUnsigned(ConfKey::ShortAddress))
    );
    conf.short_address = Some(ConfValue::UInt(1));
    conf.short_address_step = Some(ConfValue::UInt(20));
    assert_eq!(configure(&mut dev, &conf, 4), Err(ConfigError::EndAddressOutOfBounds));
    assert_eq!(ConfKey::MaxLevel.name(), "maxLevel");
}

#[test]
fn gear_parameters() {
    let mut dev = GearState::new("G".to_string(), 1, 0);
    assert_eq!(set_parameter(&mut dev, "shortAddress", "12"), Ok(()));
    assert_eq!(dev.short_address, 11);
    assert_eq!(get_parameter(&dev, "shortAddress", 0).unwrap(), "12");
    assert_eq!(set_parameter(&mut dev, "shortAddress", "64"), Err(ParameterError::InvalidValue));
    assert_eq!(set_parameter(&mut dev, "shortAddress", "\"x\""), Err(ParameterError::InvalidValue));
    assert_eq!(dev.short_address, 11);
    assert_eq!(get_parameter(&dev, "actualLevel", 0).unwrap(), "254");
    assert_eq!(get_parameter(&dev, "initialisationState", 0).unwrap(), "DISABLED");
    assert_eq!(set_parameter(&mut dev, "lampFailure", "true"), Ok(()));
    assert_eq!(get_parameter(&dev, "lampFailure", 0).unwrap(), "true");
    assert_eq!(set_parameter(&mut dev, "lampFailure", "1"), Err(ParameterError::InvalidValue));
    assert_eq!(set_parameter(&mut dev, "fadeTime", "3"), Ok(()));
    assert_eq!(get_parameter(&dev, "fadeTime", 0).unwrap(), "3");
    assert_eq!(get_parameter(&dev, "noSuchThing", 0), Err(ParameterError::NotFound));
    assert_eq!(set_parameter(&mut dev, "noSuchThing", "1"), Err(ParameterError::NotFound));
    assert_eq!(ParameterError::NotFound.message(), "Parameter not found");
}

#[test]
fn parameter_values_are_read_as_json() {
    let mut dev = GearState::new("G".to_string(), 1, 0);
    assert_eq!(set_parameter(&mut dev, "fadeRate", " 5\n"), Ok(()));
    assert_eq!(get_parameter(&dev, "fadeRate", 0).unwrap(), "5");
    for bad in ["05", "256", "-0", "-1", "1.0", "1e1", "", " ", "5 x"] {
        assert_eq!(set_parameter(&mut dev, "fadeRate", bad), Err(ParameterError::InvalidValue));
    }
    assert_eq!(get_parameter(&dev, "fadeRate", 0).unwrap(), "5");
    assert_eq!(set_parameter(&mut dev, "fadeRate", "255"), Ok(()));
    assert_eq!(get_parameter(&dev, "fadeRate", 0).unwrap(), "15");
    assert_eq!(set_parameter(&mut dev, "resetState", "\t true "), Ok(()));
    assert_eq!(get_parameter(&dev, "resetState", 0).unwrap(), "true");
    assert_eq!(set_parameter(&mut dev, "resetState", "TRUE"), Err(ParameterError::InvalidValue));
    assert_eq!(set_parameter(&mut dev, "resetState", "false"), Ok(()));
    assert_eq!(get_parameter(&dev, "resetState", 0).unwrap(), "false");
}

#[test]
fn other_parameters_are_fields_of_the_gear() {
    let mut dev = GearState::new("G\"1".to_string(), 0x123456, 0);
    assert_eq!(get_parameter(&dev, "name", 0).unwrap(), "\"G\\\"1\"");
    assert_eq!(get_parameter(&dev, "powered", 0).unwrap(), "true");
    assert_eq!(get_parameter(&dev, "minLevel", 0).unwrap(), "1");
    assert_eq!(get_parameter(&dev, "maxLevel", 0).unwrap(), "254");
    assert_eq!(get_parameter(&dev, "randomAddress", 0).unwrap(), "1193046");
    assert_eq!(get_parameter(&dev, "fade", 0).unwrap(), "7");
    assert_eq!(get_parameter(&dev, "PHM", 0).unwrap(), "1");
    assert_eq!(
        get_parameter(&dev, "scenes", 0).unwrap(),
        "[255,255,255,255,255,255,255,255,255,255,255,255,255,255,255,255]"
    );
    assert_eq!(set_parameter(&mut dev, "maxLevel", "200"), Ok(()));
    assert_eq!(dev.max_level, 200);
    assert_eq!(set_parameter(&mut dev, "maxLevel", "300"), Err(ParameterError::InvalidValue));
    assert_eq!(dev.max_level, 200);
    assert_eq!(set_parameter(&mut dev, "DTR1", " 17 "), Ok(()));
    assert_eq!(get_parameter(&dev, "DTR1", 0).unwrap(), "17");
    assert_eq!(set_parameter(&mut dev, "name", "\"Lamp\\n2\""), Ok(()));
    assert_eq!(dev.name, "Lamp\n2");
    assert_eq!(get_parameter(&dev, "name", 0).unwrap(), "\"Lamp\\n2\"");
    assert_eq!(set_parameter(&mut dev, "name", "Lamp"), Err(ParameterError::InvalidValue));
    assert_eq!(set_parameter(&mut dev, "targetLevel", "-5"), Ok(()));
    assert_eq!(dev.target_level, -5);
    assert_eq!(set_parameter(&mut dev, "targetLevel", "-0"), Err(ParameterError::InvalidValue));
    assert_eq!(set_parameter(&mut dev, "gearGroups", "65535"), Ok(()));
    assert_eq!(dev.gear_groups, 0xffff);
    assert_eq!(set_parameter(&mut dev, "gearGroups", "65536"), Err(ParameterError::InvalidValue));
    assert_eq!(set_parameter(&mut dev, "searchAddress", "4294967295"), Ok(()));
    assert_eq!(dev.search_address, u32::MAX);
    assert_eq!(set_parameter(&mut dev, "powered", "false"), Ok(()));
    assert!(!dev.powered);
    assert_eq!(
        set_parameter(&mut dev, "scenes", "[ 0, 1,2,3,4,5,6,7,8,9,10,11,12,13,14,255 ]"),
        Ok(())
    );
    assert_eq!(dev.scenes[1], 1);
    assert_eq!(dev.scenes[15], 255);
    assert_eq!(set_parameter(&mut dev, "scenes", "[1,2]"), Err(ParameterError::InvalidValue));
    assert_eq!(
        set_parameter(&mut dev, "scenes", "[0,1,2,3,4,5,6,7,8,9,10,11,12,13,14,15,16]"),
        Err(ParameterError::InvalidValue)
    );
    assert_eq!(dev.scenes[15], 255);
    assert_eq!(get_parameter(&dev, "fadeRunning", 0).unwrap(), "false");
    assert_eq!(set_parameter(&mut dev, "fadeRunning", "true"), Err(ParameterError::NotFound));
    assert_eq!(set_parameter(&mut dev, "actualLevel", "3"), Err(ParameterError::NotFound));
    assert_eq!(get_parameter(&dev, "fadeSlope", 0), Err(ParameterError::NotFound));
}


#[test]
fn identification_context() {
    assert_eq!(dali_tools::identification::long_address(0x12, 0x34, 0x56), 0x123456);
    assert_eq!(dali_tools::identification::long_address(0xff, 0xff, 0xff), 0xffffff);
    let mut c = dali_tools::identification::IdentificationCtxt::new();
    assert!(c.scan_addresses().is_empty());
    c.record(7, 0xabcdef);
    c.record(1, 0x000001);
    c.record(64, 0x800000);
    assert_eq!(c.scan_addresses(), vec![1, 7, 64]);
    assert_eq!(c.gears[6].unwrap().long, 0xabcdef);
    assert_eq!(c.gears[6].unwrap().new_addr, None);
}
