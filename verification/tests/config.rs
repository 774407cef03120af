use electricity_meter_rs::SerialConfig;
use std::time::Duration;

#[test]
fn config_keeps_parameters() {
    let c = SerialConfig::new("/dev/serial0", 9600, Duration::from_secs(10));
    assert_eq!(c.port_name, "/dev/serial0");
    assert_eq!(c.baud_rate, 9600);
    assert_eq!(c.timeout, Duration::from_secs(10));
}
