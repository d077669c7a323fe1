use radiator::error::MonitorError;
use radiator::fan::{Fan, Hardware, InitGuard, InitState, PwmDriver};
use radiator::monitor::{report_packet, Monitor};
use radiator::packet::{decoder, encoder};
use radiator::sensor::{get_temp, temperature};
use radiator::speed::{pin_duty, pwm};

/// A hardware double that counts its calls and answers with set statuses.
struct Recorder {
    init_calls: u32,
    init_status: i32,
    mode_status: i32,
    /// The statuses of the coming duty calls, in order; 0 once they run out.
    duty_statuses: Vec<i32>,
    modes: Vec<(u32, u32)>,
    duties: Vec<(u32, u32)>,
}

impl Recorder {
    fn new() -> Recorder {
        Recorder {
            init_calls: 0,
            init_status: 79,
            mode_status: 0,
            duty_statuses: Vec::new(),
            modes: Vec::new(),
            duties: Vec::new(),
        }
    }
}

impl PwmDriver for Recorder {
    fn initialise(&mut self) -> i32 {
        self.init_calls += 1;
        self.init_status
    }

    fn set_mode(&mut self, pin: u32, mode: u32) -> i32 {
        self.modes.push((pin, mode));
        self.mode_status
    }

    fn set_duty(&mut self, pin: u32, duty: u32) -> i32 {
        self.duties.push((pin, duty));
        if self.duty_statuses.is_empty() {
            0
        } else {
            self.duty_statuses.remove(0)
        }
    }
}

#[test]
fn cool_temperatures_turn_the_fan_off() {
    assert_eq!(pwm(25000), 0);
    assert_eq!(pwm(40000), 0);
    assert_eq!(pwm(-40000), 0);
    assert_eq!(pwm(i64::MIN), 0);
}

#[test]
fn hot_temperatures_run_the_fan_at_full_duty() {
    assert_eq!(pwm(90000), 1024);
    assert_eq!(pwm(70000), 1024);
    assert_eq!(pwm(125000), 1024);
    assert_eq!(pwm(i64::MAX), 1024);
}

#[test]
fn duty_between_the_bounds_rounds_up() {
    assert_eq!(pwm(55000), 512);
    assert_eq!(pwm(40001), 1);
    assert_eq!(pwm(41000), 35);
    assert_eq!(pwm(69999), 1024);
    assert_eq!(pwm(53200), 451);
}

#[test]
fn duty_never_falls_as_temperature_rises() {
    let mut last = pwm(39000);
    let mut t: i64 = 39000;
    while t <= 71000 {
        let d = pwm(t);
        assert!(d >= last);
        last = d;
        t += 7;
    }
}

#[test]
fn pin_duty_scales_and_clamps() {
    assert_eq!(pin_duty(0), 0);
    assert_eq!(pin_duty(1), 1);
    assert_eq!(pin_duty(512), 128);
    assert_eq!(pin_duty(1024), 255);
    assert_eq!(pin_duty(5000), 255);
}

#[test]
fn packet_layout() {
    let p = encoder(512);
    assert_eq!(&p[..], &[1u8, 2, 0][..]);
    let p = encoder(0xabcd);
    assert_eq!(&p[..], &[1u8, 0xab, 0xcd][..]);
    let p = encoder(0);
    assert_eq!(&p[..], &[1u8, 0, 0][..]);
    let p = encoder(65535);
    assert_eq!(&p[..], &[1u8, 255, 255][..]);
}

#[test]
fn packet_round_trip() {
    for duty in [0u16, 1, 255, 256, 512, 1024, 4660, 65535] {
        let p = encoder(duty);
        assert_eq!(p.len(), 3);
        assert_eq!(u16::from_be_bytes([p[1], p[2]]), duty);
        assert_eq!(decoder(&p[..]), Some(duty));
    }
}

#[test]
fn decoder_refuses_other_packets() {
    assert_eq!(decoder(&[2u8, 0, 1]), None);
    assert_eq!(decoder(&[1u8, 0]), None);
    assert_eq!(decoder(&[1u8, 0, 1, 0]), None);
    assert_eq!(decoder(&[]), None);
}

#[test]
fn tool_output_is_parsed() {
    assert_eq!(temperature(b"temp=53.2'C\n"), 53200);
    assert_eq!(temperature(b"temp=40.0'C"), 40000);
    assert_eq!(temperature(b"temp= 61.25 'C"), 61250);
    assert_eq!(temperature(b"temp=-5.5'C"), -5500);
    assert_eq!(temperature(b"temp=70"), 70000);
    assert_eq!(temperature(b"a=b=48.1234'C"), 48123);
    assert_eq!(temperature(b"temp=.5'C"), 500);
}

#[test]
fn malformed_tool_output_reads_as_zero() {
    assert_eq!(temperature(b"no-data"), 0);
    assert_eq!(temperature(b""), 0);
    assert_eq!(temperature(b"temp='C"), 0);
    assert_eq!(temperature(b"temp=.'C"), 0);
    assert_eq!(temperature(b"temp=5.3.1'C"), 0);
}

#[test]
fn sensor_file_is_parsed() {
    assert_eq!(get_temp(b"55000\n"), Ok(55));
    assert_eq!(get_temp(b"  48999 "), Ok(48));
    assert_eq!(get_temp(b"-1500"), Ok(-1));
    assert_eq!(get_temp(b"+72000"), Ok(72));
    assert_eq!(get_temp(b"9223372036854775807"), Ok(9223372036854775));
    assert_eq!(get_temp(b"-9223372036854775808"), Ok(-9223372036854775));
}

#[test]
fn malformed_sensor_file_is_a_parse_error() {
    assert_eq!(get_temp(b""), Err(MonitorError::Parse));
    assert_eq!(get_temp(b"55.0"), Err(MonitorError::Parse));
    assert_eq!(get_temp(b"abc"), Err(MonitorError::Parse));
    assert_eq!(get_temp(b"-"), Err(MonitorError::Parse));
    assert_eq!(get_temp(b"9223372036854775808"), Err(MonitorError::Parse));
}

#[test]
fn hardware_is_initialised_once_for_two_fans() {
    let mut hw = Hardware::new(Recorder::new());
    let mut guard = InitGuard::new();
    assert_eq!(guard.state(), InitState::Pending);
    let a = Fan::new(&mut hw, &mut guard, 12).unwrap();
    let b = Fan::new(&mut hw, &mut guard, 13).unwrap();
    assert_eq!(hw.driver().init_calls, 1);
    assert_eq!(guard.state(), InitState::Ready);
    assert_eq!(a.pin(), 12);
    assert_eq!(b.pin(), 13);
    assert_eq!(hw.driver().modes, vec![(12, 1), (13, 1)]);
    assert!(hw.driver().duties.is_empty());
}

#[test]
fn failed_initialisation_is_a_config_error_and_not_retried() {
    let mut rec = Recorder::new();
    rec.init_status = -1;
    let mut hw = Hardware::new(rec);
    let mut guard = InitGuard::new();
    assert!(matches!(Fan::new(&mut hw, &mut guard, 12), Err(MonitorError::Config)));
    assert!(matches!(Fan::new(&mut hw, &mut guard, 12), Err(MonitorError::Config)));
    assert_eq!(hw.driver().init_calls, 1);
    assert_eq!(guard.state(), InitState::Failed);
    assert!(hw.driver().modes.is_empty());
}

#[test]
fn refused_pin_mode_is_a_config_error() {
    let mut rec = Recorder::new();
    rec.mode_status = -3;
    let mut hw = Hardware::new(rec);
    let mut guard = InitGuard::new();
    assert!(matches!(Fan::new(&mut hw, &mut guard, 60), Err(MonitorError::Config)));
    assert_eq!(guard.state(), InitState::Ready);
    assert_eq!(hw.driver().modes, vec![(60, 1)]);
}

#[test]
fn refused_duty_is_an_actuation_error() {
    let mut rec = Recorder::new();
    rec.duty_statuses = vec![0, -8];
    let mut hw = Hardware::new(rec);
    let mut guard = InitGuard::new();
    let mut fan = Fan::new(&mut hw, &mut guard, 18).unwrap();
    assert_eq!(fan.up(&mut hw, 200), Ok(()));
    assert_eq!(fan.up(&mut hw, 100), Err(MonitorError::Actuation));
    let rec = hw.into_driver();
    assert_eq!(rec.duties, vec![(18, 200), (18, 100)]);
    assert_eq!(rec.init_calls, 1);
    assert_eq!(rec.modes.len(), 1);
}

#[test]
fn monitor_sets_the_duty_for_the_sensor_reading() {
    let mut hw = Hardware::new(Recorder::new());
    let mut guard = InitGuard::new();
    let mut monitor = Monitor::builder(&mut hw, &mut guard, 12, 5).unwrap();
    assert_eq!(monitor.pin(), 12);
    assert_eq!(monitor.poll_delay(), 5);
    assert_eq!(monitor.poll(&mut hw, b"55000\n"), Ok(()));
    assert_eq!(monitor.poll(&mut hw, b"25000\n"), Ok(()));
    assert_eq!(monitor.poll(&mut hw, b"90000\n"), Ok(()));
    assert_eq!(hw.driver().duties, vec![(12, 128), (12, 0), (12, 255)]);
    assert_eq!(monitor.poll(&mut hw, b"oops"), Err(MonitorError::Parse));
    assert_eq!(hw.driver().duties.len(), 3);
    assert_eq!(hw.driver().init_calls, 1);
}

#[test]
fn monitor_duty_for_reading() {
    assert_eq!(Monitor::duty_for(b"55000\n"), Ok(128));
    assert_eq!(Monitor::duty_for(b"40999"), Ok(0));
    assert_eq!(Monitor::duty_for(b"x"), Err(MonitorError::Parse));
}

#[test]
fn monitor_builder_reports_config_errors() {
    let mut rec = Recorder::new();
    rec.init_status = -1;
    let mut hw = Hardware::new(rec);
    let mut guard = InitGuard::new();
    assert!(matches!(Monitor::builder(&mut hw, &mut guard, 12, 5), Err(MonitorError::Config)));
}

#[test]
fn report_packet_follows_the_tool_output() {
    let p = report_packet(b"temp=55.0'C\n");
    assert_eq!(&p[..], &[1u8, 2, 0][..]);
    let p = report_packet(b"temp=25.0'C\n");
    assert_eq!(&p[..], &[1u8, 0, 0][..]);
    let p = report_packet(b"temp=90.0'C\n");
    assert_eq!(&p[..], &[1u8, 4, 0][..]);
    let p = report_packet(b"no-data");
    assert_eq!(&p[..], &[1u8, 0, 0][..]);
}

#[test]
fn monitor_reports_a_refused_duty_after_one_call() {
    let mut rec = Recorder::new();
    rec.duty_statuses = vec![-8];
    let mut hw = Hardware::new(rec);
    let mut guard = InitGuard::new();
    let mut monitor = Monitor::builder(&mut hw, &mut guard, 19, 1).unwrap();
    assert_eq!(monitor.poll(&mut hw, b"55999"), Err(MonitorError::Actuation));
    assert_eq!(hw.driver().duties, vec![(19, 128)]);
}
