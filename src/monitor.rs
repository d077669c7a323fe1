//! One cycle of the fan control: a temperature reading becomes a duty, and
//! the duty goes to the fan. The caller reads the sensor, runs the cycles
//! and sleeps between them; the first failure ends the loop.

use crate::error::MonitorError;
use crate::fan::{
    construction_logged, construction_succeeds, status_of, Fan, Hardware, HwCall, InitGuard, InitState,
    PwmDriver,
};
use crate::packet::{encoder, packet_bytes, packet_of};
use crate::sensor::{get_temp, sensor_degrees, temperature, tool_millis};
use crate::speed::{
    duty_of, lemma_duty_monotonic, lemma_pin_duty_monotonic, pin_duty, pin_duty_of, pwm,
};
use bytes::BytesMut;
use vstd::prelude::*;

verus! {

/// The pin duty for a temperature of `degrees` whole degrees.
pub open spec fn pin_duty_for_degrees(degrees: int) -> int {
    pin_duty_of(duty_of(degrees * 1000))
}

/// The pin duty that the filesystem sensor's content calls for, or the
/// parse error where the content is malformed.
pub open spec fn duty_for_content(content: Seq<u8>) -> Result<u8, MonitorError> {
    match sensor_degrees(content) {
        Some(d) => Ok(pin_duty_for_degrees(d) as u8),
        None => Err(MonitorError::Parse),
    }
}

/// A warmer whole-degree reading never gets a lower pin duty.
pub proof fn lemma_pin_duty_for_degrees_monotonic(a: int, b: int)
    requires
        a <= b,
    ensures
        pin_duty_for_degrees(a) <= pin_duty_for_degrees(b),
{
    lemma_duty_monotonic(a * 1000, b * 1000);
    lemma_pin_duty_monotonic(duty_of(a * 1000), duty_of(b * 1000));
}

/// A temperature monitor driving a local fan.
pub struct Monitor {
    poll_delay: u64,
    fan: Fan,
}

impl Monitor {
    /// The seconds to wait after each cycle.
    pub closed spec fn spec_poll_delay(&self) -> u64 {
        self.poll_delay
    }

    /// The pin of the fan.
    pub closed spec fn spec_pin(&self) -> u8 {
        self.fan.spec_pin()
    }

    /// Makes a monitor of the fan on `pin` that waits `delay` seconds after
    /// each cycle. The hardware is initialised through `guard` unless that
    /// has run already.
    pub fn builder<D: PwmDriver>(hw: &mut Hardware<D>, guard: &mut InitGuard, pin: u8, delay: u64) -> (r:
        Result<Monitor, MonitorError>)
        ensures
            construction_logged(
                old(hw).calls(),
                final(hw).calls(),
                old(guard)@,
                final(guard)@,
                pin,
            ),
            old(guard)@ != InitState::Pending ==> *final(guard) == *old(guard),
            construction_succeeds(final(hw).calls(), final(guard)@) ==> (r matches Ok(m)
                && m.spec_pin() == pin && m.spec_poll_delay() == delay),
            !construction_succeeds(final(hw).calls(), final(guard)@) ==> r == Err::<
                Monitor,
                MonitorError,
            >(MonitorError::Config),
    {
        match Fan::new(hw, guard, pin) {
            Ok(fan) => Ok(Monitor { poll_delay: delay, fan }),
            Err(e) => Err(e),
        }
    }

    pub fn poll_delay(&self) -> (r: u64)
        ensures
            r == self.spec_poll_delay(),
    {
        self.poll_delay
    }

    pub fn pin(&self) -> (r: u8)
        ensures
            r == self.spec_pin(),
    {
        self.fan.pin()
    }

    /// The pin duty that the filesystem sensor's content calls for.
    pub fn duty_for(content: &[u8]) -> (r: Result<u8, MonitorError>)
        ensures
            r == duty_for_content(content@),
    {
        match get_temp(content) {
            Ok(degrees) => {
                let milli = degrees * 1000;
                Ok(pin_duty(pwm(milli)))
            },
            Err(e) => Err(e),
        }
    }

    /// One cycle: reads the temperature from the filesystem sensor's
    /// content and sets the fan's duty for it.
    pub fn poll<D: PwmDriver>(&mut self, hw: &mut Hardware<D>, content: &[u8]) -> (r: Result<
        (),
        MonitorError,
    >)
        ensures
            *final(self) == *old(self),
            sensor_degrees(content@) is None ==> final(hw).calls() == old(hw).calls()
                && r == Err::<(), MonitorError>(MonitorError::Parse),
            sensor_degrees(content@) matches Some(d) ==> final(hw).calls() == old(
                hw,
            ).calls().push(
                HwCall::SetDuty(
                    old(self).spec_pin() as u32,
                    pin_duty_for_degrees(d) as u32,
                    status_of(final(hw).calls().last()),
                ),
            ) && r == Fan::duty_outcome_spec(status_of(final(hw).calls().last())),
    {
        let duty = match Monitor::duty_for(content) {
            Ok(d) => d,
            Err(e) => {
                return Err(e);
            },
        };
        self.fan.up(hw, duty)
    }
}

/// The packet for the remote fan controller that the reporting tool's
/// output calls for.
pub fn report_packet(out: &[u8]) -> (packet: BytesMut)
    ensures
        packet_bytes(packet) == packet_of(duty_of(tool_millis(out@)) as u16),
{
    encoder(pwm(temperature(out)))
}

} // verus!
