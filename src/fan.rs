//! The locally attached fan, driven through a hardware PWM pin.
//!
//! The hardware library is reached through [`PwmDriver`], wrapped in a
//! [`Hardware`] that logs every call made on it. Its global initialisation must run
//! at most once per process, however many fans are made: an [`InitGuard`],
//! shared by every construction, records whether it has run and how it went.

use crate::error::MonitorError;
use vstd::prelude::*;

verus! {

/// The pin mode that makes a pin an output.
pub const OUTPUT_MODE: u32 = 1;

/// A call made on the hardware library, with the status code it returned.
pub enum HwCall {
    Initialise(i32),
    SetMode(u32, u32, i32),
    SetDuty(u32, u32, i32),
}

/// The status code a logged call returned.
pub open spec fn status_of(c: HwCall) -> i32 {
    match c {
        HwCall::Initialise(st) => st,
        HwCall::SetMode(_, _, st) => st,
        HwCall::SetDuty(_, _, st) => st,
    }
}

/// The number of initialisation calls in a log.
pub open spec fn init_calls(log: Seq<HwCall>) -> nat
    decreases log.len(),
{
    if log.len() == 0 {
        0
    } else {
        init_calls(log.drop_last()) + if log.last() is Initialise {
            1nat
        } else {
            0nat
        }
    }
}

/// The three calls of a hardware PWM library. Each returns the library's
/// status code: negative (for `initialise`) or nonzero (for the others) on
/// failure.
pub trait PwmDriver {
    /// Initialises the library; the process needs this once.
    fn initialise(&mut self) -> i32;

    /// Sets the mode of `pin`.
    fn set_mode(&mut self, pin: u32, mode: u32) -> i32;

    /// Sets the PWM duty of `pin`, 0 (off) to 255 (fully on).
    fn set_duty(&mut self, pin: u32, duty: u32) -> i32;
}

/// A hardware driver together with the log of every call made on it
/// through this value. The driver is reached only through the methods
/// below, each of which makes one call and logs it.
pub struct Hardware<D: PwmDriver> {
    driver: D,
    log: Ghost<Seq<HwCall>>,
}

impl<D: PwmDriver> Hardware<D> {
    /// The calls made so far, oldest first.
    pub closed spec fn calls(&self) -> Seq<HwCall> {
        self.log@
    }

    /// Takes `driver`, with no calls logged yet.
    pub fn new(driver: D) -> (r: Hardware<D>)
        ensures
            r.calls() == Seq::<HwCall>::empty(),
    {
        Hardware { driver, log: Ghost(Seq::empty()) }
    }

    /// The hw, to read.
    pub fn driver(&self) -> (r: &D) {
        &self.driver
    }

    /// Gives the driver back.
    pub fn into_driver(self) -> (r: D) {
        self.driver
    }

    /// Initialises the library.
    pub fn initialise(&mut self) -> (st: i32)
        ensures
            final(self).calls() == old(self).calls().push(HwCall::Initialise(st)),
    {
        let st = self.driver.initialise();
        self.log = Ghost(self.log@.push(HwCall::Initialise(st)));
        st
    }

    /// Sets the mode of `pin`.
    pub fn set_mode(&mut self, pin: u32, mode: u32) -> (st: i32)
        ensures
            final(self).calls() == old(self).calls().push(HwCall::SetMode(pin, mode, st)),
    {
        let st = self.driver.set_mode(pin, mode);
        self.log = Ghost(self.log@.push(HwCall::SetMode(pin, mode, st)));
        st
    }

    /// Sets the PWM duty of `pin`.
    pub fn set_duty(&mut self, pin: u32, duty: u32) -> (st: i32)
        ensures
            final(self).calls() == old(self).calls().push(HwCall::SetDuty(pin, duty, st)),
    {
        let st = self.driver.set_duty(pin, duty);
        self.log = Ghost(self.log@.push(HwCall::SetDuty(pin, duty, st)));
        st
    }
}

/// How far the hardware's one-time initialisation has gone.
#[derive(Debug, Clone, Copy, PartialEq, Eq, Structural)]
pub enum InitState {
    /// Not yet run.
    Pending,
    /// Ran and succeeded.
    Ready,
    /// Ran and failed; it is not run again.
    Failed,
}

/// The state that an initialisation status code leads to.
pub open spec fn init_state_after(status: i32) -> InitState {
    if status < 0 {
        InitState::Failed
    } else {
        InitState::Ready
    }
}

/// The log after setting up the hardware from a guard in state `g`, where
/// `after` is the log at the end: one initialisation call appended when the
/// guard was pending, nothing otherwise.
pub open spec fn log_after_setup(before: Seq<HwCall>, after: Seq<HwCall>, g: InitState) -> Seq<
    HwCall,
> {
    if g == InitState::Pending {
        before.push(HwCall::Initialise(status_of(after[before.len() as int])))
    } else {
        before
    }
}

/// The guard's state after setting up the hardware from state `g`.
pub open spec fn state_after_setup(before: Seq<HwCall>, after: Seq<HwCall>, g: InitState) -> InitState {
    if g == InitState::Pending {
        init_state_after(status_of(after[before.len() as int]))
    } else {
        g
    }
}

pub proof fn lemma_init_calls_push(log: Seq<HwCall>, c: HwCall)
    ensures
        init_calls(log.push(c)) == init_calls(log) + if c is Initialise {
            1nat
        } else {
            0nat
        },
{
    assert(log.push(c).drop_last() =~= log);
}

/// What making a fan on `pin` does to the hardware log and the guard,
/// from log `log0` and guard state `g0` to `log1` and `g1`: the guard's
/// setup runs (one initialisation call, only if it was pending), then, only
/// if the hardware is ready, one call that makes the pin an output.
pub open spec fn construction_logged(
    log0: Seq<HwCall>,
    log1: Seq<HwCall>,
    g0: InitState,
    g1: InitState,
    pin: u8,
) -> bool {
    let mid = log_after_setup(log0, log1, g0);
    &&& g1 == state_after_setup(log0, log1, g0)
    &&& init_calls(log1) == init_calls(log0) + if g0 == InitState::Pending {
        1nat
    } else {
        0nat
    }
    &&& g1 != InitState::Ready ==> log1 == mid
    &&& g1 == InitState::Ready ==> log1 == mid.push(
        HwCall::SetMode(pin as u32, OUTPUT_MODE, status_of(log1.last())),
    )
}

/// Whether making a fan succeeded: the hardware is ready and took the pin's
/// mode.
pub open spec fn construction_succeeds(log1: Seq<HwCall>, g1: InitState) -> bool {
    g1 == InitState::Ready && status_of(log1.last()) == 0
}

/// Records whether the hardware's one-time initialisation has run.
pub struct InitGuard {
    state: InitState,
}

impl View for InitGuard {
    type V = InitState;

    closed spec fn view(&self) -> InitState {
        self.state
    }
}

impl InitGuard {
    /// A guard before any initialisation.
    pub fn new() -> (g: InitGuard)
        ensures
            g@ == InitState::Pending,
    {
        InitGuard { state: InitState::Pending }
    }

    pub fn state(&self) -> (r: InitState)
        ensures
            r == self@,
    {
        self.state
    }

    /// The state that an initialisation status code leads to.
    pub fn after_status(status: i32) -> (r: InitState)
        ensures
            r == init_state_after(status),
    {
        if status < 0 {
            InitState::Failed
        } else {
            InitState::Ready
        }
    }

    /// Runs the hardware's initialisation unless it has run already, and
    /// tells whether the hardware is ready.
    pub fn setup<D: PwmDriver>(&mut self, hw: &mut Hardware<D>) -> (r: Result<(), MonitorError>)
        ensures
            final(hw).calls() == log_after_setup(
                old(hw).calls(),
                final(hw).calls(),
                old(self)@,
            ),
            final(self)@ == state_after_setup(
                old(hw).calls(),
                final(hw).calls(),
                old(self)@,
            ),
            init_calls(final(hw).calls()) == init_calls(old(hw).calls()) + if old(self)@
                == InitState::Pending {
                1nat
            } else {
                0nat
            },
            r == (if final(self)@ == InitState::Ready {
                Ok::<(), MonitorError>(())
            } else {
                Err::<(), MonitorError>(MonitorError::Config)
            }),
    {
        if self.state == InitState::Pending {
            let status = hw.initialise();
            proof {
                lemma_init_calls_push(old(hw).calls(), HwCall::Initialise(status));
            }
            self.state = InitGuard::after_status(status);
        }
        if self.state == InitState::Ready {
            Ok(())
        } else {
            Err(MonitorError::Config)
        }
    }
}

/// A fan on a hardware PWM pin.
pub struct Fan {
    pin: u8,
}

impl Fan {
    /// The pin that drives the fan.
    pub closed spec fn spec_pin(&self) -> u8 {
        self.pin
    }

    pub fn pin(&self) -> (r: u8)
        ensures
            r == self.spec_pin(),
    {
        self.pin
    }

    /// The fan on `pin`, given the status with which the hardware took the
    /// pin's mode: any nonzero status is a configuration error.
    pub fn configured(pin: u8, status: i32) -> (r: Result<Fan, MonitorError>)
        ensures
            status == 0 ==> (r matches Ok(f) && f.spec_pin() == pin),
            status != 0 ==> r == Err::<Fan, MonitorError>(MonitorError::Config),
    {
        if status != 0 {
            Err(MonitorError::Config)
        } else {
            Ok(Fan { pin })
        }
    }

    /// Makes the fan on `pin`: initialises the hardware through `guard`
    /// unless that has run already, then, if the hardware is ready, makes
    /// the pin a PWM output.
    pub fn new<D: PwmDriver>(hw: &mut Hardware<D>, guard: &mut InitGuard, pin: u8) -> (r: Result<
        Fan,
        MonitorError,
    >)
        ensures
            construction_logged(
                old(hw).calls(),
                final(hw).calls(),
                old(guard)@,
                final(guard)@,
                pin,
            ),
            old(guard)@ != InitState::Pending ==> *final(guard) == *old(guard),
            construction_succeeds(final(hw).calls(), final(guard)@) ==> (r matches Ok(f)
                && f.spec_pin() == pin),
            !construction_succeeds(final(hw).calls(), final(guard)@) ==> r == Err::<
                Fan,
                MonitorError,
            >(MonitorError::Config),
    {
        let ghost log0 = hw.calls();
        match guard.setup(hw) {
            Ok(()) => {},
            Err(e) => {
                return Err(e);
            },
        }
        let ghost mid = hw.calls();
        let status = hw.set_mode(pin as u32, OUTPUT_MODE);
        proof {
            lemma_init_calls_push(mid, HwCall::SetMode(pin as u32, OUTPUT_MODE, status));
            if old(guard)@ == InitState::Pending {
                assert(mid[log0.len() as int] == hw.calls()[log0.len() as int]);
            }
        }
        Fan::configured(pin, status)
    }

    /// The outcome of setting a duty, given the hardware's status code: any
    /// nonzero status is an actuation error.
    pub fn duty_outcome(status: i32) -> (r: Result<(), MonitorError>)
        ensures
            r == Fan::duty_outcome_spec(status),
    {
        if status != 0 {
            Err(MonitorError::Actuation)
        } else {
            Ok(())
        }
    }

    /// Sets the fan's PWM duty, 0 (off) to 255 (fully on): one duty call on
    /// the fan's pin and nothing else.
    pub fn up<D: PwmDriver>(&mut self, hw: &mut Hardware<D>, value: u8) -> (r: Result<(), MonitorError>)
        ensures
            *final(self) == *old(self),
            final(hw).calls() == old(hw).calls().push(
                HwCall::SetDuty(
                    old(self).spec_pin() as u32,
                    value as u32,
                    status_of(final(hw).calls().last()),
                ),
            ),
            r == Fan::duty_outcome_spec(status_of(final(hw).calls().last())),
    {
        let status = hw.set_duty(self.pin as u32, value as u32);
        Fan::duty_outcome(status)
    }

    /// The outcome of setting a duty, given the hardware's status code.
    pub open spec fn duty_outcome_spec(status: i32) -> Result<(), MonitorError> {
        if status == 0 {
            Ok(())
        } else {
            Err(MonitorError::Actuation)
        }
    }
}

} // verus!
