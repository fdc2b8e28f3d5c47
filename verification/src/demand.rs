//! Duties that can be written to the fans.

use vstd::prelude::*;

verus! {

/// Why a raw percentage could not become a demand.
#[derive(Debug, Clone, Copy, PartialEq, Eq, Structural)]
pub enum DemandPercentError {
    /// The value was NaN or infinite.
    NonFinite,
    /// The value was outside the inclusive range `0..=100`.
    OutOfRange,
}

/// Why a raw number could not become a temperature.
#[derive(Debug, Clone, Copy, PartialEq, Eq, Structural)]
pub enum TemperatureError {
    NonFinite,
}

/// Standard 8-bit PWM output value.
#[derive(Debug, Clone, Copy, PartialEq, Eq, PartialOrd, Ord, Structural)]
pub struct Pwm(u8);

impl Pwm {
    /// The value in the inclusive range `0..=255`.
    pub closed spec fn duty(self) -> u8 {
        self.0
    }

    pub fn new(value: u8) -> (pwm: Pwm)
        ensures
            pwm.duty() == value,
    {
        Pwm(value)
    }

    /// The full duty.
    pub fn maximum() -> (pwm: Pwm)
        ensures
            pwm.duty() == 255,
    {
        Pwm(255)
    }

    /// Returns the PWM value in the inclusive range `0..=255`.
    pub fn value(self) -> (value: u8)
        ensures
            value == self.duty(),
    {
        self.0
    }

    /// The least duty that meets a demand of `numerator / denominator` percent.
    pub fn from_demand(numerator: u32, denominator: u32) -> (pwm: Pwm)
        requires
            0 < denominator,
            numerator <= 100 * denominator,
        ensures
            pwm.duty() * 100 * denominator >= numerator * 255,
            pwm.duty() > 0 ==> (pwm.duty() - 1) * 100 * denominator < numerator * 255,
    {
        let scaled: u64 = numerator as u64 * 255;
        let full: u64 = 100 * denominator as u64;
        let quotient: u64 = scaled / full;
        let rest: u64 = scaled % full;
        proof {
            vstd::arithmetic::div_mod::lemma_fundamental_div_mod(scaled as int, full as int);
            assert(quotient <= 255) by (nonlinear_arith)
                requires
                    scaled == full * quotient + rest,
                    scaled <= full * 255,
                    full > 0,
                    rest >= 0,
            ;
            assert(rest > 0 ==> quotient < 255) by (nonlinear_arith)
                requires
                    scaled == full * quotient + rest,
                    scaled <= full * 255,
                    full > 0,
                    rest >= 0,
            ;
        }
        let value: u64 = if rest > 0 {
            quotient + 1
        } else {
            quotient
        };
        proof {
            let v = value as int;
            let d = denominator as int;
            let f = full as int;
            assert(f == 100 * d);
            assert(v * 100 * d == v * f) by (nonlinear_arith)
                requires
                    f == 100 * d,
            ;
            assert((v - 1) * 100 * d == (v - 1) * f) by (nonlinear_arith)
                requires
                    f == 100 * d,
            ;
            assert(v * f >= scaled && (v - 1) * f < scaled) by (nonlinear_arith)
                requires
                    scaled == f * quotient + rest,
                    0 <= rest < f,
                    v == if rest > 0 {
                        quotient + 1
                    } else {
                        quotient as int
                    },
            ;
        }
        Pwm(value as u8)
    }
}

/// A greater demand never gives a smaller duty.
pub proof fn duty_follows_demand(low: Pwm, high: Pwm, low_demand: int, high_demand: int, whole: int)
    requires
        0 < whole,
        low_demand <= high_demand,
        low.duty() > 0 ==> (low.duty() - 1) * 100 * whole < low_demand * 255,
        high.duty() * 100 * whole >= high_demand * 255,
    ensures
        low.duty() <= high.duty(),
{
    let l = low.duty() as int;
    let h = high.duty() as int;
    if l > h {
        assert((l - 1) * 100 * whole >= h * 100 * whole) by (nonlinear_arith)
            requires
                l - 1 >= h,
                whole > 0,
        ;
    }
}

/// The duties of both fans.
#[derive(Debug, Clone, Copy, PartialEq, Eq, Structural)]
pub struct FanOutputs {
    pub cpu: Pwm,
    pub gpu: Pwm,
}

impl FanOutputs {
    /// Both fans at full duty.
    pub fn maximum() -> (outputs: FanOutputs)
        ensures
            outputs.cpu.duty() == 255,
            outputs.gpu.duty() == 255,
    {
        FanOutputs { cpu: Pwm::maximum(), gpu: Pwm::maximum() }
    }

    pub fn cpu_pwm(self) -> (pwm: Pwm)
        ensures
            pwm == self.cpu,
    {
        self.cpu
    }

    pub fn gpu_pwm(self) -> (pwm: Pwm)
        ensures
            pwm == self.gpu,
    {
        self.gpu
    }
}

} // verus!
