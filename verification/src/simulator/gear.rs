//! The state machine of simulated control gear: levels and fades, the
//! command set of IEC 62386-102, addressing and initialisation.
//!
//! Times are microseconds on the simulation clock.
use vstd::prelude::*;
use crate::cmd_defs;
use crate::driver::DaliBusEventType;
use crate::status;
use crate::device_type;
use crate::send_flags::{Flags, spec_bits, spec_or, SEND_TWICE_BIT};
use crate::bits::lemma_u8_parts;
use crate::random::random_up_to;
use crate::simulator::sim_bus::DaliSimBusEvent;
use crate::simulator::timing::{FRAME_8_DURATION_US, REPLY_DELAY_US};

verus! {

/// Answer byte for "yes", and the value of an unset level or address.
pub const MASK: u8 = 0xff;
/// Levels are kept scaled by 128 (`1 << LEVEL_HIRES_SHIFT`).
pub const LEVEL_HIRES_SHIFT: u32 = 7;
pub const LEVEL_HIRES_SCALE: i16 = 128;
/// The fade slope is a fixed point number scaled by `1 << FADE_SLOPE_SHIFT`.
pub const FADE_SLOPE_SHIFT: u32 = 29;
/// Initialisation ends this long after it was enabled (15 minutes).
pub const INIT_TIMEOUT_US: u64 = 900_000_000;
/// Light source type reported for the simulated gear (LED).
pub const LIGHT_SOURCE_LED: u8 = 6;

#[derive(Debug, Clone, Copy, PartialEq, Eq, Structural)]
#[allow(non_camel_case_types)]
pub enum InitialisationState {
    ENABLED,
    DISABLED,
    WITHDRAWN,
}

#[derive(Debug, Clone, Copy, PartialEq, Eq, Structural)]
#[allow(non_camel_case_types)]
pub enum WriteEnableState {
    ENABLED,
    DISABLED,
}

/// The variables of one control gear.
pub struct GearState {
    pub name: String,
    pub powered: bool,
    /// Level the gear is at, or fades to, scaled by 128.
    pub target_level: i16,
    pub last_active_level: u8,
    pub last_light_level: u8,
    pub power_on_level: u8,
    pub system_failure_level: u8,
    pub min_level: u8,
    pub max_level: u8,
    /// bit 0-3: fade rate, bit 4-7: fade time
    pub fade: u8,
    /// bit 0-3: base, bit 4-6: multiplier
    pub extended_fade_time: u8,
    pub short_address: u8,
    pub search_address: u32,
    pub random_address: u32,
    pub operating_mode: u8,
    pub initialisation_state: InitialisationState,
    pub write_enable_state: WriteEnableState,
    /// bit 0 gear failure, 1 lamp failure, 2 lamp on, 3 limit error,
    /// 4 fade running, 5 reset state, 6 no short address, 7 power cycle seen
    pub status: u8,
    pub gear_groups: u16,
    pub scenes: [u8; 16],
    pub dtr0: u8,
    pub dtr1: u8,
    pub dtr2: u8,
    pub physical_minimum_level: u8,
    /// Slope of the level towards `target_level`, per millisecond, scaled by `1 << 29`.
    pub fade_slope: i32,
    pub fade_end_time: u64,
    pub init_end_time: u64,
    /// Time at which timers and fades are evaluated.
    pub current_time: u64,
}

/// Truncating integer division, as `/` on signed machine integers.
pub open spec fn trunc_div(a: int, b: int) -> int {
    if a >= 0 {
        a / b
    } else {
        -((-a) / b)
    }
}

/// `s` is gear as it leaves the factory, named `name`, with random address
/// `random_address`, at time `now`.
pub open spec fn is_new_gear(s: GearState, name: String, random_address: u32, now: u64) -> bool {
    &&& s.name == name
    &&& s.powered
    &&& s.target_level == 0xfe * 128
    &&& s.last_active_level == 0xfe
    &&& s.last_light_level == 0xfe
    &&& s.power_on_level == 0xfe
    &&& s.system_failure_level == 0xfe
    &&& s.min_level == 1
    &&& s.max_level == 0xfe
    &&& s.fade == 0x07
    &&& s.extended_fade_time == 0
    &&& s.short_address == MASK
    &&& s.search_address == 0xffffff
    &&& s.random_address == random_address
    &&& s.operating_mode == 0
    &&& s.initialisation_state == InitialisationState::DISABLED
    &&& s.write_enable_state == WriteEnableState::DISABLED
    &&& s.status == 0
    &&& s.gear_groups == 0
    &&& forall|i: int| 0 <= i < 16 ==> s.scenes[i] == MASK
    &&& s.dtr0 == 0 && s.dtr1 == 0 && s.dtr2 == 0
    &&& s.physical_minimum_level == 1
    &&& s.fade_slope == 0
    &&& s.fade_end_time == now
    &&& s.init_end_time == now + INIT_TIMEOUT_US
    &&& s.current_time == now
}

impl GearState {
    /// A fade is running and has not reached its end at `t`.
    pub open spec fn fade_active_at(self, t: u64) -> bool {
        self.status & status::FADE_RUNNING != 0 && t <= self.fade_end_time
    }

    /// Whole milliseconds from `t` to the end of the fade.
    pub open spec fn millis_left(self, t: u64) -> int {
        (self.fade_end_time - t) / 1000
    }

    /// The distance still to fade at `t`, scaled by `1 << 29`.
    pub open spec fn fade_remaining(self, t: u64) -> int {
        self.fade_slope as int * self.millis_left(t)
    }

    /// The level at `t`, scaled by 128, as the machine computes it.
    pub open spec fn spec_hires_at(self, t: u64) -> int {
        if self.fade_active_at(t) {
            self.target_level as int - ((((self.fade_remaining(t) + 0x200000) as i64) >> 22u32) as int)
        } else {
            self.target_level as int
        }
    }

    /// The level at `t` can be computed: no step overflows and the result
    /// fits in 16 bits.
    pub open spec fn hires_ok(self, t: u64) -> bool {
        self.fade_active_at(t) ==> {
            &&& i64::MIN <= self.fade_remaining(t) <= i64::MAX - 0x200000
            &&& i16::MIN <= self.spec_hires_at(t) <= i16::MAX
        }
    }

    /// The 8-bit level at `t` can be computed.
    pub open spec fn level_ok(self, t: u64) -> bool {
        self.hires_ok(t) && self.spec_hires_at(t) + 64 <= i16::MAX
    }

    /// The 8-bit level at `t`: the scaled level rounded.
    pub open spec fn spec_level_at(self, t: u64) -> u8 {
        ((((self.spec_hires_at(t) + 64) as i16) >> 7u32) as u8)
    }

    pub open spec fn spec_level(self) -> u8 {
        self.spec_level_at(self.current_time)
    }

    /// Gear as it leaves the factory, at time `now`.
    pub fn new(name: String, random_address: u32, now: u64) -> (s: GearState)
        requires
            now <= u64::MAX - INIT_TIMEOUT_US,
        ensures
            is_new_gear(s, name, random_address, now),
    {
        let phm: u8 = 0x01;
        GearState {
            name,
            powered: true,
            target_level: 0xfe * LEVEL_HIRES_SCALE,
            last_active_level: 0xfe,
            last_light_level: 0xfe,
            power_on_level: 0xfe,
            system_failure_level: 0xfe,
            min_level: phm,
            max_level: 0xfe,
            fade: 0x07,
            extended_fade_time: 0x00,
            short_address: MASK,
            search_address: 0xffffff,
            random_address,
            operating_mode: 0,
            initialisation_state: InitialisationState::DISABLED,
            write_enable_state: WriteEnableState::DISABLED,
            status: 0x00,
            gear_groups: 0x0000,
            scenes: [MASK; 16],
            dtr0: 0,
            dtr1: 0,
            dtr2: 0,
            physical_minimum_level: phm,
            fade_slope: 0,
            fade_end_time: now,
            init_end_time: now + INIT_TIMEOUT_US,
            current_time: now,
        }
    }

    /// The level at `time`, scaled by 128. Rounding can make it slightly
    /// negative.
    pub fn actual_level_hires_at(&self, time: u64) -> (l: i16)
        requires
            self.hires_ok(time),
        ensures
            l as int == self.spec_hires_at(time),
    {
        if self.status & status::FADE_RUNNING != 0 {
            if time > self.fade_end_time {
                self.target_level
            } else {
                let millis_left = ((self.fade_end_time - time) / 1000) as i64;
                let remaining = (self.fade_slope as i64) * millis_left;
                let offset = (remaining + 0x200000) >> 22u32;
                (self.target_level as i64 - offset) as i16
            }
        } else {
            self.target_level
        }
    }

    /// The 8-bit level at `time`.
    pub fn actual_level_at(&self, time: u64) -> (l: u8)
        requires
            self.level_ok(time),
        ensures
            l == self.spec_level_at(time),
    {
        ((self.actual_level_hires_at(time) + 64) >> 7u32) as u8
    }

    /// The 8-bit level now.
    pub fn actual_level(&self) -> (l: u8)
        requires
            self.level_ok(self.current_time),
        ensures
            l == self.spec_level(),
    {
        self.actual_level_at(self.current_time)
    }

    /// Immediately change actual and target level, ending any fade.
    pub fn set_actual_level(&mut self, level: u8)
        ensures
            final(self).status == old(self).status & !status::FADE_RUNNING,
            final(self).target_level == level as int * 128,
            (GearState { status: old(self).status, target_level: old(self).target_level, ..*final(self) }) == *old(self),
    {
        self.status = self.status & !status::FADE_RUNNING;
        self.target_level = (level as i16) * LEVEL_HIRES_SCALE;
    }
}

/// `after` is `dev` after RESET: variables back to their reset values;
/// addresses, physical minimum and the gear's identity stay.
pub open spec fn spec_is_reset(dev: GearState, after: GearState) -> bool {
    &&& after.target_level == 0xfe * 128
    &&& after.last_active_level == 0xfe
    &&& after.last_light_level == 0xfe
    &&& after.power_on_level == 0xfe
    &&& after.system_failure_level == 0xfe
    &&& after.min_level == dev.physical_minimum_level
    &&& after.max_level == 0xfe
    &&& after.fade == 0x07
    &&& after.extended_fade_time == 0
    &&& after.search_address == 0xffffff
    &&& after.random_address == 0xffffff
    &&& after.write_enable_state == WriteEnableState::DISABLED
    &&& after.status == (dev.status & !(status::LIMIT_ERROR | status::FADE_RUNNING
        | status::POWER_CYCLE)) | status::RESET_STATE
    &&& after.gear_groups == 0
    &&& forall|i: int| 0 <= i < 16 ==> after.scenes[i] == MASK
    &&& after.dtr0 == 0 && after.dtr1 == 0 && after.dtr2 == 0
    &&& (GearState {
        target_level: dev.target_level,
        last_active_level: dev.last_active_level,
        last_light_level: dev.last_light_level,
        power_on_level: dev.power_on_level,
        system_failure_level: dev.system_failure_level,
        min_level: dev.min_level,
        max_level: dev.max_level,
        fade: dev.fade,
        extended_fade_time: dev.extended_fade_time,
        search_address: dev.search_address,
        random_address: dev.random_address,
        write_enable_state: dev.write_enable_state,
        status: dev.status,
        gear_groups: dev.gear_groups,
        scenes: dev.scenes,
        dtr0: dev.dtr0,
        dtr1: dev.dtr1,
        dtr2: dev.dtr2,
        ..after
    }) == dev
}

impl GearState {
    /// RESET.
    pub fn reset(&mut self)
        ensures
            spec_is_reset(*old(self), *final(self)),
    {
        self.target_level = 0xfe * LEVEL_HIRES_SCALE;
        self.last_active_level = 0xfe;
        self.last_light_level = 0xfe;
        self.power_on_level = 0xfe;
        self.system_failure_level = 0xfe;
        self.min_level = self.physical_minimum_level;
        self.max_level = 0xfe;
        self.fade = 0x07;
        self.extended_fade_time = 0x00;
        self.search_address = 0xffffff;
        self.random_address = 0xffffff;
        self.write_enable_state = WriteEnableState::DISABLED;
        self.status = self.status & !(status::LIMIT_ERROR | status::FADE_RUNNING
            | status::POWER_CYCLE);
        self.status = self.status | status::RESET_STATE;
        self.gear_groups = 0x0000;
        self.scenes = [MASK; 16];
        self.dtr0 = 0;
        self.dtr1 = 0;
        self.dtr2 = 0;
    }
}

/// Resetting twice is resetting once: a reset gear stays as it is.
pub proof fn lemma_reset_idempotent(dev: GearState, a: GearState, b: GearState)
    requires
        spec_is_reset(dev, a),
        spec_is_reset(a, b),
    ensures
        b == a,
{
    let s = dev.status;
    assert(((((s & !(0x08u8 | 0x10u8 | 0x80u8)) | 0x20u8) & !(0x08u8 | 0x10u8 | 0x80u8)) | 0x20u8)
        == ((s & !(0x08u8 | 0x10u8 | 0x80u8)) | 0x20u8)) by (bit_vector);
    assert(a.scenes@ =~= b.scenes@);
    assert(a.scenes =~= b.scenes);
}

/// The gear after its timers are checked at its current time: initialisation
/// ends when its time is up, and a fade that has reached its end stops.
pub open spec fn spec_timers_checked(dev: GearState) -> GearState {
    GearState {
        initialisation_state: if dev.initialisation_state != InitialisationState::DISABLED
            && dev.init_end_time <= dev.current_time {
            InitialisationState::DISABLED
        } else {
            dev.initialisation_state
        },
        status: if dev.status & status::FADE_RUNNING != 0 && dev.current_time
            >= dev.fade_end_time {
            dev.status & !status::FADE_RUNNING
        } else {
            dev.status
        },
        ..dev
    }
}

/// Checking the timers twice is checking them once.
pub proof fn lemma_timers_checked_idempotent(dev: GearState)
    ensures
        spec_timers_checked(spec_timers_checked(dev)) == spec_timers_checked(dev),
{
    let s = dev.status;
    assert((s & !0x10u8) & 0x10u8 == 0) by (bit_vector);
}

pub fn check_timers(dev: &mut GearState)
    ensures
        *final(dev) == spec_timers_checked(*old(dev)),
{
    let now = dev.current_time;
    if dev.initialisation_state != InitialisationState::DISABLED {
        if dev.init_end_time <= now {
            dev.initialisation_state = InitialisationState::DISABLED;
        }
    }
    if (dev.status & status::FADE_RUNNING) != 0 {
        if now >= dev.fade_end_time {
            dev.status = dev.status & !status::FADE_RUNNING;
        }
    }
}

/// Fade time `n` (1..=15) in milliseconds: 0.5 s times the square root of
/// 2 to the power `n - 1`, rounded.
pub open spec fn spec_fade_time_ms(n: u8) -> u64 {
    if n % 2 == 1 {
        (pow2_u64((n / 2) as nat) * 707) as u64
    } else {
        (pow2_u64((n / 2) as nat) * 500) as u64
    }
}

pub open spec fn pow2_u64(e: nat) -> int
    decreases e,
{
    if e == 0 {
        1
    } else {
        2 * pow2_u64((e - 1) as nat)
    }
}

proof fn lemma_pow2_small(e: nat)
    requires
        e <= 7,
    ensures
        1 <= pow2_u64(e) <= 128,
{
    assert(pow2_u64(0) == 1);
    assert(pow2_u64(1) == 2);
    assert(pow2_u64(2) == 4);
    assert(pow2_u64(3) == 8);
    assert(pow2_u64(4) == 16);
    assert(pow2_u64(5) == 32);
    assert(pow2_u64(6) == 64);
    assert(pow2_u64(7) == 128);
}

/// Fade time number `n` as milliseconds.
pub fn fade_time(n: u8) -> (ms: u64)
    requires
        n <= 15,
    ensures
        ms == spec_fade_time_ms(n),
{
    let n = n as u64;
    let half = n / 2;
    let mut p: u64 = 1;
    let mut i: u64 = 0;
    while i < half
        invariant
            i <= half,
            half <= 7,
            p == pow2_u64(i as nat),
        decreases half - i,
    {
        proof {
            lemma_pow2_small(i as nat);
        }
        p = p * 2;
        i = i + 1;
    }
    proof {
        lemma_pow2_small(half as nat);
    }
    if n % 2 == 1 {
        p * 707
    } else {
        p * 500
    }
}

/// The duration, in microseconds, of basic fade time `n` (0 = no fade).
pub open spec fn spec_basic_fade_us(n: u8) -> u64 {
    if n == 0 {
        0
    } else {
        (spec_fade_time_ms(n) * 1000) as u64
    }
}

/// The multiplier of extended fade time `m`, in microseconds.
pub open spec fn spec_fade_multiplier_us(m: u8) -> u64 {
    if m == 1 {
        100_000
    } else if m == 2 {
        1_000_000
    } else if m == 3 {
        10_000_000
    } else if m == 4 {
        60_000_000
    } else {
        0
    }
}

/// How long a fade takes with the gear's fade settings; `None` when the
/// level changes at once.
pub open spec fn spec_fade_duration(dev: GearState) -> Option<u64> {
    if dev.fade & 0xf0 == 0 {
        if dev.extended_fade_time & 0x70 == 0 || dev.extended_fade_time > 0x4f {
            None
        } else {
            Some(
                (spec_fade_multiplier_us(dev.extended_fade_time >> 4) * ((dev.extended_fade_time
                    & 0x0f) + 1) as u64) as u64,
            )
        }
    } else {
        Some(spec_basic_fade_us(dev.fade >> 4))
    }
}

fn basic_fade_us(n: u8) -> (us: u64)
    requires
        n <= 15,
    ensures
        us == spec_basic_fade_us(n),
{
    if n == 0 {
        0
    } else {
        let ms = fade_time(n);
        proof {
            lemma_pow2_small((n / 2) as nat);
        }
        ms * 1000
    }
}

fn fade_multiplier_us(m: u8) -> (us: u64)
    ensures
        us == spec_fade_multiplier_us(m),
{
    if m == 1 {
        100_000
    } else if m == 2 {
        1_000_000
    } else if m == 3 {
        10_000_000
    } else if m == 4 {
        60_000_000
    } else {
        0
    }
}

/// The level at `now`, scaled by `1 << 29`, that a new fade starts from.
pub open spec fn spec_fade_start_point(dev: GearState, now: u64) -> int {
    if dev.fade_active_at(now) {
        dev.target_level as int * 0x400000 - dev.fade_remaining(now)
    } else {
        dev.target_level as int * 0x400000
    }
}

/// The slope numerator of a fade from the level at `now` to `new_level`
/// over `d` milliseconds, rounded to nearest.
pub open spec fn spec_slope_numerator(dev: GearState, new_level: u8, now: u64, d: int) -> int {
    new_level as int * 0x2000_0000 - spec_fade_start_point(dev, now) + d / 2
}

/// A fade from now to `new_level` over `duration` microseconds can be set
/// up: the duration is at least a millisecond, the end time and every
/// intermediate value fit, and the slope fits in 32 bits.
pub open spec fn start_fade_ok(dev: GearState, new_level: u8, now: u64, duration: u64) -> bool {
    let d = duration as int / 1000;
    &&& d > 0
    &&& now as int + duration as int <= u64::MAX
    &&& dev.fade_active_at(now) ==> i64::MIN <= dev.fade_remaining(now) <= i64::MAX
    &&& i64::MIN <= spec_fade_start_point(dev, now) <= i64::MAX
    &&& i64::MIN <= spec_slope_numerator(dev, new_level, now, d) - d / 2
    &&& spec_slope_numerator(dev, new_level, now, d) <= i64::MAX
    &&& i32::MIN <= trunc_div(spec_slope_numerator(dev, new_level, now, d), d) <= i32::MAX
}

/// `after` is `dev` with a fade started at `now` to `new_level`, ending
/// `duration` microseconds later: the slope is the distance from the level at
/// `now` to the new level per millisecond, rounded.
pub open spec fn spec_start_fade(
    dev: GearState,
    new_level: u8,
    now: u64,
    duration: u64,
    after: GearState,
) -> bool {
    &&& after.fade_slope as int == trunc_div(
        spec_slope_numerator(dev, new_level, now, duration as int / 1000),
        duration as int / 1000,
    )
    &&& after.fade_end_time == now + duration
    &&& after.target_level == new_level as int * 128
    &&& after.status == dev.status | status::FADE_RUNNING
    &&& (GearState {
        fade_slope: dev.fade_slope,
        fade_end_time: dev.fade_end_time,
        target_level: dev.target_level,
        status: dev.status,
        ..after
    }) == dev
}

/// A fade reaches its new level when it ends, and stays there after.
pub proof fn lemma_fade_ends_at_target(
    dev: GearState,
    new_level: u8,
    now: u64,
    duration: u64,
    after: GearState,
    t: u64,
)
    requires
        start_fade_ok(dev, new_level, now, duration),
        spec_start_fade(dev, new_level, now, duration, after),
        now + duration <= t,
    ensures
        after.spec_hires_at(t) == new_level as int * 128,
        after.level_ok(t),
        after.spec_level_at(t) == new_level,
{
    let s = dev.status;
    assert((s | 0x10u8) & 0x10u8 != 0) by (bit_vector);
    assert(((0x200000i64) >> 22u32) == 0i64) by (bit_vector);
    let v = new_level;
    assert(((((v as int * 128 + 64) as i16) >> 7u32) as u8) == v) by (bit_vector);
}

/// Truncating division leaves a remainder smaller than the divisor.
proof fn lemma_trunc_div_remainder(n: int, d: int)
    requires
        d > 0,
    ensures
        -d < n - trunc_div(n, d) * d < d,
{
    if n >= 0 {
        vstd::arithmetic::div_mod::lemma_fundamental_div_mod(n, d);
        assert(0 <= n % d < d);
        assert((n / d) * d == d * (n / d)) by (nonlinear_arith);
    } else {
        vstd::arithmetic::div_mod::lemma_fundamental_div_mod(-n, d);
        assert(0 <= (-n) % d < d);
        assert(((-n) / d) * d == d * ((-n) / d)) by (nonlinear_arith);
        assert(trunc_div(n, d) * d == -(((-n) / d) * d)) by (nonlinear_arith)
            requires
                trunc_div(n, d) == -((-n) / d),
        ;
    }
}

/// A fade starts where the level was: at its start the level can be
/// computed and is within one step (of 1/128 of a level) of the level just
/// before, for fades of up to about 46 minutes (every fade time of the gear
/// is shorter) that start from a level strictly inside the 16-bit range.
pub proof fn lemma_fade_starts_at_level(
    dev: GearState,
    new_level: u8,
    now: u64,
    duration: u64,
    after: GearState,
)
    requires
        start_fade_ok(dev, new_level, now, duration),
        spec_start_fade(dev, new_level, now, duration, after),
        dev.hires_ok(now),
        i16::MIN < dev.spec_hires_at(now) < i16::MAX,
        duration / 1000 <= 2_796_202,
    ensures
        after.hires_ok(now),
        -1 <= after.spec_hires_at(now) - dev.spec_hires_at(now) <= 1,
{
    let d = duration as int / 1000;
    let s = dev.status;
    assert((s | 0x10u8) & 0x10u8 != 0) by (bit_vector);
    assert(after.fade_active_at(now));
    assert(after.millis_left(now) == d);
    let n = spec_slope_numerator(dev, new_level, now, d);
    lemma_trunc_div_remainder(n, d);
    let rem = after.fade_remaining(now);
    let slope = after.fade_slope as int;
    assert(rem == slope * d);
    assert(-0x8000_0000 * 2_796_202 <= slope * d <= 0x8000_0000 * 2_796_202) by (nonlinear_arith)
        requires
            -0x8000_0000 <= slope < 0x8000_0000,
            0 < d <= 2_796_202,
    ;
    let xa = (rem + 0x200000) as i64;
    crate::bits::lemma_i64_shr22(xa);
    if dev.fade_active_at(now) {
        let xb = (dev.fade_remaining(now) + 0x200000) as i64;
        crate::bits::lemma_i64_shr22(xb);
    }
}

/// For a fade to a level not below the level where it starts, the offset
/// below the target shrinks as time goes on and is never negative.
proof fn lemma_fade_up_offsets(
    dev: GearState,
    new_level: u8,
    now: u64,
    duration: u64,
    after: GearState,
    t1: u64,
    t2: u64,
)
    requires
        start_fade_ok(dev, new_level, now, duration),
        spec_start_fade(dev, new_level, now, duration, after),
        dev.hires_ok(now),
        new_level as int * 128 >= dev.spec_hires_at(now),
        now <= t1 <= t2 <= now + duration,
    ensures
        0 <= after.fade_remaining(t2) + 0x200000 <= after.fade_remaining(t1) + 0x200000
            || (0 <= after.fade_remaining(t1) + 0x200000 <= 0x200000 && 0
            <= after.fade_remaining(t2) + 0x200000 <= 0x200000),
{
    let d = duration as int / 1000;
    let n = spec_slope_numerator(dev, new_level, now, d);
    let slope = after.fade_slope as int;
    let end = after.fade_end_time;
    let m1 = after.millis_left(t1);
    let m2 = after.millis_left(t2);
    vstd::arithmetic::div_mod::lemma_div_is_ordered(end - t2, end - t1, 1000);
    vstd::arithmetic::div_mod::lemma_div_is_ordered(end - t1, duration as int, 1000);
    vstd::arithmetic::div_mod::lemma_div_is_ordered(0, end - t2, 1000);
    assert(0 <= m2 <= m1 <= d);
    let start = spec_fade_start_point(dev, now);
    let h0 = dev.spec_hires_at(now);
    if dev.fade_active_at(now) {
        let xb = (dev.fade_remaining(now) + 0x200000) as i64;
        crate::bits::lemma_i64_shr22(xb);
        assert(h0 * 0x400000 >= start - 0x200000);
    } else {
        assert(h0 * 0x400000 == start);
    }
    assert(new_level as int * 0x2000_0000 >= h0 * 0x400000);
    assert(n >= d / 2 - 0x200000);
    if slope >= 0 {
        assert(slope * m2 <= slope * m1) by (nonlinear_arith)
            requires
                slope >= 0,
                m2 <= m1,
        ;
        assert(0 <= slope * m2) by (nonlinear_arith)
            requires
                slope >= 0,
                m2 >= 0,
        ;
    } else {
        assert(n < 0);
        vstd::arithmetic::div_mod::lemma_fundamental_div_mod(-n, d);
        let q = (-n) / d;
        assert(q * d == d * q) by (nonlinear_arith);
        assert(slope == -q);
        assert(slope * d >= n) by (nonlinear_arith)
            requires
                slope == -q,
                q * d <= -n,
        ;
        assert(slope * d <= slope * m1 <= slope * m2 <= 0) by (nonlinear_arith)
            requires
                slope < 0,
                0 <= m2 <= m1 <= d,
        ;
    }
}

/// A fade to a level not below the level where it starts never goes down:
/// from its start on, the level scaled by 128 at a later time is at least
/// the level at an earlier time.
pub proof fn lemma_fade_up_never_goes_down(
    dev: GearState,
    new_level: u8,
    now: u64,
    duration: u64,
    after: GearState,
    t1: u64,
    t2: u64,
)
    requires
        start_fade_ok(dev, new_level, now, duration),
        spec_start_fade(dev, new_level, now, duration, after),
        dev.hires_ok(now),
        new_level as int * 128 >= dev.spec_hires_at(now),
        now <= t1 <= t2,
        after.hires_ok(t1),
        after.hires_ok(t2),
    ensures
        after.spec_hires_at(t1) <= after.spec_hires_at(t2),
{
    let s = dev.status;
    assert((s | 0x10u8) & 0x10u8 != 0) by (bit_vector);
    let end = (now + duration) as u64;
    if t1 <= end {
        let t2c = if t2 <= end { t2 } else { t1 };
        lemma_fade_up_offsets(dev, new_level, now, duration, after, t1, t2c);
        let x1 = (after.fade_remaining(t1) + 0x200000) as i64;
        crate::bits::lemma_i64_shr22(x1);
        if t2 <= end {
            let x2 = (after.fade_remaining(t2) + 0x200000) as i64;
            crate::bits::lemma_i64_shr22(x2);
        }
    }
}

/// The 8-bit level of a fade to a level not below the level where it
/// starts never goes down either, while the scaled level is not below -64
/// (below that the rounded level would wrap around to 255).
pub proof fn lemma_fade_up_level_never_goes_down(
    dev: GearState,
    new_level: u8,
    now: u64,
    duration: u64,
    after: GearState,
    t1: u64,
    t2: u64,
)
    requires
        start_fade_ok(dev, new_level, now, duration),
        spec_start_fade(dev, new_level, now, duration, after),
        dev.hires_ok(now),
        new_level as int * 128 >= dev.spec_hires_at(now),
        now <= t1 <= t2,
        after.level_ok(t1),
        after.level_ok(t2),
        after.spec_hires_at(t1) >= -64,
    ensures
        after.spec_level_at(t1) <= after.spec_level_at(t2),
{
    lemma_fade_up_never_goes_down(dev, new_level, now, duration, after, t1, t2);
    let a = (after.spec_hires_at(t1) + 64) as i16;
    let b = (after.spec_hires_at(t2) + 64) as i16;
    assert(((a >> 7u32) as u8) <= ((b >> 7u32) as u8)) by (bit_vector)
        requires
            0 <= a <= b,
    ;
}

/// A fade up that can be followed in whole levels: the level before it
/// can be computed and lies between -63/128 and the new level, and the fade
/// takes at most about 46 minutes (every fade time of the gear is shorter).
pub open spec fn fade_up_start(dev: GearState, new_level: u8, now: u64, duration: u64) -> bool {
    &&& dev.hires_ok(now)
    &&& -63 <= dev.spec_hires_at(now) <= new_level as int * 128
    &&& duration / 1000 <= 2_796_202
}

/// Between `t1` and `t2` the level of `after` can be computed at both
/// times and does not go down, scaled by 128 nor in whole levels.
pub open spec fn not_down_between(after: GearState, t1: u64, t2: u64) -> bool {
    &&& after.level_ok(t1)
    &&& after.level_ok(t2)
    &&& after.spec_hires_at(t1) <= after.spec_hires_at(t2)
    &&& after.spec_level_at(t1) <= after.spec_level_at(t2)
}

/// During and after a fade up that starts as `fade_up_start` says, the
/// level can be computed and is not below -64/128.
proof fn lemma_fade_up_level_ok(
    dev: GearState,
    new_level: u8,
    now: u64,
    duration: u64,
    after: GearState,
    t: u64,
)
    requires
        start_fade_ok(dev, new_level, now, duration),
        spec_start_fade(dev, new_level, now, duration, after),
        fade_up_start(dev, new_level, now, duration),
        now <= t,
    ensures
        after.level_ok(t),
        after.spec_hires_at(t) >= -64,
{
    let s = dev.status;
    assert((s | 0x10u8) & 0x10u8 != 0) by (bit_vector);
    lemma_fade_starts_at_level(dev, new_level, now, duration, after);
    let end = (now + duration) as u64;
    if t <= end {
        let d = duration as int / 1000;
        let slope = after.fade_slope as int;
        let m = after.millis_left(t);
        vstd::arithmetic::div_mod::lemma_div_is_ordered(end - t, duration as int, 1000);
        vstd::arithmetic::div_mod::lemma_div_is_ordered(0, end - t, 1000);
        assert(-0x8000_0000 * 2_796_202 <= slope * m <= 0x8000_0000 * 2_796_202) by (nonlinear_arith)
            requires
                -0x8000_0000 <= slope < 0x8000_0000,
                0 <= m <= d <= 2_796_202,
        ;
        lemma_fade_up_offsets(dev, new_level, now, duration, after, now, t);
        let x0 = (after.fade_remaining(now) + 0x200000) as i64;
        let x1 = (after.fade_remaining(t) + 0x200000) as i64;
        crate::bits::lemma_i64_shr22(x0);
        crate::bits::lemma_i64_shr22(x1);
    }
}

/// Start a fade from the level at `now` to `new_level`, ending `duration`
/// microseconds later.
/// The fade ends on the new level and stays there. It starts without a
/// jump (within one step of 1/128 of a level) for fades of up to about 46
/// minutes from a level strictly inside the 16-bit range. A fade up as
/// `fade_up_start` says never goes down.
pub fn start_fade(dev: &mut GearState, new_level: u8, now: u64, duration: u64)
    requires
        start_fade_ok(*old(dev), new_level, now, duration),
    ensures
        spec_start_fade(*old(dev), new_level, now, duration, *final(dev)),
        forall|t: u64|
            now + duration <= t ==> #[trigger] final(dev).spec_level_at(t) == new_level
                && final(dev).spec_hires_at(t) == new_level as int * 128 && final(dev).level_ok(t),
        old(dev).hires_ok(now) && i16::MIN < old(dev).spec_hires_at(now) < i16::MAX && duration
            / 1000 <= 2_796_202 ==> final(dev).hires_ok(now) && -1 <= final(dev).spec_hires_at(now)
            - old(dev).spec_hires_at(now) <= 1,
        fade_up_start(*old(dev), new_level, now, duration) ==> forall|t1: u64, t2: u64|
            now <= t1 <= t2 ==> #[trigger] not_down_between(*final(dev), t1, t2),
{
    let ghost before = *dev;
    let start: i64 = if dev.status & status::FADE_RUNNING != 0 {
        if now > dev.fade_end_time {
            (dev.target_level as i64) * 0x400000
        } else {
            let millis_left = ((dev.fade_end_time - now) / 1000) as i64;
            (dev.target_level as i64) * 0x400000 - (dev.fade_slope as i64) * millis_left
        }
    } else {
        (dev.target_level as i64) * 0x400000
    };
    let d = (duration / 1000) as i64;
    let numerator = (new_level as i64) * 0x2000_0000 - start + d / 2;
    let slope = numerator / d;
    dev.fade_slope = slope as i32;
    dev.fade_end_time = now + duration;
    dev.target_level = (new_level as i16) * LEVEL_HIRES_SCALE;
    dev.status = dev.status | status::FADE_RUNNING;
    proof {
        let after = *dev;
        assert forall|t: u64| now + duration <= t implies #[trigger] after.spec_level_at(t)
            == new_level && after.spec_hires_at(t) == new_level as int * 128 && after.level_ok(t) by {
            lemma_fade_ends_at_target(before, new_level, now, duration, after, t);
        }
        if before.hires_ok(now) && i16::MIN < before.spec_hires_at(now) < i16::MAX && duration
            / 1000 <= 2_796_202 {
            lemma_fade_starts_at_level(before, new_level, now, duration, after);
        }
        if fade_up_start(before, new_level, now, duration) {
            assert forall|t1: u64, t2: u64| now <= t1 <= t2 implies #[trigger] not_down_between(
                after,
                t1,
                t2,
            ) by {
                lemma_fade_up_level_ok(before, new_level, now, duration, after, t1);
                lemma_fade_up_level_ok(before, new_level, now, duration, after, t2);
                lemma_fade_up_never_goes_down(before, new_level, now, duration, after, t1, t2);
                lemma_fade_up_level_never_goes_down(before, new_level, now, duration, after, t1, t2);
            }
        }
    }
}

/// End a running fade at the level reached now.
pub fn stop_fade(dev: &mut GearState)
    requires
        old(dev).hires_ok(old(dev).current_time),
    ensures
        old(dev).status & status::FADE_RUNNING != 0 ==> {
            &&& final(dev).target_level as int == old(dev).spec_hires_at(old(dev).current_time)
            &&& final(dev).status == old(dev).status & !status::FADE_RUNNING
            &&& (GearState {
                target_level: old(dev).target_level,
                status: old(dev).status,
                ..*final(dev)
            }) == *old(dev)
        },
        old(dev).status & status::FADE_RUNNING == 0 ==> *final(dev) == *old(dev),
{
    if dev.status & status::FADE_RUNNING != 0 {
        dev.target_level = dev.actual_level_hires_at(dev.current_time);
        dev.status = dev.status & !status::FADE_RUNNING;
    }
}

/// The fade duration of the gear's settings, computed.
pub(crate) fn fade_duration(dev: &GearState) -> (r: Option<u64>)
    ensures
        r == spec_fade_duration(*dev),
{
    proof {
        lemma_u8_parts(dev.fade);
        lemma_u8_parts(dev.extended_fade_time);
    }
    if dev.fade & 0xf0 == 0 {
        if dev.extended_fade_time & 0x70 == 0 || dev.extended_fade_time > 0x4f {
            None
        } else {
            let m = fade_multiplier_us(dev.extended_fade_time >> 4);
            Some(m * ((dev.extended_fade_time & 0x0f) + 1) as u64)
        }
    } else {
        Some(basic_fade_us(dev.fade >> 4))
    }
}

/// Going to `new_level` with the gear's fade settings can be computed.
pub open spec fn start_fade_time_ok(dev: GearState, new_level: u8) -> bool {
    if new_level == MASK {
        dev.hires_ok(dev.current_time)
    } else {
        match spec_fade_duration(dev) {
            None => true,
            Some(d) => start_fade_ok(dev, new_level, dev.current_time, d),
        }
    }
}

/// What going to `new_level` with the gear's fade settings does: MASK stops
/// a fade where it is, no fade time sets the level at once, and otherwise a
/// fade starts now.
pub open spec fn spec_start_fade_time(dev: GearState, new_level: u8, after: GearState) -> bool {
    if new_level == MASK {
        if dev.status & status::FADE_RUNNING != 0 {
            &&& after.target_level as int == dev.spec_hires_at(dev.current_time)
            &&& after.status == dev.status & !status::FADE_RUNNING
            &&& (GearState { target_level: dev.target_level, status: dev.status, ..after }) == dev
        } else {
            after == dev
        }
    } else {
        match spec_fade_duration(dev) {
            None => {
                &&& after.status == dev.status & !status::FADE_RUNNING
                &&& after.target_level == new_level as int * 128
                &&& (GearState { target_level: dev.target_level, status: dev.status, ..after }) == dev
            },
            Some(d) => {
                &&& after.fade_slope as int == trunc_div(
                    spec_slope_numerator(dev, new_level, dev.current_time, d as int / 1000),
                    d as int / 1000,
                )
                &&& after.fade_end_time == dev.current_time + d
                &&& after.target_level == new_level as int * 128
                &&& after.status == dev.status | status::FADE_RUNNING
                &&& (GearState {
                    fade_slope: dev.fade_slope,
                    fade_end_time: dev.fade_end_time,
                    target_level: dev.target_level,
                    status: dev.status,
                    ..after
                }) == dev
            },
        }
    }
}

/// Go to `new_level` using the gear's fade time.
pub fn start_fade_time(dev: &mut GearState, new_level: u8)
    requires
        start_fade_time_ok(*old(dev), new_level),
    ensures
        spec_start_fade_time(*old(dev), new_level, *final(dev)),
{
    if new_level == MASK {
        stop_fade(dev);
        return;
    }
    let now = dev.current_time;
    match fade_duration(dev) {
        None => {
            dev.set_actual_level(new_level);
        },
        Some(d) => {
            start_fade(dev, new_level, now, d);
        },
    }
}

/// `level` limited to the gear's minimum and maximum level.
pub open spec fn spec_clamp_level(dev: GearState, level: u8) -> u8 {
    if level <= dev.min_level {
        dev.min_level
    } else if level >= dev.max_level {
        dev.max_level
    } else {
        level
    }
}

/// Go to `level`, limited to the minimum and maximum level, with the fade time.
pub fn set_target_level(dev: &mut GearState, level: u8)
    requires
        start_fade_time_ok(*old(dev), spec_clamp_level(*old(dev), level)),
    ensures
        spec_start_fade_time(*old(dev), spec_clamp_level(*old(dev), level), *final(dev)),
{
    let new_target = if level <= dev.min_level {
        dev.min_level
    } else if level >= dev.max_level {
        dev.max_level
    } else {
        level
    };
    start_fade_time(dev, new_target);
}

pub open spec fn twice(flags: Flags) -> bool {
    spec_bits(flags) & SEND_TWICE_BIT != 0
}

/// The answer "yes".
pub open spec fn yes() -> Option<DaliBusEventType> {
    Some(DaliBusEventType::Frame8(MASK))
}

pub open spec fn yes_no_reply(p: bool) -> Option<DaliBusEventType> {
    if p {
        yes()
    } else {
        None
    }
}

pub open spec fn flag_reply(dev: GearState, flag: u8) -> Option<DaliBusEventType> {
    yes_no_reply(dev.status & flag != 0)
}

#[allow(non_snake_case)]
fn YES_REPLY() -> (r: Option<DaliBusEventType>)
    ensures
        r == yes(),
{
    Some(DaliBusEventType::Frame8(MASK))
}

fn yes_no(p: bool) -> (r: Option<DaliBusEventType>)
    ensures
        r == yes_no_reply(p),
{
    if p {
        YES_REPLY()
    } else {
        None
    }
}

fn query_status_flag(dev: &GearState, flag: u8) -> (r: Option<DaliBusEventType>)
    ensures
        r == flag_reply(*dev, flag),
{
    yes_no(dev.status & flag != 0)
}

/// Status flags that do not follow from other variables.
pub const STORED_STATUS_FLAGS: u8 = 0xb9;

/// The status byte with "lamp on" and "no short address" taken from the
/// current level and short address.
pub open spec fn spec_updated_status(dev: GearState) -> u8 {
    (dev.status & STORED_STATUS_FLAGS) | (if dev.spec_level() > 0 {
        status::LAMP_ON
    } else {
        0
    }) | (if dev.short_address == MASK {
        status::NO_ADDRESS
    } else {
        0
    })
}

fn update_status(dev: &mut GearState)
    requires
        old(dev).level_ok(old(dev).current_time),
    ensures
        final(dev).status == spec_updated_status(*old(dev)),
        (GearState { status: old(dev).status, ..*final(dev) }) == *old(dev),
{
    let lamp_on = if dev.actual_level() > 0 {
        status::LAMP_ON
    } else {
        0
    };
    let no_address = if dev.short_address == MASK {
        status::NO_ADDRESS
    } else {
        0
    };
    dev.status = (dev.status & STORED_STATUS_FLAGS) | lamp_on | no_address;
}

/// The answer to a query other than QUERY STATUS.
pub open spec fn spec_query_reply(dev: GearState, cmd: u8) -> Option<DaliBusEventType> {
    if cmd == cmd_defs::QUERY_CONTROL_GEAR_PRESENT_OPCODE_BYTE {
        yes()
    } else if cmd == cmd_defs::QUERY_CONTROL_GEAR_FAILURE_OPCODE_BYTE {
        flag_reply(dev, status::GEAR_FAILURE)
    } else if cmd == cmd_defs::QUERY_LAMP_FAILURE_OPCODE_BYTE {
        flag_reply(dev, status::LAMP_FAILURE)
    } else if cmd == cmd_defs::QUERY_LAMP_POWER_ON_OPCODE_BYTE {
        yes_no_reply(dev.spec_level() > 0)
    } else if cmd == cmd_defs::QUERY_LIMIT_ERROR_OPCODE_BYTE {
        flag_reply(dev, status::LIMIT_ERROR)
    } else if cmd == cmd_defs::QUERY_RESET_STATE_OPCODE_BYTE {
        flag_reply(dev, status::RESET_STATE)
    } else if cmd == cmd_defs::QUERY_MISSING_SHORT_ADDRESS_OPCODE_BYTE {
        yes_no_reply(dev.short_address == MASK)
    } else if cmd == cmd_defs::QUERY_VERSION_NUMBER_OPCODE_BYTE {
        Some(DaliBusEventType::Frame8(8))
    } else if cmd == cmd_defs::QUERY_EXTENDED_VERSION_NUMBER_OPCODE_BYTE {
        None
    } else if cmd == cmd_defs::QUERY_DEVICE_TYPE_OPCODE_BYTE {
        Some(DaliBusEventType::Frame8(device_type::LED))
    } else if cmd == cmd_defs::QUERY_NEXT_DEVICE_TYPE_OPCODE_BYTE {
        None
    } else if cmd == cmd_defs::QUERY_PHYSICAL_MINIMUM_OPCODE_BYTE {
        Some(DaliBusEventType::Frame8(dev.physical_minimum_level))
    } else if cmd == cmd_defs::QUERY_POWER_FAILURE_OPCODE_BYTE {
        flag_reply(dev, status::POWER_CYCLE)
    } else if cmd == cmd_defs::QUERY_CONTENT_DTR0_OPCODE_BYTE {
        Some(DaliBusEventType::Frame8(dev.dtr0))
    } else if cmd == cmd_defs::QUERY_CONTENT_DTR1_OPCODE_BYTE {
        Some(DaliBusEventType::Frame8(dev.dtr1))
    } else if cmd == cmd_defs::QUERY_CONTENT_DTR2_OPCODE_BYTE {
        Some(DaliBusEventType::Frame8(dev.dtr2))
    } else if cmd == cmd_defs::QUERY_OPERATING_MODE_OPCODE_BYTE {
        Some(DaliBusEventType::Frame8(0))
    } else if cmd == cmd_defs::QUERY_LIGHT_SOURCE_TYPE_OPCODE_BYTE {
        Some(DaliBusEventType::Frame8(LIGHT_SOURCE_LED))
    } else if cmd == cmd_defs::QUERY_ACTUAL_LEVEL_OPCODE_BYTE {
        Some(DaliBusEventType::Frame8(dev.spec_level()))
    } else if cmd == cmd_defs::QUERY_MAX_LEVEL_OPCODE_BYTE {
        Some(DaliBusEventType::Frame8(dev.max_level))
    } else if cmd == cmd_defs::QUERY_MIN_LEVEL_OPCODE_BYTE {
        Some(DaliBusEventType::Frame8(dev.min_level))
    } else if cmd == cmd_defs::QUERY_POWER_ON_LEVEL_OPCODE_BYTE {
        Some(DaliBusEventType::Frame8(dev.power_on_level))
    } else if cmd == cmd_defs::QUERY_SYSTEM_FAILURE_LEVEL_OPCODE_BYTE {
        Some(DaliBusEventType::Frame8(dev.system_failure_level))
    } else if cmd == cmd_defs::QUERY_FADE_OPCODE_BYTE {
        Some(DaliBusEventType::Frame8(dev.fade))
    } else if cmd == cmd_defs::QUERY_EXTENDED_FADE_TIME_OPCODE_BYTE {
        Some(DaliBusEventType::Frame8(dev.extended_fade_time))
    } else if cmd_defs::QUERY_SCENE_LEVEL_FIRST_OPCODE_BYTE <= cmd && cmd <= cmd_defs::QUERY_SCENE_LEVEL_LAST_OPCODE_BYTE {
        Some(DaliBusEventType::Frame8(dev.scenes[cmd - cmd_defs::QUERY_SCENE_LEVEL_FIRST_OPCODE_BYTE]))
    } else if cmd == cmd_defs::QUERY_GROUPS_0_7_OPCODE_BYTE {
        Some(DaliBusEventType::Frame8((dev.gear_groups & 0xff) as u8))
    } else if cmd == cmd_defs::QUERY_GROUPS_8_15_OPCODE_BYTE {
        Some(DaliBusEventType::Frame8((dev.gear_groups >> 8u16) as u8))
    } else if cmd == cmd_defs::QUERY_RANDOM_ADDRESS_H_OPCODE_BYTE {
        Some(DaliBusEventType::Frame8((dev.random_address >> 16u32) as u8))
    } else if cmd == cmd_defs::QUERY_RANDOM_ADDRESS_M_OPCODE_BYTE {
        Some(DaliBusEventType::Frame8(((dev.random_address >> 8u32) & 0xff) as u8))
    } else if cmd == cmd_defs::QUERY_RANDOM_ADDRESS_L_OPCODE_BYTE {
        Some(DaliBusEventType::Frame8((dev.random_address & 0xff) as u8))
    } else {
        None
    }
}

/// A query needs the current level when it reports it or the status.
pub open spec fn query_ok(dev: GearState, cmd: u8) -> bool {
    (cmd == cmd_defs::QUERY_STATUS_OPCODE_BYTE || cmd == cmd_defs::QUERY_LAMP_POWER_ON_OPCODE_BYTE
        || cmd == cmd_defs::QUERY_ACTUAL_LEVEL_OPCODE_BYTE) ==> dev.level_ok(dev.current_time)
}

pub open spec fn spec_query_cmd(
    dev: GearState,
    cmd: u8,
    after: GearState,
    r: Option<DaliBusEventType>,
) -> bool {
    &&& cmd == cmd_defs::QUERY_STATUS_OPCODE_BYTE ==> {
        &&& after.status == spec_updated_status(dev)
        &&& (GearState { status: dev.status, ..after }) == dev
        &&& r == Some(DaliBusEventType::Frame8(after.status))
    }
    &&& cmd != cmd_defs::QUERY_STATUS_OPCODE_BYTE ==> {
        &&& after == dev
        &&& r == spec_query_reply(dev, cmd)
    }
}

/// Answer a query. QUERY STATUS first brings the status byte up to date.
pub fn query_cmd(dev: &mut GearState, cmd: u8) -> (r: Option<DaliBusEventType>)
    requires
        query_ok(*old(dev), cmd),
    ensures
        spec_query_cmd(*old(dev), cmd, *final(dev), r),
{
    if cmd == cmd_defs::QUERY_STATUS_OPCODE_BYTE {
        update_status(dev);
        return Some(DaliBusEventType::Frame8(dev.status));
    }
    let dev = &*dev;
    if cmd == cmd_defs::QUERY_CONTROL_GEAR_PRESENT_OPCODE_BYTE {
        YES_REPLY()
    } else if cmd == cmd_defs::QUERY_CONTROL_GEAR_FAILURE_OPCODE_BYTE {
        query_status_flag(dev, status::GEAR_FAILURE)
    } else if cmd == cmd_defs::QUERY_LAMP_FAILURE_OPCODE_BYTE {
        query_status_flag(dev, status::LAMP_FAILURE)
    } else if cmd == cmd_defs::QUERY_LAMP_POWER_ON_OPCODE_BYTE {
        yes_no(dev.actual_level() > 0)
    } else if cmd == cmd_defs::QUERY_LIMIT_ERROR_OPCODE_BYTE {
        query_status_flag(dev, status::LIMIT_ERROR)
    } else if cmd == cmd_defs::QUERY_RESET_STATE_OPCODE_BYTE {
        query_status_flag(dev, status::RESET_STATE)
    } else if cmd == cmd_defs::QUERY_MISSING_SHORT_ADDRESS_OPCODE_BYTE {
        yes_no(dev.short_address == MASK)
    } else if cmd == cmd_defs::QUERY_VERSION_NUMBER_OPCODE_BYTE {
        Some(DaliBusEventType::Frame8(8))  // version 2.0
    } else if cmd == cmd_defs::QUERY_EXTENDED_VERSION_NUMBER_OPCODE_BYTE {
        None
    } else if cmd == cmd_defs::QUERY_DEVICE_TYPE_OPCODE_BYTE {
        Some(DaliBusEventType::Frame8(device_type::LED))
    } else if cmd == cmd_defs::QUERY_NEXT_DEVICE_TYPE_OPCODE_BYTE {
        None
    } else if cmd == cmd_defs::QUERY_PHYSICAL_MINIMUM_OPCODE_BYTE {
        Some(DaliBusEventType::Frame8(dev.physical_minimum_level))
    } else if cmd == cmd_defs::QUERY_POWER_FAILURE_OPCODE_BYTE {
        query_status_flag(dev, status::POWER_CYCLE)
    } else if cmd == cmd_defs::QUERY_CONTENT_DTR0_OPCODE_BYTE {
        Some(DaliBusEventType::Frame8(dev.dtr0))
    } else if cmd == cmd_defs::QUERY_CONTENT_DTR1_OPCODE_BYTE {
        Some(DaliBusEventType::Frame8(dev.dtr1))
    } else if cmd == cmd_defs::QUERY_CONTENT_DTR2_OPCODE_BYTE {
        Some(DaliBusEventType::Frame8(dev.dtr2))
    } else if cmd == cmd_defs::QUERY_OPERATING_MODE_OPCODE_BYTE {
        Some(DaliBusEventType::Frame8(0x00))
    } else if cmd == cmd_defs::QUERY_LIGHT_SOURCE_TYPE_OPCODE_BYTE {
        Some(DaliBusEventType::Frame8(LIGHT_SOURCE_LED))
    } else if cmd == cmd_defs::QUERY_ACTUAL_LEVEL_OPCODE_BYTE {
        Some(DaliBusEventType::Frame8(dev.actual_level()))
    } else if cmd == cmd_defs::QUERY_MAX_LEVEL_OPCODE_BYTE {
        Some(DaliBusEventType::Frame8(dev.max_level))
    } else if cmd == cmd_defs::QUERY_MIN_LEVEL_OPCODE_BYTE {
        Some(DaliBusEventType::Frame8(dev.min_level))
    } else if cmd == cmd_defs::QUERY_POWER_ON_LEVEL_OPCODE_BYTE {
        Some(DaliBusEventType::Frame8(dev.power_on_level))
    } else if cmd == cmd_defs::QUERY_SYSTEM_FAILURE_LEVEL_OPCODE_BYTE {
        Some(DaliBusEventType::Frame8(dev.system_failure_level))
    } else if cmd == cmd_defs::QUERY_FADE_OPCODE_BYTE {
        Some(DaliBusEventType::Frame8(dev.fade))
    } else if cmd == cmd_defs::QUERY_EXTENDED_FADE_TIME_OPCODE_BYTE {
        Some(DaliBusEventType::Frame8(dev.extended_fade_time))
    } else if cmd_defs::QUERY_SCENE_LEVEL_FIRST_OPCODE_BYTE <= cmd && cmd <= cmd_defs::QUERY_SCENE_LEVEL_LAST_OPCODE_BYTE {
        Some(DaliBusEventType::Frame8(dev.scenes[(cmd - cmd_defs::QUERY_SCENE_LEVEL_FIRST_OPCODE_BYTE) as usize]))
    } else if cmd == cmd_defs::QUERY_GROUPS_0_7_OPCODE_BYTE {
        Some(DaliBusEventType::Frame8((dev.gear_groups & 0xff) as u8))
    } else if cmd == cmd_defs::QUERY_GROUPS_8_15_OPCODE_BYTE {
        Some(DaliBusEventType::Frame8((dev.gear_groups >> 8u16) as u8))
    } else if cmd == cmd_defs::QUERY_RANDOM_ADDRESS_H_OPCODE_BYTE {
        Some(DaliBusEventType::Frame8((dev.random_address >> 16u32) as u8))
    } else if cmd == cmd_defs::QUERY_RANDOM_ADDRESS_M_OPCODE_BYTE {
        Some(DaliBusEventType::Frame8(((dev.random_address >> 8u32) & 0xff) as u8))
    } else if cmd == cmd_defs::QUERY_RANDOM_ADDRESS_L_OPCODE_BYTE {
        Some(DaliBusEventType::Frame8((dev.random_address & 0xff) as u8))
    } else {
        None
    }
}

/// The level commands that the simulated gear does not implement; they
/// are left out by the preconditions of the commands.
pub open spec fn unimplemented_level_cmd(cmd: u8) -> bool {
    cmd == cmd_defs::UP_OPCODE_BYTE || cmd == cmd_defs::DOWN_OPCODE_BYTE || cmd
        == cmd_defs::STEP_UP_OPCODE_BYTE || cmd == cmd_defs::STEP_DOWN_OPCODE_BYTE || cmd
        == cmd_defs::STEP_DOWN_AND_OFF_OPCODE_BYTE || cmd == cmd_defs::ON_AND_STEP_UP_OPCODE_BYTE
        || cmd == cmd_defs::ENABLE_DAPC_SEQUENCE_OPCODE_BYTE
}

/// The level that a level command goes to, and whether it is limited to
/// the minimum and maximum level.
pub open spec fn level_cmd_target(dev: GearState, cmd: u8) -> Option<u8> {
    if cmd == cmd_defs::OFF_OPCODE_BYTE {
        Some(spec_clamp_level(dev, 0))
    } else if cmd == cmd_defs::RECALL_MAX_LEVEL_OPCODE_BYTE {
        if dev.initialisation_state == InitialisationState::DISABLED {
            Some(dev.max_level)
        } else {
            Some(spec_clamp_level(dev, dev.max_level))
        }
    } else if cmd == cmd_defs::RECALL_MIN_LEVEL_OPCODE_BYTE {
        if dev.initialisation_state == InitialisationState::DISABLED {
            Some(dev.min_level)
        } else {
            Some(spec_clamp_level(dev, dev.min_level))
        }
    } else {
        None
    }
}

pub open spec fn level_cmd_ok(dev: GearState, cmd: u8) -> bool {
    &&& !unimplemented_level_cmd(cmd)
    &&& level_cmd_target(dev, cmd) matches Some(l) ==> start_fade_time_ok(dev, l)
}

pub open spec fn spec_level_cmd(dev: GearState, cmd: u8, after: GearState) -> bool {
    &&& match level_cmd_target(dev, cmd) {
                Some(l) => spec_start_fade_time(dev, l, after),
                None => after == dev,
            }
}

/// OFF, RECALL MAX LEVEL and RECALL MIN LEVEL fade to their level; the
/// other implemented level commands do nothing.
pub fn level_cmd(dev: &mut GearState, cmd: u8, _flags: Flags) -> (r: Option<DaliBusEventType>)
    requires
        level_cmd_ok(*old(dev), cmd),
    ensures
        r is None,
        spec_level_cmd(*old(dev), cmd, *final(dev)),
{
    if cmd == cmd_defs::OFF_OPCODE_BYTE {
        set_target_level(dev, 0);
    } else if cmd == cmd_defs::RECALL_MAX_LEVEL_OPCODE_BYTE {
        if dev.initialisation_state == InitialisationState::DISABLED {
            let l = dev.max_level;
            start_fade_time(dev, l);
        } else {
            let l = dev.max_level;
            set_target_level(dev, l);
        }
    } else if cmd == cmd_defs::RECALL_MIN_LEVEL_OPCODE_BYTE {
        if dev.initialisation_state == InitialisationState::DISABLED {
            let l = dev.min_level;
            start_fade_time(dev, l);
        } else {
            let l = dev.min_level;
            set_target_level(dev, l);
        }
    }
    None
}

pub open spec fn goto_scene_ok(dev: GearState, cmd: u8) -> bool {
    cmd_defs::GOTO_SCENE_FIRST_OPCODE_BYTE <= cmd <= cmd_defs::GOTO_SCENE_LAST_OPCODE_BYTE
        ==> start_fade_time_ok(dev, dev.scenes[cmd - cmd_defs::GOTO_SCENE_FIRST_OPCODE_BYTE])
}

pub open spec fn spec_goto_scene_cmd(dev: GearState, cmd: u8, after: GearState) -> bool {
    &&& cmd_defs::GOTO_SCENE_FIRST_OPCODE_BYTE <= cmd <= cmd_defs::GOTO_SCENE_LAST_OPCODE_BYTE
                ==> spec_start_fade_time(
                dev,
                dev.scenes[cmd - cmd_defs::GOTO_SCENE_FIRST_OPCODE_BYTE],
                after,
            )
    &&& !(cmd_defs::GOTO_SCENE_FIRST_OPCODE_BYTE <= cmd <= cmd_defs::GOTO_SCENE_LAST_OPCODE_BYTE)
                ==> after == dev
}

/// GO TO SCENE: fade to the scene's level (MASK stops the fade).
pub fn goto_scene_cmd(dev: &mut GearState, _addr: u8, cmd: u8, _flags: Flags) -> (r: Option<
    DaliBusEventType,
>)
    requires
        goto_scene_ok(*old(dev), cmd),
    ensures
        r is None,
        spec_goto_scene_cmd(*old(dev), cmd, *final(dev)),
{
    if cmd_defs::GOTO_SCENE_FIRST_OPCODE_BYTE <= cmd && cmd <= cmd_defs::GOTO_SCENE_LAST_OPCODE_BYTE {
        let scene = (cmd - cmd_defs::GOTO_SCENE_FIRST_OPCODE_BYTE) as usize;
        let level = dev.scenes[scene];
        start_fade_time(dev, level);
    }
    None
}

pub open spec fn spec_set_scene_cmd(dev: GearState, cmd: u8, flags: Flags, after: GearState) -> bool {
    &&& (twice(flags) && cmd_defs::SET_SCENE_FIRST_OPCODE_BYTE <= cmd
                <= cmd_defs::SET_SCENE_LAST_OPCODE_BYTE) ==> {
                &&& after.scenes@ == dev.scenes@.update(
                    (cmd - cmd_defs::SET_SCENE_FIRST_OPCODE_BYTE) as int,
                    dev.dtr0,
                )
                &&& (GearState { scenes: dev.scenes, ..after }) == dev
            }
    &&& !(twice(flags) && cmd_defs::SET_SCENE_FIRST_OPCODE_BYTE <= cmd
                <= cmd_defs::SET_SCENE_LAST_OPCODE_BYTE) ==> after == dev
}

/// SET SCENE (sent twice): the scene's level becomes DTR0.
pub fn set_scene_cmd(dev: &mut GearState, _addr: u8, cmd: u8, flags: Flags) -> (r: Option<
    DaliBusEventType,
>)
    ensures
        r is None,
        spec_set_scene_cmd(*old(dev), cmd, flags, *final(dev)),
{
    if flags.send_twice() {
        if cmd_defs::SET_SCENE_FIRST_OPCODE_BYTE <= cmd && cmd <= cmd_defs::SET_SCENE_LAST_OPCODE_BYTE {
            let scene = (cmd - cmd_defs::SET_SCENE_FIRST_OPCODE_BYTE) as usize;
            dev.scenes[scene] = dev.dtr0;
        }
    }
    None
}

pub open spec fn spec_remove_from_scene_cmd(dev: GearState, cmd: u8, flags: Flags, after: GearState) -> bool {
    &&& (twice(flags) && cmd_defs::REMOVE_FROM_SCENE_FIRST_OPCODE_BYTE <= cmd
                <= cmd_defs::REMOVE_FROM_SCENE_LAST_OPCODE_BYTE) ==> {
                &&& after.scenes@ == dev.scenes@.update(
                    (cmd - cmd_defs::REMOVE_FROM_SCENE_FIRST_OPCODE_BYTE) as int,
                    MASK,
                )
                &&& (GearState { scenes: dev.scenes, ..after }) == dev
            }
    &&& !(twice(flags) && cmd_defs::REMOVE_FROM_SCENE_FIRST_OPCODE_BYTE <= cmd
                <= cmd_defs::REMOVE_FROM_SCENE_LAST_OPCODE_BYTE) ==> after == dev
}

/// REMOVE FROM SCENE (sent twice): the scene's level becomes MASK.
pub fn remove_from_scene_cmd(dev: &mut GearState, _addr: u8, cmd: u8, flags: Flags) -> (r:
    Option<DaliBusEventType>)
    ensures
        r is None,
        spec_remove_from_scene_cmd(*old(dev), cmd, flags, *final(dev)),
{
    if flags.send_twice() {
        if cmd_defs::REMOVE_FROM_SCENE_FIRST_OPCODE_BYTE <= cmd && cmd
            <= cmd_defs::REMOVE_FROM_SCENE_LAST_OPCODE_BYTE {
            let scene = (cmd - cmd_defs::REMOVE_FROM_SCENE_FIRST_OPCODE_BYTE) as usize;
            dev.scenes[scene] = MASK;
        }
    }
    None
}

pub open spec fn spec_add_to_group_cmd(dev: GearState, cmd: u8, flags: Flags, after: GearState) -> bool {
    &&& (twice(flags) && cmd_defs::ADD_TO_GROUP_FIRST_OPCODE_BYTE <= cmd
                <= cmd_defs::ADD_TO_GROUP_LAST_OPCODE_BYTE) ==> after == (GearState {
                gear_groups: dev.gear_groups | (1u16 << ((cmd
                    - cmd_defs::ADD_TO_GROUP_FIRST_OPCODE_BYTE) as u16)),
                ..dev
            })
    &&& !(twice(flags) && cmd_defs::ADD_TO_GROUP_FIRST_OPCODE_BYTE <= cmd
                <= cmd_defs::ADD_TO_GROUP_LAST_OPCODE_BYTE) ==> after == dev
}

/// ADD TO GROUP (sent twice): set the group's bit.
pub fn add_to_group_cmd(dev: &mut GearState, _addr: u8, cmd: u8, flags: Flags) -> (r: Option<
    DaliBusEventType,
>)
    ensures
        r is None,
        spec_add_to_group_cmd(*old(dev), cmd, flags, *final(dev)),
{
    if flags.send_twice() {
        if cmd_defs::ADD_TO_GROUP_FIRST_OPCODE_BYTE <= cmd && cmd
            <= cmd_defs::ADD_TO_GROUP_LAST_OPCODE_BYTE {
            dev.gear_groups = dev.gear_groups | (1u16 << ((cmd
                - cmd_defs::ADD_TO_GROUP_FIRST_OPCODE_BYTE) as u16));
        }
    }
    None
}

pub open spec fn spec_remove_from_group_cmd(dev: GearState, cmd: u8, flags: Flags, after: GearState) -> bool {
    &&& (twice(flags) && cmd_defs::REMOVE_FROM_GROUP_FIRST_OPCODE_BYTE <= cmd
                <= cmd_defs::REMOVE_FROM_GROUP_LAST_OPCODE_BYTE) ==> after == (GearState {
                gear_groups: dev.gear_groups & !(1u16 << ((cmd
                    - cmd_defs::REMOVE_FROM_GROUP_FIRST_OPCODE_BYTE) as u16)),
                ..dev
            })
    &&& !(twice(flags) && cmd_defs::REMOVE_FROM_GROUP_FIRST_OPCODE_BYTE <= cmd
                <= cmd_defs::REMOVE_FROM_GROUP_LAST_OPCODE_BYTE) ==> after == dev
}

/// REMOVE FROM GROUP (sent twice): clear the group's bit.
pub fn remove_from_group_cmd(dev: &mut GearState, _addr: u8, cmd: u8, flags: Flags) -> (r:
    Option<DaliBusEventType>)
    ensures
        r is None,
        spec_remove_from_group_cmd(*old(dev), cmd, flags, *final(dev)),
{
    if flags.send_twice() {
        if cmd_defs::REMOVE_FROM_GROUP_FIRST_OPCODE_BYTE <= cmd && cmd
            <= cmd_defs::REMOVE_FROM_GROUP_LAST_OPCODE_BYTE {
            dev.gear_groups = dev.gear_groups & !(1u16 << ((cmd
                - cmd_defs::REMOVE_FROM_GROUP_FIRST_OPCODE_BYTE) as u16));
        }
    }
    None
}

/// Memory bank commands: not simulated, no answer.
pub fn memory_cmd(_dev: &mut GearState, _addr: u8, _cmd: u8, _flags: Flags) -> (r: Option<
    DaliBusEventType,
>)
    ensures
        r is None,
        *final(_dev) == *old(_dev),
{
    None
}

/// Application extended commands: not simulated, no answer.
pub fn application_extended_cmd(_dev: &mut GearState, _addr: u8, _cmd: u8, _flags: Flags) -> (r:
    Option<DaliBusEventType>)
    ensures
        r is None,
        *final(_dev) == *old(_dev),
{
    None
}

pub open spec fn device_control_ok(dev: GearState, cmd: u8, flags: Flags) -> bool {
    twice(flags) ==> {
        &&& cmd != cmd_defs::RESET_MEMORY_BANK_OPCODE_BYTE
        &&& cmd != cmd_defs::IDENTIFY_DEVICE_OPCODE_BYTE
        &&& cmd == cmd_defs::STORE_ACTUAL_LEVEL_IN_DTR0_OPCODE_BYTE ==> dev.level_ok(
            dev.current_time,
        )
    }
}

pub open spec fn spec_device_control_cmd(dev: GearState, cmd: u8, flags: Flags, after: GearState) -> bool {
    &&& (twice(flags) && cmd == cmd_defs::RESET_OPCODE_BYTE) ==> spec_is_reset(
                dev,
                after,
            )
    &&& (twice(flags) && cmd == cmd_defs::STORE_ACTUAL_LEVEL_IN_DTR0_OPCODE_BYTE) ==> after
                == (GearState { dtr0: dev.spec_level(), ..dev })
    &&& (twice(flags) && cmd == cmd_defs::SET_SHORT_ADDRESS_OPCODE_BYTE) ==> after == (
            GearState { short_address: dev.dtr0, ..dev })
    &&& !(twice(flags) && (cmd == cmd_defs::RESET_OPCODE_BYTE || cmd
                == cmd_defs::STORE_ACTUAL_LEVEL_IN_DTR0_OPCODE_BYTE || cmd
                == cmd_defs::SET_SHORT_ADDRESS_OPCODE_BYTE)) ==> after == dev
}

/// Device control commands, all of which must be sent twice: RESET, STORE
/// ACTUAL LEVEL IN DTR0, SET SHORT ADDRESS (from DTR0); saving variables and
/// the operating mode are accepted and do nothing.
pub fn device_control_cmd(dev: &mut GearState, cmd: u8, flags: Flags) -> (r: Option<
    DaliBusEventType,
>)
    requires
        device_control_ok(*old(dev), cmd, flags),
    ensures
        r is None,
        spec_device_control_cmd(*old(dev), cmd, flags, *final(dev)),
{
    if flags.send_twice() {
        if cmd == cmd_defs::RESET_OPCODE_BYTE {
            dev.reset();
        } else if cmd == cmd_defs::STORE_ACTUAL_LEVEL_IN_DTR0_OPCODE_BYTE {
            dev.dtr0 = dev.actual_level();
        } else if cmd == cmd_defs::SET_SHORT_ADDRESS_OPCODE_BYTE {
            dev.short_address = dev.dtr0;
        }
    }
    None
}

/// The maximum level that SET MAX LEVEL stores: DTR0, but no lower than
/// the minimum level, and 254 for MASK.
pub open spec fn spec_new_max_level(dev: GearState) -> u8 {
    if dev.min_level > dev.dtr0 {
        dev.min_level
    } else if dev.dtr0 == MASK {
        0xfe
    } else {
        dev.dtr0
    }
}

/// The minimum level that SET MIN LEVEL stores: DTR0, but no lower than the
/// physical minimum and no higher than the maximum level.
pub open spec fn spec_new_min_level(dev: GearState) -> u8 {
    if dev.dtr0 <= dev.physical_minimum_level {
        dev.physical_minimum_level
    } else if dev.max_level < dev.dtr0 || dev.dtr0 == MASK {
        dev.max_level
    } else {
        dev.dtr0
    }
}

/// A running fade heads above the new maximum (below the new minimum) and
/// is redirected to it, over the time it has left.
pub open spec fn fade_above(dev: GearState, level: u8) -> bool {
    dev.target_level > level as int * 128 && dev.fade_end_time > dev.current_time
}

pub open spec fn fade_below(dev: GearState, level: u8) -> bool {
    dev.target_level < level as int * 128 && dev.fade_end_time > dev.current_time
}

pub open spec fn set_param_ok(dev: GearState, cmd: u8, flags: Flags) -> bool {
    twice(flags) ==> {
        &&& cmd == cmd_defs::SET_MAX_LEVEL_OPCODE_BYTE ==> {
            &&& dev.level_ok(dev.current_time)
            &&& (!(dev.spec_level() > spec_new_max_level(dev)) && fade_above(
                dev,
                spec_new_max_level(dev),
            )) ==> start_fade_ok(
                dev,
                spec_new_max_level(dev),
                dev.current_time,
                (dev.fade_end_time - dev.current_time) as u64,
            )
        }
        &&& cmd == cmd_defs::SET_MIN_LEVEL_OPCODE_BYTE ==> {
            &&& dev.level_ok(dev.current_time)
            &&& (!(dev.spec_level() > 0 && dev.spec_level() < spec_new_min_level(dev))
                && fade_below(dev, spec_new_min_level(dev))) ==> start_fade_ok(
                dev,
                spec_new_min_level(dev),
                dev.current_time,
                (dev.fade_end_time - dev.current_time) as u64,
            )
        }
    }
}

/// What a fade start to `level` over the fade's remaining time leaves.
pub open spec fn spec_refade(dev: GearState, level: u8, after: GearState) -> bool {
    let duration = (dev.fade_end_time - dev.current_time) as u64;
    &&& after.fade_slope as int == trunc_div(
        spec_slope_numerator(dev, level, dev.current_time, duration as int / 1000),
        duration as int / 1000,
    )
    &&& after.fade_end_time == dev.current_time + duration
    &&& after.target_level == level as int * 128
    &&& after.status == dev.status | status::FADE_RUNNING
    &&& (GearState {
        fade_slope: dev.fade_slope,
        fade_end_time: dev.fade_end_time,
        target_level: dev.target_level,
        status: dev.status,
        ..after
    }) == dev
}

pub open spec fn spec_set_param_cmd(dev: GearState, cmd: u8, flags: Flags, after: GearState) -> bool {
    &&& (twice(flags) && cmd == cmd_defs::SET_MAX_LEVEL_OPCODE_BYTE) ==> {
                let m = spec_new_max_level(dev);
                let d = GearState { max_level: m, ..dev };
                if dev.spec_level() > m {
                    &&& after.status == d.status & !status::FADE_RUNNING
                    &&& after.target_level == m as int * 128
                    &&& (GearState {
                        status: d.status,
                        target_level: d.target_level,
                        ..after
                    }) == d
                } else if fade_above(dev, m) {
                    spec_refade(d, m, after)
                } else {
                    after == d
                }
            }
    &&& (twice(flags) && cmd == cmd_defs::SET_MIN_LEVEL_OPCODE_BYTE) ==> {
                let m = spec_new_min_level(dev);
                let d = GearState { min_level: m, ..dev };
                if dev.spec_level() > 0 && dev.spec_level() < m {
                    &&& after.status == d.status & !status::FADE_RUNNING
                    &&& after.target_level == d.max_level as int * 128
                    &&& (GearState {
                        status: d.status,
                        target_level: d.target_level,
                        ..after
                    }) == d
                } else if fade_below(dev, m) {
                    spec_refade(d, m, after)
                } else {
                    after == d
                }
            }
    &&& (twice(flags) && cmd == cmd_defs::SET_SYSTEM_FAILURE_LEVEL_OPCODE_BYTE) ==> after
                == (GearState { system_failure_level: dev.dtr0, ..dev })
    &&& (twice(flags) && cmd == cmd_defs::SET_POWER_ON_LEVEL_OPCODE_BYTE) ==> after == (
            GearState { power_on_level: dev.dtr0, ..dev })
    &&& (twice(flags) && cmd == cmd_defs::SET_FADE_TIME_OPCODE_BYTE) ==> after == (
            GearState {
                fade: (dev.fade & 0x0f) | ((if dev.dtr0 < 15 {
                    dev.dtr0
                } else {
                    15u8
                }) << 4u8),
                ..dev
            })
    &&& (twice(flags) && cmd == cmd_defs::SET_FADE_RATE_OPCODE_BYTE) ==> after == (
            GearState {
                fade: (dev.fade & 0xf0) | (if dev.dtr0 < 1 {
                    1u8
                } else if dev.dtr0 > 15 {
                    15u8
                } else {
                    dev.dtr0
                }),
                ..dev
            })
    &&& (twice(flags) && cmd == cmd_defs::SET_EXTENDED_FADE_TIME_OPCODE_BYTE) ==> after == (
            GearState {
                extended_fade_time: if dev.dtr0 > 0x4f {
                    0
                } else {
                    dev.dtr0
                },
                ..dev
            })
    &&& !(twice(flags) && (cmd == cmd_defs::SET_MAX_LEVEL_OPCODE_BYTE || cmd
                == cmd_defs::SET_MIN_LEVEL_OPCODE_BYTE || cmd
                == cmd_defs::SET_SYSTEM_FAILURE_LEVEL_OPCODE_BYTE || cmd
                == cmd_defs::SET_POWER_ON_LEVEL_OPCODE_BYTE || cmd == cmd_defs::SET_FADE_TIME_OPCODE_BYTE
                || cmd == cmd_defs::SET_FADE_RATE_OPCODE_BYTE || cmd
                == cmd_defs::SET_EXTENDED_FADE_TIME_OPCODE_BYTE)) ==> after == dev
}

/// Setting commands, all of which must be sent twice; their value comes
/// from DTR0.
pub fn set_param_cmd(dev: &mut GearState, cmd: u8, flags: Flags) -> (r: Option<DaliBusEventType>)
    requires
        set_param_ok(*old(dev), cmd, flags),
    ensures
        r is None,
        spec_set_param_cmd(*old(dev), cmd, flags, *final(dev)),
{
    if !flags.send_twice() {
        return None;
    }
    if cmd == cmd_defs::SET_MAX_LEVEL_OPCODE_BYTE {
        dev.max_level = if dev.min_level > dev.dtr0 {
            dev.min_level
        } else if dev.dtr0 == MASK {
            0xfe
        } else {
            dev.dtr0
        };
        if dev.actual_level() > dev.max_level {
            let m = dev.max_level;
            dev.set_actual_level(m);
        } else if dev.target_level > (dev.max_level as i16) * LEVEL_HIRES_SCALE && dev.fade_end_time
            > dev.current_time {
            let m = dev.max_level;
            let now = dev.current_time;
            let duration = dev.fade_end_time - dev.current_time;
            start_fade(dev, m, now, duration);
        }
    } else if cmd == cmd_defs::SET_MIN_LEVEL_OPCODE_BYTE {
        dev.min_level = if dev.dtr0 <= dev.physical_minimum_level {
            dev.physical_minimum_level
        } else if dev.max_level < dev.dtr0 || dev.dtr0 == MASK {
            dev.max_level
        } else {
            dev.dtr0
        };
        let actual_level = dev.actual_level();
        if actual_level > 0 && actual_level < dev.min_level {
            let m = dev.max_level;
            dev.set_actual_level(m);
        } else if dev.target_level < (dev.min_level as i16) * LEVEL_HIRES_SCALE && dev.fade_end_time
            > dev.current_time {
            let m = dev.min_level;
            let now = dev.current_time;
            let duration = dev.fade_end_time - dev.current_time;
            start_fade(dev, m, now, duration);
        }
    } else if cmd == cmd_defs::SET_SYSTEM_FAILURE_LEVEL_OPCODE_BYTE {
        dev.system_failure_level = dev.dtr0;
    } else if cmd == cmd_defs::SET_POWER_ON_LEVEL_OPCODE_BYTE {
        dev.power_on_level = dev.dtr0;
    } else if cmd == cmd_defs::SET_FADE_TIME_OPCODE_BYTE {
        let fade_time = if dev.dtr0 < 15 {
            dev.dtr0
        } else {
            15
        };
        dev.fade = (dev.fade & 0x0f) | (fade_time << 4u8);
    } else if cmd == cmd_defs::SET_FADE_RATE_OPCODE_BYTE {
        let limited = if dev.dtr0 < 15 {
            dev.dtr0
        } else {
            15
        };
        let fade_rate = if 1 > limited {
            1
        } else {
            limited
        };
        dev.fade = (dev.fade & 0xf0) | fade_rate;
    } else if cmd == cmd_defs::SET_EXTENDED_FADE_TIME_OPCODE_BYTE {
        dev.extended_fade_time = if dev.dtr0 > 0x4f {
            0
        } else {
            dev.dtr0
        };
    }
    None
}

pub open spec fn in_range(x: u8, lo: u8, hi: u8) -> bool {
    lo <= x && x <= hi
}

/// A command to this gear can be carried out: it is implemented, and the
/// arithmetic of the fade it starts stays in range.
pub open spec fn device_cmd_ok(dev: GearState, addr: u8, cmd: u8, flags: Flags) -> bool {
    if addr % 2 == 1 {
        if cmd <= 0x0a {
            level_cmd_ok(dev, cmd)
        } else if in_range(cmd, 0x10, 0x1f) {
            goto_scene_ok(dev, cmd)
        } else if in_range(cmd, 0x20, 0x25) || cmd == 0x80 {
            device_control_ok(dev, cmd, flags)
        } else if in_range(cmd, 0x2a, 0x30) {
            set_param_ok(dev, cmd, flags)
        } else if in_range(cmd, 0x90, 0xc4) || cmd == 0xff {
            query_ok(dev, cmd)
        } else {
            true
        }
    } else {
        start_fade_time_ok(dev, cmd)
    }
}

/// What a command with address byte `addr` does: with the selector bit set
/// the opcode selects a command; with it clear, `cmd` is a level to fade to
/// (direct arc power control).
pub open spec fn spec_device_cmd(
    dev: GearState,
    addr: u8,
    cmd: u8,
    flags: Flags,
    after: GearState,
    r: Option<DaliBusEventType>,
) -> bool {
    if addr % 2 == 1 {
        if cmd <= 0x0a {
            r is None && spec_level_cmd(dev, cmd, after)
        } else if in_range(cmd, 0x10, 0x1f) {
            r is None && spec_goto_scene_cmd(dev, cmd, after)
        } else if in_range(cmd, 0x20, 0x25) || cmd == 0x80 {
            r is None && spec_device_control_cmd(dev, cmd, flags, after)
        } else if in_range(cmd, 0x2a, 0x30) {
            r is None && spec_set_param_cmd(dev, cmd, flags, after)
        } else if in_range(cmd, 0x40, 0x4f) {
            r is None && spec_set_scene_cmd(dev, cmd, flags, after)
        } else if in_range(cmd, 0x50, 0x5f) {
            r is None && spec_remove_from_scene_cmd(dev, cmd, flags, after)
        } else if in_range(cmd, 0x60, 0x6f) {
            r is None && spec_add_to_group_cmd(dev, cmd, flags, after)
        } else if in_range(cmd, 0x70, 0x7f) {
            r is None && spec_remove_from_group_cmd(dev, cmd, flags, after)
        } else if in_range(cmd, 0x90, 0xc4) || cmd == 0xff {
            spec_query_cmd(dev, cmd, after, r)
        } else {
            r is None && after == dev
        }
    } else {
        r is None && spec_start_fade_time(dev, cmd, after)
    }
}

/// Carry out a command addressed to this gear.
pub fn device_cmd(dev: &mut GearState, addr: u8, cmd: u8, flags: Flags) -> (r: Option<
    DaliBusEventType,
>)
    requires
        device_cmd_ok(*old(dev), addr, cmd, flags),
    ensures
        spec_device_cmd(*old(dev), addr, cmd, flags, *final(dev), r),
{
    proof {
        lemma_u8_parts(addr);
    }
    if (addr & 1) == 1 {
        if cmd <= 0x0a {
            level_cmd(dev, cmd, flags)
        } else if 0x10 <= cmd && cmd <= 0x1f {
            goto_scene_cmd(dev, addr, cmd, flags)
        } else if 0x20 <= cmd && cmd <= 0x25 {
            device_control_cmd(dev, cmd, flags)
        } else if 0x2a <= cmd && cmd <= 0x30 {
            set_param_cmd(dev, cmd, flags)
        } else if 0x40 <= cmd && cmd <= 0x4f {
            set_scene_cmd(dev, addr, cmd, flags)
        } else if 0x50 <= cmd && cmd <= 0x5f {
            remove_from_scene_cmd(dev, addr, cmd, flags)
        } else if 0x60 <= cmd && cmd <= 0x6f {
            add_to_group_cmd(dev, addr, cmd, flags)
        } else if 0x70 <= cmd && cmd <= 0x7f {
            remove_from_group_cmd(dev, addr, cmd, flags)
        } else if cmd == 0x80 {
            device_control_cmd(dev, cmd, flags)
        } else if cmd == 0x81 {
            memory_cmd(dev, addr, cmd, flags)
        } else if 0x90 <= cmd && cmd <= 0xc4 {
            query_cmd(dev, cmd)
        } else if cmd == 0xc5 {
            memory_cmd(dev, addr, cmd, flags)
        } else if 0xe0 <= cmd && cmd <= 0xfe {
            application_extended_cmd(dev, addr, cmd, flags)
        } else if cmd == 0xff {
            query_cmd(dev, cmd)
        } else {
            None
        }
    } else {
        start_fade_time(dev, cmd);
        None
    }
}

/// A special command can be carried out: an INITIALISE that starts
/// initialisation must be able to compute when it ends.
pub open spec fn special_cmd_ok(dev: GearState, cmd: u8, data: u8, flags: Flags) -> bool {
    (cmd == cmd_defs::INITIALISE_ADDRESS_BYTE && twice(flags)) ==> dev.current_time
        <= u64::MAX - INIT_TIMEOUT_US
}

/// INITIALISE selects this gear: by its short address, as gear without a
/// short address, or all gear.
pub open spec fn initialise_selects(dev: GearState, data: u8) -> bool {
    ((data & 0x81) == 0x01 && (data >> 1u8) == dev.short_address) || (data
        == cmd_defs::INITIALISE_NO_ADDR_OPCODE_BYTE && dev.short_address == MASK) || data
        == cmd_defs::INITIALISE_ALL_OPCODE_BYTE
}

/// What a special command (address byte 0xa1..=0xcb) does, when RANDOMISE
/// draws `random`.
pub open spec fn spec_special_cmd(
    dev: GearState,
    cmd: u8,
    data: u8,
    flags: Flags,
    random: u32,
    after: GearState,
    r: Option<DaliBusEventType>,
) -> bool {
    let enabled = dev.initialisation_state != InitialisationState::DISABLED;
    if cmd == cmd_defs::TERMINATE_ADDRESS_BYTE {
        r is None && after == GearState {
            initialisation_state: InitialisationState::DISABLED,
            ..dev
        }
    } else if cmd == cmd_defs::INITIALISE_ADDRESS_BYTE && twice(flags) {
        r is None && if initialise_selects(dev, data) {
            after == GearState {
                init_end_time: (dev.current_time + INIT_TIMEOUT_US) as u64,
                initialisation_state: InitialisationState::ENABLED,
                ..dev
            }
        } else {
            after == dev
        }
    } else if cmd == cmd_defs::RANDOMISE_ADDRESS_BYTE && twice(flags) {
        r is None && if enabled {
            after == GearState { random_address: random, ..dev }
        } else {
            after == dev
        }
    } else if cmd == cmd_defs::COMPARE_ADDRESS_BYTE {
        after == dev && r == yes_no_reply(
            dev.initialisation_state == InitialisationState::ENABLED && dev.random_address
                <= dev.search_address,
        )
    } else if cmd == cmd_defs::WITHDRAW_ADDRESS_BYTE {
        r is None && if dev.initialisation_state == InitialisationState::ENABLED
            && dev.random_address == dev.search_address {
            after == GearState { initialisation_state: InitialisationState::WITHDRAWN, ..dev }
        } else {
            after == dev
        }
    } else if cmd == cmd_defs::SEARCHADDRH_ADDRESS_BYTE {
        r is None && after == if enabled {
            GearState {
                search_address: (dev.search_address & 0x00ffff) | ((data as u32) << 16u32),
                ..dev
            }
        } else {
            dev
        }
    } else if cmd == cmd_defs::SEARCHADDRM_ADDRESS_BYTE {
        r is None && after == if enabled {
            GearState {
                search_address: (dev.search_address & 0xff00ff) | ((data as u32) << 8u32),
                ..dev
            }
        } else {
            dev
        }
    } else if cmd == cmd_defs::SEARCHADDRL_ADDRESS_BYTE {
        r is None && after == if enabled {
            GearState { search_address: (dev.search_address & 0xffff00) | (data as u32), ..dev }
        } else {
            dev
        }
    } else if cmd == cmd_defs::PROGRAM_SHORT_ADDRESS_ADDRESS_BYTE {
        r is None && after == if enabled && dev.random_address == dev.search_address {
            if (data & 0x81) == 0x01 {
                GearState { short_address: data >> 1u8, ..dev }
            } else if data == MASK {
                GearState { short_address: MASK, ..dev }
            } else {
                dev
            }
        } else {
            dev
        }
    } else if cmd == cmd_defs::QUERY_SHORT_ADDRESS_ADDRESS_BYTE {
        after == dev && r == if enabled && dev.search_address == dev.random_address {
            Some(DaliBusEventType::Frame8((dev.short_address << 1u8) | 0x01))
        } else {
            None
        }
    } else if cmd == cmd_defs::DTR0_ADDRESS_BYTE {
        r is None && after == GearState { dtr0: data, ..dev }
    } else if cmd == cmd_defs::DTR1_ADDRESS_BYTE {
        r is None && after == GearState { dtr1: data, ..dev }
    } else if cmd == cmd_defs::DTR2_ADDRESS_BYTE {
        r is None && after == GearState { dtr2: data, ..dev }
    } else {
        r is None && after == dev
    }
}

/// Carry out a special command; RANDOMISE takes `random` as the new random
/// address.
pub fn special_cmd_with_random(
    dev: &mut GearState,
    cmd: u8,
    data: u8,
    flags: Flags,
    random: u32,
) -> (r: Option<DaliBusEventType>)
    requires
        special_cmd_ok(*old(dev), cmd, data, flags),
    ensures
        spec_special_cmd(*old(dev), cmd, data, flags, random, *final(dev), r),
{
    let enabled = dev.initialisation_state != InitialisationState::DISABLED;
    if cmd == cmd_defs::TERMINATE_ADDRESS_BYTE {
        dev.initialisation_state = InitialisationState::DISABLED;
        None
    } else if cmd == cmd_defs::INITIALISE_ADDRESS_BYTE && flags.send_twice() {
        if ((data & 0x81) == 0x01 && (data >> 1u8) == dev.short_address) || (data
            == cmd_defs::INITIALISE_NO_ADDR_OPCODE_BYTE && dev.short_address == MASK) || data
            == cmd_defs::INITIALISE_ALL_OPCODE_BYTE {
            dev.init_end_time = dev.current_time + INIT_TIMEOUT_US;
            dev.initialisation_state = InitialisationState::ENABLED;
        }
        None
    } else if cmd == cmd_defs::RANDOMISE_ADDRESS_BYTE && flags.send_twice() {
        if enabled {
            dev.random_address = random;
        }
        None
    } else if cmd == cmd_defs::COMPARE_ADDRESS_BYTE {
        yes_no(
            dev.initialisation_state == InitialisationState::ENABLED && dev.random_address
                <= dev.search_address,
        )
    } else if cmd == cmd_defs::WITHDRAW_ADDRESS_BYTE {
        if dev.initialisation_state == InitialisationState::ENABLED && dev.random_address
            == dev.search_address {
            dev.initialisation_state = InitialisationState::WITHDRAWN;
        }
        None
    } else if cmd == cmd_defs::SEARCHADDRH_ADDRESS_BYTE {
        if enabled {
            dev.search_address = (dev.search_address & 0x00ffff) | ((data as u32) << 16u32);
        }
        None
    } else if cmd == cmd_defs::SEARCHADDRM_ADDRESS_BYTE {
        if enabled {
            dev.search_address = (dev.search_address & 0xff00ff) | ((data as u32) << 8u32);
        }
        None
    } else if cmd == cmd_defs::SEARCHADDRL_ADDRESS_BYTE {
        if enabled {
            dev.search_address = (dev.search_address & 0xffff00) | (data as u32);
        }
        None
    } else if cmd == cmd_defs::PROGRAM_SHORT_ADDRESS_ADDRESS_BYTE {
        if enabled && dev.random_address == dev.search_address {
            if (data & 0x81) == 0x01 {
                dev.short_address = data >> 1u8;
            } else if data == MASK {
                dev.short_address = MASK;
            }
        }
        None
    } else if cmd == cmd_defs::QUERY_SHORT_ADDRESS_ADDRESS_BYTE {
        if enabled && dev.search_address == dev.random_address {
            Some(DaliBusEventType::Frame8((dev.short_address << 1u8) | 0x01))
        } else {
            None
        }
    } else if cmd == cmd_defs::DTR0_ADDRESS_BYTE {
        dev.dtr0 = data;
        None
    } else if cmd == cmd_defs::DTR1_ADDRESS_BYTE {
        dev.dtr1 = data;
        None
    } else if cmd == cmd_defs::DTR2_ADDRESS_BYTE {
        dev.dtr2 = data;
        None
    } else {
        None
    }
}

/// Carry out a special command; RANDOMISE draws a new random address in
/// 0..=0xffffff.
pub fn special_cmd(dev: &mut GearState, cmd: u8, data: u8, flags: Flags) -> (r: Option<
    DaliBusEventType,
>)
    requires
        special_cmd_ok(*old(dev), cmd, data, flags),
    ensures
        exists|random: u32|
            random <= 0xffffff && spec_special_cmd(
                *old(dev),
                cmd,
                data,
                flags,
                random,
                *final(dev),
                r,
            ),
{
    let random: u32 = if cmd == cmd_defs::RANDOMISE_ADDRESS_BYTE && flags.send_twice()
        && dev.initialisation_state != InitialisationState::DISABLED {
        random_up_to(0xffffff) as u32
    } else {
        0
    };
    special_cmd_with_random(dev, cmd, data, flags, random)
}

/// Frames closer together than this, with the same content, count as one
/// command sent twice (16-bit frame plus the send-twice interval), in
/// microseconds.
pub const SEND_TWICE_WINDOW_US: u64 = 14_161 + 94_000;

/// A 16-bit frame at `ts` repeats the frame `last` (time and content of the
/// previous bus event, when that was a 16-bit frame) within the send-twice
/// window.
pub open spec fn spec_is_repeat(last: Option<(u64, [u8; 2])>, ts: u64, cmd: [u8; 2]) -> bool {
    match last {
        Some((last_ts, last_cmd)) => (if ts >= last_ts {
            ts - last_ts
        } else {
            0
        }) < SEND_TWICE_WINDOW_US && cmd@ == last_cmd@,
        None => false,
    }
}

pub fn is_repeat(last: Option<(u64, [u8; 2])>, ts: u64, cmd: [u8; 2]) -> (r: bool)
    ensures
        r == spec_is_repeat(last, ts, cmd),
{
    match last {
        Some((last_ts, last_cmd)) => {
            let elapsed = if ts >= last_ts {
                ts - last_ts
            } else {
                0
            };
            let same = cmd[0] == last_cmd[0] && cmd[1] == last_cmd[1];
            assert(same == (cmd@ == last_cmd@)) by {
                if same {
                    assert(cmd@ =~= last_cmd@);
                }
            }
            elapsed < SEND_TWICE_WINDOW_US && same
        },
        None => false,
    }
}

/// Which handler a 16-bit forward frame goes to.
pub enum Dispatch {
    /// A command for this gear (by short address, group, broadcast)
    Device,
    /// A special command, or one for other gear
    Special,
}

/// The handler for a frame whose first byte is `b0`: the gear's short
/// address, one of its groups, broadcast to unaddressed gear when it has
/// no short address, or broadcast.
pub open spec fn spec_dispatch(dev: GearState, b0: u8) -> Dispatch {
    let a = b0 / 2;
    if a <= 0x3f && a == dev.short_address {
        Dispatch::Device
    } else if 0x40 <= a <= 0x4f && dev.gear_groups & (1u16 << ((a % 16) as u16)) != 0 {
        Dispatch::Device
    } else if a == 0x7e && dev.short_address == MASK {
        Dispatch::Device
    } else if a == 0x7f {
        Dispatch::Device
    } else {
        Dispatch::Special
    }
}

/// The gear at `now`, with its timers checked, about to take a frame.
pub open spec fn spec_at_time(dev: GearState, now: u64) -> GearState {
    spec_timers_checked(GearState { current_time: now, ..dev })
}

pub open spec fn receive_frame16_ok(dev: GearState, now: u64, cmd: [u8; 2], flags: Flags) -> bool {
    let d = spec_at_time(dev, now);
    match spec_dispatch(d, cmd[0]) {
        Dispatch::Device => device_cmd_ok(d, cmd[0], cmd[1], flags),
        Dispatch::Special => special_cmd_ok(d, cmd[0], cmd[1], flags),
    }
}

/// The gear takes the 16-bit frame `cmd` seen on the bus at `now`: time
/// moves on, timers are checked, and the frame goes to its handler. The
/// result is the answer, if any.
pub fn receive_frame16(dev: &mut GearState, now: u64, cmd: [u8; 2], flags: Flags) -> (r: Option<
    DaliBusEventType,
>)
    requires
        receive_frame16_ok(*old(dev), now, cmd, flags),
    ensures
        match spec_dispatch(spec_at_time(*old(dev), now), cmd[0]) {
            Dispatch::Device => spec_device_cmd(
                spec_at_time(*old(dev), now),
                cmd[0],
                cmd[1],
                flags,
                *final(dev),
                r,
            ),
            Dispatch::Special => exists|random: u32|
                random <= 0xffffff && spec_special_cmd(
                    spec_at_time(*old(dev), now),
                    cmd[0],
                    cmd[1],
                    flags,
                    random,
                    *final(dev),
                    r,
                ),
        },
{
    dev.current_time = now;
    check_timers(dev);
    let a = cmd[0] / 2;
    let device = if a <= 0x3f && a == dev.short_address {
        true
    } else if 0x40 <= a && a <= 0x4f && dev.gear_groups & (1u16 << ((a % 16) as u16)) != 0 {
        true
    } else if a == 0x7e && dev.short_address == MASK {
        true
    } else {
        a == 0x7f
    };
    if device {
        device_cmd(dev, cmd[0], cmd[1], flags)
    } else {
        special_cmd(dev, cmd[0], cmd[1], flags)
    }
}

/// The 16-bit frame of a bus event, with its time, if it is one.
pub open spec fn spec_frame16_of(e: DaliSimBusEvent) -> Option<(u64, [u8; 2])> {
    match e.event_type {
        DaliBusEventType::Frame16(cmd) => Some((e.timestamp, cmd)),
        _ => None,
    }
}

pub fn frame16_of(e: &DaliSimBusEvent) -> (r: Option<(u64, [u8; 2])>)
    ensures
        r == spec_frame16_of(*e),
{
    match e.event_type {
        DaliBusEventType::Frame16(cmd) => Some((e.timestamp, cmd)),
        _ => None,
    }
}

/// The options a 16-bit frame `cmd` at `ts` is taken with: sent twice when
/// it repeats the previous bus event `last` within the send-twice window.
pub fn frame_flags(last: Option<(u64, [u8; 2])>, ts: u64, cmd: [u8; 2]) -> (f: Flags)
    ensures
        f == (if spec_is_repeat(last, ts, cmd) {
            spec_or(Flags::Empty, Flags::SendTwice(true))
        } else {
            Flags::Empty
        }),
{
    if is_repeat(last, ts, cmd) {
        Flags::Empty | Flags::SendTwice(true)
    } else {
        Flags::Empty
    }
}

/// When the gear's answer to a frame taken at `now` is on the bus: it
/// starts after the reply delay and lasts an 8-bit frame. The result is
/// its end and its start.
pub fn reply_timing(now: u64) -> (r: (u64, u64))
    requires
        now <= u64::MAX - FRAME_8_DURATION_US - REPLY_DELAY_US,
    ensures
        r == ((now + FRAME_8_DURATION_US + REPLY_DELAY_US) as u64, (now + REPLY_DELAY_US) as u64),
{
    (now + FRAME_8_DURATION_US + REPLY_DELAY_US, now + REPLY_DELAY_US)
}

impl GearState {
    /// New gear named `name` at `now`, with a random address drawn from
    /// `0..=0xffffff`.
    pub fn with_random_address(name: String, now: u64) -> (s: GearState)
        requires
            now <= u64::MAX - INIT_TIMEOUT_US,
        ensures
            s.random_address <= 0xffffff,
            is_new_gear(s, name, s.random_address, now),
    {
        let random_address = random_up_to(0xffffff) as u32;
        GearState::new(name, random_address, now)
    }
}

/// QUERY GROUPS 0-7 answers with the gear's membership of groups 0 to 7:
/// bit `g` of the answer is set exactly when the gear is in group `g`. The
/// query changes nothing.
pub proof fn lemma_query_groups_low(dev: GearState, after: GearState, r: Option<DaliBusEventType>)
    requires
        spec_query_cmd(dev, cmd_defs::QUERY_GROUPS_0_7_OPCODE_BYTE, after, r),
    ensures
        after == dev,
        r matches Some(DaliBusEventType::Frame8(b)) && forall|g: u16|
            g < 8 ==> ((#[trigger] ((b as u16) >> g)) & 1 == 1) == ((dev.gear_groups >> g) & 1
                == 1),
{
    let x = dev.gear_groups;
    assert forall|g: u16| g < 8 implies ((#[trigger] ((((x & 0xff) as u8) as u16) >> g)) & 1 == 1)
        == ((x >> g) & 1 == 1) by {
        assert(g < 8 ==> (((((x & 0xff) as u8) as u16) >> g) & 1 == 1) == ((x >> g) & 1 == 1))
            by (bit_vector);
    }
}

/// QUERY GROUPS 8-15 answers with the gear's membership of groups 8 to 15:
/// bit `g` of the answer is set exactly when the gear is in group `g + 8`.
pub proof fn lemma_query_groups_high(dev: GearState, after: GearState, r: Option<DaliBusEventType>)
    requires
        spec_query_cmd(dev, cmd_defs::QUERY_GROUPS_8_15_OPCODE_BYTE, after, r),
    ensures
        after == dev,
        r matches Some(DaliBusEventType::Frame8(b)) && forall|g: u16|
            g < 8 ==> ((#[trigger] ((b as u16) >> g)) & 1 == 1) == ((dev.gear_groups >> (g + 8)) & 1
                == 1),
{
    let x = dev.gear_groups;
    assert forall|g: u16| g < 8 implies ((#[trigger] ((((x >> 8u16) as u8) as u16) >> g)) & 1 == 1)
        == ((x >> (g + 8)) & 1 == 1) by {
        assert(g < 8 ==> (((((x >> 8u16) as u8) as u16) >> g) & 1 == 1) == ((x >> (g + 8)) & 1
            == 1)) by (bit_vector);
    }
}

/// After ADD TO GROUP `g` (sent twice) for a group from 0 to 7, QUERY
/// GROUPS 0-7 answers with bit `g` set, and the other groups as before.
pub proof fn lemma_added_group_is_answered(
    dev: GearState,
    g: u8,
    flags: Flags,
    mid: GearState,
    after: GearState,
    r: Option<DaliBusEventType>,
)
    requires
        g < 8,
        twice(flags),
        spec_add_to_group_cmd(dev, (cmd_defs::ADD_TO_GROUP_FIRST_OPCODE_BYTE + g) as u8, flags, mid),
        spec_query_cmd(mid, cmd_defs::QUERY_GROUPS_0_7_OPCODE_BYTE, after, r),
    ensures
        r matches Some(DaliBusEventType::Frame8(b)) && (b >> g) & 1 == 1 && forall|h: u8|
            h < 8 && h != g ==> ((#[trigger] (b >> h)) & 1 == 1) == ((dev.gear_groups >> (h as u16))
                & 1 == 1),
{
    let x = dev.gear_groups;
    let gg = g as u16;
    assert(mid.gear_groups == x | (1u16 << gg));
    let y = mid.gear_groups;
    assert((((y & 0xff) as u8) >> g) & 1 == 1) by (bit_vector)
        requires
            y == x | (1u16 << gg),
            gg == g as u16,
            g < 8,
    ;
    assert forall|h: u8| h < 8 && h != g implies ((#[trigger] (((y & 0xff) as u8) >> h)) & 1 == 1)
        == ((x >> (h as u16)) & 1 == 1) by {
        assert((((y & 0xff) as u8) >> h) & 1 == 1 <==> (x >> (h as u16)) & 1 == 1) by (bit_vector)
            requires
                y == x | (1u16 << gg),
                gg == g as u16,
                g < 8,
                h < 8,
                h != g,
        ;
    }
}

/// The queries that report a setting answer with it, unchanged: the
/// maximum, minimum, power-on and system failure levels, the fade and
/// extended fade time bytes, DTR0 to DTR2, the physical minimum and the
/// level of each scene. A yes-or-no query answers 0xff for yes and nothing
/// for no: lamp failure, limit error, reset state, power failure and gear
/// failure by their status bits, a missing short address when the address
/// is MASK; a present gear always says yes. Such a query changes nothing.
pub proof fn lemma_query_answers(dev: GearState, cmd: u8, after: GearState, r: Option<DaliBusEventType>)
    requires
        spec_query_cmd(dev, cmd, after, r),
        cmd != 0x90,
    ensures
        after == dev,
        cmd == 0xa1 ==> r == Some(DaliBusEventType::Frame8(dev.max_level)),
        cmd == 0xa2 ==> r == Some(DaliBusEventType::Frame8(dev.min_level)),
        cmd == 0xa3 ==> r == Some(DaliBusEventType::Frame8(dev.power_on_level)),
        cmd == 0xa4 ==> r == Some(DaliBusEventType::Frame8(dev.system_failure_level)),
        cmd == 0xa5 ==> r == Some(DaliBusEventType::Frame8(dev.fade)),
        cmd == 0xa8 ==> r == Some(DaliBusEventType::Frame8(dev.extended_fade_time)),
        cmd == 0x98 ==> r == Some(DaliBusEventType::Frame8(dev.dtr0)),
        cmd == 0x9c ==> r == Some(DaliBusEventType::Frame8(dev.dtr1)),
        cmd == 0x9d ==> r == Some(DaliBusEventType::Frame8(dev.dtr2)),
        cmd == 0x9a ==> r == Some(DaliBusEventType::Frame8(dev.physical_minimum_level)),
        0xb0 <= cmd <= 0xbf ==> r == Some(DaliBusEventType::Frame8(dev.scenes[cmd - 0xb0])),
        cmd == 0x91 ==> r == Some(DaliBusEventType::Frame8(0xff)),
        cmd == 0x92 ==> r == (if dev.status & 0x02 != 0 { Some(DaliBusEventType::Frame8(0xff)) } else { None }),
        cmd == 0x94 ==> r == (if dev.status & 0x08 != 0 { Some(DaliBusEventType::Frame8(0xff)) } else { None }),
        cmd == 0x95 ==> r == (if dev.status & 0x20 != 0 { Some(DaliBusEventType::Frame8(0xff)) } else { None }),
        cmd == 0x9b ==> r == (if dev.status & 0x80 != 0 { Some(DaliBusEventType::Frame8(0xff)) } else { None }),
        cmd == 0xaa ==> r == (if dev.status & 0x01 != 0 { Some(DaliBusEventType::Frame8(0xff)) } else { None }),
        cmd == 0x96 ==> r == (if dev.short_address == 0xff { Some(DaliBusEventType::Frame8(0xff)) } else { None }),
{
}

/// The three random address queries answer its high, middle and low byte:
/// put together they give the random address, when it fits 24 bits.
pub proof fn lemma_query_random_address(
    dev: GearState,
    a1: GearState,
    a2: GearState,
    a3: GearState,
    h: Option<DaliBusEventType>,
    m: Option<DaliBusEventType>,
    l: Option<DaliBusEventType>,
)
    requires
        spec_query_cmd(dev, 0xc2, a1, h),
        spec_query_cmd(dev, 0xc3, a2, m),
        spec_query_cmd(dev, 0xc4, a3, l),
        dev.random_address <= 0xffffff,
    ensures
        h matches Some(DaliBusEventType::Frame8(hb)) && m matches Some(DaliBusEventType::Frame8(mb))
            && l matches Some(DaliBusEventType::Frame8(lb)) && hb as int * 0x10000 + mb as int
            * 0x100 + lb as int == dev.random_address,
{
    let ra = dev.random_address;
    assert(((ra >> 16u32) as u8) as int * 0x10000 + (((ra >> 8u32) & 0xff) as u8) as int * 0x100
        + ((ra & 0xff) as u8) as int == ra) by (bit_vector)
        requires
            ra <= 0xffffff,
    ;
}

} // verus!
