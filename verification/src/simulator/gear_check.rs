//! Whether control gear can take a 16-bit frame: the commands it does not
//! implement, and the fades whose arithmetic would leave its range, are
//! refused here, so that a caller can test a frame before handing it on.
use vstd::prelude::*;
use crate::status;
use crate::cmd_defs;
use crate::send_flags::Flags;
use crate::simulator::gear::{
    check_timers,
    device_cmd_ok,
    device_control_ok,
    fade_duration,
    goto_scene_ok,
    lemma_timers_checked_idempotent,
    level_cmd_ok,
    query_ok,
    receive_frame16_ok,
    set_param_ok,
    spec_at_time,
    spec_dispatch,
    spec_fade_start_point,
    spec_new_max_level,
    spec_new_min_level,
    spec_slope_numerator,
    special_cmd_ok,
    start_fade_ok,
    start_fade_time_ok,
    trunc_div,
    Dispatch,
    GearState,
    InitialisationState,
    INIT_TIMEOUT_US,
    MASK,
};

verus! {

/// The distance still to fade at `t`, scaled by `1 << 29`.
fn fade_remaining_at(dev: &GearState, t: u64) -> (r: i128)
    requires
        dev.fade_active_at(t),
    ensures
        r == dev.fade_remaining(t),
{
    let millis: u64 = (dev.fade_end_time - t) / 1000;
    let slope: i32 = dev.fade_slope;
    assert(-0x40_0000_0000_0000_0000_0000 <= (slope as int) * (millis as int)
        <= 0x40_0000_0000_0000_0000_0000) by (nonlinear_arith)
        requires
            -0x8000_0000 <= slope,
            slope < 0x8000_0000,
            0 <= millis,
            millis < 0x80_0000_0000_0000,
    ;
    (slope as i128) * (millis as i128)
}

/// The level at `t`, scaled by 128, when it can be computed.
fn hires_at(dev: &GearState, t: u64) -> (r: Option<i128>)
    ensures
        r is Some <==> dev.hires_ok(t),
        r matches Some(h) ==> h == dev.spec_hires_at(t),
{
    if dev.status & status::FADE_RUNNING != 0 && t <= dev.fade_end_time {
        let rem = fade_remaining_at(dev, t);
        if rem < i64::MIN as i128 || rem > (i64::MAX - 0x200000) as i128 {
            return None;
        }
        let shifted: i64 = ((rem + 0x200000) as i64) >> 22u32;
        let h: i128 = dev.target_level as i128 - shifted as i128;
        if h < i16::MIN as i128 || h > i16::MAX as i128 {
            None
        } else {
            Some(h)
        }
    } else {
        Some(dev.target_level as i128)
    }
}

/// The 8-bit level of a scaled level: rounded.
fn level_of(h: i128) -> (r: u8)
    requires
        i16::MIN <= h,
        h + 64 <= i16::MAX,
    ensures
        r == ((((h + 64) as i16) >> 7u32) as u8),
{
    (((h + 64) as i16) >> 7u32) as u8
}

/// The level at `t` when it can be computed as an 8-bit level.
fn level_at(dev: &GearState, t: u64) -> (r: Option<u8>)
    ensures
        r is Some <==> dev.level_ok(t),
        r matches Some(l) ==> l == dev.spec_level_at(t),
{
    match hires_at(dev, t) {
        Some(h) => {
            if h + 64 <= i16::MAX as i128 {
                Some(level_of(h))
            } else {
                None
            }
        },
        None => None,
    }
}

/// Whether a fade from `now` to `new_level` over `duration` microseconds
/// can be set up: see `start_fade_ok`.
fn start_fade_ok_at(dev: &GearState, new_level: u8, now: u64, duration: u64) -> (r: bool)
    ensures
        r == start_fade_ok(*dev, new_level, now, duration),
{
    let d: u64 = duration / 1000;
    if d == 0 {
        return false;
    }
    if now > u64::MAX - duration {
        return false;
    }
    let active = dev.status & status::FADE_RUNNING != 0 && now <= dev.fade_end_time;
    let base: i128 = dev.target_level as i128 * 0x400000;
    let start: i128 = if active {
        let rem = fade_remaining_at(dev, now);
        if rem < i64::MIN as i128 || rem > i64::MAX as i128 {
            return false;
        }
        base - rem
    } else {
        base
    };
    assert(start == spec_fade_start_point(*dev, now));
    if start < i64::MIN as i128 || start > i64::MAX as i128 {
        return false;
    }
    let half: i128 = (d / 2) as i128;
    let num: i128 = new_level as i128 * 0x2000_0000 - start + half;
    assert(num == spec_slope_numerator(*dev, new_level, now, d as int));
    if num - half < i64::MIN as i128 || num > i64::MAX as i128 {
        return false;
    }
    let dd: i128 = d as i128;
    let q: i128 = if num >= 0 {
        num / dd
    } else {
        -((-num) / dd)
    };
    assert(q == trunc_div(num as int, d as int));
    q >= i32::MIN as i128 && q <= i32::MAX as i128
}

/// Whether going to `new_level` with the gear's fade settings can be
/// computed: see `start_fade_time_ok`.
fn start_fade_time_ok_at(dev: &GearState, new_level: u8) -> (r: bool)
    ensures
        r == start_fade_time_ok(*dev, new_level),
{
    if new_level == MASK {
        hires_at(dev, dev.current_time).is_some()
    } else {
        match fade_duration(dev) {
            None => true,
            Some(d) => start_fade_ok_at(dev, new_level, dev.current_time, d),
        }
    }
}

fn level_cmd_ok_at(dev: &GearState, cmd: u8) -> (r: bool)
    ensures
        r == level_cmd_ok(*dev, cmd),
{
    if cmd == cmd_defs::UP_OPCODE_BYTE || cmd == cmd_defs::DOWN_OPCODE_BYTE || cmd
        == cmd_defs::STEP_UP_OPCODE_BYTE || cmd == cmd_defs::STEP_DOWN_OPCODE_BYTE || cmd
        == cmd_defs::STEP_DOWN_AND_OFF_OPCODE_BYTE || cmd == cmd_defs::ON_AND_STEP_UP_OPCODE_BYTE
        || cmd == cmd_defs::ENABLE_DAPC_SEQUENCE_OPCODE_BYTE {
        return false;
    }
    let disabled = dev.initialisation_state == InitialisationState::DISABLED;
    let target: Option<u8> = if cmd == cmd_defs::OFF_OPCODE_BYTE {
        Some(clamp(dev, 0))
    } else if cmd == cmd_defs::RECALL_MAX_LEVEL_OPCODE_BYTE {
        if disabled {
            Some(dev.max_level)
        } else {
            Some(clamp(dev, dev.max_level))
        }
    } else if cmd == cmd_defs::RECALL_MIN_LEVEL_OPCODE_BYTE {
        if disabled {
            Some(dev.min_level)
        } else {
            Some(clamp(dev, dev.min_level))
        }
    } else {
        None
    };
    match target {
        Some(l) => start_fade_time_ok_at(dev, l),
        None => true,
    }
}

fn clamp(dev: &GearState, level: u8) -> (r: u8)
    ensures
        r == crate::simulator::gear::spec_clamp_level(*dev, level),
{
    if level <= dev.min_level {
        dev.min_level
    } else if level >= dev.max_level {
        dev.max_level
    } else {
        level
    }
}

fn goto_scene_ok_at(dev: &GearState, cmd: u8) -> (r: bool)
    ensures
        r == goto_scene_ok(*dev, cmd),
{
    if cmd_defs::GOTO_SCENE_FIRST_OPCODE_BYTE <= cmd && cmd <= cmd_defs::GOTO_SCENE_LAST_OPCODE_BYTE {
        let l = dev.scenes[(cmd - cmd_defs::GOTO_SCENE_FIRST_OPCODE_BYTE) as usize];
        start_fade_time_ok_at(dev, l)
    } else {
        true
    }
}

fn device_control_ok_at(dev: &GearState, cmd: u8, flags: Flags) -> (r: bool)
    ensures
        r == device_control_ok(*dev, cmd, flags),
{
    if !flags.send_twice() {
        return true;
    }
    if cmd == cmd_defs::RESET_MEMORY_BANK_OPCODE_BYTE || cmd == cmd_defs::IDENTIFY_DEVICE_OPCODE_BYTE {
        return false;
    }
    if cmd == cmd_defs::STORE_ACTUAL_LEVEL_IN_DTR0_OPCODE_BYTE {
        level_at(dev, dev.current_time).is_some()
    } else {
        true
    }
}

fn new_max_level(dev: &GearState) -> (r: u8)
    ensures
        r == spec_new_max_level(*dev),
{
    if dev.min_level > dev.dtr0 {
        dev.min_level
    } else if dev.dtr0 == MASK {
        0xfe
    } else {
        dev.dtr0
    }
}

fn new_min_level(dev: &GearState) -> (r: u8)
    ensures
        r == spec_new_min_level(*dev),
{
    if dev.dtr0 <= dev.physical_minimum_level {
        dev.physical_minimum_level
    } else if dev.max_level < dev.dtr0 || dev.dtr0 == MASK {
        dev.max_level
    } else {
        dev.dtr0
    }
}

fn set_param_ok_at(dev: &GearState, cmd: u8, flags: Flags) -> (r: bool)
    ensures
        r == set_param_ok(*dev, cmd, flags),
{
    if !flags.send_twice() {
        return true;
    }
    let now = dev.current_time;
    if cmd == cmd_defs::SET_MAX_LEVEL_OPCODE_BYTE {
        let level = match level_at(dev, now) {
            Some(l) => l,
            None => {
                return false;
            },
        };
        let m = new_max_level(dev);
        if !(level > m) && (dev.target_level as i32) > (m as i32) * 128 && dev.fade_end_time > now {
            start_fade_ok_at(dev, m, now, dev.fade_end_time - now)
        } else {
            true
        }
    } else if cmd == cmd_defs::SET_MIN_LEVEL_OPCODE_BYTE {
        let level = match level_at(dev, now) {
            Some(l) => l,
            None => {
                return false;
            },
        };
        let m = new_min_level(dev);
        if !(level > 0 && level < m) && (dev.target_level as i32) < (m as i32) * 128
            && dev.fade_end_time > now {
            start_fade_ok_at(dev, m, now, dev.fade_end_time - now)
        } else {
            true
        }
    } else {
        true
    }
}

fn query_ok_at(dev: &GearState, cmd: u8) -> (r: bool)
    ensures
        r == query_ok(*dev, cmd),
{
    if cmd == cmd_defs::QUERY_STATUS_OPCODE_BYTE || cmd == cmd_defs::QUERY_LAMP_POWER_ON_OPCODE_BYTE
        || cmd == cmd_defs::QUERY_ACTUAL_LEVEL_OPCODE_BYTE {
        level_at(dev, dev.current_time).is_some()
    } else {
        true
    }
}

fn device_cmd_ok_at(dev: &GearState, addr: u8, cmd: u8, flags: Flags) -> (r: bool)
    ensures
        r == device_cmd_ok(*dev, addr, cmd, flags),
{
    if addr % 2 == 1 {
        if cmd <= 0x0a {
            level_cmd_ok_at(dev, cmd)
        } else if 0x10 <= cmd && cmd <= 0x1f {
            goto_scene_ok_at(dev, cmd)
        } else if (0x20 <= cmd && cmd <= 0x25) || cmd == 0x80 {
            device_control_ok_at(dev, cmd, flags)
        } else if 0x2a <= cmd && cmd <= 0x30 {
            set_param_ok_at(dev, cmd, flags)
        } else if (0x90 <= cmd && cmd <= 0xc4) || cmd == 0xff {
            query_ok_at(dev, cmd)
        } else {
            true
        }
    } else {
        start_fade_time_ok_at(dev, cmd)
    }
}

fn special_cmd_ok_at(dev: &GearState, cmd: u8, flags: Flags) -> (r: bool)
    ensures
        r == special_cmd_ok(*dev, cmd, 0, flags),
{
    if cmd == cmd_defs::INITIALISE_ADDRESS_BYTE && flags.send_twice() {
        dev.current_time <= u64::MAX - INIT_TIMEOUT_US
    } else {
        true
    }
}

impl GearState {
    /// Moves the gear's clock to `now` and checks its timers, as taking a
    /// frame at `now` begins, and tells whether the gear can take the
    /// 16-bit frame `cmd` then: the command is implemented and the fade it
    /// starts stays in range. Taking the frame with `receive_frame16` at
    /// `now` is then allowed exactly when the result is true.
    pub fn prepare_frame16(&mut self, now: u64, cmd: [u8; 2], flags: Flags) -> (r: bool)
        ensures
            *final(self) == spec_at_time(*old(self), now),
            r == receive_frame16_ok(*old(self), now, cmd, flags),
            r == receive_frame16_ok(*final(self), now, cmd, flags),
    {
        self.current_time = now;
        check_timers(self);
        let ghost d = *self;
        proof {
            let x = GearState { current_time: now, ..*old(self) };
            lemma_timers_checked_idempotent(x);
            assert(GearState { current_time: now, ..d } == d);
            assert(spec_at_time(d, now) == d);
        }
        let a = cmd[0] / 2;
        let device = if a <= 0x3f && a == self.short_address {
            true
        } else if 0x40 <= a && a <= 0x4f && self.gear_groups & (1u16 << ((a % 16) as u16)) != 0 {
            true
        } else if a == 0x7e && self.short_address == MASK {
            true
        } else {
            a == 0x7f
        };
        assert(device == (spec_dispatch(d, cmd[0]) == Dispatch::Device));
        if device {
            device_cmd_ok_at(self, cmd[0], cmd[1], flags)
        } else {
            special_cmd_ok_at(self, cmd[0], flags)
        }
    }
}

} // verus!
