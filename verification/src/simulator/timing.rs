//! Bus timing: how long frames take and how long a sender waits before it
//! starts one. Times are microseconds.
use vstd::prelude::*;
use crate::driver::DaliFrame;
use crate::random::random_up_to;

verus! {

pub const HALF_BIT_MICROS: u64 = 417;
pub const BIT_MICROS: u64 = 833;
/// Frame durations, start bit included.
pub const FRAME_8_DURATION_US: u64 = 7_497;
pub const FRAME_16_DURATION_US: u64 = 14_161;
pub const FRAME_24_DURATION_US: u64 = 20_825;
pub const FRAME_25_DURATION_US: u64 = 21_658;
pub const SEND_TWICE_DURATION_US: u64 = 94_000;
pub const REPLY_DELAY_US: u64 = 5_000;
pub const INIT_TIMEOUT_US: u64 = 900_000_000;

/// Time from the first to the last transition of `frame`: the start bit and
/// the data bits, less half a bit when the last bit is a 1, whose last
/// transition lies in its middle. For a 25-bit frame the last bit is bit 7
/// of the fourth byte.
pub open spec fn spec_frame_duration(frame: DaliFrame) -> u64 {
    match frame {
        DaliFrame::Frame8(f) => (9 * BIT_MICROS - if f % 2 == 1 {
            HALF_BIT_MICROS
        } else {
            0
        }) as u64,
        DaliFrame::Frame16(f) => (17 * BIT_MICROS - if f[1] % 2 == 1 {
            HALF_BIT_MICROS
        } else {
            0
        }) as u64,
        DaliFrame::Frame24(f) => (25 * BIT_MICROS - if f[2] % 2 == 1 {
            HALF_BIT_MICROS
        } else {
            0
        }) as u64,
        DaliFrame::Frame25(f) => (26 * BIT_MICROS - if f[3] >= 0x80 {
            HALF_BIT_MICROS
        } else {
            0
        }) as u64,
    }
}

pub fn frame_duration(frame: &DaliFrame) -> (d: u64)
    ensures
        d == spec_frame_duration(*frame),
        d <= FRAME_25_DURATION_US,
{
    match frame {
        DaliFrame::Frame8(f) => 9 * BIT_MICROS - if f % 2 == 1 {
            HALF_BIT_MICROS
        } else {
            0
        },
        DaliFrame::Frame16(f) => 17 * BIT_MICROS - if f[1] % 2 == 1 {
            HALF_BIT_MICROS
        } else {
            0
        },
        DaliFrame::Frame24(f) => 25 * BIT_MICROS - if f[2] % 2 == 1 {
            HALF_BIT_MICROS
        } else {
            0
        },
        DaliFrame::Frame25(f) => 26 * BIT_MICROS - if f[3] >= 0x80 {
            HALF_BIT_MICROS
        } else {
            0
        },
    }
}

/// The shortest wait before a frame of `priority`, and how much longer a
/// random wait may be, in milliseconds. Priorities outside 1 to 4 wait as
/// priority 5.
pub open spec fn spec_delay_range(priority: u16) -> (u64, u64) {
    if priority == 1 {
        (13500, 1200)
    } else if priority == 2 {
        (14900, 1200)
    } else if priority == 3 {
        (16300, 1400)
    } else if priority == 4 {
        (17900, 1400)
    } else {
        (19500, 1600)
    }
}

fn delay_range(priority: u16) -> (r: (u64, u64))
    ensures
        r == spec_delay_range(priority),
{
    match priority {
        1 => (13500, 14700 - 13500),
        2 => (14900, 16100 - 14900),
        3 => (16300, 17700 - 16300),
        4 => (17900, 19300 - 17900),
        _ => (19500, 21100 - 19500),
    }
}

/// The wait before a frame of `priority`, in microseconds: the shortest wait
/// for that priority, or with `random`, a whole number of milliseconds
/// drawn from the priority's range.
pub fn send_delay(priority: u16, random: bool) -> (d: u64)
    ensures
        !random ==> d == spec_delay_range(priority).0 * 1000,
        random ==> d % 1000 == 0 && spec_delay_range(priority).0 * 1000 <= d <= (spec_delay_range(
            priority,
        ).0 + spec_delay_range(priority).1) * 1000,
{
    let (send_min, send_interval) = delay_range(priority);
    if random {
        let x = random_up_to(send_interval);
        (send_min + x) * 1000
    } else {
        send_min * 1000
    }
}

} // verus!
