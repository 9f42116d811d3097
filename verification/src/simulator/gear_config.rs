//! Configuring simulated gear from its entry in the simulator's
//! configuration file, and reading and setting its named parameters.
use vstd::prelude::*;
use crate::simulator::gear::{
    GearState,
    InitialisationState,
    WriteEnableState,
    MASK,
    set_target_level,
    spec_clamp_level,
    spec_start_fade_time,
    start_fade_time_ok,
    trunc_div,
};
use crate::bits::{lemma_u8_mask, lemma_u8_set_bit};
use crate::text::{
    decimal,
    int_decimal,
    json_bool,
    json_of_bool,
    json_of_int,
    json_bytes16_text,
    json_byte_array,
    json_i16,
    json_of_bytes16,
    json_of_text,
    json_quoted,
    json_text,
    json_u16,
    json_u32,
    json_u8,
    parse_json_bool,
    parse_json_bytes16,
    parse_json_i16,
    parse_json_text,
    parse_json_u16,
    parse_json_u32,
    parse_json_u8,
    str_eq,
};

verus! {

/// A value of the configuration, as far as configuring reads it: an
/// unsigned integer, a list of values (each an unsigned integer or not), a
/// table from keys to values (each an unsigned integer or not), or anything
/// else.
#[derive(Debug, Clone)]
pub enum ConfValue {
    UInt(u64),
    List(Vec<Option<u64>>),
    Table(Vec<(Option<u64>, Option<u64>)>),
    Other,
}

/// The entries of a gear's configuration, each absent or a value.
#[derive(Debug, Clone)]
pub struct GearConfig {
    pub random_address: Option<ConfValue>,
    pub short_address_step: Option<ConfValue>,
    pub short_address: Option<ConfValue>,
    pub last_light_level: Option<ConfValue>,
    pub target_level: Option<ConfValue>,
    pub power_on_level: Option<ConfValue>,
    pub system_failure_level: Option<ConfValue>,
    pub min_level: Option<ConfValue>,
    pub max_level: Option<ConfValue>,
    pub fade_rate: Option<ConfValue>,
    pub fade_time: Option<ConfValue>,
    pub extended_fade_time_base: Option<ConfValue>,
    pub extended_fade_time_multiplier: Option<ConfValue>,
    pub gear_groups: Option<ConfValue>,
    pub scenes: Option<ConfValue>,
}

/// The configuration entries that hold one unsigned integer.
#[derive(Debug, Clone, Copy, PartialEq, Eq, Structural)]
pub enum ConfKey {
    RandomAddress,
    ShortAddressStep,
    ShortAddress,
    LastLightLevel,
    TargetLevel,
    PowerOnLevel,
    SystemFailureLevel,
    MinLevel,
    MaxLevel,
}

impl ConfKey {
    /// The entry's name in the configuration file.
    pub fn name(&self) -> (s: &'static str)
        ensures
            s@ == match *self {
                ConfKey::RandomAddress => "randomAddress"@,
                ConfKey::ShortAddressStep => "shortAddressStep"@,
                ConfKey::ShortAddress => "shortAddress"@,
                ConfKey::LastLightLevel => "lastLightLevel"@,
                ConfKey::TargetLevel => "targetLevel"@,
                ConfKey::PowerOnLevel => "powerOnLevel"@,
                ConfKey::SystemFailureLevel => "systemFailureLevel"@,
                ConfKey::MinLevel => "minLevel"@,
                ConfKey::MaxLevel => "maxLevel"@,
            },
    {
        match self {
            ConfKey::RandomAddress => "randomAddress",
            ConfKey::ShortAddressStep => "shortAddressStep",
            ConfKey::ShortAddress => "shortAddress",
            ConfKey::LastLightLevel => "lastLightLevel",
            ConfKey::TargetLevel => "targetLevel",
            ConfKey::PowerOnLevel => "powerOnLevel",
            ConfKey::SystemFailureLevel => "systemFailureLevel",
            ConfKey::MinLevel => "minLevel",
            ConfKey::MaxLevel => "maxLevel",
        }
    }
}

/// Why a configuration was refused.
#[derive(Debug, Clone, Copy, PartialEq, Eq, Structural)]
pub enum ConfigError {
    /// The entry is not an unsigned integer
    NotUnsigned(ConfKey),
    /// The entry is out of range
    OutOfRange(ConfKey),
    /// The short address computed for the gear is beyond 63
    EndAddressOutOfBounds,
    InvalidGroupNumber,
    /// The group bit mask does not fit 16 bits
    IllegalGroupBitmask,
    /// `gearGroups` is neither a list nor a number
    GroupsNotListOrNumber,
    TooManyScenes,
    InvalidLevel,
    LevelOutOfRange,
    InvalidSceneIndex,
    SceneIndexOutOfRange,
    /// `scenes` is neither a list nor a table
    ScenesNotListOrTable,
}

/// An entry that holds an unsigned integer in `lo..=hi`: `None` when it is
/// absent, else the value or the error.
pub open spec fn spec_conf_uint(v: Option<ConfValue>, key: ConfKey, lo: u64, hi: u64) -> Result<
    Option<u64>,
    ConfigError,
> {
    match v {
        None => Ok(None),
        Some(ConfValue::UInt(x)) => if lo <= x && x <= hi {
            Ok(Some(x))
        } else {
            Err(ConfigError::OutOfRange(key))
        },
        Some(_) => Err(ConfigError::NotUnsigned(key)),
    }
}

fn conf_uint(v: &Option<ConfValue>, key: ConfKey, lo: u64, hi: u64) -> (r: Result<
    Option<u64>,
    ConfigError,
>)
    ensures
        r == spec_conf_uint(*v, key, lo, hi),
{
    match v {
        None => Ok(None),
        Some(ConfValue::UInt(x)) => {
            if lo <= *x && *x <= hi {
                Ok(Some(*x))
            } else {
                Err(ConfigError::OutOfRange(key))
            }
        },
        Some(_) => Err(ConfigError::NotUnsigned(key)),
    }
}

/// An entry's unsigned integer, when it holds one (other values are ignored).
pub open spec fn spec_uint_of(v: Option<ConfValue>) -> Option<u64> {
    match v {
        Some(ConfValue::UInt(x)) => Some(x),
        _ => None,
    }
}

/// The value of a present entry, or `default` when it is absent.
pub open spec fn or_default(o: Option<u64>, default: u64) -> u64 {
    match o {
        Some(x) => x,
        None => default,
    }
}

/// The gear's short address from the configuration, for the `index`-th gear
/// that the configuration is repeated for: the configured address (1 to 64,
/// made 0-based; 0 when absent) plus `index` (taken modulo 256) times the
/// configured step (default 1).
pub open spec fn spec_address_parts(conf: GearConfig, index: usize) -> (u64, u64, u64) {
    let step = or_default(
        spec_conf_uint(conf.short_address_step, ConfKey::ShortAddressStep, 1, 64)->Ok_0,
        1,
    );
    let short = match spec_conf_uint(conf.short_address, ConfKey::ShortAddress, 1, 64)->Ok_0 {
        Some(x) => (x - 1) as u64,
        None => 0,
    };
    (short, step, (index % 256) as u64)
}

/// The first steps of configuring: random address, short address, last
/// light level, and the target level to go to. With an error, the state as
/// far as it was configured.
pub open spec fn spec_configure_head(dev: GearState, conf: GearConfig, index: usize) -> Result<
    (GearState, u8),
    (GearState, ConfigError),
> {
    match spec_conf_uint(conf.random_address, ConfKey::RandomAddress, 0, 0xffffff) {
        Err(e) => Err((dev, e)),
        Ok(ra) => {
            let d1 = match ra {
                Some(x) => GearState { random_address: x as u32, ..dev },
                None => dev,
            };
            match spec_conf_uint(conf.short_address_step, ConfKey::ShortAddressStep, 1, 64) {
                Err(e) => Err((d1, e)),
                Ok(_) => match spec_conf_uint(conf.short_address, ConfKey::ShortAddress, 1, 64) {
                    Err(e) => Err((d1, e)),
                    Ok(_) => {
                        let (short, step, k) = spec_address_parts(conf, index);
                        let total = short + step * k;
                        if total >= 64 {
                            Err((d1, ConfigError::EndAddressOutOfBounds))
                        } else {
                            let d2 = GearState { short_address: total as u8, ..d1 };
                            match spec_conf_uint(
                                conf.last_light_level,
                                ConfKey::LastLightLevel,
                                0,
                                255,
                            ) {
                                Err(e) => Err((d2, e)),
                                Ok(ll) => {
                                    let d3 = match ll {
                                        Some(x) => GearState { last_light_level: x as u8, ..d2 },
                                        None => d2,
                                    };
                                    match spec_conf_uint(
                                        conf.target_level,
                                        ConfKey::TargetLevel,
                                        0,
                                        254,
                                    ) {
                                        Err(e) => Err((d3, e)),
                                        Ok(tl) => Ok((d3, or_default(tl, 0) as u8)),
                                    }
                                },
                            }
                        }
                    },
                },
            }
        },
    }
}

/// The short address sum does not overflow a byte when the configuration
/// gets that far.
pub open spec fn address_sum_fits(conf: GearConfig, index: usize) -> bool {
    let (short, step, k) = spec_address_parts(conf, index);
    (spec_conf_uint(conf.random_address, ConfKey::RandomAddress, 0, 0xffffff) is Ok
        && spec_conf_uint(conf.short_address_step, ConfKey::ShortAddressStep, 1, 64) is Ok
        && spec_conf_uint(conf.short_address, ConfKey::ShortAddress, 1, 64) is Ok) ==> (step * k
        <= 255 && short + step * k <= 255)
}

fn configure_head(state: &mut GearState, conf: &GearConfig, index: usize) -> (r: Result<
    u8,
    ConfigError,
>)
    requires
        address_sum_fits(*conf, index),
    ensures
        match spec_configure_head(*old(state), *conf, index) {
            Err((d, e)) => r == Err::<u8, ConfigError>(e) && *final(state) == d,
            Ok((d, t)) => r == Ok::<u8, ConfigError>(t) && *final(state) == d,
        },
{
    match conf_uint(&conf.random_address, ConfKey::RandomAddress, 0, 0xffffff) {
        Err(e) => {
            return Err(e);
        },
        Ok(Some(x)) => {
            state.random_address = x as u32;
        },
        Ok(None) => {},
    }
    let step: u8 = match conf_uint(&conf.short_address_step, ConfKey::ShortAddressStep, 1, 64) {
        Err(e) => {
            return Err(e);
        },
        Ok(Some(x)) => x as u8,
        Ok(None) => 1,
    };
    let mut short_address: u8 = match conf_uint(&conf.short_address, ConfKey::ShortAddress, 1, 64) {
        Err(e) => {
            return Err(e);
        },
        Ok(Some(x)) => (x - 1) as u8,
        Ok(None) => 0,
    };
    short_address = short_address + step * ((index % 256) as u8);
    if !(short_address < 64) {
        return Err(ConfigError::EndAddressOutOfBounds);
    }
    state.short_address = short_address;
    match conf_uint(&conf.last_light_level, ConfKey::LastLightLevel, 0, 255) {
        Err(e) => {
            return Err(e);
        },
        Ok(Some(x)) => {
            state.last_light_level = x as u8;
        },
        Ok(None) => {},
    }
    match conf_uint(&conf.target_level, ConfKey::TargetLevel, 0, 254) {
        Err(e) => Err(e),
        Ok(Some(x)) => Ok(x as u8),
        Ok(None) => Ok(0),
    }
}

/// The level entries after the target level: power-on level (0 to 254),
/// system failure level, minimum and maximum level.
pub open spec fn spec_configure_levels(dev: GearState, conf: GearConfig) -> Result<
    GearState,
    (GearState, ConfigError),
> {
    match spec_conf_uint(conf.power_on_level, ConfKey::PowerOnLevel, 0, 254) {
        Err(e) => Err((dev, e)),
        Ok(a) => {
            let d1 = match a {
                Some(x) => GearState { power_on_level: x as u8, ..dev },
                None => dev,
            };
            match spec_conf_uint(conf.system_failure_level, ConfKey::SystemFailureLevel, 0, 255) {
                Err(e) => Err((d1, e)),
                Ok(b) => {
                    let d2 = match b {
                        Some(x) => GearState { system_failure_level: x as u8, ..d1 },
                        None => d1,
                    };
                    match spec_conf_uint(conf.min_level, ConfKey::MinLevel, 0, 255) {
                        Err(e) => Err((d2, e)),
                        Ok(c) => {
                            let d3 = match c {
                                Some(x) => GearState { min_level: x as u8, ..d2 },
                                None => d2,
                            };
                            match spec_conf_uint(conf.max_level, ConfKey::MaxLevel, 0, 255) {
                                Err(e) => Err((d3, e)),
                                Ok(m) => Ok(
                                    match m {
                                        Some(x) => GearState { max_level: x as u8, ..d3 },
                                        None => d3,
                                    },
                                ),
                            }
                        },
                    }
                },
            }
        },
    }
}

/// An entry that is absent, or an unsigned integer of at most `hi`.
pub open spec fn entry_within(e: Option<ConfValue>, hi: u64) -> bool {
    match e {
        None => true,
        Some(ConfValue::UInt(v)) => v <= hi,
        Some(_) => false,
    }
}

/// The level an entry sets: its value when it is an unsigned integer, else
/// the level `old` that was there.
pub open spec fn entry_level(e: Option<ConfValue>, old: u8) -> u8 {
    match e {
        Some(ConfValue::UInt(v)) => v as u8,
        _ => old,
    }
}

/// Configuring the levels succeeds exactly when the power-on level is
/// absent or at most 254 and the system failure, minimum and maximum level
/// are each absent or at most 255. Then each level is the one configured,
/// or stays as it was when its entry is absent, and nothing else changes.
pub proof fn lemma_configure_levels_sets_levels(dev: GearState, conf: GearConfig)
    ensures
        spec_configure_levels(dev, conf) is Ok <==> entry_within(conf.power_on_level, 254)
            && entry_within(conf.system_failure_level, 255) && entry_within(conf.min_level, 255)
            && entry_within(conf.max_level, 255),
        spec_configure_levels(dev, conf) matches Ok(d) ==> {
            &&& d.power_on_level == entry_level(conf.power_on_level, dev.power_on_level)
            &&& d.system_failure_level == entry_level(
                conf.system_failure_level,
                dev.system_failure_level,
            )
            &&& d.min_level == entry_level(conf.min_level, dev.min_level)
            &&& d.max_level == entry_level(conf.max_level, dev.max_level)
            &&& (GearState {
                power_on_level: dev.power_on_level,
                system_failure_level: dev.system_failure_level,
                min_level: dev.min_level,
                max_level: dev.max_level,
                ..d
            }) == dev
        },
{
}

fn configure_levels(state: &mut GearState, conf: &GearConfig) -> (r: Result<(), ConfigError>)
    ensures
        match spec_configure_levels(*old(state), *conf) {
            Err((d, e)) => r == Err::<(), ConfigError>(e) && *final(state) == d,
            Ok(d) => r is Ok && *final(state) == d,
        },
{
    match conf_uint(&conf.power_on_level, ConfKey::PowerOnLevel, 0, 254) {
        Err(e) => {
            return Err(e);
        },
        Ok(Some(x)) => {
            state.power_on_level = x as u8;
        },
        Ok(None) => {},
    }
    match conf_uint(&conf.system_failure_level, ConfKey::SystemFailureLevel, 0, 255) {
        Err(e) => {
            return Err(e);
        },
        Ok(Some(x)) => {
            state.system_failure_level = x as u8;
        },
        Ok(None) => {},
    }
    match conf_uint(&conf.min_level, ConfKey::MinLevel, 0, 255) {
        Err(e) => {
            return Err(e);
        },
        Ok(Some(x)) => {
            state.min_level = x as u8;
        },
        Ok(None) => {},
    }
    match conf_uint(&conf.max_level, ConfKey::MaxLevel, 0, 255) {
        Err(e) => Err(e),
        Ok(Some(x)) => {
            state.max_level = x as u8;
            Ok(())
        },
        Ok(None) => Ok(()),
    }
}

/// The fade settings: fade rate and fade time (the low 4 bits of each
/// value), extended fade time base (low 4 bits) and multiplier (low 3
/// bits). Entries that are no unsigned integer are ignored.
pub open spec fn spec_configure_fade(dev: GearState, conf: GearConfig) -> GearState {
    let f1 = match spec_uint_of(conf.fade_rate) {
        Some(v) => (dev.fade & 0xf0) | ((v % 16) as u8),
        None => dev.fade,
    };
    let f2 = match spec_uint_of(conf.fade_time) {
        Some(v) => (f1 & 0x0f) | (((v % 16) * 16) as u8),
        None => f1,
    };
    let e1 = match spec_uint_of(conf.extended_fade_time_base) {
        Some(v) => (dev.extended_fade_time & 0xf0) | ((v % 16) as u8),
        None => dev.extended_fade_time,
    };
    let e2 = match spec_uint_of(conf.extended_fade_time_multiplier) {
        Some(v) => (e1 & 0x0f) | (((v % 8) * 16) as u8),
        None => e1,
    };
    GearState { fade: f2, extended_fade_time: e2, ..dev }
}

fn uint_of(v: &Option<ConfValue>) -> (r: Option<u64>)
    ensures
        r == spec_uint_of(*v),
{
    match v {
        Some(ConfValue::UInt(x)) => Some(*x),
        _ => None,
    }
}

fn configure_fade(state: &mut GearState, conf: &GearConfig)
    ensures
        *final(state) == spec_configure_fade(*old(state), *conf),
{
    if let Some(v) = uint_of(&conf.fade_rate) {
        state.fade = (state.fade & 0xf0) | ((v % 16) as u8);
    }
    if let Some(v) = uint_of(&conf.fade_time) {
        state.fade = (state.fade & 0x0f) | (((v % 16) * 16) as u8);
    }
    if let Some(v) = uint_of(&conf.extended_fade_time_base) {
        state.extended_fade_time = (state.extended_fade_time & 0xf0) | ((v % 16) as u8);
    }
    if let Some(v) = uint_of(&conf.extended_fade_time_multiplier) {
        state.extended_fade_time = (state.extended_fade_time & 0x0f) | (((v % 8) * 16) as u8);
    }
}

/// The group bits after adding the groups `groups[i..]` (numbered 1 to 16)
/// to `bits`, and whether every one was a valid group number; adding stops
/// at the first invalid one.
pub open spec fn spec_add_groups(bits: u16, groups: Seq<Option<u64>>, i: int) -> (u16, bool)
    decreases groups.len() - i,
{
    if i >= groups.len() || i < 0 {
        (bits, true)
    } else {
        match groups[i] {
            Some(g) => if 1 <= g && g <= 16 {
                spec_add_groups(bits | (1u16 << ((g - 1) as u16)), groups, i + 1)
            } else {
                (bits, false)
            },
            None => (bits, false),
        }
    }
}

/// The gear groups: a list of group numbers (1 to 16) added to the gear's
/// groups, or a number that is the group bit mask.
pub open spec fn spec_configure_groups(dev: GearState, conf: GearConfig) -> Result<
    GearState,
    (GearState, ConfigError),
> {
    match conf.gear_groups {
        None => Ok(dev),
        Some(ConfValue::List(groups)) => {
            let (bits, ok) = spec_add_groups(dev.gear_groups, groups@, 0);
            let d = GearState { gear_groups: bits, ..dev };
            if ok {
                Ok(d)
            } else {
                Err((d, ConfigError::InvalidGroupNumber))
            }
        },
        Some(ConfValue::UInt(g)) => if g <= 0xffff {
            Ok(GearState { gear_groups: g as u16, ..dev })
        } else {
            Err((dev, ConfigError::IllegalGroupBitmask))
        },
        Some(_) => Err((dev, ConfigError::GroupsNotListOrNumber)),
    }
}

fn configure_groups(state: &mut GearState, conf: &GearConfig) -> (r: Result<(), ConfigError>)
    ensures
        match spec_configure_groups(*old(state), *conf) {
            Err((d, e)) => r == Err::<(), ConfigError>(e) && *final(state) == d,
            Ok(d) => r is Ok && *final(state) == d,
        },
{
    match &conf.gear_groups {
        None => Ok(()),
        Some(ConfValue::List(groups)) => {
            let mut i: usize = 0;
            while i < groups.len()
                invariant
                    i <= groups.len(),
                    conf.gear_groups == Some(ConfValue::List(*groups)),
                    spec_add_groups(old(state).gear_groups, groups@, 0) == spec_add_groups(
                        state.gear_groups,
                        groups@,
                        i as int,
                    ),
                    *state == (GearState { gear_groups: state.gear_groups, ..*old(state) }),
                decreases groups.len() - i,
            {
                match groups[i] {
                    Some(g) => {
                        if 1 <= g && g <= 16 {
                            state.gear_groups = state.gear_groups | (1u16 << ((g - 1) as u16));
                        } else {
                            assert(spec_add_groups(state.gear_groups, groups@, i as int) == (
                            state.gear_groups, false));
                            return Err(ConfigError::InvalidGroupNumber);
                        }
                    },
                    None => {
                        assert(spec_add_groups(state.gear_groups, groups@, i as int) == (
                        state.gear_groups, false));
                        return Err(ConfigError::InvalidGroupNumber);
                    },
                }
                i = i + 1;
            }
            Ok(())
        },
        Some(ConfValue::UInt(g)) => {
            if *g <= 0xffff {
                state.gear_groups = *g as u16;
                Ok(())
            } else {
                Err(ConfigError::IllegalGroupBitmask)
            }
        },
        Some(_) => Err(ConfigError::GroupsNotListOrNumber),
    }
}

/// The scene levels after setting scene `i`, `i + 1`, ... to the levels
/// `levels[i..]`; setting stops at the first level that is no byte.
pub open spec fn spec_scene_list(scenes: Seq<u8>, levels: Seq<Option<u64>>, i: int) -> (
    Seq<u8>,
    Option<ConfigError>,
)
    decreases levels.len() - i,
{
    if i >= levels.len() || i < 0 {
        (scenes, None)
    } else {
        match levels[i] {
            None => (scenes, Some(ConfigError::InvalidLevel)),
            Some(l) => if l > 255 {
                (scenes, Some(ConfigError::LevelOutOfRange))
            } else {
                spec_scene_list(scenes.update(i, l as u8), levels, i + 1)
            },
        }
    }
}

/// The scene levels after setting the scenes of the table entries
/// `entries[i..]` (scene number, level); setting stops at the first entry
/// with no scene number below 16 or no byte for a level.
pub open spec fn spec_scene_table(
    scenes: Seq<u8>,
    entries: Seq<(Option<u64>, Option<u64>)>,
    i: int,
) -> (Seq<u8>, Option<ConfigError>)
    decreases entries.len() - i,
{
    if i >= entries.len() || i < 0 {
        (scenes, None)
    } else {
        match entries[i].0 {
            None => (scenes, Some(ConfigError::InvalidSceneIndex)),
            Some(k) => if k >= 16 {
                (scenes, Some(ConfigError::SceneIndexOutOfRange))
            } else {
                match entries[i].1 {
                    None => (scenes, Some(ConfigError::InvalidLevel)),
                    Some(l) => if l > 255 {
                        (scenes, Some(ConfigError::LevelOutOfRange))
                    } else {
                        spec_scene_table(scenes.update(k as int, l as u8), entries, i + 1)
                    },
                }
            },
        }
    }
}

/// The scene levels from `scenes` after the configuration's `scenes`
/// entry: a list of up to 16 levels for scenes 0, 1, ..., or a table from
/// scene numbers to levels. With an error, the levels as far as they were
/// set.
pub open spec fn spec_configure_scenes(scenes: Seq<u8>, conf: GearConfig) -> (
    Seq<u8>,
    Option<ConfigError>,
) {
    match conf.scenes {
        None => (scenes, None),
        Some(ConfValue::List(levels)) => if levels@.len() > 16 {
            (scenes, Some(ConfigError::TooManyScenes))
        } else {
            spec_scene_list(scenes, levels@, 0)
        },
        Some(ConfValue::Table(entries)) => spec_scene_table(scenes, entries@, 0),
        Some(_) => (scenes, Some(ConfigError::ScenesNotListOrTable)),
    }
}

/// The result that an optional error stands for.
pub open spec fn result_of(e: Option<ConfigError>) -> Result<(), ConfigError> {
    match e {
        Some(x) => Err(x),
        None => Ok(()),
    }
}

fn configure_scenes(state: &mut GearState, conf: &GearConfig) -> (r: Result<(), ConfigError>)
    ensures
        final(state).scenes@ == spec_configure_scenes(old(state).scenes@, *conf).0,
        r == result_of(spec_configure_scenes(old(state).scenes@, *conf).1),
        (GearState { scenes: old(state).scenes, ..*final(state) }) == *old(state),
{
    match &conf.scenes {
        None => Ok(()),
        Some(ConfValue::List(levels)) => {
            if levels.len() > 16 {
                return Err(ConfigError::TooManyScenes);
            }
            let mut i: usize = 0;
            while i < levels.len()
                invariant
                    i <= levels.len() <= 16,
                    conf.scenes == Some(ConfValue::List(*levels)),
                    spec_scene_list(old(state).scenes@, levels@, 0) == spec_scene_list(
                        state.scenes@,
                        levels@,
                        i as int,
                    ),
                    (GearState { scenes: old(state).scenes, ..*state }) == *old(state),
                decreases levels.len() - i,
            {
                match levels[i] {
                    None => {
                        return Err(ConfigError::InvalidLevel);
                    },
                    Some(l) => {
                        if l > 255 {
                            return Err(ConfigError::LevelOutOfRange);
                        }
                        state.scenes[i] = l as u8;
                    },
                }
                i = i + 1;
            }
            Ok(())
        },
        Some(ConfValue::Table(entries)) => {
            let mut i: usize = 0;
            while i < entries.len()
                invariant
                    i <= entries.len(),
                    conf.scenes == Some(ConfValue::Table(*entries)),
                    spec_scene_table(old(state).scenes@, entries@, 0) == spec_scene_table(
                        state.scenes@,
                        entries@,
                        i as int,
                    ),
                    (GearState { scenes: old(state).scenes, ..*state }) == *old(state),
                decreases entries.len() - i,
            {
                let (k, v) = entries[i];
                match k {
                    None => {
                        return Err(ConfigError::InvalidSceneIndex);
                    },
                    Some(k) => {
                        if k >= 16 {
                            return Err(ConfigError::SceneIndexOutOfRange);
                        }
                        match v {
                            None => {
                                return Err(ConfigError::InvalidLevel);
                            },
                            Some(l) => {
                                if l > 255 {
                                    return Err(ConfigError::LevelOutOfRange);
                                }
                                state.scenes[k as usize] = l as u8;
                            },
                        }
                    },
                }
                i = i + 1;
            }
            Ok(())
        },
        Some(_) => Err(ConfigError::ScenesNotListOrTable),
    }
}

/// The configuring after the target level: levels, fade settings, groups
/// and scenes, from `dev` to `after` with result `r`.
pub open spec fn spec_configure_tail(
    dev: GearState,
    conf: GearConfig,
    after: GearState,
    r: Result<(), ConfigError>,
) -> bool {
    match spec_configure_levels(dev, conf) {
        Err((d, e)) => after == d && r == Err::<(), ConfigError>(e),
        Ok(d) => match spec_configure_groups(spec_configure_fade(d, conf), conf) {
            Err((d3, e)) => after == d3 && r == Err::<(), ConfigError>(e),
            Ok(d3) => {
                let (sc, err) = spec_configure_scenes(d3.scenes@, conf);
                &&& after.scenes@ == sc
                &&& (GearState { scenes: d3.scenes, ..after }) == d3
                &&& r == result_of(err)
            },
        },
    }
}

/// The configuration can be applied without an arithmetic fault: the short
/// address sum fits a byte, and the fade to the target level can be set up.
pub open spec fn configure_ok(dev: GearState, conf: GearConfig, index: usize) -> bool {
    &&& address_sum_fits(conf, index)
    &&& spec_configure_head(dev, conf, index) matches Ok((s1, t)) ==> start_fade_time_ok(
        s1,
        spec_clamp_level(s1, t),
    )
}

/// Configuring `dev` from `conf` as the `index`-th gear gives `after` and
/// `r`: see `configure`.
pub open spec fn spec_configure(
    dev: GearState,
    conf: GearConfig,
    index: usize,
    after: GearState,
    r: Result<(), ConfigError>,
) -> bool {
    match spec_configure_head(dev, conf, index) {
        Err((d, e)) => r == Err::<(), ConfigError>(e) && after == d,
        Ok((s1, t)) => exists|s2: GearState|
            #[trigger] spec_start_fade_time(s1, spec_clamp_level(s1, t), s2)
                && spec_configure_tail(s2, conf, after, r),
    }
}

/// A configuration that succeeds leaves the gear with the configured
/// power-on, system failure, minimum and maximum level, each as it was when
/// its entry is absent.
pub proof fn lemma_configure_sets_levels(
    dev: GearState,
    conf: GearConfig,
    index: usize,
    after: GearState,
)
    requires
        spec_configure(dev, conf, index, after, Ok(())),
    ensures
        after.max_level == entry_level(conf.max_level, dev.max_level),
        after.min_level == entry_level(conf.min_level, dev.min_level),
        after.power_on_level == entry_level(conf.power_on_level, dev.power_on_level),
        after.system_failure_level == entry_level(conf.system_failure_level, dev.system_failure_level),
{
    match spec_configure_head(dev, conf, index) {
        Err((d, e)) => {},
        Ok((s1, t)) => {
            assert(s1.max_level == dev.max_level && s1.min_level == dev.min_level
                && s1.power_on_level == dev.power_on_level && s1.system_failure_level
                == dev.system_failure_level);
            let s2 = choose|s2: GearState|
                #[trigger] spec_start_fade_time(s1, spec_clamp_level(s1, t), s2)
                    && spec_configure_tail(s2, conf, after, Ok(()));
            assert(s2.max_level == s1.max_level && s2.min_level == s1.min_level
                && s2.power_on_level == s1.power_on_level && s2.system_failure_level
                == s1.system_failure_level);
            lemma_configure_levels_sets_levels(s2, conf);
            match spec_configure_levels(s2, conf) {
                Err(_) => {},
                Ok(d) => {
                    let f = spec_configure_fade(d, conf);
                    match spec_configure_groups(f, conf) {
                        Err(_) => {},
                        Ok(d3) => {
                            assert(d3.max_level == d.max_level && d3.min_level == d.min_level
                                && d3.power_on_level == d.power_on_level
                                && d3.system_failure_level == d.system_failure_level);
                        },
                    }
                },
            }
        },
    }
}

/// Configures the gear from `conf`, for the `index`-th gear that the
/// configuration is repeated for. The entries are applied in turn: random
/// address, short address (the configured one plus `index` times the
/// step), last light level, target level (the gear goes there with its fade
/// time), power-on, system failure, minimum and maximum level, fade
/// settings, groups and scenes. The first entry in error ends configuring
/// with the error; the entries before it stay applied.
pub fn configure(state: &mut GearState, conf: &GearConfig, index: usize) -> (r: Result<
    (),
    ConfigError,
>)
    requires
        configure_ok(*old(state), *conf, index),
    ensures
        spec_configure(*old(state), *conf, index, *final(state), r),
{
    let target = match configure_head(state, conf, index) {
        Err(e) => {
            return Err(e);
        },
        Ok(t) => t,
    };
    let ghost s1 = *state;
    set_target_level(state, target);
    let ghost s2 = *state;
    match configure_levels(state, conf) {
        Err(e) => {
            return Err(e);
        },
        Ok(()) => {},
    }
    configure_fade(state, conf);
    match configure_groups(state, conf) {
        Err(e) => {
            return Err(e);
        },
        Ok(()) => {},
    }
    let r = configure_scenes(state, conf);
    assert(spec_start_fade_time(s1, spec_clamp_level(s1, target), s2));
    r
}

/// Why a parameter could not be read or set.
#[derive(Debug, Clone, Copy, PartialEq, Eq, Structural)]
pub enum ParameterError {
    NotFound,
    InvalidValue,
}

impl ParameterError {
    /// The error's description.
    pub fn message(&self) -> (s: &'static str)
        ensures
            s@ == match *self {
                ParameterError::NotFound => "Parameter not found"@,
                ParameterError::InvalidValue => "Invalid value for parameter"@,
            },
    {
        match self {
            ParameterError::NotFound => "Parameter not found",
            ParameterError::InvalidValue => "Invalid value for parameter",
        }
    }
}

/// The status flag `flag` is set.
pub open spec fn flag_set(dev: GearState, flag: u8) -> bool {
    dev.status & flag != 0
}

/// The JSON text of a boolean.
pub open spec fn bool_text(b: bool) -> Seq<char> {
    if b {
        "true"@
    } else {
        "false"@
    }
}

/// The value of parameter `name` of gear `dev` at `now`, as text: numbers
/// and flags in JSON, the states by their names; any other name is read as
/// a field of the gear's JSON form (see `spec_get_field`).
pub open spec fn spec_get_parameter(dev: GearState, name: Seq<char>, now: u64) -> Result<
    Seq<char>,
    ParameterError,
> {
    if name == "actualLevel"@ {
        Ok(int_decimal(dev.spec_level_at(now) as int))
    } else if name == "targetLevel"@ {
        Ok(int_decimal(trunc_div(dev.target_level + 64, 128)))
    } else if name == "shortAddress"@ {
        Ok(int_decimal(dev.short_address + 1))
    } else if name == "fadeTime"@ {
        Ok(int_decimal((dev.fade / 16) as int))
    } else if name == "fadeRate"@ {
        Ok(int_decimal((dev.fade % 16) as int))
    } else if name == "extendedFadeTimeBase"@ {
        Ok(int_decimal((dev.extended_fade_time % 16) as int))
    } else if name == "extendedFadeTimeMultiplier"@ {
        Ok(int_decimal(((dev.extended_fade_time / 16) % 8) as int))
    } else if name == "initialisationState"@ {
        Ok(
            match dev.initialisation_state {
                InitialisationState::ENABLED => "ENABLED"@,
                InitialisationState::DISABLED => "DISABLED"@,
                InitialisationState::WITHDRAWN => "WITHDRAWN"@,
            },
        )
    } else if name == "writeEnableState"@ {
        Ok(
            match dev.write_enable_state {
                WriteEnableState::ENABLED => "ENABLED"@,
                WriteEnableState::DISABLED => "DISABLED"@,
            },
        )
    } else if name == "controlGearFailure"@ {
        Ok(bool_text(flag_set(dev, 0x01)))
    } else if name == "lampFailure"@ {
        Ok(bool_text(flag_set(dev, 0x02)))
    } else if name == "lampOn"@ {
        Ok(bool_text(flag_set(dev, 0x04)))
    } else if name == "limitError"@ {
        Ok(bool_text(flag_set(dev, 0x08)))
    } else if name == "fadeRunning"@ {
        Ok(bool_text(flag_set(dev, 0x10)))
    } else if name == "resetState"@ {
        Ok(bool_text(flag_set(dev, 0x20)))
    } else if name == "powerCycleSeen"@ {
        Ok(bool_text(flag_set(dev, 0x80)))
    } else {
        spec_get_field(dev, name)
    }
}

/// A field of the gear's state that is read and set by its name, the name
/// it has in the gear's JSON form.
#[derive(Debug, Clone, Copy, PartialEq, Eq, Structural)]
pub enum GearField {
    Name,
    Powered,
    TargetLevel,
    LastActiveLevel,
    LastLightLevel,
    PowerOnLevel,
    SystemFailureLevel,
    MinLevel,
    MaxLevel,
    Fade,
    ExtendedFadeTime,
    ShortAddress,
    SearchAddress,
    RandomAddress,
    OperatingMode,
    Status,
    GearGroups,
    Scenes,
    Dtr0,
    Dtr1,
    Dtr2,
    Phm,
}

/// The field named `name` in the gear's JSON form, if any.
pub open spec fn spec_field_of(name: Seq<char>) -> Option<GearField> {
    if name == "name"@ {
        Some(GearField::Name)
    }     else if name == "powered"@ {
        Some(GearField::Powered)
    }     else if name == "targetLevel"@ {
        Some(GearField::TargetLevel)
    }     else if name == "lastActiveLevel"@ {
        Some(GearField::LastActiveLevel)
    }     else if name == "lastLightLevel"@ {
        Some(GearField::LastLightLevel)
    }     else if name == "powerOnLevel"@ {
        Some(GearField::PowerOnLevel)
    }     else if name == "systemFailureLevel"@ {
        Some(GearField::SystemFailureLevel)
    }     else if name == "minLevel"@ {
        Some(GearField::MinLevel)
    }     else if name == "maxLevel"@ {
        Some(GearField::MaxLevel)
    }     else if name == "fade"@ {
        Some(GearField::Fade)
    }     else if name == "extendedFadeTime"@ {
        Some(GearField::ExtendedFadeTime)
    }     else if name == "shortAddress"@ {
        Some(GearField::ShortAddress)
    }     else if name == "searchAddress"@ {
        Some(GearField::SearchAddress)
    }     else if name == "randomAddress"@ {
        Some(GearField::RandomAddress)
    }     else if name == "operatingMode"@ {
        Some(GearField::OperatingMode)
    }     else if name == "status"@ {
        Some(GearField::Status)
    }     else if name == "gearGroups"@ {
        Some(GearField::GearGroups)
    }     else if name == "scenes"@ {
        Some(GearField::Scenes)
    }     else if name == "DTR0"@ {
        Some(GearField::Dtr0)
    }     else if name == "DTR1"@ {
        Some(GearField::Dtr1)
    }     else if name == "DTR2"@ {
        Some(GearField::Dtr2)
    }     else if name == "PHM"@ {
        Some(GearField::Phm)
    } else {
        None
    }
}

/// The field named `name`, if any.
pub fn field_of(name: &str) -> (r: Option<GearField>)
    ensures
        r == spec_field_of(name@),
{
    if str_eq(name, "name") {
        Some(GearField::Name)
    }     else if str_eq(name, "powered") {
        Some(GearField::Powered)
    }     else if str_eq(name, "targetLevel") {
        Some(GearField::TargetLevel)
    }     else if str_eq(name, "lastActiveLevel") {
        Some(GearField::LastActiveLevel)
    }     else if str_eq(name, "lastLightLevel") {
        Some(GearField::LastLightLevel)
    }     else if str_eq(name, "powerOnLevel") {
        Some(GearField::PowerOnLevel)
    }     else if str_eq(name, "systemFailureLevel") {
        Some(GearField::SystemFailureLevel)
    }     else if str_eq(name, "minLevel") {
        Some(GearField::MinLevel)
    }     else if str_eq(name, "maxLevel") {
        Some(GearField::MaxLevel)
    }     else if str_eq(name, "fade") {
        Some(GearField::Fade)
    }     else if str_eq(name, "extendedFadeTime") {
        Some(GearField::ExtendedFadeTime)
    }     else if str_eq(name, "shortAddress") {
        Some(GearField::ShortAddress)
    }     else if str_eq(name, "searchAddress") {
        Some(GearField::SearchAddress)
    }     else if str_eq(name, "randomAddress") {
        Some(GearField::RandomAddress)
    }     else if str_eq(name, "operatingMode") {
        Some(GearField::OperatingMode)
    }     else if str_eq(name, "status") {
        Some(GearField::Status)
    }     else if str_eq(name, "gearGroups") {
        Some(GearField::GearGroups)
    }     else if str_eq(name, "scenes") {
        Some(GearField::Scenes)
    }     else if str_eq(name, "DTR0") {
        Some(GearField::Dtr0)
    }     else if str_eq(name, "DTR1") {
        Some(GearField::Dtr1)
    }     else if str_eq(name, "DTR2") {
        Some(GearField::Dtr2)
    }     else if str_eq(name, "PHM") {
        Some(GearField::Phm)
    } else {
        None
    }
}

/// The value of byte field `f` of `dev`; `None` when `f` is no byte.
pub open spec fn byte_field(dev: GearState, f: GearField) -> Option<u8> {
    match f {
        GearField::LastActiveLevel => Some(dev.last_active_level),
        GearField::LastLightLevel => Some(dev.last_light_level),
        GearField::PowerOnLevel => Some(dev.power_on_level),
        GearField::SystemFailureLevel => Some(dev.system_failure_level),
        GearField::MinLevel => Some(dev.min_level),
        GearField::MaxLevel => Some(dev.max_level),
        GearField::Fade => Some(dev.fade),
        GearField::ExtendedFadeTime => Some(dev.extended_fade_time),
        GearField::ShortAddress => Some(dev.short_address),
        GearField::OperatingMode => Some(dev.operating_mode),
        GearField::Status => Some(dev.status),
        GearField::Dtr0 => Some(dev.dtr0),
        GearField::Dtr1 => Some(dev.dtr1),
        GearField::Dtr2 => Some(dev.dtr2),
        GearField::Phm => Some(dev.physical_minimum_level),
        _ => None,
    }
}

/// `dev` with byte field `f` set to `v`.
pub open spec fn with_byte_field(dev: GearState, f: GearField, v: u8) -> GearState {
    match f {
        GearField::LastActiveLevel => GearState { last_active_level: v, ..dev },
        GearField::LastLightLevel => GearState { last_light_level: v, ..dev },
        GearField::PowerOnLevel => GearState { power_on_level: v, ..dev },
        GearField::SystemFailureLevel => GearState { system_failure_level: v, ..dev },
        GearField::MinLevel => GearState { min_level: v, ..dev },
        GearField::MaxLevel => GearState { max_level: v, ..dev },
        GearField::Fade => GearState { fade: v, ..dev },
        GearField::ExtendedFadeTime => GearState { extended_fade_time: v, ..dev },
        GearField::ShortAddress => GearState { short_address: v, ..dev },
        GearField::OperatingMode => GearState { operating_mode: v, ..dev },
        GearField::Status => GearState { status: v, ..dev },
        GearField::Dtr0 => GearState { dtr0: v, ..dev },
        GearField::Dtr1 => GearState { dtr1: v, ..dev },
        GearField::Dtr2 => GearState { dtr2: v, ..dev },
        GearField::Phm => GearState { physical_minimum_level: v, ..dev },
        _ => dev,
    }
}

fn get_byte_field(dev: &GearState, f: GearField) -> (r: u8)
    requires
        byte_field(*dev, f) is Some,
    ensures
        Some(r) == byte_field(*dev, f),
{
    match f {
        GearField::LastActiveLevel => dev.last_active_level,
        GearField::LastLightLevel => dev.last_light_level,
        GearField::PowerOnLevel => dev.power_on_level,
        GearField::SystemFailureLevel => dev.system_failure_level,
        GearField::MinLevel => dev.min_level,
        GearField::MaxLevel => dev.max_level,
        GearField::Fade => dev.fade,
        GearField::ExtendedFadeTime => dev.extended_fade_time,
        GearField::ShortAddress => dev.short_address,
        GearField::OperatingMode => dev.operating_mode,
        GearField::Status => dev.status,
        GearField::Dtr0 => dev.dtr0,
        GearField::Dtr1 => dev.dtr1,
        GearField::Dtr2 => dev.dtr2,
        GearField::Phm => dev.physical_minimum_level,
        _ => 0,
    }
}

fn set_byte_field(dev: &mut GearState, f: GearField, v: u8)
    requires
        byte_field(*old(dev), f) is Some,
    ensures
        *final(dev) == with_byte_field(*old(dev), f, v),
{
    match f {
        GearField::LastActiveLevel => {
            dev.last_active_level = v;
        },
        GearField::LastLightLevel => {
            dev.last_light_level = v;
        },
        GearField::PowerOnLevel => {
            dev.power_on_level = v;
        },
        GearField::SystemFailureLevel => {
            dev.system_failure_level = v;
        },
        GearField::MinLevel => {
            dev.min_level = v;
        },
        GearField::MaxLevel => {
            dev.max_level = v;
        },
        GearField::Fade => {
            dev.fade = v;
        },
        GearField::ExtendedFadeTime => {
            dev.extended_fade_time = v;
        },
        GearField::ShortAddress => {
            dev.short_address = v;
        },
        GearField::OperatingMode => {
            dev.operating_mode = v;
        },
        GearField::Status => {
            dev.status = v;
        },
        GearField::Dtr0 => {
            dev.dtr0 = v;
        },
        GearField::Dtr1 => {
            dev.dtr1 = v;
        },
        GearField::Dtr2 => {
            dev.dtr2 = v;
        },
        GearField::Phm => {
            dev.physical_minimum_level = v;
        },
        _ => {},
    }
}

/// Field `f` of `dev` in JSON, as `serde_json` writes it.
pub open spec fn field_text(dev: GearState, f: GearField) -> Seq<char> {
    match f {
        GearField::Name => json_quoted(dev.name@),
        GearField::Powered => bool_text(dev.powered),
        GearField::TargetLevel => int_decimal(dev.target_level as int),
        GearField::SearchAddress => int_decimal(dev.search_address as int),
        GearField::RandomAddress => int_decimal(dev.random_address as int),
        GearField::GearGroups => int_decimal(dev.gear_groups as int),
        GearField::Scenes => json_byte_array(dev.scenes@),
        _ => int_decimal(byte_field(dev, f)->0 as int),
    }
}

/// Reading field `name` of the gear's JSON form: its value in JSON, or
/// `NotFound` when the gear has no such field.
pub open spec fn spec_get_field(dev: GearState, name: Seq<char>) -> Result<Seq<char>, ParameterError> {
    match spec_field_of(name) {
        Some(f) => Ok(field_text(dev, f)),
        None => Err(ParameterError::NotFound),
    }
}

/// Reads field `name` of the gear's JSON form: see `spec_get_field`.
pub fn get_field(dev: &GearState, name: &str) -> (r: Result<String, ParameterError>)
    ensures
        match spec_get_field(*dev, name@) {
            Ok(t) => r matches Ok(s) && s@ == t,
            Err(e) => r == Err::<String, ParameterError>(e),
        },
{
    let f = match field_of(name) {
        Some(f) => f,
        None => {
            return Err(ParameterError::NotFound);
        },
    };
    let text = match f {
        GearField::Name => json_of_text(dev.name.as_str()),
        GearField::Powered => json_of_bool(dev.powered),
        GearField::TargetLevel => json_of_int(dev.target_level as i64),
        GearField::SearchAddress => json_of_int(dev.search_address as i64),
        GearField::RandomAddress => json_of_int(dev.random_address as i64),
        GearField::GearGroups => json_of_int(dev.gear_groups as i64),
        GearField::Scenes => json_of_bytes16(&dev.scenes),
        _ => json_of_int(get_byte_field(dev, f) as i64),
    };
    Ok(text)
}

/// The value that refuses to be set leaves the gear as it was.
pub open spec fn refused(dev: GearState, after: GearState, r: Result<(), ParameterError>) -> bool {
    r == Err::<(), ParameterError>(ParameterError::InvalidValue) && after == dev
}

/// Setting field `name` of the gear's JSON form from the JSON text `value`
/// gives `after` and `r`: the field takes the value read as its type, or,
/// when `value` holds no value of that type, the value is invalid and the
/// gear stays as it was; a name of no field is not found.
pub open spec fn spec_set_field(
    dev: GearState,
    name: Seq<char>,
    value: Seq<char>,
    after: GearState,
    r: Result<(), ParameterError>,
) -> bool {
    match spec_field_of(name) {
        None => r == Err::<(), ParameterError>(ParameterError::NotFound) && after == dev,
        Some(f) => match f {
            GearField::Name => match json_text(value) {
                Some(t) => r is Ok && after.name@ == t && after == GearState { name: after.name, ..dev },
                None => refused(dev, after, r),
            },
            GearField::Powered => match json_bool(value) {
                Some(b) => r is Ok && after == GearState { powered: b, ..dev },
                None => refused(dev, after, r),
            },
            GearField::TargetLevel => match json_i16(value) {
                Some(v) => r is Ok && after == GearState { target_level: v, ..dev },
                None => refused(dev, after, r),
            },
            GearField::SearchAddress => match json_u32(value) {
                Some(v) => r is Ok && after == GearState { search_address: v, ..dev },
                None => refused(dev, after, r),
            },
            GearField::RandomAddress => match json_u32(value) {
                Some(v) => r is Ok && after == GearState { random_address: v, ..dev },
                None => refused(dev, after, r),
            },
            GearField::GearGroups => match json_u16(value) {
                Some(v) => r is Ok && after == GearState { gear_groups: v, ..dev },
                None => refused(dev, after, r),
            },
            GearField::Scenes => if exists|v: Seq<u8>| json_bytes16_text(value, v) {
                r is Ok && json_bytes16_text(value, after.scenes@) && after == GearState {
                    scenes: after.scenes,
                    ..dev
                }
            } else {
                refused(dev, after, r)
            },
            _ => match json_u8(value) {
                Some(v) => r is Ok && after == with_byte_field(dev, f, v),
                None => refused(dev, after, r),
            },
        },
    }
}

/// Sets field `name` of the gear's JSON form from the JSON text `value`:
/// see `spec_set_field`.
pub fn set_field(dev: &mut GearState, name: &str, value: &str) -> (r: Result<(), ParameterError>)
    ensures
        spec_set_field(*old(dev), name@, value@, *final(dev), r),
{
    let f = match field_of(name) {
        Some(f) => f,
        None => {
            return Err(ParameterError::NotFound);
        },
    };
    match f {
        GearField::Name => match parse_json_text(value) {
            Some(t) => {
                dev.name = t;
                Ok(())
            },
            None => Err(ParameterError::InvalidValue),
        },
        GearField::Powered => match parse_json_bool(value) {
            Some(b) => {
                dev.powered = b;
                Ok(())
            },
            None => Err(ParameterError::InvalidValue),
        },
        GearField::TargetLevel => match parse_json_i16(value) {
            Some(v) => {
                dev.target_level = v;
                Ok(())
            },
            None => Err(ParameterError::InvalidValue),
        },
        GearField::SearchAddress => match parse_json_u32(value) {
            Some(v) => {
                dev.search_address = v;
                Ok(())
            },
            None => Err(ParameterError::InvalidValue),
        },
        GearField::RandomAddress => match parse_json_u32(value) {
            Some(v) => {
                dev.random_address = v;
                Ok(())
            },
            None => Err(ParameterError::InvalidValue),
        },
        GearField::GearGroups => match parse_json_u16(value) {
            Some(v) => {
                dev.gear_groups = v;
                Ok(())
            },
            None => Err(ParameterError::InvalidValue),
        },
        GearField::Scenes => match parse_json_bytes16(value) {
            Some(a) => {
                dev.scenes = a;
                Ok(())
            },
            None => Err(ParameterError::InvalidValue),
        },
        _ => match parse_json_u8(value) {
            Some(v) => {
                set_byte_field(dev, f, v);
                Ok(())
            },
            None => Err(ParameterError::InvalidValue),
        },
    }
}

/// Reading parameter `name` has no arithmetic fault: the level can be
/// computed, the target level can be rounded, and the gear has a short
/// address to show.
pub open spec fn get_parameter_ok(dev: GearState, name: Seq<char>, now: u64) -> bool {
    &&& name == "actualLevel"@ ==> dev.level_ok(now)
    &&& name == "targetLevel"@ ==> dev.target_level + 64 <= i16::MAX
    &&& name == "shortAddress"@ ==> dev.short_address < 255
}

fn flag_text(status: u8, flag: u8) -> (s: String)
    ensures
        s@ == bool_text(status & flag != 0),
{
    json_of_bool(status & flag != 0)
}

/// Reads parameter `name` of the gear at `now`: see `spec_get_parameter`.
/// Other names are read as fields of the gear's JSON form.
pub fn get_parameter(dev: &GearState, name: &str, now: u64) -> (r: Result<String, ParameterError>)
    requires
        get_parameter_ok(*dev, name@, now),
    ensures
        match spec_get_parameter(*dev, name@, now) {
            Ok(t) => r matches Ok(s) && s@ == t,
            Err(e) => r == Err::<String, ParameterError>(e),
        },
{
    if str_eq(name, "actualLevel") {
        Ok(json_of_int(dev.actual_level_at(now) as i64))
    } else if str_eq(name, "targetLevel") {
        Ok(json_of_int(((dev.target_level + 64) / 128) as i64))
    } else if str_eq(name, "shortAddress") {
        Ok(json_of_int((dev.short_address + 1) as i64))
    } else if str_eq(name, "fadeTime") {
        Ok(json_of_int((dev.fade / 16) as i64))
    } else if str_eq(name, "fadeRate") {
        Ok(json_of_int((dev.fade % 16) as i64))
    } else if str_eq(name, "extendedFadeTimeBase") {
        Ok(json_of_int((dev.extended_fade_time % 16) as i64))
    } else if str_eq(name, "extendedFadeTimeMultiplier") {
        Ok(json_of_int(((dev.extended_fade_time / 16) % 8) as i64))
    } else if str_eq(name, "initialisationState") {
        Ok(
            match dev.initialisation_state {
                InitialisationState::ENABLED => "ENABLED",
                InitialisationState::DISABLED => "DISABLED",
                InitialisationState::WITHDRAWN => "WITHDRAWN",
            }.to_owned(),
        )
    } else if str_eq(name, "writeEnableState") {
        Ok(
            match dev.write_enable_state {
                WriteEnableState::ENABLED => "ENABLED",
                WriteEnableState::DISABLED => "DISABLED",
            }.to_owned(),
        )
    } else if str_eq(name, "controlGearFailure") {
        Ok(flag_text(dev.status, 0x01))
    } else if str_eq(name, "lampFailure") {
        Ok(flag_text(dev.status, 0x02))
    } else if str_eq(name, "lampOn") {
        Ok(flag_text(dev.status, 0x04))
    } else if str_eq(name, "limitError") {
        Ok(flag_text(dev.status, 0x08))
    } else if str_eq(name, "fadeRunning") {
        Ok(flag_text(dev.status, 0x10))
    } else if str_eq(name, "resetState") {
        Ok(flag_text(dev.status, 0x20))
    } else if str_eq(name, "powerCycleSeen") {
        Ok(flag_text(dev.status, 0x80))
    } else {
        get_field(dev, name)
    }
}

/// `value` with the bits `start..end` replaced by the low bits of
/// `new_value`.
pub open spec fn spec_set_bit_range(value: u8, new_value: u8, start: u8, end: u8) -> u8 {
    let mask = ((((1u8 << ((end - start) as u8)) - 1) as u8) << start) as u8;
    (value & !mask) | ((new_value << start) & mask)
}

fn set_bit_range(value: &mut u8, new_value: u8, start: u8, end: u8)
    requires
        start <= end,
        end - start < 8,
        start < 8,
    ensures
        *final(value) == spec_set_bit_range(*old(value), new_value, start, end),
{
    proof {
        lemma_u8_mask((end - start) as u8, start);
    }
    let mask: u8 = ((1u8 << (end - start)) - 1) << start;
    *value = (*value & !mask) | ((new_value << start) & mask);
}

/// `bits` with bit `bit` set to `value`.
pub open spec fn spec_set_bit(bits: u8, bit: u8, value: bool) -> u8 {
    if value {
        bits | (1u8 << bit)
    } else {
        bits & !(1u8 << bit)
    }
}

fn set_bit(bits: &mut u8, bit: u8, value: bool)
    requires
        bit < 8,
    ensures
        *final(bits) == spec_set_bit(*old(bits), bit, value),
{
    let mask: u8 = 1u8 << bit;
    if value {
        *bits = *bits | mask;
    } else {
        *bits = *bits & !mask;
    }
}

/// A parameter that is a bit range of a register.
pub open spec fn bit_range_param(name: Seq<char>) -> Option<(bool, u8, u8)> {
    if name == "fadeTime"@ {
        Some((true, 4, 7))
    } else if name == "fadeRate"@ {
        Some((true, 0, 4))
    } else if name == "extendedFadeTimeMultiplier"@ {
        Some((false, 4, 6))
    } else if name == "extendedFadeTimeBase"@ {
        Some((false, 0, 4))
    } else {
        None
    }
}

/// The status bit of a flag parameter that can be set.
pub open spec fn flag_param(name: Seq<char>) -> Option<u8> {
    if name == "controlGearFailure"@ {
        Some(0)
    } else if name == "lampFailure"@ {
        Some(1)
    } else if name == "limitError"@ {
        Some(4)
    } else if name == "resetState"@ {
        Some(5)
    } else if name == "powerCycleSeen"@ {
        Some(7)
    } else {
        None
    }
}

/// Setting parameter `name` of `dev` to the JSON text `value` gives
/// `after` and result `r`. The short address takes 1 to 63, or MASK, less
/// one; the fade settings take a byte, of which the bits of their range
/// are kept (fade time: bits 4 to 6 of the fade register; fade rate: bits 0
/// to 3; extended fade time multiplier: bits 4 and 5; base: bits 0 to 3);
/// the flags take a boolean; a value of the wrong kind is invalid. Other
/// names set fields of the gear's JSON form (see `spec_set_field`). A
/// refused value leaves the gear as it was.
pub open spec fn spec_set_parameter(
    dev: GearState,
    name: Seq<char>,
    value: Seq<char>,
    after: GearState,
    r: Result<(), ParameterError>,
) -> bool {
    if name == "shortAddress"@ {
        match json_u8(value) {
            Some(v) => if !(1 <= v < 64) && v != MASK {
                r == Err::<(), ParameterError>(ParameterError::InvalidValue) && after == dev
            } else {
                r is Ok && after == GearState { short_address: (v - 1) as u8, ..dev }
            },
            None => r == Err::<(), ParameterError>(ParameterError::InvalidValue) && after == dev,
        }
    } else if bit_range_param(name) is Some {
        let (fade_reg, start, end) = bit_range_param(name)->0;
        match json_u8(value) {
            Some(v) => r is Ok && after == if fade_reg {
                GearState { fade: spec_set_bit_range(dev.fade, v, start, end), ..dev }
            } else {
                GearState {
                    extended_fade_time: spec_set_bit_range(dev.extended_fade_time, v, start, end),
                    ..dev
                }
            },
            None => r == Err::<(), ParameterError>(ParameterError::InvalidValue) && after == dev,
        }
    } else if flag_param(name) is Some {
        match json_bool(value) {
            Some(b) => r is Ok && after == GearState {
                status: spec_set_bit(dev.status, flag_param(name)->0, b),
                ..dev
            },
            None => r == Err::<(), ParameterError>(ParameterError::InvalidValue) && after == dev,
        }
    } else {
        spec_set_field(dev, name, value, after, r)
    }
}

/// Sets parameter `name` of the gear from the JSON text `value`: see
/// `spec_set_parameter`.
pub fn set_parameter(dev: &mut GearState, name: &str, value: &str) -> (r: Result<(), ParameterError>)
    ensures
        spec_set_parameter(*old(dev), name@, value@, *final(dev), r),
{
    if str_eq(name, "shortAddress") {
        return match parse_json_u8(value) {
            Some(v) => {
                if !(1 <= v && v < 64) && v != MASK {
                    Err(ParameterError::InvalidValue)
                } else {
                    dev.short_address = v - 1;
                    Ok(())
                }
            },
            None => Err(ParameterError::InvalidValue),
        };
    }
    let range: Option<(bool, u8, u8)> = if str_eq(name, "fadeTime") {
        Some((true, 4, 7))
    } else if str_eq(name, "fadeRate") {
        Some((true, 0, 4))
    } else if str_eq(name, "extendedFadeTimeMultiplier") {
        Some((false, 4, 6))
    } else if str_eq(name, "extendedFadeTimeBase") {
        Some((false, 0, 4))
    } else {
        None
    };
    if let Some((fade_reg, start, end)) = range {
        return match parse_json_u8(value) {
            Some(v) => {
                if fade_reg {
                    set_bit_range(&mut dev.fade, v, start, end);
                } else {
                    set_bit_range(&mut dev.extended_fade_time, v, start, end);
                }
                Ok(())
            },
            None => Err(ParameterError::InvalidValue),
        };
    }
    let bit: Option<u8> = if str_eq(name, "controlGearFailure") {
        Some(0)
    } else if str_eq(name, "lampFailure") {
        Some(1)
    } else if str_eq(name, "limitError") {
        Some(4)
    } else if str_eq(name, "resetState") {
        Some(5)
    } else if str_eq(name, "powerCycleSeen") {
        Some(7)
    } else {
        None
    };
    match bit {
        Some(b) => match parse_json_bool(value) {
            Some(v) => {
                set_bit(&mut dev.status, b, v);
                Ok(())
            },
            None => Err(ParameterError::InvalidValue),
        },
        None => set_field(dev, name, value),
    }
}

/// The parameter names are told apart by their length, first letter and,
/// for fade time and rate, fifth letter.
proof fn lemma_parameter_names()
    ensures
        "actualLevel"@.len() == 11 && "actualLevel"@[0] == 'a',
        "targetLevel"@.len() == 11 && "targetLevel"@[0] == 't',
        "shortAddress"@.len() == 12 && "shortAddress"@[0] == 's',
        "fadeTime"@.len() == 8 && "fadeTime"@[0] == 'f',
        "fadeRate"@.len() == 8 && "fadeRate"@[0] == 'f',
        "extendedFadeTimeBase"@.len() == 20 && "extendedFadeTimeBase"@[0] == 'e',
        "extendedFadeTimeMultiplier"@.len() == 26 && "extendedFadeTimeMultiplier"@[0] == 'e',
        "initialisationState"@.len() == 19 && "initialisationState"@[0] == 'i',
        "writeEnableState"@.len() == 16 && "writeEnableState"@[0] == 'w',
        "controlGearFailure"@.len() == 18 && "controlGearFailure"@[0] == 'c',
        "lampFailure"@.len() == 11 && "lampFailure"@[0] == 'l',
        "lampOn"@.len() == 6 && "lampOn"@[0] == 'l',
        "limitError"@.len() == 10 && "limitError"@[0] == 'l',
        "fadeRunning"@.len() == 11 && "fadeRunning"@[0] == 'f',
        "resetState"@.len() == 10 && "resetState"@[0] == 'r',
        "powerCycleSeen"@.len() == 14 && "powerCycleSeen"@[0] == 'p',
        "fadeTime"@[4] == 'T' && "fadeRate"@[4] == 'R',
{
    reveal_strlit("actualLevel");
    reveal_strlit("targetLevel");
    reveal_strlit("shortAddress");
    reveal_strlit("fadeTime");
    reveal_strlit("fadeRate");
    reveal_strlit("extendedFadeTimeBase");
    reveal_strlit("extendedFadeTimeMultiplier");
    reveal_strlit("initialisationState");
    reveal_strlit("writeEnableState");
    reveal_strlit("controlGearFailure");
    reveal_strlit("lampFailure");
    reveal_strlit("lampOn");
    reveal_strlit("limitError");
    reveal_strlit("fadeRunning");
    reveal_strlit("resetState");
    reveal_strlit("powerCycleSeen");
}

/// A short address that was set (1 to 63, or MASK) reads back as the number
/// given.
pub proof fn lemma_short_address_round_trip(
    dev: GearState,
    value: Seq<char>,
    after: GearState,
    v: u8,
    now: u64,
)
    requires
        spec_set_parameter(dev, "shortAddress"@, value, after, Ok(())),
        json_u8(value) == Some(v),
    ensures
        get_parameter_ok(after, "shortAddress"@, now) && spec_get_parameter(
            after,
            "shortAddress"@,
            now,
        ) == Ok::<Seq<char>, ParameterError>(int_decimal(v as int)),
{
    lemma_parameter_names();
}

/// A status flag that was set reads back as the boolean given: gear
/// failure, lamp failure, reset state and power cycle seen.
pub proof fn lemma_flag_round_trip(
    dev: GearState,
    name: Seq<char>,
    value: Seq<char>,
    after: GearState,
    b: bool,
    now: u64,
)
    requires
        name == "controlGearFailure"@ || name == "lampFailure"@ || name == "resetState"@ || name
            == "powerCycleSeen"@,
        spec_set_parameter(dev, name, value, after, Ok(())),
        json_bool(value) == Some(b),
    ensures
        spec_get_parameter(after, name, now) == Ok::<Seq<char>, ParameterError>(bool_text(b)),
{
    lemma_parameter_names();
    let k = flag_param(name)->0;
    lemma_u8_set_bit(dev.status, k);
    if name == "controlGearFailure"@ {
        assert(k == 0);
        assert(after.status == spec_set_bit(dev.status, 0, b));
    } else if name == "lampFailure"@ {
        assert(k == 1);
    } else if name == "resetState"@ {
        assert(k == 5);
    } else {
        assert(k == 7);
    }
}

} // verus!
