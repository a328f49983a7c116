//! Microphone and speaker selection: which advertised capture configuration
//! to open (minimising resampling before speech-to-text) and which device to
//! use under PipeWire/Pulse, from what the audio host reported.

use vstd::prelude::*;

use crate::constants::STT_SAMPLE_RATE;
use crate::text::str_eq;

verus! {

/// One advertised capture configuration range.
#[derive(Debug, Clone, Copy, PartialEq, Eq, Structural)]
pub struct ConfigRange {
    pub channels: u16,
    /// Samples are 32-bit floats.
    pub is_f32: bool,
    pub min_rate: u32,
    pub max_rate: u32,
}

/// The configuration to open.
#[derive(Debug, Clone, Copy, PartialEq, Eq, Structural)]
pub enum InputChoice {
    /// Range `index` at `rate`.
    Range { index: usize, rate: u32 },
    /// The device's default input configuration.
    DeviceDefault,
}

/// Whether range `r` offers float samples on `channels` channels at `rate`.
pub open spec fn offers(r: ConfigRange, channels: u16, rate: u32) -> bool {
    r.channels == channels && r.is_f32 && r.min_rate <= rate && r.max_rate >= rate
}

/// Index of the first range offering `channels` at `rate`.
pub open spec fn first_offering(ranges: Seq<ConfigRange>, channels: u16, rate: u32) -> Option<int>
    decreases ranges.len(),
{
    if ranges.len() == 0 {
        None
    } else if offers(ranges[0], channels, rate) {
        Some(0)
    } else {
        match first_offering(ranges.drop_first(), channels, rate) {
            Some(k) => Some(k + 1),
            None => None,
        }
    }
}

/// Preference order: mono float at 16 kHz, 48 kHz, 44.1 kHz; then stereo
/// float at 48 kHz, 16 kHz; then the device default.
pub open spec fn preferences() -> Seq<(u16, u32)> {
    seq![(1u16, STT_SAMPLE_RATE), (1u16, 48000u32), (1u16, 44100u32), (2u16, 48000u32), (2u16, STT_SAMPLE_RATE)]
}

/// The choice from preference `p` on.
pub open spec fn choice_from(ranges: Seq<ConfigRange>, p: int) -> InputChoice
    decreases preferences().len() - p,
{
    if p < 0 || p >= preferences().len() {
        InputChoice::DeviceDefault
    } else {
        match first_offering(ranges, preferences()[p].0, preferences()[p].1) {
            Some(i) => InputChoice::Range { index: i as usize, rate: preferences()[p].1 },
            None => choice_from(ranges, p + 1),
        }
    }
}

proof fn lemma_first_offering(ranges: Seq<ConfigRange>, channels: u16, rate: u32)
    ensures
        match first_offering(ranges, channels, rate) {
            Some(k) => 0 <= k < ranges.len() && offers(ranges[k], channels, rate) && forall|j: int|
                0 <= j < k ==> !offers(ranges[j], channels, rate),
            None => forall|j: int| 0 <= j < ranges.len() ==> !offers(ranges[j], channels, rate),
        },
    decreases ranges.len(),
{
    if ranges.len() > 0 && !offers(ranges[0], channels, rate) {
        lemma_first_offering(ranges.drop_first(), channels, rate);
        assert forall|j: int| 0 < j < ranges.len() implies ranges[j] == ranges.drop_first()[j - 1] by {}
    }
}

fn find_offering(ranges: &Vec<ConfigRange>, channels: u16, rate: u32) -> (r: Option<usize>)
    ensures
        match first_offering(ranges@, channels, rate) {
            Some(k) => r is Some && r.unwrap() as int == k,
            None => r is None,
        },
{
    proof {
        lemma_first_offering(ranges@, channels, rate);
    }
    let mut i: usize = 0;
    while i < ranges.len()
        invariant
            i <= ranges@.len(),
            forall|j: int| 0 <= j < i ==> !offers(ranges@[j], channels, rate),
        decreases ranges@.len() - i,
    {
        let g = ranges[i];
        if g.channels == channels && g.is_f32 && g.min_rate <= rate && g.max_rate >= rate {
            assert(offers(ranges@[i as int], channels, rate));
            assert(first_offering(ranges@, channels, rate) == Some(i as int)) by {
                lemma_first_offering(ranges@, channels, rate);
                match first_offering(ranges@, channels, rate) {
                    Some(k) => {
                        if k < i {
                        } else if k > i {
                        }
                    },
                    None => {},
                }
            }
            return Some(i);
        }
        i = i + 1;
    }
    None
}

/// Chooses the capture configuration (see [`preferences`]) from the ranges the
/// device advertises (none when it could not list them).
pub fn pick_input_config(ranges: &Vec<ConfigRange>) -> (r: InputChoice)
    ensures
        r == choice_from(ranges@, 0),
{
    let n = ranges.len();
    let prefs: [(u16, u32); 5] = [(1, STT_SAMPLE_RATE), (1, 48000), (1, 44100), (2, 48000), (2, STT_SAMPLE_RATE)];
    assert(prefs@ =~= preferences());
    let mut p: usize = 0;
    while p < 5
        invariant
            prefs@ == preferences(),
            n == ranges@.len(),
            p <= 5,
            choice_from(ranges@, p as int) == choice_from(ranges@, 0),
        decreases 5 - p,
    {
        let (ch, rate) = prefs[p];
        match find_offering(ranges, ch, rate) {
            Some(i) => {
                return InputChoice::Range { index: i, rate };
            },
            None => {},
        }
        p = p + 1;
    }
    InputChoice::DeviceDefault
}

/// What the host reported of one device.
#[derive(Debug)]
pub struct DeviceFact {
    /// Its name, when the host could give one.
    pub name: Option<String>,
    /// Whether its default configuration (input or output) could be read.
    pub config_ok: bool,
}

/// Which device to use.
#[derive(Debug, Clone, Copy, PartialEq, Eq, Structural)]
pub enum DeviceChoice {
    /// Device `index` of the list.
    Listed(usize),
    /// The host's default device.
    HostDefault,
    /// No usable device.
    NoDevice,
}

/// Whether the device is named `want`.
pub open spec fn named(d: DeviceFact, want: Seq<char>) -> bool {
    d.name matches Some(n) && n@ == want
}

/// Index of the first device named `want`.
pub open spec fn first_named(devices: Seq<DeviceFact>, want: Seq<char>) -> Option<int>
    decreases devices.len(),
{
    if devices.len() == 0 {
        None
    } else if named(devices[0], want) {
        Some(0)
    } else {
        match first_named(devices.drop_first(), want) {
            Some(k) => Some(k + 1),
            None => None,
        }
    }
}

/// Index of the first device whose configuration could be read.
pub open spec fn first_usable(devices: Seq<DeviceFact>) -> Option<int>
    decreases devices.len(),
{
    if devices.len() == 0 {
        None
    } else if devices[0].config_ok {
        Some(0)
    } else {
        match first_usable(devices.drop_first()) {
            Some(k) => Some(k + 1),
            None => None,
        }
    }
}

/// The first of the preferred names whose first device opens, if any.
pub open spec fn preferred_pick(devices: Seq<DeviceFact>) -> Option<int> {
    match first_named(devices, "pulse"@) {
        Some(i) if devices[i].config_ok => Some(i),
        _ => match first_named(devices, "pipewire"@) {
            Some(i) if devices[i].config_ok => Some(i),
            _ => None,
        },
    }
}

/// Input device: a preferred PCM that opens; else the host default when it
/// opens (`default_ok` is `None` without a host default); else the first
/// listed device that opens.
pub open spec fn input_choice(devices: Seq<DeviceFact>, default_ok: Option<bool>) -> DeviceChoice {
    match preferred_pick(devices) {
        Some(i) => DeviceChoice::Listed(i as usize),
        None => if default_ok == Some(true) {
            DeviceChoice::HostDefault
        } else {
            match first_usable(devices) {
                Some(i) => DeviceChoice::Listed(i as usize),
                None => DeviceChoice::NoDevice,
            }
        },
    }
}

/// Output device: a preferred PCM that opens; else the host default when there
/// is one.
pub open spec fn output_choice(devices: Seq<DeviceFact>, has_default: bool) -> DeviceChoice {
    match preferred_pick(devices) {
        Some(i) => DeviceChoice::Listed(i as usize),
        None => if has_default {
            DeviceChoice::HostDefault
        } else {
            DeviceChoice::NoDevice
        },
    }
}

proof fn lemma_first_named(devices: Seq<DeviceFact>, want: Seq<char>)
    ensures
        match first_named(devices, want) {
            Some(k) => 0 <= k < devices.len() && named(devices[k], want) && forall|j: int|
                0 <= j < k ==> !named(devices[j], want),
            None => forall|j: int| 0 <= j < devices.len() ==> !named(devices[j], want),
        },
    decreases devices.len(),
{
    if devices.len() > 0 && !named(devices[0], want) {
        lemma_first_named(devices.drop_first(), want);
        assert forall|j: int| 0 < j < devices.len() implies devices[j] == devices.drop_first()[j - 1] by {}
    }
}

proof fn lemma_first_usable(devices: Seq<DeviceFact>)
    ensures
        match first_usable(devices) {
            Some(k) => 0 <= k < devices.len() && devices[k].config_ok && forall|j: int|
                0 <= j < k ==> !devices[j].config_ok,
            None => forall|j: int| 0 <= j < devices.len() ==> !devices[j].config_ok,
        },
    decreases devices.len(),
{
    if devices.len() > 0 && !devices[0].config_ok {
        lemma_first_usable(devices.drop_first());
        assert forall|j: int| 0 < j < devices.len() implies devices[j] == devices.drop_first()[j - 1] by {}
    }
}

fn position_named(devices: &Vec<DeviceFact>, want: &str) -> (r: Option<usize>)
    ensures
        match first_named(devices@, want@) {
            Some(k) => r is Some && r.unwrap() as int == k,
            None => r is None,
        },
{
    proof {
        lemma_first_named(devices@, want@);
    }
    let mut i: usize = 0;
    while i < devices.len()
        invariant
            i <= devices@.len(),
            forall|j: int| 0 <= j < i ==> !named(devices@[j], want@),
        decreases devices@.len() - i,
    {
        let hit = match &devices[i].name {
            Some(n) => str_eq(n.as_str(), want),
            None => false,
        };
        if hit {
            assert(named(devices@[i as int], want@));
            assert(first_named(devices@, want@) == Some(i as int)) by {
                lemma_first_named(devices@, want@);
                match first_named(devices@, want@) {
                    Some(k) => {
                        if k < i {
                        } else if k > i {
                        }
                    },
                    None => {},
                }
            }
            return Some(i);
        }
        i = i + 1;
    }
    None
}

fn preferred_device(devices: &Vec<DeviceFact>) -> (r: Option<usize>)
    ensures
        match preferred_pick(devices@) {
            Some(k) => r is Some && r.unwrap() as int == k,
            None => r is None,
        },
{
    proof {
        lemma_first_named(devices@, "pulse"@);
        lemma_first_named(devices@, "pipewire"@);
    }
    if let Some(i) = position_named(devices, "pulse") {
        if devices[i].config_ok {
            return Some(i);
        }
    }
    if let Some(i) = position_named(devices, "pipewire") {
        if devices[i].config_ok {
            return Some(i);
        }
    }
    None
}

/// Picks the input device (see [`input_choice`]).
pub fn resolve_input_device(devices: &Vec<DeviceFact>, default_ok: Option<bool>) -> (r: DeviceChoice)
    ensures
        r == input_choice(devices@, default_ok),
{
    let n = devices.len();
    if let Some(i) = preferred_device(devices) {
        return DeviceChoice::Listed(i);
    }
    match default_ok {
        Some(true) => {
            return DeviceChoice::HostDefault;
        },
        _ => {},
    }
    proof {
        lemma_first_usable(devices@);
    }
    let mut i: usize = 0;
    while i < devices.len()
        invariant
            i <= devices@.len(),
            preferred_pick(devices@) is None,
            default_ok != Some(true),
            forall|j: int| 0 <= j < i ==> !devices@[j].config_ok,
        decreases devices@.len() - i,
    {
        if devices[i].config_ok {
            assert(first_usable(devices@) == Some(i as int)) by {
                lemma_first_usable(devices@);
                match first_usable(devices@) {
                    Some(k) => {
                        if k < i {
                        } else if k > i {
                        }
                    },
                    None => {},
                }
            }
            return DeviceChoice::Listed(i);
        }
        i = i + 1;
    }
    DeviceChoice::NoDevice
}

/// Picks the output device (see [`output_choice`]).
pub fn resolve_output_device(devices: &Vec<DeviceFact>, has_default: bool) -> (r: DeviceChoice)
    ensures
        r == output_choice(devices@, has_default),
{
    let n = devices.len();
    if let Some(i) = preferred_device(devices) {
        return DeviceChoice::Listed(i);
    }
    if has_default {
        DeviceChoice::HostDefault
    } else {
        DeviceChoice::NoDevice
    }
}

/// Error when no input device opens.
pub const NO_INPUT_DEVICE: &'static str = "no usable audio input device (ALSA default/dsnoop may be broken under PipeWire — tried pulse/pipewire fallbacks)";

/// Error when there is no output device.
pub const NO_OUTPUT_DEVICE: &'static str = "no audio output device found";

} // verus!
