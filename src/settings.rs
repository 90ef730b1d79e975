//! Audio-device descriptions and the parts of the overlay's settings that
//! hold no fractional values, with their defaults.

use vstd::prelude::*;

verus! {

/// An audio device as shown in the settings window.
pub struct AudioDevice {
    pub id: String,
    pub name: String,
    pub is_default: bool,
}

/// The devices that can record and those that can play.
pub struct AudioDevices {
    pub input_devices: Vec<AudioDevice>,
    pub output_devices: Vec<AudioDevice>,
}

/// The chosen recording and playback devices; `None` means the system's.
pub struct AudioSettings {
    pub input_device: Option<String>,
    pub output_device: Option<String>,
}

/// The daily briefing: whether it is on, whether it runs at start-up, its
/// time of day ("HH:MM") and the location its weather is for.
pub struct DailyBriefingSettings {
    pub enabled: bool,
    pub startup_briefing: bool,
    pub briefing_time: String,
    pub location: String,
}

/// A device as (id, name, is_default).
pub open spec fn device_view(d: AudioDevice) -> (Seq<char>, Seq<char>, bool) {
    (d.id@, d.name@, d.is_default)
}

pub open spec fn devices_view(ds: Seq<AudioDevice>) -> Seq<(Seq<char>, Seq<char>, bool)> {
    ds.map_values(|d: AudioDevice| device_view(d))
}

fn device(id: &str, name: &str, is_default: bool) -> (r: AudioDevice)
    ensures
        device_view(r) == (id@, name@, is_default),
{
    AudioDevice { id: String::from_str(id), name: String::from_str(name), is_default }
}

impl AudioDevices {
    /// The device lists offered when the system's devices cannot be listed.
    pub fn fallback() -> (r: AudioDevices)
        ensures
            devices_view(r.input_devices@) == seq![
                ("default_input"@, "Domyślne urządzenie wejściowe"@, true),
                ("microphone_array"@, "Mikrofon (zintegrowany)"@, false),
                ("usb_microphone"@, "Mikrofon USB"@, false),
                ("headset_microphone"@, "Mikrofon słuchawkowy"@, false),
            ],
            devices_view(r.output_devices@) == seq![
                ("default_output"@, "Domyślne urządzenie wyjściowe"@, true),
                ("speakers_builtin"@, "Głośniki (zintegrowane)"@, false),
                ("headphones"@, "Słuchawki"@, false),
                ("bluetooth_speaker"@, "Głośnik Bluetooth"@, false),
            ],
    {
        let input_devices = vec![
            device("default_input", "Domyślne urządzenie wejściowe", true),
            device("microphone_array", "Mikrofon (zintegrowany)", false),
            device("usb_microphone", "Mikrofon USB", false),
            device("headset_microphone", "Mikrofon słuchawkowy", false),
        ];
        let output_devices = vec![
            device("default_output", "Domyślne urządzenie wyjściowe", true),
            device("speakers_builtin", "Głośniki (zintegrowane)", false),
            device("headphones", "Słuchawki", false),
            device("bluetooth_speaker", "Głośnik Bluetooth", false),
        ];
        let r = AudioDevices { input_devices, output_devices };
        assert(devices_view(r.input_devices@) =~= seq![
            ("default_input"@, "Domyślne urządzenie wejściowe"@, true),
            ("microphone_array"@, "Mikrofon (zintegrowany)"@, false),
            ("usb_microphone"@, "Mikrofon USB"@, false),
            ("headset_microphone"@, "Mikrofon słuchawkowy"@, false),
        ]);
        assert(devices_view(r.output_devices@) =~= seq![
            ("default_output"@, "Domyślne urządzenie wyjściowe"@, true),
            ("speakers_builtin"@, "Głośniki (zintegrowane)"@, false),
            ("headphones"@, "Słuchawki"@, false),
            ("bluetooth_speaker"@, "Głośnik Bluetooth"@, false),
        ]);
        r
    }
}

impl Default for AudioSettings {
    /// The system's devices for both.
    fn default() -> (r: AudioSettings)
        ensures
            r.input_device is None,
            r.output_device is None,
    {
        AudioSettings { input_device: None, output_device: None }
    }
}

impl Default for DailyBriefingSettings {
    /// On, at start-up too, at 08:00, for Sosnowiec.
    fn default() -> (r: DailyBriefingSettings)
        ensures
            r.enabled,
            r.startup_briefing,
            r.briefing_time@ == "08:00"@,
            r.location@ == "Sosnowiec,PL"@,
    {
        DailyBriefingSettings {
            enabled: true,
            startup_briefing: true,
            briefing_time: String::from_str("08:00"),
            location: String::from_str("Sosnowiec,PL"),
        }
    }
}

/// Limits how often the window's click-through flags are re-applied: at
/// most once per interval.
pub struct ClickThroughDebounce {
    pub interval_ms: u64,
    pub last_applied_ms: Option<u64>,
}

impl ClickThroughDebounce {
    pub fn new(interval_ms: u64) -> (r: ClickThroughDebounce)
        ensures
            r.interval_ms == interval_ms,
            r.last_applied_ms is None,
    {
        ClickThroughDebounce { interval_ms, last_applied_ms: None }
    }

    /// Whether to apply the flags at time `now_ms`: the first time, or once
    /// more than the interval has passed since the last time; a `true`
    /// answer records `now_ms` as the last time.
    pub fn should_apply(&mut self, now_ms: u64) -> (r: bool)
        ensures
            r == match old(self).last_applied_ms {
                None => true,
                Some(t) => now_ms > t && now_ms - t > old(self).interval_ms,
            },
            final(self).interval_ms == old(self).interval_ms,
            final(self).last_applied_ms == if r {
                Some(now_ms)
            } else {
                old(self).last_applied_ms
            },
    {
        let due = match self.last_applied_ms {
            None => true,
            Some(t) => now_ms > t && now_ms - t > self.interval_ms,
        };
        if due {
            self.last_applied_ms = Some(now_ms);
        }
        due
    }
}

} // verus!
