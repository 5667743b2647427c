//! Sound resolution: which sound, if any, accompanies a notification. A file
//! configured for the type wins, then the configured fallback file, and a
//! generated tone is the last resort. Whether a file exists is asked of the
//! caller, who can see the disk.

use vstd::prelude::*;
use vstd::string::StringExecFns;

use crate::notification::{kind_of_exact, label_spec, NotificationSoundType};
use crate::text::{join, same_text, upper_of};

verus! {

/// Frequency of the generated tone, in hertz.
pub const BEEP_FREQUENCY_HZ: u32 = 800;

/// Length of the generated tone, in milliseconds.
pub const BEEP_DURATION_MS: u64 = 300;

/// Amplitude of the generated tone, in percent of full scale.
pub const BEEP_AMPLITUDE_PERCENT: u32 = 80;

/// The fallback name that asks for a generated tone instead of a file.
pub open spec fn generated_spec() -> Seq<char> {
    "generated"@
}

/// Global sound settings.
pub struct SoundSettings {
    pub enabled: bool,
    /// Playback volume in percent, from 0 to 100.
    pub default_volume_percent: u32,
}

/// What to play when a type has no playable file of its own.
pub struct SoundFallbacks {
    /// A file name, or `generated` for a generated tone.
    pub default: String,
}

/// The sound configuration: settings, the sound file of each type name, and
/// the fallback.
pub struct SoundConfig {
    pub settings: SoundSettings,
    /// Pairs of an upper-case type name and a file name, each name listed
    /// once (see `wf`).
    pub sounds: Vec<(String, String)>,
    pub fallbacks: SoundFallbacks,
}

/// The file configured for `name`: the first pair that lists it.
pub open spec fn lookup_sound(entries: Seq<(String, String)>, name: Seq<char>) -> Option<Seq<char>>
    decreases entries.len(),
{
    if entries.len() == 0 {
        None
    } else if entries[0].0@ == name {
        Some(entries[0].1@)
    } else {
        lookup_sound(entries.drop_first(), name)
    }
}

/// No type name is listed twice.
pub open spec fn names_unique(entries: Seq<(String, String)>) -> bool {
    forall|i: int, j: int|
        0 <= i < j < entries.len() ==> #[trigger] entries[i].0@ != #[trigger] entries[j].0@
}

/// A name that no pair lists is not found.
proof fn lemma_lookup_absent(entries: Seq<(String, String)>, name: Seq<char>)
    requires
        forall|j: int| 0 <= j < entries.len() ==> entries[j].0@ != name,
    ensures
        lookup_sound(entries, name) is None,
    decreases entries.len(),
{
    if entries.len() > 0 {
        assert(entries[0].0@ != name);
        lemma_lookup_absent(entries.drop_first(), name);
    }
}

/// Looking up after appending a pair finds what was there before, or else the
/// new pair.
proof fn lemma_lookup_push(entries: Seq<(String, String)>, e: (String, String), name: Seq<char>)
    ensures
        lookup_sound(entries.push(e), name) == (if lookup_sound(entries, name) is Some {
            lookup_sound(entries, name)
        } else if e.0@ == name {
            Some(e.1@)
        } else {
            None::<Seq<char>>
        }),
    decreases entries.len(),
{
    if entries.len() == 0 {
        assert(entries.push(e)[0] == e);
        assert(entries.push(e).drop_first() =~= entries);
    } else {
        assert(entries.push(e)[0] == entries[0]);
        assert(entries.push(e).drop_first() =~= entries.drop_first().push(e));
        lemma_lookup_push(entries.drop_first(), e, name);
    }
}

/// Replacing the first pair that lists a name changes the lookup of that name
/// only.
proof fn lemma_lookup_update(
    entries: Seq<(String, String)>,
    i: int,
    e: (String, String),
    name: Seq<char>,
)
    requires
        0 <= i < entries.len(),
        entries[i].0@ == e.0@,
        forall|j: int| 0 <= j < i ==> entries[j].0@ != e.0@,
    ensures
        lookup_sound(entries.update(i, e), name) == (if name == e.0@ {
            Some(e.1@)
        } else {
            lookup_sound(entries, name)
        }),
    decreases i,
{
    if i == 0 {
        assert(entries.update(0, e).drop_first() =~= entries.drop_first());
    } else {
        assert(entries.update(i, e).drop_first() =~= entries.drop_first().update(i - 1, e));
        assert(entries[0].0@ != e.0@);
        lemma_lookup_update(entries.drop_first(), i - 1, e, name);
    }
}

/// The sound decided for one notification.
#[derive(Debug, Clone, PartialEq, Eq)]
pub enum SoundChoice {
    /// Sound is switched off: play nothing.
    Silence,
    /// Play the generated tone.
    Tone,
    /// Play this file of the sounds directory.
    File(String),
}

/// The mathematical form of a `SoundChoice`.
pub enum PlannedSound {
    Silence,
    Tone,
    File(Seq<char>),
}

impl View for SoundChoice {
    type V = PlannedSound;

    open spec fn view(&self) -> PlannedSound {
        match self {
            SoundChoice::Silence => PlannedSound::Silence,
            SoundChoice::Tone => PlannedSound::Tone,
            SoundChoice::File(f) => PlannedSound::File(f@),
        }
    }
}

/// The files worth asking about for one notification type: its own and the
/// fallback, each only where the configuration names one.
pub struct SoundCandidates {
    pub specific: Option<String>,
    pub fallback: Option<String>,
}

/// Whether sound is on: it is unless a configuration switches it off.
pub open spec fn enabled_spec(config: Option<SoundConfig>) -> bool {
    match config {
        Some(c) => c.settings.enabled,
        None => true,
    }
}

/// The file configured for a type.
pub open spec fn specific_spec(config: Option<SoundConfig>, kind: NotificationSoundType) -> Option<
    Seq<char>,
> {
    match config {
        Some(c) => lookup_sound(c.sounds@, label_spec(kind)),
        None => None,
    }
}

/// The fallback file, unless the fallback is a generated tone.
pub open spec fn fallback_spec(config: Option<SoundConfig>) -> Option<Seq<char>> {
    match config {
        Some(c) => if c.fallbacks.default@ == generated_spec() {
            None
        } else {
            Some(c.fallbacks.default@)
        },
        None => None,
    }
}

/// The sound for a type, given whether its own file and the fallback file
/// exist: nothing when sound is off; else its own file if present; else the
/// fallback file if it is one and present; else the generated tone.
pub open spec fn choice_spec(
    config: Option<SoundConfig>,
    kind: NotificationSoundType,
    specific_exists: bool,
    fallback_exists: bool,
) -> PlannedSound {
    if !enabled_spec(config) {
        PlannedSound::Silence
    } else if specific_spec(config, kind) is Some && specific_exists {
        PlannedSound::File(specific_spec(config, kind)->0)
    } else if fallback_spec(config) is Some && fallback_exists {
        PlannedSound::File(fallback_spec(config)->0)
    } else {
        PlannedSound::Tone
    }
}

impl SoundConfig {
    /// The configuration is well formed: each type name is listed once.
    pub open spec fn wf(&self) -> bool {
        names_unique(self.sounds@)
    }

    /// A configuration with the given settings and fallback, and no sound
    /// listed for any type.
    pub fn new(settings: SoundSettings, fallbacks: SoundFallbacks) -> (r: SoundConfig)
        ensures
            r.wf(),
            r.settings == settings,
            r.fallbacks == fallbacks,
            r.sounds@.len() == 0,
    {
        SoundConfig { settings, sounds: Vec::new(), fallbacks }
    }

    /// Sets the file of the type name `name`, replacing any file listed for it.
    pub fn set_sound(&mut self, name: String, file: String)
        requires
            old(self).wf(),
        ensures
            final(self).wf(),
            final(self).settings == old(self).settings,
            final(self).fallbacks == old(self).fallbacks,
            forall|n: Seq<char>|
                #[trigger] lookup_sound(final(self).sounds@, n) == if n == name@ {
                    Some(file@)
                } else {
                    lookup_sound(old(self).sounds@, n)
                },
    {
        let n = self.sounds.len();
        let mut i: usize = 0;
        while i < n
            invariant
                n == self.sounds@.len(),
                i <= n,
                *self == *old(self),
                names_unique(self.sounds@),
                forall|j: int| 0 <= j < i ==> self.sounds@[j].0@ != name@,
            decreases n - i,
        {
            if same_text(self.sounds[i].0.as_str(), name.as_str()) {
                let ghost before = self.sounds@;
                let e = (name, file);
                proof {
                    assert forall|n: Seq<char>|
                        #[trigger] lookup_sound(before.update(i as int, e), n) == if n == e.0@ {
                            Some(e.1@)
                        } else {
                            lookup_sound(before, n)
                        } by {
                        lemma_lookup_update(before, i as int, e, n);
                    }
                }
                self.sounds.set(i, e);
                assert(self.sounds@ =~= before.update(i as int, e));
                assert forall|a: int, b: int|
                    0 <= a < b < self.sounds@.len() implies #[trigger] self.sounds@[a].0@
                    != #[trigger] self.sounds@[b].0@ by {
                    assert(before[a].0@ != before[b].0@);
                }
                return;
            }
            i = i + 1;
        }
        let ghost before = self.sounds@;
        let e = (name, file);
        proof {
            assert forall|n: Seq<char>|
                #[trigger] lookup_sound(before.push(e), n) == if n == e.0@ {
                    Some(e.1@)
                } else {
                    lookup_sound(before, n)
                } by {
                lemma_lookup_push(before, e, n);
                if n == e.0@ {
                    lemma_lookup_absent(before, n);
                }
            }
        }
        self.sounds.push(e);
        assert(self.sounds@ =~= before.push(e));
        assert forall|a: int, b: int|
            0 <= a < b < self.sounds@.len() implies #[trigger] self.sounds@[a].0@
            != #[trigger] self.sounds@[b].0@ by {
            if b < before.len() {
                assert(before[a].0@ != before[b].0@);
            } else {
                assert(before[a].0@ != name@);
            }
        }
    }

    /// The file configured for the type name `name`.
    pub fn sound_for(&self, name: &str) -> (r: Option<String>)
        ensures
            r matches Some(f) ==> lookup_sound(self.sounds@, name@) == Some(f@),
            r is None ==> lookup_sound(self.sounds@, name@) is None,
    {
        let n = self.sounds.len();
        let mut i: usize = 0;
        assert(self.sounds@.subrange(0, n as int) =~= self.sounds@);
        while i < n
            invariant
                n == self.sounds@.len(),
                i <= n,
                lookup_sound(self.sounds@, name@) == lookup_sound(
                    self.sounds@.subrange(i as int, n as int),
                    name@,
                ),
            decreases n - i,
        {
            let ghost rest = self.sounds@.subrange(i as int, n as int);
            assert(rest.drop_first() =~= self.sounds@.subrange(i + 1, n as int));
            if same_text(self.sounds[i].0.as_str(), name) {
                return Some(self.sounds[i].1.clone());
            }
            i = i + 1;
        }
        assert(self.sounds@.subrange(n as int, n as int).len() == 0);
        None
    }
}

/// Picks the sounds directory: the packaged one if it exists, else the
/// development one, which is also the last resort when neither exists.
pub fn pick_sounds_directory(
    packaged: Option<String>,
    packaged_exists: bool,
    development: String,
) -> (r: String)
    ensures
        packaged is Some && packaged_exists ==> r@ == packaged->0@,
        !(packaged is Some && packaged_exists) ==> r@ == development@,
{
    match packaged {
        Some(p) => if packaged_exists {
            p
        } else {
            development
        },
        None => development,
    }
}

/// Holds the sound configuration and the directory its files live in.
pub struct SoundManager {
    config: Option<SoundConfig>,
    sounds_dir: String,
}

impl SoundManager {
    /// The configuration in force, if one was loaded.
    pub closed spec fn config_spec(&self) -> Option<SoundConfig> {
        self.config
    }

    /// The directory the sound files are looked up in.
    pub closed spec fn dir_spec(&self) -> Seq<char> {
        self.sounds_dir@
    }

    /// A manager for the given directory, with no configuration yet.
    pub fn new(sounds_dir: String) -> (r: SoundManager)
        ensures
            r.config_spec() is None,
            r.dir_spec() == sounds_dir@,
    {
        SoundManager { config: None, sounds_dir }
    }

    /// The directory the sound files are looked up in.
    pub fn sounds_dir(&self) -> (r: &String)
        ensures
            r@ == self.dir_spec(),
    {
        &self.sounds_dir
    }

    /// Takes the loaded configuration (`None` where the file was missing or
    /// unreadable, which leaves the defaults) and the outcome of opening the
    /// audio output. Fails exactly when the output could not be opened.
    pub fn initialize(&mut self, loaded: Option<SoundConfig>, output: Result<(), String>) -> (r:
        Result<(), String>)
        ensures
            final(self).config_spec() == loaded,
            final(self).dir_spec() == old(self).dir_spec(),
            output is Ok ==> r is Ok,
            output matches Err(e) ==> r matches Err(m) && m@ == "Failed to initialize audio output: "@
                + e@,
    {
        self.config = loaded;
        match output {
            Ok(()) => Ok(()),
            Err(e) => Err(join("Failed to initialize audio output: ", e.as_str())),
        }
    }

    /// Whether sound is on.
    pub fn is_enabled(&self) -> (r: bool)
        ensures
            r == enabled_spec(self.config_spec()),
    {
        match &self.config {
            Some(c) => c.settings.enabled,
            None => true,
        }
    }

    /// Replaces the configuration.
    pub fn update_config(&mut self, config: SoundConfig) -> (r: Result<(), String>)
        ensures
            final(self).config_spec() == Some(config),
            final(self).dir_spec() == old(self).dir_spec(),
            r is Ok,
    {
        self.config = Some(config);
        Ok(())
    }

    /// Switches sound on or off; without a configuration there is nothing to
    /// switch and sound stays on.
    pub fn set_enabled(&mut self, enabled: bool)
        ensures
            final(self).dir_spec() == old(self).dir_spec(),
            old(self).config_spec() is None ==> final(self).config_spec() is None,
            old(self).config_spec() matches Some(c) ==> final(self).config_spec() matches Some(d)
                && {
                &&& d.settings.enabled == enabled
                &&& d.settings.default_volume_percent == c.settings.default_volume_percent
                &&& d.sounds == c.sounds
                &&& d.fallbacks == c.fallbacks
            },
    {
        match &mut self.config {
            Some(c) => {
                c.settings.enabled = enabled;
            },
            None => {},
        }
    }

    /// The files to look for on behalf of a notification type.
    pub fn candidates_for_kind(&self, kind: NotificationSoundType) -> (r: SoundCandidates)
        ensures
            r.specific matches Some(f) ==> specific_spec(self.config_spec(), kind) == Some(f@),
            r.specific is None ==> specific_spec(self.config_spec(), kind) is None,
            r.fallback matches Some(f) ==> fallback_spec(self.config_spec()) == Some(f@),
            r.fallback is None ==> fallback_spec(self.config_spec()) is None,
    {
        match &self.config {
            Some(c) => {
                let name = kind.label();
                let specific = c.sound_for(name.as_str());
                let fallback = if same_text(c.fallbacks.default.as_str(), "generated") {
                    None
                } else {
                    Some(c.fallbacks.default.clone())
                };
                SoundCandidates { specific, fallback }
            },
            None => SoundCandidates { specific: None, fallback: None },
        }
    }

    /// The sound for a notification type, given whether its own file and the
    /// fallback file exist in the sounds directory.
    pub fn choose_for_kind(
        &self,
        kind: NotificationSoundType,
        specific_exists: bool,
        fallback_exists: bool,
    ) -> (r: SoundChoice)
        ensures
            r@ == choice_spec(self.config_spec(), kind, specific_exists, fallback_exists),
    {
        if !self.is_enabled() {
            return SoundChoice::Silence;
        }
        let candidates = self.candidates_for_kind(kind);
        match candidates.specific {
            Some(f) => if specific_exists {
                return SoundChoice::File(f);
            },
            None => {},
        }
        match candidates.fallback {
            Some(f) => if fallback_exists {
                return SoundChoice::File(f);
            },
            None => {},
        }
        SoundChoice::Tone
    }

    /// The files to look for on behalf of a notification type given by name;
    /// the name is matched ignoring case.
    pub fn sound_candidates(&self, notification_type: &str) -> (r: SoundCandidates)
        ensures
            r.specific matches Some(f) ==> specific_spec(
                self.config_spec(),
                kind_of_exact(upper_of(notification_type@)),
            ) == Some(f@),
            r.specific is None ==> specific_spec(
                self.config_spec(),
                kind_of_exact(upper_of(notification_type@)),
            ) is None,
            r.fallback matches Some(f) ==> fallback_spec(self.config_spec()) == Some(f@),
            r.fallback is None ==> fallback_spec(self.config_spec()) is None,
    {
        self.candidates_for_kind(NotificationSoundType::from_type_name(notification_type))
    }

    /// The sound to play for a notification type given by name (matched
    /// ignoring case), given whether its own file and the fallback file exist.
    pub fn play_notification_sound(
        &self,
        notification_type: &str,
        specific_exists: bool,
        fallback_exists: bool,
    ) -> (r: SoundChoice)
        ensures
            r@ == choice_spec(
                self.config_spec(),
                kind_of_exact(upper_of(notification_type@)),
                specific_exists,
                fallback_exists,
            ),
    {
        self.choose_for_kind(
            NotificationSoundType::from_type_name(notification_type),
            specific_exists,
            fallback_exists,
        )
    }
}

/// What to play once an attempt to play a choice is over: a file that could
/// not be opened or decoded gives way to the generated tone; anything else
/// needs nothing more.
pub fn after_playback(choice: &SoundChoice, played: bool) -> (r: Option<SoundChoice>)
    ensures
        choice is File && !played ==> r == Some(SoundChoice::Tone),
        !(choice is File && !played) ==> r is None,
{
    match choice {
        SoundChoice::File(_) => if played {
            None
        } else {
            Some(SoundChoice::Tone)
        },
        _ => None,
    }
}

/// With sound switched off nothing is played, for every type and whatever
/// files exist.
pub proof fn lemma_disabled_plays_nothing(
    config: SoundConfig,
    kind: NotificationSoundType,
    specific_exists: bool,
    fallback_exists: bool,
)
    requires
        !config.settings.enabled,
    ensures
        choice_spec(Some(config), kind, specific_exists, fallback_exists) == PlannedSound::Silence,
{
}

/// With sound on, a type's own file, where it exists, wins over the fallback.
pub proof fn lemma_own_file_first(
    config: Option<SoundConfig>,
    kind: NotificationSoundType,
    fallback_exists: bool,
)
    requires
        enabled_spec(config),
        specific_spec(config, kind) is Some,
    ensures
        choice_spec(config, kind, true, fallback_exists) == PlannedSound::File(
            specific_spec(config, kind)->0,
        ),
{
}

/// With sound on, a missing own file and a generated fallback give the tone.
pub proof fn lemma_generated_fallback_gives_tone(
    config: SoundConfig,
    kind: NotificationSoundType,
    specific_exists: bool,
    fallback_exists: bool,
)
    requires
        config.settings.enabled,
        config.fallbacks.default@ == generated_spec(),
        specific_spec(Some(config), kind) is None || !specific_exists,
    ensures
        choice_spec(Some(config), kind, specific_exists, fallback_exists) == PlannedSound::Tone,
{
}

} // verus!
