//! The user's settings, and how they are brought into range.
use crate::ignore::{copy_rules, rules_of, IgnoreRules, Matcher, MatcherModel};
use crate::markers::{copy_markers, markers_of, MarkerModel, MarkerRule};
use crate::text::{trim, trimmed};
use vstd::prelude::*;

verus! {

/// The version of the settings' shape.
pub const CURRENT_VERSION: u32 = 1;

pub const DEFAULT_PORT: u16 = 4317;

/// Minutes of silence before a session is greyed.
pub const DEFAULT_STALE_MIN: u64 = 10;

/// Minutes of silence before a session is dropped.
pub const DEFAULT_IDLE_DROP_MIN: u64 = 60;

/// Days that an observation is kept.
pub const DEFAULT_OBSERVE_RETAIN_DAYS: u64 = 30;

/// How often an opening must have been seen to be proposed as a rule.
pub const DEFAULT_PROPOSE_THRESHOLD: u32 = 3;

/// The least that `propose_threshold` can be.
pub const MIN_PROPOSE_THRESHOLD: u32 = 3;

/// The least number of characters in an opening that is proposed as a rule.
pub const MIN_PROPOSE_SAMPLE_LEN: usize = 60;

/// Seconds between two alerts of one stay.
pub const DEFAULT_ALERT_COOLDOWN_SECS: u64 = 120;

/// The least that a cooldown can be, unless it is zero.
pub const MIN_ALERT_COOLDOWN_SECS: u64 = 10;

/// Alerts in one stay, counting the one that marks its beginning.
pub const DEFAULT_MAX_TRIGGERS: u32 = 3;

/// The most that `max_triggers` can be.
pub const MAX_ALERT_TRIGGERS: u32 = 20;

/// The first port that is open to everyone.
pub const FIRST_OPEN_PORT: u16 = 1024;

/// The names of the sounds to choose from.
pub const SOUNDS: [&'static str; 6] = ["Ping", "Glass", "Submarine", "Funk", "Pop", "Hero"];

/// How the user is told that a session has entered a state.
#[derive(Debug)]
pub struct StateNotify {
    /// Switches every channel of this state.
    pub enabled: bool,
    pub sound: bool,
    pub sound_name: String,
    /// Whether the user's own script for this state may run.
    pub cli_enabled: bool,
    /// Seconds between two alerts of one stay; zero for no second one.
    pub cooldown_secs: u64,
    /// The most alerts in one stay, counting the one that marks its beginning.
    pub max_triggers: u32,
}

pub struct NotifyModel {
    pub enabled: bool,
    pub sound: bool,
    pub sound_name: Seq<char>,
    pub cli_enabled: bool,
    pub cooldown_secs: u64,
    pub max_triggers: u32,
}

impl View for StateNotify {
    type V = NotifyModel;

    open spec fn view(&self) -> NotifyModel {
        NotifyModel {
            enabled: self.enabled,
            sound: self.sound,
            sound_name: self.sound_name@,
            cli_enabled: self.cli_enabled,
            cooldown_secs: self.cooldown_secs,
            max_triggers: self.max_triggers,
        }
    }
}

/// The setting of a state before the user has touched it: no sound, no script.
pub open spec fn untouched(enabled: bool, sound_name: Seq<char>) -> NotifyModel {
    NotifyModel {
        enabled,
        sound: false,
        sound_name,
        cli_enabled: false,
        cooldown_secs: DEFAULT_ALERT_COOLDOWN_SECS,
        max_triggers: DEFAULT_MAX_TRIGGERS,
    }
}

impl NotifyModel {
    /// With the cooldown and the number of alerts in range.
    pub open spec fn in_range(self) -> NotifyModel {
        NotifyModel {
            cooldown_secs: if 0 < self.cooldown_secs < MIN_ALERT_COOLDOWN_SECS {
                MIN_ALERT_COOLDOWN_SECS
            } else {
                self.cooldown_secs
            },
            max_triggers: if self.max_triggers < 1 {
                1
            } else if self.max_triggers > MAX_ALERT_TRIGGERS {
                MAX_ALERT_TRIGGERS
            } else {
                self.max_triggers
            },
            ..self
        }
    }
}

impl StateNotify {
    /// The setting of a state before the user has touched it.
    pub fn new(enabled: bool, sound_name: &str) -> (r: StateNotify)
        ensures
            r@ == untouched(enabled, sound_name@),
    {
        StateNotify {
            enabled,
            sound: false,
            sound_name: sound_name.to_owned(),
            cli_enabled: false,
            cooldown_secs: DEFAULT_ALERT_COOLDOWN_SECS,
            max_triggers: DEFAULT_MAX_TRIGGERS,
        }
    }

    /// Brings the cooldown and the number of alerts into range.
    fn bring_in_range(&mut self)
        ensures
            final(self)@ == old(self)@.in_range(),
    {
        if self.cooldown_secs > 0 && self.cooldown_secs < MIN_ALERT_COOLDOWN_SECS {
            self.cooldown_secs = MIN_ALERT_COOLDOWN_SECS;
        }
        if self.max_triggers < 1 {
            self.max_triggers = 1;
        } else if self.max_triggers > MAX_ALERT_TRIGGERS {
            self.max_triggers = MAX_ALERT_TRIGGERS;
        }
    }
}

impl Default for StateNotify {
    fn default() -> (r: StateNotify)
        ensures
            r@ == untouched(false, "Ping"@),
    {
        StateNotify::new(false, "Ping")
    }
}

impl Clone for StateNotify {
    fn clone(&self) -> (r: StateNotify)
        ensures
            r@ == self@,
    {
        StateNotify {
            enabled: self.enabled,
            sound: self.sound,
            sound_name: self.sound_name.clone(),
            cli_enabled: self.cli_enabled,
            cooldown_secs: self.cooldown_secs,
            max_triggers: self.max_triggers,
        }
    }
}

/// All settings.
#[derive(Debug)]
pub struct Config {
    pub version: u32,
    /// Where the hooks report to.
    pub port: u16,
    pub stale_timeout_min: u64,
    pub idle_drop_min: u64,
    pub launch_on_login: bool,
    /// Whether the user is told that a session has gone stale.
    pub notify_idle: bool,
    /// Whether nothing is told of a session whose terminal is in front anyway.
    pub notify_unfocused_only: bool,
    pub theme: String,
    pub needs_you: StateNotify,
    pub working: StateNotify,
    pub ready: StateNotify,
    pub waiting_review: StateNotify,
    /// Rules to hide sessions by.
    pub ignore_rules: Vec<Matcher>,
    /// Rules that keep sessions from being hidden.
    pub never_hide: Vec<Matcher>,
    /// Openings that the user adds to the built-in markers.
    pub markers: Vec<MarkerRule>,
    /// Whether openings are counted to find ones that repeat.
    pub observe_enabled: bool,
    pub observe_retain_days: u64,
    pub propose_threshold: u32,
}

pub struct ConfigModel {
    pub version: u32,
    pub port: u16,
    pub stale_timeout_min: u64,
    pub idle_drop_min: u64,
    pub launch_on_login: bool,
    pub notify_idle: bool,
    pub notify_unfocused_only: bool,
    pub theme: Seq<char>,
    pub needs_you: NotifyModel,
    pub working: NotifyModel,
    pub ready: NotifyModel,
    pub waiting_review: NotifyModel,
    pub ignore_rules: Seq<MatcherModel>,
    pub never_hide: Seq<MatcherModel>,
    pub markers: Seq<MarkerModel>,
    pub observe_enabled: bool,
    pub observe_retain_days: u64,
    pub propose_threshold: u32,
}

impl View for Config {
    type V = ConfigModel;

    open spec fn view(&self) -> ConfigModel {
        ConfigModel {
            version: self.version,
            port: self.port,
            stale_timeout_min: self.stale_timeout_min,
            idle_drop_min: self.idle_drop_min,
            launch_on_login: self.launch_on_login,
            notify_idle: self.notify_idle,
            notify_unfocused_only: self.notify_unfocused_only,
            theme: self.theme@,
            needs_you: self.needs_you@,
            working: self.working@,
            ready: self.ready@,
            waiting_review: self.waiting_review@,
            ignore_rules: rules_of(self.ignore_rules@),
            never_hide: rules_of(self.never_hide@),
            markers: markers_of(self.markers@),
            observe_enabled: self.observe_enabled,
            observe_retain_days: self.observe_retain_days,
            propose_threshold: self.propose_threshold,
        }
    }
}

impl ConfigModel {
    /// The settings of a fresh installation: a block and a finished review are
    /// told of, and nothing is hidden.
    pub open spec fn initial() -> ConfigModel {
        ConfigModel {
            version: CURRENT_VERSION,
            port: DEFAULT_PORT,
            stale_timeout_min: DEFAULT_STALE_MIN,
            idle_drop_min: DEFAULT_IDLE_DROP_MIN,
            launch_on_login: false,
            notify_idle: false,
            notify_unfocused_only: true,
            theme: "classic"@,
            needs_you: untouched(true, "Ping"@),
            working: untouched(false, "Pop"@),
            ready: untouched(false, "Glass"@),
            waiting_review: untouched(true, "Ping"@),
            ignore_rules: Seq::empty(),
            never_hide: Seq::empty(),
            markers: Seq::empty(),
            observe_enabled: true,
            observe_retain_days: DEFAULT_OBSERVE_RETAIN_DAYS,
            propose_threshold: DEFAULT_PROPOSE_THRESHOLD,
        }
    }

    /// The stale timeout, which cannot be zero.
    pub open spec fn stale_min(self) -> u64 {
        if self.stale_timeout_min == 0 {
            DEFAULT_STALE_MIN
        } else {
            self.stale_timeout_min
        }
    }

    /// With every setting in range, and the current version.
    pub open spec fn in_range(self) -> ConfigModel {
        ConfigModel {
            version: CURRENT_VERSION,
            port: if self.port < FIRST_OPEN_PORT {
                DEFAULT_PORT
            } else {
                self.port
            },
            stale_timeout_min: self.stale_min(),
            idle_drop_min: if self.idle_drop_min < self.stale_min() {
                self.stale_min()
            } else {
                self.idle_drop_min
            },
            theme: if trimmed(self.theme).len() == 0 {
                "classic"@
            } else {
                self.theme
            },
            observe_retain_days: if self.observe_retain_days == 0 {
                DEFAULT_OBSERVE_RETAIN_DAYS
            } else {
                self.observe_retain_days
            },
            propose_threshold: if self.propose_threshold < MIN_PROPOSE_THRESHOLD {
                MIN_PROPOSE_THRESHOLD
            } else {
                self.propose_threshold
            },
            needs_you: self.needs_you.in_range(),
            working: self.working.in_range(),
            ready: self.ready.in_range(),
            waiting_review: self.waiting_review.in_range(),
            ..self
        }
    }
}

impl Default for Config {
    fn default() -> (r: Config)
        ensures
            r@ == ConfigModel::initial(),
    {
        let r = Config {
            version: CURRENT_VERSION,
            port: DEFAULT_PORT,
            stale_timeout_min: DEFAULT_STALE_MIN,
            idle_drop_min: DEFAULT_IDLE_DROP_MIN,
            launch_on_login: false,
            notify_idle: false,
            notify_unfocused_only: true,
            theme: "classic".to_owned(),
            needs_you: StateNotify::new(true, "Ping"),
            working: StateNotify::new(false, "Pop"),
            ready: StateNotify::new(false, "Glass"),
            waiting_review: StateNotify::new(true, "Ping"),
            ignore_rules: IgnoreRules::defaults(),
            never_hide: Vec::new(),
            markers: Vec::new(),
            observe_enabled: true,
            observe_retain_days: DEFAULT_OBSERVE_RETAIN_DAYS,
            propose_threshold: DEFAULT_PROPOSE_THRESHOLD,
        };
        assert(rules_of(r.ignore_rules@) =~= Seq::empty());
        assert(rules_of(r.never_hide@) =~= Seq::empty());
        assert(markers_of(r.markers@) =~= Seq::empty());
        r
    }
}

impl Clone for Config {
    fn clone(&self) -> (r: Config)
        ensures
            r@ == self@,
    {
        Config {
            version: self.version,
            port: self.port,
            stale_timeout_min: self.stale_timeout_min,
            idle_drop_min: self.idle_drop_min,
            launch_on_login: self.launch_on_login,
            notify_idle: self.notify_idle,
            notify_unfocused_only: self.notify_unfocused_only,
            theme: self.theme.clone(),
            needs_you: self.needs_you.clone(),
            working: self.working.clone(),
            ready: self.ready.clone(),
            waiting_review: self.waiting_review.clone(),
            ignore_rules: copy_rules(&self.ignore_rules),
            never_hide: copy_rules(&self.never_hide),
            markers: copy_markers(&self.markers),
            observe_enabled: self.observe_enabled,
            observe_retain_days: self.observe_retain_days,
            propose_threshold: self.propose_threshold,
        }
    }
}

impl Config {
    /// Brings every setting into range and stamps the current version.
    pub fn sanitized(self) -> (r: Config)
        ensures
            r@ == self@.in_range(),
    {
        let mut c = self;
        if c.port < FIRST_OPEN_PORT {
            c.port = DEFAULT_PORT;
        }
        if c.stale_timeout_min == 0 {
            c.stale_timeout_min = DEFAULT_STALE_MIN;
        }
        if c.idle_drop_min < c.stale_timeout_min {
            c.idle_drop_min = c.stale_timeout_min;
        }
        if trim(c.theme.as_str()).is_empty() {
            c.theme = "classic".to_owned();
        }
        if c.observe_retain_days == 0 {
            c.observe_retain_days = DEFAULT_OBSERVE_RETAIN_DAYS;
        }
        if c.propose_threshold < MIN_PROPOSE_THRESHOLD {
            c.propose_threshold = MIN_PROPOSE_THRESHOLD;
        }
        c.needs_you.bring_in_range();
        c.working.bring_in_range();
        c.ready.bring_in_range();
        c.waiting_review.bring_in_range();
        c.version = CURRENT_VERSION;
        c
    }
}

/// Settings that are in range stay as they are.
pub proof fn law_sanitizing_settles(c: ConfigModel)
    ensures
        c.in_range().in_range() == c.in_range(),
        ConfigModel::initial().in_range() == ConfigModel::initial(),
{
    reveal_strlit("classic");
    assert("classic"@.len() == 7);
    assert("classic"@[0] == 'c' && "classic"@[6] == 'c');
    let word = "classic"@;
    assert(trimmed(word) == word);
}

/// What every sanitized setting keeps to: the port is open to everyone, a session
/// is greyed before it is dropped, a cooldown is none or at least the least one,
/// and a stay has at least one alert and at most the most.
pub proof fn law_sanitized_ranges(c: ConfigModel)
    ensures
        ({
            let r = c.in_range();
            &&& r.version == CURRENT_VERSION
            &&& r.port >= FIRST_OPEN_PORT
            &&& 0 < r.stale_timeout_min <= r.idle_drop_min
            &&& trimmed(r.theme).len() > 0
            &&& r.observe_retain_days > 0
            &&& r.propose_threshold >= MIN_PROPOSE_THRESHOLD
            &&& notify_in_range(r.needs_you)
            &&& notify_in_range(r.working)
            &&& notify_in_range(r.ready)
            &&& notify_in_range(r.waiting_review)
        }),
{
    reveal_strlit("classic");
    assert("classic"@.len() == 7);
    assert("classic"@[0] == 'c' && "classic"@[6] == 'c');
    let word = "classic"@;
    assert(trimmed(word) == word);
}

/// Whether a cooldown and a number of alerts are in range.
pub open spec fn notify_in_range(n: NotifyModel) -> bool {
    &&& n.cooldown_secs == 0 || n.cooldown_secs >= MIN_ALERT_COOLDOWN_SECS
    &&& 1 <= n.max_triggers <= MAX_ALERT_TRIGGERS
}

/// Whether two settings of a state have the same switches and sound.
pub open spec fn same_choices(a: NotifyModel, b: NotifyModel) -> bool {
    &&& a.enabled == b.enabled
    &&& a.sound == b.sound
    &&& a.sound_name == b.sound_name
    &&& a.cli_enabled == b.cli_enabled
}

/// Sanitizing leaves the rules, the markers and every switch alone.
pub proof fn law_sanitizing_keeps_choices(c: ConfigModel)
    ensures
        ({
            let r = c.in_range();
            &&& r.ignore_rules == c.ignore_rules
            &&& r.never_hide == c.never_hide
            &&& r.markers == c.markers
            &&& r.observe_enabled == c.observe_enabled
            &&& r.launch_on_login == c.launch_on_login
            &&& r.notify_idle == c.notify_idle
            &&& r.notify_unfocused_only == c.notify_unfocused_only
            &&& same_choices(r.needs_you, c.needs_you)
            &&& same_choices(r.working, c.working)
            &&& same_choices(r.ready, c.ready)
            &&& same_choices(r.waiting_review, c.waiting_review)
        }),
{
}

} // verus!
