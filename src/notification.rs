//! Notification routing: the closed set of notification types, the channel and
//! title each one is delivered with, and the channels the tracker registers.

use vstd::prelude::*;
use vstd::string::StringExecFns;

use crate::text::{join, same_text, to_upper, upper_of};

verus! {

/// The kinds of notification the tracker knows; anything else is `Other`.
#[derive(Debug, Clone, Copy, PartialEq, Eq, Hash, Structural)]
pub enum NotificationSoundType {
    Info,
    Warning,
    Error,
    Success,
    Critical,
    Other,
}

/// The upper-case name under which a notification type is written.
pub open spec fn label_spec(k: NotificationSoundType) -> Seq<char> {
    match k {
        NotificationSoundType::Info => "INFO"@,
        NotificationSoundType::Warning => "WARNING"@,
        NotificationSoundType::Error => "ERROR"@,
        NotificationSoundType::Success => "SUCCESS"@,
        NotificationSoundType::Critical => "CRITICAL"@,
        NotificationSoundType::Other => "OTHER"@,
    }
}

/// The type a string names exactly (case-sensitive); unknown names are `Other`.
pub open spec fn kind_of_exact(s: Seq<char>) -> NotificationSoundType {
    if s == "INFO"@ {
        NotificationSoundType::Info
    } else if s == "WARNING"@ {
        NotificationSoundType::Warning
    } else if s == "ERROR"@ {
        NotificationSoundType::Error
    } else if s == "SUCCESS"@ {
        NotificationSoundType::Success
    } else if s == "CRITICAL"@ {
        NotificationSoundType::Critical
    } else {
        NotificationSoundType::Other
    }
}

/// The channel a notification type is delivered on. Errors and critical
/// notifications share one channel; unknown types go to the info channel.
pub open spec fn channel_id_spec(k: NotificationSoundType) -> Seq<char> {
    match k {
        NotificationSoundType::Error | NotificationSoundType::Critical => "time_tracker_error"@,
        NotificationSoundType::Warning => "time_tracker_warning"@,
        NotificationSoundType::Success => "time_tracker_success"@,
        NotificationSoundType::Info | NotificationSoundType::Other => "time_tracker_info"@,
    }
}

/// The suffix shown after the application name in a notification's title.
pub open spec fn title_suffix_spec(k: NotificationSoundType) -> Seq<char> {
    match k {
        NotificationSoundType::Error | NotificationSoundType::Critical => "Error"@,
        NotificationSoundType::Warning => "Warning"@,
        NotificationSoundType::Success => "Success"@,
        NotificationSoundType::Info => "Info"@,
        NotificationSoundType::Other => "Notification"@,
    }
}

/// The prefix of every notification title.
pub open spec fn title_prefix_spec() -> Seq<char> {
    "Time Tracker - "@
}

impl NotificationSoundType {
    /// The upper-case name of this type.
    pub fn label(&self) -> (r: String)
        ensures
            r@ == label_spec(*self),
    {
        match self {
            NotificationSoundType::Info => String::from_str("INFO"),
            NotificationSoundType::Warning => String::from_str("WARNING"),
            NotificationSoundType::Error => String::from_str("ERROR"),
            NotificationSoundType::Success => String::from_str("SUCCESS"),
            NotificationSoundType::Critical => String::from_str("CRITICAL"),
            NotificationSoundType::Other => String::from_str("OTHER"),
        }
    }

    /// The type that `s` names exactly, matching case-sensitively.
    pub fn parse_exact(s: &str) -> (r: NotificationSoundType)
        ensures
            r == kind_of_exact(s@),
    {
        if same_text(s, "INFO") {
            NotificationSoundType::Info
        } else if same_text(s, "WARNING") {
            NotificationSoundType::Warning
        } else if same_text(s, "ERROR") {
            NotificationSoundType::Error
        } else if same_text(s, "SUCCESS") {
            NotificationSoundType::Success
        } else if same_text(s, "CRITICAL") {
            NotificationSoundType::Critical
        } else {
            NotificationSoundType::Other
        }
    }

    /// The type that `s` names, ignoring case: `s` is upper-cased first.
    pub fn from_type_name(s: &str) -> (r: NotificationSoundType)
        ensures
            r == kind_of_exact(upper_of(s@)),
    {
        let upper = to_upper(s);
        NotificationSoundType::parse_exact(upper.as_str())
    }

    /// The channel this type is delivered on.
    pub fn channel_id(&self) -> (r: String)
        ensures
            r@ == channel_id_spec(*self),
    {
        match self {
            NotificationSoundType::Error | NotificationSoundType::Critical => String::from_str(
                "time_tracker_error",
            ),
            NotificationSoundType::Warning => String::from_str("time_tracker_warning"),
            NotificationSoundType::Success => String::from_str("time_tracker_success"),
            NotificationSoundType::Info | NotificationSoundType::Other => String::from_str(
                "time_tracker_info",
            ),
        }
    }

    /// The title suffix of this type.
    pub fn title_suffix(&self) -> (r: String)
        ensures
            r@ == title_suffix_spec(*self),
    {
        match self {
            NotificationSoundType::Error | NotificationSoundType::Critical => String::from_str(
                "Error",
            ),
            NotificationSoundType::Warning => String::from_str("Warning"),
            NotificationSoundType::Success => String::from_str("Success"),
            NotificationSoundType::Info => String::from_str("Info"),
            NotificationSoundType::Other => String::from_str("Notification"),
        }
    }
}


impl<'a> From<&'a str> for NotificationSoundType {
    /// The type that `s` names, ignoring case.
    fn from(s: &'a str) -> (r: NotificationSoundType) {
        NotificationSoundType::from_type_name(s)
    }
}

impl<'a> vstd::std_specs::convert::FromSpecImpl<&'a str> for NotificationSoundType {
    open spec fn obeys_from_spec() -> bool {
        true
    }

    open spec fn from_spec(s: &'a str) -> NotificationSoundType {
        kind_of_exact(upper_of(s@))
    }
}

/// Where and under which title a notification is delivered.
pub struct NotificationRoute {
    pub title_suffix: String,
    pub channel_id: String,
}

/// Resolves a notification type, matched case-sensitively, to its title suffix
/// and channel. Every string resolves; unknown ones get the generic title and
/// the info channel.
pub fn resolve_notification(notification_type: &str) -> (r: NotificationRoute)
    ensures
        r.title_suffix@ == title_suffix_spec(kind_of_exact(notification_type@)),
        r.channel_id@ == channel_id_spec(kind_of_exact(notification_type@)),
{
    let kind = NotificationSoundType::parse_exact(notification_type);
    NotificationRoute { title_suffix: kind.title_suffix(), channel_id: kind.channel_id() }
}

/// The full title of a notification of the given type (matched case-sensitively).
pub fn notification_title(notification_type: &str) -> (r: String)
    ensures
        r@ == title_prefix_spec() + title_suffix_spec(kind_of_exact(notification_type@)),
{
    let kind = NotificationSoundType::parse_exact(notification_type);
    let suffix = kind.title_suffix();
    join("Time Tracker - ", suffix.as_str())
}

/// What a presentation layer receives to render one notification.
pub struct NotificationData {
    pub title: String,
    pub body: String,
    pub notification_type: String,
}

/// Everything the presentation layer needs to show a notification on its channel.
pub struct NotificationPayload {
    pub title: String,
    pub body: String,
    pub channel_id: String,
    pub notification_type: String,
}

/// Builds the display payload for a notification request: the request's own
/// title and body, on the channel of its type (matched case-sensitively).
pub fn notification_payload(request: &NotificationData) -> (r: NotificationPayload)
    ensures
        r.title@ == request.title@,
        r.body@ == request.body@,
        r.channel_id@ == channel_id_spec(kind_of_exact(request.notification_type@)),
        r.notification_type@ == request.notification_type@,
{
    let kind = NotificationSoundType::parse_exact(request.notification_type.as_str());
    NotificationPayload {
        title: request.title.clone(),
        body: request.body.clone(),
        channel_id: kind.channel_id(),
        notification_type: request.notification_type.clone(),
    }
}

/// How strongly a channel interrupts the user.
#[derive(Debug, Clone, Copy, PartialEq, Eq, Structural)]
pub enum NotificationImportance {
    Min,
    Low,
    Default,
    High,
    Max,
}

/// The platform's numeric level of an importance, from 1 (min) to 5 (max).
pub open spec fn importance_level_spec(i: NotificationImportance) -> u8 {
    match i {
        NotificationImportance::Min => 1,
        NotificationImportance::Low => 2,
        NotificationImportance::Default => 3,
        NotificationImportance::High => 4,
        NotificationImportance::Max => 5,
    }
}

impl NotificationImportance {
    /// The platform's numeric level of this importance.
    pub fn level(&self) -> (r: u8)
        ensures
            r == importance_level_spec(*self),
            1 <= r <= 5,
    {
        match self {
            NotificationImportance::Min => 1,
            NotificationImportance::Low => 2,
            NotificationImportance::Default => 3,
            NotificationImportance::High => 4,
            NotificationImportance::Max => 5,
        }
    }
}

/// A notification channel as it is registered with the presentation layer.
pub struct NotificationChannelConfig {
    pub id: String,
    pub name: String,
    pub description: String,
    pub importance: NotificationImportance,
    pub sound_name: String,
}

/// Whether a channel configuration holds exactly the given values, with the
/// shared notification sound.
pub open spec fn channel_is(
    c: NotificationChannelConfig,
    id: Seq<char>,
    name: Seq<char>,
    description: Seq<char>,
    importance: NotificationImportance,
) -> bool {
    &&& c.id@ == id
    &&& c.name@ == name
    &&& c.description@ == description
    &&& c.importance == importance
    &&& c.sound_name@ == "notification_sound"@
}

/// The channels the tracker registers, one per known type, in this order.
pub open spec fn registered_channels_spec(cs: Seq<NotificationChannelConfig>) -> bool {
    &&& cs.len() == 5
    &&& channel_is(
        cs[0],
        "time_tracker_info"@,
        "Time Tracker - Info"@,
        "Informational notifications from Time Tracker"@,
        NotificationImportance::Default,
    )
    &&& channel_is(
        cs[1],
        "time_tracker_warning"@,
        "Time Tracker - Warning"@,
        "Warning notifications from Time Tracker"@,
        NotificationImportance::High,
    )
    &&& channel_is(
        cs[2],
        "time_tracker_error"@,
        "Time Tracker - Error"@,
        "Error notifications from Time Tracker"@,
        NotificationImportance::Max,
    )
    &&& channel_is(
        cs[3],
        "time_tracker_success"@,
        "Time Tracker - Success"@,
        "Success notifications from Time Tracker"@,
        NotificationImportance::Default,
    )
    &&& channel_is(
        cs[4],
        "time_tracker_critical"@,
        "Time Tracker - Critical"@,
        "Critical notifications from Time Tracker"@,
        NotificationImportance::Max,
    )
}

fn channel(id: &str, name: &str, description: &str, importance: NotificationImportance) -> (r:
    NotificationChannelConfig)
    ensures
        channel_is(r, id@, name@, description@, importance),
{
    NotificationChannelConfig {
        id: String::from_str(id),
        name: String::from_str(name),
        description: String::from_str(description),
        importance,
        sound_name: String::from_str("notification_sound"),
    }
}

/// The channels the tracker registers.
pub fn channel_configs() -> (r: Vec<NotificationChannelConfig>)
    ensures
        registered_channels_spec(r@),
{
    let mut cs: Vec<NotificationChannelConfig> = Vec::new();
    cs.push(
        channel(
            "time_tracker_info",
            "Time Tracker - Info",
            "Informational notifications from Time Tracker",
            NotificationImportance::Default,
        ),
    );
    cs.push(
        channel(
            "time_tracker_warning",
            "Time Tracker - Warning",
            "Warning notifications from Time Tracker",
            NotificationImportance::High,
        ),
    );
    cs.push(
        channel(
            "time_tracker_error",
            "Time Tracker - Error",
            "Error notifications from Time Tracker",
            NotificationImportance::Max,
        ),
    );
    cs.push(
        channel(
            "time_tracker_success",
            "Time Tracker - Success",
            "Success notifications from Time Tracker",
            NotificationImportance::Default,
        ),
    );
    cs.push(
        channel(
            "time_tracker_critical",
            "Time Tracker - Critical",
            "Critical notifications from Time Tracker",
            NotificationImportance::Max,
        ),
    );
    cs
}

/// Keeps track of whether the notification channels have been registered.
#[derive(Clone, Copy)]
pub struct NotificationManager {
    channels_created: bool,
}

impl NotificationManager {
    /// Whether the channels have been registered.
    pub closed spec fn initialized(&self) -> bool {
        self.channels_created
    }

    /// A manager that has registered no channel yet.
    pub fn new() -> (r: NotificationManager)
        ensures
            !r.initialized(),
    {
        NotificationManager { channels_created: false }
    }

    /// The channels still to register: all of them the first time, none after
    /// that. The manager counts as initialized afterwards.
    pub fn initialize_channels(&mut self) -> (r: Vec<NotificationChannelConfig>)
        ensures
            final(self).initialized(),
            old(self).initialized() ==> r@.len() == 0,
            !old(self).initialized() ==> registered_channels_spec(r@),
    {
        if self.channels_created {
            return Vec::new();
        }
        let cs = channel_configs();
        self.channels_created = true;
        cs
    }

    /// The channel for a notification type, matched case-sensitively.
    pub fn get_channel_id(&self, notification_type: &str) -> (r: String)
        ensures
            r@ == channel_id_spec(kind_of_exact(notification_type@)),
    {
        NotificationSoundType::parse_exact(notification_type).channel_id()
    }

    /// Whether the channels have been registered.
    pub fn is_initialized(&self) -> (r: bool)
        ensures
            r == self.initialized(),
    {
        self.channels_created
    }
}

impl Default for NotificationManager {
    fn default() -> (r: NotificationManager)
        ensures
            !r.initialized(),
    {
        NotificationManager::new()
    }
}

/// The five known type names are pairwise different.
pub proof fn lemma_known_names_distinct()
    ensures
        "INFO"@ != "WARNING"@,
        "INFO"@ != "ERROR"@,
        "INFO"@ != "SUCCESS"@,
        "INFO"@ != "CRITICAL"@,
        "WARNING"@ != "ERROR"@,
        "WARNING"@ != "SUCCESS"@,
        "WARNING"@ != "CRITICAL"@,
        "ERROR"@ != "SUCCESS"@,
        "ERROR"@ != "CRITICAL"@,
        "SUCCESS"@ != "CRITICAL"@,
{
    reveal_strlit("INFO");
    reveal_strlit("WARNING");
    reveal_strlit("ERROR");
    reveal_strlit("SUCCESS");
    reveal_strlit("CRITICAL");
    assert("INFO"@.len() == 4);
    assert("WARNING"@.len() == 7);
    assert("ERROR"@.len() == 5);
    assert("SUCCESS"@.len() == 7);
    assert("CRITICAL"@.len() == 8);
    assert("WARNING"@[0] != "SUCCESS"@[0]);
}

/// Errors and critical notifications are routed alike: same title, same channel.
pub proof fn lemma_error_and_critical_route_alike()
    ensures
        title_suffix_spec(kind_of_exact("ERROR"@)) == title_suffix_spec(
            kind_of_exact("CRITICAL"@),
        ),
        channel_id_spec(kind_of_exact("ERROR"@)) == channel_id_spec(kind_of_exact("CRITICAL"@)),
{
    lemma_known_names_distinct();
}

/// Any string outside the known names resolves to the info channel with the
/// generic title.
pub proof fn lemma_unknown_type_routes_to_info(t: Seq<char>)
    requires
        t != "INFO"@,
        t != "WARNING"@,
        t != "ERROR"@,
        t != "SUCCESS"@,
        t != "CRITICAL"@,
    ensures
        kind_of_exact(t) == NotificationSoundType::Other,
        channel_id_spec(kind_of_exact(t)) == channel_id_spec(NotificationSoundType::Info),
        title_suffix_spec(kind_of_exact(t)) == "Notification"@,
{
}

/// Reading back a type's own name gives the type, for every known type.
pub proof fn lemma_label_round_trip(k: NotificationSoundType)
    requires
        k != NotificationSoundType::Other,
    ensures
        kind_of_exact(label_spec(k)) == k,
{
    lemma_known_names_distinct();
}

} // verus!
