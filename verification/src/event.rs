//! The occurrences that the native run loop reports, as typed events.
//!
//! A native callback arrives with short-lived buffers. Before it returns,
//! whatever it carried is copied into owned values and, if all of it is well
//! formed, becomes one event. A callback whose text is not UTF-8, or whose
//! record holds a text field without terminator, yields no event at all:
//! there is no channel to report a malformed occurrence on.

use vstd::prelude::*;
use crate::charbuf::{bytes_to_str, charbuf_to_str, decoded, field_text, CodecError};

verus! {

/// Events about the current user.
#[derive(Copy, Debug, Clone, PartialEq, Eq)]
pub enum UserEvent {
    CurrentUserUpdated,
}

/// Events about activities: joining, spectating, requests and invitations.
#[derive(Debug, Clone, PartialEq, Eq)]
pub enum ActivityEvent {
    Join { secret: String },
    Spectate { secret: String },
    Request { user: User },
    Invite { user: User, activity: Activity },
}

/// Events about the overlay.
#[derive(Copy, Debug, Clone, PartialEq, Eq)]
pub enum OverlayEvent {
    Opened,
    Closed,
}

/// Events about voice.
#[derive(Copy, Debug, Clone, PartialEq, Eq)]
pub enum VoiceEvent {
    SettingsUpdated,
}

/// One occurrence, tagged with the subsystem that reported it.
#[derive(Debug, Clone, PartialEq, Eq)]
pub enum Event {
    User(UserEvent),
    Activity(ActivityEvent),
    Overlay(OverlayEvent),
    Voice(VoiceEvent),
}

/// The kinds of events; each kind has a queue of its own.
#[derive(Copy, Debug, Clone, PartialEq, Eq, Structural)]
pub enum EventKind {
    User,
    Activity,
    Overlay,
    Voice,
}

/// A user, with every text field owned.
#[derive(Debug, Clone, PartialEq, Eq)]
pub struct User {
    pub id: i64,
    pub username: String,
    pub discriminator: String,
    pub avatar: String,
    pub bot: bool,
}

/// An activity, with every text field owned.
#[derive(Debug, Clone, PartialEq, Eq)]
pub struct Activity {
    pub application_id: i64,
    pub name: String,
    pub state: String,
    pub details: String,
}

/// A user record as the native library lays it out: each text in a fixed
/// field, copied whole.
#[derive(Debug, Clone)]
pub struct RawUser {
    pub id: i64,
    pub username: Vec<u8>,
    pub discriminator: Vec<u8>,
    pub avatar: Vec<u8>,
    pub bot: bool,
}

/// An activity record as the native library lays it out.
#[derive(Debug, Clone)]
pub struct RawActivity {
    pub application_id: i64,
    pub name: Vec<u8>,
    pub state: Vec<u8>,
    pub details: Vec<u8>,
}

/// One invocation of a registered callback, with the data it was given
/// already copied out of native memory.
#[derive(Debug, Clone)]
pub enum Callback {
    CurrentUserUpdate,
    ActivityJoin { secret: Vec<u8> },
    ActivitySpectate { secret: Vec<u8> },
    ActivityJoinRequest { user: RawUser },
    ActivityInvite { user: RawUser, activity: RawActivity },
    OverlayToggle { locked: bool },
    VoiceSettingsUpdate,
    /// An invocation of a slot whose occurrences are not published.
    Unpublished { slot: Slot },
}

/// The subsystems of the native library; each registers one table of
/// callbacks.
#[derive(Copy, Debug, Clone, PartialEq, Eq, Structural)]
pub enum Subsystem {
    Users,
    Activities,
    Relationships,
    Lobbies,
    Networking,
    Overlay,
    Store,
    Voice,
}

/// The slots of the callback tables, one for each function that the native
/// library may invoke.
#[derive(Copy, Debug, Clone, PartialEq, Eq, Structural)]
pub enum Slot {
    CurrentUserUpdate,
    ActivityJoin,
    ActivitySpectate,
    ActivityJoinRequest,
    ActivityInvite,
    RelationshipRefresh,
    RelationshipUpdate,
    LobbyUpdate,
    LobbyDelete,
    MemberConnect,
    MemberUpdate,
    MemberDisconnect,
    LobbyMessage,
    Speaking,
    LobbyNetworkMessage,
    NetworkMessage,
    RouteUpdate,
    OverlayToggle,
    EntitlementCreate,
    EntitlementDelete,
    VoiceSettingsUpdate,
}

impl Slot {
    /// The subsystem whose table holds this slot.
    pub open spec fn spec_subsystem(self) -> Subsystem {
        match self {
            Slot::CurrentUserUpdate => Subsystem::Users,
            Slot::ActivityJoin
            | Slot::ActivitySpectate
            | Slot::ActivityJoinRequest
            | Slot::ActivityInvite => Subsystem::Activities,
            Slot::RelationshipRefresh | Slot::RelationshipUpdate => Subsystem::Relationships,
            Slot::LobbyUpdate
            | Slot::LobbyDelete
            | Slot::MemberConnect
            | Slot::MemberUpdate
            | Slot::MemberDisconnect
            | Slot::LobbyMessage
            | Slot::Speaking
            | Slot::LobbyNetworkMessage => Subsystem::Lobbies,
            Slot::NetworkMessage | Slot::RouteUpdate => Subsystem::Networking,
            Slot::OverlayToggle => Subsystem::Overlay,
            Slot::EntitlementCreate | Slot::EntitlementDelete => Subsystem::Store,
            Slot::VoiceSettingsUpdate => Subsystem::Voice,
        }
    }

    /// The channel on which the occurrences of this slot are published, if
    /// they are published at all.
    pub open spec fn spec_channel(self) -> Option<EventKind> {
        match self.spec_subsystem() {
            Subsystem::Users => Some(EventKind::User),
            Subsystem::Activities => Some(EventKind::Activity),
            Subsystem::Overlay => Some(EventKind::Overlay),
            Subsystem::Voice => Some(EventKind::Voice),
            _ => None,
        }
    }

    /// The subsystem whose table holds this slot.
    pub fn subsystem(&self) -> (subsystem: Subsystem)
        ensures
            subsystem == self.spec_subsystem(),
    {
        match self {
            Slot::CurrentUserUpdate => Subsystem::Users,
            Slot::ActivityJoin
            | Slot::ActivitySpectate
            | Slot::ActivityJoinRequest
            | Slot::ActivityInvite => Subsystem::Activities,
            Slot::RelationshipRefresh | Slot::RelationshipUpdate => Subsystem::Relationships,
            Slot::LobbyUpdate
            | Slot::LobbyDelete
            | Slot::MemberConnect
            | Slot::MemberUpdate
            | Slot::MemberDisconnect
            | Slot::LobbyMessage
            | Slot::Speaking
            | Slot::LobbyNetworkMessage => Subsystem::Lobbies,
            Slot::NetworkMessage | Slot::RouteUpdate => Subsystem::Networking,
            Slot::OverlayToggle => Subsystem::Overlay,
            Slot::EntitlementCreate | Slot::EntitlementDelete => Subsystem::Store,
            Slot::VoiceSettingsUpdate => Subsystem::Voice,
        }
    }

    /// The channel on which the occurrences of this slot are published, if
    /// they are published at all.
    pub fn channel(&self) -> (kind: Option<EventKind>)
        ensures
            kind == self.spec_channel(),
    {
        match self.subsystem() {
            Subsystem::Users => Some(EventKind::User),
            Subsystem::Activities => Some(EventKind::Activity),
            Subsystem::Overlay => Some(EventKind::Overlay),
            Subsystem::Voice => Some(EventKind::Voice),
            _ => None,
        }
    }
}

impl Callback {
    /// The slot that was invoked.
    pub open spec fn spec_slot(self) -> Slot {
        match self {
            Callback::CurrentUserUpdate => Slot::CurrentUserUpdate,
            Callback::ActivityJoin { .. } => Slot::ActivityJoin,
            Callback::ActivitySpectate { .. } => Slot::ActivitySpectate,
            Callback::ActivityJoinRequest { .. } => Slot::ActivityJoinRequest,
            Callback::ActivityInvite { .. } => Slot::ActivityInvite,
            Callback::OverlayToggle { .. } => Slot::OverlayToggle,
            Callback::VoiceSettingsUpdate => Slot::VoiceSettingsUpdate,
            Callback::Unpublished { slot } => slot,
        }
    }

    /// The slot that was invoked.
    pub fn slot(&self) -> (slot: Slot)
        ensures
            slot == self.spec_slot(),
    {
        match self {
            Callback::CurrentUserUpdate => Slot::CurrentUserUpdate,
            Callback::ActivityJoin { .. } => Slot::ActivityJoin,
            Callback::ActivitySpectate { .. } => Slot::ActivitySpectate,
            Callback::ActivityJoinRequest { .. } => Slot::ActivityJoinRequest,
            Callback::ActivityInvite { .. } => Slot::ActivityInvite,
            Callback::OverlayToggle { .. } => Slot::OverlayToggle,
            Callback::VoiceSettingsUpdate => Slot::VoiceSettingsUpdate,
            Callback::Unpublished { slot } => *slot,
        }
    }
}

/// An event belongs to the channel that the tables name for the slot it
/// came from.
pub proof fn lemma_event_follows_slot(cb: Callback, event: Event)
    requires
        yields(cb, Some(event)),
    ensures
        cb.spec_slot().spec_channel() == Some(event.spec_kind()),
{
}

impl Event {
    /// The kind of this event, which names the queue it goes to.
    pub open spec fn spec_kind(self) -> EventKind {
        match self {
            Event::User(_) => EventKind::User,
            Event::Activity(_) => EventKind::Activity,
            Event::Overlay(_) => EventKind::Overlay,
            Event::Voice(_) => EventKind::Voice,
        }
    }

    /// The kind of this event, which names the queue it goes to.
    pub fn kind(&self) -> (k: EventKind)
        ensures
            k == self.spec_kind(),
    {
        match self {
            Event::User(_) => EventKind::User,
            Event::Activity(_) => EventKind::Activity,
            Event::Overlay(_) => EventKind::Overlay,
            Event::Voice(_) => EventKind::Voice,
        }
    }
}

/// `user` is what `raw` holds, with the text of each of its fixed fields.
pub open spec fn user_decodes(raw: RawUser, user: User) -> bool {
    &&& user.id == raw.id
    &&& user.bot == raw.bot
    &&& field_text(raw.username@) == Ok::<Seq<char>, CodecError>(user.username@)
    &&& field_text(raw.discriminator@) == Ok::<Seq<char>, CodecError>(user.discriminator@)
    &&& field_text(raw.avatar@) == Ok::<Seq<char>, CodecError>(user.avatar@)
}

/// Every text field of `raw` is terminated and UTF-8.
pub open spec fn user_well_formed(raw: RawUser) -> bool {
    &&& field_text(raw.username@) is Ok
    &&& field_text(raw.discriminator@) is Ok
    &&& field_text(raw.avatar@) is Ok
}

/// `activity` is what `raw` holds, with the text of each of its fixed fields.
pub open spec fn activity_decodes(raw: RawActivity, activity: Activity) -> bool {
    &&& activity.application_id == raw.application_id
    &&& field_text(raw.name@) == Ok::<Seq<char>, CodecError>(activity.name@)
    &&& field_text(raw.state@) == Ok::<Seq<char>, CodecError>(activity.state@)
    &&& field_text(raw.details@) == Ok::<Seq<char>, CodecError>(activity.details@)
}

/// Every text field of `raw` is terminated and UTF-8.
pub open spec fn activity_well_formed(raw: RawActivity) -> bool {
    &&& field_text(raw.name@) is Ok
    &&& field_text(raw.state@) is Ok
    &&& field_text(raw.details@) is Ok
}

/// `event` is what the callback `cb` publishes: the event made of its data,
/// or nothing where its text is malformed or its subsystem is not published.
pub open spec fn yields(cb: Callback, event: Option<Event>) -> bool {
    match cb {
        Callback::CurrentUserUpdate => event == Some(Event::User(UserEvent::CurrentUserUpdated)),
        Callback::ActivityJoin { secret } => match event {
            Some(Event::Activity(ActivityEvent::Join { secret: text })) => decoded(secret@) == Some(
                text@,
            ),
            Some(_) => false,
            None => decoded(secret@) is None,
        },
        Callback::ActivitySpectate { secret } => match event {
            Some(Event::Activity(ActivityEvent::Spectate { secret: text })) => decoded(secret@)
                == Some(text@),
            Some(_) => false,
            None => decoded(secret@) is None,
        },
        Callback::ActivityJoinRequest { user } => match event {
            Some(Event::Activity(ActivityEvent::Request { user: who })) => user_decodes(user, who),
            Some(_) => false,
            None => !user_well_formed(user),
        },
        Callback::ActivityInvite { user, activity } => match event {
            Some(Event::Activity(ActivityEvent::Invite { user: who, activity: what })) => {
                user_decodes(user, who) && activity_decodes(activity, what)
            },
            Some(_) => false,
            None => !user_well_formed(user) || !activity_well_formed(activity),
        },
        Callback::OverlayToggle { locked } => event == Some(
            Event::Overlay(
                if locked {
                    OverlayEvent::Opened
                } else {
                    OverlayEvent::Closed
                },
            ),
        ),
        Callback::VoiceSettingsUpdate => event == Some(Event::Voice(VoiceEvent::SettingsUpdated)),
        Callback::Unpublished { .. } => event is None,
    }
}

impl User {
    /// Copies a native user record into an owned one. Fails where one of its
    /// text fields is not terminated or not UTF-8.
    pub fn from_raw(raw: &RawUser) -> (r: Option<User>)
        ensures
            match r {
                Some(user) => user_decodes(*raw, user),
                None => !user_well_formed(*raw),
            },
    {
        let username = match charbuf_to_str(raw.username.as_slice()) {
            Ok(text) => text,
            Err(_) => {
                return None;
            },
        };
        let discriminator = match charbuf_to_str(raw.discriminator.as_slice()) {
            Ok(text) => text,
            Err(_) => {
                return None;
            },
        };
        let avatar = match charbuf_to_str(raw.avatar.as_slice()) {
            Ok(text) => text,
            Err(_) => {
                return None;
            },
        };
        Some(User { id: raw.id, username, discriminator, avatar, bot: raw.bot })
    }
}

impl Activity {
    /// Copies a native activity record into an owned one. Fails where one of
    /// its text fields is not terminated or not UTF-8.
    pub fn from_raw(raw: &RawActivity) -> (r: Option<Activity>)
        ensures
            match r {
                Some(activity) => activity_decodes(*raw, activity),
                None => !activity_well_formed(*raw),
            },
    {
        let name = match charbuf_to_str(raw.name.as_slice()) {
            Ok(text) => text,
            Err(_) => {
                return None;
            },
        };
        let state = match charbuf_to_str(raw.state.as_slice()) {
            Ok(text) => text,
            Err(_) => {
                return None;
            },
        };
        let details = match charbuf_to_str(raw.details.as_slice()) {
            Ok(text) => text,
            Err(_) => {
                return None;
            },
        };
        Some(Activity { application_id: raw.application_id, name, state, details })
    }
}

/// The current user changed.
pub fn on_current_user_update() -> (event: Event)
    ensures
        event == Event::User(UserEvent::CurrentUserUpdated),
{
    Event::User(UserEvent::CurrentUserUpdated)
}

/// The user accepted an invitation to join; `secret` holds the bytes of the
/// join secret, which arrive with their length.
pub fn on_activity_join(secret: &[u8]) -> (event: Option<Event>)
    ensures
        match event {
            Some(Event::Activity(ActivityEvent::Join { secret: text })) => decoded(secret@)
                == Some(text@),
            Some(_) => false,
            None => decoded(secret@) is None,
        },
{
    match bytes_to_str(secret) {
        Ok(text) => Some(Event::Activity(ActivityEvent::Join { secret: text })),
        Err(_) => None,
    }
}

/// The user accepted an invitation to spectate; `secret` holds the bytes of
/// the spectate secret, which arrive with their length.
pub fn on_activity_spectate(secret: &[u8]) -> (event: Option<Event>)
    ensures
        match event {
            Some(Event::Activity(ActivityEvent::Spectate { secret: text })) => decoded(secret@)
                == Some(text@),
            Some(_) => false,
            None => decoded(secret@) is None,
        },
{
    match bytes_to_str(secret) {
        Ok(text) => Some(Event::Activity(ActivityEvent::Spectate { secret: text })),
        Err(_) => None,
    }
}

/// Another user asked to join.
pub fn on_activity_join_request(user: &RawUser) -> (event: Option<Event>)
    ensures
        match event {
            Some(Event::Activity(ActivityEvent::Request { user: who })) => user_decodes(
                *user,
                who,
            ),
            Some(_) => false,
            None => !user_well_formed(*user),
        },
{
    match User::from_raw(user) {
        Some(who) => Some(Event::Activity(ActivityEvent::Request { user: who })),
        None => None,
    }
}

/// Another user sent an invitation.
pub fn on_activity_invite(user: &RawUser, activity: &RawActivity) -> (event: Option<Event>)
    ensures
        match event {
            Some(Event::Activity(ActivityEvent::Invite { user: who, activity: what })) => {
                user_decodes(*user, who) && activity_decodes(*activity, what)
            },
            Some(_) => false,
            None => !user_well_formed(*user) || !activity_well_formed(*activity),
        },
{
    let who = match User::from_raw(user) {
        Some(who) => who,
        None => {
            return None;
        },
    };
    match Activity::from_raw(activity) {
        Some(what) => Some(Event::Activity(ActivityEvent::Invite { user: who, activity: what })),
        None => None,
    }
}

/// The overlay was opened (`locked`) or closed.
pub fn on_toggle(locked: bool) -> (event: Event)
    ensures
        event == Event::Overlay(
            if locked {
                OverlayEvent::Opened
            } else {
                OverlayEvent::Closed
            },
        ),
{
    Event::Overlay(
        if locked {
            OverlayEvent::Opened
        } else {
            OverlayEvent::Closed
        },
    )
}

/// The voice settings changed.
pub fn on_settings_update() -> (event: Event)
    ensures
        event == Event::Voice(VoiceEvent::SettingsUpdated),
{
    Event::Voice(VoiceEvent::SettingsUpdated)
}

/// The event that a callback publishes, if any.
pub fn event_of(cb: &Callback) -> (event: Option<Event>)
    ensures
        yields(*cb, event),
{
    match cb {
        Callback::CurrentUserUpdate => Some(on_current_user_update()),
        Callback::ActivityJoin { secret } => on_activity_join(secret.as_slice()),
        Callback::ActivitySpectate { secret } => on_activity_spectate(secret.as_slice()),
        Callback::ActivityJoinRequest { user } => on_activity_join_request(user),
        Callback::ActivityInvite { user, activity } => on_activity_invite(user, activity),
        Callback::OverlayToggle { locked } => Some(on_toggle(*locked)),
        Callback::VoiceSettingsUpdate => Some(on_settings_update()),
        Callback::Unpublished { .. } => None,
    }
}

} // verus!
