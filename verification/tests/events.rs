use discord_bridge::callback::CallbackBox;
use discord_bridge::channels::create_channels;
use discord_bridge::discord::{Discord, Outcome};
use discord_bridge::event::{
    on_activity_invite, on_activity_join, on_activity_join_request, on_activity_spectate,
    on_current_user_update, on_settings_update, on_toggle, event_of, Activity, ActivityEvent,
    Callback, Event, EventKind, OverlayEvent, RawActivity, RawUser, Slot, Subsystem, User,
    UserEvent, VoiceEvent,
};
use discord_bridge::status::{complete, to_result, Error};
use std::cell::Cell;
use std::rc::Rc;

const KINDS: [EventKind; 4] =
    [EventKind::User, EventKind::Activity, EventKind::Overlay, EventKind::Voice];

fn raw_user(name: &[u8]) -> RawUser {
    RawUser {
        id: 42,
        username: name.to_vec(),
        discriminator: b"0001\0\0\0\0".to_vec(),
        avatar: b"abcdef\0".to_vec(),
        bot: false,
    }
}

fn raw_activity(name: &[u8]) -> RawActivity {
    RawActivity {
        application_id: 9,
        name: name.to_vec(),
        state: b"In a match\0".to_vec(),
        details: b"\0".to_vec(),
    }
}

fn join(secret: &str) -> Event {
    Event::Activity(ActivityEvent::Join { secret: secret.to_string() })
}

#[test]
fn one_voice_settings_update_yields_one_event_on_its_channel_only() {
    let (discord, mut receivers) = Discord::new();
    discord.run_callbacks(&mut receivers, &vec![Callback::VoiceSettingsUpdate]);
    assert_eq!(receivers.drain(EventKind::Voice), vec![Event::Voice(VoiceEvent::SettingsUpdated)]);
    assert_eq!(receivers.drain(EventKind::User), vec![]);
    assert_eq!(receivers.drain(EventKind::Activity), vec![]);
    assert_eq!(receivers.drain(EventKind::Overlay), vec![]);
    assert_eq!(receivers.drain(EventKind::Voice), vec![]);
}

#[test]
fn events_of_one_poll_come_out_in_firing_order() {
    let (discord, mut receivers) = Discord::new();
    let callbacks: Vec<Callback> = (0..50)
        .map(|i| Callback::ActivityJoin { secret: format!("secret-{i}\0").into_bytes() })
        .collect();
    discord.run_callbacks(&mut receivers, &callbacks);
    let expected: Vec<Event> = (0..50).map(|i| join(&format!("secret-{i}"))).collect();
    assert_eq!(receivers.drain(EventKind::Activity), expected);
    for kind in KINDS {
        assert_eq!(receivers.try_recv(kind), None);
    }
}

#[test]
fn each_channel_keeps_its_own_order() {
    let (discord, mut receivers) = Discord::new();
    let callbacks = vec![
        Callback::OverlayToggle { locked: true },
        Callback::ActivityJoin { secret: b"one\0".to_vec() },
        Callback::Unpublished { slot: Slot::LobbyUpdate },
        Callback::CurrentUserUpdate,
        Callback::OverlayToggle { locked: false },
        Callback::ActivitySpectate { secret: b"two\0".to_vec() },
        Callback::OverlayToggle { locked: true },
    ];
    discord.run_callbacks(&mut receivers, &callbacks);
    assert_eq!(
        receivers.drain(EventKind::Overlay),
        vec![
            Event::Overlay(OverlayEvent::Opened),
            Event::Overlay(OverlayEvent::Closed),
            Event::Overlay(OverlayEvent::Opened),
        ]
    );
    assert_eq!(
        receivers.drain(EventKind::Activity),
        vec![join("one"), Event::Activity(ActivityEvent::Spectate { secret: "two".to_string() })]
    );
    assert_eq!(receivers.drain(EventKind::User), vec![Event::User(UserEvent::CurrentUserUpdated)]);
    assert_eq!(receivers.drain(EventKind::Voice), vec![]);
}

#[test]
fn events_of_several_polls_queue_up() {
    let (discord, mut receivers) = Discord::new();
    discord.dispatch(&mut receivers, &Callback::OverlayToggle { locked: true });
    discord.run_callbacks(&mut receivers, &vec![]);
    discord.dispatch(&mut receivers, &Callback::OverlayToggle { locked: false });
    assert_eq!(receivers.try_recv(EventKind::Overlay), Some(Event::Overlay(OverlayEvent::Opened)));
    assert_eq!(receivers.try_recv(EventKind::Overlay), Some(Event::Overlay(OverlayEvent::Closed)));
    assert_eq!(receivers.try_recv(EventKind::Overlay), None);
}

#[test]
fn malformed_occurrences_are_dropped() {
    let (discord, mut receivers) = Discord::new();
    let callbacks = vec![
        Callback::ActivityJoin { secret: vec![0xff, 0] },
        Callback::ActivityJoin { secret: b"good\0".to_vec() },
        Callback::ActivityJoinRequest { user: raw_user(&[0xc0, 0]) },
        Callback::ActivityInvite { user: raw_user(b"ann\0"), activity: raw_activity(&[0x80]) },
    ];
    discord.run_callbacks(&mut receivers, &callbacks);
    assert_eq!(receivers.drain(EventKind::Activity), vec![join("good")]);
}

#[test]
fn emptying_discards_every_queued_event() {
    let (discord, mut receivers) = Discord::new();
    let callbacks = vec![
        Callback::VoiceSettingsUpdate,
        Callback::CurrentUserUpdate,
        Callback::OverlayToggle { locked: true },
        Callback::ActivityJoin { secret: b"s\0".to_vec() },
        Callback::VoiceSettingsUpdate,
    ];
    discord.run_callbacks(&mut receivers, &callbacks);
    receivers.empty_channels();
    for kind in KINDS {
        assert_eq!(receivers.try_recv(kind), None);
    }
    // The channels go on working.
    discord.dispatch(&mut receivers, &Callback::VoiceSettingsUpdate);
    assert_eq!(receivers.drain(EventKind::Voice), vec![Event::Voice(VoiceEvent::SettingsUpdated)]);
    receivers.empty_channels();
    receivers.empty_channels();
    assert_eq!(receivers.drain(EventKind::Voice), vec![]);
}

#[test]
fn senders_route_by_kind() {
    let (senders, mut receivers) = create_channels();
    senders.send(&mut receivers, Event::Voice(VoiceEvent::SettingsUpdated));
    senders.send(&mut receivers, join("a"));
    senders.send(&mut receivers, join("b"));
    assert_eq!(receivers.try_recv(EventKind::User), None);
    assert_eq!(receivers.try_recv(EventKind::Activity), Some(join("a")));
    assert_eq!(receivers.try_recv(EventKind::Activity), Some(join("b")));
    assert_eq!(receivers.try_recv(EventKind::Activity), None);
    assert_eq!(
        receivers.try_recv(EventKind::Voice),
        Some(Event::Voice(VoiceEvent::SettingsUpdated))
    );
}

#[test]
fn sending_without_a_reader_is_a_silent_no_op() {
    let (senders, receivers) = create_channels();
    let detached = senders.detach(receivers);
    detached.send(Event::Voice(VoiceEvent::SettingsUpdated));
    detached.send(join("nobody listens"));
    detached.send(Event::User(UserEvent::CurrentUserUpdated));
    detached.send(Event::Overlay(OverlayEvent::Closed));
}

#[test]
fn callbacks_yield_their_events() {
    assert_eq!(on_current_user_update(), Event::User(UserEvent::CurrentUserUpdated));
    assert_eq!(on_settings_update(), Event::Voice(VoiceEvent::SettingsUpdated));
    assert_eq!(on_toggle(true), Event::Overlay(OverlayEvent::Opened));
    assert_eq!(on_toggle(false), Event::Overlay(OverlayEvent::Closed));
    assert_eq!(on_activity_join(b"abc\0zzz"), Some(join("abc")));
    assert_eq!(on_activity_join(&[0xff]), None);
    assert_eq!(
        on_activity_spectate(b"watch"),
        Some(Event::Activity(ActivityEvent::Spectate { secret: "watch".to_string() }))
    );
    assert_eq!(on_activity_spectate(&[0xe2, 0x82]), None);
    assert_eq!(event_of(&Callback::Unpublished { slot: Slot::RouteUpdate }), None);
    assert_eq!(event_of(&Callback::VoiceSettingsUpdate).map(|e| e.kind()), Some(EventKind::Voice));
    assert_eq!(join("x").kind(), EventKind::Activity);
    assert_eq!(on_toggle(true).kind(), EventKind::Overlay);
    assert_eq!(on_current_user_update().kind(), EventKind::User);
}

#[test]
fn records_are_copied_into_owned_values() {
    let user = User {
        id: 42,
        username: "ann".to_string(),
        discriminator: "0001".to_string(),
        avatar: "abcdef".to_string(),
        bot: false,
    };
    let activity = Activity {
        application_id: 9,
        name: "Chess".to_string(),
        state: "In a match".to_string(),
        details: String::new(),
    };
    assert_eq!(User::from_raw(&raw_user(b"ann\0")), Some(user.clone()));
    assert_eq!(User::from_raw(&raw_user(&[0xff, 0])), None);
    assert_eq!(User::from_raw(&raw_user(b"ann")), None);
    assert_eq!(Activity::from_raw(&raw_activity(b"Chess")), None);
    assert_eq!(Activity::from_raw(&raw_activity(b"Chess\0")), Some(activity.clone()));
    assert_eq!(Activity::from_raw(&raw_activity(&[0xff])), None);
    assert_eq!(
        on_activity_join_request(&raw_user(b"ann\0")),
        Some(Event::Activity(ActivityEvent::Request { user: user.clone() }))
    );
    assert_eq!(
        on_activity_invite(&raw_user(b"ann\0"), &raw_activity(b"Chess\0")),
        Some(Event::Activity(ActivityEvent::Invite { user, activity }))
    );
    assert_eq!(on_activity_invite(&raw_user(&[0xff]), &raw_activity(b"Chess\0")), None);
}

#[test]
fn status_codes_become_typed_results() {
    assert_eq!(to_result(0), Ok(()));
    assert_eq!(to_result(1), Err(Error::ServiceUnavailable));
    assert_eq!(to_result(4), Err(Error::InternalError));
    assert_eq!(to_result(9), Err(Error::NotFound));
    assert_eq!(to_result(23), Err(Error::InvalidFilename));
    assert_eq!(to_result(43), Err(Error::TransactionAborted));
    assert_eq!(to_result(44), Err(Error::Unrecognized(44)));
    assert_eq!(to_result(-1), Err(Error::Unrecognized(-1)));
    assert_eq!(Error::from_code(0), None);
    assert_eq!(Error::from_code(34), Some(Error::RateLimited));
}

#[test]
fn every_failure_keeps_its_code() {
    for code in -5..=60 {
        match to_result(code) {
            Ok(()) => assert_eq!(code, 0),
            Err(e) => {
                assert_ne!(code, 0);
                assert_eq!(e.code(), code);
                assert_eq!(Error::from_code(code), Some(e));
            }
        }
    }
    assert_eq!(to_result(i32::MAX).unwrap_err().code(), i32::MAX);
    assert_eq!(to_result(i32::MIN).unwrap_err().code(), i32::MIN);
}

#[test]
fn a_failed_completion_carries_no_value() {
    assert_eq!(complete(0, vec![1u8, 2, 3]), Ok(vec![1u8, 2, 3]));
    assert_eq!(complete(9, vec![1u8, 2, 3]), Err(Error::NotFound));
    assert_eq!(complete(24, true), Err(Error::InvalidFileSize));
    assert_eq!(complete(0, true), Ok(true));
}

#[test]
fn a_bound_closure_is_called_once_with_the_outcome() {
    let calls = Rc::new(Cell::new(0));
    let seen = Rc::new(Cell::new(None));
    let (calls_in, seen_in) = (calls.clone(), seen.clone());
    let bound = CallbackBox::bind(move |outcome: Result<u32, Error>| {
        calls_in.set(calls_in.get() + 1);
        seen_in.set(Some(outcome));
    });
    assert_eq!(calls.get(), 0);
    bound.complete(0, 17);
    assert_eq!(calls.get(), 1);
    assert_eq!(seen.get(), Some(Ok(17)));
}

#[test]
fn a_failed_completion_reaches_the_closure_as_an_error() {
    let seen = Rc::new(Cell::new(None));
    let seen_in = seen.clone();
    let bound = CallbackBox::bind(move |outcome: Result<(), Error>| seen_in.set(Some(outcome)));
    bound.invoke(to_result(28));
    assert_eq!(seen.get(), Some(Err(Error::InsufficientBuffer)));
}

#[test]
fn a_reclaimed_closure_is_not_called() {
    let calls = Rc::new(Cell::new(0));
    let calls_in = calls.clone();
    let bound = CallbackBox::bind(move |_: Result<(), Error>| calls_in.set(calls_in.get() + 1));
    let closure = bound.reclaim();
    assert_eq!(calls.get(), 0);
    drop(closure);
    assert_eq!(calls.get(), 0);
}

#[test]
fn the_tables_name_the_channel_of_each_slot() {
    assert_eq!(Slot::VoiceSettingsUpdate.subsystem(), Subsystem::Voice);
    assert_eq!(Slot::VoiceSettingsUpdate.channel(), Some(EventKind::Voice));
    assert_eq!(Slot::OverlayToggle.channel(), Some(EventKind::Overlay));
    assert_eq!(Slot::CurrentUserUpdate.channel(), Some(EventKind::User));
    assert_eq!(Slot::ActivityInvite.channel(), Some(EventKind::Activity));
    assert_eq!(Slot::LobbyMessage.subsystem(), Subsystem::Lobbies);
    assert_eq!(Slot::LobbyMessage.channel(), None);
    assert_eq!(Slot::RelationshipRefresh.channel(), None);
    assert_eq!(Slot::RouteUpdate.subsystem(), Subsystem::Networking);
    assert_eq!(Slot::EntitlementDelete.channel(), None);
    let callback = Callback::ActivityJoin { secret: b"s\0".to_vec() };
    assert_eq!(callback.slot(), Slot::ActivityJoin);
    assert_eq!(event_of(&callback).map(|e| e.kind()), callback.slot().channel());
    assert_eq!(Callback::Unpublished { slot: Slot::Speaking }.slot(), Slot::Speaking);
}

#[test]
fn each_failure_code_has_its_own_kind() {
    let table = [
        (1, Error::ServiceUnavailable),
        (2, Error::InvalidVersion),
        (3, Error::LockFailed),
        (4, Error::InternalError),
        (5, Error::InvalidPayload),
        (6, Error::InvalidCommand),
        (7, Error::InvalidPermissions),
        (8, Error::NotFetched),
        (9, Error::NotFound),
        (10, Error::Conflict),
        (11, Error::InvalidSecret),
        (12, Error::InvalidJoinSecret),
        (13, Error::NoEligibleActivity),
        (14, Error::InvalidInvite),
        (15, Error::NotAuthenticated),
        (16, Error::InvalidAccessToken),
        (17, Error::ApplicationMismatch),
        (18, Error::InvalidDataUrl),
        (19, Error::InvalidBase64),
        (20, Error::NotFiltered),
        (21, Error::LobbyFull),
        (22, Error::InvalidLobbySecret),
        (23, Error::InvalidFilename),
        (24, Error::InvalidFileSize),
        (25, Error::InvalidEntitlement),
        (26, Error::NotInstalled),
        (27, Error::NotRunning),
        (28, Error::InsufficientBuffer),
        (29, Error::PurchaseCanceled),
        (30, Error::InvalidGuild),
        (31, Error::InvalidEvent),
        (32, Error::InvalidChannel),
        (33, Error::InvalidOrigin),
        (34, Error::RateLimited),
        (35, Error::OAuth2Error),
        (36, Error::SelectChannelTimeout),
        (37, Error::GetGuildTimeout),
        (38, Error::SelectVoiceForceRequired),
        (39, Error::CaptureShortcutAlreadyListening),
        (40, Error::UnauthorizedForAchievement),
        (41, Error::InvalidGiftCode),
        (42, Error::PurchaseError),
        (43, Error::TransactionAborted),
    ];
    assert_eq!(table.len(), 43);
    for (code, error) in table {
        assert_eq!(to_result(code), Err(error));
        assert_eq!(error.code(), code);
        assert_eq!(complete(code, 1u8), Err(error));
    }
    assert_eq!(Error::Unrecognized(77).code(), 77);
}

#[test]
fn dispatch_says_what_became_of_each_invocation() {
    let (discord, mut receivers) = Discord::new();
    assert_eq!(
        discord.dispatch(&mut receivers, &Callback::VoiceSettingsUpdate),
        Outcome::Published
    );
    assert_eq!(
        discord.dispatch(&mut receivers, &Callback::ActivityJoin { secret: vec![0xff] }),
        Outcome::Malformed
    );
    assert_eq!(
        discord.dispatch(&mut receivers, &Callback::ActivityJoinRequest { user: raw_user(b"ann") }),
        Outcome::Malformed
    );
    assert_eq!(
        discord.dispatch(&mut receivers, &Callback::Unpublished { slot: Slot::LobbyDelete }),
        Outcome::Unpublished
    );
    let outcomes = discord.run_callbacks(
        &mut receivers,
        &vec![
            Callback::ActivitySpectate { secret: b"watch".to_vec() },
            Callback::ActivitySpectate { secret: vec![0x80] },
            Callback::Unpublished { slot: Slot::Speaking },
            Callback::OverlayToggle { locked: false },
        ],
    );
    assert_eq!(
        outcomes,
        vec![Outcome::Published, Outcome::Malformed, Outcome::Unpublished, Outcome::Published]
    );
    assert_eq!(
        receivers.drain(EventKind::Activity),
        vec![Event::Activity(ActivityEvent::Spectate { secret: "watch".to_string() })]
    );
    assert_eq!(receivers.drain(EventKind::Voice).len(), 1);
    assert_eq!(receivers.drain(EventKind::Overlay), vec![Event::Overlay(OverlayEvent::Closed)]);
}
