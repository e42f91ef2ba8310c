use discord_bridge::charbuf::{write_charbuf, CodecError};
use discord_bridge::discord::Discord;
use discord_bridge::overlay::{Action, OverlayCall};
use discord_bridge::status::Error;
use discord_bridge::storage::{
    file_stat_done, nul_terminated, read_file_async_done, read_file_done, Failure, FileOp,
    FileStat, RawFileStat, RequestError, StorageCall, PATH_CAPACITY,
};
use std::cell::Cell;
use std::rc::Rc;

fn file(op: FileOp, name: &[u8]) -> StorageCall {
    StorageCall::File { op, filename: name.to_vec() }
}

#[test]
fn file_names_end_in_exactly_one_added_zero() {
    assert_eq!(nul_terminated("profile_1.save"), b"profile_1.save\0".to_vec());
    assert_eq!(nul_terminated("profile_1.save\0"), b"profile_1.save\0".to_vec());
    assert_eq!(nul_terminated(""), vec![0u8]);
    assert_eq!(nul_terminated("\0"), vec![0u8]);
    assert_eq!(nul_terminated("a\0b"), b"a\0b\0".to_vec());
}

#[test]
fn storage_requests_carry_name_and_sizes() {
    let (discord, _receivers) = Discord::new();
    assert_eq!(
        discord.read_file("a.save", 2048),
        Ok(file(FileOp::Read { capacity: 2048 }, b"a.save\0"))
    );
    assert_eq!(
        discord.write_file("a.save\0", 19),
        Ok(file(FileOp::Write { length: 19 }, b"a.save\0"))
    );
    assert_eq!(discord.delete_file("a"), file(FileOp::Delete, b"a\0"));
    assert_eq!(discord.file_exists("a"), file(FileOp::Exists, b"a\0"));
    assert_eq!(discord.file_stat("a"), file(FileOp::Stat, b"a\0"));
    assert_eq!(discord.file_stat_at(3), Ok(StorageCall::StatAt { index: 3 }));
    assert_eq!(
        discord.file_stat_at(i32::MAX as usize),
        Ok(StorageCall::StatAt { index: i32::MAX })
    );
    assert_eq!(discord.file_stat_at(i32::MAX as usize + 1), Err(RequestError::TooLarge));
}

#[test]
fn sizes_beyond_32_bits_are_refused() {
    let (discord, _receivers) = Discord::new();
    let limit = u32::MAX as usize;
    assert_eq!(
        discord.read_file("a", limit),
        Ok(file(FileOp::Read { capacity: u32::MAX }, b"a\0"))
    );
    assert_eq!(discord.write_file("a", limit), Ok(file(FileOp::Write { length: u32::MAX }, b"a\0")));
    if let Some(beyond) = limit.checked_add(1) {
        assert_eq!(discord.read_file("a", beyond), Err(RequestError::TooLarge));
        assert_eq!(discord.write_file("a", beyond), Err(RequestError::TooLarge));
        let calls = Rc::new(Cell::new(0));
        let calls_in = calls.clone();
        let refused = discord
            .write_file_async("a", beyond, move |_: Result<(), Error>| calls_in.set(1))
            .err()
            .unwrap();
        assert_eq!(refused.0, RequestError::TooLarge);
        assert_eq!(calls.get(), 0);
    }
}

#[test]
fn asynchronous_requests_bind_their_closure() {
    let (discord, _receivers) = Discord::new();
    let seen = Rc::new(Cell::new(0usize));

    let seen_in = seen.clone();
    let (call, bound) = discord.read_file_async("a", move |r: Result<Vec<u8>, Error>| {
        seen_in.set(r.unwrap().len())
    });
    assert_eq!(call, file(FileOp::ReadAsync, b"a\0"));
    bound.invoke(read_file_async_done(0, b"twelve bytes"));
    assert_eq!(seen.get(), 12);

    let seen_in = seen.clone();
    let (call, bound) =
        discord.read_file_async_partial("a", 30, 10, move |r: Result<Vec<u8>, Error>| {
            seen_in.set(if r == Err(Error::NotFound) { 1 } else { 0 })
        });
    assert_eq!(call, file(FileOp::ReadAsyncPartial { offset: 30, length: 10 }, b"a\0"));
    bound.invoke(read_file_async_done(9, b"ignored"));
    assert_eq!(seen.get(), 1);

    let seen_in = seen.clone();
    let (call, bound) = discord
        .write_file_async("a", 5, move |r: Result<(), Error>| {
            seen_in.set(if r.is_ok() { 2 } else { 0 })
        })
        .ok()
        .unwrap();
    assert_eq!(call, file(FileOp::WriteAsync { length: 5 }, b"a\0"));
    bound.complete(0, ());
    assert_eq!(seen.get(), 2);
}

#[test]
fn storage_answers_become_typed_results() {
    let (discord, _receivers) = Discord::new();
    assert_eq!(read_file_done(0, 77), Ok(77));
    assert_eq!(read_file_done(23, 77), Err(Error::InvalidFilename));
    assert_eq!(read_file_async_done(0, &[1, 2, 3]), Ok(vec![1, 2, 3]));
    assert_eq!(read_file_async_done(4, &[1, 2, 3]), Err(Error::InternalError));
    assert_eq!(discord.file_stat_count(5), 5);
    assert_eq!(discord.file_stat_count(0), 0);
    assert_eq!(discord.file_stat_count(-1), 0);
    let mut path = [0u8; PATH_CAPACITY];
    write_charbuf(&mut path, "/home/user/.config/app").unwrap();
    assert_eq!(discord.folder_path(0, &path), Ok("/home/user/.config/app".to_string()));
    assert_eq!(discord.folder_path(27, &path), Err(Failure::Native(Error::NotRunning)));
    path[3] = 0xff;
    assert_eq!(discord.folder_path(0, &path), Err(Failure::Text(CodecError::InvalidUtf8)));
    assert_eq!(discord.folder_path(27, &path), Err(Failure::Native(Error::NotRunning)));
    let mut full = [b'x'; PATH_CAPACITY];
    assert_eq!(discord.folder_path(0, &full), Err(Failure::Text(CodecError::Unterminated)));
    full[PATH_CAPACITY - 1] = 0;
    assert_eq!(discord.folder_path(0, &full), Ok("x".repeat(PATH_CAPACITY - 1)));
}

#[test]
fn file_records_are_read_by_field() {
    let mut raw = RawFileStat { filename: [0u8; 260], size: 1234, last_modified: 1_600_000_000 };
    raw.filename[..6].copy_from_slice(b"a.save");
    assert_eq!(file_stat_done(9, raw), Err(Error::NotFound));
    let stat: FileStat = file_stat_done(0, raw).unwrap();
    assert_eq!(stat.filename(), Ok("a.save".to_string()));
    assert_eq!(stat.size(), 1234);
    assert_eq!(stat.last_modified(), 1_600_000_000);
    let full = FileStat { raw: RawFileStat { filename: [b'f'; 260], size: 0, last_modified: 0 } };
    assert_eq!(full.filename(), Err(CodecError::Unterminated));
}

#[test]
fn file_records_are_asked_for_in_index_order() {
    let (discord, _receivers) = Discord::new();
    assert_eq!(
        discord.iter_file_stats(3),
        vec![
            StorageCall::StatAt { index: 0 },
            StorageCall::StatAt { index: 1 },
            StorageCall::StatAt { index: 2 },
        ]
    );
    assert_eq!(discord.iter_file_stats(0), vec![]);
    assert_eq!(discord.iter_file_stats(-4), vec![]);
}

#[test]
fn overlay_requests_bind_their_closure() {
    let (discord, _receivers) = Discord::new();
    let seen = Rc::new(Cell::new(0));

    let seen_in = seen.clone();
    let (call, bound) = discord.set_overlay_opened(true, move |_: Result<(), Error>| seen_in.set(1));
    assert_eq!(call, OverlayCall::SetLocked { opened: true });
    bound.complete(0, ());
    assert_eq!(seen.get(), 1);

    let (call, _bound) = discord.open_invite_overlay(Action::Join, |_: Result<(), Error>| {});
    assert_eq!(call, OverlayCall::OpenActivityInvite { action: 1 });
    let (call, _bound) = discord.open_invite_overlay(Action::Spectate, |_: Result<(), Error>| {});
    assert_eq!(call, OverlayCall::OpenActivityInvite { action: 2 });
    assert_eq!(Action::Spectate.code(), 2);

    let (call, _bound) = discord.open_voice_settings(|_: Result<(), Error>| {});
    assert_eq!(call, OverlayCall::OpenVoiceSettings);
}

#[test]
fn guild_invitations_refuse_a_code_with_a_zero_byte() {
    let (discord, _receivers) = Discord::new();
    let (call, _bound) =
        discord.open_guild_invite_overlay("discord-gg", |_: Result<(), Error>| {}).ok().unwrap();
    assert_eq!(call, OverlayCall::OpenGuildInvite { code: b"discord-gg\0".to_vec() });

    let calls = Rc::new(Cell::new(0));
    let calls_in = calls.clone();
    let refused = discord
        .open_guild_invite_overlay("bad\0code", move |_: Result<(), Error>| calls_in.set(1))
        .err()
        .unwrap();
    assert_eq!(refused.0, CodecError::InteriorNul);
    assert_eq!(calls.get(), 0);
}
