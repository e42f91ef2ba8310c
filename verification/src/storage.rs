//! Storage: the requests made of the native storage manager, and what its
//! answers mean.
//!
//! A request is worked out in full before the native library is called: the
//! file name is terminated, and every length or index is checked to fit the
//! native integer that will carry it. An answer is turned into a typed
//! result as soon as it is back.

use vstd::prelude::*;
use vstd::slice::slice_to_vec;
use vstd::string::*;
use crate::callback::CallbackBox;
use crate::charbuf::{charbuf_to_str, field_text, CodecError};
use crate::discord::Discord;
use crate::status::{complete, completion_of, error_of, to_result, Error, STATUS_OK};

verus! {

/// The capacity of the buffer that receives the storage folder's path.
pub const PATH_CAPACITY: usize = 4096;

/// The capacity of the file name field of a file's record.
pub const FILENAME_CAPACITY: usize = 260;

/// A request was refused before it reached the native library.
#[derive(Clone, Copy, Debug, PartialEq, Eq, Structural)]
pub enum RequestError {
    /// A length or an index does not fit the native integer that carries it.
    TooLarge,
}

/// Why an answer that holds text could not be used.
#[derive(Clone, Copy, Debug, PartialEq, Eq, Structural)]
pub enum Failure {
    /// The native library reported a failure.
    Native(Error),
    /// The native library succeeded, but the text it wrote is malformed.
    Text(CodecError),
}

/// What is asked about one file.
#[derive(Clone, Copy, Debug, PartialEq, Eq, Structural)]
pub enum FileOp {
    Read { capacity: u32 },
    ReadAsync,
    ReadAsyncPartial { offset: u64, length: u64 },
    Write { length: u32 },
    WriteAsync { length: u32 },
    Delete,
    Exists,
    Stat,
}

/// One request to the native storage manager.
#[derive(Clone, Debug, PartialEq, Eq)]
pub enum StorageCall {
    /// A request about the file of the given name, which ends in a zero byte.
    File { op: FileOp, filename: Vec<u8> },
    /// How many files there are.
    Count,
    /// The record of the file at an index.
    StatAt { index: i32 },
    /// The path of the folder where the files are stored.
    GetPath,
}

/// A file's record as the native library lays it out.
#[derive(Clone, Copy, Debug, PartialEq, Eq)]
pub struct RawFileStat {
    pub filename: [u8; FILENAME_CAPACITY],
    pub size: u64,
    pub last_modified: u64,
}

/// A file's record.
#[derive(Clone, Copy, Debug, PartialEq, Eq)]
pub struct FileStat {
    pub raw: RawFileStat,
}

/// `name`, with a zero byte added at its end unless it ends in one.
pub open spec fn terminated(name: Seq<u8>) -> Seq<u8> {
    if name.len() > 0 && name.last() == 0 {
        name
    } else {
        name.push(0u8)
    }
}

/// `call` asks `op` of the file named `name`.
pub open spec fn asks(call: StorageCall, op: FileOp, name: Seq<u8>) -> bool {
    match call {
        StorageCall::File { op: asked, filename } => asked == op && filename@ == terminated(name),
        _ => false,
    }
}

/// The number of files that a native count stands for.
pub open spec fn count_of(count: i32) -> usize {
    if count < 0 {
        0usize
    } else {
        count as usize
    }
}

/// The bytes of `filename`, ending in a zero byte: one is added unless the
/// name already ends in one.
pub fn nul_terminated(filename: &str) -> (bytes: Vec<u8>)
    ensures
        bytes@ == terminated(filename.spec_bytes()),
{
    let mut bytes = filename.as_bytes_vec();
    let len = bytes.len();
    if len == 0 || bytes[len - 1] != 0 {
        bytes.push(0);
    }
    bytes
}

fn file_call(op: FileOp, filename: &str) -> (call: StorageCall)
    ensures
        asks(call, op, filename.spec_bytes()),
{
    StorageCall::File { op, filename: nul_terminated(filename) }
}

impl FileStat {
    /// The name of the file.
    pub fn filename(&self) -> (r: Result<String, CodecError>)
        ensures
            match r {
                Ok(text) => field_text(self.raw.filename@) == Ok::<Seq<char>, CodecError>(text@),
                Err(e) => field_text(self.raw.filename@) == Err::<Seq<char>, CodecError>(e),
            },
    {
        charbuf_to_str(self.raw.filename.as_slice())
    }

    /// The size of the file, in bytes.
    pub fn size(&self) -> (size: u64)
        ensures
            size == self.raw.size,
    {
        self.raw.size
    }

    /// When the file was last modified, in seconds since the epoch.
    pub fn last_modified(&self) -> (at: u64)
        ensures
            at == self.raw.last_modified,
    {
        self.raw.last_modified
    }
}

impl Discord {
    /// The request that reads a file into a buffer of `capacity` bytes.
    /// Refused where `capacity` does not fit 32 bits.
    pub fn read_file(&self, filename: &str, capacity: usize) -> (r: Result<
        StorageCall,
        RequestError,
    >)
        ensures
            match r {
                Ok(call) => capacity <= u32::MAX && asks(
                    call,
                    FileOp::Read { capacity: capacity as u32 },
                    filename.spec_bytes(),
                ),
                Err(e) => capacity > u32::MAX && e == RequestError::TooLarge,
            },
    {
        if capacity > u32::MAX as usize {
            return Err(RequestError::TooLarge);
        }
        Ok(file_call(FileOp::Read { capacity: capacity as u32 }, filename))
    }

    /// The request that reads a whole file, and the completion that waits
    /// for its contents.
    pub fn read_file_async<F>(&self, filename: &str, callback: F) -> (r: (
        StorageCall,
        CallbackBox<F>,
    ))
        ensures
            asks(r.0, FileOp::ReadAsync, filename.spec_bytes()),
            r.1.closure() == callback,
    {
        (file_call(FileOp::ReadAsync, filename), CallbackBox::bind(callback))
    }

    /// The request that reads up to `length` bytes of a file from `offset`
    /// on, and the completion that waits for them.
    pub fn read_file_async_partial<F>(
        &self,
        filename: &str,
        offset: usize,
        length: usize,
        callback: F,
    ) -> (r: (StorageCall, CallbackBox<F>))
        ensures
            asks(
                r.0,
                FileOp::ReadAsyncPartial { offset: offset as u64, length: length as u64 },
                filename.spec_bytes(),
            ),
            r.1.closure() == callback,
    {
        (
            file_call(
                FileOp::ReadAsyncPartial { offset: offset as u64, length: length as u64 },
                filename,
            ),
            CallbackBox::bind(callback),
        )
    }

    /// The request that writes `length` bytes to a file. Refused where
    /// `length` does not fit 32 bits.
    pub fn write_file(&self, filename: &str, length: usize) -> (r: Result<
        StorageCall,
        RequestError,
    >)
        ensures
            match r {
                Ok(call) => length <= u32::MAX && asks(
                    call,
                    FileOp::Write { length: length as u32 },
                    filename.spec_bytes(),
                ),
                Err(e) => length > u32::MAX && e == RequestError::TooLarge,
            },
    {
        if length > u32::MAX as usize {
            return Err(RequestError::TooLarge);
        }
        Ok(file_call(FileOp::Write { length: length as u32 }, filename))
    }

    /// The request that writes `length` bytes to a file in the background,
    /// and the completion that waits for it. Where `length` does not fit 32
    /// bits the request is refused and the closure is handed back uncalled.
    pub fn write_file_async<F>(&self, filename: &str, length: usize, callback: F) -> (r: Result<
        (StorageCall, CallbackBox<F>),
        (RequestError, F),
    >)
        ensures
            match r {
                Ok(bound) => length <= u32::MAX && asks(
                    bound.0,
                    FileOp::WriteAsync { length: length as u32 },
                    filename.spec_bytes(),
                ) && bound.1.closure() == callback,
                Err(refused) => length > u32::MAX && refused.0 == RequestError::TooLarge
                    && refused.1 == callback,
            },
    {
        if length > u32::MAX as usize {
            return Err((RequestError::TooLarge, callback));
        }
        Ok(
            (
                file_call(FileOp::WriteAsync { length: length as u32 }, filename),
                CallbackBox::bind(callback),
            ),
        )
    }

    /// The request that deletes a file.
    pub fn delete_file(&self, filename: &str) -> (call: StorageCall)
        ensures
            asks(call, FileOp::Delete, filename.spec_bytes()),
    {
        file_call(FileOp::Delete, filename)
    }

    /// The request that asks whether a file exists.
    pub fn file_exists(&self, filename: &str) -> (call: StorageCall)
        ensures
            asks(call, FileOp::Exists, filename.spec_bytes()),
    {
        file_call(FileOp::Exists, filename)
    }

    /// The request that asks for a file's record.
    pub fn file_stat(&self, filename: &str) -> (call: StorageCall)
        ensures
            asks(call, FileOp::Stat, filename.spec_bytes()),
    {
        file_call(FileOp::Stat, filename)
    }

    /// The number of files, from the count that the native library gave. A
    /// negative count stands for no file.
    pub fn file_stat_count(&self, count: i32) -> (n: usize)
        ensures
            n == count_of(count),
    {
        if count < 0 {
            0
        } else {
            count as usize
        }
    }

    /// The request that asks for the record of the file at `index`. Refused
    /// where `index` does not fit the native index.
    pub fn file_stat_at(&self, index: usize) -> (r: Result<StorageCall, RequestError>)
        ensures
            match r {
                Ok(call) => index <= i32::MAX && call == (StorageCall::StatAt {
                    index: index as i32,
                }),
                Err(e) => index > i32::MAX && e == RequestError::TooLarge,
            },
    {
        if index > i32::MAX as usize {
            return Err(RequestError::TooLarge);
        }
        Ok(StorageCall::StatAt { index: index as i32 })
    }

    /// The requests that ask for the record of every file in turn, given
    /// the count that the native library gave.
    pub fn iter_file_stats(&self, count: i32) -> (calls: Vec<StorageCall>)
        ensures
            calls@.len() == count_of(count),
            forall|i: int|
                0 <= i < calls@.len() ==> #[trigger] calls@[i] == (StorageCall::StatAt {
                    index: i as i32,
                }),
    {
        let total = self.file_stat_count(count);
        let mut calls: Vec<StorageCall> = Vec::new();
        let mut index: usize = 0;
        while index < total
            invariant
                index <= total <= i32::MAX,
                calls@.len() == index,
                forall|i: int|
                    0 <= i < calls@.len() ==> #[trigger] calls@[i] == (StorageCall::StatAt {
                        index: i as i32,
                    }),
            decreases total - index,
        {
            calls.push(StorageCall::StatAt { index: index as i32 });
            index += 1;
        }
        calls
    }

    /// The path of the folder where files are stored, from the answer of the
    /// native library: its status code and the buffer it filled, which has
    /// the full capacity of a path.
    pub fn folder_path(&self, code: i32, path: &[u8; PATH_CAPACITY]) -> (r: Result<
        String,
        Failure,
    >)
        ensures
            match r {
                Ok(text) => code == STATUS_OK && field_text(path@) == Ok::<Seq<char>, CodecError>(
                    text@,
                ),
                Err(Failure::Native(e)) => code != STATUS_OK && e == error_of(code),
                Err(Failure::Text(e)) => code == STATUS_OK && field_text(path@) == Err::<
                    Seq<char>,
                    CodecError,
                >(e),
            },
    {
        match to_result(code) {
            Ok(()) => match charbuf_to_str(path.as_slice()) {
                Ok(text) => Ok(text),
                Err(e) => Err(Failure::Text(e)),
            },
            Err(e) => Err(Failure::Native(e)),
        }
    }
}

/// What a synchronous read returned: the number of bytes read.
pub fn read_file_done(code: i32, read: u32) -> (r: Result<usize, Error>)
    ensures
        r == completion_of(code, read as usize),
{
    complete(code, read as usize)
}

/// What an asynchronous read delivered: on success a copy of the bytes that
/// the native library lent for the duration of the callback; on a failure
/// the failure alone, and the bytes are not looked at.
pub fn read_file_async_done(code: i32, data: &[u8]) -> (r: Result<Vec<u8>, Error>)
    ensures
        match r {
            Ok(bytes) => code == STATUS_OK && bytes@ == data@,
            Err(e) => code != STATUS_OK && e == error_of(code),
        },
{
    match to_result(code) {
        Ok(()) => Ok(slice_to_vec(data)),
        Err(e) => Err(e),
    }
}

/// What a request for a file's record returned.
pub fn file_stat_done(code: i32, raw: RawFileStat) -> (r: Result<FileStat, Error>)
    ensures
        r == completion_of(code, FileStat { raw }),
{
    complete(code, FileStat { raw })
}

} // verus!
