//! How voice is transmitted: on activity, or while a shortcut is held.

use vstd::prelude::*;
use vstd::slice::slice_subrange;
use vstd::string::*;
use crate::charbuf::{
    bytes_to_str, charbuf_len, encode_outcome, encoded, ends_text_at, field_text, has_nul,
    lemma_terminated, lemma_text_of_prefix, write_charbuf, CodecError,
};

verus! {

/// The capacity of the shortcut text field.
pub const SHORTCUT_CAPACITY: usize = 256;

/// What triggers voice to be transmitted.
#[derive(Clone, Copy, Debug, PartialEq, Eq, Structural)]
pub enum InputModeKind {
    VoiceActivity,
    PushToTalk,
}

/// An input mode: what triggers transmission, the shortcut in its fixed
/// buffer, and the length of the shortcut. A buffer that holds no zero byte
/// has no length.
#[derive(Clone, Copy, Debug, PartialEq, Eq)]
pub struct InputMode {
    kind: InputModeKind,
    shortcut: [u8; SHORTCUT_CAPACITY],
    shortcut_len: Option<usize>,
}

/// The kind that a native code stands for, if it stands for any.
pub open spec fn kind_of_code(code: i32) -> Option<InputModeKind> {
    if code == 0 {
        Some(InputModeKind::VoiceActivity)
    } else if code == 1 {
        Some(InputModeKind::PushToTalk)
    } else {
        None
    }
}

impl InputModeKind {
    /// The kind that a native code stands for, if it stands for any.
    pub fn from_code(code: i32) -> (kind: Option<InputModeKind>)
        ensures
            kind == kind_of_code(code),
    {
        if code == 0 {
            Some(InputModeKind::VoiceActivity)
        } else if code == 1 {
            Some(InputModeKind::PushToTalk)
        } else {
            None
        }
    }

    /// The native code of this kind.
    pub fn code(&self) -> (code: i32)
        ensures
            kind_of_code(code) == Some(*self),
            code == (match *self {
                InputModeKind::VoiceActivity => 0i32,
                InputModeKind::PushToTalk => 1i32,
            }),
    {
        match self {
            InputModeKind::VoiceActivity => 0,
            InputModeKind::PushToTalk => 1,
        }
    }
}

impl InputMode {
    /// What triggers voice to be transmitted.
    pub closed spec fn spec_kind(self) -> InputModeKind {
        self.kind
    }

    /// The buffer that holds the shortcut.
    pub closed spec fn buffer(self) -> Seq<u8> {
        self.shortcut@
    }

    /// The stored length is that of the stored shortcut, which ends before
    /// the end of its buffer; none is stored for a buffer without a zero
    /// byte.
    #[verifier::type_invariant]
    closed spec fn wf(self) -> bool {
        match self.shortcut_len {
            Some(len) => len < SHORTCUT_CAPACITY && ends_text_at(self.shortcut@, len as int),
            None => !has_nul(self.shortcut@),
        }
    }

    /// What triggers voice to be transmitted.
    pub fn kind(&self) -> (kind: InputModeKind)
        ensures
            kind == self.spec_kind(),
    {
        self.kind
    }

    /// The combination of keys to transmit voice when kind is push-to-talk:
    /// the text of the shortcut buffer, which has at most one byte less than
    /// the buffer.
    pub fn shortcut(&self) -> (r: Result<String, CodecError>)
        ensures
            match r {
                Ok(text) => field_text(self.buffer()) == Ok::<Seq<char>, CodecError>(text@),
                Err(e) => field_text(self.buffer()) == Err::<Seq<char>, CodecError>(e),
            },
    {
        proof {
            use_type_invariant(self);
        }
        match self.shortcut_len {
            Some(len) => {
                proof {
                    lemma_terminated(self.shortcut@, len as int);
                    lemma_text_of_prefix(self.shortcut@, len as int);
                }
                bytes_to_str(slice_subrange(self.shortcut.as_slice(), 0, len))
            },
            None => Err(CodecError::Unterminated),
        }
    }

    /// The shortcut buffer as the native library is to be given it.
    pub fn raw_shortcut(&self) -> (shortcut: [u8; SHORTCUT_CAPACITY])
        ensures
            shortcut@ == self.buffer(),
    {
        self.shortcut
    }

    /// Takes over a native record: its kind and its shortcut buffer.
    pub fn new(kind: InputModeKind, shortcut: [u8; SHORTCUT_CAPACITY]) -> (mode: InputMode)
        ensures
            mode.spec_kind() == kind,
            mode.buffer() == shortcut@,
    {
        let len = charbuf_len(shortcut.as_slice());
        let shortcut_len = if len < SHORTCUT_CAPACITY {
            Some(len)
        } else {
            None
        };
        InputMode { kind, shortcut, shortcut_len }
    }

    /// Creates a new, empty input mode: voice activity, no shortcut.
    pub fn empty() -> (mode: InputMode)
        ensures
            mode.spec_kind() == InputModeKind::VoiceActivity,
            mode.buffer() == encoded(Seq::<u8>::empty(), SHORTCUT_CAPACITY as int),
            field_text(mode.buffer()) == Ok::<Seq<char>, CodecError>(Seq::<char>::empty()),
    {
        let mode = InputMode {
            kind: InputModeKind::VoiceActivity,
            shortcut: [0u8; SHORTCUT_CAPACITY],
            shortcut_len: Some(0),
        };
        proof {
            assert(mode.shortcut@ =~= encoded(Seq::<u8>::empty(), SHORTCUT_CAPACITY as int));
            lemma_terminated(mode.shortcut@, 0);
            assert(mode.shortcut@.subrange(0, 0) =~= Seq::<u8>::empty());
            assert(vstd::utf8::decode_utf8(Seq::<u8>::empty()) =~= Seq::<char>::empty());
        }
        mode
    }

    /// Sets what triggers the voice to be sent.
    pub fn with_kind(&mut self, kind: InputModeKind) -> (mode: &mut Self)
        ensures
            mode.spec_kind() == kind,
            mode.buffer() == old(self).buffer(),
            *final(self) == *final(mode),
    {
        proof {
            use_type_invariant(&*self);
        }
        self.kind = kind;
        self
    }

    /// Sets the combination of keys to transmit voice when kind is
    /// push-to-talk. A shortcut that does not fit the buffer, or that holds a
    /// zero byte, is refused and the input mode stays as it was.
    pub fn with_shortcut(&mut self, value: &str) -> (r: Result<&mut Self, CodecError>)
        ensures
            match r {
                Ok(mode) => {
                    &&& encode_outcome(value.spec_bytes(), SHORTCUT_CAPACITY as int) is Ok
                    &&& mode.spec_kind() == old(self).spec_kind()
                    &&& mode.buffer() == encoded(value.spec_bytes(), SHORTCUT_CAPACITY as int)
                    &&& field_text(mode.buffer()) == Ok::<Seq<char>, CodecError>(value@)
                    &&& *final(self) == *final(mode)
                },
                Err(e) => {
                    &&& encode_outcome(value.spec_bytes(), SHORTCUT_CAPACITY as int) == Err::<
                        usize,
                        CodecError,
                    >(e)
                    &&& *final(self) == *old(self)
                },
            },
    {
        let mut shortcut = self.shortcut;
        match write_charbuf(&mut shortcut, value) {
            Ok(len) => {
                *self = InputMode { kind: self.kind, shortcut, shortcut_len: Some(len) };
                Ok(self)
            },
            Err(e) => Err(e),
        }
    }
}

} // verus!
