//! A user's progress on one achievement.

use vstd::prelude::*;
use vstd::slice::slice_subrange;
use crate::charbuf::{
    bytes_to_str, charbuf_len, ends_text_at, field_text, has_nul, lemma_terminated,
    lemma_text_of_prefix, text_len, CodecError,
};

verus! {

/// The capacity of a date-and-time text field.
pub const DATE_TIME_CAPACITY: usize = 64;

/// An achievement record as the native library lays it out.
#[derive(Clone, Copy, Debug, PartialEq, Eq)]
pub struct RawAchievement {
    pub user_id: i64,
    pub achievement_id: i64,
    pub percent_complete: u8,
    pub unlocked_at: [u8; DATE_TIME_CAPACITY],
}

/// A user achievement: the native record, and the length of its one text
/// field, found once when the record is taken over. A field that holds no
/// zero byte has no length.
#[derive(Clone, Copy, Debug, PartialEq, Eq)]
pub struct Achievement {
    raw: RawAchievement,
    unlocked_at_len: Option<usize>,
}

impl RawAchievement {
    /// A record of zeros.
    pub fn zeroed() -> (raw: RawAchievement)
        ensures
            raw.user_id == 0,
            raw.achievement_id == 0,
            raw.percent_complete == 0,
            forall|i: int| 0 <= i < DATE_TIME_CAPACITY ==> raw.unlocked_at@[i] == 0,
    {
        RawAchievement {
            user_id: 0,
            achievement_id: 0,
            percent_complete: 0,
            unlocked_at: [0u8; DATE_TIME_CAPACITY],
        }
    }
}

impl Achievement {
    /// The native record that this achievement was made of.
    pub closed spec fn raw(self) -> RawAchievement {
        self.raw
    }

    /// The stored length is that of the stored text, which ends before the
    /// end of its field; none is stored for a field without a zero byte.
    #[verifier::type_invariant]
    closed spec fn wf(self) -> bool {
        match self.unlocked_at_len {
            Some(len) => len < DATE_TIME_CAPACITY && ends_text_at(
                self.raw.unlocked_at@,
                len as int,
            ),
            None => !has_nul(self.raw.unlocked_at@),
        }
    }

    /// The achievement made of `raw`.
    pub closed spec fn spec_new(raw: RawAchievement) -> Achievement {
        Achievement {
            raw,
            unlocked_at_len: if has_nul(raw.unlocked_at@) {
                Some(text_len(raw.unlocked_at@) as usize)
            } else {
                None
            },
        }
    }

    /// The achievement made of a record holds that record.
    pub proof fn lemma_new_holds(raw: RawAchievement)
        ensures
            Achievement::spec_new(raw).raw() == raw,
    {
    }

    /// Takes over a native record.
    pub fn new(raw: RawAchievement) -> (achievement: Achievement)
        ensures
            achievement == Achievement::spec_new(raw),
            achievement.raw() == raw,
    {
        let len = charbuf_len(raw.unlocked_at.as_slice());
        let unlocked_at_len = if len < DATE_TIME_CAPACITY {
            Some(len)
        } else {
            None
        };
        Achievement { raw, unlocked_at_len }
    }

    /// The unique id of the user working on the achievement.
    pub fn user_id(&self) -> (id: i64)
        ensures
            id == self.raw().user_id,
    {
        self.raw.user_id
    }

    /// The unique id of the achievement.
    pub fn achievement_id(&self) -> (id: i64)
        ensures
            id == self.raw().achievement_id,
    {
        self.raw.achievement_id
    }

    /// How far along the user is to completing the achievement.
    pub fn percent_complete(&self) -> (percent: u8)
        ensures
            percent == self.raw().percent_complete,
    {
        self.raw.percent_complete
    }

    /// Date at which the user completed the achievement: the text of the
    /// date field, which has at most one byte less than the field.
    pub fn unlocked_at(&self) -> (r: Result<String, CodecError>)
        ensures
            match r {
                Ok(text) => field_text(self.raw().unlocked_at@) == Ok::<Seq<char>, CodecError>(
                    text@,
                ),
                Err(e) => field_text(self.raw().unlocked_at@) == Err::<Seq<char>, CodecError>(e),
            },
    {
        proof {
            use_type_invariant(self);
        }
        match self.unlocked_at_len {
            Some(len) => {
                proof {
                    lemma_terminated(self.raw.unlocked_at@, len as int);
                    lemma_text_of_prefix(self.raw.unlocked_at@, len as int);
                }
                bytes_to_str(slice_subrange(self.raw.unlocked_at.as_slice(), 0, len))
            },
            None => Err(CodecError::Unterminated),
        }
    }
}

impl From<RawAchievement> for Achievement {
    fn from(raw: RawAchievement) -> (achievement: Achievement) {
        Achievement::new(raw)
    }
}

impl vstd::std_specs::convert::FromSpecImpl<RawAchievement> for Achievement {
    open spec fn obeys_from_spec() -> bool {
        true
    }

    open spec fn from_spec(raw: RawAchievement) -> Achievement {
        Achievement::spec_new(raw)
    }
}

} // verus!
