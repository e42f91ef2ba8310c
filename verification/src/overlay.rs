//! Overlay: the requests made of the native overlay manager. Each of them
//! completes later, with a status code, through the closure bound to it.

use vstd::prelude::*;
use vstd::string::*;
use crate::callback::CallbackBox;
use crate::charbuf::{has_nul, CodecError};
use crate::discord::Discord;

verus! {

/// What an invitation asks the invited user to do.
#[derive(Clone, Copy, Debug, PartialEq, Eq, Structural)]
pub enum Action {
    Join,
    Spectate,
}

/// One request to the native overlay manager.
#[derive(Clone, Debug, PartialEq, Eq)]
pub enum OverlayCall {
    /// Open or close the overlay.
    SetLocked { opened: bool },
    /// Open the window that invites users to an activity.
    OpenActivityInvite { action: i32 },
    /// Open the window that invites the user to a guild; the invitation
    /// code ends in a zero byte and holds no other.
    OpenGuildInvite { code: Vec<u8> },
    /// Open the voice settings.
    OpenVoiceSettings,
}

impl Action {
    /// The native code of this action.
    pub open spec fn spec_code(self) -> i32 {
        match self {
            Action::Join => 1,
            Action::Spectate => 2,
        }
    }

    /// The native code of this action.
    pub fn code(&self) -> (code: i32)
        ensures
            code == self.spec_code(),
    {
        match self {
            Action::Join => 1,
            Action::Spectate => 2,
        }
    }
}

impl Discord {
    /// The request that opens or closes the overlay, and its completion.
    pub fn set_overlay_opened<F>(&self, opened: bool, callback: F) -> (r: (
        OverlayCall,
        CallbackBox<F>,
    ))
        ensures
            r.0 == (OverlayCall::SetLocked { opened }),
            r.1.closure() == callback,
    {
        (OverlayCall::SetLocked { opened }, CallbackBox::bind(callback))
    }

    /// The request that opens the invitation window, and its completion.
    pub fn open_invite_overlay<F>(&self, action: Action, callback: F) -> (r: (
        OverlayCall,
        CallbackBox<F>,
    ))
        ensures
            r.0 == (OverlayCall::OpenActivityInvite { action: action.spec_code() }),
            r.1.closure() == callback,
    {
        (OverlayCall::OpenActivityInvite { action: action.code() }, CallbackBox::bind(callback))
    }

    /// The request that opens the guild invitation window for `code`, and
    /// its completion. A code that holds a zero byte is refused, and the
    /// closure is handed back uncalled.
    pub fn open_guild_invite_overlay<F>(&self, code: &str, callback: F) -> (r: Result<
        (OverlayCall, CallbackBox<F>),
        (CodecError, F),
    >)
        ensures
            match r {
                Ok(bound) => {
                    &&& !has_nul(code.spec_bytes())
                    &&& bound.1.closure() == callback
                    &&& match bound.0 {
                        OverlayCall::OpenGuildInvite { code: bytes } => bytes@
                            == code.spec_bytes().push(0u8),
                        _ => false,
                    }
                },
                Err(refused) => {
                    &&& has_nul(code.spec_bytes())
                    &&& refused.0 == CodecError::InteriorNul
                    &&& refused.1 == callback
                },
            },
    {
        let mut bytes = code.as_bytes_vec();
        let mut i: usize = 0;
        while i < bytes.len()
            invariant
                i <= bytes@.len(),
                bytes@ == code.spec_bytes(),
                forall|j: int| 0 <= j < i ==> bytes@[j] != 0,
            decreases bytes@.len() - i,
        {
            if bytes[i] == 0 {
                assert(code.spec_bytes()[i as int] == 0);
                return Err((CodecError::InteriorNul, callback));
            }
            i += 1;
        }
        bytes.push(0);
        Ok((OverlayCall::OpenGuildInvite { code: bytes }, CallbackBox::bind(callback)))
    }

    /// The request that opens the voice settings, and its completion.
    pub fn open_voice_settings<F>(&self, callback: F) -> (r: (OverlayCall, CallbackBox<F>))
        ensures
            r.0 == OverlayCall::OpenVoiceSettings,
            r.1.closure() == callback,
    {
        (OverlayCall::OpenVoiceSettings, CallbackBox::bind(callback))
    }
}

} // verus!
