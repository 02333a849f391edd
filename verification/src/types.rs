//! The wire-level data of one conversation round: message styles and their
//! host integer codes, status codes, and the message/response records the
//! bridge reads and writes.

use vstd::prelude::*;

verus! {

/// Host integer code for a prompt whose answer must not be echoed.
pub const PAM_PROMPT_ECHO_OFF: i32 = 1;
/// Host integer code for a prompt whose answer may be echoed.
pub const PAM_PROMPT_ECHO_ON: i32 = 2;
/// Host integer code for an error message.
pub const PAM_ERROR_MSG: i32 = 3;
/// Host integer code for an informational message.
pub const PAM_TEXT_INFO: i32 = 4;

/// Host integer code for a successful round.
pub const PAM_SUCCESS: i32 = 0;
/// Host integer code for a failed buffer allocation.
pub const PAM_BUF_ERR: i32 = 5;
/// Host integer code for a failed conversation.
pub const PAM_CONV_ERR: i32 = 19;

/// The four kinds of message the host can send during a conversation.
#[derive(Clone, Copy, Debug, PartialEq, Eq, Structural)]
pub enum PamMessageStyle {
    /// A prompt whose answer would normally be echoed to the user as they
    /// type it (typically the login name).
    PromptEchoOn,
    /// A prompt whose answer must be typed blindly (typically the password).
    PromptEchoOff,
    /// An informational message; it never fills a response slot and never
    /// fails the conversation.
    TextInfo,
    /// An error message from the host; the handler is notified and the
    /// conversation is always reported as failed.
    ErrorMsg,
}

/// The status of one conversation round, as reported back to the host.
#[derive(Clone, Copy, Debug, PartialEq, Eq, Structural)]
pub enum PamReturnCode {
    /// Every message was handled; the response array is published.
    Success,
    /// The response array could not be allocated.
    BufErr,
    /// A prompt could not be answered, an error-class message was seen, or a
    /// message carried an unrecognized style code.
    ConvErr,
}

/// The total mapping from a host style code to a message kind. Codes outside
/// the known set map to `None`, which the bridge treats as a conversation
/// error.
pub open spec fn spec_style_from_code(code: i32) -> Option<PamMessageStyle> {
    if code == PAM_PROMPT_ECHO_OFF {
        Some(PamMessageStyle::PromptEchoOff)
    } else if code == PAM_PROMPT_ECHO_ON {
        Some(PamMessageStyle::PromptEchoOn)
    } else if code == PAM_ERROR_MSG {
        Some(PamMessageStyle::ErrorMsg)
    } else if code == PAM_TEXT_INFO {
        Some(PamMessageStyle::TextInfo)
    } else {
        None
    }
}

/// Classify a host style code.
#[verifier::when_used_as_spec(spec_style_from_code)]
pub fn style_from_code(code: i32) -> (r: Option<PamMessageStyle>)
    ensures
        r == spec_style_from_code(code),
{
    if code == PAM_PROMPT_ECHO_OFF {
        Some(PamMessageStyle::PromptEchoOff)
    } else if code == PAM_PROMPT_ECHO_ON {
        Some(PamMessageStyle::PromptEchoOn)
    } else if code == PAM_ERROR_MSG {
        Some(PamMessageStyle::ErrorMsg)
    } else if code == PAM_TEXT_INFO {
        Some(PamMessageStyle::TextInfo)
    } else {
        None
    }
}

impl PamMessageStyle {
    /// The host integer code of this style.
    pub open spec fn spec_code(self) -> i32 {
        match self {
            PamMessageStyle::PromptEchoOff => PAM_PROMPT_ECHO_OFF,
            PamMessageStyle::PromptEchoOn => PAM_PROMPT_ECHO_ON,
            PamMessageStyle::ErrorMsg => PAM_ERROR_MSG,
            PamMessageStyle::TextInfo => PAM_TEXT_INFO,
        }
    }

    /// Encode this style as its host integer code.
    #[verifier::when_used_as_spec(spec_code)]
    pub fn code(self) -> (r: i32)
        ensures
            r == self.spec_code(),
    {
        match self {
            PamMessageStyle::PromptEchoOff => PAM_PROMPT_ECHO_OFF,
            PamMessageStyle::PromptEchoOn => PAM_PROMPT_ECHO_ON,
            PamMessageStyle::ErrorMsg => PAM_ERROR_MSG,
            PamMessageStyle::TextInfo => PAM_TEXT_INFO,
        }
    }
}

impl PamReturnCode {
    /// The host integer code of this status.
    pub open spec fn spec_code(self) -> i32 {
        match self {
            PamReturnCode::Success => PAM_SUCCESS,
            PamReturnCode::BufErr => PAM_BUF_ERR,
            PamReturnCode::ConvErr => PAM_CONV_ERR,
        }
    }

    /// Encode this status as its host integer code.
    #[verifier::when_used_as_spec(spec_code)]
    pub fn code(self) -> (r: i32)
        ensures
            r == self.spec_code(),
    {
        match self {
            PamReturnCode::Success => PAM_SUCCESS,
            PamReturnCode::BufErr => PAM_BUF_ERR,
            PamReturnCode::ConvErr => PAM_CONV_ERR,
        }
    }
}

/// One message from the host: a raw style code and the text bytes of the
/// message (the contents of the host's null-terminated string, without the
/// terminator). The bridge only reads messages, never mutates them.
pub struct PamMessage {
    /// The host's style code; interpreted by [`spec_style_from_code`].
    pub msg_style: i32,
    /// The message text bytes.
    pub msg: Vec<u8>,
}

/// One response slot, parallel to one incoming message: the answer bytes for
/// a prompt-style message, or `None` for every other style.
pub struct PamResponse {
    /// The answer text bytes, free of null bytes so they can be carried as a
    /// null-terminated string; `None` when the slot is unset.
    pub resp: Option<Vec<u8>>,
}

impl View for PamResponse {
    type V = Option<Seq<u8>>;

    open spec fn view(&self) -> Option<Seq<u8>> {
        match self.resp {
            Some(v) => Some(v@),
            None => None,
        }
    }
}

/// True when the byte sequence holds no null byte, so it can be represented
/// as a null-terminated C string.
pub open spec fn no_nul(s: Seq<u8>) -> bool {
    forall|i: int| 0 <= i < s.len() ==> s[i] != 0
}

/// Report whether `v` holds a null byte.
pub fn contains_nul(v: &Vec<u8>) -> (r: bool)
    ensures
        r == !no_nul(v@),
{
    let mut i: usize = 0;
    while i < v.len()
        invariant
            i <= v@.len(),
            forall|j: int| 0 <= j < i ==> v@[j] != 0,
        decreases v@.len() - i,
    {
        if v[i] == 0 {
            return true;
        }
        i += 1;
    }
    false
}

/// Copy the bytes of `v` into a fresh, independently owned vector.
pub fn copy_bytes(v: &Vec<u8>) -> (r: Vec<u8>)
    ensures
        r@ == v@,
{
    let mut r: Vec<u8> = Vec::new();
    let mut i: usize = 0;
    while i < v.len()
        invariant
            i <= v@.len(),
            r@ == v@.take(i as int),
        decreases v@.len() - i,
    {
        r.push(v[i]);
        proof {
            assert(v@.take(i as int).push(v@[i as int]) =~= v@.take(i as int + 1));
        }
        i += 1;
    }
    proof {
        assert(v@.take(v@.len() as int) =~= v@);
    }
    r
}

} // verus!
