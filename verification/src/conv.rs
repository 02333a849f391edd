//! The conversation handler contract and a minimal credential-based
//! implementation.
//!
//! Authentication is conducted as a conversation: the host asks several
//! questions and the client answers them. The [`Conversation`] trait is the
//! contract such a client must satisfy, with one operation for each kind of
//! message the host can send. [`PasswordConv`] is a non-interactive handler
//! that simply answers every prompt from a stored login and password.

use vstd::prelude::*;

use crate::types::contains_nul;
use crate::types::copy_bytes;
use crate::types::no_nul;

verus! {

/// The contract a conversation handler must satisfy.
///
/// Each handler describes itself with spec functions: what answer it would
/// give to a prompt in a given state (`None` when it declines), and what
/// state it is left in after observing each kind of message. The four
/// operations are then required to behave exactly as those functions say,
/// which is what lets the bridge's own contract pin down the whole round.
pub trait Conversation: Sized {
    /// The answer this handler gives, in state `self`, to an echoed prompt
    /// with text `msg`; `None` when it cannot produce one.
    spec fn echo_answer(self, msg: Seq<u8>) -> Option<Seq<u8>>;

    /// The answer this handler gives, in state `self`, to a blind prompt
    /// with text `msg`; `None` when it cannot produce one.
    spec fn blind_answer(self, msg: Seq<u8>) -> Option<Seq<u8>>;

    /// The state of this handler after answering an echoed prompt.
    spec fn after_echo(self, msg: Seq<u8>) -> Self;

    /// The state of this handler after answering a blind prompt.
    spec fn after_blind(self, msg: Seq<u8>) -> Self;

    /// The state of this handler after observing an informational message.
    spec fn after_info(self, msg: Seq<u8>) -> Self;

    /// The state of this handler after observing an error message.
    spec fn after_error(self, msg: Seq<u8>) -> Self;

    /// Answer a prompt whose reply may be echoed to the user (typically the
    /// login name). The question is `msg`; a successful answer holds no null
    /// byte, so it can be carried onward as a null-terminated string.
    fn prompt_echo(&mut self, msg: &Vec<u8>) -> (r: Result<Vec<u8>, ()>)
        ensures
            *final(self) == old(self).after_echo(msg@),
            (match r {
                Ok(ans) => old(self).echo_answer(msg@) == Some(ans@) && no_nul(ans@),
                Err(()) => old(self).echo_answer(msg@) is None,
            }),
    ;

    /// Answer a prompt whose reply must not be echoed (typically the
    /// password). Same contract as [`Conversation::prompt_echo`].
    fn prompt_blind(&mut self, msg: &Vec<u8>) -> (r: Result<Vec<u8>, ()>)
        ensures
            *final(self) == old(self).after_blind(msg@),
            (match r {
                Ok(ans) => old(self).blind_answer(msg@) == Some(ans@) && no_nul(ans@),
                Err(()) => old(self).blind_answer(msg@) is None,
            }),
    ;

    /// Observe an informational message. A notification only: it cannot fail
    /// the conversation.
    fn info(&mut self, msg: &Vec<u8>)
        ensures
            *final(self) == old(self).after_info(msg@),
    ;

    /// Observe an error message coming from the host. A notification only:
    /// the bridge itself marks the conversation as failed for this message
    /// style, so this operation cannot fail additionally.
    fn error(&mut self, msg: &Vec<u8>)
        ensures
            *final(self) == old(self).after_error(msg@),
    ;
}

/// A minimal non-interactive conversation handler.
///
/// It answers every echoed prompt with a stored login and every blind prompt
/// with a stored password, both set through
/// [`PasswordConv::set_credentials`]. A prompt fails only when the stored
/// value holds an embedded null byte and so cannot be represented as a
/// null-terminated string.
pub struct PasswordConv {
    login: Vec<u8>,
    passwd: Vec<u8>,
}

impl PasswordConv {
    /// The stored login bytes.
    pub closed spec fn login_spec(self) -> Seq<u8> {
        self.login@
    }

    /// The stored password bytes.
    pub closed spec fn passwd_spec(self) -> Seq<u8> {
        self.passwd@
    }

    /// Create a handler with empty credentials.
    pub fn new() -> (r: PasswordConv)
        ensures
            r.login_spec() == Seq::<u8>::empty(),
            r.passwd_spec() == Seq::<u8>::empty(),
    {
        PasswordConv { login: Vec::new(), passwd: Vec::new() }
    }

    /// Set the credentials this handler will provide to the host.
    pub fn set_credentials(&mut self, login: Vec<u8>, password: Vec<u8>)
        ensures
            final(self).login_spec() == login@,
            final(self).passwd_spec() == password@,
    {
        self.login = login;
        self.passwd = password;
    }
}

impl Conversation for PasswordConv {
    open spec fn echo_answer(self, msg: Seq<u8>) -> Option<Seq<u8>> {
        if no_nul(self.login_spec()) {
            Some(self.login_spec())
        } else {
            None
        }
    }

    open spec fn blind_answer(self, msg: Seq<u8>) -> Option<Seq<u8>> {
        if no_nul(self.passwd_spec()) {
            Some(self.passwd_spec())
        } else {
            None
        }
    }

    open spec fn after_echo(self, msg: Seq<u8>) -> Self {
        self
    }

    open spec fn after_blind(self, msg: Seq<u8>) -> Self {
        self
    }

    open spec fn after_info(self, msg: Seq<u8>) -> Self {
        self
    }

    open spec fn after_error(self, msg: Seq<u8>) -> Self {
        self
    }

    fn prompt_echo(&mut self, msg: &Vec<u8>) -> (r: Result<Vec<u8>, ()>) {
        if contains_nul(&self.login) {
            Err(())
        } else {
            Ok(copy_bytes(&self.login))
        }
    }

    fn prompt_blind(&mut self, msg: &Vec<u8>) -> (r: Result<Vec<u8>, ()>) {
        if contains_nul(&self.passwd) {
            Err(())
        } else {
            Ok(copy_bytes(&self.passwd))
        }
    }

    fn info(&mut self, msg: &Vec<u8>) {
    }

    fn error(&mut self, msg: &Vec<u8>) {
    }
}

} // verus!
