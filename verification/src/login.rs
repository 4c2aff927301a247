//! The login form state and the handoff of a fresh session key to the
//! session-updater task. Sending the credentials over the network is the
//! caller's work.
use crate::err_tools::ErrorX;
use crate::thread_tools::mpsc_send;
use vstd::prelude::*;

verus! {

pub struct LoginForm {
    pub username: String,
    pub password: String,
    pub session_key: String,
    pub sender: Option<std::sync::mpsc::Sender<String>>,
}

impl LoginForm {
    pub fn default() -> (r: LoginForm)
        ensures
            r.username@ == Seq::<char>::empty(),
            r.password@ == Seq::<char>::empty(),
            r.session_key@ == Seq::<char>::empty(),
            r.sender is None,
    {
        LoginForm {
            username: String::new(),
            password: String::new(),
            session_key: String::new(),
            sender: None,
        }
    }

    /// Hands a fresh session key to the updater task. `None` when the form
    /// has no sender, or when the updater is gone and the send cannot ever
    /// succeed.
    pub fn send(&self, key: String) -> (r: Option<()>)
        ensures
            r is Some ==> self.sender is Some,
    {
        match &self.sender {
            Some(sender) => match mpsc_send(sender, key) {
                Ok(_) => Some(()),
                Err(_) => None,
            },
            None => None,
        }
    }

    /// The same handoff, with the failure spelled out.
    pub fn try_send(&self, key: String) -> (r: Result<(), ErrorX>)
        ensures
            r is Ok ==> self.sender is Some,
            self.sender is None ==> r is Err,
    {
        match &self.sender {
            Some(sender) => match mpsc_send(sender, key) {
                Ok(_) => Ok(()),
                Err(_) => Err(ErrorX::new("the session updater's channel is closed")),
            },
            None => Err(ErrorX::new("No Sender")),
        }
    }
}

} // verus!
