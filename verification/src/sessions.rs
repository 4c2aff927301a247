//! Session state: the login key, the time the session has left as the server
//! reports it, and the channel on which a background task streams updates.
use crate::client_windows::{GenericWindow, Loglet};
use crate::err_tools::ErrorX;
use crate::text::{lex_lt, str_lt};
use crate::thread_tools::{drain_available, mpsc_recv, mpsc_send};
use vstd::prelude::*;

verus! {

/// How many queued session updates one tick consumes at most.
pub const SESSION_DRAIN_BATCH: usize = 1024;

/// A clock reading as the server sends it: hours, minutes and seconds, each
/// as decimal text.
pub struct TimeTime {
    pub hour: String,
    pub minute: String,
    pub second: String,
}

impl TimeTime {
    pub fn default() -> (r: TimeTime)
        ensures
            r.hour@ == Seq::<char>::empty(),
            r.minute@ == Seq::<char>::empty(),
            r.second@ == Seq::<char>::empty(),
    {
        TimeTime { hour: String::new(), minute: String::new(), second: String::new() }
    }

    /// The reading in its display form.
    pub fn formatted(&self) -> (r: String)
        ensures
            r@ == "Session Time Left: ("@ + self.hour@ + ":"@ + self.minute@ + " -- "@
                + self.second@ + ")"@,
    {
        let mut r: String = "Session Time Left: (".to_owned();
        r.append(self.hour.as_str());
        r.append(":");
        r.append(self.minute.as_str());
        r.append(" -- ");
        r.append(self.second.as_str());
        r.append(")");
        r
    }
}

/// One session-time report: the (possibly renewed) session key and the time
/// left.
pub struct SessionTime {
    pub key: String,
    pub time: TimeTime,
}

impl SessionTime {
    pub fn default() -> (r: SessionTime)
        ensures
            r.key@ == Seq::<char>::empty(),
    {
        SessionTime { key: String::new(), time: TimeTime::default() }
    }
}

/// Whether time is left on the session: all three fields reading below "1"
/// means none is.
pub open spec fn session_time_remains(t: TimeTime) -> bool {
    !(lex_lt(t.hour@, "1"@) && lex_lt(t.minute@, "1"@) && lex_lt(t.second@, "1"@))
}

/// Everything the client knows of its login session.
pub struct SessionInfo {
    pub key: String,
    pub session_time: SessionTime,
    pub is_logged_in: bool,
    pub access_rights: Vec<String>,
    pub display: GenericWindow,
    pub receiver: Option<std::sync::mpsc::Receiver<(SessionTime, Loglet)>>,
}

impl SessionInfo {
    pub fn default() -> (r: SessionInfo)
        ensures
            r.key@ == Seq::<char>::empty(),
            !r.is_logged_in,
            r.access_rights@.len() == 0,
            r.receiver is None,
    {
        SessionInfo {
            key: String::new(),
            session_time: SessionTime::default(),
            is_logged_in: false,
            access_rights: Vec::new(),
            display: GenericWindow::default(),
            receiver: None,
        }
    }

    pub fn new(receiver: Option<std::sync::mpsc::Receiver<(SessionTime, Loglet)>>) -> (r:
        SessionInfo)
        ensures
            r.key@ == Seq::<char>::empty(),
            !r.is_logged_in,
            r.access_rights@.len() == 0,
            r.receiver == receiver,
    {
        SessionInfo {
            key: String::new(),
            session_time: SessionTime::default(),
            is_logged_in: false,
            access_rights: Vec::new(),
            display: GenericWindow::default(),
            receiver,
        }
    }

    /// Builds a logged-in session record from one server report.
    pub fn session_time_to_session_info(session_time: SessionTime) -> (r: Result<
        SessionInfo,
        ErrorX,
    >)
        ensures
            r is Ok,
            r matches Ok(si) ==> {
                &&& si.key@ == session_time.key@
                &&& si.session_time == session_time
                &&& si.is_logged_in
                &&& si.receiver is None
            },
    {
        Ok(
            SessionInfo {
                key: session_time.key.clone(),
                session_time,
                is_logged_in: true,
                access_rights: Vec::new(),
                display: GenericWindow::default(),
                receiver: None,
            },
        )
    }

    /// Takes over another record's fields without giving up the one receiver
    /// this record owns.
    pub fn consume(&mut self, si: SessionInfo)
        ensures
            final(self).key == si.key,
            final(self).session_time == si.session_time,
            final(self).is_logged_in == si.is_logged_in,
            final(self).access_rights == si.access_rights,
            final(self).display == si.display,
            final(self).receiver == old(self).receiver,
    {
        let SessionInfo { key, session_time, is_logged_in, access_rights, display, receiver: _ } =
            si;
        self.key = key;
        self.session_time = session_time;
        self.is_logged_in = is_logged_in;
        self.access_rights = access_rights;
        self.display = display;
    }

    /// Renames the display window, as a builder step.
    pub fn display_namae(self, name: &str) -> (r: SessionInfo)
        ensures
            r.display.name@ == name@,
            r.key == self.key,
            r.session_time == self.session_time,
            r.is_logged_in == self.is_logged_in,
            r.access_rights == self.access_rights,
            r.receiver == self.receiver,
    {
        let mut s = self;
        s.display.name(name);
        s
    }

    fn is_session_over(time: &TimeTime) -> (r: bool)
        ensures
            r == session_time_remains(*time),
    {
        let h = str_lt(time.hour.as_str(), "1");
        let m = str_lt(time.minute.as_str(), "1");
        let s = str_lt(time.second.as_str(), "1");
        if h && m && s {
            false
        } else {
            true
        }
    }

    /// Consumes the session updates a background task has queued, newest
    /// last: each updates the login flag, the time left and the log.
    pub fn try_update(&mut self)
        ensures
            final(self).key == old(self).key,
            final(self).access_rights == old(self).access_rights,
    {
        match &self.receiver {
            Some(receiver) => {
                let mut batch = drain_available(receiver, SESSION_DRAIN_BATCH);
                while batch.len() > 0
                    invariant
                        self.key == old(self).key,
                        self.access_rights == old(self).access_rights,
                    decreases batch@.len(),
                {
                    let (st, loglet) = batch.remove(0);
                    self.is_logged_in = Self::is_session_over(&st.time);
                    self.session_time = st;
                    self.display.log.push(loglet);
                }
            },
            None => {},
        }
    }

    /// Waits for the next session update, if this record owns the receiver;
    /// a closed channel leaves everything as it was.
    pub fn block_update(&mut self)
        ensures
            final(self).key == old(self).key,
            final(self).access_rights == old(self).access_rights,
    {
        match &self.receiver {
            Some(receiver) => {
                match mpsc_recv(receiver) {
                    Some((st, loglet)) => {
                        self.is_logged_in = Self::is_session_over(&st.time);
                        self.session_time = st;
                        self.display.log.push(loglet);
                    },
                    None => {},
                }
            },
            None => {},
        }
    }
}

/// Forwards one fetched session-time report to the owner thread: stamps it,
/// sends it, and returns the (possibly renewed) key for the next fetch.
/// Fetching the report itself is network work and stays with the caller.
pub fn current_session_time(
    sender: &std::sync::mpsc::Sender<(SessionTime, Loglet)>,
    session_time: SessionTime,
    now: &str,
) -> (r: Result<String, ErrorX>)
    ensures
        r matches Ok(key) ==> key@ == session_time.key@,
{
    let formatted = session_time.time.formatted();
    let loglet = Loglet::new("Update", formatted.as_str(), now);
    let validation_key = session_time.key.clone();
    match mpsc_send(sender, (session_time, loglet)) {
        Ok(_) => Ok(validation_key),
        Err(_) => Err(ErrorX::new("the session updater's channel is closed")),
    }
}

} // verus!
