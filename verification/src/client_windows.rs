//! The message-log window state: a named window flag pair and the log of
//! timestamped messages it shows. Drawing is the presentation layer's work;
//! the state and the message formatting live here.
use crate::string_tools::{newliner, tabber};
use vstd::prelude::*;

verus! {

/// One logged message: its kind, its text, and when it was logged.
pub struct Loglet {
    kind: String,
    msg: String,
    time: String,
}

/// One line of a formatted message: the element between pipes, indented on
/// its own line.
pub open spec fn loglet_line(e: Seq<char>) -> Seq<char> {
    seq!['|', '\n', '\t'] + e + seq!['|']
}

impl Loglet {
    pub closed spec fn spec_kind(self) -> Seq<char> {
        self.kind@
    }

    pub closed spec fn spec_msg(self) -> Seq<char> {
        self.msg@
    }

    pub closed spec fn spec_time(self) -> Seq<char> {
        self.time@
    }

    pub fn new(kind: &str, msg: &str, time: &str) -> (r: Loglet)
        ensures
            r.spec_kind() == kind@,
            r.spec_msg() == msg@,
            r.spec_time() == time@,
    {
        Loglet { kind: kind.to_owned(), msg: msg.to_owned(), time: time.to_owned() }
    }

    /// The message in its display form: kind, text and time, each on a line
    /// of its own between pipes.
    pub fn format_loglet(&self) -> (r: String)
        ensures
            r@ == "Kind:"@ + loglet_line(self.spec_kind()) + "Message:"@ + loglet_line(
                self.spec_msg(),
            ) + "Time:"@ + loglet_line(self.spec_time()),
    {
        let mut r: String = "Kind:".to_owned();
        let kind_line = lyne(self.kind.as_str());
        r.append(kind_line.as_str());
        r.append("Message:");
        let msg_line = lyne(self.msg.as_str());
        r.append(msg_line.as_str());
        r.append("Time:");
        let time_line = lyne(self.time.as_str());
        r.append(time_line.as_str());
        proof {
            reveal_strlit("Message:");
            reveal_strlit("Time:");
            assert(r@ =~= "Kind:"@ + loglet_line(self.spec_kind()) + "Message:"@ + loglet_line(
                self.spec_msg(),
            ) + "Time:"@ + loglet_line(self.spec_time()));
        }
        r
    }
}

fn lyne(elem: &str) -> (r: String)
    ensures
        r@ == loglet_line(elem@),
{
    let mut r: String = "|".to_owned();
    let nl = newliner(1);
    r.append(nl.as_str());
    let tab = tabber(1);
    r.append(tab.as_str());
    r.append(elem);
    r.append("|");
    proof {
        reveal_strlit("|");
        assert(nl@ =~= seq!['\n']);
        assert(tab@ =~= seq!['\t']);
        assert(r@ =~= loglet_line(elem@));
    }
    r
}

/// The accumulated messages, oldest first.
pub struct MessageLog {
    log: Vec<Loglet>,
}

impl MessageLog {
    pub closed spec fn spec_log(self) -> Seq<Loglet> {
        self.log@
    }

    pub fn default() -> (r: MessageLog)
        ensures
            r.spec_log() == Seq::<Loglet>::empty(),
    {
        MessageLog { log: Vec::new() }
    }

    pub fn push(&mut self, loglet: Loglet)
        ensures
            final(self).spec_log() == old(self).spec_log().push(loglet),
    {
        self.log.push(loglet)
    }

    pub fn len(&self) -> (r: usize)
        ensures
            r == self.spec_log().len(),
    {
        self.log.len()
    }

    /// One message, for display.
    pub fn get(&self, i: usize) -> (r: &Loglet)
        requires
            i < self.spec_log().len(),
        ensures
            *r == self.spec_log()[i as int],
    {
        &self.log[i]
    }
}

/// A named window with its open flags and its message log.
pub struct GenericWindow {
    pub is_window_open: bool,
    pub try_to_open_window: bool,
    pub log: MessageLog,
    pub name: String,
}

impl GenericWindow {
    pub fn default() -> (r: GenericWindow)
        ensures
            !r.is_window_open,
            !r.try_to_open_window,
            r.log.spec_log() == Seq::<Loglet>::empty(),
            r.name@ == Seq::<char>::empty(),
    {
        GenericWindow {
            is_window_open: false,
            try_to_open_window: false,
            log: MessageLog::default(),
            name: String::new(),
        }
    }

    pub fn new(name: &str) -> (r: GenericWindow)
        ensures
            !r.is_window_open,
            !r.try_to_open_window,
            r.log.spec_log() == Seq::<Loglet>::empty(),
            r.name@ == name@,
    {
        let mut gw = Self::default();
        gw.name(name);
        gw
    }

    pub fn name(&mut self, name: &str)
        ensures
            final(self).name@ == name@,
            final(self).is_window_open == old(self).is_window_open,
            final(self).try_to_open_window == old(self).try_to_open_window,
            final(self).log == old(self).log,
    {
        self.name = name.to_owned();
    }

    pub fn namae(&self) -> (r: String)
        ensures
            r@ == self.name@,
    {
        self.name.clone()
    }

    pub fn open_window(&mut self)
        ensures
            final(self).is_window_open,
            final(self).try_to_open_window == old(self).try_to_open_window,
            final(self).log == old(self).log,
            final(self).name == old(self).name,
    {
        self.is_window_open = true;
    }

    /// Appends a message to the log and opens the window so it shows;
    /// nothing else changes.
    pub fn push_loglet(&mut self, loglet: Loglet)
        ensures
            final(self).log.spec_log() == old(self).log.spec_log().push(loglet),
            final(self).is_window_open,
            final(self).try_to_open_window == old(self).try_to_open_window,
            final(self).name == old(self).name,
    {
        self.log.push(loglet);
        self.open_window();
    }
}

} // verus!
