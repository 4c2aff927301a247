//! The error channel: background tasks send timestamped messages here, and
//! the owner thread drains them into the dismissible error window once per
//! tick.
use crate::client_windows::{GenericWindow, Loglet};
use crate::thread_tools::{drain_available, mpsc_channel, mpsc_sender_clone};
use crate::time_of_day;
use vstd::prelude::*;

verus! {

/// How many queued messages one tick drains at most; later messages wait for
/// the next tick.
pub const ERROR_DRAIN_BATCH: usize = 4096;

pub struct ErrorMessage {
    pub display: GenericWindow,
    pub receiver: std::sync::mpsc::Receiver<Loglet>,
    pub sender: std::sync::mpsc::Sender<Loglet>,
}

impl ErrorMessage {
    pub fn new() -> (r: ErrorMessage)
        ensures
            !r.display.is_window_open,
            r.display.log.spec_log() == Seq::<Loglet>::empty(),
    {
        let (sender, receiver) = mpsc_channel();
        ErrorMessage { display: GenericWindow::default(), receiver, sender }
    }

    /// Drains the messages that background tasks queued and shows them: the
    /// log only grows, and grows in arrival order; when a message arrived the
    /// window is open, and when none did the window is exactly as it was.
    pub fn try_update_log(&mut self)
        ensures
            final(self).display.log.spec_log().len() >= old(self).display.log.spec_log().len(),
            forall|i: int|
                0 <= i < old(self).display.log.spec_log().len()
                    ==> final(self).display.log.spec_log()[i]
                    == old(self).display.log.spec_log()[i],
            final(self).display.log.spec_log().len() > old(self).display.log.spec_log().len()
                ==> final(self).display.is_window_open,
            final(self).display.log.spec_log().len() == old(self).display.log.spec_log().len()
                ==> final(self).display == old(self).display,
            final(self).display.name == old(self).display.name,
            final(self).display.try_to_open_window == old(self).display.try_to_open_window,
    {
        let mut batch = drain_available(&self.receiver, ERROR_DRAIN_BATCH);
        while batch.len() > 0
            invariant
                self.display.log.spec_log().len() >= old(self).display.log.spec_log().len(),
                forall|i: int|
                    0 <= i < old(self).display.log.spec_log().len()
                        ==> self.display.log.spec_log()[i] == old(self).display.log.spec_log()[i],
                self.display.log.spec_log().len() > old(self).display.log.spec_log().len()
                    ==> self.display.is_window_open,
                self.display.log.spec_log().len() == old(self).display.log.spec_log().len()
                    ==> self.display == old(self).display,
                self.display.name == old(self).display.name,
                self.display.try_to_open_window == old(self).display.try_to_open_window,
            decreases batch@.len(),
        {
            let loglet = batch.remove(0);
            self.display.push_loglet(loglet);
        }
    }

    /// One more sender for a background task to report through.
    pub fn sender_clone(&self) -> std::sync::mpsc::Sender<Loglet> {
        mpsc_sender_clone(&self.sender)
    }

    /// Logs an error raised on the owner thread itself, stamped with the
    /// current time of day.
    pub fn push_err(&mut self, msg: &str)
        ensures
            final(self).display.log.spec_log().len() == old(self).display.log.spec_log().len()
                + 1,
            final(self).display.log.spec_log().last().spec_kind() == "Error"@,
            final(self).display.log.spec_log().last().spec_msg() == msg@,
            final(self).display.is_window_open,
            forall|i: int|
                0 <= i < old(self).display.log.spec_log().len()
                    ==> final(self).display.log.spec_log()[i]
                    == old(self).display.log.spec_log()[i],
    {
        let now = time_of_day();
        let loglet = Loglet::new("Error", msg, now.as_str());
        self.display.push_loglet(loglet);
    }
}

} // verus!
