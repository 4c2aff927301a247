//! Client-side cache for remotely stored, paginated, keyed text-and-image
//! records, with non-blocking asynchronous fulfilment.
//!
//! The library is organised around a handful of small primitives: a one-shot
//! settling promise, unbounded channel pairs for bulk ingestion, a paginated
//! bulk loader, an ordered entity cache with cursor navigation, a per-entity
//! image sub-cache, and an edit/save round trip with request deduplication.
//! Network transport and drawing are the surrounding program's work: the
//! library hands it plain values and takes plain values back.
use vstd::prelude::*;

pub mod client_windows;
pub mod download_images;
pub mod err_tools;
pub mod error_messages;
pub mod images;
pub mod increment;
pub mod loader;
pub mod login;
pub mod modal;
pub mod ordmap;
pub mod page;
pub mod portals;
pub mod sessions;
pub mod string_tools;
pub mod text;
pub mod thread_tools;
pub mod url_tools;

use client_windows::Loglet;
use err_tools::ErrorX;
use error_messages::ErrorMessage;

verus! {

/// One of the two independent entity collections.
#[derive(Clone, Copy)]
pub enum Realm {
    Overworld,
    Nether,
}

impl Realm {
    /// Picks the first argument for `Overworld` and the second for `Nether`.
    pub fn matcher<T>(&self, overworld: T, nether: T) -> (r: T)
        ensures
            self is Overworld ==> r == overworld,
            self is Nether ==> r == nether,
    {
        match self {
            Self::Overworld => overworld,
            Self::Nether => nether,
        }
    }
}

/// Relies on chrono's `Utc::now` and its `Timelike` readings: the clock's
/// hour, minute and second, each inside its documented range. Which reading
/// comes back depends on the clock alone.
#[verifier::external_body]
fn clock_now() -> (r: (u32, u32, u32))
    ensures
        r.0 < 24,
        r.1 < 60,
        r.2 < 60,
{
    let time = chrono::Utc::now();
    (chrono::Timelike::hour(&time), chrono::Timelike::minute(&time), chrono::Timelike::second(
        &time,
    ))
}

/// The current time of day as text: some in-range clock reading, its hour,
/// minute and second rendered in decimal.
pub fn time_of_day() -> (r: String)
    ensures
        exists|h: int, m: int, s: int|
            #![trigger text::dec_digits(h as nat), text::dec_digits(m as nat), text::dec_digits(s as nat)]
            0 <= h < 24 && 0 <= m < 60 && 0 <= s < 60 && r@ == text::dec_digits(h as nat) + ":"@
                + text::dec_digits(m as nat) + " -- "@ + text::dec_digits(s as nat),
{
    let (h, m, s) = clock_now();
    let mut r = text::u64_to_string(h as u64);
    r.append(":");
    let minutes = text::u64_to_string(m as u64);
    r.append(minutes.as_str());
    r.append(" -- ");
    let seconds = text::u64_to_string(s as u64);
    r.append(seconds.as_str());
    proof {
        let hi = h as int;
        let mi = m as int;
        let si = s as int;
        assert(r@ == text::dec_digits(hi as nat) + ":"@ + text::dec_digits(mi as nat) + " -- "@
            + text::dec_digits(si as nat));
    }
    r
}

/// Runs a fallible block once and hands back what it returned.
pub fn option<F: FnOnce() -> Option<()>>(f: F) -> (r: Option<()>)
    requires
        call_requires(f, ()),
    ensures
        call_ensures(f, (), r),
{
    f()
}

/// A hook on optional values: lets a caller react to absence in passing.
pub trait HandleOption<T, X>: Sized {
    /// Whether the value is absent, so the hook will run.
    spec fn is_vacant(&self) -> bool;

    /// Runs the hook exactly when the value is absent, and hands the value
    /// back either way.
    fn on_none<F: FnOnce() -> X>(self, f: F) -> (r: Option<T>)
        requires
            self.is_vacant() ==> call_requires(f, ()),
    ;
}

impl<T, X> HandleOption<T, X> for Option<T> {
    open spec fn is_vacant(&self) -> bool {
        *self is None
    }

    fn on_none<F: FnOnce() -> X>(self, f: F) -> (r: Option<T>) {
        match self {
            None => {
                let _ = f();
                None
            },
            some => some,
        }
    }
}

/// Hooks on fallible results: each lets a caller consume or forward the
/// error in passing.
pub trait HandleError<T>: Sized {
    /// Whether this result carries an error, so a hook will run.
    spec fn is_failure(&self) -> bool;

    /// Swallows the result, logging the error if it carries one.
    fn consume_error(self, err_msg: &mut ErrorMessage);

    /// Runs the hook on the error, if any, and hands the result back.
    fn otherwise<F: FnOnce(&ErrorX)>(self, f: F) -> Self
        requires
            forall|e: &ErrorX| call_requires(f, (e,)),
    ;

    /// Reports the error, if any, through the error channel, and hands the
    /// result back.
    fn send_error(self, err_msg_sender: std::sync::mpsc::Sender<Loglet>) -> Self;
}

impl<T> HandleError<T> for Result<T, ErrorX> {
    open spec fn is_failure(&self) -> bool {
        *self is Err
    }

    fn consume_error(self, err_msg: &mut ErrorMessage) {
        match self {
            Err(err) => err_msg.push_err(err.message()),
            Ok(_) => {},
        }
    }

    fn otherwise<F: FnOnce(&ErrorX)>(self, f: F) -> Self {
        match &self {
            Err(err) => f(err),
            Ok(_) => {},
        }
        self
    }

    fn send_error(self, err_msg_sender: std::sync::mpsc::Sender<Loglet>) -> Self {
        match &self {
            Err(err) => {
                let now = time_of_day();
                let loglet = Loglet::new("Error", err.message(), now.as_str());
                let _ = thread_tools::mpsc_send(&err_msg_sender, loglet);
            },
            Ok(_) => {},
        }
        self
    }
}

} // verus!
