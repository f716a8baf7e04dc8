//! The crash reporter: the leaf component that turns an otherwise-uncaught
//! fatal error into a user-visible notification.
//!
//! It runs in an already-compromised process, so it is restricted to simple
//! text formatting — these functions are verified never to panic and depend
//! on no other component of the shim.

use vstd::prelude::*;
use vstd::string::StringExecFns;

verus! {

/// The title of the diagnostic console and of the crash notification,
/// "Lovely " followed by the version string.
pub open spec fn title_text(version: Seq<char>) -> Seq<char> {
    "Lovely "@ + version
}

/// The body of the crash notification: a fixed preamble followed by the
/// formatted failure description.
pub open spec fn crash_text(details: Seq<char>) -> Seq<char> {
    "lovely-injector has crashed: \n"@ + details
}

/// The fixed window title, derived from the version string.
pub fn window_title(version: &str) -> (t: String)
    ensures
        t@ == title_text(version@),
{
    let mut t = String::from_str("Lovely ");
    t.append(version);
    t
}

/// The crash notification body for one failure description.
pub fn crash_message(details: &str) -> (m: String)
    ensures
        m@ == crash_text(details@),
{
    let mut m = String::from_str("lovely-injector has crashed: \n");
    m.append(details);
    m
}

/// One blocking modal notification: its fixed title and its body.
pub struct CrashNotice {
    /// The fixed title, derived from the version string.
    pub title: String,
    /// The formatted failure text.
    pub body: String,
}

/// The process-wide crash reporter: installed once, before anything that
/// could itself fail, and counted every time it fires.
pub struct Reporter {
    /// Whether the process-wide handler is in place.
    pub installed: bool,
    /// How many fatal errors the handler has turned into notices.
    pub fired: u64,
}

impl Reporter {
    /// A reporter that is not yet installed and has never fired.
    pub fn new() -> (r: Reporter)
        ensures
            !r.installed,
            r.fired == 0,
    {
        Reporter { installed: false, fired: 0 }
    }

    /// Install the process-wide handler.  Installation happens exactly once,
    /// before any other initialization that could fail.
    pub fn install(&mut self)
        requires
            !old(self).installed,
        ensures
            final(self).installed,
            final(self).fired == old(self).fired,
    {
        self.installed = true;
    }

    /// Handle one fatal error: format the notice that the native layer will
    /// log and show as a blocking modal.  Fires once per fatal error; the
    /// formatting itself cannot fail.
    pub fn on_fatal(&mut self, version: &str, details: &str) -> (n: CrashNotice)
        requires
            old(self).installed,
            old(self).fired < u64::MAX,
        ensures
            final(self).installed,
            final(self).fired == old(self).fired + 1,
            n.title@ == title_text(version@),
            n.body@ == crash_text(details@),
    {
        self.fired = self.fired + 1;
        CrashNotice { title: window_title(version), body: crash_message(details) }
    }
}

} // verus!
