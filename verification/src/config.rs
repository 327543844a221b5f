//! The settings that shape a drag.

use crate::fixed::Fixed;
use vstd::prelude::*;

verus! {

/// How much the program reports about what it does.
#[derive(Clone, Copy, Debug, PartialEq, Eq, Structural)]
pub enum LogLevel {
    Off,
    Error,
    Warn,
    Info,
    Debug,
    Trace,
}

/// The settings of the program. Times are in whole milliseconds.
#[derive(Clone, Debug)]
pub struct Configuration {
    /// The factor by which pointer motion is multiplied.
    pub acceleration: Fixed,
    /// How long the button is held after the gesture ends; zero releases it
    /// at once.
    pub drag_end_delay: u64,
    /// Whether a new gesture can call off a release that is still pending.
    pub drag_end_delay_cancellable: bool,
    /// Motion smaller than this on both axes is taken for jitter and dropped.
    pub min_motion: Fixed,
    /// The pause between two polls of the trackpad.
    pub response_time: u64,
    /// Whether a failed device write ends the program.
    pub fail_fast: bool,
    /// Where the log goes: a file's path, or `stdout`.
    pub log_file: String,
    /// How much is logged.
    pub log_level: LogLevel,
}

/// The acceleration used when none is set: 1.0, which leaves motion as it is.
pub fn default_1() -> (acceleration: Fixed)
    ensures
        acceleration.micros == 1_000_000,
{
    Fixed { micros: 1_000_000 }
}

/// The setting of `drag_end_delay_cancellable` when none is given.
pub fn default_true() -> (flag: bool)
    ensures
        flag,
{
    true
}

/// The setting of `fail_fast` when none is given.
pub fn default_false() -> (flag: bool)
    ensures
        !flag,
{
    false
}

/// The drag-end delay used when none is set: none at all.
pub fn default_0ms() -> (millis: u64)
    ensures
        millis == 0,
{
    0
}

/// The response time used when none is set: five milliseconds.
pub fn default_5ms() -> (millis: u64)
    ensures
        millis == 5,
{
    5
}

/// The jitter threshold used when none is set: 0.2.
pub fn default_pt_two() -> (min_motion: Fixed)
    ensures
        min_motion.micros == 200_000,
{
    Fixed { micros: 200_000 }
}

/// The log destination used when none is set: `stdout`.
pub fn default_stdout() -> (log_file: String)
    ensures
        log_file@ == "stdout"@,
{
    "stdout".to_owned()
}

/// The log level used when none is set.
pub fn default_info() -> (level: LogLevel)
    ensures
        level == LogLevel::Info,
{
    LogLevel::Info
}

impl Configuration {
    /// Whether these are the settings used when nothing is configured.
    pub open spec fn is_default(self) -> bool {
        &&& self.acceleration.micros == 1_000_000
        &&& self.drag_end_delay == 0
        &&& self.drag_end_delay_cancellable
        &&& self.min_motion.micros == 200_000
        &&& self.response_time == 5
        &&& !self.fail_fast
        &&& self.log_file@ == "stdout"@
        &&& self.log_level == LogLevel::Info
    }

    /// Whether these settings call for a release timer: they do when the
    /// delay is to be cancellable and there is a delay at all.
    pub open spec fn needs_timer(self) -> bool {
        self.drag_end_delay_cancellable && self.drag_end_delay > 0
    }

    /// Whether the program is to run a release timer beside the translator.
    ///
    /// Without a delay the button is released at once, and with a delay that
    /// need not be cancellable the translator sits it out itself: in both
    /// cases no timer is wanted.
    pub fn uses_timer(&self) -> (wanted: bool)
        ensures
            wanted == self.needs_timer(),
    {
        self.drag_end_delay_cancellable && self.drag_end_delay > 0
    }

    /// Whether the log goes to standard output rather than to a file.
    pub fn logs_to_stdout(&self) -> (to_stdout: bool)
        ensures
            to_stdout == (self.log_file@ == "stdout"@),
    {
        self.log_file == "stdout".to_owned()
    }
}

impl Default for Configuration {
    /// The settings used when nothing is configured, or when the
    /// configuration cannot be read.
    fn default() -> (cfg: Configuration)
        ensures
            cfg.is_default(),
    {
        Configuration {
            acceleration: default_1(),
            drag_end_delay: default_0ms(),
            drag_end_delay_cancellable: default_true(),
            min_motion: default_pt_two(),
            response_time: default_5ms(),
            fail_fast: default_false(),
            log_file: default_stdout(),
            log_level: default_info(),
        }
    }
}

} // verus!
