//! The options the bridge starts with.

use vstd::prelude::*;

verus! {

/// How much the bridge logs, from least to most.
#[derive(Clone, Copy, Debug, PartialEq, Eq, Structural)]
pub enum Level {
    Error,
    Warn,
    Info,
    Debug,
    Trace,
}

/// The options common to the bridge's programs.
#[derive(Clone, Debug)]
pub struct OptsCommon {
    /// Log at info level.
    pub verbose: bool,
    /// Log at debug level.
    pub debug: bool,
    /// Log at trace level.
    pub trace: bool,
    /// Host name of the broker.
    pub mqtt_host: String,
    /// Port of the broker.
    pub mqtt_port: u16,
    /// Put before each entry of `topics` when subscribing.
    pub topic_prefix: String,
    /// Comma-separated list of topics to subscribe to.
    pub topics: String,
    /// Where the readings are posted to.
    pub coap_url: String,
    /// How many seconds one delivery may take.
    pub coap_timeout: u64,
}

/// The level that a set of flags asks for: the most talkative flag wins, and
/// without a flag only errors are logged.
pub open spec fn level_of(verbose: bool, debug: bool, trace: bool) -> Level {
    if trace {
        Level::Trace
    } else if debug {
        Level::Debug
    } else if verbose {
        Level::Info
    } else {
        Level::Error
    }
}

impl Default for OptsCommon {
    /// No flag set, every text empty, port and timeout zero.
    fn default() -> (opts: OptsCommon)
        ensures
            !opts.verbose && !opts.debug && !opts.trace,
            opts.mqtt_host@ == Seq::<char>::empty(),
            opts.mqtt_port == 0,
            opts.topic_prefix@ == Seq::<char>::empty(),
            opts.topics@ == Seq::<char>::empty(),
            opts.coap_url@ == Seq::<char>::empty(),
            opts.coap_timeout == 0,
    {
        OptsCommon {
            verbose: false,
            debug: false,
            trace: false,
            mqtt_host: String::new(),
            mqtt_port: 0,
            topic_prefix: String::new(),
            topics: String::new(),
            coap_url: String::new(),
            coap_timeout: 0,
        }
    }
}

impl OptsCommon {
    /// Completes the options after parsing. There is nothing to complete:
    /// the options stay as they are, and the call succeeds.
    pub fn finalize(&mut self) -> (r: Result<(), String>)
        ensures
            r is Ok,
            *final(self) == *old(self),
    {
        Ok(())
    }

    /// The log level that the flags ask for.
    pub fn get_loglevel(&self) -> (level: Level)
        ensures
            level == level_of(self.verbose, self.debug, self.trace),
    {
        if self.trace {
            Level::Trace
        } else if self.debug {
            Level::Debug
        } else if self.verbose {
            Level::Info
        } else {
            Level::Error
        }
    }
}

} // verus!
