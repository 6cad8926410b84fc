//! The configuration of a session.

use crate::error::TokioSmuxError;
use vstd::prelude::*;

verus! {

pub const NANOS_PER_SEC: u32 = 1_000_000_000;

/// A span of time: whole seconds, and the nanoseconds below one second.
#[derive(Clone, Copy, Debug, PartialEq, Eq, Structural)]
pub struct Duration {
    secs: u64,
    nanos: u32,
}

impl View for Duration {
    type V = nat;

    /// The span in nanoseconds.
    closed spec fn view(&self) -> nat {
        (self.secs * NANOS_PER_SEC + self.nanos) as nat
    }
}

impl Duration {
    #[verifier::type_invariant]
    spec fn below_one_second(self) -> bool {
        self.nanos < NANOS_PER_SEC
    }

    /// `secs` seconds and `nanos` nanoseconds; whole seconds in `nanos` carry over.
    pub fn new(secs: u64, nanos: u32) -> (res: Duration)
        requires
            secs + nanos / NANOS_PER_SEC <= u64::MAX,
        ensures
            res@ == secs * NANOS_PER_SEC + nanos,
    {
        Duration { secs: secs + (nanos / NANOS_PER_SEC) as u64, nanos: nanos % NANOS_PER_SEC }
    }

    /// A whole number of seconds.
    pub fn from_secs(secs: u64) -> (res: Duration)
        ensures
            res@ == secs * NANOS_PER_SEC,
    {
        Duration { secs, nanos: 0 }
    }

    /// The whole seconds in the span.
    pub fn as_secs(&self) -> (res: u64)
        ensures
            res as nat == self@ / NANOS_PER_SEC as nat,
    {
        proof {
            use_type_invariant(self);
        }
        self.secs
    }

    /// The nanoseconds that the whole seconds leave over.
    pub fn subsec_nanos(&self) -> (res: u32)
        ensures
            res as nat == self@ % NANOS_PER_SEC as nat,
    {
        proof {
            use_type_invariant(self);
        }
        self.nanos
    }

    /// Whether no time passes at all.
    pub fn is_zero(&self) -> (res: bool)
        ensures
            res == (self@ == 0),
    {
        self.secs == 0 && self.nanos == 0
    }

    /// Whether this span is strictly shorter than `other`.
    pub fn is_shorter_than(&self, other: &Duration) -> (res: bool)
        ensures
            res == (self@ < other@),
    {
        proof {
            use_type_invariant(self);
            use_type_invariant(other);
        }
        self.secs < other.secs || (self.secs == other.secs && self.nanos < other.nanos)
    }
}

/// How a session behaves.
pub struct SmuxConfig {
    /// The version of the protocol; 1 is supported.
    pub version: u8,
    /// Whether the session sends no keep-alive frames.
    pub keep_alive_disable: bool,
    /// How often a keep-alive frame is sent to the remote.
    pub keep_alive_interval: Duration,
    /// After how long without data the session would be closed. It is not yet acted upon.
    pub keep_alive_timeout: Duration,
    /// How many frames may wait to be written before writers have to wait.
    pub writing_frame_channel_capacity: usize,
    /// How many frames may wait in each stream to be read before reading has to wait.
    pub stream_reading_frame_channel_capacity: usize,
}

impl Default for SmuxConfig {
    fn default() -> (res: Self)
        ensures
            res.version == 1,
            !res.keep_alive_disable,
            res.keep_alive_interval@ == 10 * NANOS_PER_SEC,
            res.keep_alive_timeout@ == 30 * NANOS_PER_SEC,
            res.writing_frame_channel_capacity == 4096,
            res.stream_reading_frame_channel_capacity == 1024,
            res.defect() is None,
    {
        SmuxConfig {
            version: 1,
            keep_alive_interval: Duration::from_secs(10),
            keep_alive_timeout: Duration::from_secs(30),
            keep_alive_disable: false,
            writing_frame_channel_capacity: 4096,
            stream_reading_frame_channel_capacity: 1024,
        }
    }
}

impl SmuxConfig {
    /// What is wrong with the configuration, if anything is. An unsupported version is named
    /// before anything else; the times matter only where keep-alive frames are sent.
    pub open spec fn defect(&self) -> Option<Seq<char>> {
        if self.version != 1 {
            Some("unsupported protocol version"@)
        } else if self.keep_alive_disable {
            None
        } else if self.keep_alive_interval@ == 0 {
            Some("keep-alive interval must be positive"@)
        } else if self.keep_alive_timeout@ < self.keep_alive_interval@ {
            Some("keep-alive timeout must be larger than keep-alive interval"@)
        } else {
            None
        }
    }

    /// Accepts the configuration, or says what is wrong with it.
    pub fn verify_config(&self) -> (res: Result<(), TokioSmuxError>)
        ensures
            match self.defect() {
                None => res is Ok,
                Some(text) => res matches Err(TokioSmuxError::InvalidConfig { msg }) && msg@
                    == text,
            },
            res is Ok <==> self.version == 1 && (self.keep_alive_disable || (
            self.keep_alive_interval@ > 0 && self.keep_alive_timeout@
                >= self.keep_alive_interval@)),
    {
        if self.version != 1 {
            return Err(
                TokioSmuxError::InvalidConfig { msg: "unsupported protocol version".to_string() },
            );
        }
        if !self.keep_alive_disable {
            if self.keep_alive_interval.is_zero() {
                return Err(
                    TokioSmuxError::InvalidConfig {
                        msg: "keep-alive interval must be positive".to_string(),
                    },
                );
            }
            if self.keep_alive_timeout.is_shorter_than(&self.keep_alive_interval) {
                return Err(
                    TokioSmuxError::InvalidConfig {
                        msg: "keep-alive timeout must be larger than keep-alive interval".to_string(),
                    },
                );
            }
        }
        Ok(())
    }
}

/// A configuration is acceptable just where its version is 1 and, unless it sends no keep-alive
/// frames, the interval between these is positive and no longer than the timeout.
pub proof fn acceptable_configurations(config: SmuxConfig)
    ensures
        config.defect() is None <==> config.version == 1 && (config.keep_alive_disable || (
        config.keep_alive_interval@ > 0 && config.keep_alive_timeout@
            >= config.keep_alive_interval@)),
{
}

/// A defect is named by what is wrong: first the version, then the interval, then the timeout.
pub proof fn defects_are_named(config: SmuxConfig)
    ensures
        config.version != 1 ==> config.defect() == Some("unsupported protocol version"@),
        config.version == 1 && !config.keep_alive_disable && config.keep_alive_interval@ == 0
            ==> config.defect() == Some("keep-alive interval must be positive"@),
        config.version == 1 && !config.keep_alive_disable && 0 < config.keep_alive_interval@
            && config.keep_alive_timeout@ < config.keep_alive_interval@ ==> config.defect() == Some(
            "keep-alive timeout must be larger than keep-alive interval"@,
        ),
{
}

/// Nothing but the version and the keep-alive settings makes a configuration unacceptable.
pub proof fn capacities_make_no_defect(a: SmuxConfig, b: SmuxConfig)
    requires
        a.version == b.version,
        a.keep_alive_disable == b.keep_alive_disable,
        a.keep_alive_interval@ == b.keep_alive_interval@,
        a.keep_alive_timeout@ == b.keep_alive_timeout@,
    ensures
        a.defect() == b.defect(),
{
}

} // verus!
