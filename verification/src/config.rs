//! What a run is configured with: where to send, and how to shape and pace
//! the traffic.

use crate::text::{decimal, render_decimal};
use vstd::prelude::*;
use vstd::string::StringExecFns;

verus! {

/// The address family of a destination.
#[derive(Clone, Copy, Debug, PartialEq, Eq, Structural)]
pub enum IpFamily {
    V4,
    V6,
}

/// The destination endpoint: an IP address, held by its family and its
/// textual form, and a UDP port.
#[derive(Debug)]
pub struct Target {
    pub family: IpFamily,
    pub ip: String,
    pub port: u16,
}

impl Target {
    /// The formatted destination: `ip:port` for IPv4, `[ip]:port` for IPv6.
    pub open spec fn destination(&self) -> Seq<char> {
        if self.family == IpFamily::V4 {
            self.ip@ + seq![':'] + decimal(self.port as nat)
        } else {
            seq!['['] + self.ip@ + seq![']', ':'] + decimal(self.port as nat)
        }
    }

    /// The local address a sender for this destination binds to, with an
    /// ephemeral port: any IPv4 address, or the IPv6 loopback.
    pub open spec fn local_bind(&self) -> Seq<char> {
        if self.family == IpFamily::V4 {
            seq!['0', '.', '0', '.', '0', '.', '0', ':', '0']
        } else {
            seq!['[', ':', ':', '1', ']', ':', '0']
        }
    }

    /// Whether the destination is an IPv4 address.
    pub fn is_ipv4(&self) -> (v4: bool)
        ensures
            v4 == (self.family == IpFamily::V4),
    {
        match self.family {
            IpFamily::V4 => true,
            IpFamily::V6 => false,
        }
    }

    /// The formatted destination, as a sender addresses it.
    pub fn as_str(&self) -> (text: String)
        ensures
            text@ == self.destination(),
    {
        proof {
            reveal_strlit(":");
            reveal_strlit("[");
            reveal_strlit("]:");
        }
        let port = render_decimal(self.port as u64);
        if self.is_ipv4() {
            let mut text = self.ip.clone();
            text.append(":");
            text.append(port.as_str());
            assert(text@ =~= self.destination());
            text
        } else {
            let mut text = String::from_str("[");
            text.append(self.ip.as_str());
            text.append("]:");
            text.append(port.as_str());
            assert(text@ =~= self.destination());
            text
        }
    }

    /// The local address that a sender for this destination binds to.
    pub fn bind_to(&self) -> (text: String)
        ensures
            text@ == self.local_bind(),
    {
        proof {
            reveal_strlit("0.0.0.0:0");
            reveal_strlit("[::1]:0");
        }
        if self.is_ipv4() {
            let text = String::from_str("0.0.0.0:0");
            assert(text@ =~= self.local_bind());
            text
        } else {
            let text = String::from_str("[::1]:0");
            assert(text@ =~= self.local_bind());
            text
        }
    }
}

/// The shaping parameters of a run.
#[derive(Clone, Copy, Debug, PartialEq, Eq, Structural)]
pub struct Options {
    /// Pacing delay between two sends of one worker, in microseconds.
    pub sleep_us: u64,
    /// Exclusive upper bound of the priority in a message.
    pub priority_max: u8,
    /// Exclusive upper bound of the number of words, where it varies.
    pub words_max: u8,
    /// If not zero, the number of words of every message.
    pub words_fixed: u8,
}

/// Why a set of options cannot shape any message.
#[derive(Clone, Copy, Debug, PartialEq, Eq, Structural)]
pub enum ConfigError {
    /// The number of words varies, and no number lies in `[1, words_max)`.
    NoWordCount,
    /// No priority lies in `[0, priority_max)`.
    NoPriority,
}

impl Options {
    /// The number of words varies from message to message.
    pub open spec fn varies(&self) -> bool {
        self.words_fixed == 0
    }

    /// Some message can be shaped: a priority and a word count exist.
    pub open spec fn valid(&self) -> bool {
        &&& self.priority_max > 0
        &&& self.varies() ==> self.words_max > 1
    }

    /// `count` is a number of words that these options allow in a message.
    pub open spec fn allows_words(&self, count: nat) -> bool {
        if self.varies() {
            1 <= count < self.words_max
        } else {
            count == self.words_fixed
        }
    }

    /// `priority` is a priority that these options allow in a message.
    pub open spec fn allows_priority(&self, priority: nat) -> bool {
        priority < self.priority_max
    }

    /// What `validate` answers.
    pub open spec fn verdict(&self) -> Result<(), ConfigError> {
        if self.varies() && self.words_max <= 1 {
            Err(ConfigError::NoWordCount)
        } else if self.priority_max == 0 {
            Err(ConfigError::NoPriority)
        } else {
            Ok(())
        }
    }

    /// Checks that a message can be shaped. Of two faults the word range is
    /// reported, as the word count of a message is chosen first.
    pub fn validate(&self) -> (checked: Result<(), ConfigError>)
        ensures
            checked == self.verdict(),
            checked is Ok <==> self.valid(),
    {
        if self.words_fixed == 0 && self.words_max <= 1 {
            Err(ConfigError::NoWordCount)
        } else if self.priority_max == 0 {
            Err(ConfigError::NoPriority)
        } else {
            Ok(())
        }
    }
}

/// The configuration that all workers share, read-only.
#[derive(Debug)]
pub struct Config {
    pub target: Target,
    pub options: Options,
}

} // verus!
