//! The configuration that the client is built with.

use vstd::prelude::*;

verus! {

/// The model engines that the service's client knows by name. Each stands for the
/// variant of the `chatgpt` crate's `ChatGPTEngine` that displays as its identifier.
#[derive(Clone, Copy, Debug, PartialEq, Eq, Structural)]
pub enum Engine {
    /// `gpt-3.5-turbo`
    Gpt35Turbo,
    /// `gpt-3.5-turbo-0301`
    Gpt35Turbo0301,
    /// `gpt-4`
    Gpt4,
    /// `gpt-4-32k`
    Gpt4Wide,
    /// `gpt-4-0314`
    Gpt40314,
    /// `gpt-4-32k-0314`
    Gpt4Wide0314,
}

/// How the client is set up: which engine answers, and how long a request may take.
#[derive(Clone, Copy, Debug, PartialEq, Eq, Structural)]
pub struct ClientConfiguration {
    pub engine: Engine,
    /// Upper bound on the wait for a reply, in seconds.
    pub timeout_secs: u64,
}

/// The engine that every request goes to.
pub const ENGINE: Engine = Engine::Gpt4;

/// The longest that a request may take, in seconds.
pub const TIMEOUT_SECS: u64 = 60;

impl Engine {
    /// The identifier under which the service knows the engine.
    pub open spec fn label(self) -> Seq<char> {
        match self {
            Engine::Gpt35Turbo => "gpt-3.5-turbo"@,
            Engine::Gpt35Turbo0301 => "gpt-3.5-turbo-0301"@,
            Engine::Gpt4 => "gpt-4"@,
            Engine::Gpt4Wide => "gpt-4-32k"@,
            Engine::Gpt40314 => "gpt-4-0314"@,
            Engine::Gpt4Wide0314 => "gpt-4-32k-0314"@,
        }
    }

    /// The identifier under which the service knows the engine.
    pub fn name(self) -> (name: String)
        ensures
            name@ == self.label(),
    {
        match self {
            Engine::Gpt35Turbo => String::from_str("gpt-3.5-turbo"),
            Engine::Gpt35Turbo0301 => String::from_str("gpt-3.5-turbo-0301"),
            Engine::Gpt4 => String::from_str("gpt-4"),
            Engine::Gpt4Wide => String::from_str("gpt-4-32k"),
            Engine::Gpt40314 => String::from_str("gpt-4-0314"),
            Engine::Gpt4Wide0314 => String::from_str("gpt-4-32k-0314"),
        }
    }
}

impl ClientConfiguration {
    /// The configuration of every run: the fixed engine and the fixed timeout.
    pub open spec fn standard_spec() -> ClientConfiguration {
        ClientConfiguration { engine: ENGINE, timeout_secs: TIMEOUT_SECS }
    }

    /// The configuration of every run: the fixed engine and the fixed timeout.
    pub fn standard() -> (configuration: ClientConfiguration)
        ensures
            configuration == Self::standard_spec(),
    {
        ClientConfiguration { engine: ENGINE, timeout_secs: TIMEOUT_SECS }
    }
}

} // verus!
