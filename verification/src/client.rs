//! The client of the service: how it is built from a credential and a configuration.
//!
//! A built client is a value of the `chatgpt` crate. Nothing here looks inside it:
//! it is handed to the driver, which sends the request with it.

use vstd::prelude::*;
use chatgpt::client::ChatGPT;
use chatgpt::config::{ChatGPTEngine, ModelConfigurationBuilder};
use crate::config::{ClientConfiguration, Engine};
use crate::session::{Event, EventView};

verus! {

/// The service's client, as the `chatgpt` crate builds it.
#[verifier::external_type_specification]
#[verifier::external_body]
pub struct ExChatGPT(ChatGPT);

/// Whether the `chatgpt` crate declines to build a client from this credential, for
/// this engine and with this timeout in seconds. It names whether
/// `ModelConfigurationBuilder::build` or, after it, `ChatGPT::new_with_config`
/// returns an error, which depends on these three alone.
pub uninterp spec fn client_refused(credential: Seq<char>, engine: Engine, timeout_secs: u64) -> bool;

/// Calls `ModelConfigurationBuilder::default`, sets `engine` and `timeout`, calls
/// `build`, and hands the settings with the credential to `ChatGPT::new_with_config`.
/// Trusted: the calls return, and whether a client comes back is a function of the
/// three arguments alone. An error comes back as text, as `anyhow` writes it at the
/// top of a program: the error, then its chain of causes. Nothing is claimed of that
/// text: it can end in a backtrace where the environment asks for one.
#[verifier::external_body]
fn new_client(credential: String, engine: Engine, timeout_secs: u64) -> (built: Result<
    ChatGPT,
    String,
>)
    ensures
        built is Err <==> client_refused(credential@, engine, timeout_secs),
{
    let engine = match engine {
        Engine::Gpt35Turbo => ChatGPTEngine::Gpt35Turbo,
        Engine::Gpt35Turbo0301 => ChatGPTEngine::Gpt35Turbo_0301,
        Engine::Gpt4 => ChatGPTEngine::Gpt4,
        Engine::Gpt4Wide => ChatGPTEngine::Gpt4_32k,
        Engine::Gpt40314 => ChatGPTEngine::Gpt4_0314,
        Engine::Gpt4Wide0314 => ChatGPTEngine::Gpt4_32k_0314,
    };
    let timeout = std::time::Duration::from_secs(timeout_secs);
    let settings = ModelConfigurationBuilder::default().engine(engine).timeout(timeout).build();
    let settings = settings.map_err(|error| format!("{:?}", anyhow::Error::from(error)))?;
    let built = ChatGPT::new_with_config(credential, settings);
    built.map_err(|error| format!("{:?}", anyhow::Error::from(error)))
}

/// Builds the client from the credential, for the engine and with the timeout of
/// the configuration, and says so to the machine. The client comes with
/// `Event::ClientReady`, exactly where the `chatgpt` crate does not decline; where it
/// declines, no client comes, and its reason comes in `Event::ClientFailed`.
pub fn build_client(credential: String, configuration: ClientConfiguration) -> (built: (
    Option<ChatGPT>,
    Event,
))
    ensures
        built.1@ is ClientFailed <==> client_refused(
            credential@,
            configuration.engine,
            configuration.timeout_secs,
        ),
        built.1@ == EventView::ClientReady <==> !client_refused(
            credential@,
            configuration.engine,
            configuration.timeout_secs,
        ),
        built.0 is Some <==> built.1@ == EventView::ClientReady,
{
    match new_client(credential, configuration.engine, configuration.timeout_secs) {
        Ok(client) => (Some(client), Event::ClientReady),
        Err(diagnostic) => (None, Event::ClientFailed { diagnostic }),
    }
}

} // verus!
