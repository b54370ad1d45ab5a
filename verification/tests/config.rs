use chatgpt::config::ChatGPTEngine;
use gpt_ask::config::{ClientConfiguration, Engine, ENGINE, TIMEOUT_SECS};

#[test]
fn engine_names_are_the_service_identifiers() {
    assert_eq!(Engine::Gpt35Turbo.name(), "gpt-3.5-turbo");
    assert_eq!(Engine::Gpt35Turbo0301.name(), "gpt-3.5-turbo-0301");
    assert_eq!(Engine::Gpt4.name(), "gpt-4");
    assert_eq!(Engine::Gpt4Wide.name(), "gpt-4-32k");
    assert_eq!(Engine::Gpt40314.name(), "gpt-4-0314");
    assert_eq!(Engine::Gpt4Wide0314.name(), "gpt-4-32k-0314");
}

#[test]
fn engine_name_matches_the_client_crate() {
    assert_eq!(Engine::Gpt35Turbo.name(), ChatGPTEngine::Gpt35Turbo.to_string());
    assert_eq!(Engine::Gpt35Turbo0301.name(), ChatGPTEngine::Gpt35Turbo_0301.to_string());
    assert_eq!(Engine::Gpt4.name(), ChatGPTEngine::Gpt4.to_string());
    assert_eq!(Engine::Gpt4Wide.name(), ChatGPTEngine::Gpt4_32k.to_string());
    assert_eq!(Engine::Gpt40314.name(), ChatGPTEngine::Gpt4_0314.to_string());
    assert_eq!(Engine::Gpt4Wide0314.name(), ChatGPTEngine::Gpt4_32k_0314.to_string());
    assert_eq!(Engine::Gpt35Turbo.name(), ChatGPTEngine::default().to_string());
}

#[test]
fn standard_configuration_is_gpt4_with_a_minute() {
    let configuration = ClientConfiguration::standard();
    assert_eq!(configuration.engine, Engine::Gpt4);
    assert_eq!(configuration.timeout_secs, 60);
    assert_eq!(ENGINE, Engine::Gpt4);
    assert_eq!(TIMEOUT_SECS, 60);
}
