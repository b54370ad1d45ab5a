use gpt_ask::client::build_client;
use gpt_ask::config::{ClientConfiguration, Engine};
use gpt_ask::session::{step, Action, Event, State};

#[test]
fn a_client_is_built_from_a_plain_credential() {
    let (client, event) = build_client("sk-test".to_string(), ClientConfiguration::standard());
    assert_eq!(event, Event::ClientReady);
    let client = client.expect("a client comes with ClientReady");
    assert_eq!(client.config.engine, chatgpt::config::ChatGPTEngine::Gpt4);
    assert_eq!(client.config.timeout, std::time::Duration::from_secs(60));
}

#[test]
fn the_client_takes_engine_and_timeout_from_the_configuration() {
    let configuration = ClientConfiguration { engine: Engine::Gpt35Turbo0301, timeout_secs: 5 };
    let (client, event) = build_client("sk-test".to_string(), configuration);
    assert_eq!(event, Event::ClientReady);
    let client = client.expect("a client comes with ClientReady");
    assert_eq!(client.config.engine, chatgpt::config::ChatGPTEngine::Gpt35Turbo_0301);
    assert_eq!(client.config.timeout, std::time::Duration::from_secs(5));
}

#[test]
fn a_credential_that_is_no_header_value_builds_no_client() {
    let (client, event) = build_client("line\nbreak".to_string(), ClientConfiguration::standard());
    assert!(client.is_none());
    match event {
        Event::ClientFailed { diagnostic } => {
            assert!(diagnostic.starts_with("Invalid configuration provided"))
        }
        other => panic!("{other:?}"),
    }
}

#[test]
fn the_machine_takes_what_build_client_says() {
    let building = State::BuildingClient { question: "Why?".to_string() };
    let (_, event) = build_client("sk-test".to_string(), ClientConfiguration::standard());
    let (state, action) = step(building.clone(), event);
    assert_eq!(state, State::AwaitingReply);
    assert_eq!(
        action,
        Action::SendRequest { notice: "Using gpt-4".to_string(), question: "Why?".to_string() }
    );
    let (_, event) = build_client("line\nbreak".to_string(), ClientConfiguration::standard());
    let (state, action) = step(building, event);
    assert_eq!(state, State::Exited);
    assert!(matches!(action, Action::Fail { .. }));
    assert_eq!(action.exit_code(), Some(1));
}

#[test]
fn the_client_is_configured_for_the_engine_that_is_named() {
    for engine in [
        Engine::Gpt35Turbo,
        Engine::Gpt35Turbo0301,
        Engine::Gpt4,
        Engine::Gpt4Wide,
        Engine::Gpt40314,
        Engine::Gpt4Wide0314,
    ] {
        let configuration = ClientConfiguration { engine, timeout_secs: 60 };
        let (client, event) = build_client("sk-test".to_string(), configuration);
        assert_eq!(event, Event::ClientReady);
        let client = client.expect("a client comes with ClientReady");
        assert_eq!(client.config.engine.to_string(), engine.name());
    }
}

#[test]
fn a_refusal_reads_as_at_the_top_of_a_program() {
    let (client, event) = build_client("line\nbreak".to_string(), ClientConfiguration::standard());
    assert!(client.is_none());
    let Event::ClientFailed { diagnostic } = event else {
        panic!("{event:?}");
    };
    assert!(diagnostic.starts_with(
        "Invalid configuration provided: failed to parse header value\n\nCaused by:\n"
    ));
    assert!(diagnostic.contains("failed to parse header value"));
}

#[test]
fn building_twice_is_refused_or_not_alike() {
    for credential in ["sk-test", "line\nbreak", "", "tab\there", "délicat"] {
        let (first, _) = build_client(credential.to_string(), ClientConfiguration::standard());
        let (second, _) = build_client(credential.to_string(), ClientConfiguration::standard());
        assert_eq!(first.is_some(), second.is_some(), "{credential:?}");
    }
}
