use gpt_ask::text::{
    render_engine, render_missing_variable, render_response, CREDENTIAL_VARIABLE, ENGINE_LABEL,
    MISSING_SUFFIX, RESPONSE_LABEL,
};

#[test]
fn response_line_is_label_then_content() {
    assert_eq!(render_response("Paris"), "Response: Paris");
}

#[test]
fn response_line_keeps_content_as_it_came() {
    assert_eq!(render_response("  two\nlines "), "Response:   two\nlines ");
    assert_eq!(render_response("Zürich – 苏黎世"), "Response: Zürich – 苏黎世");
}

#[test]
fn response_line_of_empty_content_is_the_label() {
    assert_eq!(render_response(""), "Response: ");
    assert_eq!(render_response(""), RESPONSE_LABEL);
}

#[test]
fn engine_line_is_label_then_name() {
    assert_eq!(render_engine("gpt-4"), "Using gpt-4");
    assert_eq!(render_engine(""), ENGINE_LABEL);
}

#[test]
fn missing_variable_message_names_the_variable() {
    assert_eq!(
        render_missing_variable("OPENAI_API_KEY"),
        "OPENAI_API_KEY not found in the environment variable"
    );
    assert_eq!(render_missing_variable("HOME"), "HOME not found in the environment variable");
    assert_eq!(render_missing_variable(""), MISSING_SUFFIX);
}

#[test]
fn credential_variable_is_the_api_key() {
    assert_eq!(CREDENTIAL_VARIABLE, "OPENAI_API_KEY");
}
