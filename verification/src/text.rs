//! The fixed lines that the client writes.

use vstd::prelude::*;

verus! {

/// The label that precedes the answer on standard output.
pub const RESPONSE_LABEL: &'static str = "Response: ";

/// The label that precedes the engine's name on standard output.
pub const ENGINE_LABEL: &'static str = "Using ";

/// The environment variable that holds the credential.
pub const CREDENTIAL_VARIABLE: &'static str = "OPENAI_API_KEY";

/// What follows the variable's name in the diagnostic for a missing credential.
pub const MISSING_SUFFIX: &'static str = " not found in the environment variable";

/// The line written after a successful reply: the label, then the content as it came.
pub open spec fn response_line(content: Seq<char>) -> Seq<char> {
    RESPONSE_LABEL@ + content
}

/// The line written before the request is sent: the label, then the engine's name.
pub open spec fn engine_line(engine: Seq<char>) -> Seq<char> {
    ENGINE_LABEL@ + engine
}

/// The diagnostic for a variable that the environment does not hold.
pub open spec fn missing_variable_message(variable: Seq<char>) -> Seq<char> {
    variable + MISSING_SUFFIX@
}

/// The diagnostic for a missing credential.
pub open spec fn missing_credential_message() -> Seq<char> {
    missing_variable_message(CREDENTIAL_VARIABLE@)
}

/// Builds the line that gives the reply's textual content.
pub fn render_response(content: &str) -> (line: String)
    ensures
        line@ == response_line(content@),
{
    String::from_str(RESPONSE_LABEL).concat(content)
}

/// Builds the line that names the engine in use.
pub fn render_engine(engine: &str) -> (line: String)
    ensures
        line@ == engine_line(engine@),
{
    String::from_str(ENGINE_LABEL).concat(engine)
}

/// Builds the diagnostic for a variable that the environment does not hold.
pub fn render_missing_variable(variable: &str) -> (message: String)
    ensures
        message@ == missing_variable_message(variable@),
{
    String::from_str(variable).concat(MISSING_SUFFIX)
}

/// The diagnostic for a missing credential is the sentence that names
/// `OPENAI_API_KEY`, letter for letter.
pub proof fn missing_credential_message_is_fixed()
    ensures
        missing_credential_message() == "OPENAI_API_KEY not found in the environment variable"@,
{
    reveal_strlit("OPENAI_API_KEY");
    reveal_strlit(" not found in the environment variable");
    reveal_strlit("OPENAI_API_KEY not found in the environment variable");
    assert(missing_credential_message()
        =~= "OPENAI_API_KEY not found in the environment variable"@);
}

} // verus!
