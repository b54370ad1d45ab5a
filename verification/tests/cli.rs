use gpt_ask::cli::{
    interpret, parse_invocation, Arity, Content, Grammar, Invocation, Matches, Usage, ARGUMENT,
    ARGUMENT_HELP, PROGRAM, SUBCOMMAND, SUBCOMMAND_ABOUT, USAGE_NOTICE, USAGE_STATUS, VERSION,
};

fn line(tokens: &[&str]) -> Vec<String> {
    tokens.iter().map(|token| token.to_string()).collect()
}

fn declined(tokens: &[&str]) -> Usage {
    match parse_invocation(&line(tokens)) {
        Invocation::Usage(usage) => usage,
        Invocation::Ask { question } => panic!("asked {question:?}"),
    }
}

#[test]
fn ask_with_a_question_is_asked() {
    assert_eq!(
        parse_invocation(&line(&["gpt_ask", "ask", "What is the capital of France?"])),
        Invocation::Ask { question: "What is the capital of France?".to_string() }
    );
}

#[test]
fn the_program_name_does_not_matter() {
    assert_eq!(
        parse_invocation(&line(&["/usr/local/bin/other", "ask", "Why?"])),
        Invocation::Ask { question: "Why?".to_string() }
    );
}

#[test]
fn an_empty_question_is_still_a_question() {
    assert_eq!(
        parse_invocation(&line(&["gpt_ask", "ask", ""])),
        Invocation::Ask { question: String::new() }
    );
}

#[test]
fn a_question_after_the_separator_may_start_with_a_dash() {
    assert_eq!(
        parse_invocation(&line(&["gpt_ask", "ask", "--", "-1 + 1?"])),
        Invocation::Ask { question: "-1 + 1?".to_string() }
    );
}

#[test]
fn no_subcommand_gets_help_and_a_usage_status() {
    let usage = declined(&["gpt_ask"]);
    assert_eq!(usage.exit_code, 2);
    assert!(usage.to_stderr);
    assert!(usage.text.contains("Usage: gpt_ask"));
    assert!(usage.text.contains("ask"));
    assert!(usage.text.contains("Ask a single question"));
}

#[test]
fn ask_without_a_question_gets_help_and_a_usage_status() {
    let usage = declined(&["gpt_ask", "ask"]);
    assert_eq!(usage.exit_code, 2);
    assert!(usage.to_stderr);
    assert!(usage.text.contains("Usage: gpt_ask ask <question>"));
    assert!(usage.text.contains("The question to ask"));
}

#[test]
fn no_tokens_at_all_get_help() {
    let usage = declined(&[]);
    assert_eq!(usage.exit_code, 2);
    assert!(usage.to_stderr);
    assert!(usage.text.contains("Usage:"));
}

#[test]
fn help_flag_goes_to_standard_output_with_status_zero() {
    for flag in ["--help", "-h"] {
        let usage = declined(&["gpt_ask", flag]);
        assert_eq!(usage.exit_code, 0);
        assert!(!usage.to_stderr);
        assert!(usage.text.contains("Usage: gpt_ask"));
    }
    let usage = declined(&["gpt_ask", "ask", "--help"]);
    assert_eq!(usage.exit_code, 0);
    assert!(usage.text.contains("The question to ask"));
}

#[test]
fn version_flag_prints_name_and_version() {
    for flag in ["--version", "-V"] {
        let usage = declined(&["gpt_ask", flag]);
        assert_eq!(usage, Usage { text: "gpt_ask 0.1.0\n".to_string(), exit_code: 0, to_stderr: false });
    }
}

#[test]
fn an_unknown_subcommand_is_an_error() {
    let usage = declined(&["gpt_ask", "question", "Why?"]);
    assert_eq!(usage.exit_code, 2);
    assert!(usage.to_stderr);
    assert!(usage.text.starts_with("error:"));
}

#[test]
fn a_second_question_is_an_error() {
    let usage = declined(&["gpt_ask", "ask", "Why?", "How?"]);
    assert_eq!(usage.exit_code, 2);
    assert!(usage.to_stderr);
    assert!(usage.text.starts_with("error:"));
}

#[test]
fn the_parser_strips_styling_from_the_text() {
    assert!(!declined(&["gpt_ask"]).text.contains('\u{1b}'));
    assert!(!declined(&["gpt_ask", "bogus"]).text.contains('\u{1b}'));
}

#[test]
fn interpret_takes_the_question_as_it_is() {
    assert_eq!(
        interpret(Matches::Parsed(Some(Some("Why?".to_string())))),
        Invocation::Ask { question: "Why?".to_string() }
    );
}

#[test]
fn interpret_answers_a_missing_question_with_the_usage_notice() {
    let notice = Invocation::Usage(Usage {
        text: "Usage: gpt_ask ask <question>\n".to_string(),
        exit_code: 2,
        to_stderr: true,
    });
    assert_eq!(interpret(Matches::Parsed(None)), notice);
    assert_eq!(interpret(Matches::Parsed(Some(None))), notice);
    assert_eq!(USAGE_NOTICE, "Usage: gpt_ask ask <question>\n");
    assert_eq!(USAGE_STATUS, 2);
}

#[test]
fn interpret_passes_on_what_the_parser_declined() {
    let usage = Usage { text: "help".to_string(), exit_code: 0, to_stderr: false };
    assert_eq!(interpret(Matches::Declined(usage.clone())), Invocation::Usage(usage));
}

#[test]
fn parsing_twice_gives_the_same() {
    for tokens in [line(&["gpt_ask"]), line(&["gpt_ask", "ask"]), line(&["gpt_ask", "ask", "Why?"])] {
        assert_eq!(parse_invocation(&tokens), parse_invocation(&tokens));
    }
}

#[test]
fn the_grammar_is_one_subcommand_with_one_argument() {
    assert_eq!(SUBCOMMAND, "ask");
    assert_eq!(ARGUMENT, "question");
    assert_eq!(SUBCOMMAND_ABOUT, "Ask a single question");
    assert_eq!(ARGUMENT_HELP, "The question to ask");
    let help = declined(&[PROGRAM, "--help"]).text;
    assert!(help.contains(SUBCOMMAND));
    assert!(help.contains(SUBCOMMAND_ABOUT));
    let help = declined(&[PROGRAM, SUBCOMMAND, "--help"]).text;
    assert!(help.contains("<question>"));
    assert!(help.contains(ARGUMENT_HELP));
    assert_eq!(declined(&[PROGRAM, "--version"]).text, format!("{PROGRAM} {VERSION}\n"));
}

#[test]
fn the_usage_notice_is_the_usage_line_of_ask() {
    let help = declined(&[PROGRAM, SUBCOMMAND]).text;
    assert!(help.contains(USAGE_NOTICE.trim_end()));
}

#[test]
fn the_status_follows_the_stream() {
    let lines: [&[&str]; 9] = [
        &[],
        &["gpt_ask"],
        &["gpt_ask", "ask"],
        &["gpt_ask", "--help"],
        &["gpt_ask", "ask", "-h"],
        &["gpt_ask", "-V"],
        &["gpt_ask", "help"],
        &["gpt_ask", "--bogus"],
        &["gpt_ask", "ask", "Why?", "--bogus"],
    ];
    for tokens in lines {
        let usage = declined(tokens);
        assert_eq!(usage.exit_code, if usage.to_stderr { 2 } else { 0 }, "{tokens:?}");
    }
}

#[test]
fn the_help_subcommand_shows_help() {
    let usage = declined(&["gpt_ask", "help"]);
    assert_eq!(usage.exit_code, 0);
    assert!(!usage.to_stderr);
    assert_eq!(usage.text, declined(&["gpt_ask", "--help"]).text);
}

#[test]
fn the_standard_grammar_asks_for_one_required_question() {
    assert_eq!(
        Grammar::standard(),
        Grammar {
            program: "gpt_ask",
            version: "0.1.0",
            program_needs_arguments: true,
            subcommand: "ask",
            about: "Ask a single question",
            subcommand_needs_arguments: true,
            argument: "question",
            help: "The question to ask",
            required: true,
            arity: Arity::One,
            content: Content::Text,
        }
    );
}
