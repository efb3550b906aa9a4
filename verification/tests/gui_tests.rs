use sare_terminal::gui::heredoc::{enter_line, InputState, LineAction};
use sare_terminal::gui::heredoc::{HeredocProcessor, HeredocState};
use sare_terminal::gui::substitution::{SubstitutionProcessor, SubstitutionState};

#[test]
fn detects_unquoted_heredoc_with_expansion() {
    let r = HeredocProcessor::detect_heredoc("cat <<EOF > out.txt");
    assert_eq!(r, Some(("EOF".to_string(), true)));
}

#[test]
fn quoted_heredoc_drops_its_quotes_and_does_not_expand() {
    assert_eq!(HeredocProcessor::detect_heredoc("cat <<'END'"), Some(("END".to_string(), false)));
    assert_eq!(HeredocProcessor::detect_heredoc("cat <<\"END\""), Some(("END".to_string(), false)));
}

#[test]
fn bare_double_angle_is_no_heredoc() {
    assert_eq!(HeredocProcessor::detect_heredoc("echo << x"), None);
    assert_eq!(HeredocProcessor::detect_heredoc("echo hello"), None);
    assert_eq!(HeredocProcessor::detect_heredoc(""), None);
}

#[test]
fn first_heredoc_word_wins() {
    assert_eq!(HeredocProcessor::detect_heredoc("a <<ONE <<TWO"), Some(("ONE".to_string(), true)));
}

#[test]
fn heredoc_session_collects_lines_until_delimiter() {
    let state = HeredocProcessor::update_heredoc_state(HeredocState::default(), "cat <<EOF");
    assert!(state.is_heredoc());
    assert_eq!(state.get_delimiter(), "EOF");
    assert!(state.should_expand_vars());
    let env = vec![("USER".to_string(), "klea".to_string())];
    let state = HeredocProcessor::add_heredoc_content(state, "hi $USER", &env);
    let state = HeredocProcessor::add_heredoc_content(state, "cost $5 $NOPE_X", &env);
    assert_eq!(state.get_heredoc_content(), "hi klea\ncost $5 $NOPE_X\n");
    assert!(HeredocProcessor::is_heredoc_delimiter(&state, "  EOF  "));
    assert!(!HeredocProcessor::is_heredoc_delimiter(&state, "EOFX"));
}

#[test]
fn content_is_not_added_outside_heredoc_mode() {
    let state = HeredocProcessor::add_heredoc_content(HeredocState::default(), "x", &Vec::new());
    assert_eq!(state.get_heredoc_content(), "");
    assert!(!HeredocProcessor::is_heredoc_delimiter(&state, ""));
}

#[test]
fn quoted_heredoc_content_is_kept_as_written() {
    let state = HeredocProcessor::update_heredoc_state(HeredocState::default(), "cat <<'EOF'");
    let env = vec![("USER".to_string(), "klea".to_string())];
    let state = HeredocProcessor::add_heredoc_content(state, "$USER", &env);
    assert_eq!(state.get_heredoc_content(), "$USER\n");
}

#[test]
fn variable_expansion_rules() {
    let env = vec![
        ("A".to_string(), "1".to_string()),
        ("A_B".to_string(), "2".to_string()),
        ("A".to_string(), "shadowed".to_string()),
    ];
    assert_eq!(HeredocProcessor::expand_heredoc_variables("$A-$A_B", &env), "1-2");
    assert_eq!(HeredocProcessor::expand_heredoc_variables("$", &env), "$");
    assert_eq!(HeredocProcessor::expand_heredoc_variables("$$A", &env), "$1");
    assert_eq!(HeredocProcessor::expand_heredoc_variables("$ZZ9 end", &env), "$ZZ9 end");
    assert_eq!(HeredocProcessor::expand_heredoc_variables("$é", &env), "$é");
    let accented = vec![("é".to_string(), "acute".to_string())];
    assert_eq!(HeredocProcessor::expand_heredoc_variables("$é!", &accented), "acute!");
}

#[test]
fn prompt_follows_mode() {
    let mut state = HeredocState::default();
    assert_eq!(HeredocProcessor::get_prompt(&state), "$ ");
    state.set_heredoc(true);
    assert_eq!(HeredocProcessor::get_prompt(&state), "heredoc> ");
}

#[test]
fn state_add_content_appends_a_line() {
    let mut state = HeredocState::default();
    state.add_heredoc_content("one".to_string());
    state.add_heredoc_content("two".to_string());
    assert_eq!(state.get_heredoc_content(), "one\ntwo\n");
}

#[test]
fn detects_dollar_paren_and_backquote_substitutions() {
    let subs = SubstitutionProcessor::detect_command_substitutions("a $(ls -l) b `pwd` c");
    assert_eq!(
        subs,
        vec![(2, 10, "ls -l".to_string()), (13, 18, "pwd".to_string())]
    );
}

#[test]
fn nested_parentheses_stay_in_one_substitution() {
    let subs = SubstitutionProcessor::detect_command_substitutions("$(echo $(date))x");
    assert_eq!(subs, vec![(0, 15, "echo $(date)".to_string())]);
}

#[test]
fn unclosed_substitutions_are_dropped() {
    assert!(SubstitutionProcessor::detect_command_substitutions("$(echo").is_empty());
    assert!(SubstitutionProcessor::detect_command_substitutions("`echo").is_empty());
    assert!(SubstitutionProcessor::detect_command_substitutions("plain").is_empty());
}

#[test]
fn outputs_replace_substitutions() {
    let outs = vec!["LS".to_string(), "/home".to_string()];
    let r = SubstitutionProcessor::process_command_substitutions("a $(ls) b `pwd`", &outs);
    assert_eq!(r, Some("a LS b /home".to_string()));
}

#[test]
fn wrong_number_of_outputs_is_refused() {
    let outs = vec!["x".to_string()];
    assert_eq!(SubstitutionProcessor::process_command_substitutions("$(a) $(b)", &outs), None);
    assert_eq!(
        SubstitutionProcessor::process_command_substitutions("none", &Vec::new()),
        Some("none".to_string())
    );
}

#[test]
fn state_processes_like_the_processor() {
    let st = SubstitutionState::default();
    let outs = vec![String::new()];
    assert_eq!(st.process_substitutions("x`y`z", &outs), Some("xz".to_string()));
}

#[test]
fn command_words_and_result() {
    assert_eq!(
        SubstitutionProcessor::command_words("  ls\t-la  /tmp "),
        vec!["ls".to_string(), "-la".to_string(), "/tmp".to_string()]
    );
    assert!(SubstitutionProcessor::command_words("   ").is_empty());
    assert_eq!(SubstitutionProcessor::command_result(" out\n", "err \n"), "out\nerr");
}

#[test]
fn substitution_state_accessors() {
    let mut st = SubstitutionState::default();
    assert!(!st.is_substitution_mode());
    st.set_substitution_mode(true);
    st.set_depth(2);
    st.set_buffer("buf".to_string());
    assert!(st.is_substitution_mode());
    assert_eq!(st.get_depth(), 2);
    assert_eq!(st.get_buffer(), "buf");
}

#[test]
fn own_text_put_back_gives_the_line() {
    let line = "a $(ls) `pwd` b";
    let subs = SubstitutionProcessor::detect_command_substitutions(line);
    let chars: Vec<char> = line.chars().collect();
    let outs: Vec<String> = subs.iter().map(|(s, e, _)| chars[*s..*e].iter().collect()).collect();
    assert_eq!(
        SubstitutionProcessor::process_command_substitutions(line, &outs),
        Some(line.to_string())
    );
}

#[test]
fn delimiter_line_closes_the_heredoc() {
    let state = HeredocProcessor::update_heredoc_state(HeredocState::default(), "cat  <<END  | wc");
    let d = state.get_delimiter();
    assert!(HeredocProcessor::is_heredoc_delimiter(&state, &d));
    assert!(HeredocProcessor::is_heredoc_delimiter(&state, &format!("\t{} ", d)));
}

#[test]
fn quoted_delimiters_leave_their_quotes_out() {
    assert_eq!(HeredocProcessor::detect_heredoc("cat <<'EOF'"), Some(("EOF".to_string(), false)));
    assert_eq!(HeredocProcessor::detect_heredoc("cat <<\"EOF\""), Some(("EOF".to_string(), false)));
    assert_eq!(HeredocProcessor::detect_heredoc("cat <<'EOF"), Some(("EOF".to_string(), false)));
    assert_eq!(HeredocProcessor::detect_heredoc("cat <<EOF"), Some(("EOF".to_string(), true)));
    let state = HeredocProcessor::update_heredoc_state(HeredocState::default(), "cat <<'END'");
    assert!(HeredocProcessor::is_heredoc_delimiter(&state, "END"));
}

#[test]
fn entered_lines_collect_a_heredoc_then_run_it() {
    let env = vec![("X".to_string(), "42".to_string())];
    let st = InputState { heredoc: HeredocState::default(), pending: String::new() };
    let (st, a) = enter_line(st, "echo hi", &env);
    assert!(matches!(a, LineAction::Run(ref c) if c == "echo hi"));
    let (st, a) = enter_line(st, "cat <<EOF", &env);
    assert!(matches!(a, LineAction::Wait));
    let (st, a) = enter_line(st, "x is $X", &env);
    assert!(matches!(a, LineAction::Wait));
    let (st, a) = enter_line(st, " EOF ", &env);
    assert!(matches!(a, LineAction::Run(ref c) if c == "cat <<EOF\nx is 42\n"));
    assert!(!st.heredoc.is_heredoc());
    assert_eq!(st.pending, "");
}
