use whisper_input::tool::truncate_initial_prompt;

#[test]
fn initial_prompt_is_truncated_to_reasonable_size() {
    let input = "x".repeat(800);
    let output = truncate_initial_prompt(&input);
    assert_eq!(output.len(), 512);
}

#[test]
fn short_prompt_is_kept_and_truncation_counts_characters() {
    assert_eq!(truncate_initial_prompt("hello"), "hello");
    let input = "é".repeat(600);
    let output = truncate_initial_prompt(&input);
    assert_eq!(output.chars().count(), 512);
    assert_eq!(truncate_initial_prompt(&output), output);
}
