//! Helpers of the one-shot transcription tool.

use vstd::prelude::*;

verus! {

/// Longest initial prompt, in characters, handed to the decoder.
pub const MAX_INITIAL_PROMPT_CHARS: usize = 512;

/// The first (at most) `MAX_INITIAL_PROMPT_CHARS` characters of a prompt.
pub open spec fn truncated_prompt(prompt: Seq<char>) -> Seq<char> {
    if prompt.len() <= MAX_INITIAL_PROMPT_CHARS {
        prompt
    } else {
        prompt.take(MAX_INITIAL_PROMPT_CHARS as int)
    }
}

/// Truncates prompt text so decode bias stays focused and bounded.
pub fn truncate_initial_prompt(prompt: &str) -> (out: String)
    ensures
        out@ == truncated_prompt(prompt@),
{
    let n = prompt.unicode_len();
    let end = if n <= MAX_INITIAL_PROMPT_CHARS { n } else { MAX_INITIAL_PROMPT_CHARS };
    let out = String::from_str(prompt.substring_char(0, end));
    assert(n <= MAX_INITIAL_PROMPT_CHARS ==> prompt@.subrange(0, end as int) == prompt@);
    out
}


/// A truncated prompt is the prompt's beginning, exactly as long as the
/// prompt up to the limit, and truncating again changes nothing.
pub proof fn law_truncation(prompt: Seq<char>)
    ensures
        truncated_prompt(prompt) == prompt.take(truncated_prompt(prompt).len() as int),
        truncated_prompt(prompt).len() == if prompt.len() <= MAX_INITIAL_PROMPT_CHARS {
            prompt.len()
        } else {
            MAX_INITIAL_PROMPT_CHARS as nat
        },
        truncated_prompt(truncated_prompt(prompt)) == truncated_prompt(prompt),
{
    assert(prompt.take(prompt.len() as int) =~= prompt);
}

} // verus!
