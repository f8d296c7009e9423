//! Clean-up of a model's reply before its action is read.
use vstd::prelude::*;
use crate::pattern::{first_capture, pattern_valid, Pattern};
use crate::text::{after_str, before_str, chars_of, contains_str, infix, after_first, take_before, trim, trimmed, string_of};

verus! {

pub struct CommandExecutor;

pub open spec fn code_block_pattern() -> Seq<char> {
    "```(?:json)?\\s*\\n([\\s\\S]*?)\\n```"@
}

/// A reply without a leading thinking section: the text after the first
/// `</think>`, up to any second one, trimmed.
pub open spec fn without_thinking(r: Seq<char>) -> Seq<char> {
    if infix(r, "<think>"@) && infix(r, "</think>"@) {
        trim(take_before(after_first(r, "</think>"@), "</think>"@))
    } else {
        r
    }
}

/// The reply reduced to the body of its first fenced code block, trimmed,
/// where it has one.
pub open spec fn cleaned_reply(r: Seq<char>) -> Seq<char> {
    let w = without_thinking(r);
    if pattern_valid(code_block_pattern()) {
        match first_capture(code_block_pattern(), w, 1) {
            Some(x) => trim(x),
            None => w,
        }
    } else {
        w
    }
}

impl CommandExecutor {
    pub fn new() -> (r: Self) {
        CommandExecutor
    }

    /// A model's reply without thinking section and code fence.
    pub fn clean_llm_response(&self, response: &str) -> (r: String)
        ensures
            r@ == cleaned_reply(response@),
    {
        let c = chars_of(response);
        proof {
            reveal_strlit("</think>");
        }
        let w: String = if contains_str(&c, "<think>") && contains_str(&c, "</think>") {
            match after_str(&c, "</think>") {
                Some(rest) => string_of(&trimmed(&before_str(&rest, "</think>"))),
                None => response.to_string(),
            }
        } else {
            response.to_string()
        };
        match Pattern::new("```(?:json)?\\s*\\n([\\s\\S]*?)\\n```") {
            Ok(p) => match p.capture(w.as_str(), 1) {
                Some(x) => string_of(&trimmed(&chars_of(x.as_str()))),
                None => w,
            },
            Err(_) => w,
        }
    }
}

} // verus!
