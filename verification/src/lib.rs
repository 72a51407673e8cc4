//! Command handlers for a desktop application shell.
//!
//! The front end invokes two named commands: `greet`, which wraps a caller's
//! name in a fixed greeting template, and `process_image`, which wraps a file
//! path in a fixed status message. Both are pure string formatters; the
//! contracts pin each result down to the exact sequence of characters.

use vstd::prelude::*;

verus! {

/// The exact text `greet` returns for a given name: a fixed prefix, the name
/// verbatim, and a fixed suffix.
pub open spec fn greeting_of(name: Seq<char>) -> Seq<char> {
    "Hello, "@ + name + "! You've been greeted from Rust!"@
}

/// The exact text `process_image` returns on success for a given path: a fixed
/// prefix followed by the path verbatim.
pub open spec fn processed_of(path: Seq<char>) -> Seq<char> {
    "Processing image: "@ + path
}

/// Formats the greeting for `name`.
pub fn greet(name: &str) -> (r: String)
    ensures
        r@ == greeting_of(name@),
{
    let mut s = String::from_str("Hello, ");
    s.append(name);
    s.append("! You've been greeted from Rust!");
    s
}

/// Wraps `file_path` in the processing status message. No file is opened and
/// no path is rejected: every input yields `Ok`.
pub fn process_image(file_path: String) -> (r: Result<String, String>)
    ensures
        r is Ok,
        r->Ok_0@ == processed_of(file_path@),
{
    let mut s = String::from_str("Processing image: ");
    s.append(file_path.as_str());
    Ok(s)
}

/// Law: the greeting embeds the name verbatim — the characters between the
/// fixed prefix and suffix are exactly `name`.
pub proof fn lemma_greeting_embeds_name(name: Seq<char>)
    ensures
        greeting_of(name).subrange(
            "Hello, "@.len() as int,
            "Hello, "@.len() + name.len() as int,
        ) == name,
{
    assert(greeting_of(name).subrange(
        "Hello, "@.len() as int,
        "Hello, "@.len() + name.len() as int,
    ) =~= name);
}

/// Law: the success message embeds the path verbatim — everything after the
/// fixed prefix is exactly `path`.
pub proof fn lemma_processed_embeds_path(path: Seq<char>)
    ensures
        processed_of(path).subrange(
            "Processing image: "@.len() as int,
            "Processing image: "@.len() + path.len() as int,
        ) == path,
{
    assert(processed_of(path).subrange(
        "Processing image: "@.len() as int,
        "Processing image: "@.len() + path.len() as int,
    ) =~= path);
}

/// Law: `greet` is stateless and idempotent — any two invocations on the same
/// name return the same string, since the contract determines the result from
/// the name alone.
pub proof fn lemma_greet_repeatable(name: Seq<char>, first: Seq<char>, second: Seq<char>)
    requires
        first == greeting_of(name),
        second == greeting_of(name),
    ensures
        first == second,
{
}

/// Law: `process_image` is stateless and idempotent — any two invocations on
/// the same path succeed with the same string, since the contract determines
/// the result from the path alone.
pub proof fn lemma_process_image_repeatable(path: Seq<char>, first: Seq<char>, second: Seq<char>)
    requires
        first == processed_of(path),
        second == processed_of(path),
    ensures
        first == second,
{
}

} // verus!
