//! What the entry points of the hosting contract decide: which action a
//! request names, and the text that answers an evaluation. Reading the
//! request, running the evaluator and sending the answer are the host's
//! part.

use vstd::prelude::*;

verus! {

/// What a request asks for.
#[derive(Clone, Copy, Debug, PartialEq, Eq)]
pub enum Action {
    /// Evaluate the source text that follows in the request.
    Evaluate,
    /// Answer with the built-in test case.
    Testcase,
}

/// The bytes of the word `evaluate`.
pub open spec fn evaluate_word() -> Seq<u8> {
    seq![101u8, 118u8, 97u8, 108u8, 117u8, 97u8, 116u8, 101u8]
}

/// The bytes of the word `testcase`.
pub open spec fn testcase_word() -> Seq<u8> {
    seq![116u8, 101u8, 115u8, 116u8, 99u8, 97u8, 115u8, 101u8]
}

/// The action that `name` stands for.
pub open spec fn action_of(name: Seq<u8>) -> Option<Action> {
    if name == evaluate_word() {
        Some(Action::Evaluate)
    } else if name == testcase_word() {
        Some(Action::Testcase)
    } else {
        None
    }
}

/// Whether `name` is the eight bytes of `word`.
fn is_word(name: &[u8], word: &[u8; 8]) -> (same: bool)
    ensures
        same == (name@ == word@),
{
    if name.len() != 8 {
        return false;
    }
    let mut i: usize = 0;
    while i < 8
        invariant
            i <= 8,
            name@.len() == 8,
            forall|j: int| 0 <= j < i ==> name@[j] == word@[j],
        decreases 8 - i,
    {
        if name[i] != word[i] {
            return false;
        }
        i += 1;
    }
    assert(name@ =~= word@);
    true
}

/// The action that a request names, or `None` where it names none that is
/// supported.
pub fn dispatch(name: &[u8]) -> (action: Option<Action>)
    ensures
        action == action_of(name@),
{
    let evaluate: [u8; 8] = [101, 118, 97, 108, 117, 97, 116, 101];
    let testcase: [u8; 8] = [116, 101, 115, 116, 99, 97, 115, 101];
    assert(evaluate@ =~= evaluate_word());
    assert(testcase@ =~= testcase_word());
    if is_word(name, &evaluate) {
        Some(Action::Evaluate)
    } else if is_word(name, &testcase) {
        Some(Action::Testcase)
    } else {
        None
    }
}

/// `String::push_str` of the standard library: `text` afterwards holds what
/// it held before, followed by the characters of `tail`.
#[verifier::external_body]
fn push_str(text: &mut String, tail: &str)
    ensures
        final(text)@ == old(text)@ + tail@,
{
    text.push_str(tail)
}

/// The text `label`, a colon, a space and then `message`.
fn labelled(label: &str, message: &str) -> (text: String)
    ensures
        text@ == label@ + ": "@ + message@,
{
    let mut text = label.to_owned();
    push_str(&mut text, ": ");
    push_str(&mut text, message);
    text
}

/// The answer of an interpreter that was handed a source text and ran it:
/// the value as it is, an error behind the label `Error`.
pub fn forward(outcome: Result<String, String>) -> (text: String)
    ensures
        outcome matches Ok(value) ==> text@ == value@,
        outcome matches Err(error) ==> text@ == "Error: "@ + error@,
{
    match outcome {
        Ok(value) => value,
        Err(error) => {
            proof {
                reveal_strlit("Error");
                reveal_strlit(": ");
                reveal_strlit("Error: ");
                assert("Error"@ + ": "@ =~= "Error: "@);
            }
            labelled("Error", error.as_str())
        },
    }
}

/// The answer to a request for evaluation. `outcome` is `None` where the
/// source text did not parse, else what running it gave: the value as it
/// is, an error behind the label `error`.
pub fn evaluate(outcome: Option<Result<String, String>>) -> (text: String)
    ensures
        outcome is None ==> text@ == "parsing failed"@,
        outcome matches Some(Ok(value)) ==> text@ == value@,
        outcome matches Some(Err(error)) ==> text@ == "error: "@ + error@,
{
    match outcome {
        None => "parsing failed".to_owned(),
        Some(Ok(value)) => value,
        Some(Err(error)) => {
            proof {
                reveal_strlit("error");
                reveal_strlit(": ");
                reveal_strlit("error: ");
                assert("error"@ + ": "@ =~= "error: "@);
            }
            labelled("error", error.as_str())
        },
    }
}

/// The built-in test case: one call of `evaluate` on `1+2`, which is to
/// give `3`.
pub fn testcase() -> (text: String)
    ensures
        text@ == r#"
    [
        [{"method":"evaluate", "param":"string:1+2", "expected":"string:3"},
        ]
    ]
        "#@,
{
    r#"
    [
        [{"method":"evaluate", "param":"string:1+2", "expected":"string:3"},
        ]
    ]
        "#.to_owned()
}

} // verus!
