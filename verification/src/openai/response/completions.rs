//! The completions that the service generated.

use vstd::prelude::*;

use crate::openai::json::{Json, JsonView};
use crate::openai::response::{read_list, spec_read_list, spec_views, FromDocument};

verus! {

/// One generated completion.
#[derive(Debug, Clone, PartialEq, Eq)]
pub struct Choice {
    /// The generated text.
    pub text: String,
}

/// The answer to a completion request.
#[derive(Debug, Clone, PartialEq, Eq)]
pub struct OpenAICompletionsResponse {
    /// The generated completions, in the order of the answer.
    pub choices: Vec<Choice>,
}

/// `text` without the blank line that the service puts in front of a
/// completion: one leading pair of newlines is dropped, and nothing else.
pub open spec fn spec_without_leading_break(text: Seq<char>) -> Seq<char> {
    if text.len() >= 2 && text[0] == '\n' && text[1] == '\n' {
        text.subrange(2, text.len() as int)
    } else {
        text
    }
}

impl View for Choice {
    type V = Seq<char>;

    open spec fn view(&self) -> Seq<char> {
        self.text@
    }
}

impl View for OpenAICompletionsResponse {
    type V = Seq<Seq<char>>;

    open spec fn view(&self) -> Seq<Seq<char>> {
        spec_views(self.choices@)
    }
}

impl FromDocument for Choice {
    open spec fn spec_read(document: JsonView) -> Option<Seq<char>> {
        document.spec_get_text("text"@)
    }

    fn read(document: &Json) -> (value: Option<Choice>) {
        match document.member_text("text") {
            Some(text) => Some(Choice { text: text.clone() }),
            None => None,
        }
    }
}

impl FromDocument for OpenAICompletionsResponse {
    open spec fn spec_read(document: JsonView) -> Option<Seq<Seq<char>>> {
        spec_read_list::<Choice>(document, "choices"@)
    }

    fn read(document: &Json) -> (value: Option<OpenAICompletionsResponse>) {
        match read_list::<Choice>(document, "choices") {
            Some(choices) => Some(OpenAICompletionsResponse { choices }),
            None => None,
        }
    }
}

impl Choice {
    /// The generated text without the blank line in front of it.
    pub fn remove_newline_prepend(self) -> (text: String)
        ensures
            text@ == spec_without_leading_break(self@),
    {
        let length = self.text.as_str().unicode_len();
        if length >= 2 && self.text.as_str().get_char(0) == '\n' && self.text.as_str().get_char(1)
            == '\n' {
            String::from_str(self.text.as_str().substring_char(2, length))
        } else {
            self.text
        }
    }
}

/// The lines that show a run of completions. Each completion is shown
/// without the blank line in front of it; a single completion is shown as it
/// is, and each of several behind `label`.
pub open spec fn spec_choice_lines(choices: Seq<Seq<char>>, label: Seq<char>) -> Seq<Seq<char>> {
    Seq::new(
        choices.len(),
        |i: int|
            if choices.len() == 1 {
                spec_without_leading_break(choices[i])
            } else {
                label + spec_without_leading_break(choices[i])
            },
    )
}

/// The lines that show a run of completions.
pub fn choice_lines(choices: &Vec<Choice>, label: &str) -> (lines: Vec<String>)
    ensures
        spec_views(lines@) == spec_choice_lines(spec_views(choices@), label@),
{
    let mut lines: Vec<String> = Vec::new();
    let single = choices.len() == 1;
    let mut i: usize = 0;
    while i < choices.len()
        invariant
            i <= choices.len(),
            lines.len() == i,
            single == (choices.len() == 1),
            forall|k: int|
                0 <= k < i ==> (#[trigger] lines[k])@ == spec_choice_lines(
                    spec_views(choices@),
                    label@,
                )[k],
        decreases choices.len() - i,
    {
        let text = Choice { text: choices[i].text.clone() }.remove_newline_prepend();
        if single {
            lines.push(text);
        } else {
            lines.push(String::from_str(label).concat(text.as_str()));
        }
        i = i + 1;
    }
    assert(spec_views(lines@) =~= spec_choice_lines(spec_views(choices@), label@));
    lines
}

impl OpenAICompletionsResponse {
    /// The lines that show the completions to the caller.
    pub fn choice_lines(&self) -> (lines: Vec<String>)
        ensures
            spec_views(lines@) == spec_choice_lines(self@, "OpenAI Response: "@),
    {
        choice_lines(&self.choices, "OpenAI Response: ")
    }
}

} // verus!
