//! The options that the caller gave on the command line, and what follows
//! from them: where the prompt comes from, who the end user is, and which
//! request is made.

pub mod audio;
pub mod embeddings;
pub mod files;
pub mod finetune;
pub mod images;
pub mod models;
pub mod select;

use vstd::prelude::*;

pub use audio::CliAudio;
pub use embeddings::CliEmbeddings;
pub use files::CliFiles;
pub use finetune::CliFineTune;
pub use images::CliImage;
pub use models::CliModels;

use crate::openai::failure::Failure;

verus! {

/// The operation that the caller named, with its options.
#[derive(Debug, Clone, PartialEq, Eq)]
pub enum CliRequest {
    /// The operations on models.
    CliModels(CliModels),
    /// The operations on files.
    CliFiles(CliFiles),
    /// The operations on fine-tune jobs.
    CliFineTune(CliFineTune),
    /// The operations on audio files.
    CliAudio(CliAudio),
    /// The operations on images.
    CliImage(CliImage),
}

/// The options of the command line. Without a named operation they ask for
/// the completion of a prompt.
#[derive(Debug, Clone, PartialEq, Eq)]
pub struct CliInterface {
    /// How talkative the log is.
    pub verbose: u8,
    /// The text to complete, or a reference to the file that holds it.
    pub prompt: Option<String>,
    /// How to edit the prompt, or a reference to the file that says so.
    pub instruction: Option<String>,
    /// The model that completes the prompt.
    pub model: String,
    /// The most tokens that the completion may hold.
    pub max_tokens: usize,
    /// The sampling temperature, as decimal text.
    pub temperature: String,
    /// The bearer token of the account.
    pub api_auth_token: Option<String>,
    /// The end user on whose behalf requests are made.
    pub user: Option<String>,
    /// The text that follows the completion.
    pub suffix: Option<String>,
    /// The nucleus-sampling mass, as decimal text.
    pub top_p: String,
    /// How many completions to generate.
    pub n: u32,
    /// Whether partial progress is streamed back.
    pub stream: bool,
    /// How many of the most likely tokens are reported with their probabilities.
    pub logprobs: Option<u32>,
    /// Whether the prompt is echoed back in front of the completion.
    pub echo: bool,
    /// The sequences at which the completion stops.
    pub stop: Option<Vec<String>>,
    /// The penalty on tokens that appeared so far, as decimal text.
    pub presence_penalty: String,
    /// The penalty on tokens by their frequency so far, as decimal text.
    pub frequency_penalty: String,
    /// How many completions the service generates to pick the best from.
    pub best_of: u32,
    /// How likely given tokens are to appear.
    pub logit_bias: Option<String>,
    /// The operation that the caller named.
    pub args: Option<CliRequest>,
}

/// How the prompt is obtained.
#[derive(Debug, Clone, PartialEq, Eq)]
pub enum PromptPlan {
    /// The prompt is at hand.
    Ready(String),
    /// The prompt refers to a file: the prompt is the content of the file
    /// at `path`, or `fallback` when that file cannot be read.
    ReadFile { path: String, fallback: String },
    /// No prompt was given and something is piped in: the prompt is what
    /// standard input holds.
    ReadInput,
    /// No prompt was given and nothing is piped in: the caller is shown how
    /// to use the program, and the invocation ends.
    ShowHelp,
}

/// The mathematical value of a [`PromptPlan`].
pub enum PromptPlanView {
    Ready(Seq<char>),
    ReadFile { path: Seq<char>, fallback: Seq<char> },
    ReadInput,
    ShowHelp,
}

impl View for PromptPlan {
    type V = PromptPlanView;

    open spec fn view(&self) -> PromptPlanView {
        match self {
            PromptPlan::Ready(prompt) => PromptPlanView::Ready(prompt@),
            PromptPlan::ReadFile { path, fallback } => PromptPlanView::ReadFile {
                path: path@,
                fallback: fallback@,
            },
            PromptPlan::ReadInput => PromptPlanView::ReadInput,
            PromptPlan::ShowHelp => PromptPlanView::ShowHelp,
        }
    }
}

/// The path of the file that a text refers to. A text that begins with `@`
/// refers to a file; the path is the text without its `@` characters.
pub open spec fn spec_file_reference(text: Seq<char>) -> Option<Seq<char>> {
    if text.len() > 0 && text[0] == '@' {
        Some(text.filter(|c: char| c != '@'))
    } else {
        None
    }
}

/// What a text stands for once the file that it may refer to has been
/// looked at: the content of that file if the text refers to one and it was
/// read, and the text itself otherwise.
pub open spec fn spec_followed(text: Seq<char>, content: Option<Seq<char>>) -> Seq<char> {
    match (spec_file_reference(text), content) {
        (Some(_), Some(read)) => read,
        _ => text,
    }
}

/// The lines of a text put together without anything between them.
pub open spec fn spec_joined(lines: Seq<String>) -> Seq<char>
    decreases lines.len(),
{
    if lines.len() == 0 {
        Seq::empty()
    } else {
        spec_joined(lines.drop_last()) + lines.last()@
    }
}

/// `whoami::username`: the name under which the caller is logged in.
#[verifier::external_body]
pub(crate) fn system_username() -> (name: String) {
    whoami::username()
}

/// `atty::is` on standard input: whether standard input is a terminal.
#[verifier::external_body]
fn stdin_is_terminal() -> (terminal: bool) {
    atty::is(atty::Stream::Stdin)
}

/// `str::replace` of one character by nothing: the text without that character.
#[verifier::external_body]
fn without_char(text: &str, unwanted: char) -> (rest: String)
    ensures
        rest@ == text@.filter(|c: char| c != unwanted),
{
    text.replace(unwanted, "")
}

/// The path of the file that a text refers to.
pub fn file_reference(text: &str) -> (path: Option<String>)
    ensures
        path matches Some(p) ==> spec_file_reference(text@) == Some(p@),
        path is None ==> spec_file_reference(text@) is None,
{
    if !text.is_empty() && text.get_char(0) == '@' {
        Some(without_char(text, '@'))
    } else {
        None
    }
}

/// What a text stands for once the file that it may refer to has been
/// looked at.
pub fn followed(text: &String, content: Option<String>) -> (result: String)
    ensures
        result@ == spec_followed(
            text@,
            match content {
                Some(read) => Some(read@),
                None => None,
            },
        ),
{
    match (file_reference(text.as_str()), content) {
        (Some(_), Some(read)) => read,
        _ => text.clone(),
    }
}

/// Puts the lines of a text together without anything between them.
pub fn joined(lines: &Vec<String>) -> (text: String)
    ensures
        text@ == spec_joined(lines@),
{
    let mut text = String::new();
    let mut i: usize = 0;
    while i < lines.len()
        invariant
            i <= lines.len(),
            text@ == spec_joined(lines@.take(i as int)),
        decreases lines.len() - i,
    {
        assert(lines@.take(i + 1).drop_last() =~= lines@.take(i as int));
        text.append(lines[i].as_str());
        i = i + 1;
    }
    assert(lines@.take(i as int) =~= lines@);
    text
}

impl CliInterface {
    /// How the prompt is obtained, given whether standard input is a terminal.
    pub open spec fn spec_prompt_plan(&self, terminal: bool) -> PromptPlanView {
        match self.prompt {
            Some(prompt) => match spec_file_reference(prompt@) {
                Some(path) => PromptPlanView::ReadFile { path, fallback: prompt@ },
                None => PromptPlanView::Ready(prompt@),
            },
            None => if terminal {
                PromptPlanView::ShowHelp
            } else {
                PromptPlanView::ReadInput
            },
        }
    }

    /// How the prompt is obtained, given whether standard input is a terminal.
    pub fn prompt_with(&self, terminal: bool) -> (plan: PromptPlan)
        ensures
            plan@ == self.spec_prompt_plan(terminal),
    {
        match &self.prompt {
            Some(prompt) => match file_reference(prompt.as_str()) {
                Some(path) => PromptPlan::ReadFile { path, fallback: prompt.clone() },
                None => PromptPlan::Ready(prompt.clone()),
            },
            None => if terminal {
                PromptPlan::ShowHelp
            } else {
                PromptPlan::ReadInput
            },
        }
    }

    /// How the prompt is obtained. Standard input is looked at only when no
    /// prompt was given.
    pub fn prompt(&self) -> (plan: PromptPlan)
        ensures
            plan@ == self.spec_prompt_plan(true) || plan@ == self.spec_prompt_plan(false),
    {
        if self.prompt.is_none() {
            let terminal = stdin_is_terminal();
            self.prompt_with(terminal)
        } else {
            self.prompt_with(false)
        }
    }

    /// The path of the file that the prompt refers to.
    pub fn prompt_file(&self) -> (path: Option<String>)
        ensures
            path matches Some(p) ==> self.prompt matches Some(prompt) && spec_file_reference(
                prompt@,
            ) == Some(p@),
            path is None ==> (self.prompt matches Some(prompt) ==> spec_file_reference(prompt@)
                is None),
    {
        match &self.prompt {
            Some(prompt) => file_reference(prompt.as_str()),
            None => None,
        }
    }

    /// The prompt, once the file that it may refer to has been looked at;
    /// `content` is what that file holds, if it was read.
    pub fn prompt_string(&self, content: Option<String>) -> (prompt: Option<String>)
        ensures
            prompt is Some <==> self.prompt is Some,
            prompt matches Some(p) ==> p@ == spec_followed(
                self.prompt->0@,
                match content {
                    Some(read) => Some(read@),
                    None => None,
                },
            ),
    {
        match &self.prompt {
            Some(prompt) => Some(followed(prompt, content)),
            None => None,
        }
    }

    /// The path of the file that the instruction refers to.
    pub fn instruction_file(&self) -> (path: Option<String>)
        ensures
            path matches Some(p) ==> self.instruction matches Some(instruction)
                && spec_file_reference(instruction@) == Some(p@),
            path is None ==> (self.instruction matches Some(instruction) ==> spec_file_reference(
                instruction@,
            ) is None),
    {
        match &self.instruction {
            Some(instruction) => file_reference(instruction.as_str()),
            None => None,
        }
    }

    /// The instruction, once the file that it may refer to has been looked
    /// at; `content` is what that file holds, if it was read.
    pub fn instruction(&self, content: Option<String>) -> (instruction: Option<String>)
        ensures
            instruction is Some <==> self.instruction is Some,
            instruction matches Some(i) ==> i@ == spec_followed(
                self.instruction->0@,
                match content {
                    Some(read) => Some(read@),
                    None => None,
                },
            ),
    {
        match &self.instruction {
            Some(instruction) => Some(followed(instruction, content)),
            None => None,
        }
    }

    /// Whether a character marks a reference to a file.
    pub fn is_file_flag(&self, segment: char) -> (flag: bool)
        ensures
            flag == (segment == '@'),
    {
        segment == '@'
    }

    /// The end user on whose behalf requests are made: the one that was
    /// given, or else `fallback`.
    pub fn user_or(&self, fallback: String) -> (name: String)
        ensures
            name == match self.user {
                Some(user) => user,
                None => fallback,
            },
    {
        match &self.user {
            Some(user) => user.clone(),
            None => fallback,
        }
    }

    /// The end user on whose behalf requests are made: the one that was
    /// given, or else the name under which the caller is logged in.
    pub fn user(&self) -> (name: String)
        ensures
            self.user matches Some(user) ==> name == user,
    {
        match &self.user {
            Some(user) => user.clone(),
            None => system_username(),
        }
    }

    /// The bearer token of the account. Without one nothing can be asked of
    /// the service: that is a configuration failure.
    pub fn api_auth_token(&self) -> (token: Result<String, Failure>)
        ensures
            token == match self.api_auth_token {
                Some(given) => Ok::<String, Failure>(given),
                None => Err::<String, Failure>(Failure::Configuration),
            },
    {
        match &self.api_auth_token {
            Some(given) => Ok(given.clone()),
            None => Err(Failure::Configuration),
        }
    }

    /// The model that completes the prompt.
    pub fn model(&self) -> (value: String)
        ensures
            value == self.model,
    {
        self.model.clone()
    }

    /// The most tokens that the completion may hold.
    pub fn max_tokens(&self) -> (value: usize)
        ensures
            value == self.max_tokens,
    {
        self.max_tokens
    }

    /// The sampling temperature, as decimal text.
    pub fn temperature(&self) -> (value: String)
        ensures
            value == self.temperature,
    {
        self.temperature.clone()
    }

    /// The text that follows the completion.
    pub fn suffix(&self) -> (value: &Option<String>)
        ensures
            *value == self.suffix,
    {
        &self.suffix
    }

    /// The nucleus-sampling mass, as decimal text.
    pub fn top_p(&self) -> (value: &String)
        ensures
            *value == self.top_p,
    {
        &self.top_p
    }

    /// How many completions to generate.
    pub fn n(&self) -> (value: &u32)
        ensures
            *value == self.n,
    {
        &self.n
    }

    /// Whether partial progress is streamed back.
    pub fn stream(&self) -> (value: &bool)
        ensures
            *value == self.stream,
    {
        &self.stream
    }

    /// How many of the most likely tokens are reported with their probabilities.
    pub fn logprobs(&self) -> (value: &Option<u32>)
        ensures
            *value == self.logprobs,
    {
        &self.logprobs
    }

    /// Whether the prompt is echoed back in front of the completion.
    pub fn echo(&self) -> (value: &bool)
        ensures
            *value == self.echo,
    {
        &self.echo
    }

    /// The sequences at which the completion stops.
    pub fn stop(&self) -> (value: &Option<Vec<String>>)
        ensures
            *value == self.stop,
    {
        &self.stop
    }

    /// The penalty on tokens that appeared so far, as decimal text.
    pub fn presence_penalty(&self) -> (value: &String)
        ensures
            *value == self.presence_penalty,
    {
        &self.presence_penalty
    }

    /// The penalty on tokens by their frequency so far, as decimal text.
    pub fn frequency_penalty(&self) -> (value: &String)
        ensures
            *value == self.frequency_penalty,
    {
        &self.frequency_penalty
    }

    /// How many completions the service generates to pick the best from.
    pub fn best_of(&self) -> (value: &u32)
        ensures
            *value == self.best_of,
    {
        &self.best_of
    }

    /// How likely given tokens are to appear.
    pub fn logit_bias(&self) -> (value: &Option<String>)
        ensures
            *value == self.logit_bias,
    {
        &self.logit_bias
    }
}

} // verus!
