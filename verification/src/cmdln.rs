//! Turning the outcome of a shell command into the text shown to the user.

use vstd::prelude::*;
use vstd::utf8::{decode_utf8, valid_utf8};

verus! {

/// What a finished shell command left behind.
#[derive(Debug, Clone, PartialEq, Eq)]
pub struct CommandOutput {
    /// Whether the command reported success.
    pub success: bool,
    /// The bytes written to standard output.
    pub stdout: Vec<u8>,
    /// The bytes written to standard error.
    pub stderr: Vec<u8>,
}

/// Decides how the result of a shell command is reported.
#[derive(Debug, Clone, PartialEq, Eq)]
pub struct CommandLineHandler {
    exit_on_error: bool,
}

/// The text that a lossy UTF-8 conversion makes of `bytes`.
pub uninterp spec fn spec_lossy_text(bytes: Seq<u8>) -> Seq<char>;

/// The contribution of one output stream to the report of a failed command:
/// its text when it holds well-formed UTF-8, and nothing otherwise.
pub open spec fn spec_stream_text(bytes: Seq<u8>) -> Seq<char> {
    if bytes.len() > 0 && valid_utf8(bytes) {
        decode_utf8(bytes)
    } else {
        Seq::empty()
    }
}

/// The report of a failed command: standard error first, then standard output.
pub open spec fn spec_failure_text(output: CommandOutput) -> Seq<char> {
    spec_stream_text(output.stderr@) + spec_stream_text(output.stdout@)
}

/// `String::from_utf8_lossy`: the conversion never fails, and on well-formed
/// UTF-8 it is the plain decoding.
#[verifier::external_body]
fn lossy_text(bytes: &Vec<u8>) -> (text: String)
    ensures
        text@ == spec_lossy_text(bytes@),
        valid_utf8(bytes@) ==> text@ == decode_utf8(bytes@),
{
    String::from_utf8_lossy(bytes).to_string()
}

/// `String::from_utf8`: succeeds exactly on well-formed UTF-8 and then yields
/// the decoded text.
#[verifier::external_body]
fn strict_text(bytes: &Vec<u8>) -> (text: Option<String>)
    ensures
        text is Some <==> valid_utf8(bytes@),
        text matches Some(t) ==> t@ == decode_utf8(bytes@),
{
    String::from_utf8(bytes.clone()).ok()
}

impl CommandLineHandler {
    /// Whether a failed command ends the invocation.
    pub closed spec fn exits_on_error(&self) -> bool {
        self.exit_on_error
    }

    /// A handler that reports failures instead of ending the invocation.
    pub fn new() -> (handler: CommandLineHandler)
        ensures
            !handler.exits_on_error(),
    {
        CommandLineHandler { exit_on_error: false }
    }

    /// Chooses whether a failed command ends the invocation.
    pub fn set_exit_on_error(&mut self, toggle: bool)
        ensures
            final(self).exits_on_error() == toggle,
    {
        self.exit_on_error = toggle;
    }

    /// Appends to `response` what one stream of a failed command contributes.
    fn stream_handler(bytes: &Vec<u8>, response: &mut String)
        ensures
            final(response)@ == old(response)@ + spec_stream_text(bytes@),
    {
        if bytes.len() > 0 {
            match strict_text(bytes) {
                Some(text) => {
                    response.append(text.as_str());
                },
                None => {},
            }
        }
    }

    /// Reports a finished command.
    ///
    /// A successful command yields its standard output, converted lossily:
    /// as it is when it is well-formed UTF-8.
    /// A failed one yields what its two streams held as text; that text is
    /// the error when the handler is set to exit on errors, and the ordinary
    /// result otherwise.
    pub fn process_cmd_result(&self, output: &CommandOutput) -> (result: Result<String, String>)
        ensures
            output.success ==> result is Ok && result->Ok_0@ == spec_lossy_text(output.stdout@),
            output.success && valid_utf8(output.stdout@) ==> result->Ok_0@ == decode_utf8(
                output.stdout@,
            ),
            !output.success && !self.exits_on_error() ==> result is Ok && result->Ok_0@
                == spec_failure_text(*output),
            !output.success && self.exits_on_error() ==> result is Err && result->Err_0@
                == spec_failure_text(*output),
    {
        if output.success {
            Ok(lossy_text(&output.stdout))
        } else {
            let mut response = String::new();
            Self::stream_handler(&output.stderr, &mut response);
            Self::stream_handler(&output.stdout, &mut response);
            if self.exit_on_error {
                Err(response)
            } else {
                Ok(response)
            }
        }
    }
}

impl Default for CommandLineHandler {
    fn default() -> (handler: CommandLineHandler)
        ensures
            !handler.exits_on_error(),
    {
        CommandLineHandler::new()
    }
}

} // verus!
