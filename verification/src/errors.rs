//! The error that the bundling of a project reports: a class, such as
//! `Error`, and a message.

use vstd::prelude::*;
use vstd::string::*;
use colored::Colorize;
use crate::text::{has_suffix, joined};

verus! {

/// An error of a class, with its message.
#[derive(Debug)]
pub struct CustomError {
    class: String,
    message: String,
}

/// `colored::Colorize::red` and `bold`, written out: the class as it is
/// shown on a terminal. Whether it carries colour codes depends on the
/// terminal and the environment, so nothing is said of the text.
#[verifier::external_body]
pub(crate) fn highlighted(class: &str) -> String {
    class.red().bold().to_string()
}

impl CustomError {
    /// The class of the error.
    pub closed spec fn class_text(&self) -> Seq<char> {
        self.class@
    }

    /// The message of the error.
    pub closed spec fn message_text(&self) -> Seq<char> {
        self.message@
    }

    /// The error of `class` with `message`.
    pub fn new(class: &str, message: &str) -> (error: CustomError)
        ensures
            error.class_text() == class@,
            error.message_text() == message@,
    {
        CustomError { class: class.to_owned(), message: message.to_owned() }
    }

    /// The class of the error.
    pub fn class(&self) -> (class: &str)
        ensures
            class@ == self.class_text(),
    {
        self.class.as_str()
    }

    /// The message of the error.
    pub fn message(&self) -> (message: &str)
        ensures
            message@ == self.message_text(),
    {
        self.message.as_str()
    }

    /// The line that reports the error, where `shown_class` is the class as
    /// it is to be shown: the class, a colon and a space, the message.
    pub fn render(&self, shown_class: &str) -> (line: String)
        ensures
            line@ == shown_class@ + ": "@ + self.message_text(),
    {
        joined(shown_class, ": ").concat(self.message.as_str())
    }

    /// The line that reports the error on a terminal, the class
    /// highlighted.
    pub fn to_string(&self) -> (line: String)
        ensures
            has_suffix(line@, ": "@ + self.message_text()),
    {
        let shown = highlighted(self.class.as_str());
        let line = self.render(shown.as_str());
        proof {
            let tail = ": "@ + self.message_text();
            assert(line@ == shown@ + tail);
            assert(line@.subrange(line@.len() - tail.len(), line@.len() as int) =~= tail);
        }
        line
    }
}

/// An error of the class `Error`.
pub fn generic_error(message: &str) -> (error: CustomError)
    ensures
        error.class_text() == "Error"@,
        error.message_text() == message@,
{
    CustomError::new("Error", message)
}

} // verus!
