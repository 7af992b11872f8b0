//! The failure that every fallible operation of the tool reports.

use vstd::prelude::*;
use vstd::string::*;

verus! {

/// Sequence of the views of the strings in `items`.
pub open spec fn texts(items: Seq<String>) -> Seq<Seq<char>> {
    Seq::new(items.len(), |i: int| items[i]@)
}

/// What an [`Error`] holds, as mathematical values.
pub struct ErrorView {
    /// The exit code the process should end with.
    pub code: int,
    /// The text shown to the user, if there is any.
    pub message: Option<Seq<char>>,
    /// The descriptions of the operations that failed, innermost first.
    pub context: Seq<Seq<char>>,
}

/// A failure: an exit code, an optional message, and the chain of higher-level operations
/// that were under way when it happened.
#[derive(Debug)]
pub struct Error {
    /// The exit code the process should end with.
    pub code: i32,
    /// The text shown to the user, if there is any.
    pub message: Option<String>,
    /// The descriptions of the operations that failed, innermost first.
    pub context: Vec<String>,
}

impl View for Error {
    type V = ErrorView;

    open spec fn view(&self) -> ErrorView {
        ErrorView {
            code: self.code as int,
            message: match self.message {
                Some(text) => Some(text@),
                None => None,
            },
            context: texts(self.context@),
        }
    }
}

/// The view of a result whose failure is an [`Error`] and whose success carries nothing.
pub open spec fn unit_result_view(result: Result<(), Error>) -> Result<(), ErrorView> {
    match result {
        Ok(_) => Ok(()),
        Err(error) => Err(error@),
    }
}

/// The view of a result whose failure is an [`Error`] and whose success is a text.
pub open spec fn text_result_view(result: Result<String, Error>) -> Result<Seq<char>, ErrorView> {
    match result {
        Ok(text) => Ok(text@),
        Err(error) => Err(error@),
    }
}

/// The descriptions of `context`, each on a line of its own, the outermost operation first.
pub open spec fn context_lines(context: Seq<Seq<char>>) -> Seq<char>
    decreases context.len(),
{
    if context.len() == 0 {
        Seq::empty()
    } else {
        context.last() + "\n"@ + context_lines(context.drop_last())
    }
}

/// What the user is shown of a failure: the operations that failed, outermost first, then
/// the message where there is one, each on a line of its own.
pub open spec fn report_text(error: ErrorView) -> Seq<char> {
    context_lines(error.context) + match error.message {
        Some(message) => message + "\n"@,
        None => Seq::empty(),
    }
}

impl Error {
    /// A failure with the given exit code, no message and no context.
    pub fn new(code: i32) -> (error: Error)
        ensures
            error@ == (ErrorView { code: code as int, message: None, context: Seq::empty() }),
    {
        let error = Error { code, message: None, context: Vec::new() };
        assert(texts(error.context@) =~= Seq::empty());
        error
    }

    /// Sets the message, replacing an earlier one.
    pub fn with_message(self, message: String) -> (error: Error)
        ensures
            error@ == (ErrorView { message: Some(message@), ..self@ }),
    {
        Error { code: self.code, message: Some(message), context: self.context }
    }

    /// Adds the description of the operation that failed because of this error.
    pub fn with_context(self, context: String) -> (error: Error)
        ensures
            error@ == (ErrorView { context: self@.context.push(context@), ..self@ }),
    {
        let mut chain = self.context;
        chain.push(context);
        let error = Error { code: self.code, message: self.message, context: chain };
        assert(texts(error.context@) =~= self@.context.push(context@));
        error
    }

    /// The text to show the user: the operations that failed, outermost first, then the
    /// message where there is one, each on a line of its own. A failure with neither gives
    /// the empty text.
    pub fn report(&self) -> (text: String)
        ensures
            text@ == report_text(self@),
    {
        let ghost all = texts(self.context@);
        let mut text = String::new();
        let mut i: usize = self.context.len();
        assert(all.take(i as int) =~= all);
        while i > 0
            invariant
                i <= self.context.len(),
                all == texts(self.context@),
                text@ + context_lines(all.take(i as int)) == context_lines(all),
            decreases i,
        {
            proof {
                let front = all.take(i as int);
                assert(front.last() == self.context@[i - 1]@);
                assert(front.drop_last() =~= all.take(i - 1));
                assert(text@ + (front.last() + "\n"@ + context_lines(front.drop_last()))
                    =~= text@ + front.last() + "\n"@ + context_lines(front.drop_last()));
            }
            i -= 1;
            text.append(self.context[i].as_str());
            text.append("\n");
        }
        assert(text@ + context_lines(all.take(0)) =~= text@);
        match &self.message {
            Some(message) => {
                text.append(message.as_str());
                text.append("\n");
                assert(text@ =~= report_text(self@));
            },
            None => {
                assert(text@ =~= report_text(self@));
            },
        }
        text
    }

    /// The exit code.
    pub fn code(&self) -> (code: i32)
        ensures
            code as int == self@.code,
    {
        self.code
    }
}

} // verus!
