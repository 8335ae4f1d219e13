//! Message and error plumbing around the dialogs: placeholder display
//! hooks, a translation stub, and a minimal error value.
use vstd::prelude::*;

verus! {

/// Displays a message to the user. Placeholder: the display logic is
/// not wired up yet, so nothing happens.
pub fn show_message(_msg: &str) {
}

/// Displays an error to the user. Placeholder: the display logic is
/// not wired up yet, so nothing happens.
pub fn show_error(_err: &str) {
}

/// Translation hook for user-facing text. Placeholder: hands the text
/// back unchanged.
pub fn ttl<'a>(s: &'a str) -> (r: &'a str)
    ensures
        r@ == s@,
{
    s
}

/// A plain error value carrying its message text.
pub struct Error {
    msg: String,
}

impl View for Error {
    type V = Seq<char>;

    closed spec fn view(&self) -> Seq<char> {
        self.msg@
    }
}

impl Error {
    /// An error carrying the given message.
    pub fn msg(msg: &str) -> (r: Self)
        ensures
            r@ == msg@,
    {
        Error { msg: String::from_str(msg) }
    }

    /// The error's text behind a context note, as `context: message`.
    pub fn context(&self, context: &str) -> (r: String)
        ensures
            r@ == context@ + ": "@ + self@,
    {
        let mut s = String::from_str(context);
        s.append(": ");
        s.append(self.msg.as_str());
        s
    }
}

} // verus!
