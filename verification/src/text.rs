//! The text of a line that shows a value.

use vstd::prelude::*;
use vstd::string::StringExecFns;

verus! {

/// The text of a line that shows a value: the message, a colon, a space, and
/// the value as it was rendered.
pub open spec fn labelled(message: Seq<char>, rendered: Seq<char>) -> Seq<char> {
    message + seq![':', ' '] + rendered
}

/// What stands in a line in place of a value that is not there: `None`.
pub open spec fn nothing() -> Seq<char> {
    seq!['N', 'o', 'n', 'e']
}

/// Renders a value with `format!("{:?}", ..)`. What comes out is up to the
/// value's `Debug` impl, so nothing is claimed of it. `Debug` is taken to do
/// what the trait asks of it: an impl that reports an error where the writer
/// reported none makes `format!` panic.
#[verifier::external_body]
fn debug_rendering<T: core::fmt::Debug>(value: &T) -> String {
    format!("{:?}", value)
}

/// Whether `rendered` is what `Debug` made of `value` when it was asked.
/// This says nothing of what a rendering looks like, nor that `Debug` gives
/// the same one twice: it ties a text to the value that it came from.
pub closed spec fn renders<T: core::fmt::Debug>(value: T, rendered: Seq<char>) -> bool {
    exists|text: String|
        text@ == rendered && #[trigger] call_ensures(debug_rendering::<T>, (&value,), text)
}

/// Renders a value through `Debug`.
pub fn render<T: core::fmt::Debug>(value: &T) -> (text: String)
    ensures
        renders(*value, text@),
{
    debug_rendering(value)
}

/// Puts a message in front of a rendered value.
pub fn label(message: &str, rendered: &str) -> (text: String)
    ensures
        text@ == labelled(message@, rendered@),
{
    proof {
        reveal_strlit(": ");
        assert(": "@ =~= seq![':', ' ']);
    }
    let mut text = String::from_str(message);
    text.append(": ");
    text.append(rendered);
    text
}

/// Puts a message in front of the mark of a missing value.
pub fn label_nothing(message: &str) -> (text: String)
    ensures
        text@ == labelled(message@, nothing()),
{
    proof {
        reveal_strlit("None");
        assert("None"@ =~= nothing());
    }
    label(message, "None")
}

} // verus!
