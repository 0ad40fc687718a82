//! Verdicts and diagnostics of the assertion forms.

use vstd::prelude::*;
use vstd::string::*;

verus! {

/// The diagnostic of a failed assertion that was written as `expr` and came
/// with no message of its own.
pub open spec fn failed_message(expr: Seq<char>) -> Seq<char> {
    "assertion failed: "@ + expr
}

/// The diagnostic of a failed assertion: the caller's message where there is
/// one, else the text built from the condition as written.
pub open spec fn assert_message(expr: Seq<char>, message: Option<Seq<char>>) -> Seq<char> {
    match message {
        Some(m) => m,
        None => failed_message(expr),
    }
}

/// Judges the assertion that `cond` holds.
///
/// `expr` is the condition as written and `message` the caller's own
/// diagnostic, if any. The assertion passes exactly when `cond` is true;
/// otherwise the error carries the diagnostic to raise.
pub fn build_assert(cond: bool, expr: &str, message: Option<&str>) -> (verdict: Result<(), String>)
    ensures
        cond <==> verdict is Ok,
        !cond ==> verdict->Err_0@ == assert_message(expr@, text_view(message)),
{
    if cond {
        return Ok(());
    }
    match message {
        Some(m) => Err(m.to_owned()),
        None => {
            let mut text = "assertion failed: ".to_owned();
            text.append(expr);
            Err(text)
        },
    }
}

/// The diagnostic of a failed comparison. `relation` is the operator that was
/// asserted between the operands, `left` and `right` are the operands as they
/// print for debugging, and `message` is the caller's own text, if any.
pub open spec fn comparison_message(
    relation: Seq<char>,
    left: Seq<char>,
    right: Seq<char>,
    message: Option<Seq<char>>,
) -> Seq<char> {
    let head = "assertion `left "@ + relation + " right` failed"@;
    let detail = match message {
        Some(m) => ": "@ + m,
        None => Seq::<char>::empty(),
    };
    head + detail + "\n  left: "@ + left + "\n right: "@ + right
}

/// The view of an optional piece of text.
pub open spec fn text_view(text: Option<&str>) -> Option<Seq<char>> {
    match text {
        Some(t) => Some(t@),
        None => None,
    }
}

/// Builds the diagnostic of a failed comparison.
fn comparison_failure(relation: &str, left: &str, right: &str, message: Option<&str>) -> (text:
    String)
    ensures
        text@ == comparison_message(relation@, left@, right@, text_view(message)),
{
    let mut text = "assertion `left ".to_owned();
    text.append(relation);
    text.append(" right` failed");
    if let Some(m) = message {
        text.append(": ");
        text.append(m);
    }
    text.append("\n  left: ");
    text.append(left);
    text.append("\n right: ");
    text.append(right);
    text
}

/// Judges the assertion that two operands are equal.
///
/// `equal` says whether they compared equal; `left` and `right` are the
/// operands as they print for debugging. The assertion passes exactly when
/// `equal` is true; otherwise the error carries the diagnostic to raise.
pub fn build_assert_eq(equal: bool, left: &str, right: &str, message: Option<&str>) -> (verdict:
    Result<(), String>)
    ensures
        equal <==> verdict is Ok,
        !equal ==> verdict->Err_0@ == comparison_message(
            "=="@,
            left@,
            right@,
            text_view(message),
        ),
{
    if equal {
        Ok(())
    } else {
        Err(comparison_failure("==", left, right, message))
    }
}

/// Judges the assertion that two operands differ.
///
/// `equal` says whether they compared equal; `left` and `right` are the
/// operands as they print for debugging. The assertion passes exactly when
/// `equal` is false; otherwise the error carries the diagnostic to raise.
pub fn build_assert_ne(equal: bool, left: &str, right: &str, message: Option<&str>) -> (verdict:
    Result<(), String>)
    ensures
        !equal <==> verdict is Ok,
        equal ==> verdict->Err_0@ == comparison_message(
            "!="@,
            left@,
            right@,
            text_view(message),
        ),
{
    if equal {
        Err(comparison_failure("!=", left, right, message))
    } else {
        Ok(())
    }
}

} // verus!
