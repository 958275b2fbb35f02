//! The dispatcher: resolves a click request to a button, validates the
//! answer arity against the button's declared prompts, and either hands
//! the validated arguments to the handler or produces the explanatory
//! response itself. Every per-request failure is an ordinary response
//! message, never a fault.

use crate::button::ButtonResponse;
use crate::registry::Registry;
use vstd::prelude::*;

verus! {

/// The message returned for an id outside `[0, registry length)`.
pub open spec fn unknown_id_message() -> Seq<char> {
    "Unknown button id"@
}

/// The message returned when the answer sequence's length differs from
/// the button's declared prompt count; the handler is not invoked.
pub open spec fn arity_mismatch_message() -> Seq<char> {
    "Error parsing extra responses (extra responses length does not match extra prompts length)"@
}

fn response_from_str(message: &str) -> (r: ButtonResponse)
    ensures
        r.message@ == message@,
{
    ButtonResponse { message: message.to_owned() }
}

/// Resolves `id` to a button and runs its handler on the validated input.
///
/// The handler callables themselves are owned by the embedding layer,
/// which passes `invoke`; the dispatcher calls `invoke(state, id, ans)`
/// at most once, and only with an in-range `id`, with `ans == None` for a
/// button whose shape takes no answers, and with `ans == Some(answers)`
/// only when `answers` has exactly one entry per declared prompt. The
/// `requires` states just that: handlers may rely on the arity invariant
/// and index into their answers without checks.
///
/// The contract pins every other outcome down: an unknown id and an arity
/// mismatch return their fixed messages with the handler left uninvoked,
/// and otherwise the result is exactly what the handler returned. For a
/// button that takes no answers, the supplied `answers` are ignored, not
/// validated: the result is related to `invoke` without mention of them.
pub fn dispatch<S, F: Fn(&S, usize, Option<Vec<Option<String>>>) -> ButtonResponse>(
    registry: &Registry,
    id: usize,
    answers: Vec<Option<String>>,
    state: &S,
    invoke: F,
) -> (r: ButtonResponse)
    requires
        forall|i: usize|
            i < registry@.len() && !registry@[i as int].kind.takes_answers()
                ==> #[trigger] call_requires(
                invoke,
                (state, i, Option::<Vec<Option<String>>>::None),
            ),
        forall|i: usize, ans: Vec<Option<String>>|
            i < registry@.len() && registry@[i as int].kind.takes_answers() && ans@.len()
                == registry@[i as int].prompts.len() ==> #[trigger] call_requires(
                invoke,
                (state, i, Some(ans)),
            ),
    ensures
        id >= registry@.len() ==> r.message@ == unknown_id_message(),
        id < registry@.len() && !registry@[id as int].kind.takes_answers() ==> call_ensures(
            invoke,
            (state, id, Option::<Vec<Option<String>>>::None),
            r,
        ),
        id < registry@.len() && registry@[id as int].kind.takes_answers() && answers@.len()
            != registry@[id as int].prompts.len() ==> r.message@ == arity_mismatch_message(),
        id < registry@.len() && registry@[id as int].kind.takes_answers() && answers@.len()
            == registry@[id as int].prompts.len() ==> call_ensures(
            invoke,
            (state, id, Some(answers)),
            r,
        ),
{
    match registry.lookup(id) {
        None => response_from_str("Unknown button id"),
        Some(button) => {
            if button.kind.takes_answers() {
                if answers.len() == button.prompts.len() {
                    invoke(state, id, Some(answers))
                } else {
                    response_from_str(
                        "Error parsing extra responses (extra responses length does not match extra prompts length)",
                    )
                }
            } else {
                invoke(state, id, None)
            }
        },
    }
}

} // verus!
