use vstd::prelude::*;

verus! {

/// Reported when the toolkit refused to start a drag and gave no reason.
pub const DRAG_REFUSED: &'static str = "window drag could not start";

/// The reply of the drag command, given what the toolkit's drag primitive reported
/// (its error already put into words): success passes through, and every failure
/// carries a non-empty message, the toolkit's own whenever it has one.
pub fn drag_reply(outcome: Result<(), String>) -> (r: Result<(), String>)
    ensures
        r is Ok <==> outcome is Ok,
        outcome is Err && outcome->Err_0@.len() > 0 ==> r is Err && r->Err_0@
            == outcome->Err_0@,
        outcome is Err && outcome->Err_0@.len() == 0 ==> r is Err && r->Err_0@ == DRAG_REFUSED@,
        r is Err ==> r->Err_0@.len() > 0,
{
    proof {
        reveal_strlit("window drag could not start");
    }
    match outcome {
        Ok(()) => Ok(()),
        Err(message) => {
            if message.as_str().is_empty() {
                Err(String::from_str(DRAG_REFUSED))
            } else {
                Err(message)
            }
        },
    }
}

} // verus!
