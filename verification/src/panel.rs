//! Building blocks of the control popovers: what a button shows, and how a
//! background worker ended.

use vstd::prelude::*;

verus! {

/// How a background worker ended: with its value, or by panicking.
#[derive(Debug)]
pub enum WorkerOutcome<T> {
    Finished(T),
    Panicked,
}

/// A worker outcome whose error text is taken by its characters.
pub open spec fn worker_view<T>(o: WorkerOutcome<Result<T, String>>) -> WorkerOutcome<
    Result<T, Seq<char>>,
> {
    match o {
        WorkerOutcome::Finished(Ok(v)) => WorkerOutcome::Finished(Ok(v)),
        WorkerOutcome::Finished(Err(e)) => WorkerOutcome::Finished(Err(e@)),
        WorkerOutcome::Panicked => WorkerOutcome::Panicked,
    }
}

/// What a control button shows: highlighted as the active choice, marked as
/// unavailable after an error, and its tooltip.
pub struct ButtonState {
    pub active: bool,
    pub unavailable: bool,
    pub tooltip: String,
}

/// A button state with its tooltip taken by its characters.
pub struct ButtonView {
    pub active: bool,
    pub unavailable: bool,
    pub tooltip: Seq<char>,
}

impl View for ButtonState {
    type V = ButtonView;

    open spec fn view(&self) -> ButtonView {
        ButtonView { active: self.active, unavailable: self.unavailable, tooltip: self.tooltip@ }
    }
}

/// The views of a row of buttons.
pub open spec fn buttons_view(buttons: Seq<ButtonState>) -> Seq<ButtonView> {
    buttons.map_values(|b: ButtonState| b@)
}

/// A button after an error: marked unavailable, the message as its tooltip,
/// its highlight kept.
pub open spec fn errored(b: ButtonView, message: Seq<char>) -> ButtonView {
    ButtonView { active: b.active, unavailable: true, tooltip: message }
}

/// A row of buttons after an error that concerns all of them.
pub open spec fn all_errored(buttons: Seq<ButtonView>, message: Seq<char>) -> Seq<ButtonView> {
    buttons.map_values(|b: ButtonView| errored(b, message))
}

/// A button set to the given highlight, with its error mark cleared and the given tooltip.
pub open spec fn shown(active: bool, tooltip: Seq<char>) -> ButtonView {
    ButtonView { active, unavailable: false, tooltip }
}

/// A button that shows `message` as an error.
pub fn error_button(b: &ButtonState, message: &str) -> (r: ButtonState)
    ensures
        r@ == errored(b@, message@),
{
    ButtonState { active: b.active, unavailable: true, tooltip: message.to_owned() }
}

/// Every button of a row showing `message` as an error.
pub fn error_all(buttons: &Vec<ButtonState>, message: &str) -> (r: Vec<ButtonState>)
    ensures
        r@.len() == buttons@.len(),
        buttons_view(r@) == all_errored(buttons_view(buttons@), message@),
{
    let mut r: Vec<ButtonState> = Vec::new();
    let mut k: usize = 0;
    while k < buttons.len()
        invariant
            k <= buttons@.len(),
            r@.len() == k,
            forall|i: int| 0 <= i < k ==> #[trigger] r@[i]@ == errored(buttons@[i]@, message@),
        decreases buttons@.len() - k,
    {
        r.push(error_button(&buttons[k], message));
        k = k + 1;
    }
    assert(buttons_view(r@) =~= all_errored(buttons_view(buttons@), message@));
    r
}


/// A copy of a button state.
pub fn copy_button(b: &ButtonState) -> (r: ButtonState)
    ensures
        r@ == b@,
{
    ButtonState { active: b.active, unavailable: b.unavailable, tooltip: b.tooltip.clone() }
}

/// A row of buttons with the one at position `i` showing `message` as an error.
pub fn error_one(buttons: &Vec<ButtonState>, i: usize, message: &str) -> (r: Vec<ButtonState>)
    requires
        i < buttons@.len(),
    ensures
        r@.len() == buttons@.len(),
        buttons_view(r@) == buttons_view(buttons@).update(
            i as int,
            errored(buttons@[i as int]@, message@),
        ),
{
    let mut r: Vec<ButtonState> = Vec::new();
    let mut k: usize = 0;
    while k < buttons.len()
        invariant
            k <= buttons@.len(),
            i < buttons@.len(),
            r@.len() == k,
            forall|j: int|
                0 <= j < k ==> #[trigger] r@[j]@ == (if j == i {
                    errored(buttons@[j]@, message@)
                } else {
                    buttons@[j]@
                }),
        decreases buttons@.len() - k,
    {
        if k == i {
            r.push(error_button(&buttons[k], message));
        } else {
            r.push(copy_button(&buttons[k]));
        }
        k = k + 1;
    }
    assert(buttons_view(r@) =~= buttons_view(buttons@).update(
        i as int,
        errored(buttons@[i as int]@, message@),
    ));
    r
}

} // verus!
