//! The fan-profile row of the ASUS control popover, as a state machine: the
//! popover reports clicks and worker results, and gets back which command to
//! run next and what the buttons show.

use vstd::prelude::*;

use crate::modes::{fan_label, FanProfile};
use crate::panel::{
    all_errored, buttons_view, error_all, shown, worker_view, ButtonState, ButtonView,
    WorkerOutcome,
};
use crate::text::concat;

verus! {

/// The profile of the button at position `i` of the row.
pub open spec fn fan_at(i: int) -> FanProfile {
    if i == 0 {
        FanProfile::Quiet
    } else if i == 1 {
        FanProfile::Balanced
    } else {
        FanProfile::Performance
    }
}

/// The tooltip of a fan-profile button.
pub open spec fn fan_tooltip(profile: FanProfile) -> Seq<char> {
    "Use the "@ + fan_label(profile) + " ASUS fan profile"@
}

/// The row with exactly the buttons of `current` highlighted, errors cleared.
pub open spec fn fan_row(current: Option<FanProfile>) -> Seq<ButtonView> {
    Seq::new(3, |i: int| shown(current == Some(fan_at(i)), fan_tooltip(fan_at(i))))
}

/// What the fan-profile row holds: the profile last known to be in use,
/// whether its buttons take clicks, and what each button shows.
pub struct FanPanelView {
    pub current: Option<FanProfile>,
    pub sensitive: bool,
    pub buttons: Seq<ButtonView>,
}

/// The message shown when the worker that reads or sets the profile panics.
pub open spec fn fan_worker_panic() -> Seq<char> {
    "ASUS profile worker panicked"@
}

impl FanPanelView {
    /// Only the profile in use can be highlighted.
    pub open spec fn highlight_follows_current(self) -> bool {
        self.buttons.len() == 3 && forall|i: int|
            0 <= i < 3 && #[trigger] self.buttons[i].active ==> self.current == Some(fan_at(i))
    }

    /// The row as built: nothing known, nothing highlighted, taking clicks.
    pub open spec fn initial() -> FanPanelView {
        FanPanelView { current: None, sensitive: true, buttons: fan_row(None) }
    }

    /// The row while a read of the profile runs.
    pub open spec fn reading(self) -> FanPanelView {
        FanPanelView { sensitive: false, ..self }
    }

    /// The row once a worker ends: on `Ok(profile)` that profile is in use and
    /// alone highlighted; on an error every button shows it. Either way the
    /// buttons take clicks again.
    pub open spec fn settled(self, result: WorkerOutcome<Result<FanProfile, Seq<char>>>) -> FanPanelView {
        match result {
            WorkerOutcome::Finished(Ok(profile)) => FanPanelView {
                current: Some(profile),
                sensitive: true,
                buttons: fan_row(Some(profile)),
            },
            WorkerOutcome::Finished(Err(e)) => FanPanelView {
                sensitive: true,
                buttons: all_errored(self.buttons, e),
                ..self
            },
            WorkerOutcome::Panicked => FanPanelView {
                sensitive: true,
                buttons: all_errored(self.buttons, fan_worker_panic()),
                ..self
            },
        }
    }

    /// Whether a click on `profile` starts setting it: only when the buttons
    /// take clicks and `profile` is not already in use.
    pub open spec fn click_starts(self, profile: FanProfile) -> bool {
        self.sensitive && self.current != Some(profile)
    }

    /// The row after a click on `profile`.
    pub open spec fn clicked(self, profile: FanProfile) -> FanPanelView {
        if self.click_starts(profile) {
            FanPanelView { sensitive: false, ..self }
        } else {
            self
        }
    }
}

/// The outcome of setting `profile`, read as the profile that is in use after it.
pub open spec fn set_result(profile: FanProfile, result: WorkerOutcome<Result<(), Seq<char>>>) -> WorkerOutcome<
    Result<FanProfile, Seq<char>>,
> {
    match result {
        WorkerOutcome::Finished(Ok(_)) => WorkerOutcome::Finished(Ok(profile)),
        WorkerOutcome::Finished(Err(e)) => WorkerOutcome::Finished(Err(e)),
        WorkerOutcome::Panicked => WorkerOutcome::Panicked,
    }
}

/// At most the profile in use is highlighted, from the row as built through
/// every read, click and set: an error never moves the highlight, and a
/// successful read or set highlights exactly the profile it reports.
pub proof fn law_fan_highlight_follows_current(
    v: FanPanelView,
    profile: FanProfile,
    read: WorkerOutcome<Result<FanProfile, Seq<char>>>,
    set: WorkerOutcome<Result<(), Seq<char>>>,
)
    requires
        v.highlight_follows_current(),
    ensures
        FanPanelView::initial().highlight_follows_current(),
        v.reading().highlight_follows_current(),
        v.clicked(profile).highlight_follows_current(),
        v.settled(read).highlight_follows_current(),
        v.settled(set_result(profile, set)).highlight_follows_current(),
{
    assert forall|i: int| 0 <= i < 3 && #[trigger] v.settled(read).buttons[i].active implies v.settled(read).current == Some(fan_at(i)) by {
        if let WorkerOutcome::Finished(Ok(p)) = read {
        } else {
            assert(v.buttons[i].active);
        }
    }
    let s = set_result(profile, set);
    assert forall|i: int| 0 <= i < 3 && #[trigger] v.settled(s).buttons[i].active implies v.settled(s).current == Some(fan_at(i)) by {
        if let WorkerOutcome::Finished(Ok(p)) = s {
        } else {
            assert(v.buttons[i].active);
        }
    }
}

/// While the row takes clicks, a click on any profile that is not the one
/// known to be in use starts setting it, also when no profile is known (after
/// a failed read), and the row then waits for the result.
pub proof fn law_fan_click_starts_set(v: FanPanelView, profile: FanProfile)
    ensures
        v.sensitive && v.current != Some(profile) ==> v.click_starts(profile) && !v.clicked(
            profile,
        ).sensitive,
        v.sensitive && v.current is None ==> v.click_starts(profile),
{
}

/// Clicking the profile already in use runs nothing and changes nothing;
/// every worker result leaves the buttons taking clicks again.
pub proof fn law_fan_click_and_settle(
    v: FanPanelView,
    read: WorkerOutcome<Result<FanProfile, Seq<char>>>,
)
    requires
        v.current is Some,
    ensures
        !v.click_starts(v.current->0),
        v.clicked(v.current->0) == v,
        v.settled(read).sensitive,
{
}

/// The fan-profile row of the ASUS control popover.
pub struct FanPanel {
    current: Option<FanProfile>,
    sensitive: bool,
    buttons: Vec<ButtonState>,
}

impl View for FanPanel {
    type V = FanPanelView;

    closed spec fn view(&self) -> FanPanelView {
        FanPanelView {
            current: self.current,
            sensitive: self.sensitive,
            buttons: buttons_view(self.buttons@),
        }
    }
}

/// The icon of a fan-profile button.
pub open spec fn spec_fan_icon(profile: FanProfile) -> Seq<char> {
    match profile {
        FanProfile::Quiet => "weather-wind"@,
        FanProfile::Balanced => "system-monitor-symbolic"@,
        FanProfile::Performance => "cpu-symbolic"@,
    }
}

/// The icon shown on the button of `profile`.
pub fn fan_icon(profile: FanProfile) -> (s: &'static str)
    ensures
        s@ == spec_fan_icon(profile),
{
    match profile {
        FanProfile::Quiet => "weather-wind",
        FanProfile::Balanced => "system-monitor-symbolic",
        FanProfile::Performance => "cpu-symbolic",
    }
}

fn is_current(current: Option<FanProfile>, profile: FanProfile) -> (b: bool)
    ensures
        b == (current == Some(profile)),
{
    match current {
        Some(c) => c == profile,
        None => false,
    }
}

fn fan_button(current: Option<FanProfile>, profile: FanProfile) -> (b: ButtonState)
    ensures
        b@ == shown(current == Some(profile), fan_tooltip(profile)),
{
    let head = concat("Use the ", profile.label());
    ButtonState {
        active: is_current(current, profile),
        unavailable: false,
        tooltip: concat(head.as_str(), " ASUS fan profile"),
    }
}

fn fan_buttons(current: Option<FanProfile>) -> (r: Vec<ButtonState>)
    ensures
        r@.len() == 3,
        buttons_view(r@) == fan_row(current),
{
    let mut r: Vec<ButtonState> = Vec::new();
    r.push(fan_button(current, FanProfile::Quiet));
    r.push(fan_button(current, FanProfile::Balanced));
    r.push(fan_button(current, FanProfile::Performance));
    assert(buttons_view(r@) =~= fan_row(current));
    r
}

impl FanPanel {
    #[verifier::type_invariant]
    spec fn three_buttons(self) -> bool {
        self.buttons@.len() == 3
    }

    pub fn new() -> (p: Self)
        ensures
            p@ == FanPanelView::initial(),
    {
        FanPanel { current: None, sensitive: true, buttons: fan_buttons(None) }
    }

    /// The profile last known to be in use.
    pub fn current(&self) -> (c: Option<FanProfile>)
        ensures
            c == self@.current,
    {
        self.current
    }

    /// Whether the buttons take clicks.
    pub fn is_sensitive(&self) -> (s: bool)
        ensures
            s == self@.sensitive,
    {
        self.sensitive
    }

    /// The buttons, in the order of `FanProfile::ALL`.
    pub fn buttons(&self) -> (b: &Vec<ButtonState>)
        ensures
            buttons_view(b@) == self@.buttons,
    {
        &self.buttons
    }

    /// Starts reading the profile in use; the caller reads it and reports
    /// the result to `finish_read`.
    pub fn begin_read(&mut self)
        ensures
            final(self)@ == old(self)@.reading(),
    {
        proof {
            use_type_invariant(&*self);
        }
        self.sensitive = false;
    }

    /// Takes in the result of reading the profile in use.
    pub fn finish_read(&mut self, result: WorkerOutcome<Result<FanProfile, String>>)
        ensures
            final(self)@ == old(self)@.settled(worker_view(result)),
    {
        proof {
            use_type_invariant(&*self);
        }
        match result {
            WorkerOutcome::Finished(Ok(profile)) => {
                self.current = Some(profile);
                self.buttons = fan_buttons(Some(profile));
            },
            WorkerOutcome::Finished(Err(e)) => {
                self.buttons = error_all(&self.buttons, e.as_str());
            },
            WorkerOutcome::Panicked => {
                self.buttons = error_all(&self.buttons, "ASUS profile worker panicked");
            },
        }
        self.sensitive = true;
    }

    /// A click on the button of `profile`. Returns whether the caller should
    /// now set that profile and report the result to `finish_set`.
    pub fn click(&mut self, profile: FanProfile) -> (start: bool)
        ensures
            start == old(self)@.click_starts(profile),
            final(self)@ == old(self)@.clicked(profile),
    {
        proof {
            use_type_invariant(&*self);
        }
        if !self.sensitive || is_current(self.current, profile) {
            return false;
        }
        self.sensitive = false;
        true
    }

    /// Takes in the result of setting `profile`.
    pub fn finish_set(&mut self, profile: FanProfile, result: WorkerOutcome<Result<(), String>>)
        ensures
            final(self)@ == old(self)@.settled(set_result(profile, worker_view(result))),
    {
        proof {
            use_type_invariant(&*self);
        }
        match result {
            WorkerOutcome::Finished(Ok(())) => {
                self.current = Some(profile);
                self.buttons = fan_buttons(Some(profile));
            },
            WorkerOutcome::Finished(Err(e)) => {
                self.buttons = error_all(&self.buttons, e.as_str());
            },
            WorkerOutcome::Panicked => {
                self.buttons = error_all(&self.buttons, "ASUS profile worker panicked");
            },
        }
        self.sensitive = true;
    }
}

} // verus!
