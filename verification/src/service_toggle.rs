//! One button of the VPN control popover, as a state machine: it toggles a
//! systemd unit between started and stopped, and shows the state the unit
//! reports afterwards.

use vstd::prelude::*;

use crate::panel::{
    errored, shown, worker_view, ButtonState, ButtonView, WorkerOutcome,
};
use crate::text::concat;
use crate::widgets::VpnServiceTarget;

verus! {

/// The tooltip of the button before the state of its unit is known.
pub open spec fn toggle_tooltip(label: Seq<char>, unit: Seq<char>) -> Seq<char> {
    "Toggle "@ + label + " ("@ + unit + ")"@
}

/// The tooltip of the button once the state of its unit is known.
pub open spec fn state_tooltip(label: Seq<char>, active: bool) -> Seq<char> {
    label + ": "@ + if active {
        "active"@
    } else {
        "inactive"@
    }
}

/// What the button holds: the unit it toggles, the state last reported for
/// the unit, whether it takes clicks, and what it shows.
pub struct ServiceToggleView {
    pub label: Seq<char>,
    pub unit: Seq<char>,
    pub active: Option<bool>,
    pub sensitive: bool,
    pub button: ButtonView,
}

pub open spec fn state_read_panic() -> Seq<char> {
    "Service state worker panicked"@
}

pub open spec fn toggle_panic() -> Seq<char> {
    "Service control worker panicked"@
}

impl ServiceToggleView {
    /// The button is highlighted exactly when its unit was last reported active.
    pub open spec fn highlight_follows_state(self) -> bool {
        self.button.active == (self.active == Some(true))
    }

    /// The button as built for a unit: state unknown, not highlighted.
    pub open spec fn initial(label: Seq<char>, unit: Seq<char>) -> ServiceToggleView {
        ServiceToggleView {
            label,
            unit,
            active: None,
            sensitive: true,
            button: shown(false, toggle_tooltip(label, unit)),
        }
    }

    /// The button while its worker runs.
    pub open spec fn busy(self) -> ServiceToggleView {
        ServiceToggleView { sensitive: false, ..self }
    }

    /// The button once a worker reported the state of the unit, or failed;
    /// `panic_message` is what a panicked worker leaves on the button.
    pub open spec fn settled(
        self,
        result: WorkerOutcome<Result<bool, Seq<char>>>,
        panic_message: Seq<char>,
    ) -> ServiceToggleView {
        match result {
            WorkerOutcome::Finished(Ok(active)) => ServiceToggleView {
                active: Some(active),
                sensitive: true,
                button: shown(active, state_tooltip(self.label, active)),
                ..self
            },
            WorkerOutcome::Finished(Err(e)) => ServiceToggleView {
                sensitive: true,
                button: errored(self.button, self.unit + ": "@ + e),
                ..self
            },
            WorkerOutcome::Panicked => ServiceToggleView {
                sensitive: true,
                button: errored(self.button, panic_message),
                ..self
            },
        }
    }

    /// The state a click asks for: the opposite of the last reported one, an
    /// unknown state counting as inactive.
    pub open spec fn requested_state(self) -> bool {
        !(self.active == Some(true))
    }
}

/// One button of the VPN control popover.
pub struct ServiceToggle {
    label: &'static str,
    unit: String,
    active: Option<bool>,
    sensitive: bool,
    button: ButtonState,
}

impl View for ServiceToggle {
    type V = ServiceToggleView;

    closed spec fn view(&self) -> ServiceToggleView {
        ServiceToggleView {
            label: self.label@,
            unit: self.unit@,
            active: self.active,
            sensitive: self.sensitive,
            button: self.button@,
        }
    }
}

fn state_button(label: &str, active: bool) -> (b: ButtonState)
    ensures
        b@ == shown(active, state_tooltip(label@, active)),
{
    let head = concat(label, ": ");
    let tooltip = if active {
        concat(head.as_str(), "active")
    } else {
        concat(head.as_str(), "inactive")
    };
    ButtonState { active, unavailable: false, tooltip }
}

impl ServiceToggle {
    pub fn new(target: &VpnServiceTarget) -> (t: Self)
        ensures
            t@ == ServiceToggleView::initial(target.spec_label(), target.spec_unit()),
    {
        let label = target.label();
        let unit = target.unit();
        let a = concat("Toggle ", label);
        let b = concat(a.as_str(), " (");
        let c = concat(b.as_str(), unit);
        let tooltip = concat(c.as_str(), ")");
        ServiceToggle {
            label,
            unit: unit.to_owned(),
            active: None,
            sensitive: true,
            button: ButtonState { active: false, unavailable: false, tooltip },
        }
    }

    /// The unit this button toggles.
    pub fn unit(&self) -> (u: &str)
        ensures
            u@ == self@.unit,
    {
        self.unit.as_str()
    }

    /// The state last reported for the unit.
    pub fn active(&self) -> (a: Option<bool>)
        ensures
            a == self@.active,
    {
        self.active
    }

    /// Whether the button takes clicks.
    pub fn is_sensitive(&self) -> (s: bool)
        ensures
            s == self@.sensitive,
    {
        self.sensitive
    }

    /// What the button shows.
    pub fn button(&self) -> (b: &ButtonState)
        ensures
            b@ == self@.button,
    {
        &self.button
    }

    /// Starts reading the state of the unit; the caller reads it and reports
    /// the result to `finish_read`.
    pub fn begin_read(&mut self)
        ensures
            final(self)@ == old(self)@.busy(),
    {
        self.sensitive = false;
    }

    /// Takes in the state of the unit, as read.
    pub fn finish_read(&mut self, result: WorkerOutcome<Result<bool, String>>)
        ensures
            final(self)@ == old(self)@.settled(worker_view(result), state_read_panic()),
    {
        self.settle(result, "Service state worker panicked");
    }

    /// A click on the button. Returns the state to bring the unit to, which
    /// the caller does and reports to `finish_toggle`; `None` while the button
    /// takes no clicks.
    pub fn click(&mut self) -> (requested: Option<bool>)
        ensures
            old(self)@.sensitive ==> requested == Some(old(self)@.requested_state())
                && final(self)@ == old(self)@.busy(),
            !old(self)@.sensitive ==> requested is None && final(self)@ == old(self)@,
    {
        if !self.sensitive {
            return None;
        }
        let requested = match self.active {
            Some(a) => !a,
            None => true,
        };
        self.sensitive = false;
        Some(requested)
    }

    /// Takes in the state the unit reports after it was started or stopped.
    pub fn finish_toggle(&mut self, result: WorkerOutcome<Result<bool, String>>)
        ensures
            final(self)@ == old(self)@.settled(worker_view(result), toggle_panic()),
    {
        self.settle(result, "Service control worker panicked");
    }

    fn settle(&mut self, result: WorkerOutcome<Result<bool, String>>, panic_message: &str)
        ensures
            final(self)@ == old(self)@.settled(worker_view(result), panic_message@),
    {
        match result {
            WorkerOutcome::Finished(Ok(active)) => {
                self.active = Some(active);
                self.button = state_button(self.label, active);
            },
            WorkerOutcome::Finished(Err(e)) => {
                let head = concat(self.unit.as_str(), ": ");
                let message = concat(head.as_str(), e.as_str());
                self.button = crate::panel::error_button(&self.button, message.as_str());
            },
            WorkerOutcome::Panicked => {
                self.button = crate::panel::error_button(&self.button, panic_message);
            },
        }
        self.sensitive = true;
    }
}

/// The highlight shows the last reported state of the unit, from the button
/// as built through every read, click and toggle; a failed toggle never
/// changes it.
pub proof fn law_service_highlight_follows_state(
    v: ServiceToggleView,
    result: WorkerOutcome<Result<bool, Seq<char>>>,
    panic_message: Seq<char>,
    label: Seq<char>,
    unit: Seq<char>,
)
    requires
        v.highlight_follows_state(),
    ensures
        ServiceToggleView::initial(label, unit).highlight_follows_state(),
        v.busy().highlight_follows_state(),
        v.settled(result, panic_message).highlight_follows_state(),
        v.settled(result, panic_message).sensitive,
{
}

/// A click on an active unit asks to stop it; on an inactive or unknown one,
/// to start it.
pub proof fn law_service_click_toggles(v: ServiceToggleView)
    ensures
        v.active == Some(true) ==> !v.requested_state(),
        v.active == Some(false) ==> v.requested_state(),
        v.active is None ==> v.requested_state(),
{
}

} // verus!
