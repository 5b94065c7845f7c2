//! The graphics-mode row of the ASUS control popover, as a state machine.
//!
//! A switch is requested with `supergfxctl -m` and takes effect at the next
//! session, so after a request the row asks Niri for its logout confirmation.
//! The highlighted mode stays the one in use: if the logout is cancelled it
//! is still right.

use vstd::prelude::*;

use crate::modes::{graphics_label, GraphicsMode};
use crate::panel::{
    all_errored, buttons_view, error_all, error_one, errored, shown, worker_view,
    ButtonState, ButtonView, WorkerOutcome,
};
use crate::text::{chars_equal, chars_of, concat, result_view};

verus! {

/// The mode of the button at position `i` of the row.
pub open spec fn graphics_at(i: int) -> GraphicsMode {
    if i == 0 {
        GraphicsMode::Integrated
    } else {
        GraphicsMode::Hybrid
    }
}

/// The position of a mode's button in the row.
pub open spec fn graphics_index(mode: GraphicsMode) -> int {
    match mode {
        GraphicsMode::Integrated => 0,
        GraphicsMode::Hybrid => 1,
    }
}

/// The tooltip of a graphics-mode button.
pub open spec fn graphics_tooltip(mode: GraphicsMode) -> Seq<char> {
    "Switch to "@ + graphics_label(mode) + " graphics and confirm logout"@
}

/// The row with exactly the button of `current` highlighted, errors cleared.
pub open spec fn graphics_row(current: Option<GraphicsMode>) -> Seq<ButtonView> {
    Seq::new(
        2,
        |i: int| shown(current == Some(graphics_at(i)), graphics_tooltip(graphics_at(i))),
    )
}

pub open spec fn graphics_worker_panic() -> Seq<char> {
    "Graphics mode worker panicked"@
}

pub open spec fn logout_worker_panic() -> Seq<char> {
    "Niri logout worker panicked"@
}

/// Shown on the clicked button when the compositor is not Niri.
pub open spec fn not_niri_message() -> Seq<char> {
    "Automatic graphics switching is supported only on Niri"@
}

/// What a click asks the caller to do next.
#[derive(Debug, Clone, Copy, PartialEq, Eq, Structural)]
pub enum GraphicsStep {
    /// Nothing to run.
    Nothing,
    /// Open Niri's logout confirmation for the mode already requested; report
    /// the result to `finish_logout`.
    Logout(GraphicsMode),
    /// Request the mode with `supergfxctl -m`, then read the pending mode with
    /// `supergfxctl -P`; report the result to `finish_request`.
    Request(GraphicsMode),
}

/// What the graphics-mode row holds: the mode in use, the mode a switch is
/// pending to, whether its buttons take clicks, and what each button shows.
pub struct GraphicsPanelView {
    pub current: Option<GraphicsMode>,
    pub requested: Option<GraphicsMode>,
    pub sensitive: bool,
    pub buttons: Seq<ButtonView>,
}

/// The result of reading the mode in use and the pending mode, with error
/// texts taken by their characters.
pub open spec fn read_view(
    result: WorkerOutcome<(Result<GraphicsMode, String>, Result<Option<GraphicsMode>, String>)>,
) -> WorkerOutcome<(Result<GraphicsMode, Seq<char>>, Result<Option<GraphicsMode>, Seq<char>>)> {
    match result {
        WorkerOutcome::Finished((c, r)) => WorkerOutcome::Finished((result_view(c), result_view(r))),
        WorkerOutcome::Panicked => WorkerOutcome::Panicked,
    }
}

impl GraphicsPanelView {
    /// Only the mode in use can be highlighted.
    pub open spec fn highlight_follows_current(self) -> bool {
        self.buttons.len() == 2 && forall|i: int|
            0 <= i < 2 && #[trigger] self.buttons[i].active ==> self.current == Some(graphics_at(i))
    }

    /// The row as built: nothing known, nothing highlighted, taking clicks.
    pub open spec fn initial() -> GraphicsPanelView {
        GraphicsPanelView {
            current: None,
            requested: None,
            sensitive: true,
            buttons: graphics_row(None),
        }
    }

    /// The row while a worker runs.
    pub open spec fn busy(self) -> GraphicsPanelView {
        GraphicsPanelView { sensitive: false, ..self }
    }

    /// The row once the mode in use and the pending mode were read.
    pub open spec fn read_settled(
        self,
        result: WorkerOutcome<(Result<GraphicsMode, Seq<char>>, Result<Option<GraphicsMode>, Seq<char>>)>,
    ) -> GraphicsPanelView {
        match result {
            WorkerOutcome::Finished((current, requested)) => {
                let after_current = match current {
                    Ok(mode) => GraphicsPanelView {
                        current: Some(mode),
                        buttons: graphics_row(Some(mode)),
                        ..self
                    },
                    Err(e) => GraphicsPanelView { buttons: all_errored(self.buttons, e), ..self },
                };
                match requested {
                    Ok(pending) => GraphicsPanelView {
                        requested: pending,
                        sensitive: true,
                        ..after_current
                    },
                    Err(e) => GraphicsPanelView {
                        requested: None,
                        sensitive: true,
                        buttons: all_errored(after_current.buttons, e),
                        ..after_current
                    },
                }
            },
            WorkerOutcome::Panicked => GraphicsPanelView {
                sensitive: true,
                buttons: all_errored(self.buttons, graphics_worker_panic()),
                ..self
            },
        }
    }

    /// A click on `mode` is ignored while the buttons do not take clicks, and
    /// when `mode` is in use with no switch pending.
    pub open spec fn click_ignored(self, mode: GraphicsMode) -> bool {
        !self.sensitive || (self.current == Some(mode) && self.requested is None)
    }

    /// What a click on `mode` asks the caller to run, with `backend` the name
    /// of the running compositor.
    pub open spec fn click_step(self, mode: GraphicsMode, backend: Seq<char>) -> GraphicsStep {
        if self.click_ignored(mode) || backend != "Niri"@ {
            GraphicsStep::Nothing
        } else if self.requested == Some(mode) {
            GraphicsStep::Logout(mode)
        } else {
            GraphicsStep::Request(mode)
        }
    }

    /// The row after a click on `mode`.
    pub open spec fn clicked(self, mode: GraphicsMode, backend: Seq<char>) -> GraphicsPanelView {
        if self.click_ignored(mode) {
            self
        } else if backend != "Niri"@ {
            GraphicsPanelView {
                buttons: self.buttons.update(
                    graphics_index(mode),
                    errored(self.buttons[graphics_index(mode)], not_niri_message()),
                ),
                ..self
            }
        } else {
            self.busy()
        }
    }

    /// The row once a mode was requested and the pending mode read back: the
    /// pending mode is remembered and, when there is one, the row stays busy
    /// while Niri's logout confirmation is opened.
    pub open spec fn request_settled(self, result: WorkerOutcome<Result<Option<GraphicsMode>, Seq<char>>>) -> GraphicsPanelView {
        match result {
            WorkerOutcome::Finished(Ok(pending)) => GraphicsPanelView {
                requested: pending,
                sensitive: pending is None,
                buttons: graphics_row(self.current),
                ..self
            },
            WorkerOutcome::Finished(Err(e)) => GraphicsPanelView {
                requested: None,
                sensitive: true,
                buttons: all_errored(self.buttons, e),
                ..self
            },
            WorkerOutcome::Panicked => GraphicsPanelView {
                requested: None,
                sensitive: true,
                buttons: all_errored(self.buttons, graphics_worker_panic()),
                ..self
            },
        }
    }

    /// The row once Niri's logout confirmation was asked for.
    pub open spec fn logout_settled(self, result: WorkerOutcome<Result<(), Seq<char>>>) -> GraphicsPanelView {
        match result {
            WorkerOutcome::Finished(Ok(_)) => GraphicsPanelView { sensitive: true, ..self },
            WorkerOutcome::Finished(Err(e)) => GraphicsPanelView {
                sensitive: true,
                buttons: all_errored(self.buttons, e),
                ..self
            },
            WorkerOutcome::Panicked => GraphicsPanelView {
                sensitive: true,
                buttons: all_errored(self.buttons, logout_worker_panic()),
                ..self
            },
        }
    }
}

/// The mode whose logout confirmation is to be opened after a request.
pub open spec fn logout_after_request(result: WorkerOutcome<Result<Option<GraphicsMode>, Seq<char>>>) -> Option<
    GraphicsMode,
> {
    match result {
        WorkerOutcome::Finished(Ok(pending)) => pending,
        _ => None,
    }
}

/// At most the mode in use is highlighted, from the row as built through every
/// read, click, request and logout: errors never move the highlight, and a
/// request leaves the mode in use highlighted until a new session reports
/// another.
pub proof fn law_graphics_highlight_follows_current(
    v: GraphicsPanelView,
    mode: GraphicsMode,
    backend: Seq<char>,
    read: WorkerOutcome<(Result<GraphicsMode, Seq<char>>, Result<Option<GraphicsMode>, Seq<char>>)>,
    request: WorkerOutcome<Result<Option<GraphicsMode>, Seq<char>>>,
    logout: WorkerOutcome<Result<(), Seq<char>>>,
)
    requires
        v.highlight_follows_current(),
    ensures
        GraphicsPanelView::initial().highlight_follows_current(),
        v.busy().highlight_follows_current(),
        v.clicked(mode, backend).highlight_follows_current(),
        v.read_settled(read).highlight_follows_current(),
        v.request_settled(request).highlight_follows_current(),
        v.request_settled(request).current == v.current,
        v.logout_settled(logout).highlight_follows_current(),
{
    let c = v.clicked(mode, backend);
    assert forall|i: int| 0 <= i < 2 && #[trigger] c.buttons[i].active implies c.current == Some(graphics_at(i)) by {
        assert(v.buttons[i].active);
    }
    let r = v.read_settled(read);
    if let WorkerOutcome::Finished((cur, req)) = read {
        let after = match cur {
            Ok(m) => GraphicsPanelView { current: Some(m), buttons: graphics_row(Some(m)), ..v },
            Err(e) => GraphicsPanelView { buttons: all_errored(v.buttons, e), ..v },
        };
        assert(after.highlight_follows_current()) by {
            assert forall|i: int| 0 <= i < 2 && #[trigger] after.buttons[i].active implies after.current == Some(graphics_at(i)) by {
                if cur is Err {
                    assert(v.buttons[i].active);
                }
            }
        }
        assert forall|i: int| 0 <= i < 2 && #[trigger] r.buttons[i].active implies r.current == Some(graphics_at(i)) by {
            assert(after.buttons[i].active);
        }
    } else {
        assert forall|i: int| 0 <= i < 2 && #[trigger] r.buttons[i].active implies r.current == Some(graphics_at(i)) by {
            assert(v.buttons[i].active);
        }
    }
    let q = v.request_settled(request);
    assert forall|i: int| 0 <= i < 2 && #[trigger] q.buttons[i].active implies q.current == Some(graphics_at(i)) by {
        if request is Finished && request->0 is Ok {
        } else {
            assert(v.buttons[i].active);
        }
    }
    let l = v.logout_settled(logout);
    assert forall|i: int| 0 <= i < 2 && #[trigger] l.buttons[i].active implies l.current == Some(graphics_at(i)) by {
        assert(v.buttons[i].active);
    }
}

/// A read remembers the pending switch it reports, whatever it reports of the
/// mode in use: after it, a click on the pending mode only reopens Niri's
/// logout confirmation, and a click on the mode in use can cancel the switch.
pub proof fn law_graphics_read_remembers_pending(
    v: GraphicsPanelView,
    current: Result<GraphicsMode, Seq<char>>,
    pending: Option<GraphicsMode>,
    mode: GraphicsMode,
)
    ensures
        v.read_settled(WorkerOutcome::Finished((current, Ok(pending)))).requested == pending,
        v.read_settled(WorkerOutcome::Finished((current, Ok(pending)))).sensitive,
        pending == Some(mode) ==> v.read_settled(WorkerOutcome::Finished((current, Ok(pending)))).click_step(mode, "Niri"@)
            == GraphicsStep::Logout(mode),
        pending is Some ==> !v.read_settled(WorkerOutcome::Finished((current, Ok(pending)))).click_ignored(mode),
{
}

/// A click runs something only on Niri, only while the buttons take clicks,
/// and not on the mode in use with no switch pending; a click on the mode a
/// switch is already pending to only opens the logout confirmation again.
pub proof fn law_graphics_click(v: GraphicsPanelView, mode: GraphicsMode, backend: Seq<char>)
    ensures
        v.click_step(mode, backend) != GraphicsStep::Nothing ==> backend == "Niri"@ && v.sensitive
            && !v.clicked(mode, backend).sensitive,
        v.current == Some(mode) && v.requested is None ==> v.click_step(mode, backend)
            == GraphicsStep::Nothing && v.clicked(mode, backend) == v,
        v.sensitive && backend == "Niri"@ && v.requested == Some(mode) ==> v.click_step(
            mode,
            backend,
        ) == GraphicsStep::Logout(mode),
{
}

/// After a request, the logout confirmation is opened exactly when a switch
/// is pending, for the pending mode, and the row stays busy until then.
pub proof fn law_graphics_request_then_logout(
    v: GraphicsPanelView,
    request: WorkerOutcome<Result<Option<GraphicsMode>, Seq<char>>>,
)
    ensures
        logout_after_request(request) == v.request_settled(request).requested,
        v.request_settled(request).sensitive <==> logout_after_request(request) is None,
{
}

/// The graphics-mode row of the ASUS control popover.
pub struct GraphicsPanel {
    current: Option<GraphicsMode>,
    requested: Option<GraphicsMode>,
    sensitive: bool,
    buttons: Vec<ButtonState>,
}

impl View for GraphicsPanel {
    type V = GraphicsPanelView;

    closed spec fn view(&self) -> GraphicsPanelView {
        GraphicsPanelView {
            current: self.current,
            requested: self.requested,
            sensitive: self.sensitive,
            buttons: buttons_view(self.buttons@),
        }
    }
}

/// The icon of a graphics-mode button.
pub open spec fn spec_graphics_icon(mode: GraphicsMode) -> Seq<char> {
    match mode {
        GraphicsMode::Integrated => "video-display-symbolic"@,
        GraphicsMode::Hybrid => "computer-symbolic"@,
    }
}

/// The icon shown on the button of `mode`.
pub fn graphics_icon(mode: GraphicsMode) -> (s: &'static str)
    ensures
        s@ == spec_graphics_icon(mode),
{
    match mode {
        GraphicsMode::Integrated => "video-display-symbolic",
        GraphicsMode::Hybrid => "computer-symbolic",
    }
}

fn is_mode(m: Option<GraphicsMode>, mode: GraphicsMode) -> (b: bool)
    ensures
        b == (m == Some(mode)),
{
    match m {
        Some(c) => c == mode,
        None => false,
    }
}

fn mode_index(mode: GraphicsMode) -> (i: usize)
    ensures
        i == graphics_index(mode),
{
    match mode {
        GraphicsMode::Integrated => 0,
        GraphicsMode::Hybrid => 1,
    }
}

fn graphics_button(current: Option<GraphicsMode>, mode: GraphicsMode) -> (b: ButtonState)
    ensures
        b@ == shown(current == Some(mode), graphics_tooltip(mode)),
{
    let head = concat("Switch to ", mode.label());
    ButtonState {
        active: is_mode(current, mode),
        unavailable: false,
        tooltip: concat(head.as_str(), " graphics and confirm logout"),
    }
}

fn graphics_buttons(current: Option<GraphicsMode>) -> (r: Vec<ButtonState>)
    ensures
        r@.len() == 2,
        buttons_view(r@) == graphics_row(current),
{
    let mut r: Vec<ButtonState> = Vec::new();
    r.push(graphics_button(current, GraphicsMode::Integrated));
    r.push(graphics_button(current, GraphicsMode::Hybrid));
    assert(buttons_view(r@) =~= graphics_row(current));
    r
}

impl GraphicsPanel {
    #[verifier::type_invariant]
    spec fn two_buttons(self) -> bool {
        self.buttons@.len() == 2
    }

    pub fn new() -> (p: Self)
        ensures
            p@ == GraphicsPanelView::initial(),
    {
        GraphicsPanel {
            current: None,
            requested: None,
            sensitive: true,
            buttons: graphics_buttons(None),
        }
    }

    /// The mode last known to be in use.
    pub fn current(&self) -> (c: Option<GraphicsMode>)
        ensures
            c == self@.current,
    {
        self.current
    }

    /// The mode a switch is pending to, as last known.
    pub fn requested(&self) -> (r: Option<GraphicsMode>)
        ensures
            r == self@.requested,
    {
        self.requested
    }

    /// Whether the buttons take clicks.
    pub fn is_sensitive(&self) -> (s: bool)
        ensures
            s == self@.sensitive,
    {
        self.sensitive
    }

    /// The buttons, in the order of `GraphicsMode::ALL`.
    pub fn buttons(&self) -> (b: &Vec<ButtonState>)
        ensures
            buttons_view(b@) == self@.buttons,
    {
        &self.buttons
    }

    /// Starts reading the mode in use and the pending mode; the caller reads
    /// both and reports them to `finish_read`.
    pub fn begin_read(&mut self)
        ensures
            final(self)@ == old(self)@.busy(),
    {
        proof {
            use_type_invariant(&*self);
        }
        self.sensitive = false;
    }

    /// Takes in the mode in use and the pending mode, as read.
    pub fn finish_read(
        &mut self,
        result: WorkerOutcome<(Result<GraphicsMode, String>, Result<Option<GraphicsMode>, String>)>,
    )
        ensures
            final(self)@ == old(self)@.read_settled(read_view(result)),
    {
        proof {
            use_type_invariant(&*self);
        }
        match result {
            WorkerOutcome::Finished((current, requested)) => {
                match current {
                    Ok(mode) => {
                        self.current = Some(mode);
                        self.buttons = graphics_buttons(Some(mode));
                    },
                    Err(e) => {
                        self.buttons = error_all(&self.buttons, e.as_str());
                    },
                }
                match requested {
                    Ok(pending) => {
                        self.requested = pending;
                    },
                    Err(e) => {
                        self.requested = None;
                        self.buttons = error_all(&self.buttons, e.as_str());
                    },
                }
            },
            WorkerOutcome::Panicked => {
                self.buttons = error_all(&self.buttons, "Graphics mode worker panicked");
            },
        }
        self.sensitive = true;
    }

    /// A click on the button of `mode`, with `backend` the name of the running
    /// compositor. Automatic switching needs Niri: elsewhere the clicked button
    /// shows why nothing happens.
    pub fn click(&mut self, mode: GraphicsMode, backend: &str) -> (step: GraphicsStep)
        ensures
            step == old(self)@.click_step(mode, backend@),
            final(self)@ == old(self)@.clicked(mode, backend@),
    {
        proof {
            use_type_invariant(&*self);
        }
        if !self.sensitive || (is_mode(self.current, mode) && self.requested.is_none()) {
            return GraphicsStep::Nothing;
        }
        if !chars_equal(&chars_of(backend), &chars_of("Niri")) {
            let i = mode_index(mode);
            self.buttons = error_one(
                &self.buttons,
                i,
                "Automatic graphics switching is supported only on Niri",
            );
            return GraphicsStep::Nothing;
        }
        self.sensitive = false;
        if is_mode(self.requested, mode) {
            GraphicsStep::Logout(mode)
        } else {
            GraphicsStep::Request(mode)
        }
    }

    /// Takes in the result of requesting a mode and reading the pending mode.
    /// Returns the mode whose logout confirmation the caller should now open,
    /// reporting the result to `finish_logout`.
    pub fn finish_request(&mut self, result: WorkerOutcome<Result<Option<GraphicsMode>, String>>) -> (logout:
        Option<GraphicsMode>)
        ensures
            logout == logout_after_request(worker_view(result)),
            final(self)@ == old(self)@.request_settled(worker_view(result)),
    {
        proof {
            use_type_invariant(&*self);
        }
        match result {
            WorkerOutcome::Finished(Ok(pending)) => {
                self.requested = pending;
                self.buttons = graphics_buttons(self.current);
                self.sensitive = pending.is_none();
                pending
            },
            WorkerOutcome::Finished(Err(e)) => {
                self.requested = None;
                self.buttons = error_all(&self.buttons, e.as_str());
                self.sensitive = true;
                None
            },
            WorkerOutcome::Panicked => {
                self.requested = None;
                self.buttons = error_all(&self.buttons, "Graphics mode worker panicked");
                self.sensitive = true;
                None
            },
        }
    }

    /// Takes in the result of opening Niri's logout confirmation.
    pub fn finish_logout(&mut self, result: WorkerOutcome<Result<(), String>>)
        ensures
            final(self)@ == old(self)@.logout_settled(worker_view(result)),
    {
        proof {
            use_type_invariant(&*self);
        }
        match result {
            WorkerOutcome::Finished(Ok(())) => {},
            WorkerOutcome::Finished(Err(e)) => {
                self.buttons = error_all(&self.buttons, e.as_str());
            },
            WorkerOutcome::Panicked => {
                self.buttons = error_all(&self.buttons, "Niri logout worker panicked");
            },
        }
        self.sensitive = true;
    }
}

} // verus!
