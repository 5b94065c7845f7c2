//! ASUS controls backed by `asusctl`, `supergfxctl` and `niri`.
//!
//! Each control is split in two: the invocation to run, and the
//! interpretation of its outcome. The caller runs the invocation.

use vstd::prelude::*;

use crate::command::{
    checked_stdout, invocation, outcome_view, spec_checked, CommandOutput, Invocation,
    NIRI_LOGOUT_ARGS,
};
use crate::modes::{
    fan_label, graphics_label, parse_fan_profile, parse_graphics_mode,
    parse_pending_graphics_mode, spec_parse_fan_profile, spec_parse_graphics_mode,
    spec_parse_pending_graphics_mode, FanProfile, GraphicsMode,
};
use crate::text::{concat, result_view};

verus! {

/// Process-backed ASUS controls: the three programs they run.
#[derive(Debug, Clone)]
pub struct AsusControl {
    asusctl_command: String,
    supergfxctl_command: String,
    niri_command: String,
}

/// The fan profile that an `asusctl profile get` outcome reports, or the error.
pub open spec fn spec_fan_profile(asusctl: Seq<char>, outcome: Result<crate::command::OutputView, Seq<char>>) -> Result<
    FanProfile,
    Seq<char>,
> {
    match spec_checked(asusctl, outcome) {
        Err(e) => Err(e),
        Ok(output) => match spec_parse_fan_profile(output) {
            Some(profile) => Ok(profile),
            None => Err("Unrecognized asusctl profile output: "@ + output),
        },
    }
}

/// The graphics mode that a `supergfxctl -g` outcome reports, or the error.
pub open spec fn spec_graphics_mode(supergfxctl: Seq<char>, outcome: Result<crate::command::OutputView, Seq<char>>) -> Result<
    GraphicsMode,
    Seq<char>,
> {
    match spec_checked(supergfxctl, outcome) {
        Err(e) => Err(e),
        Ok(output) => match spec_parse_graphics_mode(output) {
            Some(mode) => Ok(mode),
            None => Err("Unrecognized supergfxctl mode output: "@ + output),
        },
    }
}

/// The pending graphics mode that a `supergfxctl -P` outcome reports, or the error.
pub open spec fn spec_pending_graphics_mode(supergfxctl: Seq<char>, outcome: Result<crate::command::OutputView, Seq<char>>) -> Result<
    Option<GraphicsMode>,
    Seq<char>,
> {
    match spec_checked(supergfxctl, outcome) {
        Err(e) => Err(e),
        Ok(output) => spec_parse_pending_graphics_mode(output),
    }
}

/// Success when the command ran and succeeded, else its error.
pub open spec fn spec_unit(program: Seq<char>, outcome: Result<crate::command::OutputView, Seq<char>>) -> Result<(), Seq<char>> {
    match spec_checked(program, outcome) {
        Err(e) => Err(e),
        Ok(_) => Ok(()),
    }
}

fn unit_result(program: &str, outcome: Result<CommandOutput, String>) -> (r: Result<(), String>)
    ensures
        result_view(r) == spec_unit(program@, outcome_view(outcome)),
{
    match checked_stdout(program, outcome) {
        Err(e) => Err(e),
        Ok(_) => Ok(()),
    }
}

/// The logout that follows a graphics switch always goes through Niri's own
/// confirmation: its arguments never hold `-s` or `--skip-confirmation`.
pub proof fn law_logout_keeps_confirmation(inv: Invocation, niri: Seq<char>)
    requires
        inv.runs(niri, seq!["msg"@, "action"@, "quit"@]),
    ensures
        forall|i: int|
            0 <= i < crate::command::args_view(inv.args@).len() ==> #[trigger] crate::command::args_view(inv.args@)[i]
                != "-s"@ && crate::command::args_view(inv.args@)[i] != "--skip-confirmation"@,
{
    reveal_strlit("msg");
    reveal_strlit("action");
    reveal_strlit("quit");
    reveal_strlit("-s");
    reveal_strlit("--skip-confirmation");
    let a = crate::command::args_view(inv.args@);
    assert forall|i: int| 0 <= i < a.len() implies #[trigger] a[i] != "-s"@ && a[i] != "--skip-confirmation"@ by {
        assert(a[i].len() != 2 || a[i][0] != '-');
        assert(a[i].len() != "--skip-confirmation"@.len());
    }
}

/// On a successful run, `fan_profile` reports the profile the parser reads
/// from the trimmed stdout, in the current form ("Balanced") as in the legacy
/// one ("Active profile is Balanced"); in particular a run that prints a
/// profile's own label reads back that profile.
pub proof fn law_fan_profile_follows_parser(
    asusctl: Seq<char>,
    out: crate::command::OutputView,
    profile: FanProfile,
)
    ensures
        crate::command::succeeded(out) && spec_parse_fan_profile(
            crate::text::trim(crate::command::utf8_lossy(out.stdout)),
        ) == Some(profile) ==> spec_fan_profile(asusctl, Ok(out)) == Ok::<FanProfile, Seq<char>>(
            profile,
        ),
        crate::command::succeeded(out) && crate::text::trim(crate::command::utf8_lossy(out.stdout))
            == fan_label(profile) ==> spec_fan_profile(asusctl, Ok(out)) == Ok::<
            FanProfile,
            Seq<char>,
        >(profile),
{
    crate::modes::law_fan_profile_round_trip(profile);
}

impl AsusControl {
    pub closed spec fn asusctl(&self) -> Seq<char> {
        self.asusctl_command@
    }

    pub closed spec fn supergfxctl(&self) -> Seq<char> {
        self.supergfxctl_command@
    }

    pub closed spec fn niri(&self) -> Seq<char> {
        self.niri_command@
    }

    pub fn new(asusctl_command: String, supergfxctl_command: String, niri_command: String) -> (c:
        Self)
        ensures
            c.asusctl() == asusctl_command@,
            c.supergfxctl() == supergfxctl_command@,
            c.niri() == niri_command@,
    {
        AsusControl { asusctl_command, supergfxctl_command, niri_command }
    }

    /// `asusctl profile get`.
    pub fn fan_profile_invocation(&self) -> (inv: Invocation)
        ensures
            inv.runs(self.asusctl(), seq!["profile"@, "get"@]),
    {
        let inv = invocation(self.asusctl_command.as_str(), &["profile", "get"]);
        assert(crate::command::args_view(inv.args@) =~= seq!["profile"@, "get"@]);
        inv
    }

    /// The current fan profile, from the outcome of `fan_profile_invocation`.
    pub fn fan_profile(&self, outcome: Result<CommandOutput, String>) -> (r: Result<
        FanProfile,
        String,
    >)
        ensures
            result_view(r) == spec_fan_profile(self.asusctl(), outcome_view(outcome)),
    {
        match checked_stdout(self.asusctl_command.as_str(), outcome) {
            Err(e) => Err(e),
            Ok(output) => match parse_fan_profile(output.as_str()) {
                Some(profile) => Ok(profile),
                None => Err(concat("Unrecognized asusctl profile output: ", output.as_str())),
            },
        }
    }

    /// `asusctl profile set <profile>`.
    pub fn set_fan_profile_invocation(&self, profile: FanProfile) -> (inv: Invocation)
        ensures
            inv.runs(self.asusctl(), seq!["profile"@, "set"@, fan_label(profile)]),
    {
        let inv = invocation(
            self.asusctl_command.as_str(),
            &["profile", "set", profile.command_value()],
        );
        assert(crate::command::args_view(inv.args@) =~= seq![
            "profile"@,
            "set"@,
            fan_label(profile),
        ]);
        inv
    }

    /// Whether setting the fan profile worked, from the outcome of
    /// `set_fan_profile_invocation`.
    pub fn set_fan_profile(&self, outcome: Result<CommandOutput, String>) -> (r: Result<(), String>)
        ensures
            result_view(r) == spec_unit(self.asusctl(), outcome_view(outcome)),
    {
        unit_result(self.asusctl_command.as_str(), outcome)
    }

    /// `supergfxctl -g`.
    pub fn graphics_mode_invocation(&self) -> (inv: Invocation)
        ensures
            inv.runs(self.supergfxctl(), seq!["-g"@]),
    {
        let inv = invocation(self.supergfxctl_command.as_str(), &["-g"]);
        assert(crate::command::args_view(inv.args@) =~= seq!["-g"@]);
        inv
    }

    /// The current graphics mode, from the outcome of `graphics_mode_invocation`.
    pub fn graphics_mode(&self, outcome: Result<CommandOutput, String>) -> (r: Result<
        GraphicsMode,
        String,
    >)
        ensures
            result_view(r) == spec_graphics_mode(self.supergfxctl(), outcome_view(outcome)),
    {
        match checked_stdout(self.supergfxctl_command.as_str(), outcome) {
            Err(e) => Err(e),
            Ok(output) => match parse_graphics_mode(output.as_str()) {
                Some(mode) => Ok(mode),
                None => Err(concat("Unrecognized supergfxctl mode output: ", output.as_str())),
            },
        }
    }

    /// `supergfxctl -P`.
    pub fn pending_graphics_mode_invocation(&self) -> (inv: Invocation)
        ensures
            inv.runs(self.supergfxctl(), seq!["-P"@]),
    {
        let inv = invocation(self.supergfxctl_command.as_str(), &["-P"]);
        assert(crate::command::args_view(inv.args@) =~= seq!["-P"@]);
        inv
    }

    /// The pending graphics mode, from the outcome of
    /// `pending_graphics_mode_invocation`.
    pub fn pending_graphics_mode(&self, outcome: Result<CommandOutput, String>) -> (r: Result<
        Option<GraphicsMode>,
        String,
    >)
        ensures
            result_view(r) == spec_pending_graphics_mode(
                self.supergfxctl(),
                outcome_view(outcome),
            ),
    {
        match checked_stdout(self.supergfxctl_command.as_str(), outcome) {
            Err(e) => Err(e),
            Ok(output) => parse_pending_graphics_mode(output.as_str()),
        }
    }

    /// `supergfxctl -m <mode>`.
    pub fn set_graphics_mode_invocation(&self, mode: GraphicsMode) -> (inv: Invocation)
        ensures
            inv.runs(self.supergfxctl(), seq!["-m"@, graphics_label(mode)]),
    {
        let inv = invocation(self.supergfxctl_command.as_str(), &["-m", mode.command_value()]);
        assert(crate::command::args_view(inv.args@) =~= seq!["-m"@, graphics_label(mode)]);
        inv
    }

    /// Whether requesting the graphics mode worked, from the outcome of
    /// `set_graphics_mode_invocation`.
    pub fn set_graphics_mode(&self, outcome: Result<CommandOutput, String>) -> (r: Result<
        (),
        String,
    >)
        ensures
            result_view(r) == spec_unit(self.supergfxctl(), outcome_view(outcome)),
    {
        unit_result(self.supergfxctl_command.as_str(), outcome)
    }

    /// `niri msg action quit`: Niri's own logout, which asks for confirmation.
    pub fn request_logout_confirmation_invocation(&self) -> (inv: Invocation)
        ensures
            inv.runs(self.niri(), seq!["msg"@, "action"@, "quit"@]),
    {
        let args = NIRI_LOGOUT_ARGS;
        let inv = invocation(self.niri_command.as_str(), &args);
        assert(crate::command::args_view(inv.args@) =~= seq!["msg"@, "action"@, "quit"@]);
        inv
    }

    /// Whether Niri's logout confirmation was opened, from the outcome of
    /// `request_logout_confirmation_invocation`.
    pub fn request_logout_confirmation(&self, outcome: Result<CommandOutput, String>) -> (r: Result<
        (),
        String,
    >)
        ensures
            result_view(r) == spec_unit(self.niri(), outcome_view(outcome)),
    {
        unit_result(self.niri_command.as_str(), outcome)
    }
}

} // verus!
