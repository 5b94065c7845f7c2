//! systemd service controls: `systemctl is-active`, and starting or stopping a
//! unit through non-interactive `sudo`.

use vstd::prelude::*;

use crate::command::{
    args_view, checked_stdout, invocation, outcome_view, output_error, spec_checked,
    spec_output_error, utf8_lossy, CommandOutput, Invocation, OutputView,
};
use crate::text::{chars_equal, chars_of, concat, result_view, trim};

verus! {

/// The states that `systemctl is-active` prints for a known unit that is not active.
pub open spec fn is_known_inactive_state(state: Seq<char>) -> bool {
    state == "inactive"@ || state == "failed"@ || state == "deactivating"@ || state
        == "activating"@
}

/// Whether a unit is active, from the state `systemctl is-active` printed and
/// its exit code. Exit code 0 means the unit is known: it is active exactly
/// when the state reads "active". Exit code 3 (LSB "not running") with one of
/// the known states means inactive. Anything else, exit code 4 ("unknown
/// unit") included, is not a state and stays unclassified.
pub open spec fn spec_classify_systemd_state(state: Seq<char>, exit_code: Option<i32>) -> Option<
    bool,
> {
    match exit_code {
        Some(code) => if code == 0 {
            Some(state == "active"@)
        } else if code == 3 && is_known_inactive_state(state) {
            Some(false)
        } else {
            None
        },
        None => None,
    }
}

pub fn classify_systemd_state(state: &str, exit_code: Option<i32>) -> (r: Option<bool>)
    ensures
        r == spec_classify_systemd_state(state@, exit_code),
{
    let state = chars_of(state);
    match exit_code {
        Some(code) => {
            if code == 0 {
                Some(chars_equal(&state, &chars_of("active")))
            } else if code == 3 && (chars_equal(&state, &chars_of("inactive")) || chars_equal(
                &state,
                &chars_of("failed"),
            ) || chars_equal(&state, &chars_of("deactivating")) || chars_equal(
                &state,
                &chars_of("activating"),
            )) {
                Some(false)
            } else {
                None
            }
        },
        None => None,
    }
}

/// Process-backed systemd service controls: the `sudo` and `systemctl` programs.
#[derive(Debug, Clone)]
pub struct SystemdControl {
    sudo_command: String,
    systemctl_command: String,
}

/// Whether `unit` is active, from the outcome of `systemctl is-active <unit>`.
pub open spec fn spec_is_active(systemctl: Seq<char>, unit: Seq<char>, outcome: Result<OutputView, Seq<char>>) -> Result<
    bool,
    Seq<char>,
> {
    match outcome {
        Err(e) => Err(e),
        Ok(out) => match spec_classify_systemd_state(trim(utf8_lossy(out.stdout)), out.code) {
            Some(active) => Ok(active),
            None => if out.code == Some(4i32) {
                Err("systemd unit not found: "@ + unit)
            } else {
                Err(spec_output_error(systemctl, out))
            },
        },
    }
}

/// The `systemctl` verb that brings a unit to the requested state.
pub open spec fn action_verb(active: bool) -> Seq<char> {
    if active {
        "start"@
    } else {
        "stop"@
    }
}

/// A unit that systemd does not know (exit code 4) is reported as an error
/// naming it, whatever `systemctl` printed, never as inactive.
pub proof fn law_unknown_unit_is_error(systemctl: Seq<char>, unit: Seq<char>, out: OutputView)
    requires
        out.code == Some(4i32),
    ensures
        spec_is_active(systemctl, unit, Ok(out)) == Err::<bool, Seq<char>>(
            "systemd unit not found: "@ + unit,
        ),
{
}

/// A unit counts as active only when `systemctl is-active` exited with 0 and
/// printed "active"; an exit code that is not 0 never yields "active", and a
/// process ended by a signal is never classified.
pub proof fn law_active_needs_exit_zero(state: Seq<char>, exit_code: Option<i32>)
    ensures
        spec_classify_systemd_state(state, exit_code) == Some(true) <==> (exit_code == Some(0i32)
            && state == "active"@),
        spec_classify_systemd_state(state, None) is None,
{
}

/// `is_active` answers exactly what the state classification answers whenever
/// it classifies: a known unit that exited with 3 and reads "inactive",
/// "failed", "deactivating" or "activating" is inactive, not an error, and
/// exit code 0 means active exactly when the state reads "active".
pub proof fn law_is_active_follows_classification(
    systemctl: Seq<char>,
    unit: Seq<char>,
    out: OutputView,
    active: bool,
)
    ensures
        spec_classify_systemd_state(trim(utf8_lossy(out.stdout)), out.code) == Some(active)
            ==> spec_is_active(systemctl, unit, Ok(out)) == Ok::<bool, Seq<char>>(active),
        out.code == Some(3i32) && is_known_inactive_state(trim(utf8_lossy(out.stdout)))
            ==> spec_is_active(systemctl, unit, Ok(out)) == Ok::<bool, Seq<char>>(false),
        out.code == Some(0i32) ==> spec_is_active(systemctl, unit, Ok(out)) == Ok::<
            bool,
            Seq<char>,
        >(trim(utf8_lossy(out.stdout)) == "active"@),
        out.code == Some(3i32) && (trim(utf8_lossy(out.stdout)) == "failed"@ || trim(
            utf8_lossy(out.stdout),
        ) == "inactive"@ || trim(utf8_lossy(out.stdout)) == "activating"@ || trim(
            utf8_lossy(out.stdout),
        ) == "deactivating"@) ==> spec_is_active(systemctl, unit, Ok(out)) == Ok::<
            bool,
            Seq<char>,
        >(false),
{
}

impl SystemdControl {
    pub closed spec fn sudo(&self) -> Seq<char> {
        self.sudo_command@
    }

    pub closed spec fn systemctl(&self) -> Seq<char> {
        self.systemctl_command@
    }

    pub fn new(sudo_command: String, systemctl_command: String) -> (c: Self)
        ensures
            c.sudo() == sudo_command@,
            c.systemctl() == systemctl_command@,
    {
        SystemdControl { sudo_command, systemctl_command }
    }

    /// `systemctl is-active <unit>`; querying needs no elevated privileges.
    pub fn is_active_invocation(&self, unit: &str) -> (inv: Invocation)
        ensures
            inv.runs(self.systemctl(), seq!["is-active"@, unit@]),
    {
        let inv = invocation(self.systemctl_command.as_str(), &["is-active", unit]);
        assert(args_view(inv.args@) =~= seq!["is-active"@, unit@]);
        inv
    }

    /// Whether `unit` is active, from the outcome of `is_active_invocation(unit)`.
    /// A unit that systemd does not know is an error, never "inactive".
    pub fn is_active(&self, unit: &str, outcome: Result<CommandOutput, String>) -> (r: Result<
        bool,
        String,
    >)
        ensures
            result_view(r) == spec_is_active(self.systemctl(), unit@, outcome_view(outcome)),
    {
        let output = match outcome {
            Err(e) => {
                return Err(e);
            },
            Ok(output) => output,
        };
        let state = output.trimmed_stdout();
        if let Some(active) = classify_systemd_state(state.as_str(), output.code) {
            return Ok(active);
        }
        if output.code == Some(4i32) {
            return Err(concat("systemd unit not found: ", unit));
        }
        Err(output_error(self.systemctl_command.as_str(), &output))
    }

    /// `sudo -n <systemctl> start|stop <unit>`. `-n` keeps sudo from ever
    /// waiting on a password prompt that nobody can see.
    pub fn set_active_invocation(&self, unit: &str, active: bool) -> (inv: Invocation)
        ensures
            inv.runs(
                self.sudo(),
                seq!["-n"@, self.systemctl(), action_verb(active), unit@],
            ),
    {
        let action = if active {
            "start"
        } else {
            "stop"
        };
        let inv = invocation(
            self.sudo_command.as_str(),
            &["-n", self.systemctl_command.as_str(), action, unit],
        );
        assert(args_view(inv.args@) =~= seq![
            "-n"@,
            self.systemctl(),
            action_verb(active),
            unit@,
        ]);
        inv
    }

    /// Interprets the outcome of `set_active_invocation(unit, _)`: on success the
    /// state of the unit is read back with the returned `is_active` query, whose
    /// outcome `is_active` interprets; otherwise the error.
    pub fn set_active(&self, unit: &str, outcome: Result<CommandOutput, String>) -> (r: Result<
        Invocation,
        String,
    >)
        ensures
            match spec_checked(self.sudo(), outcome_view(outcome)) {
                Ok(_) => r matches Ok(inv) && inv.runs(self.systemctl(), seq!["is-active"@, unit@]),
                Err(e) => r matches Err(m) && m@ == e,
            },
    {
        match checked_stdout(self.sudo_command.as_str(), outcome) {
            Err(e) => Err(e),
            Ok(_) => Ok(self.is_active_invocation(unit)),
        }
    }
}

} // verus!
