use vibepanel::asus::AsusControl;
use vibepanel::command::{checked_stdout, output_error, CommandOutput, Invocation};
use vibepanel::modes::{FanProfile, GraphicsMode};
use vibepanel::systemd::SystemdControl;

fn output(code: Option<i32>, stdout: &[u8], stderr: &[u8]) -> CommandOutput {
    let status = match code {
        Some(c) => format!("exit status: {c}"),
        None => "signal: 9 (SIGKILL)".to_string(),
    };
    CommandOutput { code, status, stdout: stdout.to_vec(), stderr: stderr.to_vec() }
}

fn asus() -> AsusControl {
    AsusControl::new("asusctl".to_string(), "supergfxctl".to_string(), "niri".to_string())
}

fn systemd() -> SystemdControl {
    SystemdControl::new("sudo".to_string(), "systemctl".to_string())
}

fn args(inv: &Invocation) -> Vec<&str> {
    inv.args.iter().map(|a| a.as_str()).collect()
}

#[test]
fn checked_stdout_trims_successful_output() {
    let ok = checked_stdout("asusctl", Ok(output(Some(0), b"  Balanced \n", b"")));
    assert_eq!(ok, Ok("Balanced".to_string()));
    let err = checked_stdout("asusctl", Err("Failed to run asusctl: missing".to_string()));
    assert_eq!(err, Err("Failed to run asusctl: missing".to_string()));
}

#[test]
fn failures_report_stderr_then_stdout_then_status() {
    assert_eq!(
        output_error("prog", &output(Some(1), b"out", b" boom \n")),
        "prog: boom"
    );
    assert_eq!(output_error("prog", &output(Some(1), b" out\n", b"  ")), "prog: out");
    assert_eq!(
        output_error("prog", &output(Some(2), b"", b"")),
        "prog exited with exit status: 2"
    );
    assert_eq!(
        output_error("prog", &output(None, b"", b"")),
        "prog exited with signal: 9 (SIGKILL)"
    );
    assert_eq!(
        checked_stdout("prog", Ok(output(None, b"fine", b""))),
        Err("prog: fine".to_string())
    );
}

#[test]
fn invalid_utf8_is_decoded_lossily() {
    let r = checked_stdout("prog", Ok(output(Some(0), b"ok\xff", b"")));
    assert_eq!(r, Ok("ok\u{fffd}".to_string()));
}

#[test]
fn asus_invocations_name_their_programs() {
    let c = AsusControl::new("/opt/asusctl".to_string(), "gfx".to_string(), "n".to_string());
    let inv = c.fan_profile_invocation();
    assert_eq!(inv.program, "/opt/asusctl");
    assert_eq!(args(&inv), ["profile", "get"]);
    let inv = c.set_fan_profile_invocation(FanProfile::Performance);
    assert_eq!(args(&inv), ["profile", "set", "Performance"]);
    let inv = c.graphics_mode_invocation();
    assert_eq!((inv.program.as_str(), args(&inv)), ("gfx", vec!["-g"]));
    let inv = c.pending_graphics_mode_invocation();
    assert_eq!(args(&inv), ["-P"]);
    let inv = c.set_graphics_mode_invocation(GraphicsMode::Integrated);
    assert_eq!(args(&inv), ["-m", "Integrated"]);
    let inv = c.request_logout_confirmation_invocation();
    assert_eq!((inv.program.as_str(), args(&inv)), ("n", vec!["msg", "action", "quit"]));
}

#[test]
fn asus_outcomes_are_interpreted() {
    let c = asus();
    assert_eq!(
        c.fan_profile(Ok(output(Some(0), b"Active profile is Quiet\n", b""))),
        Ok(FanProfile::Quiet)
    );
    assert_eq!(
        c.fan_profile(Ok(output(Some(0), b" Turbo \n", b""))),
        Err("Unrecognized asusctl profile output: Turbo".to_string())
    );
    assert_eq!(
        c.fan_profile(Ok(output(Some(1), b"", b"no daemon"))),
        Err("asusctl: no daemon".to_string())
    );
    assert_eq!(c.set_fan_profile(Ok(output(Some(0), b"", b""))), Ok(()));
    assert_eq!(
        c.set_fan_profile(Err("asusctl timed out after 10 seconds".to_string())),
        Err("asusctl timed out after 10 seconds".to_string())
    );
    assert_eq!(
        c.graphics_mode(Ok(output(Some(0), b"Hybrid", b""))),
        Ok(GraphicsMode::Hybrid)
    );
    assert_eq!(
        c.graphics_mode(Ok(output(Some(0), b"Vfio", b""))),
        Err("Unrecognized supergfxctl mode output: Vfio".to_string())
    );
    assert_eq!(c.pending_graphics_mode(Ok(output(Some(0), b"Unknown\n", b""))), Ok(None));
    assert_eq!(
        c.pending_graphics_mode(Ok(output(Some(0), b"Integrated\n", b""))),
        Ok(Some(GraphicsMode::Integrated))
    );
    assert_eq!(
        c.pending_graphics_mode(Ok(output(Some(0), b"AsusMuxDgpu", b""))),
        Err("Unsupported supergfxctl pending mode: AsusMuxDgpu".to_string())
    );
    assert_eq!(
        c.set_graphics_mode(Ok(output(Some(3), b"", b""))),
        Err("supergfxctl exited with exit status: 3".to_string())
    );
    assert_eq!(c.request_logout_confirmation(Ok(output(Some(0), b"", b""))), Ok(()));
    assert_eq!(
        c.request_logout_confirmation(Ok(output(Some(1), b"", b"not running"))),
        Err("niri: not running".to_string())
    );
}

#[test]
fn systemd_queries_and_toggles() {
    let c = systemd();
    let inv = c.is_active_invocation("wg-quick@wg-uk.service");
    assert_eq!(inv.program, "systemctl");
    assert_eq!(args(&inv), ["is-active", "wg-quick@wg-uk.service"]);
    let inv = c.set_active_invocation("sing-box.service", true);
    assert_eq!(inv.program, "sudo");
    assert_eq!(args(&inv), ["-n", "systemctl", "start", "sing-box.service"]);
    let inv = c.set_active_invocation("sing-box.service", false);
    assert_eq!(args(&inv), ["-n", "systemctl", "stop", "sing-box.service"]);

    let next = c.set_active("sing-box.service", Ok(output(Some(0), b"", b""))).unwrap();
    assert_eq!(next.program, "systemctl");
    assert_eq!(args(&next), ["is-active", "sing-box.service"]);
    let err = c.set_active(
        "sing-box.service",
        Ok(output(Some(1), b"", b"sudo: a password is required")),
    );
    assert_eq!(err.unwrap_err(), "sudo: sudo: a password is required");
}

#[test]
fn is_active_reads_state_and_exit_code() {
    let c = systemd();
    let unit = "wg-quick@wg-uk.service";
    assert_eq!(c.is_active(unit, Ok(output(Some(0), b"active\n", b""))), Ok(true));
    assert_eq!(c.is_active(unit, Ok(output(Some(3), b"inactive\n", b""))), Ok(false));
    assert_eq!(
        c.is_active(unit, Ok(output(Some(4), b"inactive\n", b""))),
        Err("systemd unit not found: wg-quick@wg-uk.service".to_string())
    );
    assert_eq!(
        c.is_active(unit, Ok(output(Some(1), b"", b"Failed to connect to bus"))),
        Err("systemctl: Failed to connect to bus".to_string())
    );
    assert_eq!(
        c.is_active(unit, Err("Failed to run systemctl: not found".to_string())),
        Err("Failed to run systemctl: not found".to_string())
    );
}
