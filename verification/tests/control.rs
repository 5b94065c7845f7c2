use vibepanel::command::NIRI_LOGOUT_ARGS;
use vibepanel::modes::{
    parse_fan_profile, parse_graphics_mode, parse_pending_graphics_mode, FanProfile,
    GraphicsMode,
};
use vibepanel::systemd::classify_systemd_state;

#[test]
fn parses_current_and_legacy_asusctl_profile_output() {
    assert_eq!(parse_fan_profile("Balanced\n"), Some(FanProfile::Balanced));
    assert_eq!(
        parse_fan_profile("Active profile is Performance"),
        Some(FanProfile::Performance)
    );
    assert_eq!(parse_fan_profile("Profile: quiet"), Some(FanProfile::Quiet));
    assert_eq!(parse_fan_profile("unknown"), None);
}

#[test]
fn parses_supergfxctl_modes_case_insensitively() {
    assert_eq!(
        parse_graphics_mode("Integrated"),
        Some(GraphicsMode::Integrated)
    );
    assert_eq!(
        parse_graphics_mode("mode: HYBRID"),
        Some(GraphicsMode::Hybrid)
    );
    assert_eq!(parse_graphics_mode("Vfio"), None);
}

#[test]
fn parses_pending_supergfxctl_modes_without_hiding_unsupported_modes() {
    assert_eq!(parse_pending_graphics_mode("Unknown"), Ok(None));
    assert_eq!(parse_pending_graphics_mode("None"), Ok(None));
    assert_eq!(
        parse_pending_graphics_mode("Hybrid"),
        Ok(Some(GraphicsMode::Hybrid))
    );
    assert!(parse_pending_graphics_mode("AsusMuxDgpu").is_err());
}

#[test]
fn niri_logout_command_preserves_confirmation() {
    assert_eq!(NIRI_LOGOUT_ARGS, ["msg", "action", "quit"]);
    assert!(!NIRI_LOGOUT_ARGS.contains(&"-s"));
    assert!(!NIRI_LOGOUT_ARGS.contains(&"--skip-confirmation"));
}

#[test]
fn classifies_normal_systemd_states_without_hiding_transport_errors() {
    assert_eq!(classify_systemd_state("active", Some(0)), Some(true));
    assert_eq!(classify_systemd_state("activating", Some(0)), Some(false));
    assert_eq!(classify_systemd_state("inactive", Some(3)), Some(false));
    assert_eq!(classify_systemd_state("failed", Some(3)), Some(false));
    assert_eq!(classify_systemd_state("inactive", Some(4)), None);
    assert_eq!(classify_systemd_state("", Some(1)), None);
    assert_eq!(classify_systemd_state("inactive", None), None);
}

#[test]
fn profile_labels_read_back_as_the_same_profile() {
    for profile in FanProfile::ALL {
        assert_eq!(profile.command_value(), profile.label());
        assert_eq!(parse_fan_profile(profile.command_value()), Some(profile));
    }
    for mode in GraphicsMode::ALL {
        assert_eq!(mode.command_value(), mode.label());
        assert_eq!(parse_graphics_mode(mode.command_value()), Some(mode));
        assert_eq!(parse_pending_graphics_mode(mode.label()), Ok(Some(mode)));
    }
    assert_eq!(FanProfile::Quiet.label(), "Quiet");
    assert_eq!(FanProfile::Balanced.label(), "Balanced");
    assert_eq!(FanProfile::Performance.label(), "Performance");
    assert_eq!(GraphicsMode::Integrated.label(), "Integrated");
    assert_eq!(GraphicsMode::Hybrid.label(), "Hybrid");
}

#[test]
fn fan_profile_priority_follows_performance_balanced_quiet() {
    assert_eq!(
        parse_fan_profile("quiet, balanced and PERFORMANCE"),
        Some(FanProfile::Performance)
    );
    assert_eq!(parse_fan_profile("Quiet or Balanced"), Some(FanProfile::Balanced));
    assert_eq!(parse_fan_profile(""), None);
    assert_eq!(parse_graphics_mode("hybrid integrated"), Some(GraphicsMode::Integrated));
}

#[test]
fn pending_mode_is_trimmed_and_case_insensitive() {
    assert_eq!(parse_pending_graphics_mode("  No Action Required\n"), Ok(None));
    assert_eq!(
        parse_pending_graphics_mode(" integrated \n"),
        Ok(Some(GraphicsMode::Integrated))
    );
    assert_eq!(
        parse_pending_graphics_mode(" Vfio "),
        Err("Unsupported supergfxctl pending mode:  Vfio ".to_string())
    );
    assert_eq!(
        parse_pending_graphics_mode(""),
        Err("Unsupported supergfxctl pending mode: ".to_string())
    );
}

#[test]
fn systemd_state_classification_edges() {
    assert_eq!(classify_systemd_state("deactivating", Some(3)), Some(false));
    assert_eq!(classify_systemd_state("activating", Some(3)), Some(false));
    assert_eq!(classify_systemd_state("active", Some(3)), None);
    assert_eq!(classify_systemd_state("Active", Some(0)), Some(false));
    assert_eq!(classify_systemd_state("active", Some(4)), None);
}
