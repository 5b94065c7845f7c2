use vibepanel::config::{AsusControlConfig, VpnControlConfig};
use vibepanel::fan_panel::{fan_icon, FanPanel};
use vibepanel::graphics_panel::{graphics_icon, GraphicsPanel, GraphicsStep};
use vibepanel::modes::{FanProfile, GraphicsMode};
use vibepanel::panel::WorkerOutcome;
use vibepanel::service_toggle::ServiceToggle;
use vibepanel::widgets::{css, AsusControlWidget, VpnControlWidget, CONTROL_CSS};

fn active_flags(buttons: &[vibepanel::panel::ButtonState]) -> Vec<bool> {
    buttons.iter().map(|b| b.active).collect()
}

#[test]
fn fan_panel_highlights_only_the_profile_in_use() {
    let mut panel = FanPanel::new();
    assert_eq!(panel.current(), None);
    assert_eq!(active_flags(panel.buttons()), [false, false, false]);
    assert_eq!(panel.buttons()[0].tooltip, "Use the Quiet ASUS fan profile");

    panel.begin_read();
    assert!(!panel.is_sensitive());
    assert!(!panel.click(FanProfile::Quiet));
    panel.finish_read(WorkerOutcome::Finished(Ok(FanProfile::Balanced)));
    assert!(panel.is_sensitive());
    assert_eq!(active_flags(panel.buttons()), [false, true, false]);

    assert!(!panel.click(FanProfile::Balanced));
    assert!(panel.is_sensitive());
    assert!(panel.click(FanProfile::Performance));
    assert!(!panel.is_sensitive());
    panel.finish_set(FanProfile::Performance, WorkerOutcome::Finished(Ok(())));
    assert_eq!(panel.current(), Some(FanProfile::Performance));
    assert_eq!(active_flags(panel.buttons()), [false, false, true]);
    assert!(panel.buttons().iter().all(|b| !b.unavailable));
}

#[test]
fn fan_panel_errors_keep_the_highlight() {
    let mut panel = FanPanel::new();
    panel.begin_read();
    panel.finish_read(WorkerOutcome::Finished(Ok(FanProfile::Quiet)));
    assert!(panel.click(FanProfile::Balanced));
    panel.finish_set(
        FanProfile::Balanced,
        WorkerOutcome::Finished(Err("asusctl: denied".to_string())),
    );
    assert_eq!(panel.current(), Some(FanProfile::Quiet));
    assert_eq!(active_flags(panel.buttons()), [true, false, false]);
    assert!(panel.buttons().iter().all(|b| b.unavailable && b.tooltip == "asusctl: denied"));
    assert!(panel.is_sensitive());

    assert!(panel.click(FanProfile::Balanced));
    panel.finish_set(FanProfile::Balanced, WorkerOutcome::Panicked);
    assert!(panel.buttons().iter().all(|b| b.tooltip == "ASUS profile worker panicked"));
}

#[test]
fn graphics_panel_requests_then_asks_for_logout() {
    let mut panel = GraphicsPanel::new();
    panel.begin_read();
    panel.finish_read(WorkerOutcome::Finished((Ok(GraphicsMode::Hybrid), Ok(None))));
    assert_eq!(active_flags(panel.buttons()), [false, true]);
    assert_eq!(
        panel.buttons()[0].tooltip,
        "Switch to Integrated graphics and confirm logout"
    );

    assert_eq!(panel.click(GraphicsMode::Hybrid, "Niri"), GraphicsStep::Nothing);
    assert_eq!(
        panel.click(GraphicsMode::Integrated, "Niri"),
        GraphicsStep::Request(GraphicsMode::Integrated)
    );
    assert!(!panel.is_sensitive());
    let logout = panel.finish_request(WorkerOutcome::Finished(Ok(Some(GraphicsMode::Integrated))));
    assert_eq!(logout, Some(GraphicsMode::Integrated));
    assert_eq!(panel.requested(), Some(GraphicsMode::Integrated));
    assert!(!panel.is_sensitive());
    assert_eq!(active_flags(panel.buttons()), [false, true]);
    panel.finish_logout(WorkerOutcome::Finished(Ok(())));
    assert!(panel.is_sensitive());

    // The switch is pending: clicking it again only reopens the confirmation.
    assert_eq!(
        panel.click(GraphicsMode::Integrated, "Niri"),
        GraphicsStep::Logout(GraphicsMode::Integrated)
    );
    panel.finish_logout(WorkerOutcome::Finished(Err("niri: gone".to_string())));
    assert!(panel.buttons().iter().all(|b| b.unavailable && b.tooltip == "niri: gone"));

    // With a switch pending, even the current mode can be clicked.
    assert_eq!(
        panel.click(GraphicsMode::Hybrid, "Niri"),
        GraphicsStep::Request(GraphicsMode::Hybrid)
    );
    assert_eq!(panel.finish_request(WorkerOutcome::Finished(Ok(None))), None);
    assert_eq!(panel.requested(), None);
    assert!(panel.is_sensitive());
}

#[test]
fn graphics_panel_needs_niri_and_reports_errors() {
    let mut panel = GraphicsPanel::new();
    panel.begin_read();
    panel.finish_read(WorkerOutcome::Finished((
        Err("supergfxctl: down".to_string()),
        Err("supergfxctl: still down".to_string()),
    )));
    assert_eq!(panel.current(), None);
    assert!(panel.buttons().iter().all(|b| b.tooltip == "supergfxctl: still down"));

    assert_eq!(panel.click(GraphicsMode::Hybrid, "Hyprland"), GraphicsStep::Nothing);
    assert!(panel.is_sensitive());
    assert_eq!(
        panel.buttons()[1].tooltip,
        "Automatic graphics switching is supported only on Niri"
    );

    assert_eq!(
        panel.click(GraphicsMode::Hybrid, "Niri"),
        GraphicsStep::Request(GraphicsMode::Hybrid)
    );
    assert_eq!(panel.finish_request(WorkerOutcome::Panicked), None);
    assert!(panel.buttons().iter().all(|b| b.tooltip == "Graphics mode worker panicked"));
    assert!(panel.is_sensitive());

    panel.begin_read();
    panel.finish_read(WorkerOutcome::Panicked);
    assert!(panel.is_sensitive());
}

#[test]
fn service_toggle_follows_reported_state() {
    let widget = VpnControlWidget::new(VpnControlConfig::default());
    let target = &widget.targets()[0];
    let mut toggle = ServiceToggle::new(target);
    assert_eq!(toggle.button().tooltip, "Toggle WireGuard UK (wg-quick@wg-uk.service)");
    assert_eq!(toggle.unit(), "wg-quick@wg-uk.service");

    toggle.begin_read();
    assert_eq!(toggle.click(), None);
    toggle.finish_read(WorkerOutcome::Finished(Ok(true)));
    assert!(toggle.button().active);
    assert_eq!(toggle.button().tooltip, "WireGuard UK: active");

    assert_eq!(toggle.click(), Some(false));
    toggle.finish_toggle(WorkerOutcome::Finished(Ok(false)));
    assert_eq!(toggle.active(), Some(false));
    assert!(!toggle.button().active);
    assert_eq!(toggle.button().tooltip, "WireGuard UK: inactive");

    assert_eq!(toggle.click(), Some(true));
    toggle.finish_toggle(WorkerOutcome::Finished(Err("sudo: denied".to_string())));
    assert_eq!(toggle.button().tooltip, "wg-quick@wg-uk.service: sudo: denied");
    assert!(toggle.button().unavailable);
    assert!(!toggle.button().active);
    assert!(toggle.is_sensitive());

    assert_eq!(toggle.click(), Some(true));
    toggle.finish_toggle(WorkerOutcome::Panicked);
    assert_eq!(toggle.button().tooltip, "Service control worker panicked");
}

#[test]
fn unknown_service_state_toggles_to_started() {
    let widget = VpnControlWidget::new(VpnControlConfig::default());
    let mut toggle = ServiceToggle::new(&widget.targets()[1]);
    toggle.begin_read();
    toggle.finish_read(WorkerOutcome::Panicked);
    assert_eq!(toggle.button().tooltip, "Service state worker panicked");
    assert_eq!(toggle.active(), None);
    assert_eq!(toggle.click(), Some(true));
}

#[test]
fn widgets_carry_their_configuration() {
    let asus = AsusControlWidget::new(AsusControlConfig::default());
    assert_eq!(asus.tooltip(), "ASUS Control");
    assert_eq!(asus.icon(), "system-monitor-symbolic");
    assert_eq!(asus.control().fan_profile_invocation().program, "asusctl");

    let vpn = VpnControlWidget::new(VpnControlConfig::default());
    assert_eq!(vpn.tooltip(), "VPN Control");
    assert_eq!(vpn.icon(), "network-vpn");
    let targets = vpn.targets();
    assert_eq!(targets[0].label(), "WireGuard UK");
    assert_eq!(targets[0].icon(), "network-vpn");
    assert_eq!(targets[1].label(), "sing-box");
    assert_eq!(targets[1].icon(), "network-transmit-receive-symbolic");
    assert_eq!(targets[1].unit(), "sing-box.service");
    assert_eq!(vpn.control().is_active_invocation("x").program, "systemctl");
}

#[test]
fn css_styles_the_control_panel() {
    assert_eq!(css(), CONTROL_CSS);
    assert!(css().contains(".control-panel-button.service-unavailable"));
    assert!(css().contains("min-width: 300px;"));
}

#[test]
fn buttons_have_their_icons() {
    assert_eq!(fan_icon(FanProfile::Quiet), "weather-wind");
    assert_eq!(fan_icon(FanProfile::Balanced), "system-monitor-symbolic");
    assert_eq!(fan_icon(FanProfile::Performance), "cpu-symbolic");
    assert_eq!(graphics_icon(GraphicsMode::Integrated), "video-display-symbolic");
    assert_eq!(graphics_icon(GraphicsMode::Hybrid), "computer-symbolic");
}
