use vibepanel::config::{AsusControlConfig, OptionValue, VpnControlConfig, WidgetEntry};

#[test]
fn parses_command_and_icon_overrides() {
    let mut entry = WidgetEntry::new("asus_control");
    entry.options.insert(
        "icon".to_string(),
        OptionValue::Str("configure-symbolic".to_string()),
    );
    entry.options.insert(
        "asusctl_command".to_string(),
        OptionValue::Str("/opt/bin/asusctl".to_string()),
    );

    let config = AsusControlConfig::from_entry(&entry);
    assert_eq!(config.icon, "configure-symbolic");
    assert_eq!(config.asusctl_command, "/opt/bin/asusctl");
    assert_eq!(config.supergfxctl_command, "supergfxctl");
    assert_eq!(config.niri_command, "niri");
}

#[test]
fn parses_service_overrides() {
    let mut entry = WidgetEntry::new("vpn_control");
    entry.options.insert(
        "wireguard_service".to_string(),
        OptionValue::Str("wg-quick@home.service".to_string()),
    );

    let config = VpnControlConfig::from_entry(&entry);
    assert_eq!(config.wireguard_service, "wg-quick@home.service");
    assert_eq!(config.sing_box_service, "sing-box.service");
    assert_eq!(config.sudo_command, "sudo");
}

#[test]
fn blank_or_non_text_options_fall_back_to_defaults() {
    let mut entry = WidgetEntry::new("asus_control");
    entry.options.insert("icon".to_string(), OptionValue::Str("  \t\n".to_string()));
    entry.options.insert("niri_command".to_string(), OptionValue::Other);
    entry.options.insert(
        "supergfxctl_command".to_string(),
        OptionValue::Str(" spaced ".to_string()),
    );
    let config = AsusControlConfig::from_entry(&entry);
    assert_eq!(config.icon, "system-monitor-symbolic");
    assert_eq!(config.niri_command, "niri");
    assert_eq!(config.supergfxctl_command, " spaced ");
    assert_eq!(config.asusctl_command, "asusctl");
}

#[test]
fn later_insert_replaces_earlier_value() {
    let mut entry = WidgetEntry::new("vpn_control");
    entry.options.insert("sudo_command".to_string(), OptionValue::Str("doas".to_string()));
    entry.options.insert("sudo_command".to_string(), OptionValue::Str("run0".to_string()));
    let config = VpnControlConfig::from_entry(&entry);
    assert_eq!(config.sudo_command, "run0");
    assert!(matches!(entry.options.get("sudo_command"), Some(OptionValue::Str(v)) if v == "run0"));
    assert!(entry.options.get("icon").is_none());
    assert_eq!(entry.name, "vpn_control");
}

#[test]
fn defaults_match_an_empty_entry() {
    let asus = AsusControlConfig::default();
    let from_empty = AsusControlConfig::from_entry(&WidgetEntry::new("asus_control"));
    assert_eq!(asus.icon, from_empty.icon);
    assert_eq!(asus.asusctl_command, from_empty.asusctl_command);
    assert_eq!(asus.supergfxctl_command, from_empty.supergfxctl_command);
    assert_eq!(asus.niri_command, from_empty.niri_command);

    let vpn = VpnControlConfig::default();
    assert_eq!(vpn.icon, "network-vpn");
    assert_eq!(vpn.wireguard_service, "wg-quick@wg-uk.service");
    assert_eq!(vpn.sing_box_service, "sing-box.service");
    assert_eq!(vpn.sudo_command, "sudo");
    assert_eq!(vpn.systemctl_command, "systemctl");
}
