//! What the ASUS and VPN control widgets show, and the stylesheet of the
//! control panels.

use vstd::prelude::*;

use crate::asus::AsusControl;
use crate::config::{AsusControlConfig, VpnControlConfig};
use crate::systemd::SystemdControl;

verus! {

/// The stylesheet of the compact command-backed control panels.
pub const CONTROL_CSS: &'static str = r#"
/* ===== COMMAND-BACKED CONTROL PANELS ===== */

.control-panel {
    min-width: 300px;
}

.control-panel-button {
    min-width: 0;
    min-height: 36px;
    border-radius: var(--radius-widget);
    font-size: var(--font-size-sm);
}

.control-panel-button > overlay > box {
    padding: 7px 10px;
}

button.control-panel-button label {
    margin: 0;
}

.control-panel-button-icon {
    font-size: 1em;
}

.control-panel-button.service-unavailable {
    color: var(--color-state-urgent);
}

.control-panel-button:hover {
    background: var(--color-card-overlay-hover);
}
"#;

pub fn css() -> (s: &'static str)
    ensures
        s@ == CONTROL_CSS@,
{
    CONTROL_CSS
}

/// The ASUS control widget: its tooltip, its icon and the controls its popover drives.
pub struct AsusControlWidget {
    icon: String,
    control: AsusControl,
}

impl AsusControlWidget {
    pub closed spec fn icon_name(&self) -> Seq<char> {
        self.icon@
    }

    pub closed spec fn spec_control(&self) -> AsusControl {
        self.control
    }

    pub fn new(config: AsusControlConfig) -> (w: Self)
        ensures
            w.icon_name() == config.icon@,
            w.spec_control().asusctl() == config.asusctl_command@,
            w.spec_control().supergfxctl() == config.supergfxctl_command@,
            w.spec_control().niri() == config.niri_command@,
    {
        let control = AsusControl::new(
            config.asusctl_command,
            config.supergfxctl_command,
            config.niri_command,
        );
        AsusControlWidget { icon: config.icon, control }
    }

    pub fn tooltip(&self) -> (s: &'static str)
        ensures
            s@ == "ASUS Control"@,
    {
        "ASUS Control"
    }

    pub fn icon(&self) -> (s: &str)
        ensures
            s@ == self.icon_name(),
    {
        self.icon.as_str()
    }

    pub fn control(&self) -> (c: &AsusControl)
        ensures
            *c == self.spec_control(),
    {
        &self.control
    }
}

/// A systemd unit that a VPN control button toggles.
pub struct VpnServiceTarget {
    label: &'static str,
    icon: &'static str,
    unit: String,
}

impl VpnServiceTarget {
    pub closed spec fn spec_label(&self) -> Seq<char> {
        self.label@
    }

    pub closed spec fn spec_icon(&self) -> Seq<char> {
        self.icon@
    }

    pub closed spec fn spec_unit(&self) -> Seq<char> {
        self.unit@
    }

    pub fn new(label: &'static str, icon: &'static str, unit: String) -> (t: Self)
        ensures
            t.spec_label() == label@,
            t.spec_icon() == icon@,
            t.spec_unit() == unit@,
    {
        VpnServiceTarget { label, icon, unit }
    }

    pub fn label(&self) -> (s: &'static str)
        ensures
            s@ == self.spec_label(),
    {
        self.label
    }

    pub fn icon(&self) -> (s: &'static str)
        ensures
            s@ == self.spec_icon(),
    {
        self.icon
    }

    pub fn unit(&self) -> (s: &str)
        ensures
            s@ == self.spec_unit(),
    {
        self.unit.as_str()
    }
}

/// The VPN control widget: its tooltip, its icon, the service controls and the
/// two units its popover toggles.
pub struct VpnControlWidget {
    icon: String,
    control: SystemdControl,
    targets: [VpnServiceTarget; 2],
}

impl VpnControlWidget {
    pub closed spec fn icon_name(&self) -> Seq<char> {
        self.icon@
    }

    pub closed spec fn spec_control(&self) -> SystemdControl {
        self.control
    }

    pub closed spec fn spec_targets(&self) -> Seq<VpnServiceTarget> {
        self.targets@
    }

    pub fn new(config: VpnControlConfig) -> (w: Self)
        ensures
            w.icon_name() == config.icon@,
            w.spec_control().sudo() == config.sudo_command@,
            w.spec_control().systemctl() == config.systemctl_command@,
            w.spec_targets().len() == 2,
            w.spec_targets()[0].spec_label() == "WireGuard UK"@,
            w.spec_targets()[0].spec_icon() == "network-vpn"@,
            w.spec_targets()[0].spec_unit() == config.wireguard_service@,
            w.spec_targets()[1].spec_label() == "sing-box"@,
            w.spec_targets()[1].spec_icon() == "network-transmit-receive-symbolic"@,
            w.spec_targets()[1].spec_unit() == config.sing_box_service@,
    {
        let control = SystemdControl::new(config.sudo_command, config.systemctl_command);
        let targets = [
            VpnServiceTarget::new("WireGuard UK", "network-vpn", config.wireguard_service),
            VpnServiceTarget::new(
                "sing-box",
                "network-transmit-receive-symbolic",
                config.sing_box_service,
            ),
        ];
        VpnControlWidget { icon: config.icon, control, targets }
    }

    pub fn tooltip(&self) -> (s: &'static str)
        ensures
            s@ == "VPN Control"@,
    {
        "VPN Control"
    }

    pub fn icon(&self) -> (s: &str)
        ensures
            s@ == self.icon_name(),
    {
        self.icon.as_str()
    }

    pub fn control(&self) -> (c: &SystemdControl)
        ensures
            *c == self.spec_control(),
    {
        &self.control
    }

    /// The units the popover toggles, in the order it shows them.
    pub fn targets(&self) -> (t: &[VpnServiceTarget; 2])
        ensures
            t@ == self.spec_targets(),
    {
        &self.targets
    }
}

} // verus!
