//! Widget configuration entries and the ASUS and VPN control configurations
//! read from them.

use vstd::prelude::*;

use crate::text::{trim, trim_str};

verus! {

pub const DEFAULT_ASUS_ICON: &'static str = "system-monitor-symbolic";
pub const DEFAULT_ASUSCTL_COMMAND: &'static str = "asusctl";
pub const DEFAULT_SUPERGFXCTL_COMMAND: &'static str = "supergfxctl";
pub const DEFAULT_NIRI_COMMAND: &'static str = "niri";

pub const DEFAULT_VPN_ICON: &'static str = "network-vpn";
pub const DEFAULT_WIREGUARD_SERVICE: &'static str = "wg-quick@wg-uk.service";
pub const DEFAULT_SING_BOX_SERVICE: &'static str = "sing-box.service";
pub const DEFAULT_SUDO_COMMAND: &'static str = "sudo";
pub const DEFAULT_SYSTEMCTL_COMMAND: &'static str = "systemctl";

/// The value of a configuration option, as far as the controls read it:
/// either text, or a value of another kind.
pub enum OptionValue {
    Str(String),
    Other,
}

/// The text of a value, when it is text.
pub open spec fn value_text(v: OptionValue) -> Option<Seq<char>> {
    match v {
        OptionValue::Str(s) => Some(s@),
        OptionValue::Other => None,
    }
}

/// The options of one widget entry: each key at most once.
pub struct WidgetOptions {
    entries: Vec<(String, OptionValue)>,
}

/// Position `i` holds the option named `key`.
pub open spec fn key_at(entries: Seq<(String, OptionValue)>, i: int, key: Seq<char>) -> bool {
    0 <= i < entries.len() && entries[i].0@ == key
}

impl WidgetOptions {
    #[verifier::type_invariant]
    spec fn keys_distinct(self) -> bool {
        forall|i: int, j: int|
            0 <= i < self.entries@.len() && 0 <= j < self.entries@.len() && i != j
                ==> #[trigger] self.entries@[i].0@ != #[trigger] self.entries@[j].0@
    }

    /// The options as a map from key to the value's text (`None` when the
    /// value is not text).
    pub closed spec fn view(&self) -> Map<Seq<char>, Option<Seq<char>>> {
        Map::new(
            |k: Seq<char>| exists|i: int| key_at(self.entries@, i, k),
            |k: Seq<char>| value_text(self.entries@[choose|i: int| key_at(self.entries@, i, k)].1),
        )
    }

    /// No options.
    pub fn new() -> (o: Self)
        ensures
            o.view() == Map::<Seq<char>, Option<Seq<char>>>::empty(),
    {
        let o = WidgetOptions { entries: Vec::new() };
        assert(o.view() =~= Map::<Seq<char>, Option<Seq<char>>>::empty());
        o
    }

    /// The position of `key`, if present.
    fn find(&self, key: &str) -> (r: Option<usize>)
        ensures
            match r {
                Some(i) => key_at(self.entries@, i as int, key@),
                None => !exists|i: int| key_at(self.entries@, i, key@),
            },
    {
        let mut k: usize = 0;
        while k < self.entries.len()
            invariant
                k <= self.entries@.len(),
                forall|i: int| 0 <= i < k ==> !key_at(self.entries@, i, key@),
            decreases self.entries@.len() - k,
        {
            if self.entries[k].0.as_str().unicode_len() == key.unicode_len() && crate::text::chars_equal(
                &crate::text::chars_of(self.entries[k].0.as_str()),
                &crate::text::chars_of(key),
            ) {
                return Some(k);
            }
            k = k + 1;
        }
        None
    }

    /// Sets `key` to `value`, replacing any value it had.
    pub fn insert(&mut self, key: String, value: OptionValue)
        ensures
            final(self).view() == old(self).view().insert(key@, value_text(value)),
    {
        proof {
            use_type_invariant(&*self);
        }
        let ghost old_entries = self.entries@;
        let ghost kv = key@;
        let ghost tv = value_text(value);
        let found = self.find(key.as_str());
        let ghost slot: int = match found {
            Some(i) => i as int,
            None => old_entries.len() as int,
        };
        match found {
            Some(i) => {
                let mut entries: Vec<(String, OptionValue)> = Vec::new();
                std::mem::swap(&mut entries, &mut self.entries);
                entries.set(i, (key, value));
                proof {
                    assert forall|a: int, b: int|
                        0 <= a < entries@.len() && 0 <= b < entries@.len() && a != b
                            implies #[trigger] entries@[a].0@ != #[trigger] entries@[b].0@ by {
                        if a != i && b != i {
                            assert(old_entries[a].0@ != old_entries[b].0@);
                        } else if a == i {
                            assert(old_entries[a].0@ != old_entries[b].0@);
                        } else {
                            assert(old_entries[a].0@ != old_entries[b].0@);
                        }
                    }
                }
                self.entries = entries;
            },
            None => {
                let mut entries: Vec<(String, OptionValue)> = Vec::new();
                std::mem::swap(&mut entries, &mut self.entries);
                entries.push((key, value));
                proof {
                    assert(entries@.last().0@ == kv);
                    assert forall|a: int, b: int|
                        0 <= a < entries@.len() && 0 <= b < entries@.len() && a != b
                            implies #[trigger] entries@[a].0@ != #[trigger] entries@[b].0@ by {
                        if a < old_entries.len() && b < old_entries.len() {
                            assert(old_entries[a].0@ != old_entries[b].0@);
                        } else if a < old_entries.len() {
                            assert(!key_at(old_entries, a, kv));
                        } else {
                            assert(!key_at(old_entries, b, kv));
                        }
                    }
                }
                self.entries = entries;
            },
        }
        proof {
            let new_view = self.view();
            let expected = old(self).view().insert(kv, tv);
            assert forall|k: Seq<char>| #[trigger] new_view.dom().contains(k) <==> expected.dom().contains(k) by {
                if k != kv {
                    if new_view.dom().contains(k) {
                        let j = choose|j: int| key_at(self.entries@, j, k);
                        assert(key_at(old_entries, j, k));
                    }
                    if expected.dom().contains(k) {
                        let j = choose|j: int| key_at(old_entries, j, k);
                        assert(key_at(self.entries@, j, k));
                    }
                } else {
                    assert(key_at(self.entries@, slot, k));
                }
            }
            assert forall|k: Seq<char>| #[trigger] new_view.dom().contains(k) implies new_view[k] == expected[k] by {
                let j = choose|j: int| key_at(self.entries@, j, k);
                if k == kv {
                    assert(self.entries@[j].1 == value);
                } else {
                    let oj = choose|oj: int| key_at(old_entries, oj, k);
                    assert(key_at(old_entries, j, k));
                    assert(j == oj);
                }
            }
            assert(new_view =~= expected);
        }
    }

    /// The value set for `key`, if any.
    pub fn get(&self, key: &str) -> (r: Option<&OptionValue>)
        ensures
            match r {
                Some(v) => self.view().contains_key(key@) && self.view()[key@] == value_text(*v),
                None => !self.view().contains_key(key@),
            },
    {
        proof {
            use_type_invariant(self);
        }
        match self.find(key) {
            Some(i) => {
                proof {
                    let j = choose|j: int| key_at(self.entries@, j, key@);
                    assert(j == i);
                }
                Some(&self.entries[i].1)
            },
            None => None,
        }
    }
}

/// Reading an option back gives the value last set for it, and setting one
/// option leaves every other option as it was.
pub proof fn law_options_read_after_write(
    options: Map<Seq<char>, Option<Seq<char>>>,
    key: Seq<char>,
    value: OptionValue,
    other: Seq<char>,
)
    requires
        other != key,
    ensures
        options.insert(key, value_text(value)).contains_key(key),
        options.insert(key, value_text(value))[key] == value_text(value),
        options.insert(key, value_text(value)).contains_key(other) == options.contains_key(other),
        options.contains_key(other) ==> options.insert(key, value_text(value))[other]
            == options[other],
{
}

/// One widget's entry in the panel configuration.
pub struct WidgetEntry {
    pub name: String,
    pub options: WidgetOptions,
}

impl WidgetEntry {
    /// An entry for widget `name` with no options.
    pub fn new(name: &str) -> (e: Self)
        ensures
            e.name@ == name@,
            e.options.view() == Map::<Seq<char>, Option<Seq<char>>>::empty(),
    {
        WidgetEntry { name: name.to_owned(), options: WidgetOptions::new() }
    }
}

/// A text is blank when nothing but whitespace is in it.
pub open spec fn is_blank(s: Seq<char>) -> bool {
    trim(s).len() == 0
}

proof fn lemma_not_blank(s: Seq<char>)
    requires
        s.len() > 0,
        !crate::text::is_whitespace(s[0]),
        !crate::text::is_whitespace(s.last()),
    ensures
        !is_blank(s),
{
    assert(crate::text::trim_start(s) == s);
    assert(crate::text::trim_end(s) == s);
}

/// None of the default settings is blank.
proof fn lemma_defaults_not_blank()
    ensures
        !is_blank(DEFAULT_ASUS_ICON@),
        !is_blank(DEFAULT_ASUSCTL_COMMAND@),
        !is_blank(DEFAULT_SUPERGFXCTL_COMMAND@),
        !is_blank(DEFAULT_NIRI_COMMAND@),
        !is_blank(DEFAULT_VPN_ICON@),
        !is_blank(DEFAULT_WIREGUARD_SERVICE@),
        !is_blank(DEFAULT_SING_BOX_SERVICE@),
        !is_blank(DEFAULT_SUDO_COMMAND@),
        !is_blank(DEFAULT_SYSTEMCTL_COMMAND@),
{
    reveal_strlit("system-monitor-symbolic");
    reveal_strlit("asusctl");
    reveal_strlit("supergfxctl");
    reveal_strlit("niri");
    reveal_strlit("network-vpn");
    reveal_strlit("wg-quick@wg-uk.service");
    reveal_strlit("sing-box.service");
    reveal_strlit("sudo");
    reveal_strlit("systemctl");
    lemma_not_blank(DEFAULT_ASUS_ICON@);
    lemma_not_blank(DEFAULT_ASUSCTL_COMMAND@);
    lemma_not_blank(DEFAULT_SUPERGFXCTL_COMMAND@);
    lemma_not_blank(DEFAULT_NIRI_COMMAND@);
    lemma_not_blank(DEFAULT_VPN_ICON@);
    lemma_not_blank(DEFAULT_WIREGUARD_SERVICE@);
    lemma_not_blank(DEFAULT_SING_BOX_SERVICE@);
    lemma_not_blank(DEFAULT_SUDO_COMMAND@);
    lemma_not_blank(DEFAULT_SYSTEMCTL_COMMAND@);
}

/// The option `key` when it is set to text that is not blank, else `default`.
pub open spec fn spec_string_option(
    options: Map<Seq<char>, Option<Seq<char>>>,
    key: Seq<char>,
    default: Seq<char>,
) -> Seq<char> {
    if options.contains_key(key) && options[key] is Some && !is_blank(options[key]->0) {
        options[key]->0
    } else {
        default
    }
}

fn string_option(entry: &WidgetEntry, key: &str, default: &str) -> (s: String)
    ensures
        !is_blank(default@) ==> !is_blank(s@),
        s@ == spec_string_option(entry.options.view(), key@, default@),
{
    match entry.options.get(key) {
        Some(OptionValue::Str(value)) => {
            if trim_str(value.as_str()).as_str().unicode_len() != 0 {
                value.clone()
            } else {
                default.to_owned()
            }
        },
        _ => default.to_owned(),
    }
}


/// Configuration of the ASUS control widget.
pub struct AsusControlConfig {
    pub icon: String,
    pub asusctl_command: String,
    pub supergfxctl_command: String,
    pub niri_command: String,
}

/// Configuration of the VPN control widget.
pub struct VpnControlConfig {
    pub icon: String,
    pub wireguard_service: String,
    pub sing_box_service: String,
    pub sudo_command: String,
    pub systemctl_command: String,
}

impl AsusControlConfig {
    /// Reads the configuration from a widget entry; an option that is missing,
    /// not text, or blank falls back to its default.
    pub fn from_entry(entry: &WidgetEntry) -> (c: Self)
        ensures
            c.icon@ == spec_string_option(entry.options.view(), "icon"@, DEFAULT_ASUS_ICON@),
            c.asusctl_command@ == spec_string_option(
                entry.options.view(),
                "asusctl_command"@,
                DEFAULT_ASUSCTL_COMMAND@,
            ),
            c.supergfxctl_command@ == spec_string_option(
                entry.options.view(),
                "supergfxctl_command"@,
                DEFAULT_SUPERGFXCTL_COMMAND@,
            ),
            c.niri_command@ == spec_string_option(
                entry.options.view(),
                "niri_command"@,
                DEFAULT_NIRI_COMMAND@,
            ),
            !is_blank(c.icon@),
            !is_blank(c.asusctl_command@),
            !is_blank(c.supergfxctl_command@),
            !is_blank(c.niri_command@),
    {
        proof {
            lemma_defaults_not_blank();
        }
        AsusControlConfig {
            icon: string_option(entry, "icon", DEFAULT_ASUS_ICON),
            asusctl_command: string_option(entry, "asusctl_command", DEFAULT_ASUSCTL_COMMAND),
            supergfxctl_command: string_option(
                entry,
                "supergfxctl_command",
                DEFAULT_SUPERGFXCTL_COMMAND,
            ),
            niri_command: string_option(entry, "niri_command", DEFAULT_NIRI_COMMAND),
        }
    }
}

impl Default for AsusControlConfig {
    fn default() -> (c: Self)
        ensures
            c.icon@ == DEFAULT_ASUS_ICON@,
            c.asusctl_command@ == DEFAULT_ASUSCTL_COMMAND@,
            c.supergfxctl_command@ == DEFAULT_SUPERGFXCTL_COMMAND@,
            c.niri_command@ == DEFAULT_NIRI_COMMAND@,
    {
        AsusControlConfig {
            icon: DEFAULT_ASUS_ICON.to_owned(),
            asusctl_command: DEFAULT_ASUSCTL_COMMAND.to_owned(),
            supergfxctl_command: DEFAULT_SUPERGFXCTL_COMMAND.to_owned(),
            niri_command: DEFAULT_NIRI_COMMAND.to_owned(),
        }
    }
}

impl VpnControlConfig {
    /// Reads the configuration from a widget entry; an option that is missing,
    /// not text, or blank falls back to its default.
    pub fn from_entry(entry: &WidgetEntry) -> (c: Self)
        ensures
            c.icon@ == spec_string_option(entry.options.view(), "icon"@, DEFAULT_VPN_ICON@),
            c.wireguard_service@ == spec_string_option(
                entry.options.view(),
                "wireguard_service"@,
                DEFAULT_WIREGUARD_SERVICE@,
            ),
            c.sing_box_service@ == spec_string_option(
                entry.options.view(),
                "sing_box_service"@,
                DEFAULT_SING_BOX_SERVICE@,
            ),
            c.sudo_command@ == spec_string_option(
                entry.options.view(),
                "sudo_command"@,
                DEFAULT_SUDO_COMMAND@,
            ),
            c.systemctl_command@ == spec_string_option(
                entry.options.view(),
                "systemctl_command"@,
                DEFAULT_SYSTEMCTL_COMMAND@,
            ),
            !is_blank(c.icon@),
            !is_blank(c.wireguard_service@),
            !is_blank(c.sing_box_service@),
            !is_blank(c.sudo_command@),
            !is_blank(c.systemctl_command@),
    {
        proof {
            lemma_defaults_not_blank();
        }
        VpnControlConfig {
            icon: string_option(entry, "icon", DEFAULT_VPN_ICON),
            wireguard_service: string_option(
                entry,
                "wireguard_service",
                DEFAULT_WIREGUARD_SERVICE,
            ),
            sing_box_service: string_option(entry, "sing_box_service", DEFAULT_SING_BOX_SERVICE),
            sudo_command: string_option(entry, "sudo_command", DEFAULT_SUDO_COMMAND),
            systemctl_command: string_option(entry, "systemctl_command", DEFAULT_SYSTEMCTL_COMMAND),
        }
    }
}

impl Default for VpnControlConfig {
    fn default() -> (c: Self)
        ensures
            c.icon@ == DEFAULT_VPN_ICON@,
            c.wireguard_service@ == DEFAULT_WIREGUARD_SERVICE@,
            c.sing_box_service@ == DEFAULT_SING_BOX_SERVICE@,
            c.sudo_command@ == DEFAULT_SUDO_COMMAND@,
            c.systemctl_command@ == DEFAULT_SYSTEMCTL_COMMAND@,
    {
        VpnControlConfig {
            icon: DEFAULT_VPN_ICON.to_owned(),
            wireguard_service: DEFAULT_WIREGUARD_SERVICE.to_owned(),
            sing_box_service: DEFAULT_SING_BOX_SERVICE.to_owned(),
            sudo_command: DEFAULT_SUDO_COMMAND.to_owned(),
            systemctl_command: DEFAULT_SYSTEMCTL_COMMAND.to_owned(),
        }
    }
}

} // verus!
