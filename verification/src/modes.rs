//! ASUS fan profiles and graphics modes, and the parsers for the output of
//! `asusctl` and `supergfxctl`.

use vstd::prelude::*;

use crate::text::{
    chars_equal, chars_of, concat, result_view, contains, contains_chars, lower_chars, to_ascii_lower, trim,
    trim_str,
};

verus! {

/// ASUS fan profiles supported by `asusctl`.
#[derive(Debug, Clone, Copy, PartialEq, Eq, Structural)]
pub enum FanProfile {
    Quiet,
    Balanced,
    Performance,
}

/// Graphics modes exposed by the ASUS control panel.
#[derive(Debug, Clone, Copy, PartialEq, Eq, Structural)]
pub enum GraphicsMode {
    Integrated,
    Hybrid,
}

/// The display label of a fan profile.
pub open spec fn fan_label(profile: FanProfile) -> Seq<char> {
    match profile {
        FanProfile::Quiet => "Quiet"@,
        FanProfile::Balanced => "Balanced"@,
        FanProfile::Performance => "Performance"@,
    }
}

/// The display label of a graphics mode.
pub open spec fn graphics_label(mode: GraphicsMode) -> Seq<char> {
    match mode {
        GraphicsMode::Integrated => "Integrated"@,
        GraphicsMode::Hybrid => "Hybrid"@,
    }
}

impl FanProfile {
    /// Every fan profile, in the order the panel shows them.
    pub const ALL: [FanProfile; 3] = [FanProfile::Quiet, FanProfile::Balanced, FanProfile::Performance];

    pub fn label(self) -> (s: &'static str)
        ensures
            s@ == fan_label(self),
    {
        match self {
            FanProfile::Quiet => "Quiet",
            FanProfile::Balanced => "Balanced",
            FanProfile::Performance => "Performance",
        }
    }

    /// The value `asusctl profile set` takes for this profile: its label.
    pub fn command_value(self) -> (s: &'static str)
        ensures
            s@ == fan_label(self),
    {
        self.label()
    }
}

impl GraphicsMode {
    /// Every graphics mode, in the order the panel shows them.
    pub const ALL: [GraphicsMode; 2] = [GraphicsMode::Integrated, GraphicsMode::Hybrid];

    pub fn label(self) -> (s: &'static str)
        ensures
            s@ == graphics_label(self),
    {
        match self {
            GraphicsMode::Integrated => "Integrated",
            GraphicsMode::Hybrid => "Hybrid",
        }
    }

    /// The value `supergfxctl -m` takes for this mode: its label.
    pub fn command_value(self) -> (s: &'static str)
        ensures
            s@ == graphics_label(self),
    {
        self.label()
    }
}

/// The fan profile that `asusctl profile get` reports in `output`: the first of
/// "performance", "balanced", "quiet" that occurs in it, compared ignoring ASCII case.
pub open spec fn spec_parse_fan_profile(output: Seq<char>) -> Option<FanProfile> {
    let normalized = to_ascii_lower(output);
    if contains(normalized, "performance"@) {
        Some(FanProfile::Performance)
    } else if contains(normalized, "balanced"@) {
        Some(FanProfile::Balanced)
    } else if contains(normalized, "quiet"@) {
        Some(FanProfile::Quiet)
    } else {
        None
    }
}

/// The graphics mode that `supergfxctl -g` reports in `output`: "integrated"
/// before "hybrid", compared ignoring ASCII case.
pub open spec fn spec_parse_graphics_mode(output: Seq<char>) -> Option<GraphicsMode> {
    let normalized = to_ascii_lower(output);
    if contains(normalized, "integrated"@) {
        Some(GraphicsMode::Integrated)
    } else if contains(normalized, "hybrid"@) {
        Some(GraphicsMode::Hybrid)
    } else {
        None
    }
}

/// Reads the fan profile from the output of `asusctl profile get`, in its
/// current ("Balanced") and legacy ("Active profile is Performance") forms.
pub fn parse_fan_profile(output: &str) -> (r: Option<FanProfile>)
    ensures
        r == spec_parse_fan_profile(output@),
{
    let normalized = lower_chars(&chars_of(output));
    if contains_chars(&normalized, &chars_of("performance")) {
        Some(FanProfile::Performance)
    } else if contains_chars(&normalized, &chars_of("balanced")) {
        Some(FanProfile::Balanced)
    } else if contains_chars(&normalized, &chars_of("quiet")) {
        Some(FanProfile::Quiet)
    } else {
        None
    }
}

/// Reads the graphics mode from the output of `supergfxctl -g`.
pub fn parse_graphics_mode(output: &str) -> (r: Option<GraphicsMode>)
    ensures
        r == spec_parse_graphics_mode(output@),
{
    parse_graphics_mode_chars(&chars_of(output))
}

fn parse_graphics_mode_chars(output: &Vec<char>) -> (r: Option<GraphicsMode>)
    ensures
        r == spec_parse_graphics_mode(output@),
{
    let normalized = lower_chars(output);
    if contains_chars(&normalized, &chars_of("integrated")) {
        Some(GraphicsMode::Integrated)
    } else if contains_chars(&normalized, &chars_of("hybrid")) {
        Some(GraphicsMode::Hybrid)
    } else {
        None
    }
}


/// The pending-mode reports of `supergfxctl -P` that mean "no switch pending".
pub open spec fn is_no_pending_report(normalized: Seq<char>) -> bool {
    normalized == "unknown"@ || normalized == "none"@ || normalized == "no action required"@
}

/// What `supergfxctl -P` reports in `output`: no pending switch, a pending
/// switch to a supported mode, or an error naming the unsupported report.
pub open spec fn spec_parse_pending_graphics_mode(output: Seq<char>) -> Result<
    Option<GraphicsMode>,
    Seq<char>,
> {
    let normalized = to_ascii_lower(trim(output));
    if is_no_pending_report(normalized) {
        Ok(None)
    } else {
        match spec_parse_graphics_mode(normalized) {
            Some(mode) => Ok(Some(mode)),
            None => Err("Unsupported supergfxctl pending mode: "@ + output),
        }
    }
}

/// Reads the pending graphics mode from the output of `supergfxctl -P`.
/// A mode that is reported but not supported is an error, never "no pending mode".
pub fn parse_pending_graphics_mode(output: &str) -> (r: Result<Option<GraphicsMode>, String>)
    ensures
        result_view(r) == spec_parse_pending_graphics_mode(output@),
{
    let normalized = lower_chars(&chars_of(trim_str(output).as_str()));
    if chars_equal(&normalized, &chars_of("unknown")) || chars_equal(
        &normalized,
        &chars_of("none"),
    ) || chars_equal(&normalized, &chars_of("no action required")) {
        return Ok(None);
    }
    match parse_graphics_mode_chars(&normalized) {
        Some(mode) => Ok(Some(mode)),
        None => Err(concat("Unsupported supergfxctl pending mode: ", output)),
    }
}


proof fn lemma_not_contains_longer(hay: Seq<char>, needle: Seq<char>)
    requires
        hay.len() < needle.len(),
    ensures
        !contains(hay, needle),
{
}

proof fn lemma_contains_self(s: Seq<char>)
    ensures
        contains(s, s),
{
    assert(s.subrange(0, s.len() as int) =~= s);
    assert(crate::text::occurs_at(s, s, 0));
}

/// Parsing the value that `asusctl profile set` is given for a profile reads
/// back that same profile.
pub proof fn law_fan_profile_round_trip(profile: FanProfile)
    ensures
        spec_parse_fan_profile(fan_label(profile)) == Some(profile),
{
    reveal_strlit("Quiet");
    reveal_strlit("Balanced");
    reveal_strlit("Performance");
    reveal_strlit("quiet");
    reveal_strlit("balanced");
    reveal_strlit("performance");
    let lowered = to_ascii_lower(fan_label(profile));
    match profile {
        FanProfile::Quiet => {
            assert(lowered =~= "quiet"@);
            lemma_contains_self("quiet"@);
            lemma_not_contains_longer(lowered, "performance"@);
            lemma_not_contains_longer(lowered, "balanced"@);
        },
        FanProfile::Balanced => {
            assert(lowered =~= "balanced"@);
            lemma_contains_self("balanced"@);
            lemma_not_contains_longer(lowered, "performance"@);
        },
        FanProfile::Performance => {
            assert(lowered =~= "performance"@);
            lemma_contains_self("performance"@);
        },
    }
}

/// Parsing the value that `supergfxctl -m` is given for a mode reads back that
/// same mode, both as the current mode and as a pending switch.
pub proof fn law_graphics_mode_round_trip(mode: GraphicsMode)
    ensures
        spec_parse_graphics_mode(graphics_label(mode)) == Some(mode),
        spec_parse_pending_graphics_mode(graphics_label(mode)) == Ok::<
            Option<GraphicsMode>,
            Seq<char>,
        >(Some(mode)),
{
    reveal_strlit("Integrated");
    reveal_strlit("Hybrid");
    reveal_strlit("integrated");
    reveal_strlit("hybrid");
    reveal_strlit("unknown");
    reveal_strlit("none");
    reveal_strlit("no action required");
    let label = graphics_label(mode);
    let lowered = to_ascii_lower(label);
    assert(crate::text::trim_start(label) == label);
    assert(crate::text::trim_end(label) == label);
    assert(to_ascii_lower(lowered) =~= lowered);
    match mode {
        GraphicsMode::Integrated => {
            assert(lowered =~= "integrated"@);
            lemma_contains_self("integrated"@);
            assert(lowered != "unknown"@);
            assert(lowered != "none"@);
            assert(lowered != "no action required"@);
        },
        GraphicsMode::Hybrid => {
            assert(lowered =~= "hybrid"@);
            lemma_contains_self("hybrid"@);
            lemma_not_contains_longer(lowered, "integrated"@);
            assert(lowered != "unknown"@);
            assert(lowered != "none"@);
            assert(lowered != "no action required"@);
        },
    }
}

} // verus!
