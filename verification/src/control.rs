//! The capability resolver: which color tier is active, and whether color
//! is emitted at all.
//!
//! The state is an ordinary value. A hosting program keeps one instance for
//! the whole process behind a lock of its choice, feeds it the signals it
//! reads from the environment, and asks it for the tier before rendering.

use vstd::prelude::*;

verus! {

/// The richest color representation an output destination accepts.
///
/// The tiers are ordered: `NoColor < Ansi16 < Ansi256 < TrueColor`.
#[derive(Clone, Copy, Debug, PartialEq, Eq, Structural, Hash)]
pub enum ColorLevel {
    /// No color at all.
    NoColor,
    /// The 16 named colors.
    Ansi16,
    /// The 256-entry indexed palette.
    Ansi256,
    /// 24-bit color.
    TrueColor,
}

/// An explicit instruction from the hosting program that outranks detection.
#[derive(Clone, Copy, Debug, PartialEq, Eq, Structural, Hash)]
pub enum Override {
    /// Follow what detection found.
    Unset,
    /// Color is emitted whatever detection found.
    ForceOn,
    /// No color is emitted whatever detection found.
    ForceOff,
}

/// What the environment and the destination stream say about color.
#[derive(Clone, Copy, Debug, PartialEq, Eq, Structural, Hash)]
pub struct Signals {
    /// The environment asks for no color.
    pub no_color: bool,
    /// The environment asks for color even off a terminal.
    pub force_color: bool,
    /// The destination stream is an interactive terminal.
    pub is_terminal: bool,
    /// The environment declares 256-color support.
    pub ansi256: bool,
    /// The environment declares 24-bit color support.
    pub truecolor: bool,
}

/// The capability state: the manual override, the cached result of
/// detection, and the requested virtual-terminal mode.
#[derive(Clone, Copy, Debug, PartialEq, Eq, Structural, Hash)]
pub struct ColorControl {
    manual: Override,
    detected: Option<ColorLevel>,
    virtual_terminal: bool,
}

impl ColorLevel {
    /// The position of the tier in the order, from 0 for `NoColor` to 3 for
    /// `TrueColor`.
    pub open spec fn spec_rank(self) -> int {
        match self {
            ColorLevel::NoColor => 0,
            ColorLevel::Ansi16 => 1,
            ColorLevel::Ansi256 => 2,
            ColorLevel::TrueColor => 3,
        }
    }

    /// The position of the tier in the order.
    pub fn rank(self) -> (n: u8)
        ensures
            n == self.spec_rank(),
    {
        match self {
            ColorLevel::NoColor => 0,
            ColorLevel::Ansi16 => 1,
            ColorLevel::Ansi256 => 2,
            ColorLevel::TrueColor => 3,
        }
    }

    /// Whether `self` offers at least what `other` offers.
    pub open spec fn spec_at_least(self, other: ColorLevel) -> bool {
        self.spec_rank() >= other.spec_rank()
    }

    /// Whether `self` offers at least what `other` offers.
    pub fn at_least(self, other: ColorLevel) -> (b: bool)
        ensures
            b == self.spec_at_least(other),
    {
        self.rank() >= other.rank()
    }

    /// The richer of two tiers.
    pub open spec fn spec_richer(self, other: ColorLevel) -> ColorLevel {
        if self.spec_rank() >= other.spec_rank() {
            self
        } else {
            other
        }
    }

    /// The richer of two tiers.
    pub fn richer(self, other: ColorLevel) -> (best: ColorLevel)
        ensures
            best == self.spec_richer(other),
    {
        if self.rank() >= other.rank() {
            self
        } else {
            other
        }
    }
}

impl Signals {
    /// The signals that plain values read from the environment stand for.
    ///
    /// No color is asked for where `no_color` is set to anything but the
    /// empty string. Color is forced where `force_color` is set to anything
    /// but `0`. 24-bit color is declared where `colorterm` is `truecolor` or
    /// `24bit`. The other two are taken as they come.
    pub open spec fn spec_from_values(
        no_color: Option<String>,
        force_color: Option<String>,
        colorterm: String,
        has_256: bool,
        is_terminal: bool,
    ) -> Signals {
        Signals {
            no_color: (no_color matches Some(value) && value@.len() > 0),
            force_color: (force_color matches Some(value) && value@ != "0"@),
            is_terminal,
            ansi256: has_256,
            truecolor: colorterm@ == "truecolor"@ || colorterm@ == "24bit"@,
        }
    }

    /// The signals that plain values read from the environment stand for:
    /// the value of the variable that asks for no color and of the one that
    /// forces color, each `None` where it is not set; the value of the
    /// variable that names the color mode of the terminal, empty where it
    /// is not set; whether the terminal type declares 256 colors; and
    /// whether the destination stream is an interactive terminal.
    pub fn from_values(
        no_color: Option<String>,
        force_color: Option<String>,
        colorterm: String,
        has_256: bool,
        is_terminal: bool,
    ) -> (signals: Signals)
        ensures
            signals == Signals::spec_from_values(
                no_color,
                force_color,
                colorterm,
                has_256,
                is_terminal,
            ),
    {
        let asks_no_color = match &no_color {
            Some(value) => {
                let empty = String::new();
                assert(value@.len() == 0 <==> value@ =~= empty@);
                !(*value == empty)
            },
            None => false,
        };
        let forces_color = match &force_color {
            Some(value) => !(*value == String::from_str("0")),
            None => false,
        };
        let truecolor = colorterm == String::from_str("truecolor") || colorterm
            == String::from_str("24bit");
        Signals {
            no_color: asks_no_color,
            force_color: forces_color,
            is_terminal,
            ansi256: has_256,
            truecolor,
        }
    }

    /// The tier that the signals stand for.
    ///
    /// A request for no color outranks everything. Otherwise color is on
    /// when it is forced or the destination is a terminal, with the richest
    /// palette the environment declares; and off in every other case.
    pub open spec fn spec_detect(self) -> ColorLevel {
        if self.no_color {
            ColorLevel::NoColor
        } else if self.force_color || self.is_terminal {
            if self.truecolor {
                ColorLevel::TrueColor
            } else if self.ansi256 {
                ColorLevel::Ansi256
            } else {
                ColorLevel::Ansi16
            }
        } else {
            ColorLevel::NoColor
        }
    }

    /// The tier that the signals stand for.
    pub fn detect(self) -> (level: ColorLevel)
        ensures
            level == self.spec_detect(),
    {
        if self.no_color {
            ColorLevel::NoColor
        } else if self.force_color || self.is_terminal {
            if self.truecolor {
                ColorLevel::TrueColor
            } else if self.ansi256 {
                ColorLevel::Ansi256
            } else {
                ColorLevel::Ansi16
            }
        } else {
            ColorLevel::NoColor
        }
    }
}

/// The tier that an override and a detected tier resolve to.
///
/// Forced off, the answer is `NoColor`. Forced on, it is the detected tier but
/// never less than `Ansi16`. Without an override it is the detected tier.
pub open spec fn resolve(manual: Override, detected: ColorLevel) -> ColorLevel {
    match manual {
        Override::ForceOff => ColorLevel::NoColor,
        Override::ForceOn => detected.spec_richer(ColorLevel::Ansi16),
        Override::Unset => detected,
    }
}

impl ColorControl {
    /// The manual override in force.
    pub closed spec fn spec_manual(self) -> Override {
        self.manual
    }

    /// The cached result of detection, `None` while detection has not run.
    pub closed spec fn spec_detected(self) -> Option<ColorLevel> {
        self.detected
    }

    /// The requested virtual-terminal mode.
    pub closed spec fn spec_virtual_terminal(self) -> bool {
        self.virtual_terminal
    }

    /// The detected tier, with the built-in default of no color while
    /// detection has not run.
    pub open spec fn spec_detected_tier(self) -> ColorLevel {
        match self.spec_detected() {
            Some(level) => level,
            None => ColorLevel::NoColor,
        }
    }

    /// The tier that rendering goes by.
    pub open spec fn spec_current_tier(self) -> ColorLevel {
        resolve(self.spec_manual(), self.spec_detected_tier())
    }

    /// The state of a fresh process: no override, detection not yet run,
    /// virtual-terminal mode not requested.
    pub fn new() -> (state: ColorControl)
        ensures
            state.spec_manual() == Override::Unset,
            state.spec_detected() == None::<ColorLevel>,
            state.spec_virtual_terminal() == false,
    {
        ColorControl { manual: Override::Unset, detected: None, virtual_terminal: false }
    }

    /// The manual override in force.
    pub fn manual(&self) -> (value: Override)
        ensures
            value == self.spec_manual(),
    {
        self.manual
    }

    /// Whether detection has run, so that its result is cached.
    pub fn is_detected(&self) -> (b: bool)
        ensures
            b == self.spec_detected().is_some(),
    {
        self.detected.is_some()
    }

    /// The detected tier, reported whatever the override says.
    pub fn detected_tier(&self) -> (level: ColorLevel)
        ensures
            level == self.spec_detected_tier(),
    {
        match self.detected {
            Some(level) => level,
            None => ColorLevel::NoColor,
        }
    }

    /// Replaces the manual override. Detection and the virtual-terminal
    /// request stay as they are.
    pub fn set_override(&mut self, value: Override)
        ensures
            final(self).spec_manual() == value,
            final(self).spec_detected() == old(self).spec_detected(),
            final(self).spec_virtual_terminal() == old(self).spec_virtual_terminal(),
    {
        self.manual = value;
    }

    /// Runs detection again on fresh signals and caches the result. The
    /// override and the virtual-terminal request stay as they are.
    pub fn refresh_detection(&mut self, signals: Signals)
        ensures
            final(self).spec_detected() == Some(signals.spec_detect()),
            final(self).spec_manual() == old(self).spec_manual(),
            final(self).spec_virtual_terminal() == old(self).spec_virtual_terminal(),
    {
        self.detected = Some(signals.detect());
    }

    /// The tier that rendering goes by: the override first, then detection,
    /// then no color.
    pub fn current_tier(&self) -> (level: ColorLevel)
        ensures
            level == self.spec_current_tier(),
    {
        let detected = self.detected_tier();
        match self.manual {
            Override::ForceOff => ColorLevel::NoColor,
            Override::ForceOn => detected.richer(ColorLevel::Ansi16),
            Override::Unset => detected,
        }
    }

    /// Whether color is emitted at all.
    pub fn should_colorize(&self) -> (b: bool)
        ensures
            b == (self.spec_current_tier() != ColorLevel::NoColor),
    {
        match self.current_tier() {
            ColorLevel::NoColor => false,
            _ => true,
        }
    }

    /// Records the requested virtual-terminal mode. Nothing else changes,
    /// and no tier depends on it.
    pub fn set_virtual_terminal(&mut self, enabled: bool)
        ensures
            final(self).spec_virtual_terminal() == enabled,
            final(self).spec_manual() == old(self).spec_manual(),
            final(self).spec_detected() == old(self).spec_detected(),
    {
        self.virtual_terminal = enabled;
    }

    /// The requested virtual-terminal mode.
    pub fn virtual_terminal(&self) -> (enabled: bool)
        ensures
            enabled == self.spec_virtual_terminal(),
    {
        self.virtual_terminal
    }
}

/// Forced off, no color is emitted, whatever detection found.
pub proof fn lemma_force_off_is_none(state: ColorControl)
    requires
        state.spec_manual() == Override::ForceOff,
    ensures
        state.spec_current_tier() == ColorLevel::NoColor,
{
}

/// Forced on, the tier is the detected one where that is at least `Ansi16`,
/// and `Ansi16` otherwise: never below `Ansi16`, never below detection.
pub proof fn lemma_force_on_at_least_ansi16(state: ColorControl)
    requires
        state.spec_manual() == Override::ForceOn,
    ensures
        state.spec_current_tier().spec_at_least(ColorLevel::Ansi16),
        state.spec_current_tier().spec_at_least(state.spec_detected_tier()),
        state.spec_current_tier() == state.spec_detected_tier()
            || state.spec_current_tier() == ColorLevel::Ansi16,
{
}

/// Without an override the tier is what detection found, and no color
/// while detection has not run.
pub proof fn lemma_unset_follows_detection(state: ColorControl)
    requires
        state.spec_manual() == Override::Unset,
    ensures
        state.spec_current_tier() == state.spec_detected_tier(),
        state.spec_detected() == None::<ColorLevel> ==> state.spec_current_tier()
            == ColorLevel::NoColor,
{
}

/// A request for no color outranks a request to force color and the
/// terminal check; without either of the latter two there is no color.
pub proof fn lemma_detection_precedence(signals: Signals)
    ensures
        signals.no_color ==> signals.spec_detect() == ColorLevel::NoColor,
        !signals.no_color && (signals.force_color || signals.is_terminal)
            ==> signals.spec_detect().spec_at_least(ColorLevel::Ansi16),
        !signals.force_color && !signals.is_terminal ==> signals.spec_detect()
            == ColorLevel::NoColor,
{
}

} // verus!
