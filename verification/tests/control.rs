use colored::control::{ColorControl, ColorLevel, Override, Signals};

const QUIET: Signals = Signals {
    no_color: false,
    force_color: false,
    is_terminal: false,
    ansi256: false,
    truecolor: false,
};

const LEVELS: [ColorLevel; 4] =
    [ColorLevel::NoColor, ColorLevel::Ansi16, ColorLevel::Ansi256, ColorLevel::TrueColor];

fn signals_for(level: ColorLevel) -> Signals {
    match level {
        ColorLevel::NoColor => QUIET,
        ColorLevel::Ansi16 => Signals { is_terminal: true, ..QUIET },
        ColorLevel::Ansi256 => Signals { is_terminal: true, ansi256: true, ..QUIET },
        ColorLevel::TrueColor => Signals { is_terminal: true, truecolor: true, ..QUIET },
    }
}

#[test]
fn tiers_are_ordered() {
    assert_eq!(0, ColorLevel::NoColor.rank());
    assert_eq!(1, ColorLevel::Ansi16.rank());
    assert_eq!(2, ColorLevel::Ansi256.rank());
    assert_eq!(3, ColorLevel::TrueColor.rank());
    assert!(ColorLevel::TrueColor.at_least(ColorLevel::Ansi256));
    assert!(ColorLevel::Ansi16.at_least(ColorLevel::Ansi16));
    assert!(!ColorLevel::NoColor.at_least(ColorLevel::Ansi16));
    assert_eq!(ColorLevel::Ansi256, ColorLevel::Ansi16.richer(ColorLevel::Ansi256));
    assert_eq!(ColorLevel::Ansi256, ColorLevel::Ansi256.richer(ColorLevel::Ansi16));
    assert_eq!(ColorLevel::NoColor, ColorLevel::NoColor.richer(ColorLevel::NoColor));
}

#[test]
fn detection_follows_the_signals() {
    for &level in LEVELS.iter() {
        assert_eq!(level, signals_for(level).detect());
    }
    assert_eq!(ColorLevel::NoColor, QUIET.detect());
    assert_eq!(ColorLevel::Ansi16, Signals { force_color: true, ..QUIET }.detect());
    assert_eq!(
        ColorLevel::TrueColor,
        Signals { force_color: true, ansi256: true, truecolor: true, ..QUIET }.detect()
    );
    assert_eq!(ColorLevel::NoColor, Signals { truecolor: true, ..QUIET }.detect());
    assert_eq!(ColorLevel::NoColor, Signals { ansi256: true, ..QUIET }.detect());
}

#[test]
fn no_color_outranks_force_color_and_terminal() {
    let all = Signals {
        no_color: true,
        force_color: true,
        is_terminal: true,
        ansi256: true,
        truecolor: true,
    };
    assert_eq!(ColorLevel::NoColor, all.detect());
    assert_eq!(ColorLevel::NoColor, Signals { no_color: true, ..QUIET }.detect());
    assert_eq!(ColorLevel::NoColor, Signals { no_color: true, is_terminal: true, ..QUIET }.detect());
}

#[test]
fn fresh_state_has_no_color() {
    let control = ColorControl::new();
    assert_eq!(Override::Unset, control.manual());
    assert!(!control.is_detected());
    assert_eq!(ColorLevel::NoColor, control.detected_tier());
    assert_eq!(ColorLevel::NoColor, control.current_tier());
    assert!(!control.should_colorize());
    assert!(!control.virtual_terminal());
}

#[test]
fn forced_off_gives_no_color_whatever_was_detected() {
    for &level in LEVELS.iter() {
        let mut control = ColorControl::new();
        control.refresh_detection(signals_for(level));
        control.set_override(Override::ForceOff);
        assert_eq!(ColorLevel::NoColor, control.current_tier());
        assert!(!control.should_colorize());
        assert_eq!(level, control.detected_tier());
    }
}

#[test]
fn forced_on_gives_at_least_ansi16() {
    let expected = [
        ColorLevel::Ansi16,
        ColorLevel::Ansi16,
        ColorLevel::Ansi256,
        ColorLevel::TrueColor,
    ];
    for (k, &level) in LEVELS.iter().enumerate() {
        let mut control = ColorControl::new();
        control.refresh_detection(signals_for(level));
        control.set_override(Override::ForceOn);
        assert_eq!(expected[k], control.current_tier());
        assert!(control.should_colorize());
    }
    let mut control = ColorControl::new();
    control.set_override(Override::ForceOn);
    assert_eq!(ColorLevel::Ansi16, control.current_tier());
}

#[test]
fn without_override_detection_decides() {
    for &level in LEVELS.iter() {
        let mut control = ColorControl::new();
        control.refresh_detection(signals_for(level));
        assert!(control.is_detected());
        assert_eq!(level, control.current_tier());
        assert_eq!(level != ColorLevel::NoColor, control.should_colorize());
    }
}

#[test]
fn override_can_be_taken_back() {
    let mut control = ColorControl::new();
    control.refresh_detection(signals_for(ColorLevel::Ansi256));
    control.set_override(Override::ForceOff);
    assert_eq!(ColorLevel::NoColor, control.current_tier());
    control.set_override(Override::Unset);
    assert_eq!(Override::Unset, control.manual());
    assert_eq!(ColorLevel::Ansi256, control.current_tier());
}

#[test]
fn refresh_replaces_the_cached_tier_only() {
    let mut control = ColorControl::new();
    control.set_override(Override::ForceOn);
    control.set_virtual_terminal(true);
    control.refresh_detection(signals_for(ColorLevel::TrueColor));
    assert_eq!(ColorLevel::TrueColor, control.current_tier());
    control.refresh_detection(QUIET);
    assert_eq!(ColorLevel::NoColor, control.detected_tier());
    assert_eq!(ColorLevel::Ansi16, control.current_tier());
    assert_eq!(Override::ForceOn, control.manual());
    assert!(control.virtual_terminal());
}

#[test]
fn virtual_terminal_is_stored_and_changes_no_tier() {
    let mut control = ColorControl::new();
    control.refresh_detection(signals_for(ColorLevel::Ansi256));
    control.set_virtual_terminal(true);
    assert!(control.virtual_terminal());
    assert_eq!(ColorLevel::Ansi256, control.current_tier());
    control.set_virtual_terminal(false);
    assert!(!control.virtual_terminal());
    assert_eq!(ColorLevel::Ansi256, control.current_tier());
    assert_eq!(Override::Unset, control.manual());
}

fn some(value: &str) -> Option<String> {
    Some(String::from(value))
}

#[test]
fn values_of_the_environment_become_signals() {
    let none = Signals::from_values(None, None, String::new(), false, false);
    assert_eq!(QUIET, none);
    let all = Signals::from_values(some("1"), some("1"), String::from("truecolor"), true, true);
    assert_eq!(
        Signals { no_color: true, force_color: true, is_terminal: true, ansi256: true, truecolor: true },
        all
    );
}

#[test]
fn no_color_counts_unless_empty() {
    assert!(Signals::from_values(some("1"), None, String::new(), false, false).no_color);
    assert!(Signals::from_values(some("0"), None, String::new(), false, false).no_color);
    assert!(Signals::from_values(some(" "), None, String::new(), false, false).no_color);
    assert!(!Signals::from_values(some(""), None, String::new(), false, false).no_color);
    assert!(!Signals::from_values(None, None, String::new(), false, false).no_color);
}

#[test]
fn force_color_counts_unless_zero() {
    assert!(Signals::from_values(None, some("1"), String::new(), false, false).force_color);
    assert!(Signals::from_values(None, some(""), String::new(), false, false).force_color);
    assert!(Signals::from_values(None, some("00"), String::new(), false, false).force_color);
    assert!(!Signals::from_values(None, some("0"), String::new(), false, false).force_color);
    assert!(!Signals::from_values(None, None, String::new(), false, false).force_color);
}

#[test]
fn truecolor_is_declared_by_two_values() {
    assert!(Signals::from_values(None, None, String::from("truecolor"), false, false).truecolor);
    assert!(Signals::from_values(None, None, String::from("24bit"), false, false).truecolor);
    assert!(!Signals::from_values(None, None, String::from("TrueColor"), false, false).truecolor);
    assert!(!Signals::from_values(None, None, String::from("256"), false, false).truecolor);
    assert!(!Signals::from_values(None, None, String::new(), false, false).truecolor);
}

#[test]
fn the_other_two_values_pass_through() {
    let signals = Signals::from_values(None, None, String::new(), true, false);
    assert!(signals.ansi256 && !signals.is_terminal);
    let signals = Signals::from_values(None, None, String::new(), false, true);
    assert!(!signals.ansi256 && signals.is_terminal);
    assert_eq!(
        ColorLevel::TrueColor,
        Signals::from_values(None, some("1"), String::from("24bit"), true, false).detect()
    );
    assert_eq!(
        ColorLevel::NoColor,
        Signals::from_values(some("1"), some("1"), String::from("24bit"), true, true).detect()
    );
}
