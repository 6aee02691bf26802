use pucoti::cli::CliAction;
use pucoti::cli::LogLevel;
use pucoti::cli::cli_action;
use pucoti::cli::help_message;
use pucoti::cli::log_level;
use pucoti::cli::version_message;

#[test]
fn help_flag_shows_help() {
    assert_eq!(cli_action(1, 0), CliAction::ShowHelp);
}

#[test]
fn help_flag_wins_over_version_flag() {
    assert_eq!(cli_action(2, 1), CliAction::ShowHelp);
}

#[test]
fn version_flag_alone_shows_version() {
    assert_eq!(cli_action(0, 1), CliAction::ShowVersion);
}

#[test]
fn no_flags_proceed() {
    assert_eq!(cli_action(0, 0), CliAction::Proceed);
}

#[test]
fn version_message_is_the_banner() {
    assert_eq!(version_message("0.1.0"), "Pucoti 0.1.0");
}

#[test]
fn help_message_is_word_for_word() {
    let expected = "Pucoti 0.1.0\n\nA timer to stay on track and make predictions to overcome the planning fallacy.\n\nPucoti helps you track predicted vs actual task durations and provides\ncalibration statistics to improve your time estimation accuracy over time.\n\nUSAGE:\n    pucoti [OPTIONS]\n\nOPTIONS:\n    -h, --help       Print help information\n    -v, --version    Print version information\n";
    assert_eq!(help_message("0.1.0"), expected);
}

#[test]
fn debug_builds_log_everything() {
    assert_eq!(log_level(true), LogLevel::Debug);
}

#[test]
fn release_builds_log_informational_messages() {
    assert_eq!(log_level(false), LogLevel::Info);
}
