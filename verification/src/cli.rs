//! Command-line handling: which action the flags ask for, and the exact
//! text printed for `--help` and `--version`.

use vstd::prelude::*;
use vstd::string::StringExecFns;

verus! {

/// What the command-line flags ask the application to do.
#[derive(Clone, Copy, Debug, PartialEq, Eq, Structural)]
pub enum CliAction {
    /// Print the help text and exit.
    ShowHelp,
    /// Print the version banner and exit.
    ShowVersion,
    /// Start the application normally.
    Proceed,
}

/// Decides what the command line asks for.  A help flag wins over a version
/// flag; with neither flag the application starts normally.
pub fn cli_action(help_occurrences: u64, version_occurrences: u64) -> (r: CliAction)
    ensures
        help_occurrences > 0 ==> r == CliAction::ShowHelp,
        help_occurrences == 0 && version_occurrences > 0 ==> r == CliAction::ShowVersion,
        help_occurrences == 0 && version_occurrences == 0 ==> r == CliAction::Proceed,
{
    if help_occurrences > 0 {
        CliAction::ShowHelp
    } else if version_occurrences > 0 {
        CliAction::ShowVersion
    } else {
        CliAction::Proceed
    }
}

/// The one-line banner: the application name followed by its version.
pub open spec fn version_banner(version: Seq<char>) -> Seq<char> {
    "Pucoti "@ + version
}

/// The help text that follows the banner, word for word.
pub open spec fn help_body() -> Seq<char> {
    "\n\nA timer to stay on track and make predictions to overcome the planning fallacy.\n\nPucoti helps you track predicted vs actual task durations and provides\ncalibration statistics to improve your time estimation accuracy over time.\n\nUSAGE:\n    pucoti [OPTIONS]\n\nOPTIONS:\n    -h, --help       Print help information\n    -v, --version    Print version information\n"@
}

/// The full text printed for a help flag.
pub open spec fn help_text(version: Seq<char>) -> Seq<char> {
    version_banner(version) + help_body()
}

/// Builds the text printed for a version flag.
pub fn version_message(version: &str) -> (r: String)
    ensures
        r@ == version_banner(version@),
{
    String::from_str("Pucoti ").concat(version)
}

/// Builds the text printed for a help flag.
pub fn help_message(version: &str) -> (r: String)
    ensures
        r@ == help_text(version@),
{
    version_message(version).concat(
        "\n\nA timer to stay on track and make predictions to overcome the planning fallacy.\n\nPucoti helps you track predicted vs actual task durations and provides\ncalibration statistics to improve your time estimation accuracy over time.\n\nUSAGE:\n    pucoti [OPTIONS]\n\nOPTIONS:\n    -h, --help       Print help information\n    -v, --version    Print version information\n",
    )
}

/// How verbose the application log is.
#[derive(Clone, Copy, Debug, PartialEq, Eq, Structural)]
pub enum LogLevel {
    /// Everything, including debugging detail.
    Debug,
    /// Ordinary informational messages and above.
    Info,
}

/// Chooses the log level: debug builds log everything, release builds log
/// informational messages and above.
pub fn log_level(debug_build: bool) -> (r: LogLevel)
    ensures
        debug_build ==> r == LogLevel::Debug,
        !debug_build ==> r == LogLevel::Info,
{
    if debug_build {
        LogLevel::Debug
    } else {
        LogLevel::Info
    }
}

} // verus!
