//! The colored help screen.
use std::io::Write;

use vstd::prelude::*;
use vstd::string::StringExecFns;

verus! {

/// Help section printed by `print_help`.
pub const HELP_HEADER: &'static str = "
\x1b[36m\x1b[1m╔═══════════════════════════════════════════════════════════════╗
║                                                               ║
║   \x1b[35m██╗  ██╗██╗   ██╗██████╗ ██████╗  ██████╗ ██╗   ██╗███████╗\x1b[36m  ║
║   \x1b[35m██║  ██║╚██╗ ██╔╝██╔══██╗██╔══██╗██╔═══██╗██║   ██║██╔════╝\x1b[36m  ║
║   \x1b[35m███████║ ╚████╔╝ ██████╔╝██████╔╝██║   ██║██║   ██║█████╗  \x1b[36m  ║
║   \x1b[35m██╔══██║  ╚██╔╝  ██╔═══╝ ██╔══██╗██║▄▄ ██║██║   ██║██╔══╝  \x1b[36m  ║
║   \x1b[35m██║  ██║   ██║   ██║     ██║  ██║╚██████╔╝╚██████╔╝███████╗\x1b[36m  ║
║   \x1b[35m╚═╝  ╚═╝   ╚═╝   ╚═╝     ╚═╝  ╚═╝ ╚══▀▀═╝  ╚═════╝ ╚══════╝\x1b[36m  ║
║                                                               ║
╚═══════════════════════════════════════════════════════════════╝\x1b[0m

\x1b[37m\x1b[1mHydequery\x1b[0m - \x1b[2mHigh-performance configuration parser for Hyprland\x1b[0m
";

/// Help section printed by `print_help`.
pub const HELP_USAGE: &'static str = "\x1b[33m\x1b[1mUSAGE:\x1b[0m
    \x1b[32mhydequery\x1b[0m \x1b[36m<CONFIG_FILE>\x1b[0m \x1b[35m-Q\x1b[0m \x1b[34m<QUERY>\x1b[0m [\x1b[2mOPTIONS\x1b[0m]
    \x1b[32mhydequery\x1b[0m \x1b[36m<CONFIG_FILE>\x1b[0m \x1b[35m-Q\x1b[0m \x1b[34m<QUERY1>\x1b[0m \x1b[35m-Q\x1b[0m \x1b[34m<QUERY2>\x1b[0m ...
";

/// Help section printed by `print_help`.
pub const HELP_ARGUMENTS: &'static str = "\x1b[33m\x1b[1mARGUMENTS:\x1b[0m
    \x1b[36m<CONFIG_FILE>\x1b[0m    Path to Hyprland configuration file
                    \x1b[2mSupports: ~, $HOME, environment variables\x1b[0m
";

/// Help section printed by `print_help`.
pub const HELP_OPTIONS: &'static str = "\x1b[33m\x1b[1mOPTIONS:\x1b[0m
    \x1b[32m-Q, --query\x1b[0m \x1b[34m<QUERY>\x1b[0m      Query to execute \x1b[2m(required, multiple allowed)\x1b[0m
                            Format: \x1b[36mkey[type][regex]\x1b[0m

    \x1b[32m--schema\x1b[0m \x1b[34m<PATH>\x1b[0m          Load schema file \x1b[2m(use \"\x1b[36mauto\x1b[2m\" for cached)\x1b[0m
    \x1b[32m--fetch-schema\x1b[0m          Download and cache latest schema
    \x1b[32m--get-defaults\x1b[0m          Output all keys from schema
    \x1b[32m--allow-missing\x1b[0m         Don't fail on NULL values \x1b[2m(exit 0)\x1b[0m
    \x1b[32m--strict\x1b[0m                Fail on config parse errors
    \x1b[32m--export\x1b[0m \x1b[34m<FORMAT>\x1b[0m        Output format: \x1b[36mjson\x1b[0m, \x1b[36menv\x1b[0m
    \x1b[32m-s, --source\x1b[0m            Follow source directives recursively
    \x1b[32m-D, --delimiter\x1b[0m \x1b[34m<STR>\x1b[0m   Delimiter for plain output \x1b[2m(default: \\n)\x1b[0m
    \x1b[32m--debug\x1b[0m                 Enable debug logging to stderr

    \x1b[32m-h, --help\x1b[0m              Show this help message
    \x1b[32m-V, --version\x1b[0m           Show version information
";

/// Help section printed by `print_help`.
pub const HELP_QUERY_FORMAT: &'static str = "\x1b[33m\x1b[1mQUERY FORMAT:\x1b[0m
    \x1b[36mkey\x1b[0m                     Simple key lookup
    \x1b[36mkey\x1b[0m\x1b[2m[type]\x1b[0m               With type filter
    \x1b[36mkey\x1b[0m\x1b[2m[type][regex]\x1b[0m        With type and regex filter
    \x1b[36m$variable\x1b[0m               Dynamic variable lookup

    \x1b[37m\x1b[1mTypes:\x1b[0m \x1b[34mINT\x1b[0m, \x1b[34mFLOAT\x1b[0m, \x1b[34mSTRING\x1b[0m, \x1b[34mVEC2\x1b[0m, \x1b[34mCOLOR\x1b[0m, \x1b[34mBOOL\x1b[0m

    \x1b[37m\x1b[1mKey Syntax:\x1b[0m
    \x1b[2m•\x1b[0m Nested keys use \x1b[36m:\x1b[0m separator: \x1b[32mgeneral:border_size\x1b[0m
    \x1b[2m•\x1b[0m Categories: \x1b[32mgeneral\x1b[0m, \x1b[32mdecoration\x1b[0m, \x1b[32minput\x1b[0m, \x1b[32manimations\x1b[0m, etc.
";

/// Help section printed by `print_help`.
pub const HELP_EXAMPLES: &'static str = "\x1b[33m\x1b[1mEXAMPLES:\x1b[0m

    \x1b[37mBasic query:\x1b[0m
    \x1b[2m$\x1b[0m \x1b[32mhydequery\x1b[0m ~/.config/hypr/hyprland.conf \x1b[35m-Q\x1b[0m \x1b[36m'general:border_size'\x1b[0m
    \x1b[34m2\x1b[0m

    \x1b[37mQuery variable:\x1b[0m
    \x1b[2m$\x1b[0m \x1b[32mhydequery\x1b[0m config.conf \x1b[35m-Q\x1b[0m \x1b[36m'$terminal'\x1b[0m
    \x1b[34mkitty\x1b[0m

    \x1b[37mMultiple queries:\x1b[0m
    \x1b[2m$\x1b[0m \x1b[32mhydequery\x1b[0m config.conf \x1b[35m-Q\x1b[0m \x1b[36m'general:gaps_in'\x1b[0m \x1b[35m-Q\x1b[0m \x1b[36m'general:gaps_out'\x1b[0m
    \x1b[34m5\x1b[0m
    \x1b[34m10\x1b[0m

    \x1b[37mWith type filter:\x1b[0m
    \x1b[2m$\x1b[0m \x1b[32mhydequery\x1b[0m config.conf \x1b[35m-Q\x1b[0m \x1b[36m'general:border_size[INT]'\x1b[0m
    \x1b[34m2\x1b[0m

    \x1b[37mWith regex filter:\x1b[0m
    \x1b[2m$\x1b[0m \x1b[32mhydequery\x1b[0m config.conf \x1b[35m-Q\x1b[0m \x1b[36m'decoration:rounding[INT][^[0-9]+$]'\x1b[0m
    \x1b[34m8\x1b[0m

    \x1b[37mJSON export:\x1b[0m
    \x1b[2m$\x1b[0m \x1b[32mhydequery\x1b[0m config.conf \x1b[35m-Q\x1b[0m \x1b[36m'general:border_size'\x1b[0m \x1b[35m--export\x1b[0m \x1b[36mjson\x1b[0m
    \x1b[34m{
      \"key\": \"general:border_size\",
      \"value\": \"2\",
      \"type\": \"INT\"
    }\x1b[0m

    \x1b[37mEnvironment variables:\x1b[0m
    \x1b[2m$\x1b[0m \x1b[32mhydequery\x1b[0m config.conf \x1b[35m-Q\x1b[0m \x1b[36m'$terminal'\x1b[0m \x1b[35m--export\x1b[0m \x1b[36menv\x1b[0m
    \x1b[34mTERMINAL=\"kitty\"\x1b[0m

    \x1b[37mFetch and cache schema:\x1b[0m
    \x1b[2m$\x1b[0m \x1b[32mhydequery\x1b[0m \x1b[35m--fetch-schema\x1b[0m
    \x1b[34mSchema cached at: ~/.cache/hydequery/hyprland.json\x1b[0m

    \x1b[37mUse cached schema:\x1b[0m
    \x1b[2m$\x1b[0m \x1b[32mhydequery\x1b[0m config.conf \x1b[35m-Q\x1b[0m \x1b[36m'general:layout'\x1b[0m \x1b[35m--schema\x1b[0m \x1b[36mauto\x1b[0m

    \x1b[37mWith custom schema:\x1b[0m
    \x1b[2m$\x1b[0m \x1b[32mhydequery\x1b[0m config.conf \x1b[35m-Q\x1b[0m \x1b[36m'general:layout'\x1b[0m \x1b[35m--schema\x1b[0m \x1b[36mhyprland.json\x1b[0m

    \x1b[37mFollow source directives:\x1b[0m
    \x1b[2m$\x1b[0m \x1b[32mhydequery\x1b[0m config.conf \x1b[35m-Q\x1b[0m \x1b[36m'colors:background'\x1b[0m \x1b[35m-s\x1b[0m

    \x1b[37mCustom delimiter:\x1b[0m
    \x1b[2m$\x1b[0m \x1b[32mhydequery\x1b[0m config.conf \x1b[35m-Q\x1b[0m \x1b[36m'a'\x1b[0m \x1b[35m-Q\x1b[0m \x1b[36m'b'\x1b[0m \x1b[35m-D\x1b[0m \x1b[36m','\x1b[0m
    \x1b[34mval1,val2\x1b[0m
";

/// Help section printed by `print_help`.
pub const HELP_EXIT_CODES: &'static str = "\x1b[33m\x1b[1mEXIT CODES:\x1b[0m
    \x1b[32m0\x1b[0m    All queries resolved successfully
    \x1b[33m1\x1b[0m    One or more queries returned NULL
    \x1b[31m1\x1b[0m    Error occurred (config not found, parse error, etc.)
";

/// Help section printed by `print_help`.
pub const HELP_FOOTER: &'static str = "\x1b[2m───────────────────────────────────────────────────────────────\x1b[0m
\x1b[37mRepository:\x1b[0m  \x1b[36mhttps://github.com/HyDE-Project/hydequery\x1b[0m
\x1b[37mLicense:\x1b[0m     \x1b[36mGPL-3.0\x1b[0m
\x1b[2m───────────────────────────────────────────────────────────────\x1b[0m
";

/// The whole help screen: every section followed by a line break.
pub open spec fn help_spec() -> Seq<char> {
    HELP_HEADER@ + "\n"@
        + HELP_USAGE@ + "\n"@
        + HELP_ARGUMENTS@ + "\n"@
        + HELP_OPTIONS@ + "\n"@
        + HELP_QUERY_FORMAT@ + "\n"@
        + HELP_EXAMPLES@ + "\n"@
        + HELP_EXIT_CODES@ + "\n"@
        + HELP_FOOTER@ + "\n"@
}

/// The help screen as one string.
pub fn help_text() -> (text: String)
    ensures
        text@ == help_spec(),
{
    let mut text = String::new();
    text.append(HELP_HEADER);
    text.append("\n");
    text.append(HELP_USAGE);
    text.append("\n");
    text.append(HELP_ARGUMENTS);
    text.append("\n");
    text.append(HELP_OPTIONS);
    text.append("\n");
    text.append(HELP_QUERY_FORMAT);
    text.append("\n");
    text.append(HELP_EXAMPLES);
    text.append("\n");
    text.append(HELP_EXIT_CODES);
    text.append("\n");
    text.append(HELP_FOOTER);
    text.append("\n");
    text
}

/// Writes `text` to standard output with std's `write!` on `std::io::stdout()`.
///
/// Nothing is claimed: whether the write succeeds depends on the terminal
/// or pipe behind standard output, and a failed write is ignored.
#[verifier::external_body]
fn write_stdout(text: &str) {
    let _ = write!(std::io::stdout(), "{}", text);
}

/// Print the complete help message with colors and formatting.
pub fn print_help() {
    let text = help_text();
    write_stdout(text.as_str());
}

} // verus!
