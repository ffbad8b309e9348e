//! Platform-aware command naming, over an explicit platform value and an
//! explicit tool-path resolver rather than process-wide state. Probing
//! the machine (search paths, environment) happens outside this crate;
//! the naming and lookup rules live here.

use vstd::prelude::*;

use crate::text::str_eq;
use crate::tool_resolver::{lookup, ToolPathResolver};

verus! {

/// The family of operating system the run targets.
#[derive(Debug, Clone, Copy, PartialEq, Eq, Structural)]
pub enum Platform {
    Unix,
    Windows,
}

/// Whether a base name is one of the external tools whose command name
/// differs across platforms.
pub open spec fn is_known_command(name: Seq<char>) -> bool {
    ||| name == "exiftool"@
    ||| name == "cwebp"@
    ||| name == "ffmpeg"@
    ||| name == "ffprobe"@
    ||| name == "mozjpeg"@
    ||| name == "jpegoptim"@
    ||| name == "jpegtran"@
    ||| name == "oxipng"@
    ||| name == "optipng"@
    ||| name == "pngcrush"@
}

/// The platform's command name for a tool: the bare name on Unix-likes,
/// the name with the executable suffix for known tools on Windows.
pub open spec fn command_chars(platform: Platform, base: Seq<char>) -> Seq<char> {
    if platform is Windows && is_known_command(base) {
        base + ".exe"@
    } else {
        base
    }
}

/// Command naming and tool resolution for one platform.
#[derive(Debug)]
pub struct PlatformCommands {
    pub platform: Platform,
    pub tool_resolver: ToolPathResolver,
}

impl PlatformCommands {
    /// Commands for the platform this build targets, with an empty
    /// resolver; runs that probed the machine construct with `new`.
    pub fn instance() -> (r: PlatformCommands)
        ensures
            r.platform is Unix,
            r.tool_resolver.tools@.len() == 0,
    {
        PlatformCommands { platform: Platform::Unix, tool_resolver: ToolPathResolver::default() }
    }

    /// Commands for a platform, consulting the given resolver.
    pub fn new(platform: Platform, tool_resolver: ToolPathResolver) -> (r: PlatformCommands)
        ensures
            r.platform == platform,
            r.tool_resolver == tool_resolver,
    {
        PlatformCommands { platform, tool_resolver }
    }

    /// The platform-specific command name for a tool.
    pub fn get_command(&self, base_name: &str) -> (r: String)
        ensures
            r@ == command_chars(self.platform, base_name@),
    {
        match self.platform {
            Platform::Unix => base_name.to_owned(),
            Platform::Windows => {
                let known = str_eq(base_name, "exiftool") || str_eq(base_name, "cwebp") || str_eq(
                    base_name,
                    "ffmpeg",
                ) || str_eq(base_name, "ffprobe") || str_eq(base_name, "mozjpeg") || str_eq(
                    base_name,
                    "jpegoptim",
                ) || str_eq(base_name, "jpegtran") || str_eq(base_name, "oxipng") || str_eq(
                    base_name,
                    "optipng",
                ) || str_eq(base_name, "pngcrush");
                if known {
                    let mut s = base_name.to_owned();
                    s.append(".exe");
                    s
                } else {
                    base_name.to_owned()
                }
            },
        }
    }

    /// The command that checks whether a program exists.
    pub fn which_command(&self) -> (r: &'static str)
        ensures
            self.platform is Unix ==> r@ == "which"@,
            self.platform is Windows ==> r@ == "where"@,
    {
        match self.platform {
            Platform::Unix => "which",
            Platform::Windows => "where",
        }
    }

    /// The resolved path to a tool, from the run's resolver table.
    pub fn get_tool_path(&self, base_name: &str) -> (r: Option<String>)
        ensures
            r is Some <==> lookup(self.tool_resolver.tools@, base_name@) is Some,
            r matches Some(p) ==> lookup(self.tool_resolver.tools@, base_name@) matches Some(q)
                && p@ == q,
    {
        self.tool_resolver.resolve_tool(base_name)
    }

    /// The availability report of the run's resolver table.
    pub fn get_tools_report(&self) -> (r: String)
        ensures
            r@ == crate::tool_resolver::report_chars(
                self.tool_resolver.tools@,
                self.tool_resolver.is_development,
            ),
    {
        self.tool_resolver.get_tools_report()
    }
}

/// What the process reports about the machine it runs on; filled in by
/// the surrounding process from its build-time constants.
#[derive(Debug, Clone)]
pub struct SystemInfo {
    pub os: String,
    pub arch: String,
    pub family: String,
}

impl SystemInfo {
    /// One line: operating system, architecture, family in parentheses.
    pub fn summary(&self) -> (r: String)
        ensures
            r@ == self.os@ + " "@ + self.arch@ + " ("@ + self.family@ + ")"@,
    {
        let mut s = self.os.clone();
        s.append(" ");
        s.append(self.arch.as_str());
        s.append(" (");
        s.append(self.family.as_str());
        s.append(")");
        s
    }
}

} // verus!
