//! Tool path resolution as an explicit, constructed dependency: a table
//! from tool name to resolved binary path, filled in by the surrounding
//! process (which probes bundled directories and the system search path)
//! and consulted here for every routing and reporting decision.

use vstd::prelude::*;

use crate::text::str_eq;

verus! {

/// The first path recorded for `name`, front to back.
pub open spec fn lookup(table: Seq<(String, String)>, name: Seq<char>) -> Option<Seq<char>>
    decreases table.len(),
{
    if table.len() == 0 {
        None
    } else if table[0].0@ == name {
        Some(table[0].1@)
    } else {
        lookup(table.drop_first(), name)
    }
}

/// The tools this crate knows to ask about, in report order.
pub open spec fn known_tool_names() -> Seq<Seq<char>> {
    seq![
        "cwebp"@,
        "dwebp"@,
        "mozjpeg"@,
        "jpegoptim"@,
        "jpegtran"@,
        "oxipng"@,
        "optipng"@,
        "pngcrush"@,
        "ffmpeg"@,
        "ffprobe"@,
        "exiftool"@,
    ]
}

/// The subsequence of `names` that the table resolves.
pub open spec fn available_of(table: Seq<(String, String)>, names: Seq<Seq<char>>) -> Seq<
    Seq<char>,
>
    decreases names.len(),
{
    if names.len() == 0 {
        Seq::empty()
    } else if lookup(table, names.last()) is Some {
        available_of(table, names.drop_last()) + seq![names.last()]
    } else {
        available_of(table, names.drop_last())
    }
}

/// The per-tool line of the "not found" message.
pub open spec fn tool_missing_chars(name: Seq<char>) -> Seq<char> {
    "Tool '"@ + name + "' not found in system PATH.\nTo install, run:\n  "@ + install_chars(name)
}

/// The package-manager command that installs a tool.
pub open spec fn install_chars(name: Seq<char>) -> Seq<char> {
    if name == "cwebp"@ || name == "dwebp"@ {
        "sudo apt-get install webp"@
    } else if name == "cjpeg"@ || name == "djpeg"@ || name == "jpegtran"@ {
        "sudo apt-get install libjpeg-progs"@
    } else if name == "mozjpeg"@ {
        "sudo apt-get install libjpeg-progs"@
    } else if name == "oxipng"@ {
        "sudo apt-get install oxipng"@
    } else if name == "optipng"@ {
        "sudo apt-get install optipng"@
    } else if name == "pngcrush"@ {
        "sudo apt-get install pngcrush"@
    } else if name == "ffmpeg"@ || name == "ffprobe"@ {
        "sudo apt-get install ffmpeg"@
    } else if name == "exiftool"@ {
        "sudo apt-get install libimage-exiftool-perl"@
    } else if name == "jpegoptim"@ {
        "sudo apt-get install jpegoptim"@
    } else {
        "sudo apt-get install "@ + name
    }
}

/// The tools a run cannot start without.
pub open spec fn required_tool_names() -> Seq<Seq<char>> {
    seq!["cwebp"@, "cjpeg"@, "djpeg"@, "oxipng"@, "ffmpeg"@]
}

/// The "not found" messages for every required tool the table lacks.
pub open spec fn missing_msgs(table: Seq<(String, String)>, names: Seq<Seq<char>>) -> Seq<
    Seq<char>,
>
    decreases names.len(),
{
    if names.len() == 0 {
        Seq::empty()
    } else if lookup(table, names.last()) is None {
        missing_msgs(table, names.drop_last()) + seq![tool_missing_chars(names.last())]
    } else {
        missing_msgs(table, names.drop_last())
    }
}

/// The parts joined by blank lines.
pub open spec fn join_blank(parts: Seq<Seq<char>>) -> Seq<char>
    decreases parts.len(),
{
    if parts.len() == 0 {
        Seq::empty()
    } else if parts.len() == 1 {
        parts[0]
    } else {
        join_blank(parts.drop_last()) + "\n\n"@ + parts.last()
    }
}

/// One line of the availability report: the tool's resolved path, or how
/// to install it.
pub open spec fn tool_report_line(table: Seq<(String, String)>, name: Seq<char>) -> Seq<char> {
    match lookup(table, name) {
        Some(p) => "  [ok] "@ + name + " -> "@ + p + "\n"@,
        None => "  [missing] "@ + name + " (install with: "@ + install_chars(name) + ")\n"@,
    }
}

/// The whole availability report.
pub open spec fn report_chars(table: Seq<(String, String)>, is_development: bool) -> Seq<char> {
    "Tool Path Resolver Report\n"@ + "Development mode: "@ + (if is_development {
        "true"@
    } else {
        "false"@
    }) + "\nPlatform: using system tools\n"@ + "\nTool Availability:\n"@ + "\nWebP:\n"@
        + tool_report_line(table, "cwebp"@) + tool_report_line(table, "dwebp"@) + "\nJPEG:\n"@
        + tool_report_line(table, "cjpeg"@) + tool_report_line(table, "djpeg"@) + tool_report_line(
        table,
        "mozjpeg"@,
    ) + tool_report_line(table, "jpegoptim"@) + tool_report_line(table, "jpegtran"@) + "\nPNG:\n"@
        + tool_report_line(table, "oxipng"@) + tool_report_line(table, "optipng"@)
        + tool_report_line(table, "pngcrush"@) + "\nVideo:\n"@ + tool_report_line(table, "ffmpeg"@)
        + tool_report_line(table, "ffprobe"@) + "\nMetadata:\n"@ + tool_report_line(
        table,
        "exiftool"@,
    ) + "\nNote: install any missing tools with the commands shown above.\n"@
}

/// Resolved tool locations for one run.
#[derive(Debug)]
pub struct ToolPathResolver {
    /// Tool name to resolved binary path; earlier entries win.
    pub tools: Vec<(String, String)>,
    /// Whether the run is a development one (report text only).
    pub is_development: bool,
}

impl Default for ToolPathResolver {
    /// A resolver that knows no tools.
    fn default() -> (r: ToolPathResolver)
        ensures
            r.tools@.len() == 0,
            !r.is_development,
    {
        ToolPathResolver { tools: Vec::new(), is_development: false }
    }
}

impl ToolPathResolver {
    /// A resolver over the given name-to-path table, earlier entries
    /// winning on duplicate names.
    pub fn new(tools: Vec<(String, String)>, is_development: bool) -> (r: ToolPathResolver)
        ensures
            r.tools == tools,
            r.is_development == is_development,
    {
        ToolPathResolver { tools, is_development }
    }

    /// The resolved path of a tool, when the table has one.
    pub fn resolve_tool(&self, tool_name: &str) -> (r: Option<String>)
        ensures
            r is Some <==> lookup(self.tools@, tool_name@) is Some,
            r matches Some(p) ==> lookup(self.tools@, tool_name@) matches Some(q) && p@ == q,
    {
        let n = self.tools.len();
        let mut i: usize = 0;
        proof {
            assert(self.tools@.skip(0) =~= self.tools@);
        }
        while i < n
            invariant
                i <= n,
                n == self.tools@.len(),
                lookup(self.tools@, tool_name@) == lookup(self.tools@.skip(i as int), tool_name@),
            decreases n - i,
        {
            proof {
                assert(self.tools@.skip(i as int)[0] == self.tools@[i as int]);
                assert(self.tools@.skip(i as int).drop_first() =~= self.tools@.skip(i + 1));
            }
            if str_eq(self.tools[i].0.as_str(), tool_name) {
                return Some(self.tools[i].1.clone());
            }
            i = i + 1;
        }
        proof {
            assert(self.tools@.skip(n as int) =~= Seq::<(String, String)>::empty());
        }
        None
    }

    /// Whether the table resolves a tool.
    pub fn is_tool_available(&self, tool_name: &str) -> (r: bool)
        ensures
            r == (lookup(self.tools@, tool_name@) is Some),
    {
        self.resolve_tool(tool_name).is_some()
    }

    /// Every known tool the table resolves, in report order.
    pub fn get_available_tools(&self) -> (r: Vec<String>)
        ensures
            r.deep_view() == available_of(self.tools@, known_tool_names()),
    {
        let names: Vec<&str> = vec![
            "cwebp",
            "dwebp",
            "mozjpeg",
            "jpegoptim",
            "jpegtran",
            "oxipng",
            "optipng",
            "pngcrush",
            "ffmpeg",
            "ffprobe",
            "exiftool",
        ];
        proof {
            assert(names.deep_view() =~= known_tool_names());
        }
        let mut out: Vec<String> = Vec::new();
        let n = names.len();
        let mut i: usize = 0;
        while i < n
            invariant
                i <= n,
                n == names@.len(),
                names.deep_view() == known_tool_names(),
                out.deep_view() == available_of(self.tools@, known_tool_names().take(i as int)),
            decreases n - i,
        {
            proof {
                assert(known_tool_names().take(i + 1).drop_last() =~= known_tool_names().take(
                    i as int,
                ));
                assert(known_tool_names().take(i + 1).last() == known_tool_names()[i as int]);
                assert(names@[i as int]@ == known_tool_names()[i as int]);
            }
            if self.is_tool_available(names[i]) {
                out.push(names[i].to_owned());
                proof {
                    assert(out.deep_view() =~= available_of(
                        self.tools@,
                        known_tool_names().take(i + 1),
                    ));
                }
            } else {
                proof {
                    assert(out.deep_view() =~= available_of(
                        self.tools@,
                        known_tool_names().take(i + 1),
                    ));
                }
            }
            i = i + 1;
        }
        proof {
            assert(known_tool_names().take(n as int) =~= known_tool_names());
        }
        out
    }

    /// The WebP encoder's path.
    pub fn cwebp(&self) -> (r: Option<String>)
        ensures
            r is Some <==> lookup(self.tools@, "cwebp"@) is Some,
            r matches Some(p) ==> lookup(self.tools@, "cwebp"@) matches Some(q) && p@ == q,
    {
        self.resolve_tool("cwebp")
    }

    /// The JPEG encoder's path.
    pub fn cjpeg(&self) -> (r: Option<String>)
        ensures
            r is Some <==> lookup(self.tools@, "cjpeg"@) is Some,
            r matches Some(p) ==> lookup(self.tools@, "cjpeg"@) matches Some(q) && p@ == q,
    {
        self.resolve_tool("cjpeg")
    }

    /// The JPEG decoder's path.
    pub fn djpeg(&self) -> (r: Option<String>)
        ensures
            r is Some <==> lookup(self.tools@, "djpeg"@) is Some,
            r matches Some(p) ==> lookup(self.tools@, "djpeg"@) matches Some(q) && p@ == q,
    {
        self.resolve_tool("djpeg")
    }

    /// The PNG optimizer's path.
    pub fn oxipng(&self) -> (r: Option<String>)
        ensures
            r is Some <==> lookup(self.tools@, "oxipng"@) is Some,
            r matches Some(p) ==> lookup(self.tools@, "oxipng"@) matches Some(q) && p@ == q,
    {
        self.resolve_tool("oxipng")
    }

    /// The video encoder's path.
    pub fn ffmpeg(&self) -> (r: Option<String>)
        ensures
            r is Some <==> lookup(self.tools@, "ffmpeg"@) is Some,
            r matches Some(p) ==> lookup(self.tools@, "ffmpeg"@) matches Some(q) && p@ == q,
    {
        self.resolve_tool("ffmpeg")
    }

    /// The video analyzer's path.
    pub fn ffprobe(&self) -> (r: Option<String>)
        ensures
            r is Some <==> lookup(self.tools@, "ffprobe"@) is Some,
            r matches Some(p) ==> lookup(self.tools@, "ffprobe"@) matches Some(q) && p@ == q,
    {
        self.resolve_tool("ffprobe")
    }

    /// The installation command for a tool, by name.
    pub fn get_linux_install_instructions(&self, tool_name: &str) -> (r: String)
        ensures
            r@ == install_chars(tool_name@),
    {
        if str_eq(tool_name, "cwebp") || str_eq(tool_name, "dwebp") {
            "sudo apt-get install webp".to_owned()
        } else if str_eq(tool_name, "cjpeg") || str_eq(tool_name, "djpeg") || str_eq(
            tool_name,
            "jpegtran",
        ) {
            "sudo apt-get install libjpeg-progs".to_owned()
        } else if str_eq(tool_name, "mozjpeg") {
            "sudo apt-get install libjpeg-progs".to_owned()
        } else if str_eq(tool_name, "oxipng") {
            "sudo apt-get install oxipng".to_owned()
        } else if str_eq(tool_name, "optipng") {
            "sudo apt-get install optipng".to_owned()
        } else if str_eq(tool_name, "pngcrush") {
            "sudo apt-get install pngcrush".to_owned()
        } else if str_eq(tool_name, "ffmpeg") || str_eq(tool_name, "ffprobe") {
            "sudo apt-get install ffmpeg".to_owned()
        } else if str_eq(tool_name, "exiftool") {
            "sudo apt-get install libimage-exiftool-perl".to_owned()
        } else if str_eq(tool_name, "jpegoptim") {
            "sudo apt-get install jpegoptim".to_owned()
        } else {
            let mut s = "sudo apt-get install ".to_owned();
            s.append(tool_name);
            s
        }
    }

    /// The tool's path, or a message saying how to install it.
    pub fn check_tool_with_instructions(&self, tool_name: &str) -> (r: Result<String, String>)
        ensures
            r is Ok <==> lookup(self.tools@, tool_name@) is Some,
            r matches Ok(p) ==> lookup(self.tools@, tool_name@) matches Some(q) && p@ == q,
            r matches Err(m) ==> m@ == tool_missing_chars(tool_name@),
    {
        match self.resolve_tool(tool_name) {
            Some(path) => Ok(path),
            None => {
                let mut m = "Tool '".to_owned();
                m.append(tool_name);
                m.append("' not found in system PATH.\nTo install, run:\n  ");
                m.append(self.get_linux_install_instructions(tool_name).as_str());
                Err(m)
            },
        }
    }

    /// One line of the availability report.
    fn report_line(&self, tool: &str) -> (r: String)
        ensures
            r@ == tool_report_line(self.tools@, tool@),
    {
        match self.resolve_tool(tool) {
            Some(path) => {
                let mut s = "  [ok] ".to_owned();
                s.append(tool);
                s.append(" -> ");
                s.append(path.as_str());
                s.append("\n");
                s
            },
            None => {
                let mut s = "  [missing] ".to_owned();
                s.append(tool);
                s.append(" (install with: ");
                s.append(self.get_linux_install_instructions(tool).as_str());
                s.append(")\n");
                s
            },
        }
    }

    /// The availability report: a header, then one line per known tool,
    /// grouped by what the tool is for.
    pub fn get_tools_report(&self) -> (r: String)
        ensures
            r@ == report_chars(self.tools@, self.is_development),
    {
        let mut s = "Tool Path Resolver Report\n".to_owned();
        s.append("Development mode: ");
        if self.is_development {
            s.append("true");
        } else {
            s.append("false");
        }
        s.append("\nPlatform: using system tools\n");
        s.append("\nTool Availability:\n");
        s.append("\nWebP:\n");
        s.append(self.report_line("cwebp").as_str());
        s.append(self.report_line("dwebp").as_str());
        s.append("\nJPEG:\n");
        s.append(self.report_line("cjpeg").as_str());
        s.append(self.report_line("djpeg").as_str());
        s.append(self.report_line("mozjpeg").as_str());
        s.append(self.report_line("jpegoptim").as_str());
        s.append(self.report_line("jpegtran").as_str());
        s.append("\nPNG:\n");
        s.append(self.report_line("oxipng").as_str());
        s.append(self.report_line("optipng").as_str());
        s.append(self.report_line("pngcrush").as_str());
        s.append("\nVideo:\n");
        s.append(self.report_line("ffmpeg").as_str());
        s.append(self.report_line("ffprobe").as_str());
        s.append("\nMetadata:\n");
        s.append(self.report_line("exiftool").as_str());
        s.append("\nNote: install any missing tools with the commands shown above.\n");
        s
    }

    /// `Ok` exactly when every required tool resolves; otherwise the
    /// missing tools' messages, joined by blank lines under a header.
    pub fn verify_tools(&self) -> (r: Result<(), String>)
        ensures
            r is Ok <==> missing_msgs(self.tools@, required_tool_names()).len() == 0,
            r matches Err(m) ==> m@ == "Some required tools are missing:\n\n"@ + join_blank(
                missing_msgs(self.tools@, required_tool_names()),
            ),
    {
        let names: Vec<&str> = vec!["cwebp", "cjpeg", "djpeg", "oxipng", "ffmpeg"];
        proof {
            assert(names.deep_view() =~= required_tool_names());
        }
        let mut msgs: Vec<String> = Vec::new();
        let n = names.len();
        let mut i: usize = 0;
        while i < n
            invariant
                i <= n,
                n == names@.len(),
                names.deep_view() == required_tool_names(),
                msgs.deep_view() == missing_msgs(self.tools@, required_tool_names().take(i as int)),
            decreases n - i,
        {
            proof {
                assert(required_tool_names().take(i + 1).drop_last() =~= required_tool_names().take(
                    i as int,
                ));
                assert(required_tool_names().take(i + 1).last() == required_tool_names()[i as int]);
                assert(names@[i as int]@ == required_tool_names()[i as int]);
            }
            match self.check_tool_with_instructions(names[i]) {
                Ok(_) => {
                    proof {
                        assert(msgs.deep_view() =~= missing_msgs(
                            self.tools@,
                            required_tool_names().take(i + 1),
                        ));
                    }
                },
                Err(m) => {
                    msgs.push(m);
                    proof {
                        assert(msgs.deep_view() =~= missing_msgs(
                            self.tools@,
                            required_tool_names().take(i + 1),
                        ));
                    }
                },
            }
            i = i + 1;
        }
        proof {
            assert(required_tool_names().take(n as int) =~= required_tool_names());
        }
        if msgs.len() == 0 {
            Ok(())
        } else {
            let mut joined = msgs[0].clone();
            let m = msgs.len();
            let mut j: usize = 1;
            while j < m
                invariant
                    1 <= j <= m,
                    m == msgs@.len(),
                    msgs.deep_view() == missing_msgs(self.tools@, required_tool_names()),
                    joined@ == join_blank(msgs.deep_view().take(j as int)),
                decreases m - j,
            {
                proof {
                    assert(msgs.deep_view().take(j + 1).drop_last() =~= msgs.deep_view().take(
                        j as int,
                    ));
                    assert(msgs.deep_view().take(j + 1).last() == msgs.deep_view()[j as int]);
                }
                joined.append("\n\n");
                joined.append(msgs[j].as_str());
                j = j + 1;
            }
            proof {
                assert(msgs.deep_view().take(m as int) =~= msgs.deep_view());
            }
            let mut out = "Some required tools are missing:\n\n".to_owned();
            out.append(joined.as_str());
            Err(out)
        }
    }
}

} // verus!
