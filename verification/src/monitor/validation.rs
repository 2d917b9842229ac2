//! The checks that a command line passes before it may run.
//!
//! Prose is kept from being run as a command, raw-socket scans are rewritten
//! to an unprivileged scan or refused, a network scan must name a target, and
//! a well-known tool must be installed.

use crate::seqs::views;
use crate::text::ascii_lower;
use crate::text::cat;
use crate::text::chars_of;
use crate::text::contains;
use crate::text::contains_any;
use crate::text::find_contained;
use crate::text::first_contained;
use crate::text::list_has;
use crate::text::contains_chars;
use crate::text::is_ascii_char;
use crate::text::is_whitespace;
use crate::text::leading_ws;
use crate::text::lemma_ascii_lower_keeps_occurrence;
use crate::text::lemma_trim_keeps_occurrence;
use crate::text::lowercase;
use crate::text::matches_at;
use crate::text::occurs_at;
use crate::text::replace_all;
use crate::text::starts_with;
use crate::text::str_replace;
use crate::text::str_trim;
use crate::text::to_lowercase;
use crate::text::trim;
use vstd::prelude::*;

verus! {

/// Why a command line was refused.
#[derive(Debug)]
pub enum ValidationError {
    /// Nothing but white space.
    Empty,
    /// The text holds this phrase, which marks prose, not a command.
    ExplanatoryText(String),
    /// A raw-socket scan that cannot be run without privileges.
    PrivilegedScan,
    /// A network scan that names no target.
    MissingTarget,
    /// The command needs this tool, and it is not installed.
    ToolMissing(String),
}

/// The view of a `ValidationError`.
pub enum ValidationErrorView {
    Empty,
    ExplanatoryText(Seq<char>),
    PrivilegedScan,
    MissingTarget,
    ToolMissing(Seq<char>),
}

impl View for ValidationError {
    type V = ValidationErrorView;

    open spec fn view(&self) -> ValidationErrorView {
        match self {
            ValidationError::Empty => ValidationErrorView::Empty,
            ValidationError::ExplanatoryText(m) => ValidationErrorView::ExplanatoryText(m@),
            ValidationError::PrivilegedScan => ValidationErrorView::PrivilegedScan,
            ValidationError::MissingTarget => ValidationErrorView::MissingTarget,
            ValidationError::ToolMissing(t) => ValidationErrorView::ToolMissing(t@),
        }
    }
}

impl ValidationError {
    /// The message that a caller shows for this error.
    pub open spec fn message_text(self) -> Seq<char> {
        match self {
            ValidationError::Empty => "Empty command"@,
            ValidationError::ExplanatoryText(m) =>
                "This appears to be explanatory text, not a command: '"@ + m@ + "'"@,
            ValidationError::PrivilegedScan =>
                "This scan type requires root privileges. Try using 'sudo' or switch to '-sT' for unprivileged scanning."@,
            ValidationError::MissingTarget => "Nmap command appears to be missing a valid target"@,
            ValidationError::ToolMissing(t) => "Tool '"@ + t@ + "' is not installed or not in PATH"@,
        }
    }

    /// The message that a caller shows for this error.
    pub fn message(&self) -> (r: String)
        ensures
            r@ == self.message_text(),
    {
        match self {
            ValidationError::Empty => String::from_str("Empty command"),
            ValidationError::ExplanatoryText(m) => {
                let mut r = String::from_str(
                    "This appears to be explanatory text, not a command: '",
                );
                r.append(m.as_str());
                r.append("'");
                r
            },
            ValidationError::PrivilegedScan => String::from_str(
                "This scan type requires root privileges. Try using 'sudo' or switch to '-sT' for unprivileged scanning.",
            ),
            ValidationError::MissingTarget => String::from_str(
                "Nmap command appears to be missing a valid target",
            ),
            ValidationError::ToolMissing(t) => {
                let mut r = String::from_str("Tool '");
                r.append(t.as_str());
                r.append("' is not installed or not in PATH");
                r
            },
        }
    }
}

/// The phrases that mark explanatory prose.
pub open spec fn explanatory_markers() -> Seq<Seq<char>> {
    seq![
        "try this"@,
        "this will"@,
        "command:"@,
        "run this"@,
        "executing:"@,
        "scan just"@,
        "lay of the land"@,
        "scan finishes"@,
        "tell me what"@,
        "we can"@,
        "you can"@,
        "let's"@,
        "while that's"@,
        "once the"@,
        "get a"@,
        "gives us"@,
        "let me know"@,
        "execute this"@,
        "we'll"@,
        "you'll"@,
        "finished"@,
        "finishes"@,
        "look for"@,
        "find out"@,
    ]
}

/// The scan flags that need raw sockets and have no unprivileged stand-in.
pub open spec fn privileged_flags() -> Seq<Seq<char>> {
    seq![" -sU"@, " -sN"@, " -sF"@, " -sX"@]
}

/// The pieces of text of which one must occur in a network scan for it to
/// name a target: a well-known top-level domain, or the start of a loopback
/// or private address.
pub open spec fn target_hints() -> Seq<Seq<char>> {
    seq![
        ".com"@,
        ".net"@,
        ".org"@,
        ".edu"@,
        ".gov"@,
        ".io"@,
        ".co"@,
        " localhost"@,
        " 127.0.0.1"@,
        " 10."@,
        " 192.168."@,
        " 172."@,
    ]
}

/// The tools whose presence is checked before a command that starts with one
/// of them may run.
pub open spec fn common_tools() -> Seq<Seq<char>> {
    seq![
        "nmap"@,
        "dig"@,
        "whois"@,
        "ping"@,
        "traceroute"@,
        "gobuster"@,
        "ffuf"@,
        "dirb"@,
    ]
}

/// Whether `command` starts with `tool`, alone or behind `sudo`.
pub open spec fn invokes(command: Seq<char>, tool: Seq<char>) -> bool {
    starts_with(command, tool) || starts_with(command, "sudo "@ + tool)
}

/// Whether `command` is run through `sudo`.
pub open spec fn is_sudo(command: Seq<char>) -> bool {
    starts_with(command, "sudo "@)
}

/// Whether the trimmed command asks `nmap` for a raw-socket scan that cannot
/// be downgraded, without `sudo`.
pub open spec fn is_privileged_scan(command: Seq<char>) -> bool {
    contains(command, "nmap"@) && contains_any(command, privileged_flags()) && !is_sudo(command)
}

/// The trimmed command with a SYN scan downgraded to a TCP connect scan,
/// where `nmap` would run it without `sudo`.
pub open spec fn downgraded(command: Seq<char>) -> Seq<char> {
    if contains(command, "nmap"@) && contains(command, " -sS"@) && !is_sudo(command) {
        replace_all(command, " -sS"@, " -sT"@)
    } else {
        command
    }
}

/// Whether the command is a network scan that names no target.
pub open spec fn lacks_target(command: Seq<char>) -> bool {
    invokes(command, "nmap"@) && !contains_any(command, target_hints())
}

/// The least index at or after `from` of a common tool that `command`
/// invokes and that is listed in `missing`.
pub open spec fn first_missing_tool(command: Seq<char>, missing: Seq<Seq<char>>, from: int) -> Option<
    int,
>
    decreases common_tools().len() - from,
{
    if from < 0 || from >= common_tools().len() {
        None
    } else if invokes(command, common_tools()[from]) && missing.contains(common_tools()[from]) {
        Some(from)
    } else {
        first_missing_tool(command, missing, from + 1)
    }
}

/// What validation makes of `command`, where `missing` lists the tools that
/// are known not to be installed: the command line to run, or the first
/// reason to refuse it.
pub open spec fn validated(command: Seq<char>, missing: Seq<Seq<char>>) -> Result<
    Seq<char>,
    ValidationErrorView,
> {
    let trimmed = trim(command);
    let fixed = downgraded(trimmed);
    let marker = first_contained(lowercase(trimmed), explanatory_markers(), 0);
    let tool = first_missing_tool(fixed, missing, 0);
    if trimmed.len() == 0 {
        Err(ValidationErrorView::Empty)
    } else if marker is Some {
        Err(ValidationErrorView::ExplanatoryText(explanatory_markers()[marker.unwrap()]))
    } else if is_privileged_scan(trimmed) {
        Err(ValidationErrorView::PrivilegedScan)
    } else if lacks_target(fixed) {
        Err(ValidationErrorView::MissingTarget)
    } else if tool is Some {
        Err(ValidationErrorView::ToolMissing(common_tools()[tool.unwrap()]))
    } else {
        Ok(fixed)
    }
}

/// Text made of ASCII characters only.
pub open spec fn is_ascii_text(s: Seq<char>) -> bool {
    forall|i: int| 0 <= i < s.len() ==> is_ascii_char(s[i])
}

/// In ASCII text that holds the phrase "try this", the phrase is still there
/// once the text is trimmed and lowered character by character.
pub proof fn lemma_try_this_survives(command: Seq<char>)
    requires
        is_ascii_text(command),
        contains(command, "try this"@),
    ensures
        trim(command).len() > 0,
        is_ascii_text(trim(command)),
        contains(trim(command).map_values(|c: char| ascii_lower(c)), "try this"@),
{
    reveal_strlit("try this");
    let p = "try this"@;
    assert(p.len() == 8);
    assert(!is_whitespace(p[0]) && !is_whitespace(p[7]));
    lemma_trim_keeps_occurrence(command, p);
    let i = choose|i: int| occurs_at(trim(command), p, i);
    assert(occurs_at(trim(command), p, i));
    assert forall|k: int| 0 <= k < p.len() implies ascii_lower(#[trigger] p[k]) == p[k] by {
        assert(p[0] == 't' && p[1] == 'r' && p[2] == 'y' && p[3] == ' ' && p[4] == 't' && p[5]
            == 'h' && p[6] == 'i' && p[7] == 's');
    }
    lemma_ascii_lower_keeps_occurrence(trim(command), p);
    let a = leading_ws(command) as int;
    crate::text::lemma_trim_is_subrange(command);
    assert forall|j: int| 0 <= j < trim(command).len() implies is_ascii_char(
        trim(command)[j],
    ) by {
        assert(trim(command)[j] == command[j + a]);
    }
}

/// A command line of white space only is refused as empty.
pub proof fn law_blank_command_is_refused(command: Seq<char>, missing: Seq<Seq<char>>)
    requires
        forall|i: int| 0 <= i < command.len() ==> is_whitespace(command[i]),
    ensures
        validated(command, missing) == Err::<Seq<char>, ValidationErrorView>(
            ValidationErrorView::Empty,
        ),
{
    crate::text::lemma_leading_ws(command, command.len() as int);
}

/// A network scan that names no target is refused, whatever else holds of it.
pub proof fn law_scan_without_target_is_refused(command: Seq<char>, missing: Seq<Seq<char>>)
    requires
        lacks_target(downgraded(trim(command))),
    ensures
        validated(command, missing) is Err,
{
}

/// The views of a validation result.
pub open spec fn result_view(r: Result<String, ValidationError>) -> Result<
    Seq<char>,
    ValidationErrorView,
> {
    match r {
        Ok(s) => Ok(s@),
        Err(e) => Err(e@),
    }
}

fn marker_list() -> (v: Vec<&'static str>)
    ensures
        views(v@) == explanatory_markers(),
{
    let v = vec![
        "try this",
        "this will",
        "command:",
        "run this",
        "executing:",
        "scan just",
        "lay of the land",
        "scan finishes",
        "tell me what",
        "we can",
        "you can",
        "let's",
        "while that's",
        "once the",
        "get a",
        "gives us",
        "let me know",
        "execute this",
        "we'll",
        "you'll",
        "finished",
        "finishes",
        "look for",
        "find out",
    ];
    assert(views(v@) =~= explanatory_markers());
    v
}

fn privileged_flag_list() -> (v: Vec<&'static str>)
    ensures
        views(v@) == privileged_flags(),
{
    let v = vec![" -sU", " -sN", " -sF", " -sX"];
    assert(views(v@) =~= privileged_flags());
    v
}

fn target_hint_list() -> (v: Vec<&'static str>)
    ensures
        views(v@) == target_hints(),
{
    let v = vec![
        ".com",
        ".net",
        ".org",
        ".edu",
        ".gov",
        ".io",
        ".co",
        " localhost",
        " 127.0.0.1",
        " 10.",
        " 192.168.",
        " 172.",
    ];
    assert(views(v@) =~= target_hints());
    v
}

fn common_tool_list() -> (v: Vec<&'static str>)
    ensures
        views(v@) == common_tools(),
{
    let v = vec!["nmap", "dig", "whois", "ping", "traceroute", "gobuster", "ffuf", "dirb"];
    assert(views(v@) =~= common_tools());
    v
}

/// Whether `command` starts with `tool`, alone or behind `sudo`.
pub fn command_invokes(command: &Vec<char>, tool: &str) -> (r: bool)
    ensures
        r == invokes(command@, tool@),
{
    let plain = chars_of(tool);
    if matches_at(command, &plain, 0) {
        return true;
    }
    let with_sudo = cat("sudo ", tool);
    let prefixed = chars_of(with_sudo.as_str());
    matches_at(command, &prefixed, 0)
}

/// The first common tool that `command` invokes and that `missing_tools` lists.
pub fn find_missing_tool(command: &Vec<char>, missing_tools: &Vec<String>) -> (r: Option<String>)
    ensures
        match r {
            Some(tool) => first_missing_tool(command@, views(missing_tools@), 0) matches Some(i)
                && tool@ == common_tools()[i],
            None => first_missing_tool(command@, views(missing_tools@), 0) is None,
        },
{
    let tools = common_tool_list();
    let mut i: usize = 0;
    while i < tools.len()
        invariant
            i <= tools.len(),
            views(tools@) == common_tools(),
            first_missing_tool(command@, views(missing_tools@), 0) == first_missing_tool(
                command@,
                views(missing_tools@),
                i as int,
            ),
        decreases tools.len() - i,
    {
        assert(views(tools@)[i as int] == tools@[i as int]@);
        if command_invokes(command, tools[i]) && list_has(missing_tools, tools[i]) {
            return Some(String::from_str(tools[i]));
        }
        i += 1;
    }
    None
}

/// Checks a command line and makes it safe to run.
///
/// `missing_tools` lists the tools that were looked for on the execution
/// path and not found. The result is the command line to run, trimmed and
/// with a SYN scan downgraded to a TCP connect scan, or the first reason to
/// refuse it, exactly as `validated` says.
pub fn validate_and_fix_command(command: &str, missing_tools: &Vec<String>) -> (r: Result<
    String,
    ValidationError,
>)
    ensures
        result_view(r) == validated(command@, views(missing_tools@)),
        is_ascii_text(command@) && contains(command@, "try this"@) ==> result_view(r) == Err::<
            Seq<char>,
            ValidationErrorView,
        >(ValidationErrorView::ExplanatoryText("try this"@)),
{
    let trimmed = str_trim(command);
    let tv = chars_of(trimmed.as_str());
    proof {
        if is_ascii_text(command@) && contains(command@, "try this"@) {
            lemma_try_this_survives(command@);
        }
    }
    if tv.len() == 0 {
        return Err(ValidationError::Empty);
    }
    let lowered = to_lowercase(trimmed.as_str());
    let lv = chars_of(lowered.as_str());
    let markers = marker_list();
    match find_contained(&lv, &markers) {
        Some(i) => {
            return Err(ValidationError::ExplanatoryText(String::from_str(markers[i])));
        },
        None => {},
    }
    let nmap = chars_of("nmap");
    let sudo = chars_of("sudo ");
    let has_nmap = contains_chars(&tv, &nmap);
    let runs_sudo = matches_at(&tv, &sudo, 0);
    let flags = privileged_flag_list();
    if has_nmap && find_contained(&tv, &flags).is_some() && !runs_sudo {
        return Err(ValidationError::PrivilegedScan);
    }
    let syn = chars_of(" -sS");
    let fixed = if has_nmap && contains_chars(&tv, &syn) && !runs_sudo {
        str_replace(trimmed.as_str(), " -sS", " -sT")
    } else {
        trimmed
    };
    let fv = chars_of(fixed.as_str());
    let hints = target_hint_list();
    if command_invokes(&fv, "nmap") && find_contained(&fv, &hints).is_none() {
        return Err(ValidationError::MissingTarget);
    }
    match find_missing_tool(&fv, missing_tools) {
        Some(tool) => {
            return Err(ValidationError::ToolMissing(tool));
        },
        None => {},
    }
    Ok(fixed)
}

/// The common tools that the command line invokes once it is validated: the
/// ones to look for on the execution path before it runs.
pub open spec fn tools_needed(command: Seq<char>, upto: int) -> Seq<Seq<char>>
    decreases upto,
{
    if upto <= 0 {
        Seq::empty()
    } else if invokes(downgraded(trim(command)), common_tools()[upto - 1]) {
        tools_needed(command, upto - 1).push(common_tools()[upto - 1])
    } else {
        tools_needed(command, upto - 1)
    }
}

/// The common tools that `command` invokes, in the order in which they are
/// checked: the tools to look for before `validate_and_fix_command` is asked.
pub fn required_tools(command: &str) -> (r: Vec<String>)
    ensures
        views(r@) == tools_needed(command@, common_tools().len() as int),
{
    let trimmed = str_trim(command);
    let tv = chars_of(trimmed.as_str());
    let nmap = chars_of("nmap");
    let sudo = chars_of("sudo ");
    let syn = chars_of(" -sS");
    let fixed = if contains_chars(&tv, &nmap) && contains_chars(&tv, &syn) && !matches_at(
        &tv,
        &sudo,
        0,
    ) {
        str_replace(trimmed.as_str(), " -sS", " -sT")
    } else {
        trimmed
    };
    let fv = chars_of(fixed.as_str());
    let tools = common_tool_list();
    let mut out: Vec<String> = Vec::new();
    let mut i: usize = 0;
    while i < tools.len()
        invariant
            i <= tools.len(),
            views(tools@) == common_tools(),
            fv@ == downgraded(trim(command@)),
            views(out@) == tools_needed(command@, i as int),
        decreases tools.len() - i,
    {
        if command_invokes(&fv, tools[i]) {
            let name = String::from_str(tools[i]);
            proof {
                crate::seqs::lemma_views_push(out@, name);
                assert(views(tools@)[i as int] == tools@[i as int]@);
            }
            out.push(name);
        }
        i += 1;
    }
    out
}

} // verus!
