//! Reading the replies of the assistant and the output of commands: the
//! commands that a reply asks to run, made safe for their targets, the type
//! of a command, and what the output of a command means.

use crate::monitor::model::CommandType;
use crate::monitor::validation::command_invokes;
use crate::monitor::validation::explanatory_markers;
use crate::monitor::validation::invokes;
use crate::monitor::validation::target_hints;
use crate::pattern::captures;
use crate::pattern::first_match;
use crate::pattern::replace_first;
use crate::pattern::replaced_first;
use crate::pattern::Groups;
use crate::seqs::lemma_views_push;
use crate::seqs::option_view;
use crate::seqs::views;
use crate::text::cat;
use crate::text::chars_of;
use crate::text::contains;
use crate::text::contains_any;
use crate::text::contains_chars;
use crate::text::count_char;
use crate::text::count_of;
use crate::text::find_contained;
use crate::text::join;
use crate::text::lines;
use crate::text::list_has;
use crate::text::lowercase;
use crate::text::matches_at;
use crate::text::parse_i32;
use crate::text::parsed_i32;
use crate::text::replace_all;
use crate::text::second_part;
use crate::text::starts_with;
use crate::text::str_contains;
use crate::text::str_join;
use crate::text::str_lines;
use crate::text::str_replace;
use crate::text::str_second_part;
use crate::text::str_starts_with;
use crate::text::str_trim;
use crate::text::strip_chars;
use crate::text::strip_prefixes;
use crate::text::stripped;
use crate::text::to_lowercase;
use crate::text::trim;
use crate::text::without_prefixes;
use vstd::prelude::*;

verus! {

/// The words that mark a command as reconnaissance.
pub open spec fn reconnaissance_words() -> Seq<Seq<char>> {
    seq![
        "nmap"@,
        "ping"@,
        "dig"@,
        "whois"@,
        "traceroute"@,
        "host"@,
        "subfinder"@,
        "amass"@,
        "assetfinder"@,
    ]
}

/// The words that mark a command as scanning.
pub open spec fn scanning_words() -> Seq<Seq<char>> {
    seq!["gobuster"@, "dirsearch"@, "nikto"@, "wfuzz"@, "ffuf"@, "dirb"@]
}

/// The words that mark a command as exploitation.
pub open spec fn exploitation_words() -> Seq<Seq<char>> {
    seq!["sqlmap"@, "metasploit"@, "msfconsole"@, "exploitdb"@, "searchsploit"@]
}

/// The words that mark a command as vulnerability assessment.
pub open spec fn vulnerability_words() -> Seq<Seq<char>> {
    seq!["nuclei"@, "nessus"@, "openvas"@, "zap"@, "burpsuite"@]
}

/// The words that mark a command as documentation.
pub open spec fn documentation_words() -> Seq<Seq<char>> {
    seq!["echo"@, "cat"@, "grep"@, "find"@, "awk"@, "sed"@]
}

/// The type of the command `lowered`, in lower case: that of the first
/// group of tools of which it names one, in the order reconnaissance,
/// scanning, exploitation, vulnerability assessment, documentation.
pub open spec fn command_type_for(lowered: Seq<char>) -> CommandType {
    if contains_any(lowered, reconnaissance_words()) {
        CommandType::Reconnaissance
    } else if contains_any(lowered, scanning_words()) {
        CommandType::Scanning
    } else if contains_any(lowered, exploitation_words()) {
        CommandType::Exploitation
    } else if contains_any(lowered, vulnerability_words()) {
        CommandType::Vulnerability
    } else if contains_any(lowered, documentation_words()) {
        CommandType::Documentation
    } else {
        CommandType::Generic
    }
}

/// The type of a command.
pub open spec fn command_type_of(command: Seq<char>) -> CommandType {
    command_type_for(lowercase(command))
}

fn reconnaissance_word_list() -> (v: Vec<&'static str>)
    ensures
        views(v@) == reconnaissance_words(),
{
    let v = vec![
        "nmap",
        "ping",
        "dig",
        "whois",
        "traceroute",
        "host",
        "subfinder",
        "amass",
        "assetfinder",
    ];
    assert(views(v@) =~= reconnaissance_words());
    v
}

fn scanning_word_list() -> (v: Vec<&'static str>)
    ensures
        views(v@) == scanning_words(),
{
    let v = vec!["gobuster", "dirsearch", "nikto", "wfuzz", "ffuf", "dirb"];
    assert(views(v@) =~= scanning_words());
    v
}

fn exploitation_word_list() -> (v: Vec<&'static str>)
    ensures
        views(v@) == exploitation_words(),
{
    let v = vec!["sqlmap", "metasploit", "msfconsole", "exploitdb", "searchsploit"];
    assert(views(v@) =~= exploitation_words());
    v
}

fn vulnerability_word_list() -> (v: Vec<&'static str>)
    ensures
        views(v@) == vulnerability_words(),
{
    let v = vec!["nuclei", "nessus", "openvas", "zap", "burpsuite"];
    assert(views(v@) =~= vulnerability_words());
    v
}

fn documentation_word_list() -> (v: Vec<&'static str>)
    ensures
        views(v@) == documentation_words(),
{
    let v = vec!["echo", "cat", "grep", "find", "awk", "sed"];
    assert(views(v@) =~= documentation_words());
    v
}

/// Whether `hay` holds an item of `needles`.
pub fn has_any(hay: &Vec<char>, needles: &Vec<&'static str>) -> (r: bool)
    ensures
        r == contains_any(hay@, views(needles@)),
{
    find_contained(hay, needles).is_some()
}

/// The type of a command in lower case.
pub fn command_type_in(lowered: &str) -> (r: CommandType)
    ensures
        r == command_type_for(lowered@),
{
    let lv = chars_of(lowered);
    if has_any(&lv, &reconnaissance_word_list()) {
        CommandType::Reconnaissance
    } else if has_any(&lv, &scanning_word_list()) {
        CommandType::Scanning
    } else if has_any(&lv, &exploitation_word_list()) {
        CommandType::Exploitation
    } else if has_any(&lv, &vulnerability_word_list()) {
        CommandType::Vulnerability
    } else if has_any(&lv, &documentation_word_list()) {
        CommandType::Documentation
    } else {
        CommandType::Generic
    }
}

/// The type of a command, by the tools that it names.
pub fn determine_command_type(command: &str) -> (r: CommandType)
    ensures
        r == command_type_of(command@),
{
    command_type_in(to_lowercase(command).as_str())
}

/// The lines among the first `upto` of `ls` that hold an item of `needles`.
pub open spec fn lines_with(ls: Seq<Seq<char>>, needles: Seq<Seq<char>>, upto: int) -> Seq<
    Seq<char>,
>
    decreases upto,
{
    if upto <= 0 {
        Seq::empty()
    } else if contains_any(ls[upto - 1], needles) {
        lines_with(ls, needles, upto - 1).push(ls[upto - 1])
    } else {
        lines_with(ls, needles, upto - 1)
    }
}

/// The first line at or after `from` that holds an item of `needles`.
pub open spec fn first_line_with(ls: Seq<Seq<char>>, needles: Seq<Seq<char>>, from: int) -> Option<
    Seq<char>,
>
    decreases ls.len() - from,
{
    if from < 0 || from >= ls.len() {
        None
    } else if contains_any(ls[from], needles) {
        Some(ls[from])
    } else {
        first_line_with(ls, needles, from + 1)
    }
}

/// The lines of `ls` that hold an item of `needles`.
pub fn pick_lines(ls: &Vec<String>, needles: &Vec<&'static str>) -> (r: Vec<String>)
    ensures
        views(r@) == lines_with(views(ls@), views(needles@), ls@.len() as int),
{
    let mut out: Vec<String> = Vec::new();
    let mut i: usize = 0;
    assert(views(out@) =~= Seq::<Seq<char>>::empty());
    while i < ls.len()
        invariant
            i <= ls.len(),
            views(out@) == lines_with(views(ls@), views(needles@), i as int),
        decreases ls.len() - i,
    {
        assert(views(ls@)[i as int] == ls@[i as int]@);
        if has_any(&chars_of(ls[i].as_str()), needles) {
            let kept = ls[i].clone();
            proof {
                lemma_views_push(out@, kept);
            }
            out.push(kept);
        }
        i += 1;
    }
    out
}

/// The first line of `ls` that holds an item of `needles`.
pub fn pick_first_line(ls: &Vec<String>, needles: &Vec<&'static str>) -> (r: Option<String>)
    ensures
        option_view(r) == first_line_with(views(ls@), views(needles@), 0),
{
    let mut i: usize = 0;
    while i < ls.len()
        invariant
            i <= ls.len(),
            first_line_with(views(ls@), views(needles@), 0) == first_line_with(
                views(ls@),
                views(needles@),
                i as int,
            ),
        decreases ls.len() - i,
    {
        assert(views(ls@)[i as int] == ls@[i as int]@);
        if has_any(&chars_of(ls[i].as_str()), needles) {
            return Some(ls[i].clone());
        }
        i += 1;
    }
    None
}

/// The words of a line that tells of a firewall.
pub open spec fn waf_marks() -> Seq<Seq<char>> {
    seq!["detected"@, "identified"@, "Detected:"@]
}

/// The words of a line that answers a name look-up.
pub open spec fn dns_marks() -> Seq<Seq<char>> {
    seq!["IN"@, "has address"@, "nameserver"@, "mail is handled"@]
}

/// The words of a line that reports a directory or a file that answers.
pub open spec fn status_marks() -> Seq<Seq<char>> {
    seq![
        "Status: 200"@,
        "Status: 301"@,
        "Status: 302"@,
        "(Status: 200)"@,
        "(Status: 301)"@,
        "(Status: 302)"@,
    ]
}

/// What the output of a firewall detection means.
pub open spec fn waf_meaning(output: Seq<char>) -> Seq<char> {
    if output.len() == 0 || contains(output, "No WAF detected"@) {
        "No WAF (Web Application Firewall) was detected. This suggests the site may not have this layer of protection."@
    } else if contains(output, "detected"@) || contains(output, "Detected:"@) || contains(
        output,
        "identified"@,
    ) {
        "A WAF was detected! "@ + (match first_line_with(lines(output), waf_marks(), 0) {
            Some(line) => line,
            None => "A WAF was detected but could not extract details."@,
        })
    } else {
        "Ran WAF detection. Raw output:\n"@ + output
    }
}

/// What the output of a port scan means.
pub open spec fn scan_meaning(output: Seq<char>) -> Seq<char> {
    let open = lines_with(lines(output), seq!["open"@], lines(output).len() as int);
    if contains(output, "open"@) {
        if open.len() > 0 {
            "Found open ports:\n"@ + join(open, "\n"@)
        } else {
            "Scan completed but couldn't extract open port details."@
        }
    } else if contains(output, "closed"@) || contains(output, "filtered"@) {
        "No open ports were detected in the specified range."@
    } else {
        "Scan completed. Raw output:\n"@ + output
    }
}

/// What the output of a name look-up means.
pub open spec fn dns_meaning(output: Seq<char>) -> Seq<char> {
    if contains(output, "ANSWER SECTION"@) || contains(output, "has address"@) {
        "DNS information retrieved:\n"@ + join(
            lines_with(lines(output), dns_marks(), lines(output).len() as int),
            "\n"@,
        )
    } else {
        "DNS lookup completed. Raw output:\n"@ + output
    }
}

/// What the output of a directory scan means.
pub open spec fn directory_meaning(output: Seq<char>) -> Seq<char> {
    let found = join(lines_with(lines(output), status_marks(), lines(output).len() as int), "\n"@);
    if contains(output, "Status:"@) || contains(output, "found"@) || contains(output, "Result"@) {
        if found.len() > 0 {
            "Found directories/files:\n"@ + found
        } else {
            "Directory scan completed but no significant findings were detected."@
        }
    } else {
        "Directory scan completed but no accessible resources were found."@
    }
}

/// What the output of a transfer with `curl` means.
pub open spec fn curl_meaning(lowered: Seq<char>, output: Seq<char>) -> Seq<char> {
    if contains(lowered, "server"@) {
        "Server information: "@ + (match first_line_with(lines(output), seq!["Server:"@], 0) {
            Some(line) => line,
            None => "No Server header found."@,
        })
    } else if contains(output, "<html"@) || contains(output, "<!DOCTYPE"@) {
        "Retrieved HTML content from the target site."@
    } else if contains(output, "{"@) && contains(output, "}"@) {
        "Retrieved JSON data from the target site."@
    } else {
        "CURL command completed. Output:\n"@ + output
    }
}

/// What the output `output` of the command `lowered`, in lower case, means.
/// The first kind of tool that the command names decides how the output is
/// read: firewall detection, port scan, name look-up, directory scan,
/// transfer.
pub open spec fn meaning_for(lowered: Seq<char>, output: Seq<char>) -> Seq<char> {
    if contains(lowered, "waf"@) || contains(lowered, "wafw00f"@) {
        waf_meaning(output)
    } else if contains(lowered, "nmap"@) {
        scan_meaning(output)
    } else if contains(lowered, "dig"@) || contains(lowered, "host"@) || contains(
        lowered,
        "nslookup"@,
    ) {
        dns_meaning(output)
    } else if contains(lowered, "gobuster"@) || contains(lowered, "dirb"@) || contains(
        lowered,
        "dirsearch"@,
    ) {
        directory_meaning(output)
    } else if contains(lowered, "curl"@) {
        curl_meaning(lowered, output)
    } else {
        "Command completed. Output:\n"@ + output
    }
}

/// What the output `output` of the command `command` means.
pub open spec fn meaning_of(command: Seq<char>, output: Seq<char>) -> Seq<char> {
    meaning_for(lowercase(command), output)
}

fn waf_mark_list() -> (v: Vec<&'static str>)
    ensures
        views(v@) == waf_marks(),
{
    let v = vec!["detected", "identified", "Detected:"];
    assert(views(v@) =~= waf_marks());
    v
}

fn dns_mark_list() -> (v: Vec<&'static str>)
    ensures
        views(v@) == dns_marks(),
{
    let v = vec!["IN", "has address", "nameserver", "mail is handled"];
    assert(views(v@) =~= dns_marks());
    v
}

fn status_mark_list() -> (v: Vec<&'static str>)
    ensures
        views(v@) == status_marks(),
{
    let v = vec![
        "Status: 200",
        "Status: 301",
        "Status: 302",
        "(Status: 200)",
        "(Status: 301)",
        "(Status: 302)",
    ];
    assert(views(v@) =~= status_marks());
    v
}

fn one_mark(mark: &'static str) -> (v: Vec<&'static str>)
    ensures
        views(v@) == seq![mark@],
{
    let v = vec![mark];
    assert(views(v@) =~= seq![mark@]);
    v
}

fn waf_reading(output: &str) -> (r: String)
    ensures
        r@ == waf_meaning(output@),
{
    let ov = chars_of(output);
    if ov.len() == 0 || contains_chars(&ov, &chars_of("No WAF detected")) {
        String::from_str(
            "No WAF (Web Application Firewall) was detected. This suggests the site may not have this layer of protection.",
        )
    } else if contains_chars(&ov, &chars_of("detected")) || contains_chars(
        &ov,
        &chars_of("Detected:"),
    ) || contains_chars(&ov, &chars_of("identified")) {
        let ls = str_lines(output);
        match pick_first_line(&ls, &waf_mark_list()) {
            Some(line) => cat("A WAF was detected! ", line.as_str()),
            None => cat("A WAF was detected! ", "A WAF was detected but could not extract details."),
        }
    } else {
        cat("Ran WAF detection. Raw output:\n", output)
    }
}

fn scan_reading(output: &str) -> (r: String)
    ensures
        r@ == scan_meaning(output@),
{
    let ov = chars_of(output);
    if contains_chars(&ov, &chars_of("open")) {
        let ls = str_lines(output);
        let open = pick_lines(&ls, &one_mark("open"));
        if open.len() > 0 {
            cat("Found open ports:\n", str_join(&open, "\n").as_str())
        } else {
            String::from_str("Scan completed but couldn't extract open port details.")
        }
    } else if contains_chars(&ov, &chars_of("closed")) || contains_chars(&ov, &chars_of("filtered")) {
        String::from_str("No open ports were detected in the specified range.")
    } else {
        cat("Scan completed. Raw output:\n", output)
    }
}

fn dns_reading(output: &str) -> (r: String)
    ensures
        r@ == dns_meaning(output@),
{
    let ov = chars_of(output);
    if contains_chars(&ov, &chars_of("ANSWER SECTION")) || contains_chars(
        &ov,
        &chars_of("has address"),
    ) {
        let ls = str_lines(output);
        let kept = pick_lines(&ls, &dns_mark_list());
        cat("DNS information retrieved:\n", str_join(&kept, "\n").as_str())
    } else {
        cat("DNS lookup completed. Raw output:\n", output)
    }
}

fn directory_reading(output: &str) -> (r: String)
    ensures
        r@ == directory_meaning(output@),
{
    let ov = chars_of(output);
    if contains_chars(&ov, &chars_of("Status:")) || contains_chars(&ov, &chars_of("found"))
        || contains_chars(&ov, &chars_of("Result")) {
        let ls = str_lines(output);
        let found = str_join(&pick_lines(&ls, &status_mark_list()), "\n");
        if found.as_str().unicode_len() > 0 {
            cat("Found directories/files:\n", found.as_str())
        } else {
            String::from_str("Directory scan completed but no significant findings were detected.")
        }
    } else {
        String::from_str("Directory scan completed but no accessible resources were found.")
    }
}

fn curl_reading(lowered: &str, output: &str) -> (r: String)
    ensures
        r@ == curl_meaning(lowered@, output@),
{
    let ov = chars_of(output);
    if str_contains(lowered, "server") {
        let ls = str_lines(output);
        match pick_first_line(&ls, &one_mark("Server:")) {
            Some(line) => cat("Server information: ", line.as_str()),
            None => cat("Server information: ", "No Server header found."),
        }
    } else if contains_chars(&ov, &chars_of("<html")) || contains_chars(&ov, &chars_of("<!DOCTYPE")) {
        String::from_str("Retrieved HTML content from the target site.")
    } else if contains_chars(&ov, &chars_of("{")) && contains_chars(&ov, &chars_of("}")) {
        String::from_str("Retrieved JSON data from the target site.")
    } else {
        cat("CURL command completed. Output:\n", output)
    }
}

/// Says what the output of a command in lower case means.
pub fn read_output(lowered: &str, output: &str) -> (r: String)
    ensures
        r@ == meaning_for(lowered@, output@),
{
    let lv = chars_of(lowered);
    if contains_chars(&lv, &chars_of("waf")) || contains_chars(&lv, &chars_of("wafw00f")) {
        waf_reading(output)
    } else if contains_chars(&lv, &chars_of("nmap")) {
        scan_reading(output)
    } else if contains_chars(&lv, &chars_of("dig")) || contains_chars(&lv, &chars_of("host"))
        || contains_chars(&lv, &chars_of("nslookup")) {
        dns_reading(output)
    } else if contains_chars(&lv, &chars_of("gobuster")) || contains_chars(&lv, &chars_of("dirb"))
        || contains_chars(&lv, &chars_of("dirsearch")) {
        directory_reading(output)
    } else if contains_chars(&lv, &chars_of("curl")) {
        curl_reading(lowered, output)
    } else {
        cat("Command completed. Output:\n", output)
    }
}

/// Says what the output of a command means.
pub fn analyze_command_output(command: &str, output: &str) -> (r: String)
    ensures
        r@ == meaning_of(command@, output@),
{
    read_output(to_lowercase(command).as_str(), output)
}

/// The marks of a domain that calls for a gentle hand.
pub open spec fn prestigious_marks() -> Seq<Seq<char>> {
    seq![
        "edu"@,
        "gov"@,
        "mil"@,
        "harvard"@,
        "stanford"@,
        "mit"@,
        "yale"@,
        "princeton"@,
        "columbia"@,
        "cornell"@,
        "dartmouth"@,
        "brown"@,
        "upenn"@,
        "berkeley"@,
        "ucla"@,
        "usc"@,
        "duke"@,
        "jhu"@,
        "nih"@,
        "nasa"@,
        "noaa"@,
        "usgs"@,
    ]
}

/// The option of a tool that sets its number of threads.
pub const THREADS_OPTION: &'static str = r" -t (\d+)";

/// The scan `command` of `nmap` made gentle: aggressive timing becomes
/// polite timing, a scan without timing gets polite timing, and the
/// aggressive scan becomes a version scan.
pub open spec fn gentle_scan(command: Seq<char>) -> Seq<char> {
    let timed = if contains(command, " -T4"@) || contains(command, " -T5"@) {
        replace_all(replace_all(command, " -T4"@, " -T2"@), " -T5"@, " -T2"@)
    } else {
        command
    };
    let polite = if !contains(timed, " -T"@) {
        timed + " -T2"@
    } else {
        timed
    };
    if contains(polite, " -A"@) {
        replace_all(polite, " -A"@, " -sV"@)
    } else {
        polite
    }
}

/// Whether the match `found` of the option of threads asks for more than ten.
pub open spec fn asks_many_threads(found: Option<Seq<Option<Seq<char>>>>) -> bool {
    match found {
        Some(groups) => groups.len() > 1 && groups[1] is Some && (match parsed_i32(
            groups[1].unwrap(),
        ) {
            Some(n) => n > 10,
            None => false,
        }),
        None => false,
    }
}

/// The command `command` with at most ten threads: more than ten become
/// ten, and a command that sets none gets ten.
pub open spec fn few_threads(command: Seq<char>) -> Seq<char> {
    let capped = if asks_many_threads(first_match(THREADS_OPTION@, command)) {
        replaced_first(THREADS_OPTION@, command, " -t 10"@)
    } else {
        command
    };
    if !contains(capped, " -t "@) {
        capped + " -t 10"@
    } else {
        capped
    }
}

/// The command `command` made safe for its target: a command that names a
/// prestigious domain scans gently and with few threads.
pub open spec fn safe_for_target(command: Seq<char>) -> Seq<char> {
    if !contains_any(command, prestigious_marks()) {
        command
    } else {
        let scanned = if starts_with(command, "nmap"@) {
            gentle_scan(command)
        } else {
            command
        };
        if starts_with(command, "gobuster"@) || contains(command, "ffuf"@) || contains(
            command,
            "dirsearch"@,
        ) {
            few_threads(scanned)
        } else {
            scanned
        }
    }
}

fn prestigious_mark_list() -> (v: Vec<&'static str>)
    ensures
        views(v@) == prestigious_marks(),
{
    let v = vec![
        "edu",
        "gov",
        "mil",
        "harvard",
        "stanford",
        "mit",
        "yale",
        "princeton",
        "columbia",
        "cornell",
        "dartmouth",
        "brown",
        "upenn",
        "berkeley",
        "ucla",
        "usc",
        "duke",
        "jhu",
        "nih",
        "nasa",
        "noaa",
        "usgs",
    ];
    assert(views(v@) =~= prestigious_marks());
    v
}

/// Makes a scan of `nmap` gentle.
pub fn soften_scan(command: &str) -> (r: String)
    ensures
        r@ == gentle_scan(command@),
{
    let cv = chars_of(command);
    let timed = if contains_chars(&cv, &chars_of(" -T4")) || contains_chars(&cv, &chars_of(" -T5")) {
        let first = str_replace(command, " -T4", " -T2");
        str_replace(first.as_str(), " -T5", " -T2")
    } else {
        String::from_str(command)
    };
    let polite = if !str_contains(timed.as_str(), " -T") {
        cat(timed.as_str(), " -T2")
    } else {
        timed
    };
    if str_contains(polite.as_str(), " -A") {
        str_replace(polite.as_str(), " -A", " -sV")
    } else {
        polite
    }
}

/// Whether the match of the option of threads asks for more than ten.
pub fn many_threads(found: &Option<Groups>) -> (r: bool)
    ensures
        r == asks_many_threads(option_view(*found)),
{
    match found {
        Some(groups) => {
            if groups.len() > 1 {
                match groups.get(1) {
                    Some(text) => match parse_i32(text.as_str()) {
                        Some(n) => n > 10,
                        None => false,
                    },
                    None => false,
                }
            } else {
                false
            }
        },
        None => false,
    }
}

/// Gives a command at most ten threads.
pub fn cap_threads(command: &str) -> (r: String)
    ensures
        r@ == few_threads(command@),
{
    let found = captures(THREADS_OPTION, command);
    let capped = if many_threads(&found) {
        replace_first(THREADS_OPTION, command, " -t 10")
    } else {
        String::from_str(command)
    };
    if !str_contains(capped.as_str(), " -t ") {
        cat(capped.as_str(), " -t 10")
    } else {
        capped
    }
}

/// Makes one command safe for its target.
pub fn make_safe(command: &str) -> (r: String)
    ensures
        r@ == safe_for_target(command@),
{
    let cv = chars_of(command);
    if !has_any(&cv, &prestigious_mark_list()) {
        return String::from_str(command);
    }
    let scanned = if matches_at(&cv, &chars_of("nmap"), 0) {
        soften_scan(command)
    } else {
        String::from_str(command)
    };
    if matches_at(&cv, &chars_of("gobuster"), 0) || contains_chars(&cv, &chars_of("ffuf"))
        || contains_chars(&cv, &chars_of("dirsearch")) {
        cap_threads(scanned.as_str())
    } else {
        scanned
    }
}

/// Makes each command safe for its target.
pub fn apply_target_based_safety(commands: &Vec<String>) -> (r: Vec<String>)
    ensures
        views(r@) == Seq::new(commands@.len(), |i: int| safe_for_target(commands@[i]@)),
{
    let mut out: Vec<String> = Vec::new();
    let mut i: usize = 0;
    while i < commands.len()
        invariant
            i <= commands.len(),
            out@.len() == i,
            forall|k: int| 0 <= k < i ==> (#[trigger] out@[k])@ == safe_for_target(commands@[k]@),
        decreases commands.len() - i,
    {
        out.push(make_safe(commands[i].as_str()));
        i += 1;
    }
    assert(views(out@) =~= Seq::new(commands@.len(), |i: int| safe_for_target(commands@[i]@)));
    out
}

/// The characters that are stripped from both ends of a command.
pub open spec fn clutter() -> Seq<char> {
    seq!['`', '.', ',', ')']
}

fn clutter_list() -> (v: Vec<char>)
    ensures
        v@ == clutter(),
{
    let v = vec!['`', '.', ',', ')'];
    assert(v@ =~= clutter());
    v
}

/// The command in one line of a block of shell code: the line, trimmed and
/// without clutter at its ends, unless it is empty, a comment, prose, or a
/// network scan that names no target.
pub open spec fn command_in_line(line: Seq<char>) -> Option<Seq<char>> {
    let trimmed = trim(line);
    let clean = stripped(trimmed, clutter());
    if trimmed.len() == 0 || starts_with(trimmed, "#"@) {
        None
    } else if contains_any(lowercase(trimmed), explanatory_markers()) {
        None
    } else if clean.len() == 0 {
        None
    } else if invokes(clean, "nmap"@) && !contains_any(clean, target_hints()) {
        None
    } else {
        Some(clean)
    }
}

/// The commands in the first `upto` lines of a block of shell code.
pub open spec fn commands_in_lines(ls: Seq<Seq<char>>, upto: int) -> Seq<Seq<char>>
    decreases upto,
{
    if upto <= 0 {
        Seq::empty()
    } else {
        match command_in_line(ls[upto - 1]) {
            Some(c) => commands_in_lines(ls, upto - 1).push(c),
            None => commands_in_lines(ls, upto - 1),
        }
    }
}

/// Whether a block of code is shell code, by the word behind its fence.
pub open spec fn is_shell(kind: Seq<char>) -> bool {
    kind == "bash"@ || kind == "sh"@ || kind == "shell"@
}

/// The commands in a block of code of the kind `kind` with the text `block`.
pub open spec fn block_commands(kind: Seq<char>, block: Seq<char>) -> Seq<Seq<char>> {
    if trim(block).len() > 0 && is_shell(kind) {
        commands_in_lines(lines(block), lines(block).len() as int)
    } else {
        Seq::empty()
    }
}

/// Where the reading of a reply stands: the commands found, whether a
/// block of code is open, its kind, and its text so far.
pub struct Reading {
    pub commands: Seq<Seq<char>>,
    pub in_block: bool,
    pub kind: Seq<char>,
    pub block: Seq<char>,
}

/// The reading after one more line. A fence opens a block or closes the
/// open one; the commands of a closed block of shell code are kept; the
/// lines of an open block of shell code are gathered.
pub open spec fn read_line(state: Reading, line: Seq<char>) -> Reading {
    if starts_with(trim(line), "```"@) {
        if state.in_block {
            Reading {
                commands: state.commands + block_commands(state.kind, state.block),
                in_block: false,
                kind: state.kind,
                block: Seq::empty(),
            }
        } else {
            Reading {
                commands: state.commands,
                in_block: true,
                kind: trim(without_prefixes(trim(line), "```"@)),
                block: Seq::empty(),
            }
        }
    } else if state.in_block && is_shell(state.kind) {
        Reading { block: state.block + line + "\n"@, ..state }
    } else {
        state
    }
}

/// The reading after the first `upto` lines.
pub open spec fn read_lines(ls: Seq<Seq<char>>, upto: int) -> Reading
    decreases upto,
{
    if upto <= 0 {
        Reading { commands: Seq::empty(), in_block: false, kind: Seq::empty(), block: Seq::empty() }
    } else {
        read_line(read_lines(ls, upto - 1), ls[upto - 1])
    }
}

/// The commands in the blocks of shell code of `text`.
pub open spec fn commands_in(text: Seq<char>) -> Seq<Seq<char>> {
    read_lines(lines(text), lines(text).len() as int).commands
}

fn marker_list() -> (v: Vec<&'static str>)
    ensures
        views(v@) == explanatory_markers(),
{
    let v = vec![
        "try this",
        "this will",
        "command:",
        "run this",
        "executing:",
        "scan just",
        "lay of the land",
        "scan finishes",
        "tell me what",
        "we can",
        "you can",
        "let's",
        "while that's",
        "once the",
        "get a",
        "gives us",
        "let me know",
        "execute this",
        "we'll",
        "you'll",
        "finished",
        "finishes",
        "look for",
        "find out",
    ];
    assert(views(v@) =~= explanatory_markers());
    v
}

fn target_hint_list() -> (v: Vec<&'static str>)
    ensures
        views(v@) == target_hints(),
{
    let v = vec![
        ".com",
        ".net",
        ".org",
        ".edu",
        ".gov",
        ".io",
        ".co",
        " localhost",
        " 127.0.0.1",
        " 10.",
        " 192.168.",
        " 172.",
    ];
    assert(views(v@) =~= target_hints());
    v
}

/// The command in one line of a block of shell code.
pub fn command_of_line(line: &str) -> (r: Option<String>)
    ensures
        option_view(r) == command_in_line(line@),
{
    let trimmed = str_trim(line);
    let tv = chars_of(trimmed.as_str());
    if tv.len() == 0 || matches_at(&tv, &chars_of("#"), 0) {
        return None;
    }
    let lowered = to_lowercase(trimmed.as_str());
    if has_any(&chars_of(lowered.as_str()), &marker_list()) {
        return None;
    }
    let clean = strip_chars(trimmed.as_str(), &clutter_list());
    let cv = chars_of(clean.as_str());
    if cv.len() == 0 {
        return None;
    }
    if command_invokes(&cv, "nmap") && !has_any(&cv, &target_hint_list()) {
        return None;
    }
    Some(clean)
}

/// The commands in a block of code of the kind `kind` with the text `block`.
pub fn commands_of_block(kind: &str, block: &str) -> (r: Vec<String>)
    ensures
        views(r@) == block_commands(kind@, block@),
{
    let mut out: Vec<String> = Vec::new();
    assert(views(out@) =~= Seq::<Seq<char>>::empty());
    let shell = crate::text::str_eq(kind, "bash") || crate::text::str_eq(kind, "sh")
        || crate::text::str_eq(kind, "shell");
    if str_trim(block).as_str().unicode_len() == 0 || !shell {
        return out;
    }
    let ls = str_lines(block);
    let mut i: usize = 0;
    while i < ls.len()
        invariant
            i <= ls.len(),
            views(out@) == commands_in_lines(views(ls@), i as int),
        decreases ls.len() - i,
    {
        assert(views(ls@)[i as int] == ls@[i as int]@);
        match command_of_line(ls[i].as_str()) {
            Some(c) => {
                proof {
                    lemma_views_push(out@, c);
                }
                out.push(c);
            },
            None => {},
        }
        i += 1;
    }
    out
}

/// Finds the commands in the blocks of shell code of `text`.
pub fn extract_commands(text: &str) -> (r: Vec<String>)
    ensures
        views(r@) == commands_in(text@),
{
    let ls = str_lines(text);
    let mut commands: Vec<String> = Vec::new();
    let mut in_block = false;
    let mut kind = String::new();
    let mut block = String::new();
    let mut i: usize = 0;
    assert(views(commands@) =~= Seq::<Seq<char>>::empty());
    while i < ls.len()
        invariant
            i <= ls.len(),
            read_lines(views(ls@), i as int) == (Reading {
                commands: views(commands@),
                in_block,
                kind: kind@,
                block: block@,
            }),
        decreases ls.len() - i,
    {
        assert(views(ls@)[i as int] == ls@[i as int]@);
        let line = ls[i].as_str();
        let trimmed = str_trim(line);
        if str_starts_with(trimmed.as_str(), "```") {
            if in_block {
                in_block = false;
                let mut found = commands_of_block(kind.as_str(), block.as_str());
                let ghost a = commands@;
                let ghost b = found@;
                commands.append(&mut found);
                assert(views(a + b) =~= views(a) + views(b));
                block = String::new();
            } else {
                in_block = true;
                kind = str_trim(strip_prefixes(trimmed.as_str(), "```").as_str());
                block = String::new();
            }
        } else if in_block && (crate::text::str_eq(kind.as_str(), "bash") || crate::text::str_eq(
            kind.as_str(),
            "sh",
        ) || crate::text::str_eq(kind.as_str(), "shell")) {
            block.append(line);
            block.append("\n");
        }
        i += 1;
    }
    commands
}

/// The phrases that mark a command drawn from a reply as prose.
pub open spec fn prose_markers() -> Seq<Seq<char>> {
    seq![
        "try this"@,
        "this will"@,
        "command:"@,
        "run this"@,
        "executing:"@,
        "scan just"@,
        "lay of the land"@,
        "scan finishes"@,
        "tell me what"@,
        "we can"@,
        "you can"@,
        "let's"@,
        "while that's"@,
        "once the"@,
        "get a"@,
        "gives us"@,
        "let me know"@,
        "execute this"@,
    ]
}

fn prose_marker_list() -> (v: Vec<&'static str>)
    ensures
        views(v@) == prose_markers(),
{
    let v = vec![
        "try this",
        "this will",
        "command:",
        "run this",
        "executing:",
        "scan just",
        "lay of the land",
        "scan finishes",
        "tell me what",
        "we can",
        "you can",
        "let's",
        "while that's",
        "once the",
        "get a",
        "gives us",
        "let me know",
        "execute this",
    ];
    assert(views(v@) =~= prose_markers());
    v
}

/// The words with which a reply announces a command that it runs.
pub const ACTION_MARK: &'static str = "[Hacksor] Taking action:";

/// The command that a line of a reply announces: what follows the words
/// `Taking action:`, between backticks where there are two, else without
/// clutter at its ends. `None` where the line announces nothing.
pub open spec fn announced_in(line: Seq<char>) -> Option<Seq<char>> {
    let trimmed = trim(line);
    if !starts_with(trimmed, ACTION_MARK@) {
        None
    } else {
        match second_part(trimmed, "Taking action:"@) {
            Some(rest) => {
                let action = trim(rest);
                let clean = if contains(action, "`"@) && count_of(action, '`') >= 2 {
                    match second_part(action, "`"@) {
                        Some(inner) => trim(inner),
                        None => stripped(action, clutter()),
                    }
                } else {
                    stripped(action, clutter())
                };
                if clean.len() > 0 {
                    Some(clean)
                } else {
                    None
                }
            },
            None => None,
        }
    }
}

/// The commands `commands` with those that the first `upto` lines
/// announce, each once.
pub open spec fn with_announced(commands: Seq<Seq<char>>, ls: Seq<Seq<char>>, upto: int) -> Seq<
    Seq<char>,
>
    decreases upto,
{
    if upto <= 0 {
        commands
    } else {
        let before = with_announced(commands, ls, upto - 1);
        match announced_in(ls[upto - 1]) {
            Some(c) => if before.contains(c) {
                before
            } else {
                before.push(c)
            },
            None => before,
        }
    }
}

/// The first `upto` commands without clutter at their ends, where they are
/// not prose, each made safe for its target.
pub open spec fn cleaned(commands: Seq<Seq<char>>, upto: int) -> Seq<Seq<char>>
    decreases upto,
{
    if upto <= 0 {
        Seq::empty()
    } else {
        let c = stripped(commands[upto - 1], clutter());
        if contains_any(lowercase(c), prose_markers()) {
            cleaned(commands, upto - 1)
        } else {
            cleaned(commands, upto - 1).push(safe_for_target(c))
        }
    }
}

/// The lines among the first `upto` that do not start with the mark of an action.
pub open spec fn shown_lines(ls: Seq<Seq<char>>, upto: int) -> Seq<Seq<char>>
    decreases upto,
{
    if upto <= 0 {
        Seq::empty()
    } else if starts_with(trim(ls[upto - 1]), "[ACTION]"@) {
        shown_lines(ls, upto - 1)
    } else {
        shown_lines(ls, upto - 1).push(ls[upto - 1])
    }
}

/// The text of a reply to show: its lines without those that start with the mark of an action.
pub open spec fn display_of(response: Seq<char>) -> Seq<char> {
    join(shown_lines(lines(response), lines(response).len() as int), "\n"@)
}

/// The commands that a reply asks to run: those of its blocks of shell
/// code, then those that it announces, cleaned and made safe.
pub open spec fn commands_of(response: Seq<char>) -> Seq<Seq<char>> {
    let all = with_announced(
        commands_in(response),
        lines(response),
        lines(response).len() as int,
    );
    cleaned(all, all.len() as int)
}

/// The command that a line of a reply announces.
pub fn announced_command(line: &str) -> (r: Option<String>)
    ensures
        option_view(r) == announced_in(line@),
{
    let trimmed = str_trim(line);
    if !str_starts_with(trimmed.as_str(), ACTION_MARK) {
        return None;
    }
    match str_second_part(trimmed.as_str(), "Taking action:") {
        Some(rest) => {
            let action = str_trim(rest.as_str());
            let clean = if str_contains(action.as_str(), "`") && count_char(action.as_str(), '`')
                >= 2 {
                match str_second_part(action.as_str(), "`") {
                    Some(inner) => str_trim(inner.as_str()),
                    None => strip_chars(action.as_str(), &clutter_list()),
                }
            } else {
                strip_chars(action.as_str(), &clutter_list())
            };
            if clean.as_str().unicode_len() > 0 {
                Some(clean)
            } else {
                None
            }
        },
        None => None,
    }
}

/// Cleans the commands drawn from a reply and makes them safe.
pub fn clean_commands(commands: &Vec<String>) -> (r: Vec<String>)
    ensures
        views(r@) == cleaned(views(commands@), commands@.len() as int),
{
    let mut out: Vec<String> = Vec::new();
    let mut i: usize = 0;
    assert(views(out@) =~= Seq::<Seq<char>>::empty());
    while i < commands.len()
        invariant
            i <= commands.len(),
            views(out@) == cleaned(views(commands@), i as int),
        decreases commands.len() - i,
    {
        assert(views(commands@)[i as int] == commands@[i as int]@);
        let c = strip_chars(commands[i].as_str(), &clutter_list());
        let lowered = to_lowercase(c.as_str());
        if !has_any(&chars_of(lowered.as_str()), &prose_marker_list()) {
            let safe = make_safe(c.as_str());
            proof {
                lemma_views_push(out@, safe);
            }
            out.push(safe);
        }
        i += 1;
    }
    out
}

/// Reads a reply of the assistant: the text to show, and the commands that
/// the reply asks to run.
pub fn process_response(response: &str) -> (r: (String, Vec<String>))
    ensures
        r.0@ == display_of(response@),
        views(r.1@) == commands_of(response@),
{
    let mut commands = extract_commands(response);
    let ls = str_lines(response);
    let mut shown: Vec<String> = Vec::new();
    let ghost first = views(commands@);
    let mut i: usize = 0;
    assert(views(shown@) =~= Seq::<Seq<char>>::empty());
    while i < ls.len()
        invariant
            i <= ls.len(),
            views(commands@) == with_announced(first, views(ls@), i as int),
            views(shown@) == shown_lines(views(ls@), i as int),
        decreases ls.len() - i,
    {
        assert(views(ls@)[i as int] == ls@[i as int]@);
        match announced_command(ls[i].as_str()) {
            Some(c) => {
                if !list_has(&commands, c.as_str()) {
                    proof {
                        lemma_views_push(commands@, c);
                    }
                    commands.push(c);
                }
            },
            None => {},
        }
        if !str_starts_with(str_trim(ls[i].as_str()).as_str(), "[ACTION]") {
            let kept = ls[i].clone();
            proof {
                lemma_views_push(shown@, kept);
            }
            shown.push(kept);
        }
        i += 1;
    }
    let display = str_join(&shown, "\n");
    (display, clean_commands(&commands))
}

} // verus!
