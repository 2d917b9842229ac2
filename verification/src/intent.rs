//! What a user asks for: the intent behind a message, and the security
//! command that serves it.

use crate::commands::domain_in;
use crate::commands::extract_domain;
use crate::pattern::captures;
use crate::pattern::first_match;
use crate::seqs::option_view;
use crate::seqs::views;
use crate::text::chars_of;
use crate::text::contains;
use crate::text::contains_chars;
use crate::text::lowercase;
use crate::text::str_eq;
use crate::text::to_lowercase;
use vstd::prelude::*;

verus! {

/// The target of reconnaissance, and the techniques asked for.
#[derive(Debug, PartialEq)]
pub struct ReconTarget {
    pub domain: String,
    pub techniques: Vec<String>,
}

/// The target of a vulnerability scan, and its kind.
#[derive(Debug, PartialEq)]
pub struct ScanTarget {
    pub domain: String,
    pub scan_type: String,
}

/// The target of a test for cross-site scripting, and the tool asked for.
#[derive(Debug, PartialEq)]
pub struct XssTarget {
    pub domain: String,
    pub preferred_tool: Option<String>,
}

/// The target of a port scan, and its kind.
#[derive(Debug, PartialEq)]
pub struct PortScanTarget {
    pub domain: String,
    pub scan_type: String,
}

/// The target of an enumeration of directories.
#[derive(Debug, PartialEq)]
pub struct DirectoryTarget {
    pub domain: String,
}

/// The target of an enumeration of subdomains.
#[derive(Debug, PartialEq)]
pub struct SubdomainTarget {
    pub domain: String,
}

/// What a user asks for.
#[derive(Debug, PartialEq)]
pub enum UserIntent {
    Reconnaissance(ReconTarget),
    VulnerabilityScan(ScanTarget),
    XssTesting(XssTarget),
    PortScan(PortScanTarget),
    DirectoryEnum(DirectoryTarget),
    SubdomainEnum(SubdomainTarget),
    Information,
    Help,
    Unknown,
}

/// The view of a `UserIntent`.
pub enum IntentView {
    Reconnaissance { domain: Seq<char>, techniques: Seq<Seq<char>> },
    VulnerabilityScan { domain: Seq<char>, scan_type: Seq<char> },
    XssTesting { domain: Seq<char>, preferred_tool: Option<Seq<char>> },
    PortScan { domain: Seq<char>, scan_type: Seq<char> },
    DirectoryEnum { domain: Seq<char> },
    SubdomainEnum { domain: Seq<char> },
    Information,
    Help,
    Unknown,
}

impl View for UserIntent {
    type V = IntentView;

    open spec fn view(&self) -> IntentView {
        match self {
            UserIntent::Reconnaissance(t) => IntentView::Reconnaissance {
                domain: t.domain@,
                techniques: views(t.techniques@),
            },
            UserIntent::VulnerabilityScan(t) => IntentView::VulnerabilityScan {
                domain: t.domain@,
                scan_type: t.scan_type@,
            },
            UserIntent::XssTesting(t) => IntentView::XssTesting {
                domain: t.domain@,
                preferred_tool: option_view(t.preferred_tool),
            },
            UserIntent::PortScan(t) => IntentView::PortScan {
                domain: t.domain@,
                scan_type: t.scan_type@,
            },
            UserIntent::DirectoryEnum(t) => IntentView::DirectoryEnum { domain: t.domain@ },
            UserIntent::SubdomainEnum(t) => IntentView::SubdomainEnum { domain: t.domain@ },
            UserIntent::Information => IntentView::Information,
            UserIntent::Help => IntentView::Help,
            UserIntent::Unknown => IntentView::Unknown,
        }
    }
}

/// The patterns of a message that asks for reconnaissance.
pub open spec fn recon_patterns() -> Seq<Seq<char>> {
    seq![r"(?i)recon(?:naissance)?"@, r"(?i)gather\s+information"@, r"(?i)discover\s+information"@]
}

/// The patterns of a message that asks for a vulnerability scan.
pub open spec fn vuln_scan_patterns() -> Seq<Seq<char>> {
    seq![
        r"(?i)vuln(?:erability)?\s+scan"@,
        r"(?i)security\s+scan"@,
        r"(?i)check\s+(?:for\s+)?vuln(?:erabilit(?:y|ies))?"@,
    ]
}

/// The patterns of a message that asks for a test for cross-site scripting.
pub open spec fn xss_patterns() -> Seq<Seq<char>> {
    seq![r"(?i)xss"@, r"(?i)cross[\s-]site\s+scripting"@, r"(?i)script\s+injection"@]
}

/// The patterns of a message that asks for a port scan.
pub open spec fn port_scan_patterns() -> Seq<Seq<char>> {
    seq![
        r"(?i)port\s+scan"@,
        r"(?i)scan\s+(?:for\s+)?(?:open\s+)?ports"@,
        r"(?i)discover\s+(?:open\s+)?ports"@,
    ]
}

/// The patterns of a message that asks for an enumeration of directories.
pub open spec fn dir_enum_patterns() -> Seq<Seq<char>> {
    seq![
        r"(?i)dir(?:ectory)?\s+(?:enum(?:eration)?|scan)"@,
        r"(?i)path\s+discovery"@,
        r"(?i)find\s+(?:web\s+)?(?:directories|paths|endpoints)"@,
    ]
}

/// The patterns of a message that asks for an enumeration of subdomains.
pub open spec fn subdomain_patterns() -> Seq<Seq<char>> {
    seq![
        r"(?i)subdomain\s+(?:enum(?:eration)?|discovery)"@,
        r"(?i)find\s+subdomains"@,
        r"(?i)discover\s+subdomains"@,
    ]
}

/// Whether one of the patterns at or after `from` matches `message`.
pub open spec fn any_matches(patterns: Seq<Seq<char>>, message: Seq<char>, from: int) -> bool
    decreases patterns.len() - from,
{
    if from < 0 || from >= patterns.len() {
        false
    } else {
        first_match(patterns[from], message) is Some || any_matches(patterns, message, from + 1)
    }
}

/// The techniques of reconnaissance that a message in lower case names;
/// the basic one where it names none.
pub open spec fn techniques_in(message: Seq<char>) -> Seq<Seq<char>> {
    let named = (if contains(message, "port"@) {
        seq!["port_scan"@]
    } else {
        Seq::empty()
    }) + (if contains(message, "subdomain"@) {
        seq!["subdomain_enum"@]
    } else {
        Seq::empty()
    }) + (if contains(message, "directory"@) || contains(message, "path"@) {
        seq!["directory_enum"@]
    } else {
        Seq::empty()
    });
    if named.len() == 0 {
        seq!["basic"@]
    } else {
        named
    }
}

/// The intent of the message `m`, in lower case, about the domain `domain`.
/// The first kind of request that the message matches decides, in the
/// order: cross-site scripting, port scan, directories, subdomains,
/// vulnerability scan, reconnaissance.
pub open spec fn intent_about(m: Seq<char>, domain: Seq<char>) -> IntentView {
    if any_matches(xss_patterns(), m, 0) {
        IntentView::XssTesting {
            domain,
            preferred_tool: if contains(m, "dalfox"@) {
                Some("dalfox"@)
            } else if contains(m, "xsser"@) {
                Some("xsser"@)
            } else {
                None
            },
        }
    } else if any_matches(port_scan_patterns(), m, 0) {
        IntentView::PortScan {
            domain,
            scan_type: if contains(m, "all ports"@) || contains(m, "full"@) {
                "full"@
            } else if contains(m, "service"@) || contains(m, "version"@) {
                "service"@
            } else {
                "basic"@
            },
        }
    } else if any_matches(dir_enum_patterns(), m, 0) {
        IntentView::DirectoryEnum { domain }
    } else if any_matches(subdomain_patterns(), m, 0) {
        IntentView::SubdomainEnum { domain }
    } else if any_matches(vuln_scan_patterns(), m, 0) {
        IntentView::VulnerabilityScan {
            domain,
            scan_type: if contains(m, "web"@) || contains(m, "http"@) {
                "web"@
            } else {
                "general"@
            },
        }
    } else if any_matches(recon_patterns(), m, 0) {
        IntentView::Reconnaissance { domain, techniques: techniques_in(m) }
    } else {
        IntentView::Unknown
    }
}

/// The intent of a message: unknown where it names no domain.
pub open spec fn intent_of(message: Seq<char>) -> IntentView {
    match domain_in(lowercase(message)) {
        Some(domain) => intent_about(lowercase(message), domain),
        None => IntentView::Unknown,
    }
}

/// The choice of a template for a target.
pub open spec fn choice(name: Seq<char>, domain: Seq<char>) -> Option<
    (Seq<char>, Seq<(Seq<char>, Seq<char>)>),
> {
    Some((name, seq![("target"@, domain)]))
}

/// The template and the parameters that serve an intent.
pub open spec fn command_for(intent: IntentView) -> Option<(Seq<char>, Seq<(Seq<char>, Seq<char>)>)> {
    match intent {
        IntentView::XssTesting { domain, preferred_tool } => choice(
            if preferred_tool == Some("dalfox"@) {
                "dalfox"@
            } else {
                "xsser"@
            },
            domain,
        ),
        IntentView::PortScan { domain, scan_type } => choice(
            if scan_type == "full"@ {
                "nmap_all_ports"@
            } else if scan_type == "service"@ {
                "nmap_service"@
            } else {
                "nmap_basic"@
            },
            domain,
        ),
        IntentView::DirectoryEnum { domain } => choice("dirsearch"@, domain),
        IntentView::SubdomainEnum { domain } => choice("sublist3r"@, domain),
        IntentView::VulnerabilityScan { domain, scan_type } => choice("nikto"@, domain),
        IntentView::Reconnaissance { domain, techniques } => choice("nmap_basic"@, domain),
        _ => None,
    }
}

fn list3(a: &'static str, b: &'static str, c: &'static str) -> (v: Vec<&'static str>)
    ensures
        views(v@) == seq![a@, b@, c@],
{
    let v = vec![a, b, c];
    assert(views(v@) =~= seq![a@, b@, c@]);
    v
}

/// Whether one of `patterns` matches `message`.
pub fn matches_any(patterns: &Vec<&'static str>, message: &str) -> (r: bool)
    ensures
        r == any_matches(views(patterns@), message@, 0),
{
    let mut i: usize = 0;
    while i < patterns.len()
        invariant
            i <= patterns.len(),
            any_matches(views(patterns@), message@, 0) == any_matches(
                views(patterns@),
                message@,
                i as int,
            ),
        decreases patterns.len() - i,
    {
        assert(views(patterns@)[i as int] == patterns@[i as int]@);
        if captures(patterns[i], message).is_some() {
            return true;
        }
        i += 1;
    }
    false
}

fn techniques_of(mv: &Vec<char>) -> (r: Vec<String>)
    ensures
        views(r@) == techniques_in(mv@),
{
    let mut out: Vec<String> = Vec::new();
    let ghost mut named: Seq<Seq<char>> = Seq::empty();
    assert(views(out@) =~= named);
    if contains_chars(mv, &chars_of("port")) {
        let t = String::from_str("port_scan");
        proof {
            crate::seqs::lemma_views_push(out@, t);
            named = named.push(t@);
        }
        out.push(t);
    }
    if contains_chars(mv, &chars_of("subdomain")) {
        let t = String::from_str("subdomain_enum");
        proof {
            crate::seqs::lemma_views_push(out@, t);
            named = named.push(t@);
        }
        out.push(t);
    }
    if contains_chars(mv, &chars_of("directory")) || contains_chars(mv, &chars_of("path")) {
        let t = String::from_str("directory_enum");
        proof {
            crate::seqs::lemma_views_push(out@, t);
            named = named.push(t@);
        }
        out.push(t);
    }
    proof {
        let a = if contains(mv@, "port"@) {
            seq!["port_scan"@]
        } else {
            Seq::empty()
        };
        let b = if contains(mv@, "subdomain"@) {
            seq!["subdomain_enum"@]
        } else {
            Seq::empty()
        };
        let c = if contains(mv@, "directory"@) || contains(mv@, "path"@) {
            seq!["directory_enum"@]
        } else {
            Seq::empty()
        };
        assert(named =~= a + b + c);
    }
    if out.len() == 0 {
        let t = String::from_str("basic");
        out.push(t);
        assert(views(out@) =~= seq!["basic"@]);
    }
    out
}

/// The intent of the message `lowered`, in lower case, about the domain `domain`.
pub fn intent_for(lowered: &str, domain: String) -> (r: UserIntent)
    ensures
        r@ == intent_about(lowered@, domain@),
{
    let mv = chars_of(lowered);
    if matches_any(
        &list3(r"(?i)xss", r"(?i)cross[\s-]site\s+scripting", r"(?i)script\s+injection"),
        lowered,
    ) {
        let preferred_tool = if contains_chars(&mv, &chars_of("dalfox")) {
            Some(String::from_str("dalfox"))
        } else if contains_chars(&mv, &chars_of("xsser")) {
            Some(String::from_str("xsser"))
        } else {
            None
        };
        return UserIntent::XssTesting(XssTarget { domain, preferred_tool });
    }
    if matches_any(
        &list3(
            r"(?i)port\s+scan",
            r"(?i)scan\s+(?:for\s+)?(?:open\s+)?ports",
            r"(?i)discover\s+(?:open\s+)?ports",
        ),
        lowered,
    ) {
        let scan_type = if contains_chars(&mv, &chars_of("all ports")) || contains_chars(
            &mv,
            &chars_of("full"),
        ) {
            String::from_str("full")
        } else if contains_chars(&mv, &chars_of("service")) || contains_chars(
            &mv,
            &chars_of("version"),
        ) {
            String::from_str("service")
        } else {
            String::from_str("basic")
        };
        return UserIntent::PortScan(PortScanTarget { domain, scan_type });
    }
    if matches_any(
        &list3(
            r"(?i)dir(?:ectory)?\s+(?:enum(?:eration)?|scan)",
            r"(?i)path\s+discovery",
            r"(?i)find\s+(?:web\s+)?(?:directories|paths|endpoints)",
        ),
        lowered,
    ) {
        return UserIntent::DirectoryEnum(DirectoryTarget { domain });
    }
    if matches_any(
        &list3(
            r"(?i)subdomain\s+(?:enum(?:eration)?|discovery)",
            r"(?i)find\s+subdomains",
            r"(?i)discover\s+subdomains",
        ),
        lowered,
    ) {
        return UserIntent::SubdomainEnum(SubdomainTarget { domain });
    }
    if matches_any(
        &list3(
            r"(?i)vuln(?:erability)?\s+scan",
            r"(?i)security\s+scan",
            r"(?i)check\s+(?:for\s+)?vuln(?:erabilit(?:y|ies))?",
        ),
        lowered,
    ) {
        let scan_type = if contains_chars(&mv, &chars_of("web")) || contains_chars(
            &mv,
            &chars_of("http"),
        ) {
            String::from_str("web")
        } else {
            String::from_str("general")
        };
        return UserIntent::VulnerabilityScan(ScanTarget { domain, scan_type });
    }
    if matches_any(
        &list3(r"(?i)recon(?:naissance)?", r"(?i)gather\s+information", r"(?i)discover\s+information"),
        lowered,
    ) {
        return UserIntent::Reconnaissance(ReconTarget { domain, techniques: techniques_of(&mv) });
    }
    UserIntent::Unknown
}

fn target_choice(name: &str, domain: &String) -> (r: Option<(String, Vec<(String, String)>)>)
    ensures
        match r {
            Some((n, params)) => choice(name@, domain@) == Some((n@, views(params@))),
            None => false,
        },
{
    let mut params: Vec<(String, String)> = Vec::new();
    let entry = (String::from_str("target"), domain.clone());
    params.push(entry);
    assert(views(params@) =~= seq![("target"@, domain@)]);
    Some((String::from_str(name), params))
}

/// The detector of intents.
#[derive(Clone, Copy, Debug)]
pub struct IntentDetector {}

impl IntentDetector {
    pub fn new() -> Self {
        IntentDetector {  }
    }

    /// Reads the intent of a message.
    pub fn detect_intent(&self, message: &str) -> (r: UserIntent)
        ensures
            r@ == intent_of(message@),
    {
        let lowered = to_lowercase(message);
        match extract_domain(lowered.as_str()) {
            Some(domain) => intent_for(lowered.as_str(), domain),
            None => UserIntent::Unknown,
        }
    }

    /// The template and the parameters that serve an intent.
    pub fn map_intent_to_command(&self, intent: &UserIntent) -> (r: Option<
        (String, Vec<(String, String)>),
    >)
        ensures
            match r {
                Some((n, params)) => command_for(intent@) == Some((n@, views(params@))),
                None => command_for(intent@) is None,
            },
    {
        match intent {
            UserIntent::XssTesting(target) => {
                let dalfox = match &target.preferred_tool {
                    Some(tool) => str_eq(tool.as_str(), "dalfox"),
                    None => false,
                };
                target_choice(
                    if dalfox {
                        "dalfox"
                    } else {
                        "xsser"
                    },
                    &target.domain,
                )
            },
            UserIntent::PortScan(target) => {
                let name = if str_eq(target.scan_type.as_str(), "full") {
                    "nmap_all_ports"
                } else if str_eq(target.scan_type.as_str(), "service") {
                    "nmap_service"
                } else {
                    "nmap_basic"
                };
                target_choice(name, &target.domain)
            },
            UserIntent::DirectoryEnum(target) => target_choice("dirsearch", &target.domain),
            UserIntent::SubdomainEnum(target) => target_choice("sublist3r", &target.domain),
            UserIntent::VulnerabilityScan(target) => target_choice("nikto", &target.domain),
            UserIntent::Reconnaissance(target) => target_choice("nmap_basic", &target.domain),
            _ => None,
        }
    }
}

} // verus!
