//! The catalogue of security commands: named templates of command lines, and
//! the choice of a template from what a user asks for.

use crate::pattern::captures;
use crate::pattern::first_match;
use crate::pattern::Groups;
use crate::seqs::lemma_views_push;
use crate::seqs::option_view;
use crate::seqs::views;
use crate::text::cat;
use crate::text::chars_of;
use crate::text::contains;
use crate::text::contains_chars;
use crate::text::lowercase;
use crate::text::replace_all;
use crate::text::str_eq;
use crate::text::str_replace;
use crate::text::to_lowercase;
use vstd::prelude::*;

verus! {

/// The phase of an assessment that a security command belongs to.
#[derive(Clone, Copy, Debug, PartialEq, Eq, Structural)]
pub enum CommandType {
    Reconnaissance,
    Scanning,
    Vulnerability,
    Exploitation,
    PostExploitation,
    Generic,
}

/// A named template of a command line. Placeholders in braces stand for the
/// parameters that a caller fills in.
#[derive(Debug)]
pub struct SecurityCommand {
    pub name: String,
    pub description: String,
    pub command_type: CommandType,
    pub template: String,
    pub default_args: Vec<String>,
    pub requires_sudo: bool,
}

/// The view of a `SecurityCommand`.
pub struct SecurityCommandView {
    pub name: Seq<char>,
    pub description: Seq<char>,
    pub command_type: CommandType,
    pub template: Seq<char>,
    pub default_args: Seq<Seq<char>>,
    pub requires_sudo: bool,
}

impl View for SecurityCommand {
    type V = SecurityCommandView;

    open spec fn view(&self) -> SecurityCommandView {
        SecurityCommandView {
            name: self.name@,
            description: self.description@,
            command_type: self.command_type,
            template: self.template@,
            default_args: views(self.default_args@),
            requires_sudo: self.requires_sudo,
        }
    }
}

/// A template without default arguments that needs no privileges.
pub open spec fn plain_template(
    name: Seq<char>,
    description: Seq<char>,
    command_type: CommandType,
    template: Seq<char>,
) -> SecurityCommandView {
    SecurityCommandView {
        name,
        description,
        command_type,
        template,
        default_args: Seq::empty(),
        requires_sudo: false,
    }
}

/// The templates that every catalogue starts with.
pub open spec fn default_commands() -> Seq<SecurityCommandView> {
    seq![
        plain_template(
            "nmap_basic"@,
            "Basic Nmap scan"@,
            CommandType::Reconnaissance,
            "nmap {target}"@,
        ),
        plain_template(
            "nmap_service"@,
            "Nmap service and version detection"@,
            CommandType::Reconnaissance,
            "nmap -sV {target}"@,
        ),
        plain_template(
            "nmap_all_ports"@,
            "Nmap scan of all ports"@,
            CommandType::Reconnaissance,
            "nmap -p- {target}"@,
        ),
        plain_template(
            "sublist3r"@,
            "Subdomain enumeration with Sublist3r"@,
            CommandType::Reconnaissance,
            "sublist3r -d {target}"@,
        ),
        plain_template(
            "nikto"@,
            "Web server scanner"@,
            CommandType::Vulnerability,
            "nikto -h {target}"@,
        ),
        plain_template(
            "xsser"@,
            "XSS vulnerability scanner"@,
            CommandType::Vulnerability,
            "xsser --url {target}"@,
        ),
        plain_template(
            "dalfox"@,
            "Parameter analyzer and XSS scanner"@,
            CommandType::Vulnerability,
            "dalfox url {target}"@,
        ),
        plain_template(
            "dirsearch"@,
            "Web path discovery"@,
            CommandType::Reconnaissance,
            "dirsearch -u {target}"@,
        ),
        plain_template(
            "generic"@,
            "Generic command execution"@,
            CommandType::Generic,
            "{command}"@,
        ),
    ]
}

/// The least index at or after `from` of the template named `name`.
pub open spec fn template_from(cs: Seq<SecurityCommandView>, name: Seq<char>, from: int) -> Option<
    int,
>
    decreases cs.len() - from,
{
    if from < 0 || from >= cs.len() {
        None
    } else if cs[from].name == name {
        Some(from)
    } else {
        template_from(cs, name, from + 1)
    }
}

/// The template named `name`.
pub open spec fn template_named(cs: Seq<SecurityCommandView>, name: Seq<char>) -> Option<
    SecurityCommandView,
> {
    match template_from(cs, name, 0) {
        Some(i) => Some(cs[i]),
        None => None,
    }
}

/// No name occurs twice among the templates.
pub open spec fn catalogue_wf(cs: Seq<SecurityCommandView>) -> bool {
    forall|i: int, j: int|
        0 <= i < j < cs.len() ==> (#[trigger] cs[i]).name != (#[trigger] cs[j]).name
}

/// The catalogue after `c` has been registered: in the place of the
/// template with its name, or at the end where there is none.
pub open spec fn registered(cs: Seq<SecurityCommandView>, c: SecurityCommandView) -> Seq<
    SecurityCommandView,
> {
    match template_from(cs, c.name, 0) {
        Some(i) => cs.update(i, c),
        None => cs.push(c),
    }
}

/// A template found at or after `from` is in range and has the name;
/// where none is found, none has the name, and the other way round.
pub proof fn lemma_template_from(cs: Seq<SecurityCommandView>, name: Seq<char>, from: int)
    requires
        0 <= from,
    ensures
        match template_from(cs, name, from) {
            Some(i) => from <= i < cs.len() && cs[i].name == name,
            None => forall|j: int| from <= j < cs.len() ==> (#[trigger] cs[j]).name != name,
        },
        (forall|j: int| from <= j < cs.len() ==> (#[trigger] cs[j]).name != name)
            ==> template_from(cs, name, from) is None,
    decreases cs.len() - from,
{
    if from < cs.len() {
        lemma_template_from(cs, name, from + 1);
    }
}

/// Registering the default templates one after the other gives the
/// default catalogue, template by template.
pub proof fn lemma_register_next_default(k: int)
    requires
        0 <= k < default_commands().len(),
    ensures
        registered(default_commands().take(k), default_commands()[k]) == default_commands().take(
            k + 1,
        ),
{
    let d = default_commands();
    lemma_default_names_differ();
    assert forall|j: int| 0 <= j < d.take(k).len() implies (#[trigger] d.take(k)[j]).name
        != d[k].name by {
        assert(d[j].name != d[k].name);
    }
    lemma_template_from(d.take(k), d[k].name, 0);
    assert(d.take(k).push(d[k]) =~= d.take(k + 1));
}

/// The names of the default templates differ from one another.
pub proof fn lemma_default_names_differ()
    ensures
        catalogue_wf(default_commands()),
{
    reveal_strlit("nmap_basic");
    reveal_strlit("nmap_service");
    reveal_strlit("nmap_all_ports");
    reveal_strlit("sublist3r");
    reveal_strlit("nikto");
    reveal_strlit("xsser");
    reveal_strlit("dalfox");
    reveal_strlit("dirsearch");
    reveal_strlit("generic");
    let cs = default_commands();
    assert("nikto"@[0] != "xsser"@[0]);
    assert("sublist3r"@[0] != "dirsearch"@[0]);
    assert(cs[0].name.len() == 10);
    assert(cs[1].name.len() == 12);
    assert(cs[2].name.len() == 14);
    assert(cs[3].name.len() == 9);
    assert(cs[4].name.len() == 5);
    assert(cs[5].name.len() == 5);
    assert(cs[6].name.len() == 6);
    assert(cs[7].name.len() == 9);
    assert(cs[8].name.len() == 7);
}

/// The index of the template named `name`.
fn template_position(templates: &Vec<SecurityCommand>, name: &str) -> (r: Option<usize>)
    ensures
        match r {
            Some(i) => i < templates@.len() && template_from(views(templates@), name@, 0) == Some(
                i as int,
            ),
            None => template_from(views(templates@), name@, 0) is None,
        },
{
    let mut i: usize = 0;
    while i < templates.len()
        invariant
            i <= templates.len(),
            template_from(views(templates@), name@, 0) == template_from(
                views(templates@),
                name@,
                i as int,
            ),
        decreases templates.len() - i,
    {
        if str_eq(templates[i].name.as_str(), name) {
            return Some(i);
        }
        i += 1;
    }
    None
}

fn plain(name: &str, description: &str, command_type: CommandType, template: &str) -> (r: SecurityCommand)
    ensures
        r@ == plain_template(name@, description@, command_type, template@),
{
    let r = SecurityCommand {
        name: String::from_str(name),
        description: String::from_str(description),
        command_type,
        template: String::from_str(template),
        default_args: Vec::new(),
        requires_sudo: false,
    };
    assert(r@.default_args =~= Seq::<Seq<char>>::empty());
    r
}

/// A word with which a user asks for a domain: an optional scheme, an
/// optional `www.`, and the domain name in group 1.
pub const DOMAIN_IN_TEXT: &'static str =
    r"(?:https?://)?(?:www\.)?([a-zA-Z0-9][-a-zA-Z0-9]*\.[a-zA-Z0-9]+(?:\.[a-zA-Z0-9]+)*)";

/// A command between quotes.
pub const QUOTED_COMMAND: &'static str = r#"['"]([^'"]+)['"]"#;

/// A command after the word `run` or `execute`.
pub const COMMAND_AFTER_VERB: &'static str = r"(?:run|execute)\s+(.+?)(?:$|\s+(?:on|against))";

/// Group 1 of a match, where there is a match and the group is present.
pub open spec fn first_group(found: Option<Seq<Option<Seq<char>>>>) -> Option<Seq<char>> {
    match found {
        Some(groups) => if groups.len() > 1 {
            groups[1]
        } else {
            None
        },
        None => None,
    }
}

/// Group 1 of a match, where there is a match and the group is present.
pub fn first_group_of(found: &Option<Groups>) -> (r: Option<String>)
    ensures
        option_view(r) == first_group(option_view(*found)),
{
    match found {
        Some(groups) => match groups.get(1) {
            Some(text) => Some(text.clone()),
            None => None,
        },
        None => None,
    }
}

/// The domain that a message names.
pub open spec fn domain_in(message: Seq<char>) -> Option<Seq<char>> {
    first_group(first_match(DOMAIN_IN_TEXT@, message))
}

/// The command that a message asks to run: what stands between quotes, or
/// else what follows the word `run` or `execute`.
pub open spec fn command_in(message: Seq<char>) -> Option<Seq<char>> {
    if first_group(first_match(QUOTED_COMMAND@, message)) is Some {
        first_group(first_match(QUOTED_COMMAND@, message))
    } else {
        first_group(first_match(COMMAND_AFTER_VERB@, message))
    }
}

/// The domain that a message names.
pub fn extract_domain(message: &str) -> (r: Option<String>)
    ensures
        option_view(r) == domain_in(message@),
{
    first_group_of(&captures(DOMAIN_IN_TEXT, message))
}

/// The command that a message asks to run.
pub fn extract_command(message: &str) -> (r: Option<String>)
    ensures
        option_view(r) == command_in(message@),
{
    match first_group_of(&captures(QUOTED_COMMAND, message)) {
        Some(c) => Some(c),
        None => first_group_of(&captures(COMMAND_AFTER_VERB, message)),
    }
}

/// The choice of a template for the target `domain`.
pub open spec fn for_target(name: Seq<char>, domain: Option<Seq<char>>) -> Option<
    (Seq<char>, Seq<(Seq<char>, Seq<char>)>),
> {
    match domain {
        Some(d) => Some((name, seq![("target"@, d)])),
        None => None,
    }
}

/// The template and the parameters that the message `lowered`, in lower
/// case, asks for, where `domain` and `command` are the domain and the
/// command that it names.
///
/// The first of these that the message speaks of decides: a scan for
/// cross-site scripting, a port scan, an enumeration of subdomains, a
/// discovery of paths, a scan of a web site, a command to run. All but the
/// last need a domain, and give nothing without one.
pub open spec fn suggestion_for(
    lowered: Seq<char>,
    domain: Option<Seq<char>>,
    command: Option<Seq<char>>,
) -> Option<(Seq<char>, Seq<(Seq<char>, Seq<char>)>)> {
    let has = |p: Seq<char>| contains(lowered, p);
    if (has("xss"@) || has("cross site scripting"@)) && (has("scan"@) || has("check"@) || has(
        "test"@,
    )) {
        for_target(
            if has("dalfox"@) {
                "dalfox"@
            } else {
                "xsser"@
            },
            domain,
        )
    } else if has("port"@) && (has("scan"@) || has("check"@) || has("enumerate"@)) {
        for_target(
            if has("all ports"@) || has("full"@) {
                "nmap_all_ports"@
            } else if has("service"@) || has("version"@) {
                "nmap_service"@
            } else {
                "nmap_basic"@
            },
            domain,
        )
    } else if (has("subdomain"@) || has("sub-domain"@)) && (has("find"@) || has("enumerate"@)
        || has("discover"@)) {
        for_target("sublist3r"@, domain)
    } else if (has("directory"@) || has("path"@) || has("endpoint"@)) && (has("scan"@) || has(
        "discover"@,
    ) || has("find"@)) {
        for_target("dirsearch"@, domain)
    } else if (has("web"@) || has("website"@) || has("http"@)) && (has("vulnerability"@) || has(
        "scan"@,
    ) || has("security"@)) {
        for_target("nikto"@, domain)
    } else if (has("run"@) || has("execute"@)) && command is Some {
        Some(("generic"@, seq![("command"@, command.unwrap())]))
    } else {
        None
    }
}

/// The template and the parameters that a message asks for.
pub open spec fn suggestion(message: Seq<char>) -> Option<
    (Seq<char>, Seq<(Seq<char>, Seq<char>)>),
> {
    let lowered = lowercase(message);
    suggestion_for(lowered, domain_in(lowered), command_in(lowered))
}

fn target_choice(name: &str, domain: Option<String>) -> (r: Option<(String, Vec<(String, String)>)>)
    ensures
        match r {
            Some((n, params)) => for_target(name@, option_view(domain)) == Some(
                (n@, views(params@)),
            ),
            None => for_target(name@, option_view(domain)) is None,
        },
{
    match domain {
        Some(d) => {
            let mut params: Vec<(String, String)> = Vec::new();
            let entry = (String::from_str("target"), d);
            params.push(entry);
            assert(views(params@) =~= seq![("target"@, d@)]);
            Some((String::from_str(name), params))
        },
        None => None,
    }
}

/// The template and the parameters that a message in lower case asks for,
/// given the domain and the command found in it.
pub fn suggest_for(lowered: &str, domain: Option<String>, command: Option<String>) -> (r: Option<
    (String, Vec<(String, String)>),
>)
    ensures
        match r {
            Some((n, params)) => suggestion_for(
                lowered@,
                option_view(domain),
                option_view(command),
            ) == Some((n@, views(params@))),
            None => suggestion_for(lowered@, option_view(domain), option_view(command)) is None,
        },
{
    let lv = chars_of(lowered);
    let has_scan = contains_chars(&lv, &chars_of("scan"));
    let has_check = contains_chars(&lv, &chars_of("check"));
    let has_find = contains_chars(&lv, &chars_of("find"));
    let has_discover = contains_chars(&lv, &chars_of("discover"));
    let has_enumerate = contains_chars(&lv, &chars_of("enumerate"));
    if (contains_chars(&lv, &chars_of("xss")) || contains_chars(
        &lv,
        &chars_of("cross site scripting"),
    )) && (has_scan || has_check || contains_chars(&lv, &chars_of("test"))) {
        let name = if contains_chars(&lv, &chars_of("dalfox")) {
            "dalfox"
        } else {
            "xsser"
        };
        return target_choice(name, domain);
    }
    if contains_chars(&lv, &chars_of("port")) && (has_scan || has_check || has_enumerate) {
        let name = if contains_chars(&lv, &chars_of("all ports")) || contains_chars(
            &lv,
            &chars_of("full"),
        ) {
            "nmap_all_ports"
        } else if contains_chars(&lv, &chars_of("service")) || contains_chars(
            &lv,
            &chars_of("version"),
        ) {
            "nmap_service"
        } else {
            "nmap_basic"
        };
        return target_choice(name, domain);
    }
    if (contains_chars(&lv, &chars_of("subdomain")) || contains_chars(&lv, &chars_of("sub-domain")))
        && (has_find || has_enumerate || has_discover) {
        return target_choice("sublist3r", domain);
    }
    if (contains_chars(&lv, &chars_of("directory")) || contains_chars(&lv, &chars_of("path"))
        || contains_chars(&lv, &chars_of("endpoint"))) && (has_scan || has_discover || has_find) {
        return target_choice("dirsearch", domain);
    }
    if (contains_chars(&lv, &chars_of("web")) || contains_chars(&lv, &chars_of("website"))
        || contains_chars(&lv, &chars_of("http"))) && (contains_chars(
        &lv,
        &chars_of("vulnerability"),
    ) || has_scan || contains_chars(&lv, &chars_of("security"))) {
        return target_choice("nikto", domain);
    }
    if contains_chars(&lv, &chars_of("run")) || contains_chars(&lv, &chars_of("execute")) {
        match command {
            Some(c) => {
                let mut params: Vec<(String, String)> = Vec::new();
                let entry = (String::from_str("command"), c);
                params.push(entry);
                assert(views(params@) =~= seq![("command"@, c@)]);
                return Some((String::from_str("generic"), params));
            },
            None => {},
        }
    }
    None
}

/// The template `template` with the first `upto` parameters filled in: each
/// placeholder, the name of a parameter in braces, is replaced by its value.
pub open spec fn filled(template: Seq<char>, params: Seq<(Seq<char>, Seq<char>)>, upto: int) -> Seq<
    char,
>
    decreases upto,
{
    if upto <= 0 {
        template
    } else {
        replace_all(
            filled(template, params, upto - 1),
            "{"@ + params[upto - 1].0 + "}"@,
            params[upto - 1].1,
        )
    }
}

/// Fills the parameters into a template, in their order.
pub fn fill_template(template: &str, params: &Vec<(String, String)>) -> (r: String)
    ensures
        r@ == filled(template@, views(params@), params@.len() as int),
{
    let mut out = String::from_str(template);
    let mut i: usize = 0;
    while i < params.len()
        invariant
            i <= params.len(),
            out@ == filled(template@, views(params@), i as int),
        decreases params.len() - i,
    {
        assert(views(params@)[i as int] == params@[i as int]@);
        let mut placeholder = String::from_str("{");
        placeholder.append(params[i].0.as_str());
        placeholder.append("}");
        out = str_replace(out.as_str(), placeholder.as_str(), params[i].1.as_str());
        i += 1;
    }
    out
}

/// The command line that opens a terminal window and runs `command` in it.
pub open spec fn terminal_line(command: Seq<char>) -> Seq<char> {
    "x-terminal-emulator -e 'bash -c \"echo [Hacksor] Executing: "@ + command + " && "@ + command
        + " || echo [ERROR] Command failed with error code $?; echo Press Enter to close...; read\"'"@
}

/// The command line that opens a terminal window and runs `command` in it.
pub fn terminal_command(command: &str) -> (r: String)
    ensures
        r@ == terminal_line(command@),
{
    let mut out = String::from_str(
        "x-terminal-emulator -e 'bash -c \"echo [Hacksor] Executing: ",
    );
    out.append(command);
    out.append(" && ");
    out.append(command);
    out.append(
        " || echo [ERROR] Command failed with error code $?; echo Press Enter to close...; read\"'",
    );
    out
}

/// The catalogue of security commands, and the last command line run from it.
pub struct SecurityCommandExecutor {
    command_templates: Vec<SecurityCommand>,
    last_output: Option<String>,
}

impl View for SecurityCommandExecutor {
    type V = Seq<SecurityCommandView>;

    closed spec fn view(&self) -> Seq<SecurityCommandView> {
        views(self.command_templates@)
    }
}

impl SecurityCommandExecutor {
    #[verifier::type_invariant]
    spec fn well_formed(self) -> bool {
        catalogue_wf(views(self.command_templates@))
    }

    /// What the last command run from the catalogue left.
    pub closed spec fn last(&self) -> Option<Seq<char>> {
        option_view(self.last_output)
    }

    /// The catalogue of the default templates, with nothing run yet.
    pub fn new() -> (r: Self)
        ensures
            r@ == default_commands(),
            r.last() is None,
    {
        let mut executor = SecurityCommandExecutor {
            command_templates: Vec::new(),
            last_output: None,
        };
        assert(executor@ =~= Seq::<SecurityCommandView>::empty());
        executor.register_default_commands();
        executor
    }

    fn register_default_commands(&mut self)
        requires
            old(self)@ == Seq::<SecurityCommandView>::empty(),
        ensures
            final(self)@ == default_commands(),
            final(self).last() == old(self).last(),
    {
        let ghost d = default_commands();
        assert(self@ =~= d.take(0));
        proof {
            lemma_register_next_default(0);
        }
        self.register_command(
            plain("nmap_basic", "Basic Nmap scan", CommandType::Reconnaissance, "nmap {target}"),
        );
        proof {
            lemma_register_next_default(1);
        }
        self.register_command(
            plain(
                "nmap_service",
                "Nmap service and version detection",
                CommandType::Reconnaissance,
                "nmap -sV {target}",
            ),
        );
        proof {
            lemma_register_next_default(2);
        }
        self.register_command(
            plain(
                "nmap_all_ports",
                "Nmap scan of all ports",
                CommandType::Reconnaissance,
                "nmap -p- {target}",
            ),
        );
        proof {
            lemma_register_next_default(3);
        }
        self.register_command(
            plain(
                "sublist3r",
                "Subdomain enumeration with Sublist3r",
                CommandType::Reconnaissance,
                "sublist3r -d {target}",
            ),
        );
        proof {
            lemma_register_next_default(4);
        }
        self.register_command(
            plain("nikto", "Web server scanner", CommandType::Vulnerability, "nikto -h {target}"),
        );
        proof {
            lemma_register_next_default(5);
        }
        self.register_command(
            plain(
                "xsser",
                "XSS vulnerability scanner",
                CommandType::Vulnerability,
                "xsser --url {target}",
            ),
        );
        proof {
            lemma_register_next_default(6);
        }
        self.register_command(
            plain(
                "dalfox",
                "Parameter analyzer and XSS scanner",
                CommandType::Vulnerability,
                "dalfox url {target}",
            ),
        );
        proof {
            lemma_register_next_default(7);
        }
        self.register_command(
            plain(
                "dirsearch",
                "Web path discovery",
                CommandType::Reconnaissance,
                "dirsearch -u {target}",
            ),
        );
        proof {
            lemma_register_next_default(8);
        }
        self.register_command(
            plain("generic", "Generic command execution", CommandType::Generic, "{command}"),
        );
        assert(d.take(9) =~= d);
    }

    /// Registers a template, in the place of an earlier one of its name
    /// where there is one.
    pub fn register_command(&mut self, command: SecurityCommand)
        ensures
            final(self)@ == registered(old(self)@, command@),
            final(self).last() == old(self).last(),
    {
        proof {
            use_type_invariant(&*self);
            lemma_template_from(self@, command@.name, 0);
        }
        let mut templates: Vec<SecurityCommand> = Vec::new();
        core::mem::swap(&mut templates, &mut self.command_templates);
        let ghost before = views(templates@);
        match template_position(&templates, command.name.as_str()) {
            Some(i) => {
                templates[i] = command;
                proof {
                    let after = views(templates@);
                    assert(after =~= before.update(i as int, command@));
                    assert forall|a: int, b: int| 0 <= a < b < after.len() implies (
                    #[trigger] after[a]).name != (#[trigger] after[b]).name by {
                        assert(before[a].name != before[b].name);
                    }
                }
            },
            None => {
                proof {
                    lemma_views_push(templates@, command);
                    lemma_template_from(before, command@.name, 0);
                    let after = before.push(command@);
                    assert forall|a: int, b: int| 0 <= a < b < after.len() implies (
                    #[trigger] after[a]).name != (#[trigger] after[b]).name by {
                        if b < after.len() - 1 {
                            assert(before[a].name != before[b].name);
                        } else {
                            assert(before[a].name != command@.name);
                        }
                    }
                }
                templates.push(command);
            },
        }
        self.command_templates = templates;
    }

    /// The template named `name`.
    pub fn get_command(&self, name: &str) -> (r: Option<&SecurityCommand>)
        ensures
            match r {
                Some(c) => template_named(self@, name@) == Some(c@),
                None => template_named(self@, name@) is None,
            },
    {
        match template_position(&self.command_templates, name) {
            Some(i) => Some(&self.command_templates[i]),
            None => None,
        }
    }

    /// What the last command run from the catalogue left.
    pub fn get_last_output(&self) -> (r: Option<&String>)
        ensures
            match r {
                Some(s) => self.last() == Some(s@),
                None => self.last() is None,
            },
    {
        self.last_output.as_ref()
    }

    /// The template and the parameters that a message asks for.
    pub fn suggest_command_from_intent(&self, user_message: &str) -> (r: Option<
        (String, Vec<(String, String)>),
    >)
        ensures
            match r {
                Some((name, params)) => suggestion(user_message@) == Some(
                    (name@, views(params@)),
                ),
                None => suggestion(user_message@) is None,
            },
    {
        let lowered = to_lowercase(user_message);
        let domain = extract_domain(lowered.as_str());
        let command = extract_command(lowered.as_str());
        suggest_for(lowered.as_str(), domain, command)
    }

    /// The command line of the template `name` with `params` filled in;
    /// `None` where there is no such template.
    pub fn command_line(&self, name: &str, params: &Vec<(String, String)>) -> (r: Option<String>)
        ensures
            option_view(r) == match template_named(self@, name@) {
                Some(c) => Some(filled(c.template, views(params@), params@.len() as int)),
                None => None,
            },
    {
        match self.get_command(name) {
            Some(c) => Some(fill_template(c.template.as_str(), params)),
            None => None,
        }
    }

    /// Takes note that the command line `command` was run, and returns what
    /// it left: the word `Executed` and the command line.
    pub fn note_executed(&mut self, command: &str) -> (r: String)
        ensures
            r@ == "Executed: "@ + command@,
            final(self).last() == Some(r@),
            final(self)@ == old(self)@,
    {
        proof {
            use_type_invariant(&*self);
        }
        let text = cat("Executed: ", command);
        self.last_output = Some(text.clone());
        text
    }
}

} // verus!
