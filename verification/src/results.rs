//! What earlier commands gave: the commands that ended last, the lines of
//! their logs that say something, and the account of both.

use crate::clock::Timestamp;
use crate::monitor::model::CommandView;
use crate::monitor::model::MonitoredCommand;
use crate::seqs::lemma_views_push;
use crate::seqs::option_view;
use crate::seqs::views;
use crate::text::cat;
use crate::text::chars_of;
use crate::text::contains;
use crate::text::contains_chars;
use crate::text::join;
use crate::text::lines;
use crate::text::matches_at;
use crate::text::starts_with;
use crate::text::str_join;
use crate::text::str_lines;
use crate::text::str_trim;
use crate::text::string_of_range;
use crate::text::trim;
use vstd::prelude::*;

verus! {

/// The time by which an ended command is ranked: its end, or its start
/// where it has no end.
pub open spec fn rank_time(c: CommandView) -> Timestamp {
    match c.end_time {
        Some(t) => t,
        None => c.start_time,
    }
}

/// The commands among the first `upto` that do not run any more.
pub open spec fn ended_commands(cs: Seq<CommandView>, upto: int) -> Seq<CommandView>
    decreases upto,
{
    if upto <= 0 {
        Seq::empty()
    } else if cs[upto - 1].status is Running {
        ended_commands(cs, upto - 1)
    } else {
        ended_commands(cs, upto - 1).push(cs[upto - 1])
    }
}

/// The list `order`, latest first, with `c` put behind every command that
/// is not earlier than it.
pub open spec fn placed(order: Seq<CommandView>, c: CommandView) -> Seq<CommandView>
    decreases order.len(),
{
    if order.len() == 0 {
        seq![c]
    } else if rank_time(order.last()).spec_earlier_than(rank_time(c)) {
        placed(order.drop_last(), c).push(order.last())
    } else {
        order.push(c)
    }
}

/// The first `upto` commands of `cs`, latest first; commands of the same
/// time stay in their order.
pub open spec fn latest_first(cs: Seq<CommandView>, upto: int) -> Seq<CommandView>
    decreases upto,
{
    if upto <= 0 {
        Seq::empty()
    } else {
        placed(latest_first(cs, upto - 1), cs[upto - 1])
    }
}

/// The `limit` commands of `cs` that ended last, latest first.
pub open spec fn recent_results(cs: Seq<CommandView>, limit: nat) -> Seq<CommandView> {
    let ended = ended_commands(cs, cs.len() as int);
    let ranked = latest_first(ended, ended.len() as int);
    ranked.take(
        if ranked.len() < limit {
            ranked.len() as int
        } else {
            limit as int
        },
    )
}

fn rank_time_of(c: &MonitoredCommand) -> (r: Timestamp)
    ensures
        r == rank_time(c@),
{
    match c.end_time {
        Some(t) => t,
        None => c.start_time,
    }
}

/// Puts `c` into the list `order`, latest first, behind every command that
/// is not earlier than it.
fn place(order: &mut Vec<MonitoredCommand>, c: MonitoredCommand)
    ensures
        views(final(order)@) == placed(views(old(order)@), c@),
{
    let ghost s = views(order@);
    let mut j: usize = order.len();
    let mut found = false;
    assert(s.take(j as int) =~= s);
    assert(s.skip(j as int) =~= Seq::<CommandView>::empty());
    assert(placed(s, c@) + Seq::<CommandView>::empty() =~= placed(s, c@));
    while j > 0 && !found
        invariant
            j <= order.len(),
            order@ == old(order)@,
            s == views(order@),
            placed(s, c@) == placed(s.take(j as int), c@) + s.skip(j as int),
            found ==> j > 0 && !rank_time(s[j - 1]).spec_earlier_than(rank_time(c@)),
        decreases j, (if found { 0int } else { 1int }),
    {
        let ghost head = s.take(j as int);
        assert(head.last() == order@[j - 1]@);
        assert(head.drop_last() =~= s.take(j - 1));
        if rank_time_of(&order[j - 1]).earlier_than(rank_time_of(&c)) {
            assert(placed(head.drop_last(), c@).push(head.last()) + s.skip(j as int) =~= placed(
                head.drop_last(),
                c@,
            ) + s.skip(j - 1));
            j -= 1;
        } else {
            found = true;
        }
    }
    proof {
        let head = s.take(j as int);
        if j > 0 {
            assert(head.last() == s[j - 1]);
        }
        assert(placed(head, c@) =~= head.push(c@));
        assert(views(order@.insert(j as int, c)) =~= s.insert(j as int, c@));
        assert(head.push(c@) + s.skip(j as int) =~= s.insert(j as int, c@));
    }
    order.insert(j, c);
}

/// The `limit` commands of `commands` that ended last, latest first.
pub fn recent_ended(commands: &Vec<MonitoredCommand>, limit: usize) -> (r: Vec<MonitoredCommand>)
    ensures
        views(r@) == recent_results(views(commands@), limit as nat),
{
    let ghost cs = views(commands@);
    let mut ended: Vec<MonitoredCommand> = Vec::new();
    let mut i: usize = 0;
    assert(views(ended@) =~= Seq::<CommandView>::empty());
    while i < commands.len()
        invariant
            i <= commands.len(),
            cs == views(commands@),
            views(ended@) == ended_commands(cs, i as int),
        decreases commands.len() - i,
    {
        assert(cs[i as int] == commands@[i as int]@);
        if commands[i].status.is_terminal() {
            let c = commands[i].clone();
            proof {
                lemma_views_push(ended@, c);
            }
            ended.push(c);
        }
        i += 1;
    }
    let mut ranked: Vec<MonitoredCommand> = Vec::new();
    let mut k: usize = 0;
    assert(views(ranked@) =~= Seq::<CommandView>::empty());
    while k < ended.len()
        invariant
            k <= ended.len(),
            views(ranked@) == latest_first(views(ended@), k as int),
        decreases ended.len() - k,
    {
        assert(views(ended@)[k as int] == ended@[k as int]@);
        place(&mut ranked, ended[k].clone());
        k += 1;
    }
    if ranked.len() > limit {
        let ghost before = views(ranked@);
        ranked.truncate(limit);
        assert(views(ranked@) =~= before.take(limit as int));
    } else {
        assert(views(ranked@).take(ranked@.len() as int) =~= views(ranked@));
    }
    ranked
}

/// The index among the first `upto` commands of the one that started
/// last; of several that started last, the last.
pub open spec fn latest_started(cs: Seq<CommandView>, upto: int) -> Option<int>
    decreases upto,
{
    if upto <= 0 {
        None
    } else {
        match latest_started(cs, upto - 1) {
            Some(i) => if cs[upto - 1].start_time.spec_earlier_than(cs[i].start_time) {
                Some(i)
            } else {
                Some(upto - 1)
            },
            None => Some(upto - 1),
        }
    }
}

/// The index of the command that started last.
pub fn latest_command(commands: &Vec<MonitoredCommand>) -> (r: Option<usize>)
    ensures
        match r {
            Some(i) => i < commands@.len() && latest_started(
                views(commands@),
                commands@.len() as int,
            ) == Some(i as int),
            None => latest_started(views(commands@), commands@.len() as int) is None,
        },
{
    let mut best: Option<usize> = None;
    let mut i: usize = 0;
    while i < commands.len()
        invariant
            i <= commands.len(),
            match best {
                Some(b) => b < i && latest_started(views(commands@), i as int) == Some(b as int),
                None => latest_started(views(commands@), i as int) is None,
            },
        decreases commands.len() - i,
    {
        assert(views(commands@)[i as int] == commands@[i as int]@);
        best = match best {
            Some(b) => {
                assert(views(commands@)[b as int] == commands@[b as int]@);
                if commands[i].start_time.earlier_than(commands[b].start_time) {
                    Some(b)
                } else {
                    Some(i)
                }
            },
            None => Some(i),
        };
        i += 1;
    }
    best
}

/// Whether a line of a log says something: it is not blank, bears no tag
/// of a stream and no prompt, and, where rules are skipped, is no rule.
pub open spec fn says_something(line: Seq<char>, skip_rules: bool) -> bool {
    &&& trim(line).len() > 0
    &&& !contains(line, "[STDOUT]"@)
    &&& !contains(line, "[STDERR]"@)
    &&& !(skip_rules && starts_with(line, "==="@))
    &&& !contains(line, "Press Enter to continue"@)
}

/// The lines among the first `upto` that say something, up to `limit` of them.
pub open spec fn telling_lines(ls: Seq<Seq<char>>, upto: int, limit: nat, skip_rules: bool) -> Seq<
    Seq<char>,
>
    decreases upto,
{
    if upto <= 0 {
        Seq::empty()
    } else {
        let before = telling_lines(ls, upto - 1, limit, skip_rules);
        if before.len() < limit && says_something(ls[upto - 1], skip_rules) {
            before.push(ls[upto - 1])
        } else {
            before
        }
    }
}

/// The first `limit` lines of a log that say something.
pub fn important_lines(log: &str, limit: usize, skip_rules: bool) -> (r: Vec<String>)
    ensures
        views(r@) == telling_lines(lines(log@), lines(log@).len() as int, limit as nat, skip_rules),
{
    let ls = str_lines(log);
    let mut out: Vec<String> = Vec::new();
    let mut i: usize = 0;
    assert(views(out@) =~= Seq::<Seq<char>>::empty());
    while i < ls.len()
        invariant
            i <= ls.len(),
            views(out@) == telling_lines(views(ls@), i as int, limit as nat, skip_rules),
        decreases ls.len() - i,
    {
        assert(views(ls@)[i as int] == ls@[i as int]@);
        if out.len() < limit {
            let lv = chars_of(ls[i].as_str());
            if str_trim(ls[i].as_str()).as_str().unicode_len() > 0 && !contains_chars(
                &lv,
                &chars_of("[STDOUT]"),
            ) && !contains_chars(&lv, &chars_of("[STDERR]")) && !(skip_rules && matches_at(
                &lv,
                &chars_of("==="),
                0,
            )) && !contains_chars(&lv, &chars_of("Press Enter to continue")) {
                let kept = ls[i].clone();
                proof {
                    lemma_views_push(out@, kept);
                }
                out.push(kept);
            }
        }
        i += 1;
    }
    out
}

/// What is known of an earlier command: its command line, and the lines
/// of its log that say something, where the log could be read.
#[derive(Debug)]
pub struct ResultEntry {
    pub command: String,
    pub lines: Option<Vec<String>>,
}

/// The view of a `ResultEntry`.
pub struct ResultEntryView {
    pub command: Seq<char>,
    pub lines: Option<Seq<Seq<char>>>,
}

impl View for ResultEntry {
    type V = ResultEntryView;

    open spec fn view(&self) -> ResultEntryView {
        ResultEntryView {
            command: self.command@,
            lines: match self.lines {
                Some(ls) => Some(views(ls@)),
                None => None,
            },
        }
    }
}

/// What the account says of one earlier command, the first or a later one.
pub open spec fn entry_account(e: ResultEntryView, first: bool) -> Seq<char> {
    let lead = if first {
        Seq::<char>::empty()
    } else {
        "Additionally, "@
    };
    match e.lines {
        Some(ls) => if ls.len() > 0 {
            lead + "I executed `"@ + e.command + "` and found: \n"@ + join(ls, "\n"@) + "\n\n"@
        } else {
            lead + "I executed `"@ + e.command + "` but no significant output was captured.\n"@
        },
        None => lead + "I executed `"@ + e.command + "` but couldn't retrieve the results.\n"@,
    }
}

/// What the account says of the first `upto` earlier commands.
pub open spec fn entries_account(es: Seq<ResultEntryView>, upto: int) -> Seq<char>
    decreases upto,
{
    if upto <= 0 {
        Seq::empty()
    } else {
        entries_account(es, upto - 1) + entry_account(es[upto - 1], upto == 1)
    }
}

/// The account of what earlier commands gave.
pub open spec fn results_account(es: Seq<ResultEntryView>) -> Seq<char> {
    "Based on the previous commands, "@ + (if es.len() == 0 {
        "I haven't completed any commands yet. Would you like me to run a specific scan or test?"@
    } else {
        entries_account(es, es.len() as int)
    })
}

fn account_of(e: &ResultEntry, first: bool) -> (r: String)
    ensures
        r@ == entry_account(e@, first),
{
    let mut out = if first {
        String::new()
    } else {
        String::from_str("Additionally, ")
    };
    out.append("I executed `");
    out.append(e.command.as_str());
    match &e.lines {
        Some(ls) => {
            if ls.len() > 0 {
                out.append("` and found: \n");
                out.append(str_join(ls, "\n").as_str());
                out.append("\n\n");
            } else {
                out.append("` but no significant output was captured.\n");
            }
        },
        None => {
            out.append("` but couldn't retrieve the results.\n");
        },
    }
    out
}

/// Gives an account of what earlier commands gave.
pub fn describe_results(entries: &Vec<ResultEntry>) -> (r: String)
    ensures
        r@ == results_account(views(entries@)),
{
    if entries.len() == 0 {
        return cat(
            "Based on the previous commands, ",
            "I haven't completed any commands yet. Would you like me to run a specific scan or test?",
        );
    }
    let mut body = String::new();
    let mut i: usize = 0;
    while i < entries.len()
        invariant
            i <= entries.len(),
            body@ == entries_account(views(entries@), i as int),
        decreases entries.len() - i,
    {
        assert(views(entries@)[i as int] == entries@[i as int]@);
        body.append(account_of(&entries[i], i == 0).as_str());
        i += 1;
    }
    cat("Based on the previous commands, ", body.as_str())
}

/// How many characters of the result of an action are shown.
pub const RESULT_SHOWN: usize = 200;

/// The result of an action as it is shown: cut after two hundred
/// characters, with a note that it was cut.
pub open spec fn shown_result(result: Seq<char>) -> Seq<char> {
    if result.len() > RESULT_SHOWN {
        result.take(RESULT_SHOWN as int) + "... (truncated)"@
    } else {
        result
    }
}

/// Cuts the result of an action to what is shown of it.
pub fn truncate_result(result: &str) -> (r: String)
    ensures
        r@ == shown_result(result@),
{
    let rv = chars_of(result);
    if rv.len() > RESULT_SHOWN {
        let mut out = string_of_range(&rv, 0, RESULT_SHOWN);
        assert(rv@.subrange(0, RESULT_SHOWN as int) =~= rv@.take(RESULT_SHOWN as int));
        out.append("... (truncated)");
        out
    } else {
        String::from_str(result)
    }
}

} // verus!
