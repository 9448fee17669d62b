//! Entity history: the arguments of the `git log` call, where an entity's
//! file is looked for, and what the call's outcome means.

use vstd::prelude::*;
use crate::text::{append_text, decimal, decimal_text, concat_texts, is_empty_text, str_contains, str_starts_with, text_contains, text_starts_with, trim_text, trimmed};

verus! {

pub struct HistoryArgs {
    /// Entity ID or short ID to show history for
    pub id: String,

    /// Limit to last N commits
    pub limit: Option<usize>,

    /// Show commits since date (YYYY-MM-DD)
    pub since: Option<String>,

    /// Show commits until date (YYYY-MM-DD)
    pub until: Option<String>,

    /// Show full commit messages (not just oneline)
    pub full: bool,

    /// Show patch/diff for each commit
    pub patch: bool,
}

/// The arguments of the `git log` call for an entity file: one line per
/// commit unless full messages are asked for, following renames, then the
/// limit, date bounds and patch flag when given, and the file after `--`.
pub open spec fn git_log_arguments(args: &HistoryArgs, file: Seq<char>) -> Seq<Seq<char>> {
    let a1 = seq!["log"@];
    let a2 = if !args.full {
        a1.push("--oneline"@)
    } else {
        a1
    };
    let a3 = a2.push("--follow"@);
    let a4 = match args.limit {
        Some(n) => a3.push("-"@ + decimal(n as nat)),
        None => a3,
    };
    let a5 = match args.since {
        Some(s) => a4.push("--since="@ + s@),
        None => a4,
    };
    let a6 = match args.until {
        Some(u) => a5.push("--until="@ + u@),
        None => a5,
    };
    let a7 = if args.patch {
        a6.push("-p"@)
    } else {
        a6
    };
    a7.push("--"@).push(file)
}

/// Builds the arguments of the `git log` call for an entity file.
pub fn git_log_args(args: &HistoryArgs, file: &str) -> (r: Vec<String>)
    ensures
        r@.map_values(|s: String| s@) == git_log_arguments(args, file@),
{
    let ghost f = |s: String| s@;
    let mut r: Vec<String> = Vec::new();
    r.push("log".to_owned());
    let ghost a1 = r@.map_values(f);
    if !args.full {
        r.push("--oneline".to_owned());
    }
    let ghost a2 = r@.map_values(f);
    assert(a2 =~= if !args.full { a1.push("--oneline"@) } else { a1 });
    r.push("--follow".to_owned());
    let ghost a3 = r@.map_values(f);
    assert(a3 =~= a2.push("--follow"@));
    if let Some(n) = args.limit {
        let d = decimal_text(n);
        r.push(concat_texts("-", d.as_str()));
    }
    let ghost a4 = r@.map_values(f);
    assert(a4 =~= match args.limit {
        Some(n) => a3.push("-"@ + decimal(n as nat)),
        None => a3,
    });
    if let Some(s) = &args.since {
        r.push(concat_texts("--since=", s.as_str()));
    }
    let ghost a5 = r@.map_values(f);
    assert(a5 =~= match args.since {
        Some(s) => a4.push("--since="@ + s@),
        None => a4,
    });
    if let Some(u) = &args.until {
        r.push(concat_texts("--until=", u.as_str()));
    }
    let ghost a6 = r@.map_values(f);
    assert(a6 =~= match args.until {
        Some(u) => a5.push("--until="@ + u@),
        None => a5,
    });
    if args.patch {
        r.push("-p".to_owned());
    }
    let ghost a7 = r@.map_values(f);
    assert(a7 =~= if args.patch { a6.push("-p"@) } else { a6 });
    r.push("--".to_owned());
    r.push(file.to_owned());
    assert(r@.map_values(f) =~= a7.push("--"@).push(file@));
    r
}

/// The identifier prefixes and the folders their entity files are kept in,
/// in the order they are tried.
pub open spec fn entity_folders() -> Seq<(Seq<char>, Seq<char>)> {
    seq![
        ("REQ-"@, "requirements"@),
        ("RISK-"@, "risks"@),
        ("TEST-"@, "verification"@),
        ("RSLT-"@, "verification"@),
        ("CMP-"@, "bom/components"@),
        ("ASM-"@, "bom/assemblies"@),
        ("SUP-"@, "procurement/suppliers"@),
        ("QUOTE-"@, "procurement/quotes"@),
        ("PROC-"@, "manufacturing/processes"@),
        ("CTRL-"@, "manufacturing/controls"@),
        ("WORK-"@, "manufacturing/work_instructions"@),
        ("NCR-"@, "manufacturing/ncrs"@),
        ("CAPA-"@, "manufacturing/capas"@),
        ("FEAT-"@, "tolerances/features"@),
        ("MATE-"@, "tolerances/mates"@),
        ("TOL-"@, "tolerances/stackups"@),
    ]
}

/// The folders searched for the file of the entity `id`: those whose prefix
/// starts the identifier, in order.
pub open spec fn history_folders(id: Seq<char>) -> Seq<Seq<char>> {
    entity_folders().filter(|e: (Seq<char>, Seq<char>)| text_starts_with(id, e.0)).map_values(|e: (Seq<char>, Seq<char>)| e.1)
}

/// The folders to search for the file of the entity `id`.
pub fn history_search_dirs(id: &str) -> (r: Vec<&'static str>)
    ensures
        r@.map_values(|s: &str| s@) == history_folders(id@),
{
    let table: Vec<(&'static str, &'static str)> = vec![
        ("REQ-", "requirements"),
        ("RISK-", "risks"),
        ("TEST-", "verification"),
        ("RSLT-", "verification"),
        ("CMP-", "bom/components"),
        ("ASM-", "bom/assemblies"),
        ("SUP-", "procurement/suppliers"),
        ("QUOTE-", "procurement/quotes"),
        ("PROC-", "manufacturing/processes"),
        ("CTRL-", "manufacturing/controls"),
        ("WORK-", "manufacturing/work_instructions"),
        ("NCR-", "manufacturing/ncrs"),
        ("CAPA-", "manufacturing/capas"),
        ("FEAT-", "tolerances/features"),
        ("MATE-", "tolerances/mates"),
        ("TOL-", "tolerances/stackups"),
    ];
    let ghost tv = table@.map_values(|e: (&str, &str)| (e.0@, e.1@));
    assert(tv =~= entity_folders());
    let ghost keep = |e: (Seq<char>, Seq<char>)| text_starts_with(id@, e.0);
    let mut r: Vec<&'static str> = Vec::new();
    let mut i: usize = 0;
    assert(tv.take(0).filter(keep) =~= Seq::<(Seq<char>, Seq<char>)>::empty());
    while i < table.len()
        invariant
            tv == table@.map_values(|e: (&str, &str)| (e.0@, e.1@)),
            keep == (|e: (Seq<char>, Seq<char>)| text_starts_with(id@, e.0)),
            i <= table.len(),
            r@.map_values(|s: &str| s@) == tv.take(i as int).filter(keep).map_values(|e: (Seq<char>, Seq<char>)| e.1),
        decreases table.len() - i,
    {
        reveal_with_fuel(Seq::filter, 1);
        assert(tv.take(i as int + 1).drop_last() =~= tv.take(i as int));
        assert(tv.take(i as int + 1).last() == tv[i as int]);
        let (prefix, dir) = table[i];
        let ghost before = r@.map_values(|s: &str| s@);
        if str_starts_with(id, prefix) {
            r.push(dir);
            assert(r@.map_values(|s: &str| s@) =~= before.push(dir@));
            assert(tv.take(i as int + 1).filter(keep) == tv.take(i as int).filter(keep).push(tv[i as int]));
            assert(tv.take(i as int + 1).filter(keep).map_values(|e: (Seq<char>, Seq<char>)| e.1) =~= tv.take(i as int).filter(keep).map_values(|e: (Seq<char>, Seq<char>)| e.1).push(dir@));
        }
        i = i + 1;
    }
    assert(tv.take(table.len() as int) =~= tv);
    r
}

/// The file text declares the entity `id` (plain or quoted).
pub open spec fn declares_id(content: Seq<char>, id: Seq<char>) -> bool {
    text_contains(content, "id: "@ + id) || text_contains(content, "id: \""@ + id + "\""@)
}

/// Whether the file text declares the entity `id`.
pub fn file_declares_id(content: &str, id: &str) -> (r: bool)
    ensures
        r == declares_id(content@, id@),
{
    let plain = concat_texts("id: ", id);
    let mut quoted = concat_texts("id: \"", id);
    append_text(&mut quoted, "\"");
    str_contains(content, plain.as_str()) || str_contains(content, quoted.as_str())
}

/// What the history command shows after the `git log` call.
#[derive(Debug)]
pub enum HistoryOutcome {
    /// The log to print.
    Log(String),
    /// The repository has no commits yet.
    NoCommits,
    /// The file is not tracked yet: the log is empty.
    NoHistory,
    /// Git failed with this message.
    GitError(String),
}

/// Interprets the `git log` call: its success and its two outputs.
pub fn history_outcome(success: bool, stdout: String, stderr: String) -> (r: HistoryOutcome)
    ensures
        !success && text_contains(stderr@, "does not have any commits yet"@) ==> r is NoCommits,
        !success && !text_contains(stderr@, "does not have any commits yet"@) ==> (r matches HistoryOutcome::GitError(m) && m@ == stderr@),
        success && trimmed(stdout@).len() == 0 ==> r is NoHistory,
        success && trimmed(stdout@).len() > 0 ==> (r matches HistoryOutcome::Log(l) && l@ == stdout@),
{
    if !success {
        if str_contains(stderr.as_str(), "does not have any commits yet") {
            return HistoryOutcome::NoCommits;
        }
        return HistoryOutcome::GitError(stderr);
    }
    let t = trim_text(stdout.as_str());
    if is_empty_text(t.as_str()) {
        HistoryOutcome::NoHistory
    } else {
        HistoryOutcome::Log(stdout)
    }
}

} // verus!
