//! The command line: its commands, and the text each command shows.
use vstd::prelude::*;

use crate::db::{Change, Monitor};
use crate::text::{decimal, decimal_spec};

verus! {

/// The command line: a command and the database path.
pub struct Cli {
    pub command: Commands,
    pub config: String,
}

/// What the command line asks for.
pub enum Commands {
    /// Add a new URL to monitor.
    Add { url: String, interval: u64, name: Option<String> },
    /// List all monitored URLs.
    List,
    /// Show the status of all monitors.
    Status,
    /// Show detected changes, of one monitor or of all.
    Changes { monitor_id: Option<String> },
    /// Remove a monitor.
    Remove { id: String },
    /// Check a URL now.
    Check { url: String },
    /// Start the API server.
    Serve { port: u16 },
}

/// How many changes the `changes` command shows at most.
pub open spec fn shown_changes() -> nat {
    20
}

/// `b` as `Display` writes it.
pub open spec fn bool_text(b: bool) -> Seq<char> {
    if b {
        "true"@
    } else {
        "false"@
    }
}

/// The first eight characters of `s` (all of it if shorter).
pub open spec fn short_id(s: Seq<char>) -> Seq<char> {
    if s.len() <= 8 {
        s
    } else {
        s.subrange(0, 8)
    }
}

/// `o`'s text, or `never` when there is none.
pub open spec fn or_never(o: Option<String>) -> Seq<char> {
    match o {
        Some(s) => s@,
        None => "never"@,
    }
}

/// The lines that show one monitor in the list.
pub open spec fn monitor_entry(m: Monitor) -> Seq<Seq<char>> {
    let head = seq!["  ["@ + short_id(m.id@) + "] "@ + m.url@];
    let name = match m.name {
        Some(n) => seq!["       Name: "@ + n@],
        None => Seq::empty(),
    };
    let tail = seq![
        "       Interval: "@ + decimal_spec(m.interval_seconds as nat) + "s | Enabled: "@
            + bool_text(m.enabled) + "\n"@,
    ];
    head + name + tail
}

/// The entries of the monitors `ms`, in order.
pub open spec fn monitor_entries(ms: Seq<Monitor>) -> Seq<Seq<char>>
    decreases ms.len(),
{
    if ms.len() == 0 {
        Seq::empty()
    } else {
        monitor_entries(ms.drop_last()) + monitor_entry(ms.last())
    }
}

/// The lines the `list` command shows for the monitors `ms`.
pub open spec fn list_spec(ms: Seq<Monitor>) -> Seq<Seq<char>> {
    if ms.len() == 0 {
        seq!["No monitors configured. Use 'driftguard add <url>' to add one."@]
    } else {
        seq!["\u{1f4cb} Monitors:\n"@] + monitor_entries(ms)
    }
}

/// The lines that show one monitor's status.
pub open spec fn status_entry(m: Monitor) -> Seq<Seq<char>> {
    seq![
        "  "@ + m.url@ + " \u{2192} "@ + or_never(m.last_status),
        "     Last check: "@ + or_never(m.last_check) + " | Next: in "@ + decimal_spec(
            m.interval_seconds as nat,
        ) + "s\n"@,
    ]
}

/// The status entries of the monitors `ms`, in order.
pub open spec fn status_entries(ms: Seq<Monitor>) -> Seq<Seq<char>>
    decreases ms.len(),
{
    if ms.len() == 0 {
        Seq::empty()
    } else {
        status_entries(ms.drop_last()) + status_entry(ms.last())
    }
}

/// The lines the `status` command shows for the monitors `ms`.
pub open spec fn status_spec(ms: Seq<Monitor>) -> Seq<Seq<char>> {
    seq!["\u{1f4ca} Monitor Status:\n"@] + status_entries(ms)
}

/// The lines that show one change.
pub open spec fn change_entry(c: Change) -> Seq<Seq<char>> {
    let head = seq!["  ["@ + c.detected_at@ + "] "@ + c.change_type@];
    match c.details {
        Some(d) => head.push("       "@ + d@),
        None => head,
    }
}

/// The entries of the changes `cs`, in order.
pub open spec fn change_entries(cs: Seq<Change>) -> Seq<Seq<char>>
    decreases cs.len(),
{
    if cs.len() == 0 {
        Seq::empty()
    } else {
        change_entries(cs.drop_last()) + change_entry(cs.last())
    }
}

/// The lines the `changes` command shows for the changes `cs`: the first
/// twenty of them.
pub open spec fn changes_spec(cs: Seq<Change>) -> Seq<Seq<char>> {
    if cs.len() == 0 {
        seq!["No changes detected yet."@]
    } else {
        seq!["\u{1f4dd} Recent Changes:\n"@] + change_entries(
            cs.take(if cs.len() < shown_changes() {
                cs.len() as int
            } else {
                shown_changes() as int
            }),
        )
    }
}

/// The characters of each line.
pub open spec fn texts(lines: Seq<String>) -> Seq<Seq<char>> {
    lines.map_values(|s: String| s@)
}

fn push_line(lines: &mut Vec<String>, line: String)
    ensures
        texts(final(lines)@) == texts(old(lines)@).push(line@),
{
    let ghost before = lines@;
    let ghost text = line@;
    lines.push(line);
    assert(texts(lines@) =~= texts(before).push(text));
}

fn add_monitor_entry(lines: &mut Vec<String>, m: &Monitor)
    ensures
        texts(final(lines)@) == texts(old(lines)@) + monitor_entry(*m),
{
    let ghost before = texts(lines@);
    let n = m.id.as_str().unicode_len();
    let cut = if n <= 8 {
        n
    } else {
        8
    };
    let short = m.id.as_str().substring_char(0, cut);
    assert(short@ =~= short_id(m.id@));
    let mut head = "  [".to_owned();
    head.append(short);
    head.append("] ");
    head.append(m.url.as_str());
    push_line(lines, head);
    match &m.name {
        Some(name) => {
            let mut line = "       Name: ".to_owned();
            line.append(name.as_str());
            push_line(lines, line);
        },
        None => {},
    }
    let mut tail = "       Interval: ".to_owned();
    let interval = decimal(m.interval_seconds);
    tail.append(interval.as_str());
    tail.append("s | Enabled: ");
    tail.append(if m.enabled { "true" } else { "false" });
    tail.append("\n");
    push_line(lines, tail);
    assert(texts(lines@) =~= before + monitor_entry(*m));
}

/// The lines the `list` command shows for `monitors`.
pub fn list_lines(monitors: &Vec<Monitor>) -> (lines: Vec<String>)
    ensures
        texts(lines@) == list_spec(monitors@),
{
    let mut lines: Vec<String> = Vec::new();
    if monitors.len() == 0 {
        push_line(&mut lines, "No monitors configured. Use 'driftguard add <url>' to add one.".to_owned());
        return lines;
    }
    push_line(&mut lines, "\u{1f4cb} Monitors:\n".to_owned());
    let n = monitors.len();
    let mut k: usize = 0;
    while k < n
        invariant
            n == monitors.len(),
            k <= n,
            texts(lines@) == seq!["\u{1f4cb} Monitors:\n"@] + monitor_entries(monitors@.subrange(0, k as int)),
        decreases n - k,
    {
        add_monitor_entry(&mut lines, &monitors[k]);
        assert(monitors@.subrange(0, k + 1).drop_last() =~= monitors@.subrange(0, k as int));
        assert(texts(lines@) =~= seq!["\u{1f4cb} Monitors:\n"@] + monitor_entries(monitors@.subrange(0, k + 1)));
        k = k + 1;
    }
    assert(monitors@.subrange(0, n as int) =~= monitors@);
    lines
}

fn add_status_entry(lines: &mut Vec<String>, m: &Monitor)
    ensures
        texts(final(lines)@) == texts(old(lines)@) + status_entry(*m),
{
    let ghost before = texts(lines@);
    let mut first = "  ".to_owned();
    first.append(m.url.as_str());
    first.append(" \u{2192} ");
    match &m.last_status {
        Some(s) => first.append(s.as_str()),
        None => first.append("never"),
    }
    push_line(lines, first);
    let mut second = "     Last check: ".to_owned();
    match &m.last_check {
        Some(s) => second.append(s.as_str()),
        None => second.append("never"),
    }
    second.append(" | Next: in ");
    let interval = decimal(m.interval_seconds);
    second.append(interval.as_str());
    second.append("s\n");
    push_line(lines, second);
    assert(texts(lines@) =~= before + status_entry(*m));
}

/// The lines the `status` command shows for `monitors`.
pub fn status_lines(monitors: &Vec<Monitor>) -> (lines: Vec<String>)
    ensures
        texts(lines@) == status_spec(monitors@),
{
    let mut lines: Vec<String> = Vec::new();
    push_line(&mut lines, "\u{1f4ca} Monitor Status:\n".to_owned());
    let n = monitors.len();
    let mut k: usize = 0;
    while k < n
        invariant
            n == monitors.len(),
            k <= n,
            texts(lines@) == seq!["\u{1f4ca} Monitor Status:\n"@] + status_entries(monitors@.subrange(0, k as int)),
        decreases n - k,
    {
        add_status_entry(&mut lines, &monitors[k]);
        assert(monitors@.subrange(0, k + 1).drop_last() =~= monitors@.subrange(0, k as int));
        assert(texts(lines@) =~= seq!["\u{1f4ca} Monitor Status:\n"@] + status_entries(monitors@.subrange(0, k + 1)));
        k = k + 1;
    }
    assert(monitors@.subrange(0, n as int) =~= monitors@);
    lines
}

fn add_change_entry(lines: &mut Vec<String>, c: &Change)
    ensures
        texts(final(lines)@) == texts(old(lines)@) + change_entry(*c),
{
    let ghost before = texts(lines@);
    let mut head = "  [".to_owned();
    head.append(c.detected_at.as_str());
    head.append("] ");
    head.append(c.change_type.as_str());
    push_line(lines, head);
    match &c.details {
        Some(d) => {
            let mut line = "       ".to_owned();
            line.append(d.as_str());
            push_line(lines, line);
        },
        None => {},
    }
    assert(texts(lines@) =~= before + change_entry(*c));
}

/// The lines the `changes` command shows for `changes`, the first twenty.
pub fn change_lines(changes: &Vec<Change>) -> (lines: Vec<String>)
    ensures
        texts(lines@) == changes_spec(changes@),
{
    let mut lines: Vec<String> = Vec::new();
    if changes.len() == 0 {
        push_line(&mut lines, "No changes detected yet.".to_owned());
        return lines;
    }
    push_line(&mut lines, "\u{1f4dd} Recent Changes:\n".to_owned());
    let n = if changes.len() < 20 {
        changes.len()
    } else {
        20
    };
    let mut k: usize = 0;
    while k < n
        invariant
            n <= changes.len(),
            n == (if changes.len() < 20 { changes.len() } else { 20 }),
            k <= n,
            texts(lines@) == seq!["\u{1f4dd} Recent Changes:\n"@] + change_entries(changes@.subrange(0, k as int)),
        decreases n - k,
    {
        add_change_entry(&mut lines, &changes[k]);
        assert(changes@.subrange(0, k + 1).drop_last() =~= changes@.subrange(0, k as int));
        assert(texts(lines@) =~= seq!["\u{1f4dd} Recent Changes:\n"@] + change_entries(changes@.subrange(0, k + 1)));
        k = k + 1;
    }
    assert(changes@.subrange(0, n as int) =~= changes@.take(n as int));
    lines
}

/// The line shown once a monitor of `url` was added under `id`.
pub fn added_line(url: &str, id: &str) -> (line: String)
    ensures
        line@ == "\u{2705} Added monitor: "@ + url@ + " (ID: "@ + id@ + ")"@,
{
    let mut line = "\u{2705} Added monitor: ".to_owned();
    line.append(url);
    line.append(" (ID: ");
    line.append(id);
    line.append(")");
    line
}

/// The line shown once the monitor `id` was removed.
pub fn removed_line(id: &str) -> (line: String)
    ensures
        line@ == "\u{2705} Removed monitor: "@ + id@,
{
    let mut line = "\u{2705} Removed monitor: ".to_owned();
    line.append(id);
    line
}

/// The line shown before `url` is fetched.
pub fn checking_line(url: &str) -> (line: String)
    ensures
        line@ == "\u{1f50d} Checking "@ + url@ + "..."@,
{
    let mut line = "\u{1f50d} Checking ".to_owned();
    line.append(url);
    line.append("...");
    line
}

/// The line that shows the size of a fetched page: its content length, or 0
/// when the response gives none.
pub fn size_line(content_length: Option<u64>) -> (line: String)
    ensures
        line@ == "   Size: "@ + decimal_spec(
            match content_length {
                Some(n) => n as nat,
                None => 0,
            },
        ) + " bytes"@,
{
    let n = match content_length {
        Some(n) => n,
        None => 0,
    };
    let mut line = "   Size: ".to_owned();
    let digits = decimal(n);
    line.append(digits.as_str());
    line.append(" bytes");
    line
}

/// The line shown when the API server starts on `port`.
pub fn serving_line(port: u16) -> (line: String)
    ensures
        line@ == "\u{1f680} Starting API server on port "@ + decimal_spec(port as nat) + "..."@,
{
    let mut line = "\u{1f680} Starting API server on port ".to_owned();
    let digits = decimal(port as u64);
    line.append(digits.as_str());
    line.append("...");
    line
}

/// The line that tells where the API answers, for the server on `port`.
pub fn api_address_line(port: u16) -> (line: String)
    ensures
        line@ == "   API available at http://localhost:"@ + decimal_spec(port as nat) + "/api"@,
{
    let mut line = "   API available at http://localhost:".to_owned();
    let digits = decimal(port as u64);
    line.append(digits.as_str());
    line.append("/api");
    line
}

proof fn lemma_monitor_entries_flat(ms: Seq<Monitor>, f: spec_fn(Monitor) -> Seq<Seq<char>>)
    requires
        forall|m: Monitor| #[trigger] f(m) == monitor_entry(m),
    ensures
        monitor_entries(ms) == ms.map_values(f).flatten(),
    decreases ms.len(),
{
    ms.map_values(f).lemma_flatten_and_flatten_alt_are_equivalent();
    if ms.len() > 0 {
        lemma_monitor_entries_flat(ms.drop_last(), f);
        ms.drop_last().map_values(f).lemma_flatten_and_flatten_alt_are_equivalent();
        assert(ms.map_values(f).drop_last() =~= ms.drop_last().map_values(f));
        assert(ms.map_values(f).last() == f(ms.last()));
    } else {
        assert(ms.map_values(f) =~= Seq::<Seq<Seq<char>>>::empty());
    }
}

proof fn lemma_status_entries_flat(ms: Seq<Monitor>, f: spec_fn(Monitor) -> Seq<Seq<char>>)
    requires
        forall|m: Monitor| #[trigger] f(m) == status_entry(m),
    ensures
        status_entries(ms) == ms.map_values(f).flatten(),
    decreases ms.len(),
{
    ms.map_values(f).lemma_flatten_and_flatten_alt_are_equivalent();
    if ms.len() > 0 {
        lemma_status_entries_flat(ms.drop_last(), f);
        ms.drop_last().map_values(f).lemma_flatten_and_flatten_alt_are_equivalent();
        assert(ms.map_values(f).drop_last() =~= ms.drop_last().map_values(f));
        assert(ms.map_values(f).last() == f(ms.last()));
    } else {
        assert(ms.map_values(f) =~= Seq::<Seq<Seq<char>>>::empty());
    }
}

proof fn lemma_change_entries_flat(cs: Seq<Change>, f: spec_fn(Change) -> Seq<Seq<char>>)
    requires
        forall|c: Change| #[trigger] f(c) == change_entry(c),
    ensures
        change_entries(cs) == cs.map_values(f).flatten(),
    decreases cs.len(),
{
    cs.map_values(f).lemma_flatten_and_flatten_alt_are_equivalent();
    if cs.len() > 0 {
        lemma_change_entries_flat(cs.drop_last(), f);
        cs.drop_last().map_values(f).lemma_flatten_and_flatten_alt_are_equivalent();
        assert(cs.map_values(f).drop_last() =~= cs.drop_last().map_values(f));
        assert(cs.map_values(f).last() == f(cs.last()));
    } else {
        assert(cs.map_values(f) =~= Seq::<Seq<Seq<char>>>::empty());
    }
}

/// The `list` command shows, after its heading, each monitor in turn: its
/// first eight id characters and URL, its name if it has one, then its own
/// interval and enabled flag. With no monitors it shows only a hint.
pub proof fn list_shows_each_monitor(ms: Seq<Monitor>)
    ensures
        ms.len() == 0 ==> list_spec(ms) == seq![
            "No monitors configured. Use 'driftguard add <url>' to add one."@,
        ],
        ms.len() > 0 ==> list_spec(ms) == seq!["\u{1f4cb} Monitors:\n"@] + ms.map_values(
            |m: Monitor|
                seq![
                    "  ["@ + (if m.id@.len() <= 8 {
                        m.id@
                    } else {
                        m.id@.subrange(0, 8)
                    }) + "] "@ + m.url@,
                ] + match m.name {
                    Some(n) => seq!["       Name: "@ + n@],
                    None => Seq::<Seq<char>>::empty(),
                } + seq![
                    "       Interval: "@ + decimal_spec(m.interval_seconds as nat)
                        + "s | Enabled: "@ + (if m.enabled {
                        "true"@
                    } else {
                        "false"@
                    }) + "\n"@,
                ],
        ).flatten(),
{
    let f = |m: Monitor|
        seq![
            "  ["@ + (if m.id@.len() <= 8 {
                m.id@
            } else {
                m.id@.subrange(0, 8)
            }) + "] "@ + m.url@,
        ] + match m.name {
            Some(n) => seq!["       Name: "@ + n@],
            None => Seq::<Seq<char>>::empty(),
        } + seq![
            "       Interval: "@ + decimal_spec(m.interval_seconds as nat) + "s | Enabled: "@
                + (if m.enabled {
                "true"@
            } else {
                "false"@
            }) + "\n"@,
        ];
    lemma_monitor_entries_flat(ms, f);
}

/// The `status` command shows, after its heading, two lines for each
/// monitor in turn: its URL with its last status, then its own last-check
/// time and its own interval; a missing status or check shows as `never`.
pub proof fn status_shows_each_monitor(ms: Seq<Monitor>)
    ensures
        status_spec(ms) == seq!["\u{1f4ca} Monitor Status:\n"@] + ms.map_values(
            |m: Monitor|
                seq![
                    "  "@ + m.url@ + " \u{2192} "@ + match m.last_status {
                        Some(st) => st@,
                        None => "never"@,
                    },
                    "     Last check: "@ + match m.last_check {
                        Some(t) => t@,
                        None => "never"@,
                    } + " | Next: in "@ + decimal_spec(m.interval_seconds as nat) + "s\n"@,
                ],
        ).flatten(),
{
    let f = |m: Monitor|
        seq![
            "  "@ + m.url@ + " \u{2192} "@ + match m.last_status {
                Some(st) => st@,
                None => "never"@,
            },
            "     Last check: "@ + match m.last_check {
                Some(t) => t@,
                None => "never"@,
            } + " | Next: in "@ + decimal_spec(m.interval_seconds as nat) + "s\n"@,
        ];
    assert forall|m: Monitor| #[trigger] f(m) == status_entry(m) by {
        assert(f(m) =~= status_entry(m));
    }
    lemma_status_entries_flat(ms, f);
}

/// The `changes` command shows, after its heading, each of the first twenty
/// changes in turn: its time and type, then its details if it has any,
/// whatever its position. With no changes it shows only a notice.
pub proof fn changes_show_each_change(cs: Seq<Change>)
    ensures
        cs.len() == 0 ==> changes_spec(cs) == seq!["No changes detected yet."@],
        cs.len() > 0 ==> changes_spec(cs) == seq!["\u{1f4dd} Recent Changes:\n"@] + cs.take(
            if cs.len() < 20 {
                cs.len() as int
            } else {
                20
            },
        ).map_values(
            |c: Change|
                seq!["  ["@ + c.detected_at@ + "] "@ + c.change_type@] + match c.details {
                    Some(d) => seq!["       "@ + d@],
                    None => Seq::<Seq<char>>::empty(),
                },
        ).flatten(),
{
    let f = |c: Change|
        seq!["  ["@ + c.detected_at@ + "] "@ + c.change_type@] + match c.details {
            Some(d) => seq!["       "@ + d@],
            None => Seq::<Seq<char>>::empty(),
        };
    assert forall|c: Change| #[trigger] f(c) == change_entry(c) by {
        match c.details {
            Some(d) => {
                assert(f(c) =~= change_entry(c));
            },
            None => {
                assert(f(c) =~= change_entry(c));
            },
        }
    }
    let n = if cs.len() < 20 {
        cs.len() as int
    } else {
        20
    };
    lemma_change_entries_flat(cs.take(n), f);
}

/// The text of a list of lines is each line's text, in order.
pub proof fn texts_are_the_lines(lines: Seq<String>)
    ensures
        texts(lines).len() == lines.len(),
        forall|i: int| 0 <= i < lines.len() ==> #[trigger] texts(lines)[i] == lines[i]@,
{
}

} // verus!
