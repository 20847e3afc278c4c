//! Decisions of the command-line tool: how a task ID is read, how long
//! descriptions are shortened, and which release binary fits a platform.

use vstd::prelude::*;

use crate::focus::{opt_view, priority_label, status_label, summary_text, task_summary};
use crate::tasks::{Task, TaskReference, TrackedTask};
use crate::text::{char_count, decimal, str_eq, take_chars, u64_to_string, views};

verus! {

/// `c` is an ASCII letter or digit (`char::is_ascii_alphanumeric`).
pub open spec fn is_ascii_alnum(c: char) -> bool {
    ('0' <= c && c <= '9') || ('A' <= c && c <= 'Z') || ('a' <= c && c <= 'z')
}

/// `c` is an ASCII digit (`char::is_ascii_digit`).
pub open spec fn is_ascii_digit(c: char) -> bool {
    '0' <= c && c <= '9'
}

/// `s` is a custom task ID such as `TASK-123`: a non-empty run of ASCII
/// letters and digits, a `-`, and a non-empty run of ASCII digits.
pub open spec fn is_custom_task_id(s: Seq<char>) -> bool {
    exists|i: int| #![trigger s[i]] dash_splits(s, i)
}

/// The `-` at `i` splits `s` into an alphanumeric prefix and a digit suffix,
/// both non-empty.
pub open spec fn dash_splits(s: Seq<char>, i: int) -> bool {
    &&& 0 < i < s.len() - 1
    &&& s[i] == '-'
    &&& forall|j: int| 0 <= j < i ==> is_ascii_alnum(#[trigger] s[j])
    &&& forall|j: int| i < j < s.len() ==> is_ascii_digit(#[trigger] s[j])
}

/// Whether `task_id` looks like a custom task ID (see [`is_custom_task_id`]):
/// it is split at its first `-`, and both sides are checked.
pub fn looks_like_custom_task_id(task_id: &str) -> (r: bool)
    ensures
        r == is_custom_task_id(task_id@),
{
    let n = task_id.unicode_len();
    let mut d: usize = 0;
    while d < n && task_id.get_char(d) != '-'
        invariant
            d <= n,
            n == task_id@.len(),
            forall|j: int| 0 <= j < d ==> task_id@[j] != '-',
        decreases n - d,
    {
        d = d + 1;
    }
    assert(d < n ==> task_id@[d as int] == '-');
    if d == n || d == 0 || d + 1 == n {
        proof {
            assert forall|i: int| !dash_splits(task_id@, i) by {
                if dash_splits(task_id@, i) {
                    assert(task_id@[i] == '-');
                    if d > 0 && d < n {
                        assert(is_ascii_alnum(task_id@[0]));
                    }
                }
            }
        }
        return false;
    }
    let mut j: usize = 0;
    while j < d
        invariant
            j <= d < n,
            n == task_id@.len(),
            task_id@[d as int] == '-',
            forall|t: int| 0 <= t < d ==> task_id@[t] != '-',
            forall|k: int| 0 <= k < j ==> is_ascii_alnum(#[trigger] task_id@[k]),
        decreases d - j,
    {
        let c = task_id.get_char(j);
        if !(('0' <= c && c <= '9') || ('A' <= c && c <= 'Z') || ('a' <= c && c <= 'z')) {
            proof {
                assert forall|i: int| !dash_splits(task_id@, i) by {
                    if dash_splits(task_id@, i) {
                        assert(task_id@[i] == '-');
                        if i > j {
                            assert(is_ascii_alnum(task_id@[j as int]));
                        }
                    }
                }
            }
            return false;
        }
        j = j + 1;
    }
    let mut k: usize = d + 1;
    while k < n
        invariant
            d < k <= n,
            n == task_id@.len(),
            task_id@[d as int] == '-',
            forall|t: int| d < t < k ==> is_ascii_digit(#[trigger] task_id@[t]),
        decreases n - k,
    {
        let c = task_id.get_char(k);
        if !('0' <= c && c <= '9') {
            proof {
                assert forall|i: int| !dash_splits(task_id@, i) by {
                    if dash_splits(task_id@, i) {
                        if i < d {
                            assert(task_id@[d as int] == '-');
                            assert(is_ascii_digit(task_id@[d as int]));
                        } else if i > d {
                            assert(is_ascii_alnum(task_id@[d as int]));
                        }
                    }
                }
            }
            return false;
        }
        k = k + 1;
    }
    assert(dash_splits(task_id@, d as int));
    true
}

/// Chooses how a task ID is referenced: as a custom ID when asked to, or
/// when it looks like one; otherwise as an internal ID.
pub fn resolve_task_reference(workspace_id: u64, task_id: String, custom_id: bool) -> (r:
    TaskReference)
    ensures
        (custom_id || is_custom_task_id(task_id@)) ==> (r matches TaskReference::CustomId {
            workspace_id: w,
            custom_task_id: t,
        } && w == workspace_id && t@ == task_id@),
        !(custom_id || is_custom_task_id(task_id@)) ==> (r matches TaskReference::Id(t) && t@
            == task_id@),
{
    if custom_id || looks_like_custom_task_id(task_id.as_str()) {
        TaskReference::CustomId { workspace_id, custom_task_id: task_id }
    } else {
        TaskReference::Id(task_id)
    }
}

/// The longest description, in characters, that is shown whole.
pub const SUMMARY_MAX_CHARS: usize = 280;

/// A description as the terminal shows it: whole when at most 280
/// characters long, else its first 280 characters followed by `...`.
pub open spec fn summary_of(s: Seq<char>) -> Seq<char> {
    if s.len() <= 280 {
        s
    } else {
        s.take(280) + "..."@
    }
}

/// Shortens a description for the terminal (see [`summary_of`]).
pub fn summarize(value: &str) -> (r: String)
    ensures
        r@ == summary_of(value@),
{
    if char_count(value) <= SUMMARY_MAX_CHARS {
        return value.to_owned();
    }
    let summary = take_chars(value, SUMMARY_MAX_CHARS);
    summary.concat("...")
}

/// Why no release binary fits a platform.
#[derive(Clone, Copy, Debug, Eq, PartialEq)]
pub enum ReleaseError {
    /// Release binaries are built for macOS only.
    UnsupportedPlatform,
}

impl ReleaseError {
    /// The message shown for the error.
    pub fn message(&self) -> (r: String)
        ensures
            r@ == "GitHub release installs are configured for macOS only. Use `cargo install clickup-cli` on other platforms."@,
    {
        "GitHub release installs are configured for macOS only. Use `cargo install clickup-cli` on other platforms.".to_owned()
    }
}

/// The release asset built for `os` and `arch`: the two macOS targets.
pub open spec fn release_asset_for(os: Seq<char>, arch: Seq<char>) -> Option<Seq<char>> {
    if os == "macos"@ && arch == "aarch64"@ {
        Some("clickup-cli-aarch64-apple-darwin"@)
    } else if os == "macos"@ && arch == "x86_64"@ {
        Some("clickup-cli-x86_64-apple-darwin"@)
    } else {
        None
    }
}

/// Release binaries exist for macOS only: an asset is named exactly when the
/// OS is `macos` and the architecture is `aarch64` or `x86_64`, and its name
/// is `clickup-cli-<arch>-apple-darwin`.
pub proof fn lemma_release_assets_are_macos_only(os: Seq<char>, arch: Seq<char>)
    ensures
        release_asset_for(os, arch) is Some <==> os == "macos"@ && (arch == "aarch64"@ || arch
            == "x86_64"@),
        release_asset_for(os, arch) matches Some(name) ==> name == "clickup-cli-"@ + arch
            + "-apple-darwin"@,
{
    reveal_strlit("clickup-cli-aarch64-apple-darwin");
    reveal_strlit("clickup-cli-x86_64-apple-darwin");
    reveal_strlit("clickup-cli-");
    reveal_strlit("-apple-darwin");
    reveal_strlit("aarch64");
    reveal_strlit("x86_64");
    if os == "macos"@ && arch == "aarch64"@ {
        assert("clickup-cli-aarch64-apple-darwin"@ =~= "clickup-cli-"@ + arch + "-apple-darwin"@);
    } else if os == "macos"@ && arch == "x86_64"@ {
        assert("clickup-cli-x86_64-apple-darwin"@ =~= "clickup-cli-"@ + arch + "-apple-darwin"@);
    }
}

/// Names the release asset for a platform, or fails for platforms without one.
pub fn release_asset_name_for(os: &str, arch: &str) -> (r: Result<String, ReleaseError>)
    ensures
        r matches Ok(name) ==> release_asset_for(os@, arch@) == Some(name@),
        r is Err ==> release_asset_for(os@, arch@) is None,
        r is Ok ==> os@ == "macos"@,
        r matches Ok(name) ==> name@ == "clickup-cli-"@ + arch@ + "-apple-darwin"@,
{
    proof {
        lemma_release_assets_are_macos_only(os@, arch@);
    }
    if str_eq(os, "macos") && str_eq(arch, "aarch64") {
        Ok("clickup-cli-aarch64-apple-darwin".to_owned())
    } else if str_eq(os, "macos") && str_eq(arch, "x86_64") {
        Ok("clickup-cli-x86_64-apple-darwin".to_owned())
    } else {
        Err(ReleaseError::UnsupportedPlatform)
    }
}

/// The file name of the installed binary: with `.exe` on Windows.
pub fn binary_name_for(windows: bool) -> (r: &'static str)
    ensures
        r@ == if windows {
            "clickup-cli.exe"@
        } else {
            "clickup-cli"@
        },
{
    if windows {
        "clickup-cli.exe"
    } else {
        "clickup-cli"
    }
}

/// The file name that a download is written to before it replaces
/// `file_name` (the destination's file name, `clickup-cli` when it has none).
pub fn temporary_download_name(file_name: Option<&str>) -> (r: String)
    ensures
        r@ == match file_name {
            Some(n) => n@,
            None => "clickup-cli"@,
        } + ".download"@,
{
    let name = match file_name {
        Some(n) => n,
        None => "clickup-cli",
    };
    name.to_owned().concat(".download")
}

/// Where, under the home directory, the binary is installed by default.
pub const HOME_INSTALL_SUBDIR: &'static str = ".local/bin";

/// The directory the binary is installed into when none is given.
#[derive(Debug, PartialEq, Eq)]
pub enum InstallDir<T> {
    /// The directory that `CLICKUP_CLI_INSTALL_DIR` names.
    Configured(T),
    /// [`HOME_INSTALL_SUBDIR`] under this home directory.
    UnderHome(T),
    /// Neither variable is set: the install needs an explicit directory.
    NoHome,
}

/// Chooses the install directory from `CLICKUP_CLI_INSTALL_DIR` (`configured`)
/// and `HOME` (`home`): the configured one when set, else one under home.
pub fn choose_install_dir<T>(configured: Option<T>, home: Option<T>) -> (r: InstallDir<T>)
    ensures
        r == match configured {
            Some(d) => InstallDir::Configured(d),
            None => match home {
                Some(h) => InstallDir::UnderHome(h),
                None => InstallDir::NoHome,
            },
        },
{
    match configured {
        Some(d) => InstallDir::Configured(d),
        None => match home {
            Some(h) => InstallDir::UnderHome(h),
            None => InstallDir::NoHome,
        },
    }
}

/// A downloadable file of a release.
#[derive(Clone, Debug)]
pub struct ReleaseAsset {
    /// The asset's file name.
    pub name: String,
    /// Where the asset is downloaded from.
    pub browser_download_url: String,
}

/// Finds the first asset named `name`.
pub fn find_release_asset(assets: &Vec<ReleaseAsset>, name: &str) -> (r: Option<usize>)
    ensures
        r matches Some(i) ==> i < assets@.len() && assets@[i as int].name@ == name@ && forall|j: int|
            0 <= j < i ==> assets@[j].name@ != name@,
        r is None ==> forall|j: int| 0 <= j < assets@.len() ==> assets@[j].name@ != name@,
{
    let mut i: usize = 0;
    while i < assets.len()
        invariant
            i <= assets@.len(),
            forall|j: int| 0 <= j < i ==> assets@[j].name@ != name@,
        decreases assets.len() - i,
    {
        if str_eq(assets[i].name.as_str(), name) {
            return Some(i);
        }
        i = i + 1;
    }
    None
}


/// One line, `label` followed by the value, when there is a value; no line
/// otherwise.
pub open spec fn optional_line(label: Seq<char>, value: Option<Seq<char>>) -> Seq<Seq<char>> {
    match value {
        Some(v) => seq![label + v],
        None => Seq::empty(),
    }
}

/// The line that lists a subtask: `- {name} [{status}]`, with `unknown` for a
/// subtask without a status label.
pub open spec fn subtask_line(t: Task) -> Seq<char> {
    "- "@ + t.display_text() + " ["@ + match status_label(t) {
        Some(st) => st,
        None => "unknown"@,
    } + "]"@
}

/// The description block of the report: a blank line, a heading and the
/// shortened description, when the task has a description.
pub open spec fn description_lines(task: Task) -> Seq<Seq<char>> {
    match summary_text(task) {
        Some(d) => seq![Seq::empty(), "Description:"@, summary_of(d)],
        None => Seq::empty(),
    }
}

/// The lines of a subtask listing, in order.
pub open spec fn subtask_lines(subtasks: Seq<Task>, n: nat) -> Seq<Seq<char>> {
    Seq::new(n, |k: int| subtask_line(subtasks[k]))
}

/// The head of the report: name and ID, then the custom ID, status,
/// priority, due date and URL that the task has.
pub open spec fn header_lines(task: Task) -> Seq<Seq<char>> {
    seq!["Task: "@ + task.display_text(), "ID: "@ + task.id@] + optional_line(
        "Custom ID: "@,
        opt_view(task.custom_id),
    ) + optional_line("Status: "@, status_label(task)) + optional_line(
        "Priority: "@,
        priority_label(task),
    ) + optional_line("Due: "@, opt_view(task.due_date)) + optional_line(
        "URL: "@,
        opt_view(task.url),
    )
}

/// The text report of a fetched task, line by line: its head, its
/// description, and the count and list of its subtasks.
pub open spec fn report_lines(fetched: TrackedTask) -> Seq<Seq<char>> {
    header_lines(fetched.task) + description_lines(fetched.task) + seq![
        Seq::empty(),
        "Subtasks: "@ + decimal(fetched.subtasks@.len()),
    ] + subtask_lines(fetched.subtasks@, fetched.subtasks@.len())
}

fn push_line(lines: &mut Vec<String>, line: String)
    ensures
        views(final(lines)@) == views(old(lines)@).push(line@),
{
    let ghost before = lines@;
    lines.push(line);
    assert(views(lines@) =~= views(before).push(line@));
}

fn push_optional_line(lines: &mut Vec<String>, label: &str, value: Option<&str>)
    ensures
        views(final(lines)@) == views(old(lines)@) + optional_line(
            label@,
            match value {
                Some(v) => Some(v@),
                None => None,
            },
        ),
{
    let ghost before = views(lines@);
    match value {
        Some(v) => {
            push_line(lines, label.to_owned().concat(v));
            assert(views(lines@) =~= before + optional_line(label@, Some(v@)));
        },
        None => {
            assert(views(lines@) =~= before + Seq::<Seq<char>>::empty());
        },
    }
}

fn option_str(o: &Option<String>) -> (r: Option<&str>)
    ensures
        match r {
            Some(v) => Some(v@),
            None => None,
        } == opt_view(*o),
{
    match o {
        Some(s) => Some(s.as_str()),
        None => None,
    }
}

fn status_str(t: &Task) -> (r: Option<&str>)
    ensures
        match r {
            Some(v) => Some(v@),
            None => None,
        } == status_label(*t),
{
    match &t.status {
        Some(st) => option_str(&st.status),
        None => None,
    }
}

fn push_header_lines(lines: &mut Vec<String>, task: &Task)
    ensures
        views(final(lines)@) == views(old(lines)@) + header_lines(*task),
{
    let ghost before = views(lines@);
    push_line(lines, "Task: ".to_owned().concat(task.display_name()));
    push_line(lines, "ID: ".to_owned().concat(task.id.as_str()));
    let ghost two = views(lines@);
    push_optional_line(lines, "Custom ID: ", option_str(&task.custom_id));
    push_optional_line(lines, "Status: ", status_str(task));
    let priority = match &task.priority {
        Some(p) => option_str(&p.priority),
        None => None,
    };
    push_optional_line(lines, "Priority: ", priority);
    push_optional_line(lines, "Due: ", option_str(&task.due_date));
    push_optional_line(lines, "URL: ", option_str(&task.url));
    assert(two =~= before + seq!["Task: "@ + task.display_text(), "ID: "@ + task.id@]);
    assert(views(lines@) =~= before + header_lines(*task));
}

fn push_description_lines(lines: &mut Vec<String>, task: &Task)
    ensures
        views(final(lines)@) == views(old(lines)@) + description_lines(*task),
{
    let ghost before = views(lines@);
    match task_summary(task) {
        Some(d) => {
            push_line(lines, String::new());
            push_line(lines, "Description:".to_owned());
            push_line(lines, summarize(d.as_str()));
        },
        None => {},
    }
    assert(views(lines@) =~= before + description_lines(*task));
}

fn push_subtask_lines(lines: &mut Vec<String>, subtasks: &Vec<Task>)
    ensures
        views(final(lines)@) == views(old(lines)@) + subtask_lines(subtasks@, subtasks@.len()),
{
    proof {
        reveal_strlit("unknown");
    }
    let ghost base = views(lines@);
    let n = subtasks.len();
    let mut k: usize = 0;
    assert(subtask_lines(subtasks@, 0) =~= Seq::<Seq<char>>::empty());
    assert(base + subtask_lines(subtasks@, 0) =~= base);
    while k < n
        invariant
            n == subtasks@.len(),
            k <= n,
            views(lines@) == base + subtask_lines(subtasks@, k as nat),
        decreases n - k,
    {
        let t = &subtasks[k];
        let status = match status_str(t) {
            Some(st) => st,
            None => "unknown",
        };
        let line = "- ".to_owned().concat(t.display_name()).concat(" [").concat(status).concat(
            "]",
        );
        push_line(lines, line);
        assert(subtask_lines(subtasks@, (k + 1) as nat) =~= subtask_lines(
            subtasks@,
            k as nat,
        ).push(subtask_line(subtasks@[k as int])));
        k = k + 1;
    }
}

/// The text report of a fetched task, one string per line (see
/// [`report_lines`]).
pub fn task_report_lines(fetched: &TrackedTask) -> (r: Vec<String>)
    ensures
        views(r@) == report_lines(*fetched),
{
    let mut lines: Vec<String> = Vec::new();
    assert(views(lines@) =~= Seq::<Seq<char>>::empty());
    push_header_lines(&mut lines, &fetched.task);
    push_description_lines(&mut lines, &fetched.task);
    let ghost before_count = views(lines@);
    push_line(&mut lines, String::new());
    let n = fetched.subtasks.len();
    push_line(&mut lines, "Subtasks: ".to_owned().concat(u64_to_string(n as u64).as_str()));
    let ghost after_count = views(lines@);
    push_subtask_lines(&mut lines, &fetched.subtasks);
    assert(after_count =~= before_count + seq![
        Seq::<char>::empty(),
        "Subtasks: "@ + decimal(fetched.subtasks@.len()),
    ]);
    assert(views(lines@) =~= report_lines(*fetched));
    lines
}

/// A shortened description is at most 283 characters long, and a
/// description of at most 280 characters is kept whole.
pub proof fn lemma_summary_bounded(s: Seq<char>)
    ensures
        summary_of(s).len() <= 283,
        s.len() <= 280 ==> summary_of(s) == s,
        s.len() > 280 ==> summary_of(s).take(280) == s.take(280),
{
    reveal_strlit("...");
    if s.len() > 280 {
        assert(summary_of(s).take(280) =~= s.take(280));
    }
}

} // verus!
