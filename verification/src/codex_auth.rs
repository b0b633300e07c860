//! Codex CLI readiness: where the `codex` executable is looked for, how the
//! output of `codex login status` is classified, and the receipts of the
//! install and login setup actions.
use vstd::prelude::*;

use crate::text::{
    ascii_lower, ascii_lower_char, occurs_at, chars_of, concat2, concat3, contains_chars, contains_text, owned,
    to_ascii_lower,
};

verus! {

pub const CODEX_EXECUTABLE: &'static str = "codex";

pub const DEFAULT_TIMEOUT_MILLIS: u64 = 5000;

pub const PIPE_OUTPUT_BYTE_LIMIT: usize = 1048576;

/// The views of a sequence of strings.
pub open spec fn texts(v: Seq<String>) -> Seq<Seq<char>> {
    v.map_values(|s: String| s@)
}

// ---------------------------------------------------------------------------
// Search paths
// ---------------------------------------------------------------------------

/// The directories under `$HOME` that commonly hold user-installed CLIs.
pub open spec fn home_cli_suffixes() -> Seq<Seq<char>> {
    seq![
        ".local/bin"@,
        ".local/share/bin"@,
        ".npm-packages/bin"@,
        ".npm-global/bin"@,
        ".pnpm-packages/bin"@,
        ".bun/bin"@,
        ".volta/bin"@,
        ".asdf/shims"@,
        ".local/share/mise/shims"@,
        "Library/pnpm"@,
        "bin"@,
    ]
}

/// The system directories that commonly hold CLIs.
pub open spec fn system_cli_paths() -> Seq<Seq<char>> {
    seq!["/opt/homebrew/bin"@, "/usr/local/bin"@, "/usr/bin"@, "/bin"@, "/usr/sbin"@, "/sbin"@]
}

fn home_cli_suffix(i: usize) -> (r: &'static str)
    requires
        i < 11,
    ensures
        r@ == home_cli_suffixes()[i as int],
{
    match i {
        0 => ".local/bin",
        1 => ".local/share/bin",
        2 => ".npm-packages/bin",
        3 => ".npm-global/bin",
        4 => ".pnpm-packages/bin",
        5 => ".bun/bin",
        6 => ".volta/bin",
        7 => ".asdf/shims",
        8 => ".local/share/mise/shims",
        9 => "Library/pnpm",
        _ => "bin",
    }
}

fn system_cli_path(i: usize) -> (r: &'static str)
    requires
        i < 6,
    ensures
        r@ == system_cli_paths()[i as int],
{
    match i {
        0 => "/opt/homebrew/bin",
        1 => "/usr/local/bin",
        2 => "/usr/bin",
        3 => "/bin",
        4 => "/usr/sbin",
        _ => "/sbin",
    }
}

/// Joining a relative path `name` onto directory `dir`, with one `/`
/// between them (an empty directory gives `name` itself).
pub open spec fn join_path(dir: Seq<char>, name: Seq<char>) -> Seq<char> {
    if dir.len() == 0 {
        name
    } else if dir.last() == '/' {
        dir + name
    } else {
        dir + seq!['/'] + name
    }
}

pub fn join(dir: &String, name: &str) -> (r: String)
    ensures
        r@ == join_path(dir@, name@),
{
    let d = dir.as_str();
    let n = d.unicode_len();
    proof {
        reveal_strlit("/");
    }
    if n == 0 {
        owned(name)
    } else if d.get_char(n - 1) == '/' {
        concat2(d, name)
    } else {
        concat3(d, "/", name)
    }
}

/// `paths` after appending `path` unless it is empty or already present.
pub open spec fn with_unique_path(paths: Seq<Seq<char>>, path: Seq<char>) -> Seq<Seq<char>> {
    if path.len() != 0 && !paths.contains(path) {
        paths.push(path)
    } else {
        paths
    }
}

/// `paths` after appending each of `more` in turn as [`with_unique_path`] does.
pub open spec fn with_unique_paths(paths: Seq<Seq<char>>, more: Seq<Seq<char>>) -> Seq<
    Seq<char>,
>
    decreases more.len(),
{
    if more.len() == 0 {
        paths
    } else {
        with_unique_paths(with_unique_path(paths, more[0]), more.drop_first())
    }
}

pub proof fn lemma_with_unique_paths_push(
    paths: Seq<Seq<char>>,
    more: Seq<Seq<char>>,
    next: Seq<char>,
)
    ensures
        with_unique_paths(paths, more.push(next)) == with_unique_path(
            with_unique_paths(paths, more),
            next,
        ),
    decreases more.len(),
{
    if more.len() == 0 {
        assert(more.push(next).drop_first() =~= Seq::<Seq<char>>::empty());
        assert(more.push(next)[0] == next);
        reveal_with_fuel(with_unique_paths, 2);
    } else {
        assert(more.push(next).drop_first() =~= more.drop_first().push(next));
        assert(more.push(next)[0] == more[0]);
        lemma_with_unique_paths_push(with_unique_path(paths, more[0]), more.drop_first(), next);
    }
}

fn contains_path(paths: &Vec<String>, path: &String) -> (r: bool)
    ensures
        r == texts(paths@).contains(path@),
{
    let n = paths.len();
    for i in 0..n
        invariant
            n == paths@.len(),
            forall|k: int| 0 <= k < i ==> paths@[k]@ != path@,
    {
        if paths[i] == *path {
            assert(texts(paths@)[i as int] == path@);
            return true;
        }
    }
    proof {
        if texts(paths@).contains(path@) {
            let k = choose|k: int| 0 <= k < texts(paths@).len() && texts(paths@)[k] == path@;
            assert(paths@[k]@ == path@);
        }
    }
    false
}

/// Appends `path` unless it is empty or already listed.
pub fn append_unique_path(search_paths: &mut Vec<String>, path: String)
    ensures
        texts(final(search_paths)@) == with_unique_path(texts(old(search_paths)@), path@),
{
    if path.as_str().unicode_len() != 0 && !contains_path(search_paths, &path) {
        proof {
            assert(texts(old(search_paths)@.push(path)) == texts(old(search_paths)@).push(path@));
        }
        search_paths.push(path);
    }
}

/// The common per-user CLI directories under `home`.
pub open spec fn home_cli_paths(home: Seq<char>) -> Seq<Seq<char>> {
    home_cli_suffixes().map_values(|suffix: Seq<char>| join_path(home, suffix))
}

/// Appends the common per-user CLI directories under `home` (when `home` is
/// given and not empty). The node version manager directories, which need a
/// directory listing, are appended by the caller afterwards.
pub fn append_home_cli_search_paths(search_paths: &mut Vec<String>, home: Option<String>)
    ensures
        texts(final(search_paths)@) == match home {
            Some(h) if h@.len() != 0 => with_unique_paths(
                texts(old(search_paths)@),
                home_cli_paths(h@),
            ),
            _ => texts(old(search_paths)@),
        },
{
    let home = match home {
        Some(h) => h,
        None => return ,
    };
    if home.as_str().unicode_len() == 0 {
        return ;
    }
    let ghost start = texts(search_paths@);
    for i in 0..11
        invariant
            home@.len() != 0,
            texts(search_paths@) == with_unique_paths(start, home_cli_paths(home@).take(i as int)),
    {
        let path = join(&home, home_cli_suffix(i));
        proof {
            assert(home_cli_paths(home@).take(i + 1) == home_cli_paths(home@).take(i as int).push(
                path@,
            ));
            lemma_with_unique_paths_push(start, home_cli_paths(home@).take(i as int), path@);
        }
        append_unique_path(search_paths, path);
    }
    assert(home_cli_paths(home@).take(11) == home_cli_paths(home@));
}

/// Where the node version manager keeps its installed node versions.
pub open spec fn nvm_node_dir(home: Seq<char>) -> Seq<char> {
    join_path(join_path(join_path(home, ".nvm"@), "versions"@), "node"@)
}

/// The `bin` directory of one installed node version.
pub open spec fn node_bin_path(home: Seq<char>, version: Seq<char>) -> Seq<char> {
    join_path(join_path(nvm_node_dir(home), version), "bin"@)
}

/// The directory that holds one entry per installed node version.
pub fn nvm_node_versions_dir(home: &String) -> (r: String)
    ensures
        r@ == nvm_node_dir(home@),
{
    let nvm = join(home, ".nvm");
    let versions = join(&nvm, "versions");
    join(&versions, "node")
}

/// Appends the `bin` directory of each installed node version, versions in
/// name order (the order of their paths), as [`append_unique_path`] does.
/// `version_names` are the names of the version directories, which the
/// caller lists.
pub fn append_node_bin_paths(search_paths: &mut Vec<String>, home: &String, version_names: &Vec<String>)
    ensures
        exists|names: Seq<Seq<char>>|
            {
                &&& crate::list_intake::sorted_texts(names)
                &&& names.to_set() == texts(version_names@).to_set()
                &&& texts(final(search_paths)@) == with_unique_paths(
                    texts(old(search_paths)@),
                    names.map_values(|n: Seq<char>| node_bin_path(home@, n)),
                )
            },
{
    let mut names: Vec<String> = Vec::new();
    let n = version_names.len();
    let ghost all = texts(version_names@);
    assert(names.deep_view().to_set() =~= all.take(0).to_set());
    for i in 0..n
        invariant
            n == version_names@.len(),
            all == texts(version_names@),
            crate::list_intake::sorted_texts(names.deep_view()),
            names.deep_view().to_set() == all.take(i as int).to_set(),
    {
        crate::list_intake::insert_text_sorted(&mut names, version_names[i].as_str());
        assert(all.take(i + 1) == all.take(i as int).push(version_names@[i as int]@));
        proof {
            crate::list_intake::lemma_push_to_set(all.take(i as int), version_names@[i as int]@);
        }
    }
    assert(all.take(n as int) == all);
    let dir = nvm_node_versions_dir(home);
    let ghost sorted = names.deep_view();
    let ghost bins = sorted.map_values(|v: Seq<char>| node_bin_path(home@, v));
    let ghost start = texts(search_paths@);
    let m = names.len();
    for j in 0..m
        invariant
            m == sorted.len(),
            sorted == names.deep_view(),
            bins == sorted.map_values(|v: Seq<char>| node_bin_path(home@, v)),
            dir@ == nvm_node_dir(home@),
            texts(search_paths@) == with_unique_paths(start, bins.take(j as int)),
    {
        let version_dir = join(&dir, names[j].as_str());
        let path = join(&version_dir, "bin");
        proof {
            assert(bins.take(j + 1) == bins.take(j as int).push(path@));
            lemma_with_unique_paths_push(start, bins.take(j as int), path@);
        }
        append_unique_path(search_paths, path);
    }
    assert(bins.take(m as int) == bins);
}

/// Appends the common system CLI directories.
pub fn append_system_cli_search_paths(search_paths: &mut Vec<String>)
    ensures
        texts(final(search_paths)@) == with_unique_paths(
            texts(old(search_paths)@),
            system_cli_paths(),
        ),
{
    let ghost start = texts(search_paths@);
    for i in 0..6
        invariant
            texts(search_paths@) == with_unique_paths(start, system_cli_paths().take(i as int)),
    {
        let path = owned(system_cli_path(i));
        proof {
            assert(system_cli_paths().take(i + 1) == system_cli_paths().take(i as int).push(
                path@,
            ));
            lemma_with_unique_paths_push(start, system_cli_paths().take(i as int), path@);
        }
        append_unique_path(search_paths, path);
    }
    assert(system_cli_paths().take(6) == system_cli_paths());
}

/// A path segment (a run of characters between `/`s) starts at `i` and is
/// not `.`.
pub open spec fn starts_segment(s: Seq<char>, i: int) -> bool {
    &&& 0 <= i < s.len()
    &&& s[i] != '/'
    &&& i == 0 || s[i - 1] == '/'
    &&& !(s[i] == '.' && (i + 1 == s.len() || s[i + 1] == '/'))
}

/// How many named segments start among the first `n` characters.
pub open spec fn segments_before(s: Seq<char>, n: int) -> nat
    decreases n,
{
    if n <= 0 {
        0
    } else {
        segments_before(s, n - 1) + if starts_segment(s, n - 1) {
            1nat
        } else {
            0nat
        }
    }
}

/// The number of components of a path read the Unix way: a leading `/` is
/// the root, a leading `.` segment is the current directory, and every
/// other segment but `.` and the empty ones is a component.
pub open spec fn path_component_count(s: Seq<char>) -> nat {
    (if s.len() > 0 && s[0] == '/' {
        1nat
    } else {
        0nat
    }) + (if s.len() > 0 && s[0] == '.' && (s.len() == 1 || s[1] == '/') {
        1nat
    } else {
        0nat
    }) + segments_before(s, s.len() as int)
}

/// Whether a text names a path of more than one component, so that it is
/// taken as a path rather than looked up in the search paths.
pub open spec fn is_multi_component(name: Seq<char>) -> bool {
    path_component_count(name) > 1
}

/// The paths tried, in order, when looking for `name`: the name itself when
/// it already holds a directory part, otherwise `name` joined to each search
/// path.
pub open spec fn executable_candidates_for(name: Seq<char>, search_paths: Seq<Seq<char>>) -> Seq<
    Seq<char>,
> {
    if is_multi_component(name) {
        seq![name]
    } else {
        search_paths.map_values(|dir: Seq<char>| join_path(dir, name))
    }
}

fn has_many_components(s: &String) -> (r: bool)
    ensures
        r == is_multi_component(s@),
{
    let v = chars_of(s.as_str());
    let n = v.len();
    let mut count: usize = 0;
    if n > 0 && v[0] == '/' {
        count = count + 1;
    }
    if n > 0 && v[0] == '.' && (n == 1 || v[1] == '/') {
        count = count + 1;
    }
    let ghost base = count;
    for i in 0..n
        invariant
            n == v@.len(),
            v@ == s@,
            base <= 2,
            count == if base + segments_before(s@, i as int) < 2 {
                base + segments_before(s@, i as int)
            } else {
                2
            },
    {
        if v[i] != '/' && (i == 0 || v[i - 1] == '/') && !(v[i] == '.' && (i + 1 == n || v[i
            + 1] == '/')) && count < 2 {
            count = count + 1;
        }
    }
    count > 1
}

pub fn executable_candidates(name: &String, search_paths: &Vec<String>) -> (r: Vec<String>)
    ensures
        texts(r@) == executable_candidates_for(name@, texts(search_paths@)),
{
    let mut r: Vec<String> = Vec::new();
    if has_many_components(name) {
        r.push(name.clone());
        assert(texts(r@) == seq![name@]);
        return r;
    }
    let n = search_paths.len();
    for i in 0..n
        invariant
            n == search_paths@.len(),
            !is_multi_component(name@),
            texts(r@) == executable_candidates_for(name@, texts(search_paths@)).take(i as int),
    {
        let p = join(&search_paths[i], name.as_str());
        proof {
            assert(texts(r@.push(p)) == texts(r@).push(p@));
            assert(executable_candidates_for(name@, texts(search_paths@)).take(i + 1)
                == executable_candidates_for(name@, texts(search_paths@)).take(i as int).push(
                p@,
            ));
        }
        r.push(p);
    }
    assert(executable_candidates_for(name@, texts(search_paths@)).take(n as int)
        == executable_candidates_for(name@, texts(search_paths@)));
    r
}

/// Checks paths on disk for an executable regular file.
pub trait ExecutableLookup {
    fn is_executable_file(&self, path: &String) -> bool;
}

/// `lookup` answered `answer` when asked about `path`.
pub open spec fn lookup_answer<L: ExecutableLookup>(lookup: &L, path: Seq<char>, answer: bool) -> bool {
    exists|c: String| c@ == path && #[trigger] call_ensures(L::is_executable_file, (lookup, &c), answer)
}

/// `found` is what resolving `name` on `search_paths` gives, given the
/// lookup's answers: the first candidate path (see
/// [`executable_candidates_for`]) it reported executable, after it
/// reported every earlier one not; or none, when it reported no candidate
/// executable (so none at all where there is no candidate).
pub open spec fn resolution<L: ExecutableLookup>(
    lookup: &L,
    name: Seq<char>,
    search_paths: Seq<Seq<char>>,
    found: Option<Seq<char>>,
) -> bool {
    let candidates = executable_candidates_for(name, search_paths);
    match found {
        Some(e) => exists|i: int|
            0 <= i < candidates.len() && candidates[i] == e && lookup_answer(lookup, e, true)
                && forall|j: int| 0 <= j < i ==> lookup_answer(lookup, #[trigger] candidates[j], false),
        None => forall|i: int|
            0 <= i < candidates.len() ==> lookup_answer(lookup, #[trigger] candidates[i], false),
    }
}

/// Resolves the `codex` executable: the first candidate path (see
/// [`executable_candidates_for`]) that `lookup` reports as an executable
/// file, asking about the candidates in order. What is on disk is outside
/// this library, so the result is stated over the answers the lookup gave.
pub fn resolve_executable<L: ExecutableLookup>(
    executable_name: &String,
    search_paths: &Vec<String>,
    lookup: &L,
) -> (r: Option<String>)
    ensures
        resolution(lookup, executable_name@, texts(search_paths@), opt_text_of(r)),
{
    let candidates = executable_candidates(executable_name, search_paths);
    let ghost all = texts(candidates@);
    let n = candidates.len();
    let mut i: usize = 0;
    while i < n
        invariant
            n == candidates@.len(),
            all == texts(candidates@),
            all == executable_candidates_for(executable_name@, texts(search_paths@)),
            i <= n,
            forall|j: int| 0 <= j < i ==> lookup_answer(lookup, #[trigger] all[j], false),
        decreases n - i,
    {
        let answer = lookup.is_executable_file(&candidates[i]);
        proof {
            let c = candidates@[i as int];
            assert(c@ == all[i as int]);
            assert(call_ensures(L::is_executable_file, (lookup, &c), answer));
            assert(lookup_answer(lookup, all[i as int], answer));
        }
        if answer {
            let found = candidates[i].clone();
            proof {
                assert(found@ == all[i as int]);
            }
            return Some(found);
        }
        i = i + 1;
    }
    None
}

pub open spec fn opt_text_of(o: Option<String>) -> Option<Seq<char>> {
    match o {
        Some(s) => Some(s@),
        None => None,
    }
}

// ---------------------------------------------------------------------------
// Probe options
// ---------------------------------------------------------------------------

pub struct CodexAuthProbeOptions {
    executable_name: String,
    search_paths: Vec<String>,
    timeout_millis: u64,
}

impl CodexAuthProbeOptions {
    pub closed spec fn spec_executable_name(&self) -> Seq<char> {
        self.executable_name@
    }

    pub closed spec fn spec_search_paths(&self) -> Seq<Seq<char>> {
        texts(self.search_paths@)
    }

    pub closed spec fn spec_timeout_millis(&self) -> u64 {
        self.timeout_millis
    }

    /// Options that look for `codex` in `search_paths` with the default
    /// five-second timeout.
    pub fn from_search_paths(search_paths: Vec<String>) -> (r: Self)
        ensures
            r.spec_executable_name() == "codex"@,
            r.spec_search_paths() == texts(search_paths@),
            r.spec_timeout_millis() == DEFAULT_TIMEOUT_MILLIS,
    {
        CodexAuthProbeOptions {
            executable_name: owned(CODEX_EXECUTABLE),
            search_paths,
            timeout_millis: DEFAULT_TIMEOUT_MILLIS,
        }
    }

    /// The same options with another timeout.
    pub fn with_timeout(self, timeout_millis: u64) -> (r: Self)
        ensures
            r.spec_executable_name() == self.spec_executable_name(),
            r.spec_search_paths() == self.spec_search_paths(),
            r.spec_timeout_millis() == timeout_millis,
    {
        CodexAuthProbeOptions { timeout_millis, ..self }
    }

    pub fn executable_name(&self) -> (r: &String)
        ensures
            r@ == self.spec_executable_name(),
    {
        &self.executable_name
    }

    pub fn search_paths(&self) -> (r: &Vec<String>)
        ensures
            texts(r@) == self.spec_search_paths(),
    {
        &self.search_paths
    }

    pub fn timeout_millis(&self) -> (r: u64)
        ensures
            r == self.spec_timeout_millis(),
    {
        self.timeout_millis
    }
}

// ---------------------------------------------------------------------------
// Command output and readiness
// ---------------------------------------------------------------------------

/// What a finished `codex` command printed, and its exit code.
pub struct CodexAuthCommandOutput {
    exit_code: Option<i32>,
    stdout: String,
    stderr: String,
}

impl CodexAuthCommandOutput {
    pub closed spec fn spec_exit_code(&self) -> Option<i32> {
        self.exit_code
    }

    pub closed spec fn spec_stdout(&self) -> Seq<char> {
        self.stdout@
    }

    pub closed spec fn spec_stderr(&self) -> Seq<char> {
        self.stderr@
    }

    pub fn new(exit_code: Option<i32>, stdout: &str, stderr: &str) -> (r: Self)
        ensures
            r.spec_exit_code() == exit_code,
            r.spec_stdout() == stdout@,
            r.spec_stderr() == stderr@,
    {
        CodexAuthCommandOutput { exit_code, stdout: owned(stdout), stderr: owned(stderr) }
    }

    /// Whether anything was printed on stdout or stderr.
    pub fn has_output(&self) -> (r: bool)
        ensures
            r == (self.spec_stdout().len() != 0 || self.spec_stderr().len() != 0),
    {
        self.stdout.as_str().unicode_len() != 0 || self.stderr.as_str().unicode_len() != 0
    }

    /// Whether the command exited with status 0.
    pub fn is_success(&self) -> (r: bool)
        ensures
            r == (self.spec_exit_code() == Some(0i32)),
    {
        match self.exit_code {
            Some(code) => code == 0,
            None => false,
        }
    }

    /// stdout and stderr joined by a newline.
    pub fn combined_output(&self) -> (r: String)
        ensures
            r@ == self.spec_stdout() + "\n"@ + self.spec_stderr(),
    {
        concat3(self.stdout.as_str(), "\n", self.stderr.as_str())
    }

    pub fn duplicate(&self) -> (r: Self)
        ensures
            r.spec_exit_code() == self.spec_exit_code(),
            r.spec_stdout() == self.spec_stdout(),
            r.spec_stderr() == self.spec_stderr(),
    {
        CodexAuthCommandOutput {
            exit_code: self.exit_code,
            stdout: self.stdout.clone(),
            stderr: self.stderr.clone(),
        }
    }

    /// A debug rendering that shows the exit code and hides what was printed.
    pub fn debug_text(&self) -> (r: String)
        ensures
            r@ == "CodexAuthCommandOutput { exit_code: "@ + exit_code_text(self.spec_exit_code())
                + ", stdout: \"<redacted>\", stderr: \"<redacted>\" }"@,
    {
        let mut r = owned("CodexAuthCommandOutput { exit_code: ");
        let code = exit_code_string(self.exit_code);
        r.append(code.as_str());
        r.append(", stdout: \"<redacted>\", stderr: \"<redacted>\" }");
        r
    }
}

/// `Some(0)` / `None` as a debug rendering writes them.
pub open spec fn exit_code_text(code: Option<i32>) -> Seq<char> {
    match code {
        Some(c) => "Some("@ + crate::text::signed_decimal(c as int) + ")"@,
        None => "None"@,
    }
}

fn exit_code_string(code: Option<i32>) -> (r: String)
    ensures
        r@ == exit_code_text(code),
{
    match code {
        Some(c) => {
            let digits = crate::text::signed_decimal_string(c as i64);
            concat3("Some(", digits.as_str(), ")")
        },
        None => owned("None"),
    }
}

pub enum CodexLoginStatusRun {
    Completed(CodexAuthCommandOutput),
    MissingCli,
    TimedOut,
    FailedToStart,
}

#[derive(Debug, Clone, Copy, PartialEq, Eq, Structural)]
pub enum CodexAuthStatus {
    LoggedInUsingChatGpt,
    MissingCli,
    NotLoggedIn,
    Timeout,
    UnknownFailure,
}

#[derive(Debug)]
pub struct CodexProviderAuthReadiness {
    pub status: CodexAuthStatus,
    pub ready: bool,
    pub command_surface: String,
    pub command_output_redacted: bool,
    pub diagnostic: String,
}

/// The diagnostic shown for each readiness status.
pub open spec fn diagnostic_text(status: CodexAuthStatus) -> Seq<char> {
    match status {
        CodexAuthStatus::LoggedInUsingChatGpt => "Codex CLI ChatGPT session is ready."@,
        CodexAuthStatus::MissingCli => "Codex CLI was not found on PATH."@,
        CodexAuthStatus::NotLoggedIn => "Codex CLI is installed but not logged in."@,
        CodexAuthStatus::Timeout => "Codex CLI auth check timed out."@,
        CodexAuthStatus::UnknownFailure => "Codex CLI auth check failed."@,
    }
}

/// A readiness report carries exactly these values.
pub open spec fn is_readiness(
    r: CodexProviderAuthReadiness,
    status: CodexAuthStatus,
    ready: bool,
    redacted: bool,
) -> bool {
    &&& r.status == status
    &&& r.ready == ready
    &&& r.command_surface@ == "codex login status"@
    &&& r.command_output_redacted == redacted
    &&& r.diagnostic@ == diagnostic_text(status)
}

pub fn readiness(status: CodexAuthStatus, ready: bool) -> (r: CodexProviderAuthReadiness)
    ensures
        is_readiness(r, status, ready, false),
{
    readiness_with_redaction(status, ready, false)
}

pub fn readiness_with_redaction(
    status: CodexAuthStatus,
    ready: bool,
    command_output_redacted: bool,
) -> (r: CodexProviderAuthReadiness)
    ensures
        is_readiness(r, status, ready, command_output_redacted),
{
    CodexProviderAuthReadiness {
        status,
        ready,
        command_surface: owned("codex login status"),
        command_output_redacted,
        diagnostic: diagnostic(status),
    }
}

pub fn diagnostic(status: CodexAuthStatus) -> (r: String)
    ensures
        r@ == diagnostic_text(status),
{
    match status {
        CodexAuthStatus::LoggedInUsingChatGpt => owned("Codex CLI ChatGPT session is ready."),
        CodexAuthStatus::MissingCli => owned("Codex CLI was not found on PATH."),
        CodexAuthStatus::NotLoggedIn => owned("Codex CLI is installed but not logged in."),
        CodexAuthStatus::Timeout => owned("Codex CLI auth check timed out."),
        CodexAuthStatus::UnknownFailure => owned("Codex CLI auth check failed."),
    }
}

// ---------------------------------------------------------------------------
// Classification of `codex login status`
// ---------------------------------------------------------------------------

/// The phrases that mean the CLI has no login.
pub open spec fn missing_login_markers() -> Seq<Seq<char>> {
    seq![
        "not logged in"@,
        "not authenticated"@,
        "login required"@,
        "run codex login"@,
        "please login"@,
    ]
}

/// The output reports a ChatGPT login, ignoring ASCII case.
pub open spec fn mentions_chatgpt_login_text(output: Seq<char>) -> bool {
    contains_text(ascii_lower(output), "logged in using chatgpt"@)
}

/// The output reports a missing login, ignoring ASCII case.
pub open spec fn mentions_missing_login_text(output: Seq<char>) -> bool {
    exists|i: int|
        0 <= i < missing_login_markers().len() && contains_text(
            ascii_lower(output),
            #[trigger] missing_login_markers()[i],
        )
}

/// The status a completed `codex login status` run reports.
pub open spec fn completed_status(exit_code: Option<i32>, output: Seq<char>) -> CodexAuthStatus {
    if exit_code == Some(0i32) && mentions_chatgpt_login_text(output) {
        CodexAuthStatus::LoggedInUsingChatGpt
    } else if mentions_missing_login_text(output) {
        CodexAuthStatus::NotLoggedIn
    } else {
        CodexAuthStatus::UnknownFailure
    }
}

pub fn mentions_chatgpt_login(output: &str) -> (r: bool)
    ensures
        r == mentions_chatgpt_login_text(output@),
{
    let lowered = to_ascii_lower(&chars_of(output));
    let marker = chars_of("logged in using chatgpt");
    contains_chars(&lowered, &marker)
}

fn missing_login_marker(i: usize) -> (r: &'static str)
    requires
        i < 5,
    ensures
        r@ == missing_login_markers()[i as int],
{
    match i {
        0 => "not logged in",
        1 => "not authenticated",
        2 => "login required",
        3 => "run codex login",
        _ => "please login",
    }
}

pub fn mentions_missing_login(output: &str) -> (r: bool)
    ensures
        r == mentions_missing_login_text(output@),
{
    let lowered = to_ascii_lower(&chars_of(output));
    for i in 0..5
        invariant
            lowered@ == ascii_lower(output@),
            forall|k: int|
                0 <= k < i ==> !contains_text(
                    ascii_lower(output@),
                    #[trigger] missing_login_markers()[k],
                ),
    {
        let marker = chars_of(missing_login_marker(i));
        if contains_chars(&lowered, &marker) {
            assert(contains_text(ascii_lower(output@), missing_login_markers()[i as int]));
            return true;
        }
    }
    false
}

/// Lower-casing twice is lower-casing once.
proof fn lemma_ascii_lower_twice(s: Seq<char>)
    ensures
        ascii_lower(ascii_lower(s)) == ascii_lower(s),
{
    assert forall|k: int| 0 <= k < s.len() implies #[trigger] ascii_lower_char(ascii_lower_char(s[k]))
        == ascii_lower_char(s[k]) by {
        let c = s[k];
        if 'A' <= c && c <= 'Z' {
            assert('a' <= ascii_lower_char(c) && ascii_lower_char(c) <= 'z');
        }
    }
    assert(ascii_lower(ascii_lower(s)) =~= ascii_lower(s));
}

/// A text found in `s` is found, lower-cased, in the lower-cased `s`.
proof fn lemma_lower_keeps_occurrence(s: Seq<char>, p: Seq<char>, i: int)
    requires
        occurs_at(s, p, i),
    ensures
        occurs_at(ascii_lower(s), ascii_lower(p), i),
{
    assert(ascii_lower(s).subrange(i, i + p.len()) =~= ascii_lower(p));
}

/// Whether an output reports a ChatGPT login does not depend on ASCII
/// case: the output and its lower-cased form are judged alike.
pub proof fn law_chatgpt_login_ignores_ascii_case(output: Seq<char>)
    ensures
        mentions_chatgpt_login_text(output) == mentions_chatgpt_login_text(ascii_lower(output)),
        completed_status(Some(0i32), output) == completed_status(Some(0i32), ascii_lower(output)),
{
    lemma_ascii_lower_twice(output);
}

/// An output holding "Logged in using ChatGPT", in any ASCII case, from a
/// run that exited 0 reports a ChatGPT login, and so a ready session.
pub proof fn law_chatgpt_login_in_any_case_is_ready(output: Seq<char>, marker: Seq<char>)
    requires
        contains_text(output, marker),
        ascii_lower(marker) == "logged in using chatgpt"@,
    ensures
        mentions_chatgpt_login_text(output),
        completed_status(Some(0i32), output) == CodexAuthStatus::LoggedInUsingChatGpt,
{
    let i = choose|i: int| occurs_at(output, marker, i);
    lemma_lower_keeps_occurrence(output, marker, i);
}

/// The words `codex login status` prints for a ChatGPT login, as printed,
/// lower-case to the marker the check looks for.
pub proof fn law_printed_chatgpt_login_is_recognised(output: Seq<char>)
    requires
        contains_text(output, "Logged in using ChatGPT"@),
    ensures
        completed_status(Some(0i32), output) == CodexAuthStatus::LoggedInUsingChatGpt,
{
    reveal_strlit("Logged in using ChatGPT");
    reveal_strlit("logged in using chatgpt");
    assert(ascii_lower("Logged in using ChatGPT"@) =~= "logged in using chatgpt"@);
    law_chatgpt_login_in_any_case_is_ready(output, "Logged in using ChatGPT"@);
}

/// Whether an output reports a missing login does not depend on ASCII
/// case either.
pub proof fn law_missing_login_ignores_ascii_case(output: Seq<char>)
    ensures
        mentions_missing_login_text(output) == mentions_missing_login_text(ascii_lower(output)),
{
    lemma_ascii_lower_twice(output);
}

/// A session is ready only when `codex login status` completed, exited 0
/// and reported a ChatGPT login; then, and only then, the readiness reads
/// "Codex CLI ChatGPT session is ready.". A missing CLI, a time-out or a
/// failed start is never ready.
pub proof fn law_ready_only_after_a_chatgpt_login(
    r: CodexProviderAuthReadiness,
    run: CodexLoginStatusRun,
)
    requires
        login_status_readiness(r, run),
    ensures
        r.ready == (r.status == CodexAuthStatus::LoggedInUsingChatGpt),
        r.ready <==> (run matches CodexLoginStatusRun::Completed(output)
            && output.spec_exit_code() == Some(0i32) && mentions_chatgpt_login_text(
            output.spec_stdout() + "\n"@ + output.spec_stderr(),
        )),
        r.ready <==> r.diagnostic@ == "Codex CLI ChatGPT session is ready."@,
        run is MissingCli ==> r.status == CodexAuthStatus::MissingCli,
        run is TimedOut ==> r.status == CodexAuthStatus::Timeout,
        r.command_surface@ == "codex login status"@,
{
    reveal_strlit("Codex CLI ChatGPT session is ready.");
    reveal_strlit("Codex CLI was not found on PATH.");
    reveal_strlit("Codex CLI is installed but not logged in.");
    reveal_strlit("Codex CLI auth check timed out.");
    reveal_strlit("Codex CLI auth check failed.");
    assert("Codex CLI ChatGPT session is ready."@[10] != "Codex CLI was not found on PATH."@[10]);
    assert("Codex CLI ChatGPT session is ready."@[10] != "Codex CLI is installed but not logged in."@[10]);
    assert("Codex CLI ChatGPT session is ready."@[10] != "Codex CLI auth check timed out."@[10]);
    assert("Codex CLI ChatGPT session is ready."@[10] != "Codex CLI auth check failed."@[10]);
}

/// Classifies a finished `codex login status`: ready only when it exited 0
/// and reported a ChatGPT login.
pub fn classify_completed_output(output: &CodexAuthCommandOutput) -> (r:
    CodexProviderAuthReadiness)
    ensures
        is_readiness(
            r,
            completed_status(
                output.spec_exit_code(),
                output.spec_stdout() + "\n"@ + output.spec_stderr(),
            ),
            completed_status(
                output.spec_exit_code(),
                output.spec_stdout() + "\n"@ + output.spec_stderr(),
            ) == CodexAuthStatus::LoggedInUsingChatGpt,
            output.spec_stdout().len() != 0 || output.spec_stderr().len() != 0,
        ),
{
    let combined = output.combined_output();
    if output.is_success() && mentions_chatgpt_login(combined.as_str()) {
        return readiness_with_redaction(
            CodexAuthStatus::LoggedInUsingChatGpt,
            true,
            output.has_output(),
        );
    }
    if mentions_missing_login(combined.as_str()) {
        return readiness_with_redaction(CodexAuthStatus::NotLoggedIn, false, output.has_output());
    }
    readiness_with_redaction(CodexAuthStatus::UnknownFailure, false, output.has_output())
}

/// The readiness reported for each outcome of `codex login status`.
pub open spec fn login_status_readiness(
    r: CodexProviderAuthReadiness,
    run: CodexLoginStatusRun,
) -> bool {
    match run {
        CodexLoginStatusRun::Completed(output) => {
            let status = completed_status(
                output.spec_exit_code(),
                output.spec_stdout() + "\n"@ + output.spec_stderr(),
            );
            is_readiness(
                r,
                status,
                status == CodexAuthStatus::LoggedInUsingChatGpt,
                output.spec_stdout().len() != 0 || output.spec_stderr().len() != 0,
            )
        },
        CodexLoginStatusRun::MissingCli => is_readiness(r, CodexAuthStatus::MissingCli, false, false),
        CodexLoginStatusRun::TimedOut => is_readiness(r, CodexAuthStatus::Timeout, false, false),
        CodexLoginStatusRun::FailedToStart => is_readiness(
            r,
            CodexAuthStatus::UnknownFailure,
            false,
            false,
        ),
    }
}

/// The readiness for an outcome of `codex login status`.
pub fn readiness_for_login_status(run: &CodexLoginStatusRun) -> (r: CodexProviderAuthReadiness)
    ensures
        login_status_readiness(r, *run),
{
    match run {
        CodexLoginStatusRun::Completed(output) => classify_completed_output(output),
        CodexLoginStatusRun::MissingCli => readiness(CodexAuthStatus::MissingCli, false),
        CodexLoginStatusRun::TimedOut => readiness(CodexAuthStatus::Timeout, false),
        CodexLoginStatusRun::FailedToStart => readiness(CodexAuthStatus::UnknownFailure, false),
    }
}

// ---------------------------------------------------------------------------
// Runner and probe
// ---------------------------------------------------------------------------

pub enum CodexSetupActionRun {
    Installed(CodexAuthCommandOutput),
    AlreadyInstalled,
    MissingCurl,
    CurlFailed(CodexAuthCommandOutput),
    InstallerFailed(CodexAuthCommandOutput),
    TimedOut(CodexAuthCommandOutput),
    Unsupported,
    Failed(CodexAuthCommandOutput),
}

pub enum CodexLoginLaunchRun {
    Launched,
    MissingCli,
    FailedToStart(CodexAuthCommandOutput),
}

/// Runs the `codex` commands and checks paths on disk. The process runner
/// of the app implements it; tests implement it with fixed answers.
pub trait CodexAuthCommandRunner: ExecutableLookup {
    fn run_login_status(&self, executable: &String, timeout_millis: u64) -> CodexLoginStatusRun;

    /// Installs Codex CLI; a runner that cannot install reports it as
    /// unsupported.
    fn run_codex_install(&self, timeout_millis: u64) -> (r: CodexSetupActionRun)
        default_ensures
            r is Unsupported,
    {
        CodexSetupActionRun::Unsupported
    }

    /// Launches `codex login`; a runner that cannot launch it reports a
    /// failed start with no output.
    fn launch_codex_login(&self, executable: &String, timeout_millis: u64) -> (r:
        CodexLoginLaunchRun)
        default_ensures
            r matches CodexLoginLaunchRun::FailedToStart(o) && is_empty_output(o),
    {
        proof {
            reveal_strlit("");
        }
        CodexLoginLaunchRun::FailedToStart(CodexAuthCommandOutput::new(None, "", ""))
    }
}

/// Checks whether Codex CLI is logged in with ChatGPT: a missing executable
/// reports `MissingCli`; otherwise the outcome of `codex login status` is
/// classified as [`readiness_for_login_status`] states.
pub fn probe_codex_provider_auth_with_runner<R: CodexAuthCommandRunner>(
    options: &CodexAuthProbeOptions,
    runner: &R,
) -> (r: CodexProviderAuthReadiness)
    ensures
        exists|found: Option<Seq<char>>|
            #[trigger] resolution(
                runner,
                options.spec_executable_name(),
                options.spec_search_paths(),
                found,
            ) && match found {
                None => is_readiness(r, CodexAuthStatus::MissingCli, false, false),
                Some(e) => exists|c: String, run: CodexLoginStatusRun|
                    c@ == e && #[trigger] call_ensures(
                        R::run_login_status,
                        (runner, &c, options.spec_timeout_millis()),
                        run,
                    ) && login_status_readiness(r, run),
            },
        r.ready ==> r.status == CodexAuthStatus::LoggedInUsingChatGpt,
{
    let executable = match resolve_executable(
        options.executable_name(),
        options.search_paths(),
        runner,
    ) {
        Some(executable) => executable,
        None => return readiness(CodexAuthStatus::MissingCli, false),
    };
    let run = runner.run_login_status(&executable, options.timeout_millis());
    let r = readiness_for_login_status(&run);
    assert(login_status_readiness(r, run));
    assert(call_ensures(R::run_login_status, (runner, &executable, options.spec_timeout_millis()), run));
    r
}

// ---------------------------------------------------------------------------
// Pipe output limit
// ---------------------------------------------------------------------------

pub enum PipeReadError {
    ReadFailed,
    OutputLimitExceeded,
    TimedOut,
}

/// Appends a chunk read from a child's pipe, refusing to hold more than the
/// 1 MiB output limit.
pub fn append_limited_chunk(output: &mut Vec<u8>, chunk: &[u8]) -> (r: Result<(), PipeReadError>)
    ensures
        old(output)@.len() + chunk@.len() <= PIPE_OUTPUT_BYTE_LIMIT ==> r is Ok,
        old(output)@.len() + chunk@.len() <= PIPE_OUTPUT_BYTE_LIMIT ==> final(output)@ == old(output)@ + chunk@,
        old(output)@.len() + chunk@.len() > PIPE_OUTPUT_BYTE_LIMIT ==> r matches Err(PipeReadError::OutputLimitExceeded),
        old(output)@.len() + chunk@.len() > PIPE_OUTPUT_BYTE_LIMIT ==> final(output)@ == old(output)@,
{
    if chunk.len() > PIPE_OUTPUT_BYTE_LIMIT || output.len() > PIPE_OUTPUT_BYTE_LIMIT - chunk.len() {
        return Err(PipeReadError::OutputLimitExceeded);
    }
    let ghost start = output@;
    let n = chunk.len();
    for i in 0..n
        invariant
            n == chunk@.len(),
            output@ == start + chunk@.take(i as int),
    {
        output.push(chunk[i]);
        assert(chunk@.take(i + 1) == chunk@.take(i as int).push(chunk@[i as int]));
    }
    assert(chunk@.take(n as int) == chunk@);
    Ok(())
}

// ---------------------------------------------------------------------------
// Process runs
// ---------------------------------------------------------------------------

/// The arguments of the `curl` download of the standalone installer.
pub const CURL_INSTALL_ARGS: [&'static str; 7] = [
    "--fail",
    "--silent",
    "--show-error",
    "--location",
    "--max-time",
    "30",
    "https://chatgpt.com/codex/install.sh",
];

/// The arguments that start a login.
pub const LOGIN_ARGS: [&'static str; 1] = ["login"];

/// The arguments that ask for the login status.
pub const LOGIN_STATUS_ARGS: [&'static str; 2] = ["login", "status"];

/// The only variables passed on to a child process (when set and not
/// empty).
pub const SANITIZED_ENV_KEYS: [&'static str; 13] = [
    "HOME",
    "PATH",
    "TMPDIR",
    "TMP",
    "TEMP",
    "LANG",
    "LC_ALL",
    "LC_CTYPE",
    "LC_MESSAGES",
    "LC_COLLATE",
    "LC_TIME",
    "LC_NUMERIC",
    "LC_MONETARY",
];

/// The text of bytes decoded as UTF-8 with invalid sequences replaced.
pub uninterp spec fn utf8_lossy(bytes: Seq<u8>) -> Seq<char>;

/// `String::from_utf8_lossy` from std: the text of the bytes, with
/// U+FFFD in place of each invalid sequence; valid UTF-8 decodes as is.
#[verifier::external_body]
pub(crate) fn lossy_text(bytes: &[u8]) -> (r: String)
    ensures
        r@ == utf8_lossy(bytes@),
        vstd::utf8::valid_utf8(bytes@) ==> r@ == vstd::utf8::decode_utf8(bytes@),
{
    String::from_utf8_lossy(bytes).into_owned()
}

/// The environment of a child process: the allowed variables, in the
/// order of [`SANITIZED_ENV_KEYS`], that are set to a non-empty value;
/// `values[i]` is the value of the i-th key.
pub open spec fn kept_env(values: Seq<Option<String>>, n: int) -> Seq<(Seq<char>, Seq<char>)>
    decreases n,
{
    if n <= 0 {
        Seq::empty()
    } else {
        let prev = kept_env(values, n - 1);
        match values[n - 1] {
            Some(v) => if v@.len() > 0 {
                prev.push((SANITIZED_ENV_KEYS[n - 1]@, v@))
            } else {
                prev
            },
            None => prev,
        }
    }
}

pub fn sanitized_env(values: &Vec<Option<String>>) -> (r: Vec<(String, String)>)
    requires
        values@.len() == SANITIZED_ENV_KEYS.len(),
    ensures
        r@.map_values(|e: (String, String)| (e.0@, e.1@)) == kept_env(values@, 13),
{
    let mut env: Vec<(String, String)> = Vec::new();
    for i in 0..13
        invariant
            values@.len() == 13,
            env@.map_values(|e: (String, String)| (e.0@, e.1@)) == kept_env(values@, i as int),
    {
        let ghost before = env@.map_values(|e: (String, String)| (e.0@, e.1@));
        match &values[i] {
            Some(v) => {
                if !v.as_str().is_empty() {
                    let entry = (owned(SANITIZED_ENV_KEYS[i]), v.clone());
                    env.push(entry);
                    assert(env@.map_values(|e: (String, String)| (e.0@, e.1@)) =~= before.push(
                        (entry.0@, entry.1@),
                    ));
                }
            },
            None => {},
        }
    }
    env
}

/// Where the standalone installer puts `codex`: `~/.local/bin`, when a
/// non-empty home directory is known.
pub fn codex_install_dir(home: Option<String>) -> (r: Option<String>)
    ensures
        match home {
            Some(h) => if h@.len() > 0 {
                r matches Some(d) && d@ == join_path(join_path(h@, ".local"@), "bin"@)
            } else {
                r is None
            },
            None => r is None,
        },
{
    match home {
        Some(h) => {
            if h.as_str().is_empty() {
                return None;
            }
            let local = join(&h, ".local");
            Some(join(&local, "bin"))
        },
        None => None,
    }
}

/// What a finished child process left: its exit code and raw output.
pub struct RawProcessOutput {
    pub exit_code: Option<i32>,
    pub stdout: Vec<u8>,
    pub stderr: Vec<u8>,
}

impl RawProcessOutput {
    pub fn is_success(&self) -> (r: bool)
        ensures
            r == (self.exit_code == Some(0i32)),
    {
        match self.exit_code {
            Some(code) => code == 0,
            None => false,
        }
    }

    /// The output as text, invalid UTF-8 replaced.
    pub fn into_command_output(self) -> (r: CodexAuthCommandOutput)
        ensures
            r.spec_exit_code() == self.exit_code,
            r.spec_stdout() == utf8_lossy(self.stdout@),
            r.spec_stderr() == utf8_lossy(self.stderr@),
    {
        let stdout = lossy_text(self.stdout.as_slice());
        let stderr = lossy_text(self.stderr.as_slice());
        CodexAuthCommandOutput::new(self.exit_code, stdout.as_str(), stderr.as_str())
    }
}

/// How a child process run ended.
pub enum ProcessRun {
    Completed(RawProcessOutput),
    MissingExecutable,
    TimedOut(CodexAuthCommandOutput),
    FailedToStart(CodexAuthCommandOutput),
}

/// `o` is the command output of no run at all: no exit code, nothing
/// printed.
pub open spec fn is_empty_output(o: CodexAuthCommandOutput) -> bool {
    o.spec_exit_code() is None && o.spec_stdout().len() == 0 && o.spec_stderr().len() == 0
}

/// `o` is the text form of a raw process output.
pub open spec fn is_text_of(o: CodexAuthCommandOutput, raw: RawProcessOutput) -> bool {
    o.spec_exit_code() == raw.exit_code && o.spec_stdout() == utf8_lossy(raw.stdout@)
        && o.spec_stderr() == utf8_lossy(raw.stderr@)
}

/// The installer script a `curl` download run gave, or the setup outcome
/// when the download did not succeed.
pub fn installer_from_download(run: ProcessRun) -> (r: Result<Vec<u8>, CodexSetupActionRun>)
    ensures
        match run {
            ProcessRun::Completed(raw) => if raw.exit_code == Some(0i32) {
                r matches Ok(script) && script@ == raw.stdout@
            } else {
                r matches Err(CodexSetupActionRun::CurlFailed(o)) && is_text_of(o, raw)
            },
            ProcessRun::MissingExecutable => r matches Err(CodexSetupActionRun::MissingCurl),
            ProcessRun::TimedOut(o) => r matches Err(CodexSetupActionRun::TimedOut(x)) && x == o,
            ProcessRun::FailedToStart(o) => r matches Err(CodexSetupActionRun::Failed(x)) && x == o,
        },
{
    match run {
        ProcessRun::Completed(raw) => {
            if raw.is_success() {
                Ok(raw.stdout)
            } else {
                Err(CodexSetupActionRun::CurlFailed(raw.into_command_output()))
            }
        },
        ProcessRun::MissingExecutable => Err(CodexSetupActionRun::MissingCurl),
        ProcessRun::TimedOut(o) => Err(CodexSetupActionRun::TimedOut(o)),
        ProcessRun::FailedToStart(o) => Err(CodexSetupActionRun::Failed(o)),
    }
}

/// The setup outcome of running the installer script: installed when it
/// exited 0, the installer failed on another exit, timed out, or failed
/// without output when it could not run.
pub fn setup_run_from_installer(run: ProcessRun) -> (r: CodexSetupActionRun)
    ensures
        match run {
            ProcessRun::Completed(raw) => if raw.exit_code == Some(0i32) {
                r matches CodexSetupActionRun::Installed(o) && is_text_of(o, raw)
            } else {
                r matches CodexSetupActionRun::InstallerFailed(o) && is_text_of(o, raw)
            },
            ProcessRun::MissingExecutable => r matches CodexSetupActionRun::Failed(o)
                && is_empty_output(o),
            ProcessRun::FailedToStart(_) => r matches CodexSetupActionRun::Failed(o)
                && is_empty_output(o),
            ProcessRun::TimedOut(o) => r matches CodexSetupActionRun::TimedOut(x) && x == o,
        },
{
    proof {
        reveal_strlit("");
    }
    match run {
        ProcessRun::Completed(raw) => {
            if raw.is_success() {
                CodexSetupActionRun::Installed(raw.into_command_output())
            } else {
                CodexSetupActionRun::InstallerFailed(raw.into_command_output())
            }
        },
        ProcessRun::MissingExecutable => CodexSetupActionRun::Failed(
            CodexAuthCommandOutput::new(None, "", ""),
        ),
        ProcessRun::FailedToStart(_) => CodexSetupActionRun::Failed(
            CodexAuthCommandOutput::new(None, "", ""),
        ),
        ProcessRun::TimedOut(o) => CodexSetupActionRun::TimedOut(o),
    }
}

/// The setup outcome when no install directory is known.
pub fn setup_run_without_install_dir() -> (r: CodexSetupActionRun)
    ensures
        r matches CodexSetupActionRun::Failed(o) && is_empty_output(o),
{
    proof {
        reveal_strlit("");
    }
    CodexSetupActionRun::Failed(CodexAuthCommandOutput::new(None, "", ""))
}

/// The outcome of `codex login status` once the process exited and its
/// output was read.
pub fn login_status_from_exit(exit_code: Option<i32>, stdout: &[u8], stderr: &[u8]) -> (r:
    CodexLoginStatusRun)
    ensures
        r matches CodexLoginStatusRun::Completed(o) && o.spec_exit_code() == exit_code
            && o.spec_stdout() == utf8_lossy(stdout@) && o.spec_stderr() == utf8_lossy(stderr@),
{
    let out = lossy_text(stdout);
    let err = lossy_text(stderr);
    CodexLoginStatusRun::Completed(CodexAuthCommandOutput::new(exit_code, out.as_str(), err.as_str()))
}

} // verus!
