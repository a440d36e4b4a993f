//! Where to look for a Python interpreter, and the environment the child
//! process gets. The search is a walk over a fixed plan: [`PythonSearch`]
//! says at each turn what to do next (probe a candidate by running it
//! with `--version`, list a directory, run `which`, or stop with an
//! answer), and the caller does it and reports back. The first candidate
//! that runs is the interpreter; when none does, `python3` is.
use vstd::prelude::*;
use crate::text::{trim, str_trim, concat};
use crate::rpc::pairs_view;
use crate::envfile::pairs_map;

verus! {

/// One step of the search plan.
pub enum PythonSource {
    /// Probe this path (or command name).
    Path(String),
    /// The glob `dir/*rest`: for each entry `e` of `dir`, in listing order,
    /// probe `e` + `rest` when that is a file.
    Glob { dir: String, rest: String },
    /// Run `which` with this command name and probe the path it prints.
    Which(String),
}

/// A step of the plan, by the characters of its texts.
pub enum SourceSpec {
    Path(Seq<char>),
    Glob(Seq<char>, Seq<char>),
    Which(Seq<char>),
}

impl View for PythonSource {
    type V = SourceSpec;

    open spec fn view(&self) -> SourceSpec {
        match self {
            PythonSource::Path(p) => SourceSpec::Path(p@),
            PythonSource::Glob { dir, rest } => SourceSpec::Glob(dir@, rest@),
            PythonSource::Which(c) => SourceSpec::Which(c@),
        }
    }
}

/// The order in which interpreters are tried: the one that
/// `CHATTERBOX_PYTHON` names (when set); pyenv's shim under `home`; every
/// installed pyenv version, `home/.pyenv/versions/*/bin/python3`; what
/// `which` finds for `python3` and `python`; four usual system paths; and
/// the bare command names, looked up on `PATH`. `home` is taken literally.
pub open spec fn python_plan(override_path: Option<Seq<char>>, home: Seq<char>) -> Seq<SourceSpec> {
    let first = match override_path {
        Some(p) => seq![SourceSpec::Path(p)],
        None => seq![],
    };
    first + seq![
        SourceSpec::Path(home + "/.pyenv/shims/python3"@),
        SourceSpec::Glob(home + "/.pyenv/versions"@, "/bin/python3"@),
        SourceSpec::Which("python3"@),
        SourceSpec::Which("python"@),
        SourceSpec::Path("/opt/homebrew/bin/python3"@),
        SourceSpec::Path("/usr/local/bin/python3"@),
        SourceSpec::Path("/usr/bin/python3"@),
        SourceSpec::Path("/usr/bin/python"@),
        SourceSpec::Path("python3"@),
        SourceSpec::Path("python"@),
    ]
}

/// The characters of an optional text.
pub open spec fn opt_view(o: Option<String>) -> Option<Seq<char>> {
    match o {
        Some(p) => Some(p@),
        None => None,
    }
}

/// The candidates of a glob step: for each listed entry whose candidate
/// (`entry` + `rest`) is a file, that candidate, in listing order.
pub open spec fn glob_candidates(entries: Seq<(String, bool)>, rest: Seq<char>) -> Seq<Seq<char>>
    decreases entries.len(),
{
    if entries.len() == 0 {
        seq![]
    } else {
        let e = entries.last();
        glob_candidates(entries.drop_last(), rest) + if e.1 {
            seq![e.0@ + rest]
        } else {
            seq![]
        }
    }
}

/// The steps of the search, in order; `override_path` is the value of
/// `CHATTERBOX_PYTHON` when that is set, `home` that of `HOME`.
pub fn python_search_plan(override_path: Option<String>, home: &str) -> (r: Vec<PythonSource>)
    ensures
        r@.map_values(|s: PythonSource| s@) == python_plan(opt_view(override_path), home@),
{
    let ghost ov = opt_view(override_path);
    let mut plan: Vec<PythonSource> = Vec::new();
    match override_path {
        Some(p) => plan.push(PythonSource::Path(p)),
        None => {},
    }
    plan.push(PythonSource::Path(concat(home, "/.pyenv/shims/python3")));
    plan.push(
        PythonSource::Glob {
            dir: concat(home, "/.pyenv/versions"),
            rest: "/bin/python3".to_owned(),
        },
    );
    plan.push(PythonSource::Which("python3".to_owned()));
    plan.push(PythonSource::Which("python".to_owned()));
    plan.push(PythonSource::Path("/opt/homebrew/bin/python3".to_owned()));
    plan.push(PythonSource::Path("/usr/local/bin/python3".to_owned()));
    plan.push(PythonSource::Path("/usr/bin/python3".to_owned()));
    plan.push(PythonSource::Path("/usr/bin/python".to_owned()));
    plan.push(PythonSource::Path("python3".to_owned()));
    plan.push(PythonSource::Path("python".to_owned()));
    assert(plan@.map_values(|s: PythonSource| s@) =~= python_plan(ov, home@));
    plan
}

/// The candidate that a glob step gets from a listed entry.
pub fn glob_candidate(entry: &str, rest: &str) -> (r: String)
    ensures
        r@ == entry@ + rest@,
{
    concat(entry, rest)
}

/// The interpreter used when no candidate runs.
pub fn default_python() -> (r: String)
    ensures
        r@ == "python3"@,
{
    "python3".to_owned()
}

/// What the search asks for next.
pub enum SearchAction {
    /// Run this candidate with `--version`; report with
    /// [`PythonSearch::probed`].
    Probe(String),
    /// List `dir`; report each entry with whether entry + `rest` is a file,
    /// with [`PythonSearch::listed`].
    List { dir: String, rest: String },
    /// Run `which` with this command name; report its output when it
    /// succeeds, with [`PythonSearch::which_answered`].
    Which(String),
    /// The search is over: this is the interpreter.
    Finish(String),
}

/// An action, by the characters of its texts.
pub enum ActionSpec {
    Probe(Seq<char>),
    List(Seq<char>, Seq<char>),
    Which(Seq<char>),
    Finish(Seq<char>),
}

impl View for SearchAction {
    type V = ActionSpec;

    open spec fn view(&self) -> ActionSpec {
        match self {
            SearchAction::Probe(p) => ActionSpec::Probe(p@),
            SearchAction::List { dir, rest } => ActionSpec::List(dir@, rest@),
            SearchAction::Which(c) => ActionSpec::Which(c@),
            SearchAction::Finish(p) => ActionSpec::Finish(p@),
        }
    }
}

/// The step taken last, when `steps` steps of `plan` were taken.
pub open spec fn current_step_of(plan: Seq<SourceSpec>, steps: int) -> Option<SourceSpec> {
    if 0 < steps <= plan.len() {
        Some(plan[steps - 1])
    } else {
        None
    }
}

/// What [`PythonSearch::next_action`] gives from a search over `plan` that
/// took `steps` steps, with `waiting` candidates and `found`: the action,
/// then the steps taken and the waiting candidates after it.
pub open spec fn next_action_spec(
    plan: Seq<SourceSpec>,
    steps: int,
    waiting: Seq<Seq<char>>,
    found: Option<Seq<char>>,
) -> (ActionSpec, int, Seq<Seq<char>>) {
    match found {
        Some(p) => (ActionSpec::Finish(p), steps, waiting),
        None => if waiting.len() > 0 {
            (ActionSpec::Probe(waiting[0]), steps, waiting)
        } else if 0 <= steps < plan.len() {
            match plan[steps] {
                SourceSpec::Path(p) => (ActionSpec::Probe(p), steps + 1, seq![p]),
                SourceSpec::Glob(d, rest) => (ActionSpec::List(d, rest), steps + 1, waiting),
                SourceSpec::Which(c) => (ActionSpec::Which(c), steps + 1, waiting),
            }
        } else {
            (ActionSpec::Finish("python3"@), steps, waiting)
        },
    }
}

/// The waiting candidates and the interpreter found after the next
/// waiting candidate was probed (`runs` telling whether it ran).
pub open spec fn probed_spec(waiting: Seq<Seq<char>>, found: Option<Seq<char>>, runs: bool) -> (
    Seq<Seq<char>>,
    Option<Seq<char>>,
) {
    if waiting.len() > 0 {
        (waiting.drop_first(), if runs {
            Some(waiting[0])
        } else {
            found
        })
    } else {
        (waiting, found)
    }
}

/// The waiting candidates after a listing reported `entries`.
pub open spec fn listed_spec(
    current: Option<SourceSpec>,
    waiting: Seq<Seq<char>>,
    entries: Seq<(String, bool)>,
) -> Seq<Seq<char>> {
    match current {
        Some(SourceSpec::Glob(_, rest)) => waiting + glob_candidates(entries, rest),
        _ => waiting,
    }
}

/// The waiting candidates after `which` reported `output`.
pub open spec fn which_spec(
    current: Option<SourceSpec>,
    waiting: Seq<Seq<char>>,
    output: Option<Seq<char>>,
) -> Seq<Seq<char>> {
    match (current, output) {
        (Some(SourceSpec::Which(_)), Some(out)) => waiting.push(trim(out)),
        _ => waiting,
    }
}

/// A search for an interpreter under way: the plan, how many of its steps
/// were taken, the candidates waiting to be probed, and the interpreter
/// found, if any.
pub struct PythonSearch {
    plan: Vec<PythonSource>,
    next_step: usize,
    queue: Vec<String>,
    found: Option<String>,
}

impl PythonSearch {
    /// The plan of the search.
    pub closed spec fn plan_view(&self) -> Seq<SourceSpec> {
        self.plan@.map_values(|s: PythonSource| s@)
    }

    /// How many steps of the plan were taken.
    pub closed spec fn steps_taken(&self) -> int {
        self.next_step as int
    }

    /// The candidates waiting to be probed, next first.
    pub closed spec fn waiting(&self) -> Seq<Seq<char>> {
        self.queue@.map_values(|s: String| s@)
    }

    /// The interpreter found, if any.
    pub closed spec fn found_view(&self) -> Option<Seq<char>> {
        opt_view(self.found)
    }

    /// The step taken last, if any.
    pub open spec fn current_step(&self) -> Option<SourceSpec> {
        current_step_of(self.plan_view(), self.steps_taken())
    }

    /// A search over [`python_search_plan`]`(override_path, home)`, nothing
    /// done yet.
    pub fn new(override_path: Option<String>, home: &str) -> (r: Self)
        ensures
            r.plan_view() == python_plan(opt_view(override_path), home@),
            r.steps_taken() == 0,
            r.waiting() == Seq::<Seq<char>>::empty(),
            r.found_view() is None,
    {
        let plan = python_search_plan(override_path, home);
        let r = PythonSearch { plan, next_step: 0, queue: Vec::new(), found: None };
        assert(r.waiting() =~= Seq::<Seq<char>>::empty());
        r
    }

    /// What to do next: once an interpreter is found, finish with it;
    /// else probe the next waiting candidate; else take the next step of
    /// the plan (a path step makes that path wait and probes it); and when
    /// the plan is exhausted, finish with [`default_python`].
    pub fn next_action(&mut self) -> (r: SearchAction)
        ensures
            final(self).plan_view() == old(self).plan_view(),
            final(self).found_view() == old(self).found_view(),
            (r@, final(self).steps_taken(), final(self).waiting()) == next_action_spec(
                old(self).plan_view(),
                old(self).steps_taken(),
                old(self).waiting(),
                old(self).found_view(),
            ),
    {
        match &self.found {
            Some(p) => {
                return SearchAction::Finish(p.clone());
            },
            None => {},
        }
        if self.queue.len() > 0 {
            return SearchAction::Probe(self.queue[0].clone());
        }
        if self.next_step < self.plan.len() {
            let i = self.next_step;
            self.next_step = i + 1;
            match &self.plan[i] {
                PythonSource::Path(p) => {
                    let c = p.clone();
                    self.queue.push(c.clone());
                    assert(self.waiting() =~= seq![c@]);
                    SearchAction::Probe(c)
                },
                PythonSource::Glob { dir, rest } => {
                    SearchAction::List { dir: dir.clone(), rest: rest.clone() }
                },
                PythonSource::Which(c) => SearchAction::Which(c.clone()),
            }
        } else {
            SearchAction::Finish(default_python())
        }
    }

    /// The waiting candidate that came next was probed: it stops waiting,
    /// and becomes the interpreter if it runs.
    pub fn probed(&mut self, runs: bool)
        ensures
            final(self).plan_view() == old(self).plan_view(),
            final(self).steps_taken() == old(self).steps_taken(),
            (final(self).waiting(), final(self).found_view()) == probed_spec(
                old(self).waiting(),
                old(self).found_view(),
                runs,
            ),
    {
        if self.queue.len() > 0 {
            let ghost before = self.waiting();
            let c = self.queue.remove(0);
            assert(self.waiting() =~= before.drop_first());
            if runs {
                self.found = Some(c);
            }
        }
    }

    /// The directory of the current glob step was listed: each entry, in
    /// listing order, with whether entry + rest is a file. Those
    /// candidates that are files wait to be probed. Outside a glob step
    /// nothing changes.
    pub fn listed(&mut self, entries: Vec<(String, bool)>)
        ensures
            final(self).plan_view() == old(self).plan_view(),
            final(self).steps_taken() == old(self).steps_taken(),
            final(self).found_view() == old(self).found_view(),
            final(self).waiting() == listed_spec(old(self).current_step(), old(self).waiting(), entries@),
    {
        if self.next_step == 0 || self.next_step > self.plan.len() {
            return;
        }
        let rest = match &self.plan[self.next_step - 1] {
            PythonSource::Glob { rest, .. } => rest.clone(),
            _ => {
                return;
            },
        };
        let ghost start = self.waiting();
        let mut i: usize = 0;
        while i < entries.len()
            invariant
                i <= entries@.len(),
                self.plan_view() == old(self).plan_view(),
                self.steps_taken() == old(self).steps_taken(),
                self.found_view() == old(self).found_view(),
                self.waiting() == start + glob_candidates(entries@.take(i as int), rest@),
            decreases entries@.len() - i,
        {
            let ghost before = self.waiting();
            assert(entries@.take(i + 1).drop_last() =~= entries@.take(i as int));
            if entries[i].1 {
                let c = glob_candidate(entries[i].0.as_str(), rest.as_str());
                self.queue.push(c);
                assert(self.waiting() =~= before.push(entries@[i as int].0@ + rest@));
            }
            proof {
                assert(start + glob_candidates(entries@.take(i + 1), rest@) =~= start
                    + glob_candidates(entries@.take(i as int), rest@) + if entries@[i as int].1 {
                    seq![entries@[i as int].0@ + rest@]
                } else {
                    seq![]
                });
            }
            i += 1;
        }
        assert(entries@.take(entries@.len() as int) =~= entries@);
    }

    /// `which` answered for the current step: its output when it succeeded.
    /// The path it printed, trimmed, waits to be probed. Outside a `which`
    /// step nothing changes.
    pub fn which_answered(&mut self, output: Option<String>)
        ensures
            final(self).plan_view() == old(self).plan_view(),
            final(self).steps_taken() == old(self).steps_taken(),
            final(self).found_view() == old(self).found_view(),
            final(self).waiting() == which_spec(
                old(self).current_step(),
                old(self).waiting(),
                opt_view(output),
            ),
    {
        if self.next_step == 0 || self.next_step > self.plan.len() {
            return;
        }
        match &self.plan[self.next_step - 1] {
            PythonSource::Which(_) => {},
            _ => {
                return;
            },
        }
        match output {
            Some(out) => {
                let ghost before = self.waiting();
                let c = str_trim(out.as_str());
                self.queue.push(c);
                assert(self.waiting() =~= before.push(trim(out@)));
            },
            None => {},
        }
    }
}

/// The `PATH` of the child process: pyenv's shims under `home`, the usual
/// binary directories, then the current `PATH`, joined by `:`.
pub fn augment_path(home: &str, current: &str) -> (r: String)
    ensures
        r@ == home@ + "/.pyenv/shims"@ + ":"@ + "/opt/homebrew/bin"@ + ":"@
            + "/opt/homebrew/sbin"@ + ":"@ + "/usr/local/bin"@ + ":"@ + "/usr/bin"@ + ":"@
            + "/bin"@ + ":"@ + "/usr/sbin"@ + ":"@ + "/sbin"@ + ":"@ + current@,
{
    let mut r = home.to_owned();
    r.append("/.pyenv/shims");
    r.append(":");
    r.append("/opt/homebrew/bin");
    r.append(":");
    r.append("/opt/homebrew/sbin");
    r.append(":");
    r.append("/usr/local/bin");
    r.append(":");
    r.append("/usr/bin");
    r.append(":");
    r.append("/bin");
    r.append(":");
    r.append("/usr/sbin");
    r.append(":");
    r.append("/sbin");
    r.append(":");
    r.append(current);
    r
}

/// The variables set for the child process on top of the inherited
/// environment, in the order they are applied (a later one wins): those
/// of the `.env` file, then unbuffered UTF-8 output for Python, then the
/// `PATH` from [`augment_path`].
pub fn child_environment(file_vars: Vec<(String, String)>, path: String) -> (r: Vec<
    (String, String),
>)
    ensures
        pairs_view(r@) == pairs_view(file_vars@) + seq![
            ("PYTHONUNBUFFERED"@, "1"@),
            ("PYTHONIOENCODING"@, "utf-8"@),
            ("PATH"@, path@),
        ],
{
    let ghost before = pairs_view(file_vars@);
    let ghost p = path@;
    let mut r = file_vars;
    r.push(("PYTHONUNBUFFERED".to_owned(), "1".to_owned()));
    r.push(("PYTHONIOENCODING".to_owned(), "utf-8".to_owned()));
    r.push(("PATH".to_owned(), path));
    assert(pairs_view(r@) =~= before + seq![
        ("PYTHONUNBUFFERED"@, "1"@),
        ("PYTHONIOENCODING"@, "utf-8"@),
        ("PATH"@, p),
    ]);
    r
}

/// The error of a child process that could not be started.
pub fn start_error_message(detail: &str) -> (r: String)
    ensures
        r@ == "Failed to start Python: "@ + detail@,
{
    concat("Failed to start Python: ", detail)
}

/// The environment that a process inheriting `base` sees after the
/// variables `pairs` are set in order (as `Command::envs` sets them).
pub open spec fn with_overrides(
    base: Map<Seq<char>, Seq<char>>,
    pairs: Seq<(Seq<char>, Seq<char>)>,
) -> Map<Seq<char>, Seq<char>>
    decreases pairs.len(),
{
    if pairs.len() == 0 {
        base
    } else {
        with_overrides(base, pairs.drop_last()).insert(pairs.last().0, pairs.last().1)
    }
}

proof fn lemma_with_overrides_pairs(base: Map<Seq<char>, Seq<char>>, s: Seq<(String, String)>)
    ensures
        with_overrides(base, pairs_view(s)) == base.union_prefer_right(pairs_map(s)),
    decreases s.len(),
{
    if s.len() > 0 {
        assert(pairs_view(s).drop_last() =~= pairs_view(s.drop_last()));
        lemma_with_overrides_pairs(base, s.drop_last());
        assert(with_overrides(base, pairs_view(s)) =~= base.union_prefer_right(pairs_map(s)));
    } else {
        assert(base.union_prefer_right(pairs_map(s)) =~= base);
    }
}

proof fn lemma_with_overrides_concat(
    base: Map<Seq<char>, Seq<char>>,
    a: Seq<(Seq<char>, Seq<char>)>,
    b: Seq<(Seq<char>, Seq<char>)>,
)
    ensures
        with_overrides(base, a + b) == with_overrides(with_overrides(base, a), b),
    decreases b.len(),
{
    if b.len() == 0 {
        assert(a + b =~= a);
    } else {
        assert((a + b).drop_last() =~= a + b.drop_last());
        lemma_with_overrides_concat(base, a, b.drop_last());
    }
}

/// The `.env` file takes precedence over the inherited environment: every
/// variable it defines reaches the child process with the file's value,
/// whatever the environment held, but for the three variables that the
/// client itself sets last.
pub proof fn law_env_file_takes_precedence(
    inherited: Map<Seq<char>, Seq<char>>,
    file_vars: Seq<(String, String)>,
    path: Seq<char>,
    name: Seq<char>,
)
    requires
        pairs_map(file_vars).contains_key(name),
        name != "PYTHONUNBUFFERED"@,
        name != "PYTHONIOENCODING"@,
        name != "PATH"@,
    ensures
        ({
            let child = with_overrides(
                inherited,
                pairs_view(file_vars) + seq![
                    ("PYTHONUNBUFFERED"@, "1"@),
                    ("PYTHONIOENCODING"@, "utf-8"@),
                    ("PATH"@, path),
                ],
            );
            child.contains_key(name) && child[name] == pairs_map(file_vars)[name]
        }),
{
    let fixed = seq![
        ("PYTHONUNBUFFERED"@, "1"@),
        ("PYTHONIOENCODING"@, "utf-8"@),
        ("PATH"@, path),
    ];
    lemma_with_overrides_concat(inherited, pairs_view(file_vars), fixed);
    lemma_with_overrides_pairs(inherited, file_vars);
    let mid = with_overrides(inherited, pairs_view(file_vars));
    assert(fixed.drop_last() =~= seq![("PYTHONUNBUFFERED"@, "1"@), ("PYTHONIOENCODING"@, "utf-8"@)]);
    assert(fixed.drop_last().drop_last() =~= seq![("PYTHONUNBUFFERED"@, "1"@)]);
    assert(fixed.drop_last().drop_last().drop_last() =~= Seq::<(Seq<char>, Seq<char>)>::empty());
    reveal_with_fuel(with_overrides, 4);
}

/// The candidates that one plan step yields on a machine where a glob
/// step over `dir` and `rest` yields `glob(dir, rest)` (the entries of `dir`,
/// in listing order, whose entry + `rest` is a file, each with `rest`
/// appended) and `which(cmd)` is what a successful `which cmd` prints.
pub open spec fn step_candidates(
    step: SourceSpec,
    glob: spec_fn(Seq<char>, Seq<char>) -> Seq<Seq<char>>,
    which: spec_fn(Seq<char>) -> Option<Seq<char>>,
) -> Seq<Seq<char>> {
    match step {
        SourceSpec::Path(p) => seq![p],
        SourceSpec::Glob(d, rest) => glob(d, rest),
        SourceSpec::Which(c) => match which(c) {
            Some(out) => seq![trim(out)],
            None => seq![],
        },
    }
}

/// The candidates that a plan yields, in order.
pub open spec fn plan_candidates(
    plan: Seq<SourceSpec>,
    glob: spec_fn(Seq<char>, Seq<char>) -> Seq<Seq<char>>,
    which: spec_fn(Seq<char>) -> Option<Seq<char>>,
) -> Seq<Seq<char>>
    decreases plan.len(),
{
    if plan.len() == 0 {
        seq![]
    } else {
        step_candidates(plan[0], glob, which) + plan_candidates(plan.drop_first(), glob, which)
    }
}

/// The first candidate that runs.
pub open spec fn first_running(cands: Seq<Seq<char>>, runs: spec_fn(Seq<char>) -> bool) -> Option<
    Seq<char>,
>
    decreases cands.len(),
{
    if cands.len() == 0 {
        None
    } else if runs(cands[0]) {
        Some(cands[0])
    } else {
        first_running(cands.drop_first(), runs)
    }
}

/// The first candidate that runs, else `python3`.
pub open spec fn answer_of(cands: Seq<Seq<char>>, runs: spec_fn(Seq<char>) -> bool) -> Seq<char> {
    match first_running(cands, runs) {
        Some(c) => c,
        None => "python3"@,
    }
}

/// The interpreter that the search over `python_plan(override_path, home)`
/// must find on a machine: the first candidate of the plan, in order, that
/// runs, else `python3`.
pub open spec fn python_found(
    override_path: Option<Seq<char>>,
    home: Seq<char>,
    runs: spec_fn(Seq<char>) -> bool,
    glob: spec_fn(Seq<char>, Seq<char>) -> Seq<Seq<char>>,
    which: spec_fn(Seq<char>) -> Option<Seq<char>>,
) -> Seq<char> {
    answer_of(plan_candidates(python_plan(override_path, home), glob, which), runs)
}

/// The answer a search state is headed for: the interpreter found, else
/// the first that runs among the waiting candidates and those of the
/// steps not yet taken, else `python3`.
pub open spec fn heading(
    plan: Seq<SourceSpec>,
    steps: int,
    waiting: Seq<Seq<char>>,
    found: Option<Seq<char>>,
    runs: spec_fn(Seq<char>) -> bool,
    glob: spec_fn(Seq<char>, Seq<char>) -> Seq<Seq<char>>,
    which: spec_fn(Seq<char>) -> Option<Seq<char>>,
) -> Seq<char> {
    match found {
        Some(p) => p,
        None => answer_of(waiting + plan_candidates(plan.skip(steps), glob, which), runs),
    }
}

proof fn lemma_first_running_runs(cands: Seq<Seq<char>>, runs: spec_fn(Seq<char>) -> bool)
    ensures
        first_running(cands, runs) matches Some(c) ==> runs(c),
    decreases cands.len(),
{
    if cands.len() > 0 && !runs(cands[0]) {
        lemma_first_running_runs(cands.drop_first(), runs);
    }
}

proof fn lemma_skip_step(
    plan: Seq<SourceSpec>,
    steps: int,
    glob: spec_fn(Seq<char>, Seq<char>) -> Seq<Seq<char>>,
    which: spec_fn(Seq<char>) -> Option<Seq<char>>,
)
    requires
        0 <= steps < plan.len(),
    ensures
        plan_candidates(plan.skip(steps), glob, which) == step_candidates(plan[steps], glob, which)
            + plan_candidates(plan.skip(steps + 1), glob, which),
{
    assert(plan.skip(steps).drop_first() =~= plan.skip(steps + 1));
    assert(plan.skip(steps)[0] == plan[steps]);
}

/// A search starts headed for [`python_found`], which is `python3` or an
/// interpreter that runs.
pub proof fn law_search_starts_at_answer(
    override_path: Option<Seq<char>>,
    home: Seq<char>,
    runs: spec_fn(Seq<char>) -> bool,
    glob: spec_fn(Seq<char>, Seq<char>) -> Seq<Seq<char>>,
    which: spec_fn(Seq<char>) -> Option<Seq<char>>,
)
    ensures
        heading(python_plan(override_path, home), 0, seq![], None, runs, glob, which)
            == python_found(override_path, home, runs, glob, which),
        python_found(override_path, home, runs, glob, which) == "python3"@ || runs(
            python_found(override_path, home, runs, glob, which),
        ),
{
    let plan = python_plan(override_path, home);
    assert(plan.skip(0) =~= plan);
    let c = plan_candidates(plan, glob, which);
    assert(seq![] + c =~= c);
    lemma_first_running_runs(c, runs);
}

/// Each action of a search keeps it headed for the same answer, and it
/// finishes with exactly that answer: a `Finish` gives the answer; a
/// probe is of the next waiting candidate; taking a path step keeps the
/// answer. (A glob or `which` step keeps it once reported, see
/// [`law_reports_keep_answer`].)
pub proof fn law_next_action_keeps_answer(
    plan: Seq<SourceSpec>,
    steps: int,
    waiting: Seq<Seq<char>>,
    found: Option<Seq<char>>,
    runs: spec_fn(Seq<char>) -> bool,
    glob: spec_fn(Seq<char>, Seq<char>) -> Seq<Seq<char>>,
    which: spec_fn(Seq<char>) -> Option<Seq<char>>,
)
    requires
        0 <= steps <= plan.len(),
    ensures
        ({
            let (a, s2, w2) = next_action_spec(plan, steps, waiting, found);
            let h = heading(plan, steps, waiting, found, runs, glob, which);
            &&& a matches ActionSpec::Finish(p) ==> p == h
            &&& a matches ActionSpec::Probe(p) ==> found is None && w2.len() > 0 && w2[0] == p
                && heading(plan, s2, w2, found, runs, glob, which) == h
        }),
{
    if found is None && waiting.len() == 0 {
        if steps < plan.len() {
            lemma_skip_step(plan, steps, glob, which);
            match plan[steps] {
                SourceSpec::Path(p) => {
                    assert(seq![] + plan_candidates(plan.skip(steps), glob, which) =~= seq![p]
                        + plan_candidates(plan.skip(steps + 1), glob, which));
                },
                _ => {},
            }
        } else {
            assert(plan.skip(steps) =~= Seq::<SourceSpec>::empty());
            assert(seq![] + plan_candidates(plan.skip(steps), glob, which) =~= Seq::<
                Seq<char>,
            >::empty());
        }
    }
}

/// Probing the next waiting candidate, with the machine's answer whether
/// it runs, keeps the search headed for the same answer.
pub proof fn law_probe_keeps_answer(
    plan: Seq<SourceSpec>,
    steps: int,
    waiting: Seq<Seq<char>>,
    runs: spec_fn(Seq<char>) -> bool,
    glob: spec_fn(Seq<char>, Seq<char>) -> Seq<Seq<char>>,
    which: spec_fn(Seq<char>) -> Option<Seq<char>>,
)
    requires
        waiting.len() > 0,
    ensures
        ({
            let (w2, f2) = probed_spec(waiting, None, runs(waiting[0]));
            heading(plan, steps, w2, f2, runs, glob, which) == heading(
                plan,
                steps,
                waiting,
                None,
                runs,
                glob,
                which,
            )
        }),
{
    let rest = plan_candidates(plan.skip(steps), glob, which);
    assert((waiting + rest)[0] == waiting[0]);
    assert((waiting + rest).drop_first() =~= waiting.drop_first() + rest);
}

/// Taking a glob or `which` step and reporting what the machine gives for
/// it keeps the search headed for the same answer. Together with the laws
/// above: a search whose reports follow the machine finishes with
/// [`python_found`].
pub proof fn law_reports_keep_answer(
    plan: Seq<SourceSpec>,
    steps: int,
    entries: Seq<(String, bool)>,
    output: Option<Seq<char>>,
    runs: spec_fn(Seq<char>) -> bool,
    glob: spec_fn(Seq<char>, Seq<char>) -> Seq<Seq<char>>,
    which: spec_fn(Seq<char>) -> Option<Seq<char>>,
)
    requires
        0 <= steps < plan.len(),
    ensures
        ({
            let h = heading(plan, steps, seq![], None, runs, glob, which);
            let cur = current_step_of(plan, steps + 1);
            &&& match plan[steps] {
                SourceSpec::Glob(d, rest) => glob_candidates(entries, rest) == glob(d, rest)
                    ==> heading(plan, steps + 1, listed_spec(cur, seq![], entries), None, runs, glob, which)
                    == h,
                _ => true,
            }
            &&& match plan[steps] {
                SourceSpec::Which(c) => output == which(c) ==> heading(
                    plan,
                    steps + 1,
                    which_spec(cur, seq![], output),
                    None,
                    runs,
                    glob,
                    which,
                ) == h,
                _ => true,
            }
        }),
{
    lemma_skip_step(plan, steps, glob, which);
    let tail = plan_candidates(plan.skip(steps + 1), glob, which);
    match plan[steps] {
        SourceSpec::Glob(d, rest) => {
            assert(seq![] + glob_candidates(entries, rest) =~= glob_candidates(entries, rest));
            assert(seq![] + (glob(d, rest) + tail) =~= glob(d, rest) + tail);
        },
        SourceSpec::Which(c) => {
            match output {
                Some(out) => {
                    assert(seq![].push(trim(out)) =~= seq![trim(out)]);
                },
                None => {},
            }
            assert(seq![] + (step_candidates(plan[steps], glob, which) + tail) =~= step_candidates(
                plan[steps],
                glob,
                which,
            ) + tail);
        },
        _ => {},
    }
}


/// An override only adds a leading step: the plan tries the given path
/// first, and then takes the very steps it takes when no override is given.
pub proof fn law_override_only_leads(p: Seq<char>, home: Seq<char>)
    ensures
        python_plan(Some(p), home).len() == python_plan(None, home).len() + 1,
        python_plan(Some(p), home)[0] == SourceSpec::Path(p),
        python_plan(Some(p), home).drop_first() == python_plan(None, home),
{
    assert(python_plan(Some(p), home).drop_first() =~= python_plan(None, home));
}

/// The plan asks `which` for both `python3` and `python`, and for
/// `python3` first: every `which python3` step comes before every
/// `which python` step.
pub proof fn law_which_python3_first(ov: Option<Seq<char>>, home: Seq<char>)
    ensures
        python_plan(ov, home).contains(SourceSpec::Which("python3"@)),
        python_plan(ov, home).contains(SourceSpec::Which("python"@)),
        forall|i: int, j: int|
            0 <= i < python_plan(ov, home).len() && 0 <= j < python_plan(ov, home).len()
                && python_plan(ov, home)[i] == SourceSpec::Which("python3"@)
                && python_plan(ov, home)[j] == SourceSpec::Which("python"@) ==> i < j,
{
    reveal_strlit("python3");
    reveal_strlit("python");
    let s = python_plan(ov, home);
    let off: int = if ov is Some { 1 } else { 0 };
    assert("python3"@ != "python"@) by {
        assert("python3"@.len() != "python"@.len());
    }
    assert(s.len() == off + 10);
    assert(s[off + 2] == SourceSpec::Which("python3"@));
    assert(s[off + 3] == SourceSpec::Which("python"@));
    assert forall|i: int| 0 <= i < s.len() && s[i] is Which implies i == off + 2 || i == off
        + 3 by {
        if ov is Some {
            assert(i == 0 || i == 1 || i == 2 || i == 3 || i == 4 || i == 5 || i == 6 || i == 7
                || i == 8 || i == 9 || i == 10);
        } else {
            assert(i == 0 || i == 1 || i == 2 || i == 3 || i == 4 || i == 5 || i == 6 || i == 7
                || i == 8 || i == 9);
        }
    }
}

proof fn lemma_first_running_skips(a: Seq<Seq<char>>, b: Seq<Seq<char>>, runs: spec_fn(Seq<char>) -> bool)
    requires
        forall|i: int| 0 <= i < a.len() ==> !runs(a[i]),
    ensures
        first_running(a + b, runs) == first_running(b, runs),
    decreases a.len(),
{
    if a.len() == 0 {
        assert(a + b =~= b);
    } else {
        assert((a + b).drop_first() =~= a.drop_first() + b);
        lemma_first_running_skips(a.drop_first(), b, runs);
    }
}

/// Where neither the override nor pyenv yields an interpreter that runs,
/// the search ends with what `which python3` prints, if that runs, whatever
/// `which python` and the later steps would give.
pub proof fn law_which_python3_wins(
    override_path: Option<Seq<char>>,
    home: Seq<char>,
    runs: spec_fn(Seq<char>) -> bool,
    glob: spec_fn(Seq<char>, Seq<char>) -> Seq<Seq<char>>,
    which: spec_fn(Seq<char>) -> Option<Seq<char>>,
    out: Seq<char>,
)
    requires
        override_path matches Some(p) ==> !runs(p),
        !runs(home + "/.pyenv/shims/python3"@),
        forall|i: int|
            0 <= i < glob(home + "/.pyenv/versions"@, "/bin/python3"@).len() ==> !runs(
                #[trigger] glob(home + "/.pyenv/versions"@, "/bin/python3"@)[i],
            ),
        which("python3"@) == Some(out),
        runs(trim(out)),
    ensures
        python_found(override_path, home, runs, glob, which) == trim(out),
{
    let s = python_plan(None, home);
    let s1 = s.drop_first();
    let s2 = s1.drop_first();
    let s3 = s2.drop_first();
    let c3 = plan_candidates(s3, glob, which);
    let shim = seq![home + "/.pyenv/shims/python3"@];
    let g = glob(home + "/.pyenv/versions"@, "/bin/python3"@);
    assert(s2[0] == SourceSpec::Which("python3"@));
    assert(plan_candidates(s2, glob, which) == seq![trim(out)] + c3);
    assert(plan_candidates(s1, glob, which) == g + (seq![trim(out)] + c3));
    assert(plan_candidates(s, glob, which) == shim + (g + (seq![trim(out)] + c3)));
    let after = seq![trim(out)] + c3;
    assert(first_running(after, runs) == Some(trim(out)));
    lemma_first_running_skips(g, after, runs);
    lemma_first_running_skips(shim, g + after, runs);
    match override_path {
        Some(p) => {
            let full = python_plan(Some(p), home);
            law_override_only_leads(p, home);
            assert(plan_candidates(full, glob, which) == seq![p] + plan_candidates(s, glob, which));
            lemma_first_running_skips(seq![p], plan_candidates(s, glob, which), runs);
        },
        None => {},
    }
}

/// Without an override the plan starts with pyenv (its shim, then its
/// installed versions under the home directory), tries the system's
/// `python3` before its `python`, and ends with the bare names `python3`
/// and `python`, in that order.
pub proof fn law_plan_bounds(home: Seq<char>)
    ensures
        python_plan(None, home).len() >= 4,
        python_plan(None, home)[0] == SourceSpec::Path(home + "/.pyenv/shims/python3"@),
        python_plan(None, home)[1] == SourceSpec::Glob(home + "/.pyenv/versions"@, "/bin/python3"@),
        python_plan(None, home).contains(SourceSpec::Path("/usr/bin/python3"@)),
        python_plan(None, home).contains(SourceSpec::Path("/usr/bin/python"@)),
        python_plan(None, home).last() == SourceSpec::Path("python"@),
        python_plan(None, home)[python_plan(None, home).len() - 2] == SourceSpec::Path("python3"@),
        forall|i: int, j: int|
            0 <= i < python_plan(None, home).len() && 0 <= j < python_plan(None, home).len()
                && python_plan(None, home)[i] == SourceSpec::Path("/usr/bin/python3"@)
                && python_plan(None, home)[j] == SourceSpec::Path("/usr/bin/python"@) ==> i < j,
{
    reveal_strlit("/.pyenv/shims/python3");
    reveal_strlit("/usr/bin/python3");
    reveal_strlit("/usr/bin/python");
    reveal_strlit("/opt/homebrew/bin/python3");
    reveal_strlit("/usr/local/bin/python3");
    reveal_strlit("python3");
    reveal_strlit("python");
    let s = python_plan(None, home);
    assert(s[6] == SourceSpec::Path("/usr/bin/python3"@));
    assert(s[7] == SourceSpec::Path("/usr/bin/python"@));
    assert forall|i: int, j: int|
        0 <= i < s.len() && 0 <= j < s.len() && s[i] == SourceSpec::Path("/usr/bin/python3"@)
            && s[j] == SourceSpec::Path("/usr/bin/python"@) implies i < j by {
        assert(i == 0 || i == 1 || i == 2 || i == 3 || i == 4 || i == 5 || i == 6 || i == 7 || i
            == 8 || i == 9);
        assert(j == 0 || j == 1 || j == 2 || j == 3 || j == 4 || j == 5 || j == 6 || j == 7 || j
            == 8 || j == 9);
        assert("/.pyenv/shims/python3"@.len() == 21);
        assert("/usr/bin/python3"@.len() == 16);
        assert("/usr/bin/python"@.len() == 15);
        assert("/opt/homebrew/bin/python3"@.len() == 25);
        assert("/usr/local/bin/python3"@.len() == 22);
        assert("python3"@.len() == 7);
        assert("python"@.len() == 6);
    }
}

/// A glob step keeps the listing order and only the entries whose candidate
/// is a file: when every listed candidate is a file, the candidates are the
/// entries with `rest` appended, in listing order; when none is, there are
/// none.
pub proof fn law_glob_keeps_listing_order(entries: Seq<(String, bool)>, rest: Seq<char>)
    ensures
        (forall|i: int| 0 <= i < entries.len() ==> (#[trigger] entries[i]).1) ==> glob_candidates(
            entries,
            rest,
        ) == entries.map_values(|e: (String, bool)| e.0@ + rest),
        (forall|i: int| 0 <= i < entries.len() ==> !(#[trigger] entries[i]).1) ==> glob_candidates(
            entries,
            rest,
        ) == Seq::<Seq<char>>::empty(),
    decreases entries.len(),
{
    if entries.len() > 0 {
        let init = entries.drop_last();
        law_glob_keeps_listing_order(init, rest);
        if forall|i: int| 0 <= i < entries.len() ==> (#[trigger] entries[i]).1 {
            assert(forall|i: int| 0 <= i < init.len() ==> (#[trigger] init[i]).1 == entries[i].1);
            assert(entries.last().1);
            assert(glob_candidates(entries, rest) =~= entries.map_values(
                |e: (String, bool)| e.0@ + rest,
            ));
        }
        if forall|i: int| 0 <= i < entries.len() ==> !(#[trigger] entries[i]).1 {
            assert(forall|i: int| 0 <= i < init.len() ==> (#[trigger] init[i]).1 == entries[i].1);
            assert(!entries.last().1);
            assert(glob_candidates(entries, rest) =~= Seq::<Seq<char>>::empty());
        }
    }
}

} // verus!
