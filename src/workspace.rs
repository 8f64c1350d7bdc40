use vstd::prelude::*;
use crate::error::SandboxError;
use crate::request::SandboxRequest;
use crate::text::{join, join_lines, views};

verus! {

/// Name of the launcher script staged into every workspace.
pub open spec fn launcher_name() -> Seq<char> {
    "script.sh"@
}

/// Where the launcher script is copied from: a fixed location, the same for every
/// request.
pub open spec fn launcher_origin() -> Seq<char> {
    "/dockerFiles/source.sh"@
}

/// Name of the staged source file for `language`.
pub open spec fn source_name(language: Seq<char>) -> Seq<char> {
    language + ".source"@
}

/// Name of the staged standard-input file for `language`.
pub open spec fn stdin_name(language: Seq<char>) -> Seq<char> {
    language + ".stdin"@
}

/// What is written into the workspace before the run. File names are relative to
/// `directory`; each file is written with the contents beside it, and the launcher
/// is copied from `launcher_source`.
#[derive(Debug, Clone)]
pub struct WorkspacePlan {
    pub directory: String,
    pub source_file: String,
    pub source_contents: String,
    /// Present only when the attached test supplies standard input.
    pub stdin_file: Option<String>,
    pub stdin_contents: Option<String>,
    pub stdout_file: String,
    /// Always empty: the runtime fills the file.
    pub stdout_contents: String,
    pub stderr_file: String,
    /// Always empty: the runtime fills the file.
    pub stderr_contents: String,
    pub launcher_file: String,
    pub launcher_source: String,
}

/// The workspace layout that a request calls for.
pub open spec fn is_plan_for(p: WorkspacePlan, q: SandboxRequest) -> bool {
    &&& p.directory@ == q.path@
    &&& p.source_file@ == source_name(q.compiler.language@)
    &&& p.source_contents@ == join_lines(views(q.source_code@))
    &&& p.stdout_file@ == q.compiler.standard_output_file@
    &&& p.stderr_file@ == q.compiler.standard_error_file@
    &&& p.stdout_contents@ == Seq::<char>::empty()
    &&& p.stderr_contents@ == Seq::<char>::empty()
    &&& p.launcher_file@ == launcher_name()
    &&& p.launcher_source@ == launcher_origin()
    &&& match q.test {
        Some(t) => match t.stdin_data {
            Some(lines) => {
                &&& (p.stdin_file matches Some(f) && f@ == stdin_name(q.compiler.language@))
                &&& (p.stdin_contents matches Some(c) && c@ == join_lines(views(lines@)))
            },
            None => p.stdin_file is None && p.stdin_contents is None,
        },
        None => p.stdin_file is None && p.stdin_contents is None,
    }
}

/// The source file name for a language.
pub fn source_file_name(language: &String) -> (r: String)
    ensures
        r@ == source_name(language@),
{
    let mut r = language.clone();
    r.append(".source");
    r
}

/// The standard-input file name for a language.
pub fn stdin_file_name(language: &String) -> (r: String)
    ensures
        r@ == stdin_name(language@),
{
    let mut r = language.clone();
    r.append(".stdin");
    r
}

/// Lays out the workspace for a request.
pub fn plan_workspace(request: &SandboxRequest) -> (p: WorkspacePlan)
    ensures
        is_plan_for(p, *request),
{
    let (stdin_file, stdin_contents) = match &request.test {
        Some(t) => match &t.stdin_data {
            Some(lines) => (Some(stdin_file_name(&request.compiler.language)), Some(join(lines))),
            None => (None, None),
        },
        None => (None, None),
    };
    WorkspacePlan {
        directory: request.path.clone(),
        source_file: source_file_name(&request.compiler.language),
        source_contents: join(&request.source_code),
        stdin_file,
        stdin_contents,
        stdout_file: request.compiler.standard_output_file.clone(),
        stdout_contents: String::new(),
        stderr_file: request.compiler.standard_error_file.clone(),
        stderr_contents: String::new(),
        launcher_file: "script.sh".to_owned(),
        launcher_source: "/dockerFiles/source.sh".to_owned(),
    }
}

/// The workspace paths held by sandboxes in flight. A path is held from the moment
/// it is acquired until it is released, and no two holders share one.
pub struct WorkspaceRegistry {
    in_flight: Vec<String>,
}

impl View for WorkspaceRegistry {
    type V = Set<Seq<char>>;

    closed spec fn view(&self) -> Set<Seq<char>> {
        views(self.in_flight@).to_set()
    }
}

proof fn lemma_kept_step(
    all: Seq<Seq<char>>,
    i: int,
    before: Seq<Seq<char>>,
    after: Seq<Seq<char>>,
    path: Seq<char>,
)
    requires
        0 <= i < all.len(),
        after == if all[i] != path {
            before.push(all[i])
        } else {
            before
        },
        forall|x: Seq<char>| #[trigger]
            before.contains(x) <==> (all.take(i).contains(x) && x != path),
    ensures
        forall|x: Seq<char>| #[trigger]
            after.contains(x) <==> (all.take(i + 1).contains(x) && x != path),
{
    assert(all.take(i + 1) =~= all.take(i).push(all[i]));
    assert forall|x: Seq<char>| #[trigger]
        after.contains(x) <==> (all.take(i + 1).contains(x) && x != path) by {
        if all.take(i + 1).contains(x) && x != path {
            let k = choose|k: int| 0 <= k < i + 1 && #[trigger] all.take(i + 1)[k] == x;
            if k < i {
                assert(all.take(i)[k] == x);
                assert(before.contains(x));
                if all[i] != path {
                    let j = choose|j: int| 0 <= j < before.len() && #[trigger] before[j] == x;
                    assert(after[j] == x);
                }
            } else {
                assert(after.last() == x);
            }
        }
        if after.contains(x) {
            let j = choose|j: int| 0 <= j < after.len() && #[trigger] after[j] == x;
            if j < before.len() {
                assert(before[j] == x);
                assert(before.contains(x));
                let k = choose|k: int| 0 <= k < i && #[trigger] all.take(i)[k] == x;
                assert(all.take(i + 1)[k] == x);
            } else {
                assert(all.take(i + 1)[i] == x);
            }
        }
    }
}

impl WorkspaceRegistry {
    /// A registry with no path held.
    pub fn new() -> (r: WorkspaceRegistry)
        ensures
            r@ == Set::<Seq<char>>::empty(),
    {
        let r = WorkspaceRegistry { in_flight: Vec::new() };
        assert(r@ =~= Set::<Seq<char>>::empty());
        r
    }

    /// Whether `path` is held.
    pub fn holds(&self, path: &String) -> (r: bool)
        ensures
            r == self@.contains(path@),
    {
        let mut i: usize = 0;
        while i < self.in_flight.len()
            invariant
                0 <= i <= self.in_flight@.len(),
                forall|k: int| 0 <= k < i ==> self.in_flight@[k]@ != path@,
            decreases self.in_flight@.len() - i,
        {
            if self.in_flight[i] == *path {
                proof {
                    assert(views(self.in_flight@)[i as int] == path@);
                }
                return true;
            }
            i = i + 1;
        }
        false
    }

    /// Takes `path` for a new sandbox; fails with `PathConflict` if it is held.
    pub fn acquire(&mut self, path: String) -> (r: Result<(), SandboxError>)
        ensures
            old(self)@.contains(path@) ==> r == Err::<(), SandboxError>(SandboxError::PathConflict)
                && final(self)@ == old(self)@,
            !old(self)@.contains(path@) ==> r is Ok && final(self)@ == old(self)@.insert(path@),
    {
        if self.holds(&path) {
            return Err(SandboxError::PathConflict);
        }
        let ghost before = self.in_flight@;
        let ghost p = path@;
        self.in_flight.push(path);
        proof {
            assert(views(self.in_flight@) =~= views(before)
                + seq![p]);
            Seq::<Seq<char>>::lemma_to_set_insert_commutes(views(before), p);
        }
        Ok(())
    }

    /// Gives `path` back; releasing a path that is not held changes nothing.
    pub fn release(&mut self, path: &String)
        ensures
            final(self)@ == old(self)@.remove(path@),
    {
        let ghost all = views(self.in_flight@);
        let mut kept: Vec<String> = Vec::new();
        let mut i: usize = 0;
        while i < self.in_flight.len()
            invariant
                0 <= i <= self.in_flight@.len(),
                all == views(self.in_flight@),
                forall|x: Seq<char>| #[trigger]
                    views(kept@).contains(x) <==> (all.take(i as int).contains(x)
                        && x != path@),
            decreases self.in_flight@.len() - i,
        {
            let ghost old_kept = kept@;
            if self.in_flight[i] != *path {
                kept.push(self.in_flight[i].clone());
                proof {
                    assert(views(kept@) =~= views(old_kept).push(all[i as int]));
                    lemma_kept_step(all, i as int, views(old_kept), views(kept@), path@);
                }
            } else {
                proof {
                    lemma_kept_step(all, i as int, views(old_kept), views(kept@), path@);
                }
            }
            i = i + 1;
        }
        self.in_flight = kept;
        assert(all.take(i as int) =~= all);
        assert(self@ =~= old(self)@.remove(path@));
    }
}

} // verus!
