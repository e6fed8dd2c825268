//! Workspaces: named pairs of a database and a store, kept together with the
//! name of the one in use.
use vstd::prelude::*;

use crate::databases::DatabaseConfig;
use crate::storage::provider::StorageConfig;
use crate::text::{concat_str, owned, str_eq};

verus! {

broadcast use vstd::string::group_string_axioms;

/// A database and a store saved under a name.
#[derive(Debug, Clone)]
pub struct Workspace {
    pub name: String,
    pub database: DatabaseConfig,
    pub storage: StorageConfig,
    pub created_at: String,
    pub last_used: Option<String>,
}

/// Why a workspace could not be used.
#[derive(Debug, Clone, Copy, PartialEq, Eq, Structural)]
pub enum WorkspaceError {
    /// No workspace has the name.
    NotFound,
}

/// No two workspaces of `s` share a name.
pub open spec fn names_unique(s: Seq<Workspace>) -> bool {
    forall|i: int, j: int| 0 <= i < j < s.len() ==> (#[trigger] s[i]).name@ != (#[trigger] s[j]).name@
}

/// Whether some workspace of `s` is named `n`.
pub open spec fn has_name(s: Seq<Workspace>, n: Seq<char>) -> bool {
    exists|i: int| 0 <= i < s.len() && (#[trigger] s[i]).name@ == n
}

/// The workspaces of `s` by name.
pub open spec fn by_name(s: Seq<Workspace>) -> Map<Seq<char>, Workspace> {
    Map::new(
        |n: Seq<char>| has_name(s, n),
        |n: Seq<char>| s[choose|i: int| 0 <= i < s.len() && (#[trigger] s[i]).name@ == n],
    )
}

proof fn lemma_by_name_at(s: Seq<Workspace>, i: int)
    requires
        names_unique(s),
        0 <= i < s.len(),
    ensures
        by_name(s).dom().contains(s[i].name@),
        by_name(s)[s[i].name@] == s[i],
{
    let n = s[i].name@;
    assert(has_name(s, n));
    let k = choose|k: int| 0 <= k < s.len() && (#[trigger] s[k]).name@ == n;
    if k != i {
        if k < i {
            assert(s[k].name@ != s[i].name@);
        } else {
            assert(s[i].name@ != s[k].name@);
        }
    }
}

/// The place of the workspace named `name` in `ws`, if there is one.
fn find_in(ws: &Vec<Workspace>, name: &str) -> (r: Option<usize>)
    ensures
        match r {
            Some(i) => i < ws@.len() && ws@[i as int].name@ == name@,
            None => !has_name(ws@, name@),
        },
{
    let n = ws.len();
    let mut i: usize = 0;
    while i < n
        invariant
            i <= n,
            n == ws@.len(),
            forall|j: int| 0 <= j < i ==> (#[trigger] ws@[j]).name@ != name@,
        decreases n - i,
    {
        if str_eq(ws[i].name.as_str(), name) {
            return Some(i);
        }
        i = i + 1;
    }
    None
}

/// All workspaces, no two with the same name, and the name of the active one.
#[derive(Debug)]
pub struct WorkspaceCollection {
    workspaces: Vec<Workspace>,
    active_workspace: Option<String>,
}

impl WorkspaceCollection {
    /// The workspaces by name.
    pub closed spec fn map(&self) -> Map<Seq<char>, Workspace> {
        by_name(self.workspaces@)
    }

    /// The name of the active workspace, where one was chosen.
    pub closed spec fn active(&self) -> Option<Seq<char>> {
        match self.active_workspace {
            Some(a) => Some(a@),
            None => None,
        }
    }

    /// No two workspaces share a name.
    #[verifier::type_invariant]
    spec fn wf(&self) -> bool {
        names_unique(self.workspaces@)
    }

    /// No workspace, none active.
    pub fn new() -> (r: Self)
        ensures
            r.map() == Map::<Seq<char>, Workspace>::empty(),
            r.active() is None,
    {
        let r = WorkspaceCollection { workspaces: Vec::new(), active_workspace: None };
        assert(r.map() =~= Map::<Seq<char>, Workspace>::empty());
        r
    }

    /// Saves `workspace` under its name, in place of any workspace of that name.
    pub fn add_workspace(&mut self, workspace: Workspace)
        ensures
            final(self).map() == old(self).map().insert(workspace.name@, workspace),
            final(self).active() == old(self).active(),
    {
        proof {
            use_type_invariant(&*self);
        }
        let mut ws: Vec<Workspace> = Vec::new();
        std::mem::swap(&mut ws, &mut self.workspaces);
        let ghost s = ws@;
        let ghost n = workspace.name@;
        match find_in(&ws, workspace.name.as_str()) {
            Some(i) => {
                ws.set(i, workspace);
                proof {
                    let t = ws@;
                    assert(t == s.update(i as int, workspace));
                    assert forall|a: int, b: int| 0 <= a < b < t.len() implies (#[trigger] t[a]).name@ != (#[trigger] t[b]).name@ by {
                        assert(s[a].name@ != s[b].name@);
                    }
                    assert forall|m: Seq<char>| has_name(t, m) <==> (has_name(s, m) || m == n) by {
                        if has_name(s, m) {
                            let k = choose|k: int| 0 <= k < s.len() && (#[trigger] s[k]).name@ == m;
                            assert(t[k].name@ == m);
                        }
                        if m == n {
                            assert(t[i as int].name@ == m);
                        }
                        if has_name(t, m) {
                            let k = choose|k: int| 0 <= k < t.len() && (#[trigger] t[k]).name@ == m;
                            if k != i {
                                assert(s[k].name@ == m);
                            }
                        }
                    }
                    assert forall|m: Seq<char>| #[trigger] by_name(t).dom().contains(m) implies by_name(t)[m] == by_name(s).insert(n, workspace)[m] by {
                        let k = choose|k: int| 0 <= k < t.len() && (#[trigger] t[k]).name@ == m;
                        lemma_by_name_at(t, k);
                        if k != i {
                            lemma_by_name_at(s, k);
                        }
                    }
                    assert(by_name(t) =~= by_name(s).insert(n, workspace));
                }
            },
            None => {
                ws.push(workspace);
                proof {
                    let t = ws@;
                    assert(t == s.push(workspace));
                    assert forall|a: int, b: int| 0 <= a < b < t.len() implies (#[trigger] t[a]).name@ != (#[trigger] t[b]).name@ by {
                        if b == s.len() {
                            assert(!has_name(s, n));
                            assert(s[a].name@ != n);
                        } else {
                            assert(s[a].name@ != s[b].name@);
                        }
                    }
                    assert forall|m: Seq<char>| has_name(t, m) <==> (has_name(s, m) || m == n) by {
                        if has_name(s, m) {
                            let k = choose|k: int| 0 <= k < s.len() && (#[trigger] s[k]).name@ == m;
                            assert(t[k].name@ == m);
                        }
                        if m == n {
                            assert(t[s.len() as int].name@ == m);
                        }
                        if has_name(t, m) {
                            let k = choose|k: int| 0 <= k < t.len() && (#[trigger] t[k]).name@ == m;
                            if k < s.len() {
                                assert(s[k].name@ == m);
                            }
                        }
                    }
                    assert forall|m: Seq<char>| #[trigger] by_name(t).dom().contains(m) implies by_name(t)[m] == by_name(s).insert(n, workspace)[m] by {
                        let k = choose|k: int| 0 <= k < t.len() && (#[trigger] t[k]).name@ == m;
                        lemma_by_name_at(t, k);
                        if k < s.len() {
                            lemma_by_name_at(s, k);
                        }
                    }
                    assert(by_name(t) =~= by_name(s).insert(n, workspace));
                }
            },
        }
        self.workspaces = ws;
    }

    /// The workspace named `name`, if there is one.
    pub fn get_workspace(&self, name: &str) -> (r: Option<&Workspace>)
        ensures
            match r {
                Some(w) => self.map().dom().contains(name@) && *w == self.map()[name@],
                None => !self.map().dom().contains(name@),
            },
    {
        proof {
            use_type_invariant(self);
        }
        match find_in(&self.workspaces, name) {
            Some(i) => {
                proof {
                    lemma_by_name_at(self.workspaces@, i as int);
                }
                Some(&self.workspaces[i])
            },
            None => None,
        }
    }

    /// Removes the workspace named `name` and gives it back; where it was the
    /// active one, no workspace is active any more.
    pub fn remove_workspace(&mut self, name: &str) -> (r: Option<Workspace>)
        ensures
            final(self).map() == old(self).map().remove(name@),
            match r {
                Some(w) => old(self).map().dom().contains(name@) && w == old(self).map()[name@],
                None => !old(self).map().dom().contains(name@),
            },
            final(self).active() == if old(self).active() == Some(name@) {
                None
            } else {
                old(self).active()
            },
    {
        proof {
            use_type_invariant(&*self);
        }
        let mut ws: Vec<Workspace> = Vec::new();
        std::mem::swap(&mut ws, &mut self.workspaces);
        let ghost s = ws@;
        let ghost n = name@;
        let removed = match find_in(&ws, name) {
            Some(i) => {
                proof {
                    lemma_by_name_at(s, i as int);
                }
                let w = ws.remove(i);
                proof {
                    let t = ws@;
                    assert(t == s.remove(i as int));
                    assert forall|a: int, b: int| 0 <= a < b < t.len() implies (#[trigger] t[a]).name@ != (#[trigger] t[b]).name@ by {
                        let a2 = if a < i { a } else { a + 1 };
                        let b2 = if b < i { b } else { b + 1 };
                        assert(t[a] == s[a2] && t[b] == s[b2]);
                        assert(s[a2].name@ != s[b2].name@);
                    }
                    assert forall|m: Seq<char>| has_name(t, m) <==> (has_name(s, m) && m != n) by {
                        if has_name(s, m) && m != n {
                            let k = choose|k: int| 0 <= k < s.len() && (#[trigger] s[k]).name@ == m;
                            if k < i {
                                assert(t[k].name@ == m);
                            } else {
                                assert(k != i);
                                assert(t[k - 1].name@ == m);
                            }
                        }
                        if has_name(t, m) {
                            let k = choose|k: int| 0 <= k < t.len() && (#[trigger] t[k]).name@ == m;
                            let k2 = if k < i { k } else { k + 1 };
                            assert(t[k] == s[k2]);
                            assert(s[k2].name@ != s[i as int].name@);
                        }
                    }
                    assert forall|m: Seq<char>| #[trigger] by_name(t).dom().contains(m) implies by_name(t)[m] == by_name(s).remove(n)[m] by {
                        let k = choose|k: int| 0 <= k < t.len() && (#[trigger] t[k]).name@ == m;
                        lemma_by_name_at(t, k);
                        let k2 = if k < i { k } else { k + 1 };
                        assert(t[k] == s[k2]);
                        lemma_by_name_at(s, k2);
                    }
                    assert(by_name(t) =~= by_name(s).remove(n));
                }
                Some(w)
            },
            None => {
                proof {
                    assert(by_name(s).remove(n) =~= by_name(s));
                }
                None
            },
        };
        self.workspaces = ws;
        let clear = match &self.active_workspace {
            Some(a) => str_eq(a.as_str(), name),
            None => false,
        };
        if clear {
            self.active_workspace = None;
        }
        removed
    }

    /// Makes the workspace named `name` the active one; an error where there
    /// is none of that name, and then nothing changes.
    pub fn set_active(&mut self, name: &str) -> (r: Result<(), WorkspaceError>)
        ensures
            final(self).map() == old(self).map(),
            r is Ok <==> old(self).map().dom().contains(name@),
            r is Ok ==> final(self).active() == Some(name@),
            r is Err ==> final(self).active() == old(self).active(),
    {
        proof {
            use_type_invariant(&*self);
        }
        match find_in(&self.workspaces, name) {
            Some(i) => {
                proof {
                    lemma_by_name_at(self.workspaces@, i as int);
                }
                self.active_workspace = Some(owned(name));
                Ok(())
            },
            None => Err(WorkspaceError::NotFound),
        }
    }

    /// The active workspace, where one is active and still exists.
    pub fn get_active(&self) -> (r: Option<&Workspace>)
        ensures
            match r {
                Some(w) => self.active() matches Some(a) && self.map().dom().contains(a) && *w == self.map()[a],
                None => self.active() matches Some(a) ==> !self.map().dom().contains(a),
            },
    {
        match &self.active_workspace {
            Some(a) => self.get_workspace(a.as_str()),
            None => None,
        }
    }

    /// The name of the active workspace, where one was chosen.
    pub fn active_workspace(&self) -> (r: Option<&String>)
        ensures
            match r {
                Some(a) => self.active() == Some(a@),
                None => self.active() is None,
            },
    {
        match &self.active_workspace {
            Some(a) => Some(a),
            None => None,
        }
    }

    /// All workspaces, each once.
    pub fn list_workspaces(&self) -> (r: &Vec<Workspace>)
        ensures
            names_unique(r@),
            by_name(r@) == self.map(),
    {
        proof {
            use_type_invariant(self);
        }
        &self.workspaces
    }
}

/// Saving a workspace and then looking up its name gives that workspace back
/// (the state after `add_workspace`, as its contract states it); the other
/// workspaces stay as they were.
pub proof fn lemma_add_then_get(before: WorkspaceCollection, after: WorkspaceCollection, w: Workspace, other: Seq<char>)
    requires
        after.map() == before.map().insert(w.name@, w),
    ensures
        after.map().dom().contains(w.name@),
        after.map()[w.name@] == w,
        other != w.name@ ==> (after.map().dom().contains(other) == before.map().dom().contains(other)),
        other != w.name@ && before.map().dom().contains(other) ==> after.map()[other] == before.map()[other],
{
}

/// After `remove_workspace`, the name is not found any more, the other
/// workspaces stay, and no workspace is active where the removed one was.
pub proof fn lemma_remove_then_get(before: WorkspaceCollection, after: WorkspaceCollection, name: Seq<char>)
    requires
        after.map() == before.map().remove(name),
        after.active() == if before.active() == Some(name) {
            None
        } else {
            before.active()
        },
    ensures
        !after.map().dom().contains(name),
        forall|m: Seq<char>| m != name ==> (#[trigger] after.map().dom().contains(m) == before.map().dom().contains(m)),
        after.active() != Some(name),
{
}

/// After a successful `set_active`, the active workspace is the one of that
/// name (what `get_active` gives back).
pub proof fn lemma_set_active_then_get(before: WorkspaceCollection, after: WorkspaceCollection, name: Seq<char>)
    requires
        before.map().dom().contains(name),
        after.map() == before.map(),
        after.active() == Some(name),
    ensures
        after.active() matches Some(a) && after.map().dom().contains(a) && after.map()[a] == before.map()[name],
{
}

/// The file, under the user's configuration directory `config_dir`, that
/// holds the workspaces: `dbkp/workspaces.json` inside it.
pub fn workspace_config_path(config_dir: &str) -> (r: String)
    ensures
        r@ == config_dir@ + "/dbkp/workspaces.json"@,
{
    concat_str(config_dir, "/dbkp/workspaces.json")
}

/// The manager of the workspace file.
#[derive(Debug, Clone)]
pub struct WorkspaceManager {
    pub config_path: String,
}

impl WorkspaceManager {
    /// The manager of the workspace file under the configuration directory
    /// `config_dir`.
    pub fn new(config_dir: &str) -> (r: Self)
        ensures
            r.config_path@ == config_dir@ + "/dbkp/workspaces.json"@,
    {
        WorkspaceManager { config_path: workspace_config_path(config_dir) }
    }
}

} // verus!
