//! An in-memory filesystem that answers the operations' questions, with the
//! filesystem model as its view, and drivers that run resolution and
//! initialisation against it from start to finish.
//!
//! Directory creation and file writes in memory always succeed, so the
//! drivers run the model with both outcomes set to success.

use vstd::prelude::*;

use crate::text::str_eq;
use crate::resolver::{
    Env, RFlow, RQuery, FsModel, fs_exists, run_flow, resolve_run, home_dir, resolve_query,
    resolve_step, opt_str_view,
};
use crate::session::{
    IFlow, IState, IQuery, run_iflow, run_initialize, initialize, initialize_query,
    initialize_step, initialize_step_read,
};

verus! {

/// The set of paths a sequence of path strings holds.
pub open spec fn dirs_set(ds: Seq<String>) -> Set<Seq<char>> {
    Set::new(|p: Seq<char>| exists|i: int| 0 <= i < ds.len() && ds[i]@ == p)
}

/// The path-to-contents map a sequence of entries holds; a later entry for
/// the same path shadows an earlier one.
pub open spec fn files_map(fs: Seq<(String, String)>) -> Map<Seq<char>, Seq<char>>
    decreases fs.len(),
{
    if fs.len() == 0 {
        Map::<Seq<char>, Seq<char>>::empty()
    } else {
        files_map(fs.drop_last()).insert(fs.last().0@, fs.last().1@)
    }
}

proof fn lemma_files_map_dom(fs: Seq<(String, String)>, k: Seq<char>)
    ensures
        files_map(fs).dom().contains(k) <==> exists|i: int| 0 <= i < fs.len() && fs[i].0@ == k,
    decreases fs.len(),
{
    if fs.len() > 0 {
        lemma_files_map_dom(fs.drop_last(), k);
        if files_map(fs).dom().contains(k) {
            if fs.last().0@ != k {
                let i = choose|i: int| 0 <= i < fs.drop_last().len() && fs.drop_last()[i].0@ == k;
                assert(fs[i].0@ == k);
            } else {
                assert(fs[fs.len() - 1].0@ == k);
            }
        }
        if exists|i: int| 0 <= i < fs.len() && fs[i].0@ == k {
            let i = choose|i: int| 0 <= i < fs.len() && fs[i].0@ == k;
            if i < fs.len() - 1 {
                assert(fs.drop_last()[i].0@ == k);
            }
        }
    }
}

proof fn lemma_dirs_set_push(ds: Seq<String>, p: String)
    ensures
        dirs_set(ds.push(p)) =~= dirs_set(ds).insert(p@),
{
    assert forall|q: Seq<char>| #[trigger] dirs_set(ds.push(p)).contains(q)
        implies dirs_set(ds).insert(p@).contains(q) by {
        let i = choose|i: int| 0 <= i < ds.push(p).len() && ds.push(p)[i]@ == q;
        if i < ds.len() {
            assert(ds[i]@ == q);
            assert(dirs_set(ds).contains(q));
        } else {
            assert(q == p@);
        }
    };
    assert forall|q: Seq<char>| #[trigger] dirs_set(ds).insert(p@).contains(q)
        implies dirs_set(ds.push(p)).contains(q) by {
        if q == p@ {
            assert(ds.push(p)[ds.len() as int]@ == q);
        } else {
            let i = choose|i: int| 0 <= i < ds.len() && ds[i]@ == q;
            assert(ds.push(p)[i]@ == q);
        }
    };
}

/// A filesystem held in memory: the directories that exist, and the files
/// with their contents. A later file entry for the same path shadows an
/// earlier one, so a write is a push.
pub struct MemFs {
    pub dirs: Vec<String>,
    pub files: Vec<(String, String)>,
}

impl View for MemFs {
    type V = FsModel;

    open spec fn view(&self) -> FsModel {
        FsModel { dirs: dirs_set(self.dirs@), files: files_map(self.files@) }
    }
}

impl MemFs {
    /// A filesystem with nothing in it.
    pub fn new() -> (r: MemFs)
        ensures
            r@.dirs =~= Set::<Seq<char>>::empty(),
            r@.files =~= Map::<Seq<char>, Seq<char>>::empty(),
    {
        let r = MemFs { dirs: Vec::new(), files: Vec::new() };
        proof {
            assert forall|q: Seq<char>| !(#[trigger] dirs_set(r.dirs@).contains(q)) by {
            }
        }
        r
    }

    /// Whether anything exists at the path.
    pub fn exists_path(&self, path: &str) -> (r: bool)
        ensures
            r == fs_exists(self@, path@),
    {
        let mut i: usize = 0;
        while i < self.dirs.len()
            invariant
                i <= self.dirs@.len(),
                forall|j: int| 0 <= j < i ==> self.dirs@[j]@ != path@,
            decreases self.dirs@.len() - i,
        {
            if str_eq(self.dirs[i].as_str(), path) {
                proof {
                    assert(self.dirs@[i as int]@ == path@);
                    assert(self@.dirs.contains(path@));
                }
                return true;
            }
            i = i + 1;
        }
        let mut j: usize = 0;
        while j < self.files.len()
            invariant
                j <= self.files@.len(),
                forall|k: int| 0 <= k < j ==> self.files@[k].0@ != path@,
            decreases self.files@.len() - j,
        {
            if str_eq(self.files[j].0.as_str(), path) {
                proof {
                    lemma_files_map_dom(self.files@, path@);
                }
                return true;
            }
            j = j + 1;
        }
        proof {
            lemma_files_map_dom(self.files@, path@);
            if self@.dirs.contains(path@) {
                let i = choose|i: int| 0 <= i < self.dirs@.len() && self.dirs@[i]@ == path@;
                assert(false);
            }
        }
        false
    }

    /// Creates a directory at the path. In memory this always succeeds.
    pub fn create_dir(&mut self, path: &str)
        ensures
            final(self)@.dirs == old(self)@.dirs.insert(path@),
            final(self)@.files == old(self)@.files,
    {
        let ghost before = self.dirs@;
        self.dirs.push(path.to_owned());
        proof {
            lemma_dirs_set_push(before, self.dirs@.last());
            assert(dirs_set(self.dirs@) =~= dirs_set(before).insert(path@));
        }
    }

    /// Puts the text at the path, replacing what a file there held.
    pub fn write_file(&mut self, path: &str, text: String)
        ensures
            final(self)@.files == old(self)@.files.insert(path@, text@),
            final(self)@.dirs == old(self)@.dirs,
    {
        let ghost before = self.files@;
        self.files.push((path.to_owned(), text));
        proof {
            assert(self.files@.drop_last() =~= before);
        }
    }

    /// The contents of the file at the path, if there is one.
    pub fn read_file(&self, path: &str) -> (r: Option<String>)
        ensures
            r is Some <==> self@.files.dom().contains(path@),
            r matches Some(t) ==> self@.files[path@] == t@,
    {
        let mut i: usize = self.files.len();
        proof {
            assert(self.files@.take(i as int) =~= self.files@);
        }
        while i > 0
            invariant
                i <= self.files@.len(),
                files_map(self.files@).dom().contains(path@)
                    <==> files_map(self.files@.take(i as int)).dom().contains(path@),
                files_map(self.files@.take(i as int)).dom().contains(path@)
                    ==> files_map(self.files@)[path@]
                        == files_map(self.files@.take(i as int))[path@],
            decreases i,
        {
            proof {
                assert(self.files@.take(i as int).drop_last() =~= self.files@.take(i - 1));
                assert(self.files@.take(i as int).last() == self.files@[i - 1]);
            }
            if str_eq(self.files[i - 1].0.as_str(), path) {
                return Some(self.files[i - 1].1.clone());
            }
            i = i - 1;
        }
        proof {
            assert(self.files@.take(0) =~= Seq::<(String, String)>::empty());
        }
        None
    }

    /// Resolves the home directory against this filesystem, from start to
    /// finish: the result and the filesystem afterwards are exactly those
    /// of the model run.
    pub fn resolve_home(&mut self, candidate: &str, env: &Env) -> (r: Option<String>)
        ensures
            ({
                let (res, fs1) = resolve_run(old(self)@, true, candidate@, env@);
                opt_str_view(r) == res && final(self)@ == fs1
            }),
    {
        let mut flow = home_dir(candidate, env);
        loop
            invariant
                run_flow(self@, true, flow@) == resolve_run(old(self)@, true, candidate@, env@),
            decreases crate::resolver::flow_measure(flow@),
        {
            match flow {
                RFlow::Done { home } => {
                    return home;
                },
                RFlow::Pending { state } => {
                    let q = resolve_query(&state);
                    let ok = match &q {
                        RQuery::Exists { path } => self.exists_path(path.as_str()),
                        RQuery::CreateDir { path } => {
                            self.create_dir(path.as_str());
                            true
                        },
                    };
                    flow = resolve_step(state, ok);
                },
            }
        }
    }

    /// Initialises against this filesystem, from start to finish: the
    /// response and the filesystem afterwards are exactly those of the
    /// model run.
    pub fn initialize_session(&mut self, candidate: &str, env: &Env) -> (r: String)
        ensures
            ({
                let (resp, fs1) = run_initialize(old(self)@, true, true, candidate@, env@);
                r@ == resp && final(self)@ == fs1
            }),
    {
        let mut flow = initialize(candidate, env);
        loop
            invariant
                run_iflow(self@, true, true, flow@)
                    == run_initialize(old(self)@, true, true, candidate@, env@),
            decreases crate::session::iflow_measure(flow@),
        {
            match flow {
                IFlow::Done { response } => {
                    return response;
                },
                IFlow::Pending { state } => {
                    let is_read = match &state {
                        IState::ReadConfig { .. } => true,
                        _ => false,
                    };
                    if is_read {
                        let text = match &state {
                            IState::ReadConfig { config } => self.read_file(config.as_str()),
                            _ => unreached(),
                        };
                        flow = initialize_step_read(state, text);
                    } else {
                        let q = initialize_query(&state);
                        let ok = match &q {
                            IQuery::Exists { path } => self.exists_path(path.as_str()),
                            IQuery::CreateDir { path } => {
                                self.create_dir(path.as_str());
                                true
                            },
                            IQuery::WriteFile { path, text } => {
                                self.write_file(path.as_str(), text.clone());
                                true
                            },
                            IQuery::ReadFile { .. } => unreached(),
                        };
                        flow = initialize_step(state, ok);
                    }
                },
            }
        }
    }
}

} // verus!
