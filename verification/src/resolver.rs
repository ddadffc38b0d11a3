//! Resolution of the application's home directory.
//!
//! The resolver decides; the filesystem answers. Each pending state names
//! the one question to put to the filesystem (`resolve_query`), and
//! `resolve_step` turns the answer into the next state or the result. A
//! caller loops: ask, answer, step. Against a filesystem model the whole
//! run is the spec function `resolve_run`, and the laws at the end of this
//! file hold of it.

use vstd::prelude::*;

use crate::paths::{join, join_seq};
use crate::outside::user_home_dir;

verus! {

/// The process environment as the resolver sees it: the platform's user
/// home, the working directory, and whether the platform keeps a
/// conventional documents folder beneath the home.
pub struct Env {
    pub user_home: Option<String>,
    pub cwd: Option<String>,
    pub documents: bool,
}

pub struct EnvModel {
    pub user_home: Option<Seq<char>>,
    pub cwd: Option<Seq<char>>,
    pub documents: bool,
}

pub open spec fn opt_str_view(o: Option<String>) -> Option<Seq<char>> {
    match o {
        Some(s) => Some(s@),
        None => None,
    }
}

impl View for Env {
    type V = EnvModel;

    open spec fn view(&self) -> EnvModel {
        EnvModel {
            user_home: opt_str_view(self.user_home),
            cwd: opt_str_view(self.cwd),
            documents: self.documents,
        }
    }
}

/// Builds the environment: the user home comes from the platform query, the
/// working directory and the documents convention from the caller.
pub fn platform_env(cwd: Option<String>, documents: bool) -> (e: Env)
    ensures
        e@.cwd == opt_str_view(cwd),
        e@.documents == documents,
{
    Env { user_home: user_home_dir(), cwd, documents }
}

/// A question for the filesystem: whether a path exists, or that a
/// directory be created at a path (one level, not recursive).
pub enum RQuery {
    Exists { path: String },
    CreateDir { path: String },
}

pub enum RQueryModel {
    Exists { path: Seq<char> },
    CreateDir { path: Seq<char> },
}

impl View for RQuery {
    type V = RQueryModel;

    open spec fn view(&self) -> RQueryModel {
        match self {
            RQuery::Exists { path } => RQueryModel::Exists { path: path@ },
            RQuery::CreateDir { path } => RQueryModel::CreateDir { path: path@ },
        }
    }
}

/// A resolution in progress, named after the question it waits on.
pub enum RState {
    /// A non-empty candidate was given: does it exist?
    CandidateCheck { path: String },
    /// Does the base directory exist?
    BaseCheck { base: String, documents: bool },
    /// Does the documents folder exist beneath the base?
    DocsCheck { base: String },
    /// Does the application folder already exist?
    GlmyCheck { glmy: String },
    /// Could the application folder be created?
    CreateGlmy { glmy: String },
}

pub enum RStateModel {
    CandidateCheck { path: Seq<char> },
    BaseCheck { base: Seq<char>, documents: bool },
    DocsCheck { base: Seq<char> },
    GlmyCheck { glmy: Seq<char> },
    CreateGlmy { glmy: Seq<char> },
}

impl View for RState {
    type V = RStateModel;

    open spec fn view(&self) -> RStateModel {
        match self {
            RState::CandidateCheck { path } => RStateModel::CandidateCheck { path: path@ },
            RState::BaseCheck { base, documents } => RStateModel::BaseCheck { base: base@, documents: *documents },
            RState::DocsCheck { base } => RStateModel::DocsCheck { base: base@ },
            RState::GlmyCheck { glmy } => RStateModel::GlmyCheck { glmy: glmy@ },
            RState::CreateGlmy { glmy } => RStateModel::CreateGlmy { glmy: glmy@ },
        }
    }
}

/// A resolution: either still waiting on the filesystem, or finished with
/// the home path or with failure.
pub enum RFlow {
    Pending { state: RState },
    Done { home: Option<String> },
}

pub enum RFlowModel {
    Pending { state: RStateModel },
    Done { home: Option<Seq<char>> },
}

impl View for RFlow {
    type V = RFlowModel;

    open spec fn view(&self) -> RFlowModel {
        match self {
            RFlow::Pending { state } => RFlowModel::Pending { state: state@ },
            RFlow::Done { home } => RFlowModel::Done { home: opt_str_view(*home) },
        }
    }
}

/// The base directory of an empty-candidate resolution: the user home where
/// one is known, the working directory otherwise.
pub open spec fn base_of(env: EnvModel) -> Option<Seq<char>> {
    match env.user_home {
        Some(h) => Some(h),
        None => env.cwd,
    }
}

/// Where a resolution begins: a non-empty candidate is checked as given;
/// an empty one starts from the base directory, and fails at once when
/// there is none.
pub open spec fn spec_home_dir(candidate: Seq<char>, env: EnvModel) -> RFlowModel {
    if candidate.len() > 0 {
        RFlowModel::Pending { state: RStateModel::CandidateCheck { path: candidate } }
    } else {
        match base_of(env) {
            Some(b) => RFlowModel::Pending {
                state: RStateModel::BaseCheck { base: b, documents: env.documents },
            },
            None => RFlowModel::Done { home: None },
        }
    }
}

/// The question a pending state waits on.
pub open spec fn spec_query(s: RStateModel) -> RQueryModel {
    match s {
        RStateModel::CandidateCheck { path } => RQueryModel::Exists { path },
        RStateModel::BaseCheck { base, .. } => RQueryModel::Exists { path: base },
        RStateModel::DocsCheck { base } => RQueryModel::Exists { path: join_seq(base, "Documents"@) },
        RStateModel::GlmyCheck { glmy } => RQueryModel::Exists { path: glmy },
        RStateModel::CreateGlmy { glmy } => RQueryModel::CreateDir { path: glmy },
    }
}

/// One step of resolution, given the filesystem's answer to the pending
/// state's question.
pub open spec fn spec_step(s: RStateModel, ok: bool) -> RFlowModel {
    match s {
        RStateModel::CandidateCheck { path } => RFlowModel::Done {
            home: if ok { Some(path) } else { None },
        },
        RStateModel::BaseCheck { base, documents } => {
            if !ok {
                RFlowModel::Done { home: None }
            } else if documents {
                RFlowModel::Pending { state: RStateModel::DocsCheck { base } }
            } else {
                RFlowModel::Pending {
                    state: RStateModel::GlmyCheck { glmy: join_seq(base, "GLMY"@) },
                }
            }
        },
        RStateModel::DocsCheck { base } => {
            if ok {
                RFlowModel::Pending {
                    state: RStateModel::GlmyCheck {
                        glmy: join_seq(join_seq(base, "Documents"@), "GLMY"@),
                    },
                }
            } else {
                RFlowModel::Pending {
                    state: RStateModel::GlmyCheck { glmy: join_seq(base, "GLMY"@) },
                }
            }
        },
        RStateModel::GlmyCheck { glmy } => {
            if ok {
                RFlowModel::Done { home: Some(glmy) }
            } else {
                RFlowModel::Pending { state: RStateModel::CreateGlmy { glmy } }
            }
        },
        RStateModel::CreateGlmy { glmy } => RFlowModel::Done {
            home: if ok { Some(glmy) } else { None },
        },
    }
}

/// Begins a resolution.
pub fn home_dir(candidate: &str, env: &Env) -> (r: RFlow)
    ensures
        r@ == spec_home_dir(candidate@, env@),
{
    if !candidate.is_empty() {
        RFlow::Pending { state: RState::CandidateCheck { path: candidate.to_owned() } }
    } else {
        match &env.user_home {
            Some(h) => RFlow::Pending {
                state: RState::BaseCheck { base: h.clone(), documents: env.documents },
            },
            None => match &env.cwd {
                Some(c) => RFlow::Pending {
                    state: RState::BaseCheck { base: c.clone(), documents: env.documents },
                },
                None => RFlow::Done { home: None },
            },
        }
    }
}

/// The question the given pending state waits on.
pub fn resolve_query(state: &RState) -> (q: RQuery)
    ensures
        q@ == spec_query(state@),
{
    match state {
        RState::CandidateCheck { path } => RQuery::Exists { path: path.clone() },
        RState::BaseCheck { base, .. } => RQuery::Exists { path: base.clone() },
        RState::DocsCheck { base } => RQuery::Exists { path: join(base.as_str(), "Documents") },
        RState::GlmyCheck { glmy } => RQuery::Exists { path: glmy.clone() },
        RState::CreateGlmy { glmy } => RQuery::CreateDir { path: glmy.clone() },
    }
}

/// Advances a resolution by the filesystem's answer: for an existence
/// question, whether the path exists; for a creation, whether it succeeded.
pub fn resolve_step(state: RState, ok: bool) -> (r: RFlow)
    ensures
        r@ == spec_step(state@, ok),
{
    match state {
        RState::CandidateCheck { path } => RFlow::Done {
            home: if ok { Some(path) } else { None },
        },
        RState::BaseCheck { base, documents } => {
            if !ok {
                RFlow::Done { home: None }
            } else if documents {
                RFlow::Pending { state: RState::DocsCheck { base } }
            } else {
                RFlow::Pending { state: RState::GlmyCheck { glmy: join(base.as_str(), "GLMY") } }
            }
        },
        RState::DocsCheck { base } => {
            if ok {
                let docs = join(base.as_str(), "Documents");
                RFlow::Pending { state: RState::GlmyCheck { glmy: join(docs.as_str(), "GLMY") } }
            } else {
                RFlow::Pending { state: RState::GlmyCheck { glmy: join(base.as_str(), "GLMY") } }
            }
        },
        RState::GlmyCheck { glmy } => {
            if ok {
                RFlow::Done { home: Some(glmy) }
            } else {
                RFlow::Pending { state: RState::CreateGlmy { glmy } }
            }
        },
        RState::CreateGlmy { glmy } => RFlow::Done {
            home: if ok { Some(glmy) } else { None },
        },
    }
}

/// A filesystem model: the directories that exist, and the files that exist
/// with their contents.
pub struct FsModel {
    pub dirs: Set<Seq<char>>,
    pub files: Map<Seq<char>, Seq<char>>,
}

/// Whether anything exists at a path.
pub open spec fn fs_exists(fs: FsModel, p: Seq<char>) -> bool {
    fs.dirs.contains(p) || fs.files.dom().contains(p)
}

/// How the model answers a resolver question; `create_ok` stands for
/// whether the one possible creation would succeed.
pub open spec fn model_answer(fs: FsModel, create_ok: bool, q: RQueryModel) -> bool {
    match q {
        RQueryModel::Exists { path } => fs_exists(fs, path),
        RQueryModel::CreateDir { .. } => create_ok,
    }
}

/// The model after a question is answered: a successful creation adds the
/// directory, nothing else changes anything.
pub open spec fn model_after(fs: FsModel, q: RQueryModel, ok: bool) -> FsModel {
    match q {
        RQueryModel::CreateDir { path } => {
            if ok {
                FsModel { dirs: fs.dirs.insert(path), files: fs.files }
            } else {
                fs
            }
        },
        RQueryModel::Exists { .. } => fs,
    }
}

pub open spec fn state_measure(s: RStateModel) -> nat {
    match s {
        RStateModel::CandidateCheck { .. } => 1,
        RStateModel::BaseCheck { .. } => 4,
        RStateModel::DocsCheck { .. } => 3,
        RStateModel::GlmyCheck { .. } => 2,
        RStateModel::CreateGlmy { .. } => 1,
    }
}

pub open spec fn flow_measure(f: RFlowModel) -> nat {
    match f {
        RFlowModel::Done { .. } => 0,
        RFlowModel::Pending { state } => state_measure(state),
    }
}

/// A whole resolution run against the model, from a flow to the result and
/// the model left behind.
pub open spec fn run_flow(fs: FsModel, create_ok: bool, f: RFlowModel) -> (Option<Seq<char>>, FsModel)
    decreases flow_measure(f),
{
    match f {
        RFlowModel::Done { home } => (home, fs),
        RFlowModel::Pending { state } => {
            let q = spec_query(state);
            let a = model_answer(fs, create_ok, q);
            run_flow(model_after(fs, q, a), create_ok, spec_step(state, a))
        },
    }
}

/// A whole resolution against the model.
pub open spec fn resolve_run(fs: FsModel, create_ok: bool, candidate: Seq<char>, env: EnvModel) -> (Option<Seq<char>>, FsModel) {
    run_flow(fs, create_ok, spec_home_dir(candidate, env))
}

/// A non-empty candidate that does not exist on the filesystem fails the
/// resolution, and nothing is created.
pub proof fn lemma_missing_candidate_fails(fs: FsModel, create_ok: bool, candidate: Seq<char>, env: EnvModel)
    requires
        candidate.len() > 0,
        !fs_exists(fs, candidate),
    ensures
        resolve_run(fs, create_ok, candidate, env) == (None::<Seq<char>>, fs),
{
    reveal_with_fuel(run_flow, 6);
}

/// A non-empty candidate that exists resolves to exactly that path,
/// unchanged, and nothing is created.
pub proof fn lemma_existing_candidate_resolves(fs: FsModel, create_ok: bool, candidate: Seq<char>, env: EnvModel)
    requires
        candidate.len() > 0,
        fs_exists(fs, candidate),
    ensures
        resolve_run(fs, create_ok, candidate, env) == (Some(candidate), fs),
{
    reveal_with_fuel(run_flow, 6);
}

/// With an empty candidate and a known user home, the working directory
/// plays no part: the resolution is the same whatever it is.
pub proof fn lemma_cwd_unused(fs: FsModel, create_ok: bool, env1: EnvModel, env2: EnvModel)
    requires
        env1.user_home is Some,
        env2.user_home == env1.user_home,
        env2.documents == env1.documents,
    ensures
        resolve_run(fs, create_ok, Seq::<char>::empty(), env1)
            == resolve_run(fs, create_ok, Seq::<char>::empty(), env2),
{
    reveal_with_fuel(run_flow, 6);
}

/// A joined path keeps the last character of its component.
proof fn lemma_join_last(base: Seq<char>, name: Seq<char>)
    requires
        name.len() > 0,
    ensures
        join_seq(base, name).len() > 0,
        join_seq(base, name).last() == name.last(),
{
    reveal_strlit("/");
}

/// The application folder and the documents folder never share a path:
/// their names end differently.
proof fn lemma_glmy_not_documents(b1: Seq<char>, b2: Seq<char>)
    ensures
        join_seq(b1, "GLMY"@) != join_seq(b2, "Documents"@),
{
    reveal_strlit("GLMY");
    reveal_strlit("Documents");
    lemma_join_last(b1, "GLMY"@);
    lemma_join_last(b2, "Documents"@);
    assert("GLMY"@.last() == 'Y');
    assert("Documents"@.last() == 's');
}

/// Resolving twice in a row in the same environment is idempotent: when the
/// first run succeeds, the second observes the directory the first ensured,
/// returns the same path, asks for no creation, and leaves the filesystem
/// as it was — whether or not a creation could succeed now.
pub proof fn lemma_resolve_idempotent(fs: FsModel, create_ok: bool, create_ok2: bool, candidate: Seq<char>, env: EnvModel)
    requires
        resolve_run(fs, create_ok, candidate, env).0 is Some,
    ensures
        ({
            let (r1, fs1) = resolve_run(fs, create_ok, candidate, env);
            resolve_run(fs1, create_ok2, candidate, env) == (r1, fs1)
        }),
{
    reveal_with_fuel(run_flow, 6);
    let (r1, fs1) = resolve_run(fs, create_ok, candidate, env);
    if candidate.len() > 0 {
        assert(fs_exists(fs, candidate));
        assert(fs1 == fs);
    } else {
        match base_of(env) {
            Some(b) => {
                let d = env.documents;
                assert(fs_exists(fs, b));
                let docs = join_seq(b, "Documents"@);
                let current = if d && fs_exists(fs, docs) { docs } else { b };
                let g = join_seq(current, "GLMY"@);
                if fs_exists(fs, g) {
                    assert(fs1 == fs);
                    assert(r1 == Some(g));
                } else {
                    assert(create_ok);
                    assert(fs1 == FsModel { dirs: fs.dirs.insert(g), files: fs.files });
                    assert(r1 == Some(g));
                    assert(fs_exists(fs1, b));
                    if d {
                        if fs_exists(fs, docs) {
                            assert(fs_exists(fs1, docs));
                        } else {
                            lemma_glmy_not_documents(current, b);
                            assert(g != docs);
                            assert(!fs_exists(fs1, docs));
                        }
                    }
                    assert(fs_exists(fs1, g));
                }
            },
            None => {
                assert(false);
            },
        }
    }
}

} // verus!
