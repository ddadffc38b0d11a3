//! The two session operations: initialising the configuration and listing a
//! directory.
//!
//! Both begin by resolving the home directory and then continue with their
//! own filesystem questions, in the same ask-answer-step shape as the
//! resolver. The spec functions `run_initialize` and `run_read_dir` give
//! each whole run against the filesystem model, and the laws at the end of
//! this file hold of them.

use vstd::prelude::*;

use crate::paths::{join, join_seq};
use crate::outside::{json_reparse, reparse_json};
use crate::responses::{
    home_error_text, config_error_text, default_config_text, init_success_text,
    listing_success_text, listing_error_text, home_error_response, config_error_response,
    default_config, init_success_response, listing_success_response, listing_error_response,
};
use crate::resolver::{
    Env, EnvModel, RState, RStateModel, RQuery, RQueryModel, RFlow, RFlowModel, FsModel,
    fs_exists, model_answer, model_after, spec_home_dir, spec_query, spec_step, state_measure,
    run_flow, resolve_run, home_dir, resolve_query, resolve_step,
};

verus! {

// --- Initialise ---------------------------------------------------------

/// A question the initialise operation puts to the filesystem.
pub enum IQuery {
    Exists { path: String },
    CreateDir { path: String },
    WriteFile { path: String, text: String },
    ReadFile { path: String },
}

pub enum IQueryModel {
    Exists { path: Seq<char> },
    CreateDir { path: Seq<char> },
    WriteFile { path: Seq<char>, text: Seq<char> },
    ReadFile { path: Seq<char> },
}

impl View for IQuery {
    type V = IQueryModel;

    open spec fn view(&self) -> IQueryModel {
        match self {
            IQuery::Exists { path } => IQueryModel::Exists { path: path@ },
            IQuery::CreateDir { path } => IQueryModel::CreateDir { path: path@ },
            IQuery::WriteFile { path, text } => IQueryModel::WriteFile { path: path@, text: text@ },
            IQuery::ReadFile { path } => IQueryModel::ReadFile { path: path@ },
        }
    }
}

/// An initialisation in progress.
pub enum IState {
    /// The home directory is still being resolved.
    Resolving { r: RState },
    /// Does the configuration file exist?
    ConfigCheck { config: String },
    /// Could the default configuration be written?
    WriteDefault { config: String },
    /// What does the configuration file hold?
    ReadConfig { config: String },
}

pub enum IStateModel {
    Resolving { r: RStateModel },
    ConfigCheck { config: Seq<char> },
    WriteDefault { config: Seq<char> },
    ReadConfig { config: Seq<char> },
}

impl View for IState {
    type V = IStateModel;

    open spec fn view(&self) -> IStateModel {
        match self {
            IState::Resolving { r } => IStateModel::Resolving { r: r@ },
            IState::ConfigCheck { config } => IStateModel::ConfigCheck { config: config@ },
            IState::WriteDefault { config } => IStateModel::WriteDefault { config: config@ },
            IState::ReadConfig { config } => IStateModel::ReadConfig { config: config@ },
        }
    }
}

/// An initialisation: still waiting on the filesystem, or finished with its
/// response text.
pub enum IFlow {
    Pending { state: IState },
    Done { response: String },
}

pub enum IFlowModel {
    Pending { state: IStateModel },
    Done { response: Seq<char> },
}

impl View for IFlow {
    type V = IFlowModel;

    open spec fn view(&self) -> IFlowModel {
        match self {
            IFlow::Pending { state } => IFlowModel::Pending { state: state@ },
            IFlow::Done { response } => IFlowModel::Done { response: response@ },
        }
    }
}

/// How a finished resolution enters the configuration phase: failure is the
/// fixed home error, success asks after `config.json` beneath the home.
pub open spec fn ispec_wrap(f: RFlowModel) -> IFlowModel {
    match f {
        RFlowModel::Pending { state } => IFlowModel::Pending {
            state: IStateModel::Resolving { r: state },
        },
        RFlowModel::Done { home } => match home {
            None => IFlowModel::Done { response: home_error_text() },
            Some(h) => IFlowModel::Pending {
                state: IStateModel::ConfigCheck { config: join_seq(h, "config.json"@) },
            },
        },
    }
}

pub open spec fn ispec_initialize(candidate: Seq<char>, env: EnvModel) -> IFlowModel {
    ispec_wrap(spec_home_dir(candidate, env))
}

pub open spec fn iembed_query(q: RQueryModel) -> IQueryModel {
    match q {
        RQueryModel::Exists { path } => IQueryModel::Exists { path },
        RQueryModel::CreateDir { path } => IQueryModel::CreateDir { path },
    }
}

/// The question a pending initialisation state waits on.
pub open spec fn ispec_query(s: IStateModel) -> IQueryModel {
    match s {
        IStateModel::Resolving { r } => iembed_query(spec_query(r)),
        IStateModel::ConfigCheck { config } => IQueryModel::Exists { path: config },
        IStateModel::WriteDefault { config } => IQueryModel::WriteFile {
            path: config,
            text: default_config_text(),
        },
        IStateModel::ReadConfig { config } => IQueryModel::ReadFile { path: config },
    }
}

/// One step on a yes-or-no answer: anything but a read.
pub open spec fn ispec_step(s: IStateModel, ok: bool) -> IFlowModel {
    match s {
        IStateModel::Resolving { r } => ispec_wrap(spec_step(r, ok)),
        IStateModel::ConfigCheck { config } => {
            if ok {
                IFlowModel::Pending { state: IStateModel::ReadConfig { config } }
            } else {
                IFlowModel::Pending { state: IStateModel::WriteDefault { config } }
            }
        },
        IStateModel::WriteDefault { .. } => IFlowModel::Done {
            response: if ok {
                init_success_text(default_config_text())
            } else {
                config_error_text()
            },
        },
        // A read state takes its answer through `ispec_step_read`; this value
        // is never reached.
        IStateModel::ReadConfig { .. } => IFlowModel::Done { response: config_error_text() },
    }
}

/// One step on the text read from the configuration file: an unreadable or
/// unparsable file is the fixed configuration error, a parsable one is
/// returned as parsed and written back out.
pub open spec fn ispec_step_read(text: Option<Seq<char>>) -> IFlowModel {
    match text {
        None => IFlowModel::Done { response: config_error_text() },
        Some(t) => match json_reparse(t) {
            Some(c) => IFlowModel::Done { response: init_success_text(c) },
            None => IFlowModel::Done { response: config_error_text() },
        },
    }
}

fn iwrap(f: RFlow) -> (r: IFlow)
    ensures
        r@ == ispec_wrap(f@),
{
    match f {
        RFlow::Pending { state } => IFlow::Pending { state: IState::Resolving { r: state } },
        RFlow::Done { home } => match home {
            None => IFlow::Done { response: home_error_response() },
            Some(h) => IFlow::Pending {
                state: IState::ConfigCheck { config: join(h.as_str(), "config.json") },
            },
        },
    }
}

/// Begins an initialisation.
pub fn initialize(home_candidate: &str, env: &Env) -> (r: IFlow)
    ensures
        r@ == ispec_initialize(home_candidate@, env@),
{
    iwrap(home_dir(home_candidate, env))
}

/// The question the given pending state waits on.
pub fn initialize_query(state: &IState) -> (q: IQuery)
    ensures
        q@ == ispec_query(state@),
{
    match state {
        IState::Resolving { r } => match resolve_query(r) {
            RQuery::Exists { path } => IQuery::Exists { path },
            RQuery::CreateDir { path } => IQuery::CreateDir { path },
        },
        IState::ConfigCheck { config } => IQuery::Exists { path: config.clone() },
        IState::WriteDefault { config } => IQuery::WriteFile {
            path: config.clone(),
            text: default_config(),
        },
        IState::ReadConfig { config } => IQuery::ReadFile { path: config.clone() },
    }
}

/// Advances an initialisation by a yes-or-no answer: for an existence
/// question, whether the path exists; for a creation or a write, whether it
/// succeeded. A read is answered through `initialize_step_read`.
pub fn initialize_step(state: IState, ok: bool) -> (r: IFlow)
    requires
        !(state@ is ReadConfig),
    ensures
        r@ == ispec_step(state@, ok),
{
    match state {
        IState::Resolving { r } => iwrap(resolve_step(r, ok)),
        IState::ConfigCheck { config } => {
            if ok {
                IFlow::Pending { state: IState::ReadConfig { config } }
            } else {
                IFlow::Pending { state: IState::WriteDefault { config } }
            }
        },
        IState::WriteDefault { .. } => {
            if ok {
                IFlow::Done { response: init_success_response(default_config().as_str()) }
            } else {
                IFlow::Done { response: config_error_response() }
            }
        },
        IState::ReadConfig { .. } => unreached(),
    }
}

/// Advances an initialisation by the text read from the configuration file,
/// or by the report that it could not be read.
pub fn initialize_step_read(state: IState, text: Option<String>) -> (r: IFlow)
    requires
        state@ is ReadConfig,
    ensures
        r@ == ispec_step_read(match text {
            Some(t) => Some(t@),
            None => None,
        }),
{
    match text {
        None => IFlow::Done { response: config_error_response() },
        Some(t) => match reparse_json(t.as_str()) {
            Some(c) => IFlow::Done { response: init_success_response(c.as_str()) },
            None => IFlow::Done { response: config_error_response() },
        },
    }
}

/// How the model answers an initialise question.
pub open spec fn imodel_answer(fs: FsModel, create_ok: bool, write_ok: bool, q: IQueryModel) -> bool {
    match q {
        IQueryModel::Exists { path } => fs_exists(fs, path),
        IQueryModel::CreateDir { .. } => create_ok,
        IQueryModel::WriteFile { .. } => write_ok,
        IQueryModel::ReadFile { .. } => false,
    }
}

/// The model after an initialise question: a successful creation adds the
/// directory, a successful write puts the text at the path.
pub open spec fn imodel_after(fs: FsModel, q: IQueryModel, ok: bool) -> FsModel {
    match q {
        IQueryModel::CreateDir { path } => {
            if ok {
                FsModel { dirs: fs.dirs.insert(path), files: fs.files }
            } else {
                fs
            }
        },
        IQueryModel::WriteFile { path, text } => {
            if ok {
                FsModel { dirs: fs.dirs, files: fs.files.insert(path, text) }
            } else {
                fs
            }
        },
        _ => fs,
    }
}

pub open spec fn istate_measure(s: IStateModel) -> nat {
    match s {
        IStateModel::Resolving { r } => state_measure(r) + 3,
        IStateModel::ConfigCheck { .. } => 2,
        IStateModel::WriteDefault { .. } => 1,
        IStateModel::ReadConfig { .. } => 1,
    }
}

pub open spec fn iflow_measure(f: IFlowModel) -> nat {
    match f {
        IFlowModel::Done { .. } => 0,
        IFlowModel::Pending { state } => istate_measure(state),
    }
}

/// A whole initialisation run against the model: a read is answered from the
/// files, every other question through `imodel_answer`.
pub open spec fn run_iflow(fs: FsModel, create_ok: bool, write_ok: bool, f: IFlowModel) -> (Seq<char>, FsModel)
    decreases iflow_measure(f),
{
    match f {
        IFlowModel::Done { response } => (response, fs),
        IFlowModel::Pending { state } => match state {
            IStateModel::ReadConfig { config } => {
                let text = if fs.files.dom().contains(config) {
                    Some(fs.files[config])
                } else {
                    None
                };
                run_iflow(fs, create_ok, write_ok, ispec_step_read(text))
            },
            _ => {
                let q = ispec_query(state);
                let a = imodel_answer(fs, create_ok, write_ok, q);
                run_iflow(imodel_after(fs, q, a), create_ok, write_ok, ispec_step(state, a))
            },
        },
    }
}

/// A whole initialisation against the model.
pub open spec fn run_initialize(fs: FsModel, create_ok: bool, write_ok: bool, candidate: Seq<char>, env: EnvModel) -> (Seq<char>, FsModel) {
    run_iflow(fs, create_ok, write_ok, ispec_initialize(candidate, env))
}

/// An initialisation is a resolution followed by the configuration phase:
/// when resolution fails the response is the fixed home error, and
/// otherwise the run continues at the configuration file beneath the
/// resolved home.
pub proof fn lemma_initialize_split(fs: FsModel, create_ok: bool, write_ok: bool, rf: RFlowModel)
    ensures
        run_iflow(fs, create_ok, write_ok, ispec_wrap(rf)) == ({
            let (r, fs1) = run_flow(fs, create_ok, rf);
            match r {
                None => (home_error_text(), fs1),
                Some(h) => run_iflow(fs1, create_ok, write_ok, IFlowModel::Pending {
                    state: IStateModel::ConfigCheck { config: join_seq(h, "config.json"@) },
                }),
            }
        }),
    decreases crate::resolver::flow_measure(rf),
{
    reveal_with_fuel(run_flow, 2);
    reveal_with_fuel(run_iflow, 2);
    match rf {
        RFlowModel::Done { home } => {
        },
        RFlowModel::Pending { state } => {
            let q = spec_query(state);
            let a = model_answer(fs, create_ok, q);
            assert(imodel_answer(fs, create_ok, write_ok, iembed_query(q)) == a);
            assert(imodel_after(fs, iembed_query(q), a) == model_after(fs, q, a));
            lemma_initialize_split(model_after(fs, q, a), create_ok, write_ok, spec_step(state, a));
        },
    }
}

/// Initialising over a home with no configuration file writes the default
/// configuration, exactly, and returns it as the successful result.
pub proof fn lemma_first_initialize(fs: FsModel, create_ok: bool, candidate: Seq<char>, env: EnvModel)
    requires
        resolve_run(fs, create_ok, candidate, env).0 is Some,
        !fs_exists(
            resolve_run(fs, create_ok, candidate, env).1,
            join_seq(resolve_run(fs, create_ok, candidate, env).0->0, "config.json"@),
        ),
    ensures
        ({
            let (home, fs1) = resolve_run(fs, create_ok, candidate, env);
            let config = join_seq(home->0, "config.json"@);
            run_initialize(fs, create_ok, true, candidate, env) == (
                init_success_text(default_config_text()),
                FsModel { dirs: fs1.dirs, files: fs1.files.insert(config, default_config_text()) },
            )
        }),
{
    lemma_initialize_split(fs, create_ok, true, spec_home_dir(candidate, env));
    reveal_with_fuel(run_iflow, 4);
}

/// Initialising over a home whose configuration file already holds a text
/// does not write: when the text parses as JSON the response wraps the
/// parsed value, written back out, and when it does not the response is the
/// fixed configuration error; either way the filesystem is untouched.
pub proof fn lemma_initialize_existing_config(fs: FsModel, create_ok: bool, write_ok: bool, candidate: Seq<char>, env: EnvModel)
    requires
        resolve_run(fs, create_ok, candidate, env).0 is Some,
        resolve_run(fs, create_ok, candidate, env).1.files.dom().contains(
            join_seq(resolve_run(fs, create_ok, candidate, env).0->0, "config.json"@),
        ),
    ensures
        ({
            let (home, fs1) = resolve_run(fs, create_ok, candidate, env);
            let text = fs1.files[join_seq(home->0, "config.json"@)];
            run_initialize(fs, create_ok, write_ok, candidate, env) == (
                match json_reparse(text) {
                    Some(c) => init_success_text(c),
                    None => config_error_text(),
                },
                fs1,
            )
        }),
{
    lemma_initialize_split(fs, create_ok, write_ok, spec_home_dir(candidate, env));
    reveal_with_fuel(run_iflow, 4);
}

// --- Read directory -----------------------------------------------------

/// A question the listing operation puts to the filesystem.
pub enum DQuery {
    Exists { path: String },
    CreateDir { path: String },
    ListDir { path: String },
}

pub enum DQueryModel {
    Exists { path: Seq<char> },
    CreateDir { path: Seq<char> },
    ListDir { path: Seq<char> },
}

impl View for DQuery {
    type V = DQueryModel;

    open spec fn view(&self) -> DQueryModel {
        match self {
            DQuery::Exists { path } => DQueryModel::Exists { path: path@ },
            DQuery::CreateDir { path } => DQueryModel::CreateDir { path: path@ },
            DQuery::ListDir { path } => DQueryModel::ListDir { path: path@ },
        }
    }
}

/// A listing in progress.
pub enum DState {
    /// The home directory is still being resolved; the requested subpath is
    /// kept for the listing.
    Resolving { r: RState, subpath: String },
    /// What does the target directory hold?
    Listing { target: String },
}

pub enum DStateModel {
    Resolving { r: RStateModel, subpath: Seq<char> },
    Listing { target: Seq<char> },
}

impl View for DState {
    type V = DStateModel;

    open spec fn view(&self) -> DStateModel {
        match self {
            DState::Resolving { r, subpath } => DStateModel::Resolving { r: r@, subpath: subpath@ },
            DState::Listing { target } => DStateModel::Listing { target: target@ },
        }
    }
}

/// A listing: still waiting on the filesystem, or finished with its
/// response text.
pub enum DFlow {
    Pending { state: DState },
    Done { response: String },
}

pub enum DFlowModel {
    Pending { state: DStateModel },
    Done { response: Seq<char> },
}

impl View for DFlow {
    type V = DFlowModel;

    open spec fn view(&self) -> DFlowModel {
        match self {
            DFlow::Pending { state } => DFlowModel::Pending { state: state@ },
            DFlow::Done { response } => DFlowModel::Done { response: response@ },
        }
    }
}

/// The path a listing looks at: the home itself for an empty subpath or the
/// bare separator, and the subpath beneath the home otherwise.
pub open spec fn target_of(home: Seq<char>, subpath: Seq<char>) -> Seq<char> {
    if subpath.len() == 0 || subpath == "/"@ {
        home
    } else {
        join_seq(home, subpath)
    }
}

/// How a finished resolution enters the listing phase.
pub open spec fn dspec_wrap(f: RFlowModel, subpath: Seq<char>) -> DFlowModel {
    match f {
        RFlowModel::Pending { state } => DFlowModel::Pending {
            state: DStateModel::Resolving { r: state, subpath },
        },
        RFlowModel::Done { home } => match home {
            None => DFlowModel::Done { response: home_error_text() },
            Some(h) => DFlowModel::Pending {
                state: DStateModel::Listing { target: target_of(h, subpath) },
            },
        },
    }
}

/// A listing always resolves the home with an empty candidate.
pub open spec fn dspec_read_dir(subpath: Seq<char>, env: EnvModel) -> DFlowModel {
    dspec_wrap(spec_home_dir(Seq::<char>::empty(), env), subpath)
}

pub open spec fn dembed_query(q: RQueryModel) -> DQueryModel {
    match q {
        RQueryModel::Exists { path } => DQueryModel::Exists { path },
        RQueryModel::CreateDir { path } => DQueryModel::CreateDir { path },
    }
}

/// The question a pending listing state waits on.
pub open spec fn dspec_query(s: DStateModel) -> DQueryModel {
    match s {
        DStateModel::Resolving { r, .. } => dembed_query(spec_query(r)),
        DStateModel::Listing { target } => DQueryModel::ListDir { path: target },
    }
}

/// One step on a yes-or-no answer while the home is being resolved.
pub open spec fn dspec_step(s: DStateModel, ok: bool) -> DFlowModel {
    match s {
        DStateModel::Resolving { r, subpath } => dspec_wrap(spec_step(r, ok), subpath),
        // A listing state takes its answer through `read_dir_step_list`; this
        // value is never reached.
        DStateModel::Listing { .. } => DFlowModel::Done { response: home_error_text() },
    }
}

/// The response once the filesystem has enumerated the target, or has
/// failed to with a message: every raw entry counts, the usable ones are
/// listed, and a failure carries the message and the attempted path.
pub open spec fn dspec_list_response(target: Seq<char>, listing: Result<Seq<Option<String>>, Seq<char>>) -> Seq<char> {
    match listing {
        Ok(raw) => listing_success_text(raw),
        Err(msg) => listing_error_text(msg, target),
    }
}

fn is_root(subpath: &str) -> (r: bool)
    ensures
        r == (subpath@ == "/"@),
{
    proof {
        reveal_strlit("/");
    }
    if subpath.unicode_len() == 1 {
        let c = subpath.get_char(0);
        let r = c == '/';
        proof {
            if r {
                assert(subpath@ =~= "/"@);
            } else {
                assert(subpath@ != "/"@);
            }
        }
        r
    } else {
        false
    }
}

fn target_path(home: String, subpath: &str) -> (r: String)
    ensures
        r@ == target_of(home@, subpath@),
{
    if subpath.is_empty() || is_root(subpath) {
        home
    } else {
        join(home.as_str(), subpath)
    }
}

fn dwrap(f: RFlow, subpath: &str) -> (r: DFlow)
    ensures
        r@ == dspec_wrap(f@, subpath@),
{
    match f {
        RFlow::Pending { state } => DFlow::Pending {
            state: DState::Resolving { r: state, subpath: subpath.to_owned() },
        },
        RFlow::Done { home } => match home {
            None => DFlow::Done { response: home_error_response() },
            Some(h) => DFlow::Pending {
                state: DState::Listing { target: target_path(h, subpath) },
            },
        },
    }
}

/// Begins a listing. The home is resolved with an empty candidate, whatever
/// the subpath.
pub fn read_dir(subpath: &str, env: &Env) -> (r: DFlow)
    ensures
        r@ == dspec_read_dir(subpath@, env@),
{
    let f = home_dir("", env);
    proof {
        reveal_strlit("");
        assert(""@ =~= Seq::<char>::empty());
    }
    dwrap(f, subpath)
}

/// The question the given pending state waits on.
pub fn read_dir_query(state: &DState) -> (q: DQuery)
    ensures
        q@ == dspec_query(state@),
{
    match state {
        DState::Resolving { r, .. } => match resolve_query(r) {
            RQuery::Exists { path } => DQuery::Exists { path },
            RQuery::CreateDir { path } => DQuery::CreateDir { path },
        },
        DState::Listing { target } => DQuery::ListDir { path: target.clone() },
    }
}

/// Advances a listing by a yes-or-no answer while the home is being
/// resolved. The enumeration itself is answered through
/// `read_dir_step_list`.
pub fn read_dir_step(state: DState, ok: bool) -> (r: DFlow)
    requires
        state@ is Resolving,
    ensures
        r@ == dspec_step(state@, ok),
{
    match state {
        DState::Resolving { r, subpath } => dwrap(resolve_step(r, ok), subpath.as_str()),
        DState::Listing { .. } => unreached(),
    }
}

/// Advances a listing by the filesystem's enumeration of the target: each
/// raw entry is a usable path string or nothing, and a failed enumeration
/// is its message.
pub fn read_dir_step_list(state: DState, listing: Result<Vec<Option<String>>, String>) -> (r: DFlow)
    requires
        state@ is Listing,
    ensures
        (state@ matches DStateModel::Listing { target } ==> r@ == (DFlowModel::Done {
            response: dspec_list_response(target, match listing {
                Ok(raw) => Ok(raw@),
                Err(msg) => Err(msg@),
            }),
        })),
{
    match state {
        DState::Listing { target } => match listing {
            Ok(raw) => DFlow::Done { response: listing_success_response(&raw) },
            Err(msg) => DFlow::Done {
                response: listing_error_response(msg.as_str(), target.as_str()),
            },
        },
        DState::Resolving { .. } => unreached(),
    }
}

pub open spec fn dstate_measure(s: DStateModel) -> nat {
    match s {
        DStateModel::Resolving { r, .. } => state_measure(r) + 2,
        DStateModel::Listing { .. } => 1,
    }
}

pub open spec fn dflow_measure(f: DFlowModel) -> nat {
    match f {
        DFlowModel::Done { .. } => 0,
        DFlowModel::Pending { state } => dstate_measure(state),
    }
}

/// A whole listing run against the model, the enumeration's outcome given
/// as `listing`.
pub open spec fn run_dflow(fs: FsModel, create_ok: bool, listing: Result<Seq<Option<String>>, Seq<char>>, f: DFlowModel) -> (Seq<char>, FsModel)
    decreases dflow_measure(f),
{
    match f {
        DFlowModel::Done { response } => (response, fs),
        DFlowModel::Pending { state } => match state {
            DStateModel::Listing { target } => (dspec_list_response(target, listing), fs),
            DStateModel::Resolving { r, subpath } => {
                let q = spec_query(r);
                let a = model_answer(fs, create_ok, q);
                run_dflow(model_after(fs, q, a), create_ok, listing, dspec_step(state, a))
            },
        },
    }
}

/// A whole listing against the model.
pub open spec fn run_read_dir(fs: FsModel, create_ok: bool, listing: Result<Seq<Option<String>>, Seq<char>>, subpath: Seq<char>, env: EnvModel) -> (Seq<char>, FsModel) {
    run_dflow(fs, create_ok, listing, dspec_read_dir(subpath, env))
}

/// A listing is a resolution with an empty candidate followed by one
/// enumeration: when resolution fails the response is the fixed home error;
/// otherwise the listing looks at the home itself for an empty or bare
/// separator subpath and at the subpath beneath the home for any other, and
/// a failed enumeration reports its message with that exact path.
pub proof fn lemma_read_dir_split(fs: FsModel, create_ok: bool, listing: Result<Seq<Option<String>>, Seq<char>>, subpath: Seq<char>, env: EnvModel)
    ensures
        run_read_dir(fs, create_ok, listing, subpath, env) == ({
            let (r, fs1) = resolve_run(fs, create_ok, Seq::<char>::empty(), env);
            match r {
                None => (home_error_text(), fs1),
                Some(h) => (dspec_list_response(target_of(h, subpath), listing), fs1),
            }
        }),
{
    lemma_dflow_split(fs, create_ok, listing, subpath, spec_home_dir(Seq::<char>::empty(), env));
}

proof fn lemma_dflow_split(fs: FsModel, create_ok: bool, listing: Result<Seq<Option<String>>, Seq<char>>, subpath: Seq<char>, rf: RFlowModel)
    ensures
        run_dflow(fs, create_ok, listing, dspec_wrap(rf, subpath)) == ({
            let (r, fs1) = run_flow(fs, create_ok, rf);
            match r {
                None => (home_error_text(), fs1),
                Some(h) => (dspec_list_response(target_of(h, subpath), listing), fs1),
            }
        }),
    decreases crate::resolver::flow_measure(rf),
{
    reveal_with_fuel(run_flow, 2);
    reveal_with_fuel(run_dflow, 2);
    match rf {
        RFlowModel::Done { home } => {
        },
        RFlowModel::Pending { state } => {
            let q = spec_query(state);
            let a = model_answer(fs, create_ok, q);
            lemma_dflow_split(model_after(fs, q, a), create_ok, listing, subpath, spec_step(state, a));
        },
    }
}

/// The listing target for an empty subpath and for the bare separator is
/// the home itself, and for any other subpath it is the subpath beneath the
/// home.
pub proof fn lemma_target_choice(home: Seq<char>, subpath: Seq<char>)
    ensures
        target_of(home, Seq::<char>::empty()) == home,
        target_of(home, "/"@) == home,
        subpath.len() > 0 && subpath != "/"@ ==> target_of(home, subpath) == join_seq(home, subpath),
{
}

} // verus!
