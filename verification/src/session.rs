//! The tool's whole control flow as a verified state machine.
//!
//! The session opens a repository, resolves one reference name to an object
//! identifier, looks the commit up, prints its author and message, and
//! releases every native handle it took — on failing paths too. The native
//! calls themselves happen outside: each transition returns the [`Action`]s
//! the shell must perform, and the shell feeds the outcome of the one query
//! action back as the next [`Event`]. The machine makes every decision, so
//! the decisions are verified; the shell only executes.
//!
//! The release discipline is a theorem here, not a convention:
//! [`lemma_handles_released`] says that over any run that reaches its end,
//! the emitted free actions match the accepted native handles exactly,
//! one-to-one, and [`lemma_repo_gains_bound`] that at most one repository
//! handle is ever accepted, so a successful open is released exactly once.

use vstd::prelude::*;
use vstd::string::StrSliceExecFns;
use vstd::string::StringExecFns;
use vstd::utf8::encode_utf8;

verus! {

use crate::error::is_success_spec;
use crate::repo::Commit;
use crate::repo::Oid;
use crate::repo::Repository;
use crate::repo::Signature;
use crate::text::decoded_text;
use crate::text::has_nul_byte;
use crate::text::nul_error_text;
use crate::text::to_c_bytes;
use crate::text::view_opt_bytes;

/// What the shell must do next. At most one query action (open, resolve,
/// lookup) stands in a returned list, always last before the list ends or a
/// terminal `Exit`; its outcome comes back as the next [`Event`].
pub enum Action {
    /// Open the repository at this null-terminated path.
    OpenRepo { path: Vec<u8> },
    /// Resolve this null-terminated reference name in the repository behind
    /// the handle.
    ResolveName { repo: usize, name: Vec<u8> },
    /// Look up the commit with this identifier.
    LookupCommit { repo: usize, id: Oid },
    /// Release the native commit object behind the handle, exactly once.
    FreeCommit { commit: usize },
    /// Release the native repository object behind the handle, exactly once.
    FreeRepo { repo: usize },
    /// Write this text to standard output, exactly as given.
    Print { text: String },
    /// Terminate with this exit code, after writing the diagnostic, if any,
    /// to standard error.
    Exit { code: u8, diagnostic: Option<String> },
}

/// The outcome of a query action, fed back by the shell. On failure
/// (`status` negative) `message` and `class` carry the engine's copied-out
/// last-error record; on success they are unused and may be empty.
pub enum Event {
    /// Outcome of `OpenRepo`: on success `handle` is the non-null repository
    /// handle.
    Opened { status: i32, handle: usize, message: String, class: i32 },
    /// Outcome of `ResolveName`: on success `id` is the resolved identifier.
    Resolved { status: i32, id: Oid, message: String, class: i32 },
    /// Outcome of `LookupCommit`: on success `handle` is the non-null commit
    /// handle, and `name`, `email` and `text` are the author name, author
    /// email and message bytes copied out of the commit, each `None` where
    /// the engine reported a null pointer.
    Found {
        status: i32,
        handle: usize,
        name: Option<Vec<u8>>,
        email: Option<Vec<u8>>,
        text: Option<Vec<u8>>,
        message: String,
        class: i32,
    },
}

/// The session's state between two events.
pub enum Session {
    /// Waiting for the outcome of the open; `name` holds the UTF-8 bytes of
    /// the reference name to resolve next.
    Opening { name: Vec<u8> },
    /// Waiting for the outcome of the reference resolution; owns the
    /// repository.
    Resolving { repo: Repository },
    /// Waiting for the outcome of the commit lookup; owns the repository.
    Looking { repo: Repository, id: Oid },
    /// Finished; every accepted handle has been handed to a free action.
    Done { code: u8 },
}

/// Mathematical image of an [`Action`].
pub enum ActionModel {
    OpenRepo { path: Seq<u8> },
    ResolveName { repo: usize, name: Seq<u8> },
    LookupCommit { repo: usize, id: Seq<u8> },
    FreeCommit { commit: usize },
    FreeRepo { repo: usize },
    Print { text: Seq<char> },
    Exit { code: u8, diagnostic: Option<Seq<char>> },
}

/// Mathematical image of an [`Event`].
pub enum EventModel {
    Opened { status: i32, handle: usize, message: Seq<char>, class: i32 },
    Resolved { status: i32, id: Seq<u8>, message: Seq<char>, class: i32 },
    Found {
        status: i32,
        handle: usize,
        name: Option<Seq<u8>>,
        email: Option<Seq<u8>>,
        text: Option<Seq<u8>>,
        message: Seq<char>,
        class: i32,
    },
}

/// Mathematical image of a [`Session`].
pub enum SessionModel {
    Opening { name: Seq<u8> },
    Resolving { repo: usize },
    Looking { repo: usize, id: Seq<u8> },
    Done { code: u8 },
}

impl View for Action {
    type V = ActionModel;

    open spec fn view(&self) -> ActionModel {
        match self {
            Action::OpenRepo { path } => ActionModel::OpenRepo { path: path@ },
            Action::ResolveName { repo, name } => ActionModel::ResolveName {
                repo: *repo,
                name: name@,
            },
            Action::LookupCommit { repo, id } => ActionModel::LookupCommit {
                repo: *repo,
                id: id.id@,
            },
            Action::FreeCommit { commit } => ActionModel::FreeCommit { commit: *commit },
            Action::FreeRepo { repo } => ActionModel::FreeRepo { repo: *repo },
            Action::Print { text } => ActionModel::Print { text: text@ },
            Action::Exit { code, diagnostic } => ActionModel::Exit {
                code: *code,
                diagnostic: match diagnostic {
                    Some(d) => Some(d@),
                    None => None,
                },
            },
        }
    }
}

impl View for Event {
    type V = EventModel;

    open spec fn view(&self) -> EventModel {
        match self {
            Event::Opened { status, handle, message, class } => EventModel::Opened {
                status: *status,
                handle: *handle,
                message: message@,
                class: *class,
            },
            Event::Resolved { status, id, message, class } => EventModel::Resolved {
                status: *status,
                id: id.id@,
                message: message@,
                class: *class,
            },
            Event::Found { status, handle, name, email, text, message, class } => {
                EventModel::Found {
                    status: *status,
                    handle: *handle,
                    name: view_opt_bytes(name),
                    email: view_opt_bytes(email),
                    text: view_opt_bytes(text),
                    message: message@,
                    class: *class,
                }
            },
        }
    }
}

impl View for Session {
    type V = SessionModel;

    open spec fn view(&self) -> SessionModel {
        match self {
            Session::Opening { name } => SessionModel::Opening { name: name@ },
            Session::Resolving { repo } => SessionModel::Resolving { repo: repo.handle() },
            Session::Looking { repo, id } => SessionModel::Looking {
                repo: repo.handle(),
                id: id.id@,
            },
            Session::Done { code } => SessionModel::Done { code: *code },
        }
    }
}

/// The view of a list of actions.
pub open spec fn acts_view(acts: Seq<Action>) -> Seq<ActionModel> {
    acts.map_values(|a: Action| a@)
}

/// The activity named in the diagnostic of a failing open.
pub open spec fn open_activity() -> Seq<char> {
    "opening repository"@
}

/// The activity named in the diagnostic of a failing reference resolution.
pub open spec fn resolve_activity() -> Seq<char> {
    "looking up 'HEAD' reference"@
}

/// The activity named in the diagnostic of a failing commit lookup.
pub open spec fn lookup_activity() -> Seq<char> {
    "looking up commit"@
}

/// A diagnostic names the failing activity, then the error's message.
pub open spec fn diagnostic_text(activity: Seq<char>, message: Seq<char>) -> Seq<char> {
    activity + ": "@ + message
}

/// Builds a diagnostic naming the failing activity and the error's message.
fn diagnostic(activity: &str, message: &str) -> (s: String)
    ensures
        s@ == diagnostic_text(activity@, message@),
{
    let mut s = String::from_str(activity);
    s.append(": ");
    s.append(message);
    s
}

/// How an optional byte string from the engine is shown: its decoding, or
/// the placeholder where it is absent or not valid UTF-8.
pub open spec fn shown_field(bytes: Option<Seq<u8>>) -> Seq<char> {
    match decoded_text(bytes) {
        Some(t) => t,
        None => "(none)"@,
    }
}

/// The author block the session prints: name, email in angle brackets, and a
/// blank line after.
pub open spec fn author_line(name: Option<Seq<u8>>, email: Option<Seq<u8>>) -> Seq<char> {
    shown_field(name) + " <"@ + shown_field(email) + ">\n\n"@
}

/// Renders the author block from a signature.
fn render_author(sig: &Signature) -> (s: String)
    ensures
        s@ == author_line(sig.name_bytes(), sig.email_bytes()),
{
    let mut s = match sig.name() {
        Some(n) => n,
        None => String::from_str("(none)"),
    };
    s.append(" <");
    match sig.email() {
        Some(e) => s.append(e.as_str()),
        None => s.append("(none)"),
    }
    s.append(">\n\n");
    s
}

/// The print actions of a successful lookup: the author block, then the
/// message exactly as it decodes — nothing where it is absent or not valid
/// UTF-8.
pub open spec fn success_prints(
    name: Option<Seq<u8>>,
    email: Option<Seq<u8>>,
    text: Option<Seq<u8>>,
) -> Seq<ActionModel> {
    let author = seq![ActionModel::Print { text: author_line(name, email) }];
    match decoded_text(text) {
        Some(m) => author.push(ActionModel::Print { text: m }),
        None => author,
    }
}

/// Whether an event is one the native interface can produce: a successful
/// open or lookup always hands back a non-null handle.
pub open spec fn event_wf(e: EventModel) -> bool {
    match e {
        EventModel::Opened { status, handle, .. } => is_success_spec(status) ==> handle != 0,
        EventModel::Resolved { .. } => true,
        EventModel::Found { status, handle, .. } => is_success_spec(status) ==> handle != 0,
    }
}

/// Whether an event answers the query the session is waiting on.
pub open spec fn expects(s: SessionModel, e: EventModel) -> bool {
    match (s, e) {
        (SessionModel::Opening { .. }, EventModel::Opened { .. }) => true,
        (SessionModel::Resolving { .. }, EventModel::Resolved { .. }) => true,
        (SessionModel::Looking { .. }, EventModel::Found { .. }) => true,
        _ => false,
    }
}

/// A session state is well formed when every handle it holds is non-null.
pub open spec fn session_wf(s: SessionModel) -> bool {
    match s {
        SessionModel::Resolving { repo } => repo != 0,
        SessionModel::Looking { repo, .. } => repo != 0,
        _ => true,
    }
}

/// The first transition: validate the path and ask for the open, or finish
/// at once when the path holds an embedded null byte. `name` is the UTF-8
/// byte string of the reference name to resolve later.
pub open spec fn begin_spec(path: Seq<u8>, name: Seq<u8>) -> (SessionModel, Seq<ActionModel>) {
    if has_nul_byte(path) {
        (
            SessionModel::Done { code: 1 },
            seq![
                ActionModel::Exit {
                    code: 1,
                    diagnostic: Some(diagnostic_text(open_activity(), nul_error_text())),
                },
            ],
        )
    } else {
        (
            SessionModel::Opening { name },
            seq![ActionModel::OpenRepo { path: path.push(0u8) }],
        )
    }
}

/// The transition relation: from a waiting state and the event answering it,
/// the next state and the actions to perform, in order.
///
/// Every path out of a state that owns a handle either keeps the handle in
/// the next state or emits the free action for it in this very step; a
/// commit's free always precedes its repository's.
pub open spec fn step_spec(s: SessionModel, e: EventModel) -> (SessionModel, Seq<ActionModel>) {
    match (s, e) {
        (
            SessionModel::Opening { name },
            EventModel::Opened { status, handle, message, .. },
        ) => {
            if !is_success_spec(status) {
                (
                    SessionModel::Done { code: 1 },
                    seq![
                        ActionModel::Exit {
                            code: 1,
                            diagnostic: Some(diagnostic_text(open_activity(), message)),
                        },
                    ],
                )
            } else if has_nul_byte(name) {
                (
                    SessionModel::Done { code: 1 },
                    seq![
                        ActionModel::FreeRepo { repo: handle },
                        ActionModel::Exit {
                            code: 1,
                            diagnostic: Some(
                                diagnostic_text(resolve_activity(), nul_error_text()),
                            ),
                        },
                    ],
                )
            } else {
                (
                    SessionModel::Resolving { repo: handle },
                    seq![ActionModel::ResolveName { repo: handle, name: name.push(0u8) }],
                )
            }
        },
        (
            SessionModel::Resolving { repo },
            EventModel::Resolved { status, id, message, .. },
        ) => {
            if !is_success_spec(status) {
                (
                    SessionModel::Done { code: 1 },
                    seq![
                        ActionModel::FreeRepo { repo },
                        ActionModel::Exit {
                            code: 1,
                            diagnostic: Some(diagnostic_text(resolve_activity(), message)),
                        },
                    ],
                )
            } else {
                (
                    SessionModel::Looking { repo, id },
                    seq![ActionModel::LookupCommit { repo, id }],
                )
            }
        },
        (
            SessionModel::Looking { repo, .. },
            EventModel::Found { status, handle, name, email, text, message, .. },
        ) => {
            if !is_success_spec(status) {
                (
                    SessionModel::Done { code: 1 },
                    seq![
                        ActionModel::FreeRepo { repo },
                        ActionModel::Exit {
                            code: 1,
                            diagnostic: Some(diagnostic_text(lookup_activity(), message)),
                        },
                    ],
                )
            } else {
                (
                    SessionModel::Done { code: 0 },
                    success_prints(name, email, text) + seq![
                        ActionModel::FreeCommit { commit: handle },
                        ActionModel::FreeRepo { repo },
                        ActionModel::Exit { code: 0, diagnostic: None },
                    ],
                )
            }
        },
        _ => (s, Seq::empty()),
    }
}

/// Starts a session for the repository at `path` (its platform bytes) that
/// will resolve the reference `name`.
pub fn begin(path: &[u8], name: &str) -> (r: (Session, Vec<Action>))
    ensures
        r.0@ == begin_spec(path@, encode_utf8(name@)).0,
        acts_view(r.1@) == begin_spec(path@, encode_utf8(name@)).1,
        session_wf(r.0@),
{
    let mut acts: Vec<Action> = Vec::new();
    match crate::text::path_to_cstring(path) {
        Err(e) => {
            let d = diagnostic("opening repository", e.to_text());
            acts.push(Action::Exit { code: 1, diagnostic: Some(d) });
            proof {
                assert(acts_view(acts@) =~~= begin_spec(path@, encode_utf8(name@)).1);
            }
            (Session::Done { code: 1 }, acts)
        },
        Ok(c) => {
            acts.push(Action::OpenRepo { path: c });
            proof {
                assert(acts_view(acts@) =~~= begin_spec(path@, encode_utf8(name@)).1);
            }
            (Session::Opening { name: name.as_bytes_vec() }, acts)
        },
    }
}

/// One transition of the session: consumes the state and the event answering
/// its pending query, returns the next state and the actions to perform.
pub fn step(s: Session, e: Event) -> (r: (Session, Vec<Action>))
    requires
        expects(s@, e@),
        event_wf(e@),
        session_wf(s@),
    ensures
        r.0@ == step_spec(s@, e@).0,
        acts_view(r.1@) == step_spec(s@, e@).1,
        session_wf(r.0@),
{
    let ghost spec_r = step_spec(s@, e@);
    let mut acts: Vec<Action> = Vec::new();
    match (s, e) {
        (Session::Opening { name }, Event::Opened { status, handle, message, class: _ }) => {
            if status < 0 {
                let d = diagnostic("opening repository", message.as_str());
                acts.push(Action::Exit { code: 1, diagnostic: Some(d) });
                proof {
                    assert(acts_view(acts@) =~~= spec_r.1);
                }
                (Session::Done { code: 1 }, acts)
            } else {
                match to_c_bytes(name.as_slice()) {
                    Err(e) => {
                        let d = diagnostic("looking up 'HEAD' reference", e.to_text());
                        acts.push(Action::FreeRepo { repo: handle });
                        acts.push(Action::Exit { code: 1, diagnostic: Some(d) });
                        proof {
                            assert(acts_view(acts@) =~~= spec_r.1);
                        }
                        (Session::Done { code: 1 }, acts)
                    },
                    Ok(c) => {
                        acts.push(Action::ResolveName { repo: handle, name: c });
                        proof {
                            assert(acts_view(acts@) =~~= spec_r.1);
                        }
                        (Session::Resolving { repo: Repository::from_native(handle) }, acts)
                    },
                }
            }
        },
        (Session::Resolving { repo }, Event::Resolved { status, id, message, class: _ }) => {
            if status < 0 {
                let d = diagnostic("looking up 'HEAD' reference", message.as_str());
                acts.push(Action::FreeRepo { repo: repo.release() });
                acts.push(Action::Exit { code: 1, diagnostic: Some(d) });
                proof {
                    assert(acts_view(acts@) =~~= spec_r.1);
                }
                (Session::Done { code: 1 }, acts)
            } else {
                acts.push(Action::LookupCommit { repo: repo.native(), id });
                proof {
                    assert(acts_view(acts@) =~~= spec_r.1);
                }
                (Session::Looking { repo, id }, acts)
            }
        },
        (
            Session::Looking { repo, id: _ },
            Event::Found { status, handle, name, email, text, message, class: _ },
        ) => {
            if status < 0 {
                let d = diagnostic("looking up commit", message.as_str());
                acts.push(Action::FreeRepo { repo: repo.release() });
                acts.push(Action::Exit { code: 1, diagnostic: Some(d) });
                proof {
                    assert(acts_view(acts@) =~~= spec_r.1);
                }
                (Session::Done { code: 1 }, acts)
            } else {
                let author = Signature::new(name, email);
                let commit = Commit::from_native(handle, author, text);
                let line = render_author(commit.author());
                acts.push(Action::Print { text: line });
                match commit.message() {
                    Some(m) => acts.push(Action::Print { text: m }),
                    None => {},
                }
                acts.push(Action::FreeCommit { commit: commit.release() });
                acts.push(Action::FreeRepo { repo: repo.release() });
                acts.push(Action::Exit { code: 0, diagnostic: None });
                proof {
                    assert(acts_view(acts@) =~~= spec_r.1);
                }
                (Session::Done { code: 0 }, acts)
            }
        },
        (s2, _) => {
            // An event that does not answer the pending query; ruled out by
            // the `expects` precondition.
            proof {
                assert(false);
            }
            (s2, acts)
        },
    }
}

/// Whether a sequence of events answers the session's queries in order, each
/// event well formed and answering the query pending in the state it meets.
pub open spec fn trace_ok(s: SessionModel, evs: Seq<EventModel>) -> bool
    decreases evs.len(),
{
    if evs.len() == 0 {
        true
    } else {
        &&& expects(s, evs[0])
        &&& event_wf(evs[0])
        &&& trace_ok(step_spec(s, evs[0]).0, evs.drop_first())
    }
}

/// The state a run of the session reaches, and everything it emits on the
/// way, over a sequence of events.
pub open spec fn run_spec(s: SessionModel, evs: Seq<EventModel>) -> (SessionModel, Seq<ActionModel>)
    decreases evs.len(),
{
    if evs.len() == 0 {
        (s, Seq::empty())
    } else {
        let first = step_spec(s, evs[0]);
        let rest = run_spec(first.0, evs.drop_first());
        (rest.0, first.1 + rest.1)
    }
}

/// How many repository free actions a list of actions holds.
pub open spec fn count_free_repo(acts: Seq<ActionModel>) -> nat
    decreases acts.len(),
{
    if acts.len() == 0 {
        0
    } else {
        (if acts.last() is FreeRepo {
            1nat
        } else {
            0nat
        }) + count_free_repo(acts.drop_last())
    }
}

/// How many commit free actions a list of actions holds.
pub open spec fn count_free_commit(acts: Seq<ActionModel>) -> nat
    decreases acts.len(),
{
    if acts.len() == 0 {
        0
    } else {
        (if acts.last() is FreeCommit {
            1nat
        } else {
            0nat
        }) + count_free_commit(acts.drop_last())
    }
}

/// Whether this step accepts ownership of a repository handle: an affirmative
/// answer to the pending open.
pub open spec fn repo_gain(s: SessionModel, e: EventModel) -> nat {
    match (s, e) {
        (SessionModel::Opening { .. }, EventModel::Opened { status, .. }) => if is_success_spec(
            status,
        ) {
            1nat
        } else {
            0nat
        },
        _ => 0nat,
    }
}

/// Whether this step accepts ownership of a commit handle: an affirmative
/// answer to the pending lookup.
pub open spec fn commit_gain(s: SessionModel, e: EventModel) -> nat {
    match (s, e) {
        (SessionModel::Looking { .. }, EventModel::Found { status, .. }) => if is_success_spec(
            status,
        ) {
            1nat
        } else {
            0nat
        },
        _ => 0nat,
    }
}

/// How many repository handles a run accepts over a sequence of events.
pub open spec fn repo_gains(s: SessionModel, evs: Seq<EventModel>) -> nat
    decreases evs.len(),
{
    if evs.len() == 0 {
        0
    } else {
        repo_gain(s, evs[0]) + repo_gains(step_spec(s, evs[0]).0, evs.drop_first())
    }
}

/// How many commit handles a run accepts over a sequence of events.
pub open spec fn commit_gains(s: SessionModel, evs: Seq<EventModel>) -> nat
    decreases evs.len(),
{
    if evs.len() == 0 {
        0
    } else {
        commit_gain(s, evs[0]) + commit_gains(step_spec(s, evs[0]).0, evs.drop_first())
    }
}

/// How many repository handles a state still owns.
pub open spec fn live_repos(s: SessionModel) -> nat {
    match s {
        SessionModel::Resolving { .. } => 1,
        SessionModel::Looking { .. } => 1,
        _ => 0,
    }
}

proof fn lemma_count_push(acts: Seq<ActionModel>, a: ActionModel)
    ensures
        count_free_repo(acts.push(a)) == count_free_repo(acts) + (if a is FreeRepo {
            1nat
        } else {
            0nat
        }),
        count_free_commit(acts.push(a)) == count_free_commit(acts) + (if a is FreeCommit {
            1nat
        } else {
            0nat
        }),
{
    assert(acts.push(a).drop_last() =~= acts);
    assert(acts.push(a).last() == a);
}

proof fn lemma_count_concat(a: Seq<ActionModel>, b: Seq<ActionModel>)
    ensures
        count_free_repo(a + b) == count_free_repo(a) + count_free_repo(b),
        count_free_commit(a + b) == count_free_commit(a) + count_free_commit(b),
    decreases b.len(),
{
    if b.len() == 0 {
        assert(a + b =~= a);
    } else {
        lemma_count_concat(a, b.drop_last());
        assert((a + b).drop_last() =~= a + b.drop_last());
        assert((a + b).last() == b.last());
    }
}

proof fn lemma_success_prints_no_frees(
    name: Option<Seq<u8>>,
    email: Option<Seq<u8>>,
    text: Option<Seq<u8>>,
)
    ensures
        count_free_repo(success_prints(name, email, text)) == 0,
        count_free_commit(success_prints(name, email, text)) == 0,
{
    let author = seq![ActionModel::Print { text: author_line(name, email) }];
    assert(author =~= Seq::empty().push(ActionModel::Print { text: author_line(name, email) }));
    lemma_count_push(Seq::empty(), ActionModel::Print { text: author_line(name, email) });
    match decoded_text(text) {
        Some(m) => {
            lemma_count_push(author, ActionModel::Print { text: m });
        },
        None => {},
    }
}

proof fn lemma_step_balance(s: SessionModel, e: EventModel)
    requires
        expects(s, e),
    ensures
        count_free_repo(step_spec(s, e).1) + live_repos(step_spec(s, e).0) == live_repos(s)
            + repo_gain(s, e),
        count_free_commit(step_spec(s, e).1) == commit_gain(s, e),
{
    let acts = step_spec(s, e).1;
    match (s, e) {
        (SessionModel::Opening { name }, EventModel::Opened { status, handle, message, .. }) => {
            if !is_success_spec(status) {
                assert(acts =~= Seq::empty().push(
                    ActionModel::Exit {
                        code: 1,
                        diagnostic: Some(diagnostic_text(open_activity(), message)),
                    },
                ));
                lemma_count_push(
                    Seq::empty(),
                    ActionModel::Exit {
                        code: 1,
                        diagnostic: Some(diagnostic_text(open_activity(), message)),
                    },
                );
            } else if has_nul_byte(name) {
                let f = ActionModel::FreeRepo { repo: handle };
                let x = ActionModel::Exit {
                    code: 1,
                    diagnostic: Some(diagnostic_text(resolve_activity(), nul_error_text())),
                };
                assert(acts =~= Seq::empty().push(f).push(x));
                lemma_count_push(Seq::empty(), f);
                lemma_count_push(Seq::empty().push(f), x);
            } else {
                let q = ActionModel::ResolveName { repo: handle, name: name.push(0u8) };
                assert(acts =~= Seq::empty().push(q));
                lemma_count_push(Seq::empty(), q);
            }
        },
        (SessionModel::Resolving { repo }, EventModel::Resolved { status, id, message, .. }) => {
            if !is_success_spec(status) {
                let f = ActionModel::FreeRepo { repo };
                let x = ActionModel::Exit {
                    code: 1,
                    diagnostic: Some(diagnostic_text(resolve_activity(), message)),
                };
                assert(acts =~= Seq::empty().push(f).push(x));
                lemma_count_push(Seq::empty(), f);
                lemma_count_push(Seq::empty().push(f), x);
            } else {
                let q = ActionModel::LookupCommit { repo, id };
                assert(acts =~= Seq::empty().push(q));
                lemma_count_push(Seq::empty(), q);
            }
        },
        (
            SessionModel::Looking { repo, .. },
            EventModel::Found { status, handle, name, email, text, message, .. },
        ) => {
            if !is_success_spec(status) {
                let f = ActionModel::FreeRepo { repo };
                let x = ActionModel::Exit {
                    code: 1,
                    diagnostic: Some(diagnostic_text(lookup_activity(), message)),
                };
                assert(acts =~= Seq::empty().push(f).push(x));
                lemma_count_push(Seq::empty(), f);
                lemma_count_push(Seq::empty().push(f), x);
            } else {
                let prints = success_prints(name, email, text);
                let fc = ActionModel::FreeCommit { commit: handle };
                let fr = ActionModel::FreeRepo { repo };
                let x = ActionModel::Exit { code: 0, diagnostic: None };
                let tail = seq![fc, fr, x];
                assert(tail =~= Seq::empty().push(fc).push(fr).push(x));
                lemma_count_push(Seq::empty(), fc);
                lemma_count_push(Seq::empty().push(fc), fr);
                lemma_count_push(Seq::empty().push(fc).push(fr), x);
                lemma_success_prints_no_frees(name, email, text);
                lemma_count_concat(prints, tail);
                assert(acts =~= prints + tail);
            }
        },
        _ => {},
    }
}

/// Over any run, the repository frees the session emits account exactly for
/// the handles it accepted, up to the one a non-final state still owns; and
/// every accepted commit handle is freed within its own step.
pub proof fn lemma_run_balance(s: SessionModel, evs: Seq<EventModel>)
    requires
        trace_ok(s, evs),
    ensures
        count_free_repo(run_spec(s, evs).1) + live_repos(run_spec(s, evs).0) == live_repos(s)
            + repo_gains(s, evs),
        count_free_commit(run_spec(s, evs).1) == commit_gains(s, evs),
    decreases evs.len(),
{
    if evs.len() == 0 {
        assert(count_free_repo(Seq::empty()) == 0);
        assert(count_free_commit(Seq::empty()) == 0);
    } else {
        let first = step_spec(s, evs[0]);
        let rest = run_spec(first.0, evs.drop_first());
        lemma_step_balance(s, evs[0]);
        lemma_run_balance(first.0, evs.drop_first());
        lemma_count_concat(first.1, rest.1);
    }
}

proof fn lemma_repo_gains_not_opening(s: SessionModel, evs: Seq<EventModel>)
    requires
        trace_ok(s, evs),
        !(s is Opening),
    ensures
        repo_gains(s, evs) == 0,
    decreases evs.len(),
{
    if evs.len() > 0 {
        let next = step_spec(s, evs[0]).0;
        assert(!(next is Opening));
        lemma_repo_gains_not_opening(next, evs.drop_first());
    }
}

/// At most one repository handle is ever accepted over a run: together with
/// [`lemma_handles_released`], a successful open is released exactly once.
pub proof fn lemma_repo_gains_bound(s: SessionModel, evs: Seq<EventModel>)
    requires
        trace_ok(s, evs),
    ensures
        repo_gains(s, evs) <= 1,
    decreases evs.len(),
{
    if evs.len() > 0 {
        let next = step_spec(s, evs[0]).0;
        if s is Opening {
            assert(!(next is Opening));
            lemma_repo_gains_not_opening(next, evs.drop_first());
        } else {
            lemma_repo_gains_not_opening(s, evs);
        }
    }
}

/// At most one commit handle is ever accepted over a run.
pub proof fn lemma_commit_gains_bound(s: SessionModel, evs: Seq<EventModel>)
    requires
        trace_ok(s, evs),
    ensures
        commit_gains(s, evs) <= 1,
    decreases evs.len(),
{
    if evs.len() > 0 {
        let next = step_spec(s, evs[0]).0;
        lemma_commit_gains_bound(next, evs.drop_first());
        if commit_gain(s, evs[0]) == 1 {
            assert(next is Done);
            if evs.drop_first().len() > 0 {
                assert(!expects(next, evs.drop_first()[0]));
                assert(!trace_ok(next, evs.drop_first()));
            }
        }
    }
}

/// A failing open produces no repository and owes no release: the session
/// ends at once, accepts no handle and emits no free — so nothing native is
/// left allocated after the failing call returns.
pub proof fn lemma_failed_open_leaves_nothing(name: Seq<u8>, e: EventModel)
    requires
        e matches EventModel::Opened { status, .. } && !is_success_spec(status),
    ensures
        ({
            let r = step_spec(SessionModel::Opening { name }, e);
            &&& r.0 is Done
            &&& repo_gain(SessionModel::Opening { name }, e) == 0
            &&& count_free_repo(r.1) == 0
            &&& count_free_commit(r.1) == 0
        }),
{
    let message = match e {
        EventModel::Opened { message, .. } => message,
        _ => Seq::empty(),
    };
    let x = ActionModel::Exit {
        code: 1,
        diagnostic: Some(diagnostic_text(open_activity(), message)),
    };
    let r = step_spec(SessionModel::Opening { name }, e);
    assert(r.1 =~= Seq::empty().push(x));
    lemma_count_push(Seq::empty(), x);
}

/// A reference name holding an embedded null character fails before the
/// native resolution is ever requested: after a successful open, the session
/// emits no resolve action for such a name, ends at once, and still releases
/// the repository it had accepted, exactly once.
pub proof fn lemma_nul_name_never_resolved(name: Seq<char>, e: EventModel)
    requires
        crate::text::has_nul_char(name),
        e matches EventModel::Opened { status, .. } && is_success_spec(status),
    ensures
        ({
            let r = step_spec(SessionModel::Opening { name: encode_utf8(name) }, e);
            &&& r.0 is Done
            &&& forall|i: int| 0 <= i < r.1.len() ==> !(r.1[i] is ResolveName)
            &&& count_free_repo(r.1) == 1
        }),
{
    crate::text::lemma_nul_byte_iff_nul_char(name);
    let handle = match e {
        EventModel::Opened { handle, .. } => handle,
        _ => 0,
    };
    let f = ActionModel::FreeRepo { repo: handle };
    let x = ActionModel::Exit {
        code: 1,
        diagnostic: Some(diagnostic_text(resolve_activity(), nul_error_text())),
    };
    let r = step_spec(SessionModel::Opening { name: encode_utf8(name) }, e);
    assert(r.1 =~= Seq::empty().push(f).push(x));
    lemma_count_push(Seq::empty(), f);
    lemma_count_push(Seq::empty().push(f), x);
}

/// The resource-release discipline, as a theorem: over any run that reaches
/// a final state — success and every failure alike — the free actions the
/// session emitted match the native handles it accepted exactly. One free
/// per accepted repository handle, one per accepted commit handle, none
/// spare; so no handle leaks and none is freed twice.
pub proof fn lemma_handles_released(path: Seq<u8>, name: Seq<u8>, evs: Seq<EventModel>)
    requires
        trace_ok(begin_spec(path, name).0, evs),
        run_spec(begin_spec(path, name).0, evs).0 is Done,
    ensures
        ({
            let s0 = begin_spec(path, name).0;
            let a0 = begin_spec(path, name).1;
            let r = run_spec(s0, evs);
            &&& count_free_repo(a0 + r.1) == repo_gains(s0, evs)
            &&& count_free_commit(a0 + r.1) == commit_gains(s0, evs)
            &&& repo_gains(s0, evs) <= 1
            &&& commit_gains(s0, evs) <= 1
        }),
{
    let s0 = begin_spec(path, name).0;
    let a0 = begin_spec(path, name).1;
    let r = run_spec(s0, evs);
    lemma_run_balance(s0, evs);
    lemma_repo_gains_bound(s0, evs);
    lemma_commit_gains_bound(s0, evs);
    lemma_count_concat(a0, r.1);
    if has_nul_byte(path) {
        let x = ActionModel::Exit {
            code: 1,
            diagnostic: Some(diagnostic_text(open_activity(), nul_error_text())),
        };
        assert(a0 =~= Seq::empty().push(x));
        lemma_count_push(Seq::empty(), x);
    } else {
        let q = ActionModel::OpenRepo { path: path.push(0u8) };
        assert(a0 =~= Seq::empty().push(q));
        lemma_count_push(Seq::empty(), q);
    }
}

} // verus!
