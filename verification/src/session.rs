//! The edit-session state machine.
//!
//! One execution of a session is a strictly sequential dialogue with the
//! outside world: create or copy a scratch file, run the editor and wait for
//! it, read the edited file back, delete the scratch file. The machine below
//! holds every decision of that dialogue — which step comes next, how each
//! failure is classified, and that a scratch file, once created, is always
//! deleted — while the host performs the filesystem and process work and
//! feeds the outcome of each step back in as an [`Event`].

use vstd::prelude::*;

verus! {

use crate::editor::{
    ContentSource, Editor, EditorCommand, TargetMode, config_valid, resolve_command, resolves_to,
};
use crate::error::ScrawlError;

/// What a finished session hands back: the edited text for a scratch-copy
/// session, or a bare completion marker for an in-place session, whose
/// result lives in the edited file itself.
#[derive(Debug, PartialEq, Eq)]
pub enum EditOutcome {
    /// The final contents of the edited scratch file.
    Text(String),
    /// An in-place edit finished; the named file holds the result.
    InPlaceDone,
}

/// The work the host must perform next. Each action is answered by feeding
/// the matching [`Event`] into [`step`].
#[derive(Debug, PartialEq, Eq)]
pub enum Action {
    /// Create a fresh scratch file, pre-filled with `initial` when given.
    CreateTemp { initial: Option<String> },
    /// Create a fresh scratch file whose contents are copied from the file
    /// at `source`; `source` itself is only read.
    CopyToTemp { source: String },
    /// Launch the editor command on `target`, inheriting the terminal, and
    /// wait for it to exit.
    RunEditor { cmd: EditorCommand, target: String },
    /// Read the full contents of the file at `target` as text.
    ReadBack { target: String },
    /// Delete the scratch file at `target`.
    DeleteTemp { target: String },
    /// The session is over; the terminal state holds its result.
    Finish,
}

/// The outcome of the host's last action, fed back into [`step`].
#[derive(Debug, PartialEq, Eq)]
pub enum Event {
    /// A scratch file was created at `path`.
    TempCreated { path: String },
    /// The scratch file could not be created or filled.
    TempFailed,
    /// The editor process exited with this status code.
    EditorExited { code: i32 },
    /// The editor command could not be launched at all.
    EditorNotLaunched,
    /// The file was read back; `text` is its full contents.
    ReadDone { text: String },
    /// The file could not be read.
    ReadIoFailed,
    /// The file was read but its bytes are not valid text.
    ReadNotText,
    /// The scratch file was deleted.
    Deleted,
    /// The scratch file could not be deleted.
    DeleteFailed,
}

/// One position in a session's dialogue with the host.
#[derive(Debug, PartialEq, Eq)]
pub enum SessionState {
    /// A scratch file was requested and not yet confirmed.
    AwaitTemp {
        /// The resolved editor command, kept for the launch that follows.
        cmd: EditorCommand,
    },
    /// The editor was launched on `target` and has not exited yet.
    AwaitEditor {
        /// The path the editor is working on.
        target: String,
        /// Whether `target` is the caller's own file rather than a scratch
        /// copy owned by the session.
        in_place: bool,
    },
    /// The editor exited cleanly; the file at `target` is being read back.
    AwaitRead {
        /// The path being read.
        target: String,
        /// Whether `target` is the caller's own file.
        in_place: bool,
    },
    /// The session's result is settled; the scratch file's deletion was
    /// requested and not yet confirmed.
    AwaitDispose {
        /// The settled result, reported once disposal is answered.
        result: Result<EditOutcome, ScrawlError>,
    },
    /// The session is finished.
    Done {
        /// The session's result.
        result: Result<EditOutcome, ScrawlError>,
        /// True when the session succeeded in every step but deleting its
        /// scratch file: a secondary warning that never masks the result.
        cleanup_warning: bool,
    },
}

/// Which events answer which states: the host must reply to each action
/// with an outcome of that same action.
pub open spec fn event_fits(s: SessionState, e: Event) -> bool {
    match s {
        SessionState::AwaitTemp { .. } => e is TempCreated || e is TempFailed,
        SessionState::AwaitEditor { .. } => e is EditorExited || e is EditorNotLaunched,
        SessionState::AwaitRead { .. } => e is ReadDone || e is ReadIoFailed || e is ReadNotText,
        SessionState::AwaitDispose { .. } => e is Deleted || e is DeleteFailed,
        SessionState::Done { .. } => false,
    }
}

/// The machine owns a live scratch file exactly in these states: the file
/// was confirmed created and its deletion has not yet been requested.
pub open spec fn holds_temp(s: SessionState) -> bool {
    ||| (s matches SessionState::AwaitEditor { in_place, .. } && !in_place)
    ||| (s matches SessionState::AwaitRead { in_place, .. } && !in_place)
}

/// The path of the scratch file the machine owns.
pub open spec fn temp_path(s: SessionState) -> Seq<char>
    recommends
        holds_temp(s),
{
    match s {
        SessionState::AwaitEditor { target, .. } => target@,
        SessionState::AwaitRead { target, .. } => target@,
        _ => Seq::empty(),
    }
}

/// The transition function of the session machine: from the current state
/// and the outcome of the host's last action to the next state and the next
/// action. This is the whole orchestration: validation failures never reach
/// it (they are settled in [`start`]), a non-zero or unlaunchable editor
/// aborts the session without reading the file back, every abort or read
/// outcome of a scratch-copy session requests the scratch file's deletion,
/// and a failed deletion after an otherwise successful session is reported
/// as a warning beside the result, never in its place.
pub open spec fn next(s: SessionState, e: Event) -> (SessionState, Action)
    recommends
        event_fits(s, e),
{
    match (s, e) {
        (SessionState::AwaitTemp { cmd }, Event::TempCreated { path }) => (
            SessionState::AwaitEditor { target: path, in_place: false },
            Action::RunEditor { cmd, target: path },
        ),
        (SessionState::AwaitTemp { .. }, Event::TempFailed) => (
            SessionState::Done { result: Err(ScrawlError::Io), cleanup_warning: false },
            Action::Finish,
        ),
        (SessionState::AwaitEditor { target, in_place }, Event::EditorExited { code }) => {
            if code == 0 {
                (
                    SessionState::AwaitRead { target, in_place },
                    Action::ReadBack { target },
                )
            } else {
                abort(target, in_place, ScrawlError::EditorExit { code })
            }
        },
        (SessionState::AwaitEditor { target, in_place }, Event::EditorNotLaunched) => abort(
            target,
            in_place,
            ScrawlError::EditorNotFound,
        ),
        (SessionState::AwaitRead { target, in_place }, Event::ReadDone { text }) => {
            if in_place {
                (
                    SessionState::Done { result: Ok(EditOutcome::InPlaceDone), cleanup_warning: false },
                    Action::Finish,
                )
            } else {
                (
                    SessionState::AwaitDispose { result: Ok(EditOutcome::Text(text)) },
                    Action::DeleteTemp { target },
                )
            }
        },
        (SessionState::AwaitRead { target, in_place }, Event::ReadIoFailed) => abort(
            target,
            in_place,
            ScrawlError::Io,
        ),
        (SessionState::AwaitRead { target, in_place }, Event::ReadNotText) => abort(
            target,
            in_place,
            ScrawlError::Encoding,
        ),
        (SessionState::AwaitDispose { result }, Event::Deleted) => (
            SessionState::Done { result, cleanup_warning: false },
            Action::Finish,
        ),
        (SessionState::AwaitDispose { result }, Event::DeleteFailed) => {
            let only_failure = result is Ok;
            (
                SessionState::Done { result, cleanup_warning: only_failure },
                Action::Finish,
            )
        },
        _ => arbitrary(),
    }
}

/// How a session gives up before its result is read: an in-place session is
/// done at once, a scratch-copy session first requests its file's deletion.
pub open spec fn abort(target: String, in_place: bool, err: ScrawlError) -> (SessionState, Action) {
    if in_place {
        (
            SessionState::Done { result: Err(err), cleanup_warning: false },
            Action::Finish,
        )
    } else {
        (
            SessionState::AwaitDispose { result: Err(err) },
            Action::DeleteTemp { target },
        )
    }
}

/// Begins a session from its configuration and the environment's editor
/// setting. The configuration invariant is checked before anything else:
/// an in-place edit of anything but an existing file fails at once with a
/// configuration error, and that is the only way `start` fails. Otherwise
/// the editor command is resolved — override, then environment, then the
/// fallback — and the first action is issued: creating or copying a scratch
/// file, or, in place, launching the editor directly on the caller's file.
pub fn start(session: Editor, env_editor: Option<String>) -> (r: (SessionState, Action))
    ensures
        !config_valid(session) <==> r.0 is Done,
        !config_valid(session) ==> r.0 == (SessionState::Done {
            result: Err::<EditOutcome, ScrawlError>(ScrawlError::Configuration),
            cleanup_warning: false,
        }) && r.1 == Action::Finish,
        session.content_source is Empty && session.target_mode is Temporary ==> {
            &&& r.0 matches SessionState::AwaitTemp { cmd } && resolves_to(
                session.editor_override,
                env_editor,
                cmd,
            )
            &&& r.1 matches Action::CreateTemp { initial } && initial is None
        },
        session.content_source matches ContentSource::InlineText(s) ==> session.target_mode
            is Temporary ==> {
            &&& r.0 matches SessionState::AwaitTemp { cmd } && resolves_to(
                session.editor_override,
                env_editor,
                cmd,
            )
            &&& r.1 matches Action::CreateTemp { initial } && initial matches Some(t) && t@ == s@
        },
        session.content_source matches ContentSource::ExistingFile(p) ==> session.target_mode
            is Temporary ==> {
            &&& r.0 matches SessionState::AwaitTemp { cmd } && resolves_to(
                session.editor_override,
                env_editor,
                cmd,
            )
            &&& r.1 matches Action::CopyToTemp { source } && source@ == p@
        },
        session.content_source matches ContentSource::ExistingFile(p) ==> session.target_mode
            is InPlace ==> {
            &&& r.0 matches SessionState::AwaitEditor { target, in_place } && target@ == p@
                && in_place
            &&& r.1 matches Action::RunEditor { cmd, target } && resolves_to(
                session.editor_override,
                env_editor,
                cmd,
            ) && target@ == p@
        },
        !holds_temp(r.0),
{
    let Editor { content_source, target_mode, editor_override } = session;
    let in_place = match target_mode {
        TargetMode::InPlace => true,
        TargetMode::Temporary => false,
    };
    if in_place && !(matches!(content_source, ContentSource::ExistingFile(_))) {
        return (
            SessionState::Done { result: Err(ScrawlError::Configuration), cleanup_warning: false },
            Action::Finish,
        );
    }
    let cmd = resolve_command(&editor_override, env_editor);
    match content_source {
        ContentSource::Empty => (
            SessionState::AwaitTemp { cmd },
            Action::CreateTemp { initial: None },
        ),
        ContentSource::InlineText(text) => (
            SessionState::AwaitTemp { cmd },
            Action::CreateTemp { initial: Some(text) },
        ),
        ContentSource::ExistingFile(path) => {
            if in_place {
                let target = path.clone();
                (
                    SessionState::AwaitEditor { target, in_place: true },
                    Action::RunEditor { cmd, target: path },
                )
            } else {
                (SessionState::AwaitTemp { cmd }, Action::CopyToTemp { source: path })
            }
        },
    }
}

/// Advances the session by one step: `event` is the outcome of the action
/// the machine issued last, and the result is the new state together with
/// the next action for the host. The whole transition is pinned to the
/// specification [`next`].
pub fn step(state: SessionState, event: Event) -> (r: (SessionState, Action))
    requires
        event_fits(state, event),
    ensures
        r == next(state, event),
{
    match (state, event) {
        (SessionState::AwaitTemp { cmd }, Event::TempCreated { path }) => {
            let target = path.clone();
            (
                SessionState::AwaitEditor { target, in_place: false },
                Action::RunEditor { cmd, target: path },
            )
        },
        (SessionState::AwaitTemp { .. }, Event::TempFailed) => (
            SessionState::Done { result: Err(ScrawlError::Io), cleanup_warning: false },
            Action::Finish,
        ),
        (SessionState::AwaitEditor { target, in_place }, Event::EditorExited { code }) => {
            if code == 0 {
                let read_target = target.clone();
                (
                    SessionState::AwaitRead { target, in_place },
                    Action::ReadBack { target: read_target },
                )
            } else {
                abort_exec(target, in_place, ScrawlError::EditorExit { code })
            }
        },
        (SessionState::AwaitEditor { target, in_place }, Event::EditorNotLaunched) => abort_exec(
            target,
            in_place,
            ScrawlError::EditorNotFound,
        ),
        (SessionState::AwaitRead { target, in_place }, Event::ReadDone { text }) => {
            if in_place {
                (
                    SessionState::Done {
                        result: Ok(EditOutcome::InPlaceDone),
                        cleanup_warning: false,
                    },
                    Action::Finish,
                )
            } else {
                (
                    SessionState::AwaitDispose { result: Ok(EditOutcome::Text(text)) },
                    Action::DeleteTemp { target },
                )
            }
        },
        (SessionState::AwaitRead { target, in_place }, Event::ReadIoFailed) => abort_exec(
            target,
            in_place,
            ScrawlError::Io,
        ),
        (SessionState::AwaitRead { target, in_place }, Event::ReadNotText) => abort_exec(
            target,
            in_place,
            ScrawlError::Encoding,
        ),
        (SessionState::AwaitDispose { result }, Event::Deleted) => (
            SessionState::Done { result, cleanup_warning: false },
            Action::Finish,
        ),
        (SessionState::AwaitDispose { result }, Event::DeleteFailed) => {
            let only_failure = result.is_ok();
            (
                SessionState::Done { result, cleanup_warning: only_failure },
                Action::Finish,
            )
        },
        _ => unreached(),
    }
}

/// The executable twin of [`abort`].
fn abort_exec(target: String, in_place: bool, err: ScrawlError) -> (r: (SessionState, Action))
    ensures
        r == abort(target, in_place, err),
{
    if in_place {
        (
            SessionState::Done { result: Err(err), cleanup_warning: false },
            Action::Finish,
        )
    } else {
        (
            SessionState::AwaitDispose { result: Err(err) },
            Action::DeleteTemp { target },
        )
    }
}

/// A run of the machine: each event in `es` answers the state it meets.
pub open spec fn events_fit(s: SessionState, es: Seq<Event>) -> bool
    decreases es.len(),
{
    es.len() == 0 || (event_fits(s, es[0]) && events_fit(next(s, es[0]).0, es.drop_first()))
}

/// The state a run ends in.
pub open spec fn run_end(s: SessionState, es: Seq<Event>) -> SessionState
    decreases es.len(),
{
    if es.len() == 0 {
        s
    } else {
        run_end(next(s, es[0]).0, es.drop_first())
    }
}

/// The actions a run emits, in order.
pub open spec fn run_actions(s: SessionState, es: Seq<Event>) -> Seq<Action>
    decreases es.len(),
{
    if es.len() == 0 {
        Seq::empty()
    } else {
        seq![next(s, es[0]).1] + run_actions(next(s, es[0]).0, es.drop_first())
    }
}

/// The action deletes the scratch file at `p`.
pub open spec fn is_delete_of(a: Action, p: Seq<char>) -> bool {
    a matches Action::DeleteTemp { target } && target@ == p
}

/// Some action in `actions` deletes the scratch file at `p`.
pub open spec fn deletes_path(actions: Seq<Action>, p: Seq<char>) -> bool {
    exists|j: int| 0 <= j < actions.len() && is_delete_of(#[trigger] actions[j], p)
}

proof fn lemma_deletes_shift(a: Action, rest: Seq<Action>, p: Seq<char>)
    requires
        deletes_path(rest, p),
    ensures
        deletes_path(seq![a] + rest, p),
{
    let j = choose|j: int| 0 <= j < rest.len() && is_delete_of(#[trigger] rest[j], p);
    assert(is_delete_of((seq![a] + rest)[j + 1], p));
}

/// Law: the machine never abandons a scratch file it owns. From any state
/// that holds a live scratch file, every run that finishes emits a
/// [`Action::DeleteTemp`] for that file's path, on the success path and on
/// every failure path alike.
pub proof fn lemma_holding_deleted(s: SessionState, es: Seq<Event>)
    requires
        holds_temp(s),
        events_fit(s, es),
        run_end(s, es) is Done,
    ensures
        deletes_path(run_actions(s, es), temp_path(s)),
    decreases es.len(),
{
    if es.len() == 0 {
        assert(run_end(s, es) == s);
        assert(false);
    } else {
        let e = es[0];
        let s2 = next(s, e).0;
        let a = next(s, e).1;
        let rest = run_actions(s2, es.drop_first());
        assert(run_actions(s, es) == seq![a] + rest);
        if holds_temp(s2) {
            assert(temp_path(s2) == temp_path(s));
            lemma_holding_deleted(s2, es.drop_first());
            lemma_deletes_shift(a, rest, temp_path(s));
        } else {
            assert(is_delete_of((seq![a] + rest)[0], temp_path(s)));
        }
    }
}

/// Law: every scratch file a session creates is deleted before the session
/// finishes. If the `i`-th event of a finished run reports a scratch file
/// created at some path, some action of that run deletes that same path —
/// whether the session ends in success or in any classified failure.
pub proof fn lemma_created_is_deleted(s: SessionState, es: Seq<Event>, i: int)
    requires
        events_fit(s, es),
        run_end(s, es) is Done,
        0 <= i < es.len(),
        es[i] is TempCreated,
    ensures
        deletes_path(run_actions(s, es), es[i]->path@),
    decreases es.len(),
{
    let e = es[0];
    let s2 = next(s, e).0;
    let a = next(s, e).1;
    let rest = run_actions(s2, es.drop_first());
    assert(run_actions(s, es) == seq![a] + rest);
    if i == 0 {
        assert(s is AwaitTemp);
        assert(holds_temp(s2) && temp_path(s2) == e->path@);
        lemma_holding_deleted(s2, es.drop_first());
        lemma_deletes_shift(a, rest, e->path@);
    } else {
        assert(es.drop_first()[i - 1] == es[i]);
        lemma_created_is_deleted(s2, es.drop_first(), i - 1);
        lemma_deletes_shift(a, rest, es[i]->path@);
    }
}

/// The action writes to, or deletes, the file at `p`: it launches the
/// editor on it or removes it. Creating a scratch file and reading a file
/// back never write to a caller-named path, and copying reads its source.
pub open spec fn writes_path(a: Action, p: Seq<char>) -> bool {
    ||| (a matches Action::RunEditor { target, .. } && target@ == p)
    ||| (a matches Action::DeleteTemp { target } && target@ == p)
}

/// No path the state carries as an editing target is `p`.
pub open spec fn state_avoids(s: SessionState, p: Seq<char>) -> bool {
    match s {
        SessionState::AwaitEditor { target, .. } => target@ != p,
        SessionState::AwaitRead { target, .. } => target@ != p,
        _ => true,
    }
}

/// Every scratch path the host reports differs from `p`.
pub open spec fn events_avoid(es: Seq<Event>, p: Seq<char>) -> bool {
    forall|i: int|
        0 <= i < es.len() ==> ((#[trigger] es[i]) matches Event::TempCreated { path } ==> path@
            != p)
}

/// Law: a run whose state does not target the path `p`, and whose scratch
/// files are all created elsewhere, never writes to or deletes `p`.
pub proof fn lemma_run_avoids(s: SessionState, es: Seq<Event>, p: Seq<char>)
    requires
        events_fit(s, es),
        state_avoids(s, p),
        events_avoid(es, p),
    ensures
        forall|j: int|
            0 <= j < run_actions(s, es).len() ==> !writes_path(
                #[trigger] run_actions(s, es)[j],
                p,
            ),
    decreases es.len(),
{
    if es.len() > 0 {
        let e = es[0];
        let s2 = next(s, e).0;
        let a = next(s, e).1;
        let rest = run_actions(s2, es.drop_first());
        assert(state_avoids(s2, p));
        assert(!writes_path(a, p));
        assert forall|i: int| 0 <= i < es.drop_first().len() implies ((#[trigger] es.drop_first()[i]) matches Event::TempCreated {
            path,
        } ==> path@ != p) by {
            assert(es.drop_first()[i] == es[i + 1]);
        }
        lemma_run_avoids(s2, es.drop_first(), p);
        assert(run_actions(s, es) == seq![a] + rest);
        assert forall|j: int| 0 <= j < run_actions(s, es).len() implies !writes_path(
            #[trigger] run_actions(s, es)[j],
            p,
        ) by {
            if j > 0 {
                assert(run_actions(s, es)[j] == rest[j - 1]);
            }
        }
    }
}

/// Law: a scratch-copy session over an existing source file leaves the
/// source untouched. Such a session begins by awaiting a scratch file — its
/// first action only copies *from* the source — so provided the host creates
/// every scratch file at a path other than the source, no action of the
/// whole run launches the editor on the source or deletes it: the source is
/// only ever read.
pub proof fn lemma_source_never_written(s: SessionState, es: Seq<Event>, p: Seq<char>)
    requires
        s is AwaitTemp,
        events_fit(s, es),
        events_avoid(es, p),
    ensures
        forall|j: int|
            0 <= j < run_actions(s, es).len() ==> !writes_path(
                #[trigger] run_actions(s, es)[j],
                p,
            ),
{
    lemma_run_avoids(s, es, p);
}

/// Law: a clean scratch-copy run returns exactly the text read back. From
/// awaiting its scratch file, a session whose host reports the file created,
/// the editor exited with status zero, the contents read back as `text` and
/// the scratch file deleted, finishes with `text` as its result and no
/// warning — and the run deletes the scratch file it created.
pub proof fn lemma_clean_scratch_run(s: SessionState, path: String, text: String)
    requires
        s is AwaitTemp,
    ensures
        ({
            let es = seq![
                Event::TempCreated { path },
                Event::EditorExited { code: 0 },
                Event::ReadDone { text },
                Event::Deleted,
            ];
            &&& events_fit(s, es)
            &&& run_end(s, es) == (SessionState::Done {
                result: Ok::<EditOutcome, ScrawlError>(EditOutcome::Text(text)),
                cleanup_warning: false,
            })
            &&& deletes_path(run_actions(s, es), path@)
        }),
{
    let e0 = Event::TempCreated { path };
    let e1 = Event::EditorExited { code: 0 };
    let e2 = Event::ReadDone { text };
    let e3 = Event::Deleted;
    let es = seq![e0, e1, e2, e3];
    let es1 = seq![e1, e2, e3];
    let es2 = seq![e2, e3];
    let es3 = seq![e3];
    assert(es.drop_first() =~= es1);
    assert(es1.drop_first() =~= es2);
    assert(es2.drop_first() =~= es3);
    assert(es3.drop_first() =~= Seq::<Event>::empty());
    let s1 = next(s, e0).0;
    let s2 = next(s1, e1).0;
    let s3 = next(s2, e2).0;
    let s4 = next(s3, e3).0;
    assert(s1 == (SessionState::AwaitEditor { target: path, in_place: false }));
    assert(s2 == (SessionState::AwaitRead { target: path, in_place: false }));
    assert(s3 == (SessionState::AwaitDispose {
        result: Ok::<EditOutcome, ScrawlError>(EditOutcome::Text(text)),
    }));
    assert(s4 == (SessionState::Done {
        result: Ok::<EditOutcome, ScrawlError>(EditOutcome::Text(text)),
        cleanup_warning: false,
    }));
    assert(events_fit(s4, Seq::<Event>::empty()));
    assert(events_fit(s3, es3));
    assert(events_fit(s2, es2));
    assert(events_fit(s1, es1));
    assert(events_fit(s, es));
    assert(run_end(s4, Seq::<Event>::empty()) == s4);
    assert(run_end(s3, es3) == s4);
    assert(run_end(s2, es2) == s4);
    assert(run_end(s1, es1) == s4);
    assert(run_end(s, es) == s4);
    lemma_created_is_deleted(s, es, 0);
}

/// Law: a clean in-place run finishes with the bare completion marker — no
/// text is returned, the edited file itself holds the result — and issues no
/// deletion, since the session owns no scratch file.
pub proof fn lemma_clean_inplace_run(s: SessionState, text: String)
    requires
        s matches SessionState::AwaitEditor { in_place, .. } && in_place,
    ensures
        ({
            let es = seq![Event::EditorExited { code: 0 }, Event::ReadDone { text }];
            &&& events_fit(s, es)
            &&& run_end(s, es) == (SessionState::Done {
                result: Ok::<EditOutcome, ScrawlError>(EditOutcome::InPlaceDone),
                cleanup_warning: false,
            })
            &&& forall|j: int|
                0 <= j < run_actions(s, es).len() ==> !((#[trigger] run_actions(s, es)[j])
                    is DeleteTemp)
        }),
{
    let e0 = Event::EditorExited { code: 0 };
    let e1 = Event::ReadDone { text };
    let es = seq![e0, e1];
    let es1 = seq![e1];
    assert(es.drop_first() =~= es1);
    assert(es1.drop_first() =~= Seq::<Event>::empty());
    let s1 = next(s, e0).0;
    let s2 = next(s1, e1).0;
    assert(s1 == (SessionState::AwaitRead { target: s->AwaitEditor_target, in_place: true }));
    assert(s2 == (SessionState::Done {
        result: Ok::<EditOutcome, ScrawlError>(EditOutcome::InPlaceDone),
        cleanup_warning: false,
    }));
    assert(events_fit(s2, Seq::<Event>::empty()));
    assert(events_fit(s1, es1));
    assert(events_fit(s, es));
    assert(run_end(s2, Seq::<Event>::empty()) == s2);
    assert(run_end(s1, es1) == s2);
    assert(run_end(s, es) == s2);
    assert(run_actions(s2, Seq::<Event>::empty()) =~= Seq::<Action>::empty());
    assert(run_actions(s1, es1) =~= seq![next(s1, e1).1]);
    assert(run_actions(s, es) =~= seq![next(s, e0).1, next(s1, e1).1]);
    assert(next(s, e0).1 == (Action::ReadBack { target: s->AwaitEditor_target }));
    assert(next(s1, e1).1 == Action::Finish);
}

/// Law: a non-zero editor exit fails the session with exactly the editor's
/// status code, the file is never read back, and a scratch target is still
/// deleted before the session finishes.
pub proof fn lemma_editor_failure_still_disposes(s: SessionState, e: Event)
    requires
        s is AwaitEditor,
        e matches Event::EditorExited { code } && code != 0,
    ensures
        ({
            let (s2, a) = next(s, e);
            &&& !(s2 is AwaitRead)
            &&& (s2 matches SessionState::AwaitDispose { result } ==> result == Err::<
                EditOutcome,
                ScrawlError,
            >(ScrawlError::EditorExit { code: e->code }))
            &&& (s2 matches SessionState::Done { result, .. } ==> result == Err::<
                EditOutcome,
                ScrawlError,
            >(ScrawlError::EditorExit { code: e->code }))
            &&& (holds_temp(s) ==> is_delete_of(a, temp_path(s)))
        }),
{
}

} // verus!
