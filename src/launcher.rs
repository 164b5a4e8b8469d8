//! The run of the launcher as a state machine: each phase names the action
//! to perform, and the outcome of that action decides the next phase.
use vstd::prelude::*;
use crate::feed::{is_success_status, remote_version_spec};
use crate::version::{local_version, strip_v, trimmed};

verus! {

/// The file in the installation root that names the installed version.
pub const VERSION_FILE: &'static str = "version";

/// The command that runs the application.
pub const APP_COMMAND: &'static str = "python";

/// The single argument handed to the application command.
pub const APP_SCRIPT: &'static str = "submain_app.py";

/// The exit status of a run that started the application.
pub const EXIT_SUCCESS: u8 = 0;

/// The exit status of a run that failed.
pub const EXIT_FAILURE: u8 = 1;

/// Where a run stands.
pub enum Phase {
    /// Reading the installed version.
    CheckingLocalVersion,
    /// Asking the release feed for the newest version.
    CheckingRemoteVersion { local: String },
    /// Applying the release `version`.
    Updating { version: String },
    /// Starting the application.
    Launching,
    /// Finished, with the status that the launcher exits with.
    Done { code: u8 },
}

/// What happened when the action of a phase was performed.
pub enum Event {
    /// The version file was read (its contents), or could not be (`None`).
    LocalVersionRead { contents: Option<String> },
    /// The feed offered a version, or none (any failure included).
    RemoteVersionChecked { version: Option<String> },
    /// Applying the update succeeded or failed.
    UpdateFinished { ok: bool },
    /// The application was started (and has exited), or could not be started.
    LaunchFinished { started: bool },
}

/// What the runner does next.
pub enum Action {
    ReadLocalVersion,
    CheckRemoteVersion,
    ApplyUpdate { version: String },
    Launch,
    Exit { code: u8 },
}

/// A phase as a value of the specification.
pub enum PhaseView {
    CheckingLocalVersion,
    CheckingRemoteVersion { local: Seq<char> },
    Updating { version: Seq<char> },
    Launching,
    Done { code: u8 },
}

/// An event as a value of the specification.
pub enum EventView {
    LocalVersionRead { contents: Option<Seq<char>> },
    RemoteVersionChecked { version: Option<Seq<char>> },
    UpdateFinished { ok: bool },
    LaunchFinished { started: bool },
}

/// An action as a value of the specification.
pub enum ActionView {
    ReadLocalVersion,
    CheckRemoteVersion,
    ApplyUpdate { version: Seq<char> },
    Launch,
    Exit { code: u8 },
}

impl View for Phase {
    type V = PhaseView;

    open spec fn view(&self) -> PhaseView {
        match self {
            Phase::CheckingLocalVersion => PhaseView::CheckingLocalVersion,
            Phase::CheckingRemoteVersion { local } => PhaseView::CheckingRemoteVersion {
                local: local@,
            },
            Phase::Updating { version } => PhaseView::Updating { version: version@ },
            Phase::Launching => PhaseView::Launching,
            Phase::Done { code } => PhaseView::Done { code: *code },
        }
    }
}

impl View for Event {
    type V = EventView;

    open spec fn view(&self) -> EventView {
        match self {
            Event::LocalVersionRead { contents } => EventView::LocalVersionRead {
                contents: contents.deep_view(),
            },
            Event::RemoteVersionChecked { version } => EventView::RemoteVersionChecked {
                version: version.deep_view(),
            },
            Event::UpdateFinished { ok } => EventView::UpdateFinished { ok: *ok },
            Event::LaunchFinished { started } => EventView::LaunchFinished { started: *started },
        }
    }
}

impl View for Action {
    type V = ActionView;

    open spec fn view(&self) -> ActionView {
        match self {
            Action::ReadLocalVersion => ActionView::ReadLocalVersion,
            Action::CheckRemoteVersion => ActionView::CheckRemoteVersion,
            Action::ApplyUpdate { version } => ActionView::ApplyUpdate { version: version@ },
            Action::Launch => ActionView::Launch,
            Action::Exit { code } => ActionView::Exit { code: *code },
        }
    }
}

/// The phase that follows `p` when `e` happens. An unreadable version file
/// ends the run with a failure; a missing remote version, or one equal to the
/// local one, leads straight to launching; a different one to an update. A
/// failed update ends the run without launching. An event that does not
/// belong to the phase leaves it unchanged, and a finished run stays finished.
pub open spec fn step_spec(p: PhaseView, e: EventView) -> PhaseView {
    match p {
        PhaseView::CheckingLocalVersion => match e {
            EventView::LocalVersionRead { contents: Some(c) } => PhaseView::CheckingRemoteVersion {
                local: trimmed(c),
            },
            EventView::LocalVersionRead { contents: None } => PhaseView::Done {
                code: EXIT_FAILURE,
            },
            _ => p,
        },
        PhaseView::CheckingRemoteVersion { local } => match e {
            EventView::RemoteVersionChecked { version: Some(v) } => if v != local {
                PhaseView::Updating { version: v }
            } else {
                PhaseView::Launching
            },
            EventView::RemoteVersionChecked { version: None } => PhaseView::Launching,
            _ => p,
        },
        PhaseView::Updating { .. } => match e {
            EventView::UpdateFinished { ok } => if ok {
                PhaseView::Launching
            } else {
                PhaseView::Done { code: EXIT_FAILURE }
            },
            _ => p,
        },
        PhaseView::Launching => match e {
            EventView::LaunchFinished { started } => PhaseView::Done {
                code: if started { EXIT_SUCCESS } else { EXIT_FAILURE },
            },
            _ => p,
        },
        PhaseView::Done { .. } => p,
    }
}

/// The action that the phase `p` calls for.
pub open spec fn action_spec(p: PhaseView) -> ActionView {
    match p {
        PhaseView::CheckingLocalVersion => ActionView::ReadLocalVersion,
        PhaseView::CheckingRemoteVersion { .. } => ActionView::CheckRemoteVersion,
        PhaseView::Updating { version } => ActionView::ApplyUpdate { version },
        PhaseView::Launching => ActionView::Launch,
        PhaseView::Done { code } => ActionView::Exit { code },
    }
}

impl Phase {
    /// The phase a run starts in.
    pub fn start() -> (r: Phase)
        ensures
            r@ == PhaseView::CheckingLocalVersion,
    {
        Phase::CheckingLocalVersion
    }

    /// The action that this phase calls for.
    pub fn action(&self) -> (r: Action)
        ensures
            r@ == action_spec(self@),
    {
        match self {
            Phase::CheckingLocalVersion => Action::ReadLocalVersion,
            Phase::CheckingRemoteVersion { .. } => Action::CheckRemoteVersion,
            Phase::Updating { version } => Action::ApplyUpdate { version: version.clone() },
            Phase::Launching => Action::Launch,
            Phase::Done { code } => Action::Exit { code: *code },
        }
    }

    /// The phase that follows this one when `event` happens.
    pub fn next(self, event: Event) -> (r: Phase)
        ensures
            r@ == step_spec(self@, event@),
    {
        match self {
            Phase::CheckingLocalVersion => match event {
                Event::LocalVersionRead { contents: Some(c) } => Phase::CheckingRemoteVersion {
                    local: local_version(c.as_str()),
                },
                Event::LocalVersionRead { contents: None } => Phase::Done { code: EXIT_FAILURE },
                _ => Phase::CheckingLocalVersion,
            },
            Phase::CheckingRemoteVersion { local } => match event {
                Event::RemoteVersionChecked { version: Some(v) } => if v != local {
                    Phase::Updating { version: v }
                } else {
                    Phase::Launching
                },
                Event::RemoteVersionChecked { version: None } => Phase::Launching,
                _ => Phase::CheckingRemoteVersion { local },
            },
            Phase::Updating { version } => match event {
                Event::UpdateFinished { ok } => if ok {
                    Phase::Launching
                } else {
                    Phase::Done { code: EXIT_FAILURE }
                },
                _ => Phase::Updating { version },
            },
            Phase::Launching => match event {
                Event::LaunchFinished { started } => Phase::Done {
                    code: if started { EXIT_SUCCESS } else { EXIT_FAILURE },
                },
                _ => Phase::Launching,
            },
            Phase::Done { code } => Phase::Done { code },
        }
    }

    /// Whether the run is over.
    pub fn is_done(&self) -> (r: bool)
        ensures
            r == self@ is Done,
    {
        matches!(self, Phase::Done { .. })
    }
}

/// An update is started exactly when the installed version differs, as
/// text, from the tag of the newest release with its leading `v` removed.
pub proof fn lemma_update_iff_versions_differ(local: Seq<char>, status: u16, tag: Seq<char>)
    requires
        is_success_status(status),
    ensures
        ({
            let offered = remote_version_spec(status, Some(tag));
            let after = step_spec(
                PhaseView::CheckingRemoteVersion { local },
                EventView::RemoteVersionChecked { version: offered },
            );
            &&& (after is Updating <==> local != strip_v(tag))
            &&& (after is Updating ==> action_spec(after) == (ActionView::ApplyUpdate {
                version: strip_v(tag),
            }))
            &&& (!(after is Updating) ==> after == PhaseView::Launching)
        }),
{
}

/// A feed that offers no version, whatever the cause, leads to the same
/// phase as one that offers the installed version: the application is
/// launched directly and nothing fails.
pub proof fn lemma_no_remote_version_same_as_equal(local: Seq<char>)
    ensures
        step_spec(
            PhaseView::CheckingRemoteVersion { local },
            EventView::RemoteVersionChecked { version: None },
        ) == step_spec(
            PhaseView::CheckingRemoteVersion { local },
            EventView::RemoteVersionChecked { version: Some(local) },
        ),
        step_spec(
            PhaseView::CheckingRemoteVersion { local },
            EventView::RemoteVersionChecked { version: None },
        ) == PhaseView::Launching,
{
}

/// The phase reached from `p` after the events `es`, in order.
pub open spec fn run_spec(p: PhaseView, es: Seq<EventView>) -> PhaseView
    decreases es.len(),
{
    if es.len() == 0 {
        p
    } else {
        run_spec(step_spec(p, es[0]), es.drop_first())
    }
}

/// A failed update ends the run with the failure status, and whatever
/// happens after that, the application is never launched.
pub proof fn lemma_failed_update_never_launches(version: Seq<char>, later: Seq<EventView>)
    ensures
        ({
            let failed = step_spec(
                PhaseView::Updating { version },
                EventView::UpdateFinished { ok: false },
            );
            &&& failed == (PhaseView::Done { code: EXIT_FAILURE })
            &&& run_spec(failed, later) == failed
            &&& action_spec(run_spec(failed, later)) == (ActionView::Exit { code: EXIT_FAILURE })
        }),
    decreases later.len(),
{
    if later.len() > 0 {
        lemma_failed_update_never_launches(version, later.drop_first());
    }
}

/// Once an update to the newest release is installed, with the version file
/// naming that release, a new run finds no update and launches directly.
pub proof fn lemma_rerun_after_update_is_up_to_date(
    contents: Seq<char>,
    status: u16,
    tag: Seq<char>,
)
    requires
        is_success_status(status),
        trimmed(contents) == strip_v(tag),
    ensures
        run_spec(
            PhaseView::CheckingLocalVersion,
            seq![
                EventView::LocalVersionRead { contents: Some(contents) },
                EventView::RemoteVersionChecked { version: remote_version_spec(status, Some(tag)) },
            ],
        ) == PhaseView::Launching,
{
    let es = seq![
        EventView::LocalVersionRead { contents: Some(contents) },
        EventView::RemoteVersionChecked { version: remote_version_spec(status, Some(tag)) },
    ];
    let p1 = step_spec(PhaseView::CheckingLocalVersion, es[0]);
    let p2 = step_spec(p1, es[1]);
    assert(es.drop_first().drop_first().len() == 0);
    assert(run_spec(p2, es.drop_first().drop_first()) == p2);
    assert(es.drop_first()[0] == es[1]);
    assert(run_spec(p1, es.drop_first()) == p2);
}

} // verus!
