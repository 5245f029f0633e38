//! Synchronization of an account: the progress events and their
//! descriptions, and the order of the synchronization steps as a
//! state machine whose work is done by the caller.

use vstd::prelude::*;

use crate::text::{decimal, decimal_chars, from_chars, push_str, string_of};

verus! {

/// Errors decided by the synchronization itself.
#[derive(Debug, Clone)]
pub enum SyncError {
    /// The synchronization is not enabled for the given account.
    SyncAccountNotEnabledError(String),
}

/// A side of the synchronization.
#[derive(Debug, Clone, Copy, PartialEq, Eq, Structural)]
pub enum Destination {
    Local,
    Remote,
}

impl Destination {
    /// The name of the side: `local` or `remote`.
    pub fn to_string(&self) -> (s: String)
        ensures
            s@ == (match *self {
                Destination::Local => "local"@,
                Destination::Remote => "remote"@,
            }),
    {
        match self {
            Destination::Local => string_of("local"),
            Destination::Remote => string_of("remote"),
        }
    }
}

/// The sum of the given sizes.
pub open spec fn sum_spec(sizes: Seq<usize>) -> nat
    decreases sizes.len(),
{
    if sizes.len() == 0 {
        0
    } else {
        sum_spec(sizes.drop_last()) + sizes.last() as nat
    }
}

/// The sum of the given sizes.
pub fn sum(sizes: &Vec<usize>) -> (n: usize)
    requires
        sum_spec(sizes@) <= usize::MAX,
    ensures
        n == sum_spec(sizes@),
{
    let mut n: usize = 0;
    let mut i: usize = 0;
    while i < sizes.len()
        invariant
            i <= sizes.len(),
            n == sum_spec(sizes@.take(i as int)),
            sum_spec(sizes@) <= usize::MAX,
        decreases sizes.len() - i,
    {
        assert(sizes@.take(i + 1).drop_last() =~= sizes@.take(i as int));
        proof {
            lemma_sum_prefix(sizes@, i + 1);
        }
        n = n + sizes[i];
        i += 1;
    }
    assert(sizes@.take(i as int) =~= sizes@);
    n
}

/// A prefix sums to no more than the whole.
pub proof fn lemma_sum_prefix(sizes: Seq<usize>, k: int)
    requires
        0 <= k <= sizes.len(),
    ensures
        sum_spec(sizes.take(k)) <= sum_spec(sizes),
    decreases sizes.len() - k,
{
    if k < sizes.len() {
        lemma_sum_prefix(sizes, k + 1);
        assert(sizes.take(k + 1).drop_last() =~= sizes.take(k));
    } else {
        assert(sizes.take(k) =~= sizes);
    }
}

/// A progress event of the synchronization.
#[derive(Debug, Clone)]
pub enum SyncProgressEvent {
    BuildFolderPatch,
    GetLocalCachedFolders,
    GetLocalFolders,
    GetRemoteCachedFolders,
    GetRemoteFolders,
    /// The folder patches are applied; the size of the patch of each
    /// folder.
    ApplyFolderPatches(Vec<usize>),
    /// A folder hunk is applied; its description.
    ApplyFolderHunk(String),
    /// The envelope patches of the given folders are built.
    BuildEnvelopePatch(Vec<String>),
    /// The envelope patch of a folder was built; the size of each of
    /// its parts.
    EnvelopePatchBuilt(String, Vec<usize>),
    GetLocalCachedEnvelopes,
    GetLocalEnvelopes,
    GetRemoteCachedEnvelopes,
    GetRemoteEnvelopes,
    ApplyEnvelopePatches,
    /// An envelope hunk is applied; its description.
    ApplyEnvelopeHunk(String),
    ApplyEnvelopeCachePatch,
    /// The given folders are expunged.
    ExpungeFolders(Vec<String>),
    /// The given folder was expunged.
    FolderExpunged(String),
}

/// Whether the sums that a description counts fit in a `usize`.
pub open spec fn describable(e: SyncProgressEvent) -> bool {
    match e {
        SyncProgressEvent::ApplyFolderPatches(sizes) => sum_spec(sizes@) <= usize::MAX,
        SyncProgressEvent::EnvelopePatchBuilt(_, sizes) => sum_spec(sizes@) <= usize::MAX,
        _ => true,
    }
}

/// The description of a progress event.
pub open spec fn describe_spec(e: SyncProgressEvent) -> Seq<char> {
    match e {
        SyncProgressEvent::BuildFolderPatch => "Building folders diff patch"@,
        SyncProgressEvent::GetLocalCachedFolders => "Getting local cached folders"@,
        SyncProgressEvent::GetLocalFolders => "Getting local folders"@,
        SyncProgressEvent::GetRemoteCachedFolders => "Getting remote cached folders"@,
        SyncProgressEvent::GetRemoteFolders => "Getting remote folders"@,
        SyncProgressEvent::ApplyFolderPatches(sizes) =>
            "Processing "@ + decimal(sum_spec(sizes@)) + " patches of "@ + decimal(sizes@.len()) + " folders"@,
        SyncProgressEvent::ApplyFolderHunk(h) => h@,
        SyncProgressEvent::BuildEnvelopePatch(folders) =>
            "Building envelopes diff patch for "@ + decimal(folders@.len()) + " folders"@,
        SyncProgressEvent::EnvelopePatchBuilt(folder, sizes) =>
            "Built "@ + decimal(sum_spec(sizes@)) + " envelopes diff patch for folder "@ + folder@,
        SyncProgressEvent::GetLocalCachedEnvelopes => "Getting local cached envelopes"@,
        SyncProgressEvent::GetLocalEnvelopes => "Getting local envelopes"@,
        SyncProgressEvent::GetRemoteCachedEnvelopes => "Getting remote cached envelopes"@,
        SyncProgressEvent::GetRemoteEnvelopes => "Getting remote envelopes"@,
        SyncProgressEvent::ApplyEnvelopePatches => "Processing envelope patches"@,
        SyncProgressEvent::ApplyEnvelopeHunk(h) => h@,
        SyncProgressEvent::ApplyEnvelopeCachePatch => "Processing envelope cache patch"@,
        SyncProgressEvent::ExpungeFolders(folders) =>
            "Expunging "@ + decimal(folders@.len()) + " folders"@,
        SyncProgressEvent::FolderExpunged(folder) =>
            "Folder "@ + folder@ + " successfully expunged"@,
    }
}

impl SyncProgressEvent {
    /// The description of the event, as shown to the user.
    pub fn describe(&self) -> (s: String)
        requires
            describable(*self),
        ensures
            s@ == describe_spec(*self),
    {
        let mut v: Vec<char> = Vec::new();
        match self {
            SyncProgressEvent::BuildFolderPatch => push_str(&mut v, "Building folders diff patch"),
            SyncProgressEvent::GetLocalCachedFolders => push_str(&mut v, "Getting local cached folders"),
            SyncProgressEvent::GetLocalFolders => push_str(&mut v, "Getting local folders"),
            SyncProgressEvent::GetRemoteCachedFolders => push_str(&mut v, "Getting remote cached folders"),
            SyncProgressEvent::GetRemoteFolders => push_str(&mut v, "Getting remote folders"),
            SyncProgressEvent::ApplyFolderPatches(sizes) => {
                push_str(&mut v, "Processing ");
                let mut x = decimal_chars(sum(sizes) as u64);
                v.append(&mut x);
                push_str(&mut v, " patches of ");
                let mut y = decimal_chars(sizes.len() as u64);
                v.append(&mut y);
                push_str(&mut v, " folders");
            },
            SyncProgressEvent::ApplyFolderHunk(h) => push_str(&mut v, h.as_str()),
            SyncProgressEvent::BuildEnvelopePatch(folders) => {
                push_str(&mut v, "Building envelopes diff patch for ");
                let mut n = decimal_chars(folders.len() as u64);
                v.append(&mut n);
                push_str(&mut v, " folders");
            },
            SyncProgressEvent::EnvelopePatchBuilt(folder, sizes) => {
                push_str(&mut v, "Built ");
                let mut n = decimal_chars(sum(sizes) as u64);
                v.append(&mut n);
                push_str(&mut v, " envelopes diff patch for folder ");
                push_str(&mut v, folder.as_str());
            },
            SyncProgressEvent::GetLocalCachedEnvelopes => push_str(&mut v, "Getting local cached envelopes"),
            SyncProgressEvent::GetLocalEnvelopes => push_str(&mut v, "Getting local envelopes"),
            SyncProgressEvent::GetRemoteCachedEnvelopes => push_str(&mut v, "Getting remote cached envelopes"),
            SyncProgressEvent::GetRemoteEnvelopes => push_str(&mut v, "Getting remote envelopes"),
            SyncProgressEvent::ApplyEnvelopePatches => push_str(&mut v, "Processing envelope patches"),
            SyncProgressEvent::ApplyEnvelopeHunk(h) => push_str(&mut v, h.as_str()),
            SyncProgressEvent::ApplyEnvelopeCachePatch => push_str(&mut v, "Processing envelope cache patch"),
            SyncProgressEvent::ExpungeFolders(folders) => {
                push_str(&mut v, "Expunging ");
                let mut n = decimal_chars(folders.len() as u64);
                v.append(&mut n);
                push_str(&mut v, " folders");
            },
            SyncProgressEvent::FolderExpunged(folder) => {
                push_str(&mut v, "Folder ");
                push_str(&mut v, folder.as_str());
                push_str(&mut v, " successfully expunged");
            },
        }
        from_chars(&v)
    }
}

/// The name of the lock file of the synchronization of an account.
pub open spec fn lock_file_name_spec(account: Seq<char>) -> Seq<char> {
    "himalaya-sync-"@ + account + ".lock"@
}

/// The name of the lock file of the synchronization of an account:
/// `himalaya-sync-{account}.lock`.
pub fn lock_file_name(account: &str) -> (s: String)
    ensures
        s@ == lock_file_name_spec(account@),
{
    let mut v: Vec<char> = Vec::new();
    push_str(&mut v, "himalaya-sync-");
    push_str(&mut v, account);
    push_str(&mut v, ".lock");
    from_chars(&v)
}

/// Where a synchronization stands: the step whose outcome it waits
/// for.
#[derive(Debug, Clone)]
pub enum SyncState {
    /// Waiting for the lock file to be opened and locked.
    Locking,
    /// Waiting for the caches to be ready.
    PreparingCaches,
    /// Waiting for the folder patch to be built.
    BuildingFolderPatch,
    /// Waiting for the folder patch to be applied.
    ApplyingFolderPatch,
    /// Waiting for the envelope patches of the folders to be built.
    BuildingEnvelopePatches(Vec<String>),
    /// Waiting for the envelope patch to be applied.
    ApplyingEnvelopePatch(Vec<String>),
    /// Waiting for the folder at `next` to be expunged on one side.
    Expunging { folders: Vec<String>, next: usize, side: Destination },
    /// Waiting for the lock file to be unlocked.
    Unlocking(Vec<String>),
    /// The synchronization of the given folders is over.
    Done(Vec<String>),
    /// The synchronization stopped.
    Stopped,
}

/// The work the caller has to do next.
#[derive(Debug)]
pub enum SyncWork {
    /// Stop with the given error, before anything is done.
    Abort(SyncError),
    /// Open and lock the file of the given name in the temporary
    /// directory.
    Lock(String),
    /// Open the synchronization caches, and resolve the folder aliases
    /// of the folder strategy.
    PrepareCaches,
    /// Build the folder patch.
    BuildFolderPatch,
    /// Apply the folder patch, which gives the synchronized folders.
    ApplyFolderPatch,
    /// Build the envelope patch of each of the given folders.
    BuildEnvelopePatches(Vec<String>),
    /// Apply the envelope patch.
    ApplyEnvelopePatch,
    /// Expunge the given folder on the given side.
    Expunge(Destination, String),
    /// Unlock the lock file.
    Unlock,
    /// Report the synchronization of the given folders.
    Report(Vec<String>),
    /// Stop with the error of the step that failed.
    Stop,
}

/// What to do next: an optional progress event to emit, then some
/// work.
#[derive(Debug)]
pub struct SyncAction {
    pub emit: Option<SyncProgressEvent>,
    pub work: SyncWork,
}

/// The outcome of the last work.
#[derive(Debug)]
pub enum SyncEvent {
    /// The work succeeded.
    Succeeded,
    /// The folder patch was applied; the synchronized folders.
    FoldersApplied(Vec<String>),
    /// The work failed.
    Failed,
}

/// Whether the state waits for this kind of outcome.
pub open spec fn sync_accepts(state: SyncState, event: SyncEvent) -> bool {
    match state {
        SyncState::Done(_) | SyncState::Stopped => false,
        SyncState::ApplyingFolderPatch => !(event is Succeeded),
        _ => !(event is FoldersApplied),
    }
}

/// The phase of a state: every step goes to a lower phase, or stays in
/// the expunging phase and makes progress there.
pub open spec fn sync_phase(state: SyncState) -> nat {
    match state {
        SyncState::Locking => 9,
        SyncState::PreparingCaches => 8,
        SyncState::BuildingFolderPatch => 7,
        SyncState::ApplyingFolderPatch => 6,
        SyncState::BuildingEnvelopePatches(_) => 5,
        SyncState::ApplyingEnvelopePatch(_) => 4,
        SyncState::Expunging { .. } => 3,
        SyncState::Unlocking(_) => 2,
        SyncState::Done(_) => 1,
        SyncState::Stopped => 0,
    }
}

/// The expunges left to do.
pub open spec fn expunges_left(state: SyncState) -> int {
    match state {
        SyncState::Expunging { folders, next, side } =>
            2 * (folders@.len() - next) - (if side == Destination::Remote { 1int } else { 0int }),
        _ => 0,
    }
}

/// Whether the state is a valid expunging state.
pub open spec fn sync_state_wf(state: SyncState) -> bool {
    match state {
        SyncState::Expunging { folders, next, .. } => next < folders@.len(),
        _ => true,
    }
}

/// Whether the action expunges the folder at `i` on the given side.
pub open spec fn expunges(action: SyncAction, folders: Seq<String>, i: int, side: Destination) -> bool {
    action.work matches SyncWork::Expunge(d, f) && d == side && f@ == folders[i]@
}

/// Starts the synchronization of an account: it is refused when the
/// synchronization is not enabled, otherwise the lock file of the
/// account is locked first.
pub fn start_sync(account: &str, enabled: bool) -> (res: (SyncState, SyncAction))
    ensures
        !enabled ==> res.0 is Stopped && res.1.emit is None
            && (res.1.work matches SyncWork::Abort(SyncError::SyncAccountNotEnabledError(a)) && a@ == account@),
        enabled ==> res.0 is Locking && res.1.emit is None
            && (res.1.work matches SyncWork::Lock(name) && name@ == lock_file_name_spec(account@)),
{
    if !enabled {
        let e = SyncError::SyncAccountNotEnabledError(string_of(account));
        (SyncState::Stopped, SyncAction { emit: None, work: SyncWork::Abort(e) })
    } else {
        (SyncState::Locking, SyncAction { emit: None, work: SyncWork::Lock(lock_file_name(account)) })
    }
}

/// The result of one step of synchronization.
pub open spec fn sync_step_spec(state: SyncState, event: SyncEvent, next: SyncState, action: SyncAction) -> bool {
    if event is Failed {
        next is Stopped && action.emit is None && action.work is Stop
    } else {
        match state {
            SyncState::Locking => next is PreparingCaches && action.emit is None && action.work is PrepareCaches,
            SyncState::PreparingCaches => next is BuildingFolderPatch
                && action.emit == Some(SyncProgressEvent::BuildFolderPatch)
                && action.work is BuildFolderPatch,
            SyncState::BuildingFolderPatch => next is ApplyingFolderPatch && action.emit is None
                && action.work is ApplyFolderPatch,
            SyncState::ApplyingFolderPatch => match event {
                SyncEvent::FoldersApplied(folders) => {
                    &&& next matches SyncState::BuildingEnvelopePatches(f) && f@ == folders@
                    &&& action.emit matches Some(SyncProgressEvent::BuildEnvelopePatch(f)) && f@ == folders@
                    &&& action.work matches SyncWork::BuildEnvelopePatches(f) && f@ == folders@
                },
                _ => false,
            },
            SyncState::BuildingEnvelopePatches(folders) => {
                &&& next matches SyncState::ApplyingEnvelopePatch(f) && f@ == folders@
                &&& action.emit == Some(SyncProgressEvent::ApplyEnvelopePatches)
                &&& action.work is ApplyEnvelopePatch
            },
            SyncState::ApplyingEnvelopePatch(folders) => {
                &&& action.emit matches Some(SyncProgressEvent::ExpungeFolders(f)) && f@ == folders@
                &&& if folders@.len() == 0 {
                    &&& next matches SyncState::Unlocking(f) && f@ == folders@
                    &&& action.work is Unlock
                } else {
                    &&& next matches SyncState::Expunging { folders: f, next: 0, side: Destination::Local } && f@ == folders@
                    &&& expunges(action, folders@, 0, Destination::Local)
                }
            },
            SyncState::Expunging { folders, next: i, side } => if side == Destination::Local {
                &&& next == SyncState::Expunging { folders, next: i, side: Destination::Remote }
                &&& action.emit is None
                &&& expunges(action, folders@, i as int, Destination::Remote)
            } else {
                &&& action.emit matches Some(SyncProgressEvent::FolderExpunged(f)) && f@ == folders@[i as int]@
                &&& if i + 1 < folders@.len() {
                    &&& next == SyncState::Expunging { folders, next: (i + 1) as usize, side: Destination::Local }
                    &&& expunges(action, folders@, i + 1, Destination::Local)
                } else {
                    &&& next matches SyncState::Unlocking(f) && f@ == folders@
                    &&& action.work is Unlock
                }
            },
            SyncState::Unlocking(folders) => {
                &&& next matches SyncState::Done(f) && f@ == folders@
                &&& action.emit is None
                &&& action.work matches SyncWork::Report(f) && f@ == folders@
            },
            _ => false,
        }
    }
}

/// One step of synchronization: from the current state and the outcome
/// of the last work, the next state and what to do next. A failure
/// stops the synchronization; otherwise the lock comes first, then the
/// caches, the folder patch, the envelope patches, then each
/// synchronized folder is expunged locally then remotely, and the lock
/// is released last.
pub fn sync_step(state: SyncState, event: SyncEvent) -> (res: (SyncState, SyncAction))
    requires
        sync_accepts(state, event),
        sync_state_wf(state),
    ensures
        sync_state_wf(res.0),
        sync_phase(res.0) < sync_phase(state)
            || (sync_phase(res.0) == sync_phase(state) && expunges_left(res.0) < expunges_left(state)),
        sync_step_spec(state, event, res.0, res.1),
{
    if let SyncEvent::Failed = event {
        return (SyncState::Stopped, SyncAction { emit: None, work: SyncWork::Stop });
    }
    match state {
        SyncState::Locking => (SyncState::PreparingCaches, SyncAction { emit: None, work: SyncWork::PrepareCaches }),
        SyncState::PreparingCaches => (
            SyncState::BuildingFolderPatch,
            SyncAction { emit: Some(SyncProgressEvent::BuildFolderPatch), work: SyncWork::BuildFolderPatch },
        ),
        SyncState::BuildingFolderPatch => (
            SyncState::ApplyingFolderPatch,
            SyncAction { emit: None, work: SyncWork::ApplyFolderPatch },
        ),
        SyncState::ApplyingFolderPatch => match event {
            SyncEvent::FoldersApplied(folders) => {
                let f1 = folders.clone();
                let f2 = folders.clone();
                (
                    SyncState::BuildingEnvelopePatches(folders),
                    SyncAction {
                        emit: Some(SyncProgressEvent::BuildEnvelopePatch(f1)),
                        work: SyncWork::BuildEnvelopePatches(f2),
                    },
                )
            },
            _ => (SyncState::Stopped, SyncAction { emit: None, work: SyncWork::Stop }),
        },
        SyncState::BuildingEnvelopePatches(folders) => (
            SyncState::ApplyingEnvelopePatch(folders),
            SyncAction { emit: Some(SyncProgressEvent::ApplyEnvelopePatches), work: SyncWork::ApplyEnvelopePatch },
        ),
        SyncState::ApplyingEnvelopePatch(folders) => {
            let emitted = folders.clone();
            if folders.len() == 0 {
                (
                    SyncState::Unlocking(folders),
                    SyncAction { emit: Some(SyncProgressEvent::ExpungeFolders(emitted)), work: SyncWork::Unlock },
                )
            } else {
                let first = folders[0].clone();
                (
                    SyncState::Expunging { folders, next: 0, side: Destination::Local },
                    SyncAction {
                        emit: Some(SyncProgressEvent::ExpungeFolders(emitted)),
                        work: SyncWork::Expunge(Destination::Local, first),
                    },
                )
            }
        },
        SyncState::Expunging { folders, next, side } => {
            match side {
                Destination::Local => {
                    let f = folders[next].clone();
                    (
                        SyncState::Expunging { folders, next, side: Destination::Remote },
                        SyncAction { emit: None, work: SyncWork::Expunge(Destination::Remote, f) },
                    )
                },
                Destination::Remote => {
                    let n = folders.len();
                    let done = folders[next].clone();
                    if next + 1 < n {
                        let f = folders[next + 1].clone();
                        (
                            SyncState::Expunging { folders, next: next + 1, side: Destination::Local },
                            SyncAction {
                                emit: Some(SyncProgressEvent::FolderExpunged(done)),
                                work: SyncWork::Expunge(Destination::Local, f),
                            },
                        )
                    } else {
                        (
                            SyncState::Unlocking(folders),
                            SyncAction { emit: Some(SyncProgressEvent::FolderExpunged(done)), work: SyncWork::Unlock },
                        )
                    }
                },
            }
        },
        SyncState::Unlocking(folders) => {
            let reported = folders.clone();
            (SyncState::Done(folders), SyncAction { emit: None, work: SyncWork::Report(reported) })
        },
        _ => (SyncState::Stopped, SyncAction { emit: None, work: SyncWork::Stop }),
    }
}

} // verus!
