use email::sync::{
    lock_file_name, start_sync, sum, sync_step, Destination, SyncAction, SyncError, SyncEvent,
    SyncProgressEvent, SyncState, SyncWork,
};

fn step(s: SyncState, e: SyncEvent) -> (SyncState, SyncAction) {
    sync_step(s, e)
}

#[test]
fn sync_refused_when_disabled() {
    let (s, a) = start_sync("work", false);
    assert!(matches!(s, SyncState::Stopped));
    assert!(matches!(a.work, SyncWork::Abort(SyncError::SyncAccountNotEnabledError(n)) if n == "work"));
}

#[test]
fn sync_runs_in_order() {
    let (s, a) = start_sync("work", true);
    assert!(matches!(&a.work, SyncWork::Lock(n) if n == "himalaya-sync-work.lock"));
    let (s, a) = step(s, SyncEvent::Succeeded);
    assert!(matches!(a.work, SyncWork::PrepareCaches));
    let (s, a) = step(s, SyncEvent::Succeeded);
    assert!(matches!(a.emit, Some(SyncProgressEvent::BuildFolderPatch)));
    assert!(matches!(a.work, SyncWork::BuildFolderPatch));
    let (s, a) = step(s, SyncEvent::Succeeded);
    assert!(matches!(a.work, SyncWork::ApplyFolderPatch));
    let folders = vec!["INBOX".to_string(), "Sent".to_string()];
    let (s, a) = step(s, SyncEvent::FoldersApplied(folders));
    assert!(matches!(&a.work, SyncWork::BuildEnvelopePatches(f) if f.len() == 2));
    let (s, a) = step(s, SyncEvent::Succeeded);
    assert!(matches!(a.work, SyncWork::ApplyEnvelopePatch));
    let (s, a) = step(s, SyncEvent::Succeeded);
    assert!(matches!(&a.work, SyncWork::Expunge(Destination::Local, f) if f == "INBOX"));
    let (s, a) = step(s, SyncEvent::Succeeded);
    assert!(matches!(&a.work, SyncWork::Expunge(Destination::Remote, f) if f == "INBOX"));
    let (s, a) = step(s, SyncEvent::Succeeded);
    assert!(matches!(&a.emit, Some(SyncProgressEvent::FolderExpunged(f)) if f == "INBOX"));
    assert!(matches!(&a.work, SyncWork::Expunge(Destination::Local, f) if f == "Sent"));
    let (s, _) = step(s, SyncEvent::Succeeded);
    let (s, a) = step(s, SyncEvent::Succeeded);
    assert!(matches!(a.work, SyncWork::Unlock));
    let (s, a) = step(s, SyncEvent::Succeeded);
    assert!(matches!(&a.work, SyncWork::Report(f) if f.len() == 2));
    assert!(matches!(s, SyncState::Done(_)));
}

#[test]
fn sync_failure_stops() {
    let (s, _) = start_sync("work", true);
    let (s, a) = step(s, SyncEvent::Failed);
    assert!(matches!(s, SyncState::Stopped));
    assert!(matches!(a.work, SyncWork::Stop));
}

#[test]
fn progress_descriptions() {
    assert_eq!(SyncProgressEvent::ApplyFolderPatches(vec![2, 3]).describe(), "Processing 5 patches of 2 folders");
    assert_eq!(
        SyncProgressEvent::EnvelopePatchBuilt("INBOX".to_string(), vec![1, 1, 4]).describe(),
        "Built 6 envelopes diff patch for folder INBOX"
    );
    assert_eq!(SyncProgressEvent::ExpungeFolders(vec!["a".to_string()]).describe(), "Expunging 1 folders");
    assert_eq!(SyncProgressEvent::FolderExpunged("a".to_string()).describe(), "Folder a successfully expunged");
    assert_eq!(SyncProgressEvent::GetRemoteEnvelopes.describe(), "Getting remote envelopes");
}

#[test]
fn sync_helpers() {
    assert_eq!(sum(&vec![1, 2, 3]), 6);
    assert_eq!(sum(&vec![]), 0);
    assert_eq!(lock_file_name("a b"), "himalaya-sync-a b.lock");
    assert_eq!(Destination::Local.to_string(), "local");
    assert_eq!(Destination::Remote.to_string(), "remote");
}
