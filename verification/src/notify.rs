//! The notify daemon of an IMAP folder, as a state machine: the
//! messages there at the start count as seen; after each wake-up of the
//! idle mode, the new messages that a search finds are fetched and each
//! is notified once. The daemon only ever ends on a failure.

use vstd::prelude::*;

use crate::imap::{
    encode_folder, notify_command_spec, notify_template, uid_set, unseen_spec, unseen_uids,
    utf7_encoding_of, uids_of, ImapConfig, NewMessage,
};
use crate::text::{decimals, join_spec};

verus! {

/// What the daemon hears back from the server, or from the commands it
/// had run.
#[derive(Debug)]
pub enum NotifyEvent {
    /// The folder was opened.
    Examined,
    /// A search found these uids.
    Found(Vec<u32>),
    /// The idle mode woke up.
    Woke,
    /// The fetch of the new messages answered these messages.
    Fetched(Vec<NewMessage>),
    /// The notify commands ran.
    Notified,
    /// The last action failed, with this message.
    Failed(String),
}

/// What the daemon asks for next.
#[derive(Debug)]
pub enum NotifyAction {
    /// Open the folder (its encoded name) read-only.
    Examine(String),
    /// Search with this query.
    Search(String),
    /// Wait in the idle mode.
    Idle,
    /// Fetch the messages of this uid set.
    Fetch(String),
    /// Run one notify command per message, in order.
    Notify { messages: Vec<NewMessage>, commands: Vec<String> },
    /// Stop with this error.
    Fail(String),
}

/// Where the daemon stands.
#[derive(Debug, Clone, Copy, PartialEq, Eq, Structural)]
pub enum NotifyPhase {
    Examining,
    Starting,
    Idling,
    Searching,
    Fetching,
    Notifying,
    Failed,
}

/// The uids that an action notifies.
pub open spec fn action_uids(a: NotifyAction) -> Seq<u32> {
    match a {
        NotifyAction::Notify { messages, .. } => uids_of(messages@),
        _ => Seq::empty(),
    }
}

/// Whether the daemon takes an event where it stands.
pub open spec fn accepts_spec(phase: NotifyPhase, event: NotifyEvent) -> bool {
    match event {
        NotifyEvent::Failed(_) => phase != NotifyPhase::Failed,
        NotifyEvent::Examined => phase == NotifyPhase::Examining,
        NotifyEvent::Found(_) => phase == NotifyPhase::Starting || phase == NotifyPhase::Searching,
        NotifyEvent::Woke => phase == NotifyPhase::Idling,
        NotifyEvent::Fetched(_) => phase == NotifyPhase::Fetching,
        NotifyEvent::Notified => phase == NotifyPhase::Notifying,
    }
}

/// The messages of a fetch that are notified: in order, those that were
/// asked for, not seen yet, and not already taken earlier in the fetch.
pub open spec fn selected(fetched: Seq<NewMessage>, requested: Seq<u32>, seen: Seq<u32>) -> Seq<NewMessage>
    decreases fetched.len(),
{
    if fetched.len() == 0 {
        Seq::empty()
    } else {
        let before = selected(fetched.drop_last(), requested, seen);
        let m = fetched.last();
        if requested.contains(m.uid) && !(seen + uids_of(before)).contains(m.uid) {
            before.push(m)
        } else {
            before
        }
    }
}

/// The notify daemon.
pub struct NotifyDaemon {
    phase: NotifyPhase,
    seen: Vec<u32>,
    requested: Vec<u32>,
    initial: Ghost<Seq<u32>>,
    notified: Ghost<Seq<u32>>,
    woken_found: Ghost<Set<u32>>,
}

impl NotifyDaemon {
    /// Where the daemon stands.
    pub closed spec fn phase(self) -> NotifyPhase {
        self.phase
    }

    /// The uids seen: those there at the start, then those notified.
    pub closed spec fn seen(self) -> Seq<u32> {
        self.seen@
    }

    /// The uids asked for by the pending fetch.
    pub closed spec fn requested(self) -> Seq<u32> {
        self.requested@
    }

    /// The uids that the first search found, before any wake-up.
    pub closed spec fn initial(self) -> Seq<u32> {
        self.initial@
    }

    /// The uids notified so far, in order.
    pub closed spec fn notified(self) -> Seq<u32> {
        self.notified@
    }

    /// The uids that the searches after a wake-up found.
    pub closed spec fn woken_found(self) -> Set<u32> {
        self.woken_found@
    }

    /// What holds of every state of a run: no uid is notified twice,
    /// none that was there at the start, and only one that a search after
    /// a wake-up found; the pending fetch asks for such uids only.
    pub open spec fn wf(self) -> bool {
        &&& self.notified().no_duplicates()
        &&& forall|u: u32| #[trigger] self.notified().contains(u)
            ==> !self.initial().contains(u) && self.woken_found().contains(u)
        &&& self.seen() == self.initial() + self.notified()
        &&& forall|u: u32| #[trigger] self.requested().contains(u)
            ==> !self.seen().contains(u) && self.woken_found().contains(u)
        &&& (self.phase() == NotifyPhase::Examining || self.phase() == NotifyPhase::Starting)
            ==> self.notified().len() == 0 && self.initial().len() == 0
    }

    /// Whether the daemon takes the event where it stands.
    pub fn accepts(&self, event: &NotifyEvent) -> (b: bool)
        ensures
            b == accepts_spec(self.phase(), *event),
    {
        match event {
            NotifyEvent::Failed(_) => self.phase != NotifyPhase::Failed,
            NotifyEvent::Examined => self.phase == NotifyPhase::Examining,
            NotifyEvent::Found(_) => self.phase == NotifyPhase::Starting || self.phase == NotifyPhase::Searching,
            NotifyEvent::Woke => self.phase == NotifyPhase::Idling,
            NotifyEvent::Fetched(_) => self.phase == NotifyPhase::Fetching,
            NotifyEvent::Notified => self.phase == NotifyPhase::Notifying,
        }
    }

    /// The daemon on a folder, asking to open it.
    pub fn start(folder: &str) -> (r: (NotifyDaemon, NotifyAction))
        ensures
            r.0.wf(),
            r.0.phase() == NotifyPhase::Examining,
            r.0.notified().len() == 0,
            r.0.initial().len() == 0,
            r.0.woken_found() == Set::<u32>::empty(),
            r.1 matches NotifyAction::Examine(f) && f@ == utf7_encoding_of(folder@),
    {
        let d = NotifyDaemon {
            phase: NotifyPhase::Examining,
            seen: Vec::new(),
            requested: Vec::new(),
            initial: Ghost(Seq::empty()),
            notified: Ghost(Seq::empty()),
            woken_found: Ghost(Set::empty()),
        };
        assert(d.seen() =~= d.initial() + d.notified());
        (d, NotifyAction::Examine(encode_folder(folder)))
    }

    /// The next state and action after an event. A failure stops the
    /// daemon; nothing else does. The folder once open, the first search
    /// gives the uids there at the start; then each wake-up leads to a
    /// search, the new uids among those found are fetched, and the
    /// messages of the fetch that were asked for and not seen are
    /// notified, once each.
    pub fn step(self, config: &ImapConfig, event: NotifyEvent) -> (r: (NotifyDaemon, NotifyAction))
        requires
            self.wf(),
            accepts_spec(self.phase(), event),
        ensures
            r.0.wf(),
            r.0.notified() == self.notified() + action_uids(r.1),
            (r.1 is Fail) <==> (event is Failed),
            r.0.initial() == (match event {
                NotifyEvent::Found(f) => if self.phase() == NotifyPhase::Starting { f@ } else { self.initial() },
                _ => self.initial(),
            }),
            r.0.woken_found() == (match event {
                NotifyEvent::Found(f) => if self.phase() == NotifyPhase::Searching {
                    self.woken_found().union(f@.to_set())
                } else {
                    self.woken_found()
                },
                _ => self.woken_found(),
            }),
            match event {
                NotifyEvent::Failed(m) => r.0.phase() == NotifyPhase::Failed
                    && (r.1 matches NotifyAction::Fail(x) && x@ == m@),
                NotifyEvent::Examined => r.0.phase() == NotifyPhase::Starting
                    && (r.1 matches NotifyAction::Search(q) && q@ == notify_query_spec(*config)),
                NotifyEvent::Woke => r.0.phase() == NotifyPhase::Searching
                    && (r.1 matches NotifyAction::Search(q) && q@ == notify_query_spec(*config)),
                NotifyEvent::Found(f) => if self.phase() == NotifyPhase::Starting {
                    r.0.phase() == NotifyPhase::Idling && r.1 is Idle
                } else if unseen_spec(self.seen(), f@).len() == 0 {
                    r.0.phase() == NotifyPhase::Idling && r.1 is Idle
                } else {
                    &&& r.0.phase() == NotifyPhase::Fetching
                    &&& r.0.requested() == unseen_spec(self.seen(), f@)
                    &&& r.1 matches NotifyAction::Fetch(s) && s@ == join_spec(decimals(unseen_spec(self.seen(), f@)), ","@)
                },
                NotifyEvent::Fetched(ms) => r.0.phase() == NotifyPhase::Notifying && ({
                    let chosen = selected(ms@, self.requested(), self.seen());
                    &&& r.1 matches NotifyAction::Notify { messages, commands }
                    &&& messages@ == chosen
                    &&& commands@.len() == chosen.len()
                    &&& forall|i: int| 0 <= i < chosen.len() ==> (#[trigger] commands@[i])@ == notify_command_spec(
                        notify_template(*config),
                        chosen[i].uid,
                        chosen[i].subject@,
                        chosen[i].sender@,
                    )
                }),
                NotifyEvent::Notified => r.0.phase() == NotifyPhase::Idling && r.1 is Idle,
            },
    {
        let ghost this = self;
        let NotifyDaemon { phase, seen, requested, initial, notified, woken_found } = self;
        assert(seen@ == this.seen() && requested@ == this.requested() && initial@ == this.initial());
        assert(notified@ == this.notified() && woken_found@ == this.woken_found() && phase == this.phase());
        assert(forall|u: u32| #[trigger] requested@.contains(u) ==> !seen@.contains(u) && woken_found@.contains(u))
            by {
            assert forall|u: u32| #[trigger] requested@.contains(u) implies !seen@.contains(u)
                && woken_found@.contains(u) by {
                assert(this.requested().contains(u));
            }
        }
        assert(forall|u: u32| #[trigger] notified@.contains(u) ==> !initial@.contains(u) && woken_found@.contains(u))
            by {
            assert forall|u: u32| #[trigger] notified@.contains(u) implies !initial@.contains(u)
                && woken_found@.contains(u) by {
                assert(this.notified().contains(u));
            }
        }
        match event {
            NotifyEvent::Failed(m) => {
                let d = NotifyDaemon { phase: NotifyPhase::Failed, seen, requested, initial, notified, woken_found };
                (d, NotifyAction::Fail(m))
            },
            NotifyEvent::Examined => {
                let d = NotifyDaemon { phase: NotifyPhase::Starting, seen, requested, initial, notified, woken_found };
                (d, NotifyAction::Search(config.notify_query()))
            },
            NotifyEvent::Woke => {
                let d = NotifyDaemon { phase: NotifyPhase::Searching, seen, requested, initial, notified, woken_found };
                (d, NotifyAction::Search(config.notify_query()))
            },
            NotifyEvent::Notified => {
                let d = NotifyDaemon { phase: NotifyPhase::Idling, seen, requested: Vec::new(), initial, notified, woken_found };
                (d, NotifyAction::Idle)
            },
            NotifyEvent::Found(found) => {
                if phase == NotifyPhase::Starting {
                    let ghost f0 = found@;
                    proof {
                        assert(notified@.len() == 0);
                        assert(found@ + notified@ =~= found@);
                    }
                    let d = NotifyDaemon {
                        phase: NotifyPhase::Idling,
                        seen: found,
                        requested: Vec::new(),
                        initial: Ghost(f0),
                        notified,
                        woken_found,
                    };
                    (d, NotifyAction::Idle)
                } else {
                    let new_uids = unseen_uids(&seen, &found);
                    let ghost wf2 = woken_found@.union(found@.to_set());
                    proof {
                        crate::imap::law_unseen_are_new(seen@, found@);
                        assert forall|u: u32| #[trigger] new_uids@.contains(u)
                            implies !seen@.contains(u) && wf2.contains(u) by {
                            assert(found@.contains(u));
                            assert(found@.to_set().contains(u));
                        }
                    }
                    if new_uids.len() == 0 {
                        let d = NotifyDaemon {
                            phase: NotifyPhase::Idling,
                            seen,
                            requested: Vec::new(),
                            initial,
                            notified,
                            woken_found: Ghost(wf2),
                        };
                        (d, NotifyAction::Idle)
                    } else {
                        let s = uid_set(&new_uids);
                        let d = NotifyDaemon {
                            phase: NotifyPhase::Fetching,
                            seen,
                            requested: new_uids,
                            initial,
                            notified,
                            woken_found: Ghost(wf2),
                        };
                        (d, NotifyAction::Fetch(s))
                    }
                }
            },
            NotifyEvent::Fetched(ms) => {
                let ghost seen0 = seen@;
                let mut seen = seen;
                let mut messages: Vec<NewMessage> = Vec::new();
                let mut commands: Vec<String> = Vec::new();
                let mut i: usize = 0;
                while i < ms.len()
                    invariant
                        i <= ms@.len(),
                        seen0 == initial@ + notified@,
                        notified@.no_duplicates(),
                        forall|u: u32| #[trigger] notified@.contains(u)
                            ==> !initial@.contains(u) && woken_found@.contains(u),
                        forall|u: u32| #[trigger] requested@.contains(u)
                            ==> !seen0.contains(u) && woken_found@.contains(u),
                        messages@ == selected(ms@.take(i as int), requested@, seen0),
                        seen@ == seen0 + uids_of(messages@),
                        uids_of(messages@).no_duplicates(),
                        forall|u: u32| #[trigger] uids_of(messages@).contains(u) ==> requested@.contains(u),
                        commands@.len() == messages@.len(),
                        forall|k: int| 0 <= k < messages@.len() ==> (#[trigger] commands@[k])@ == notify_command_spec(
                            notify_template(*config),
                            messages@[k].uid,
                            messages@[k].subject@,
                            messages@[k].sender@,
                        ),
                    decreases ms@.len() - i,
                {
                    let m = &ms[i];
                    assert(ms@.take(i + 1).drop_last() =~= ms@.take(i as int));
                    assert(ms@.take(i + 1).last() == ms@[i as int]);
                    let asked = contains_uid(&requested, m.uid);
                    let known = contains_uid(&seen, m.uid);
                    if asked && !known {
                        let ghost before = messages@;
                        commands.push(config.notify_command(m.uid, m.subject.as_str(), m.sender.as_str()));
                        messages.push(m.clone_message());
                        seen.push(m.uid);
                        proof {
                            assert(uids_of(messages@) =~= uids_of(before).push(m.uid));
                            assert(seen@ =~= seen0 + uids_of(messages@));
                            assert forall|u: u32| #[trigger] uids_of(messages@).contains(u) implies requested@.contains(u) by {
                                let k = choose|k: int| 0 <= k < uids_of(messages@).len() && uids_of(messages@)[k] == u;
                                if k < uids_of(before).len() {
                                    assert(uids_of(before)[k] == u);
                                    assert(uids_of(before).contains(u));
                                }
                            }
                            assert forall|a: int, b: int| 0 <= a < b < uids_of(messages@).len()
                                implies uids_of(messages@)[a] != uids_of(messages@)[b] by {
                                if b == uids_of(before).len() {
                                    assert(uids_of(before).contains(uids_of(before)[a]));
                                    assert((seen0 + uids_of(before))[seen0.len() + a] == uids_of(before)[a]);
                                }
                            }
                        }
                    } else {
                        proof {
                            if asked {
                                assert((seen0 + uids_of(messages@)) == seen@);
                            }
                        }
                    }
                    i += 1;
                }
                assert(ms@.take(ms@.len() as int) =~= ms@);
                let ghost n2 = notified@ + uids_of(messages@);
                proof {
                    assert(seen@ =~= initial@ + n2);
                    assert forall|u: u32| #[trigger] n2.contains(u)
                        implies !initial@.contains(u) && woken_found@.contains(u) by {
                        let k = choose|k: int| 0 <= k < n2.len() && n2[k] == u;
                        if k < notified@.len() {
                            assert(notified@.contains(u));
                        } else {
                            assert(uids_of(messages@).contains(u));
                            assert(requested@.contains(u));
                            if initial@.contains(u) {
                                let j = choose|j: int| 0 <= j < initial@.len() && initial@[j] == u;
                                assert(seen0[j] == u);
                            }
                        }
                    }
                    assert forall|a: int, b: int| 0 <= a < b < n2.len() implies n2[a] != n2[b] by {
                        if a < notified@.len() && b >= notified@.len() {
                            let u = n2[b];
                            assert(uids_of(messages@).contains(u));
                            assert(requested@.contains(u));
                            assert(seen0[initial@.len() + a] == n2[a]);
                            if n2[a] == u {
                                assert(seen0.contains(u));
                            }
                        } else if a >= notified@.len() {
                            assert(n2[a] == uids_of(messages@)[a - notified@.len()]);
                            assert(n2[b] == uids_of(messages@)[b - notified@.len()]);
                        }
                    }
                }
                let d = NotifyDaemon {
                    phase: NotifyPhase::Notifying,
                    seen,
                    requested: Vec::new(),
                    initial,
                    notified: Ghost(n2),
                    woken_found,
                };
                (d, NotifyAction::Notify { messages, commands })
            },
        }
    }
}

/// The notify query of a configuration: `NEW` by default.
pub open spec fn notify_query_spec(config: ImapConfig) -> Seq<char> {
    match config.notify_query {
        Some(x) => x@,
        None => "NEW"@,
    }
}

/// Whether a uid is among the uids.
fn contains_uid(v: &Vec<u32>, u: u32) -> (b: bool)
    ensures
        b == v@.contains(u),
{
    let mut i: usize = 0;
    while i < v.len()
        invariant
            i <= v@.len(),
            forall|k: int| 0 <= k < i ==> v@[k] != u,
        decreases v.len() - i,
    {
        if v[i] == u {
            assert(v@[i as int] == u);
            return true;
        }
        i += 1;
    }
    false
}

/// The uids that a run notifies: those of its notify actions, one after
/// the other.
pub open spec fn run_uids(actions: Seq<NotifyAction>) -> Seq<u32>
    decreases actions.len(),
{
    if actions.len() == 0 {
        Seq::empty()
    } else {
        run_uids(actions.drop_last()) + action_uids(actions.last())
    }
}

/// Over a whole run of the notify daemon, from its start, each step
/// taking the state and action that the previous step gave: every uid
/// is notified at most once, never one that the first search found, and
/// only one that a search after a wake-up found; and the run stops only
/// on a failure.
pub proof fn law_notify_run(states: Seq<NotifyDaemon>, events: Seq<NotifyEvent>, actions: Seq<NotifyAction>)
    requires
        states.len() == events.len() + 1,
        actions.len() == events.len(),
        states[0].wf(),
        states[0].notified().len() == 0,
        forall|i: int| 0 <= i < events.len() ==> {
            &&& (#[trigger] states[i + 1]).wf()
            &&& states[i + 1].notified() == states[i].notified() + action_uids(actions[i])
            &&& (actions[i] is Fail) <==> (events[i] is Failed)
        },
    ensures
        run_uids(actions) == states.last().notified(),
        run_uids(actions).no_duplicates(),
        forall|u: u32| #[trigger] run_uids(actions).contains(u)
            ==> !states.last().initial().contains(u) && states.last().woken_found().contains(u),
        forall|i: int| 0 <= i < actions.len() && (#[trigger] actions[i] is Fail) ==> events[i] is Failed,
    decreases events.len(),
{
    if events.len() == 0 {
        assert(run_uids(actions) =~= states[0].notified());
    } else {
        let n = events.len() - 1;
        let s2 = states.drop_last();
        let e2 = events.drop_last();
        let a2 = actions.drop_last();
        assert forall|i: int| 0 <= i < e2.len() implies {
            &&& (#[trigger] s2[i + 1]).wf()
            &&& s2[i + 1].notified() == s2[i].notified() + action_uids(a2[i])
            &&& (a2[i] is Fail) <==> (e2[i] is Failed)
        } by {
            assert(s2[i + 1] == states[i + 1]);
            assert(s2[i] == states[i]);
            assert(a2[i] == actions[i]);
            assert(e2[i] == events[i]);
        }
        law_notify_run(s2, e2, a2);
        assert forall|i: int| 0 <= i < actions.len() && (#[trigger] actions[i] is Fail) implies events[i] is Failed by {
            if i < n {
                assert(a2[i] == actions[i]);
                assert(e2[i] == events[i]);
                assert(a2[i] is Fail);
            } else {
                assert(states[i + 1].wf());
            }
        }
        assert(states[n + 1].wf());
        assert(states.last() == states[n + 1]);
        assert(s2.last() == states[n]);
        assert(a2 =~= actions.drop_last());
    }
}

} // verus!
