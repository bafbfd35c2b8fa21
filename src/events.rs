use vstd::prelude::*;

verus! {

/// Idle wait, in milliseconds, while the window has focus.
pub const POLL_ACTIVE_MS: u64 = 16;

/// Idle wait, in milliseconds, while the window is in the background.
pub const POLL_INACTIVE_MS: u64 = 100;

/// What a filesystem change record says happened.
#[derive(Clone, Copy, Debug, PartialEq, Eq)]
pub enum ChangeKind {
    /// The file was opened for reading; its content did not change.
    OpenedForRead,
    /// Some other access.
    Access,
    Create,
    Modify,
    Remove,
    /// A change of an unknown kind.
    Any,
    Other,
}

/// One change record: its kind and the paths it concerns, as bytes.
#[derive(Debug)]
pub struct ChangeEvent {
    pub kind: ChangeKind,
    pub paths: Vec<Vec<u8>>,
}

/// One delivery of the change notifier: a batch of records, or a failure of
/// the watch itself.
#[derive(Debug)]
pub enum Notification {
    Events(Vec<ChangeEvent>),
    WatchError,
}

/// Only reading the file leaves its content as it was.
pub open spec fn reload_worthy(kind: ChangeKind) -> bool {
    kind != ChangeKind::OpenedForRead
}

pub open spec fn touches(e: ChangeEvent, target: Seq<u8>) -> bool {
    exists|i: int| 0 <= i < e.paths@.len() && e.paths@[i]@ == target
}

pub open spec fn event_requests_reload(e: ChangeEvent, target: Seq<u8>) -> bool {
    touches(e, target) && reload_worthy(e.kind)
}

/// A watch failure is taken as a change; a batch asks for a reload when one
/// of its records does.
pub open spec fn notification_requests_reload(n: Notification, target: Seq<u8>) -> bool {
    match n {
        Notification::WatchError => true,
        Notification::Events(es) => some_event_requests_reload(es@, target),
    }
}

pub open spec fn some_event_requests_reload(es: Seq<ChangeEvent>, target: Seq<u8>) -> bool {
    exists|j: int| 0 <= j < es.len() && event_requests_reload(#[trigger] es[j], target)
}

pub open spec fn some_event_touches(es: Seq<ChangeEvent>, target: Seq<u8>) -> bool {
    exists|j: int| 0 <= j < es.len() && touches(#[trigger] es[j], target)
}

pub open spec fn batch_requests_reload(b: Seq<Notification>, target: Seq<u8>) -> bool {
    exists|k: int| 0 <= k < b.len() && notification_requests_reload(#[trigger] b[k], target)
}

/// Where the wait for the file to be created stands after one delivery.
#[derive(Clone, Copy, Debug, PartialEq, Eq)]
pub enum CreationWait {
    /// A record on the path came and the file exists: the wait is over.
    Done,
    /// Nothing yet: keep waiting.
    Pending,
    /// The watch itself failed: a fatal startup error.
    Failed,
}

/// While waiting for the file to appear: a watch failure ends the wait with
/// an error; a record on the path ends it if the file exists by then.
pub open spec fn creation_outcome(n: Notification, target: Seq<u8>, exists_now: bool) -> CreationWait {
    match n {
        Notification::WatchError => CreationWait::Failed,
        Notification::Events(es) => if exists_now && some_event_touches(es@, target) {
            CreationWait::Done
        } else {
            CreationWait::Pending
        },
    }
}

/// Whether a change of this kind can have altered the file's content.
pub fn should_reload(kind: ChangeKind) -> (r: bool)
    ensures
        r == reload_worthy(kind),
{
    match kind {
        ChangeKind::OpenedForRead => false,
        _ => true,
    }
}

fn bytes_equal(a: &Vec<u8>, b: &Vec<u8>) -> (r: bool)
    ensures
        r == (a@ == b@),
{
    if a.len() != b.len() {
        return false;
    }
    let mut i: usize = 0;
    while i < a.len()
        invariant
            a@.len() == b@.len(),
            i <= a@.len(),
            forall|k: int| 0 <= k < i ==> a@[k] == b@[k],
        decreases a@.len() - i,
    {
        if a[i] != b[i] {
            return false;
        }
        i = i + 1;
    }
    assert(a@ =~= b@);
    true
}

/// Whether one of the record's paths is `target`.
pub fn touches_path(e: &ChangeEvent, target: &Vec<u8>) -> (r: bool)
    ensures
        r == touches(*e, target@),
{
    let mut i: usize = 0;
    while i < e.paths.len()
        invariant
            i <= e.paths@.len(),
            forall|k: int| 0 <= k < i ==> e.paths@[k]@ != target@,
        decreases e.paths@.len() - i,
    {
        if bytes_equal(&e.paths[i], target) {
            return true;
        }
        i = i + 1;
    }
    false
}

/// Whether the record concerns `target` and may have changed its content.
pub fn event_triggers_reload(e: &ChangeEvent, target: &Vec<u8>) -> (r: bool)
    ensures
        r == event_requests_reload(*e, target@),
{
    touches_path(e, target) && should_reload(e.kind)
}

fn some_event_triggers(es: &Vec<ChangeEvent>, target: &Vec<u8>) -> (r: bool)
    ensures
        r == some_event_requests_reload(es@, target@),
{
    let mut j: usize = 0;
    while j < es.len()
        invariant
            j <= es@.len(),
            forall|k: int| 0 <= k < j ==> !event_requests_reload(#[trigger] es@[k], target@),
        decreases es@.len() - j,
    {
        if event_triggers_reload(&es[j], target) {
            assert(event_requests_reload(es@[j as int], target@));
            return true;
        }
        j = j + 1;
    }
    false
}

fn some_event_touching(es: &Vec<ChangeEvent>, target: &Vec<u8>) -> (r: bool)
    ensures
        r == some_event_touches(es@, target@),
{
    let mut j: usize = 0;
    while j < es.len()
        invariant
            j <= es@.len(),
            forall|k: int| 0 <= k < j ==> !touches(#[trigger] es@[k], target@),
        decreases es@.len() - j,
    {
        if touches_path(&es[j], target) {
            assert(touches(es@[j as int], target@));
            return true;
        }
        j = j + 1;
    }
    false
}

/// Whether one delivery of the notifier asks for a reload of `target`.
pub fn notification_triggers_reload(n: &Notification, target: &Vec<u8>) -> (r: bool)
    ensures
        r == notification_requests_reload(*n, target@),
{
    match n {
        Notification::WatchError => true,
        Notification::Events(es) => some_event_triggers(es, target),
    }
}

/// Whether any of the queued deliveries asks for a reload of `target`. The
/// answer is one flag however many records ask: at most one reload follows.
pub fn batch_triggers_reload(batch: &Vec<Notification>, target: &Vec<u8>) -> (r: bool)
    ensures
        r == batch_requests_reload(batch@, target@),
{
    let mut k: usize = 0;
    while k < batch.len()
        invariant
            k <= batch@.len(),
            forall|m: int| 0 <= m < k ==> !notification_requests_reload(#[trigger] batch@[m], target@),
        decreases batch@.len() - k,
    {
        if notification_triggers_reload(&batch[k], target) {
            return true;
        }
        k = k + 1;
    }
    false
}

/// What a delivery received while waiting for `target` to be created means
/// for the wait; `exists_now` tells whether the file exists after it.
pub fn creation_observed(n: &Notification, target: &Vec<u8>, exists_now: bool) -> (r: CreationWait)
    ensures
        r == creation_outcome(*n, target@, exists_now),
{
    match n {
        Notification::WatchError => CreationWait::Failed,
        Notification::Events(es) => {
            if exists_now && some_event_touching(es, target) {
                CreationWait::Done
            } else {
                CreationWait::Pending
            }
        },
    }
}

/// How long to block for change events while idle: short while the window
/// has focus, longer while it has not.
pub fn idle_timeout_ms(is_active: bool) -> (r: u64)
    ensures
        r == (if is_active { POLL_ACTIVE_MS } else { POLL_INACTIVE_MS }),
        is_active ==> r < POLL_INACTIVE_MS,
{
    if is_active {
        POLL_ACTIVE_MS
    } else {
        POLL_INACTIVE_MS
    }
}

} // verus!
