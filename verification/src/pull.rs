//! The pull orchestrator: a per-object state machine that walks a batch
//! response in order and directs the surrounding shell through each
//! download, with bounded retry, fixed backoff, and an integrity gate on
//! every downloaded object.
//!
//! The shell performs one commanded piece of outside work at a time (make
//! a directory, download into a file) and reports the outcome as an event;
//! the machine decides everything else. Within one walk, a later object is
//! never started before the current one reaches a terminal outcome, and a
//! stopped machine accepts no further event.

use vstd::prelude::*;

use crate::errors::RemoteError;
use crate::errors::RemoteErrorV;
use crate::pointer::clone_bytes;
use crate::pointer::path_of;
use crate::pointer::pointer_wf;
use crate::pointer::Pointer;
use crate::pointer::PointerV;
use crate::protocol::bytes_eq;
use crate::protocol::find_pointer;
use crate::protocol::first_match;
use crate::protocol::object_views;
use crate::protocol::pointer_views;
use crate::protocol::BatchObject;
use crate::protocol::BatchObjectV;
use crate::protocol::BatchResponse;
use crate::protocol::ObjectAction;
use crate::protocol::ObjectActionV;
use crate::protocol::ObjectErrorInfoV;
use crate::protocol::MAX_ATTEMPTS;
use crate::protocol::RETRY_DELAY_MS;

verus! {

/// Where a pull walk stands.
#[derive(Clone, Copy, Debug, PartialEq, Eq, Structural)]
pub enum PullPhase {
    /// Built, no decision made yet.
    Ready,
    /// The shell is making the current object's parent directory.
    AwaitDir,
    /// The shell is downloading the current object into its file.
    AwaitDownload,
    /// Terminal: the walk finished or aborted.
    Stopped,
}

/// Mathematical value of a [`PullEvent`].
#[verifier::ext_equal]
pub enum PullEventV {
    Proceed,
    DirOk,
    DirFailed { message: Seq<u8> },
    Downloaded { got: PointerV },
    DownloadFailed { error: RemoteErrorV },
}

/// What the shell reports back to the machine.
#[derive(Debug)]
pub enum PullEvent {
    /// Start the walk.
    Proceed,
    /// The parent directory exists now.
    DirOk,
    /// Making the parent directory failed with this I/O message.
    DirFailed { message: Vec<u8> },
    /// The download finished; the transport computed this pointer from the
    /// bytes actually received.
    Downloaded { got: Pointer },
    /// The attempt failed at the transport or file level.
    DownloadFailed { error: RemoteError },
}

impl View for PullEvent {
    type V = PullEventV;

    open spec fn view(&self) -> PullEventV {
        match self {
            PullEvent::Proceed => PullEventV::Proceed,
            PullEvent::DirOk => PullEventV::DirOk,
            PullEvent::DirFailed { message } => PullEventV::DirFailed { message: message@ },
            PullEvent::Downloaded { got } => PullEventV::Downloaded { got: got@ },
            PullEvent::DownloadFailed { error } => PullEventV::DownloadFailed { error: error@ },
        }
    }
}

/// Mathematical value of a [`PullCommand`].
#[verifier::ext_equal]
pub enum PullCommandV {
    MakeDir { path: Seq<u8> },
    Download { path: Seq<u8>, action: ObjectActionV, delay_ms: u64 },
    Fail { error: RemoteErrorV, discard: Option<Seq<u8>> },
    Done,
}

/// What the machine asks the shell to do next.
#[derive(Debug)]
pub enum PullCommand {
    /// Ensure the parent directory of this store path exists.
    MakeDir { path: Vec<u8> },
    /// After waiting `delay_ms`: remove any stale file at the path, create
    /// it anew exclusively, and stream the object into it as the action
    /// describes; then report `Downloaded` or `DownloadFailed`.
    Download { path: Vec<u8>, action: ObjectAction, delay_ms: u64 },
    /// The walk aborted: remove the partial file at `discard` if given,
    /// and surface the error to the caller.
    Fail { error: RemoteError, discard: Option<Vec<u8>> },
    /// Every object reached a terminal outcome; the pull succeeded.
    Done,
}

impl View for PullCommand {
    type V = PullCommandV;

    open spec fn view(&self) -> PullCommandV {
        match self {
            PullCommand::MakeDir { path } => PullCommandV::MakeDir { path: path@ },
            PullCommand::Download { path, action, delay_ms } => PullCommandV::Download {
                path: path@,
                action: action@,
                delay_ms: *delay_ms,
            },
            PullCommand::Fail { error, discard } => PullCommandV::Fail {
                error: error@,
                discard: match discard {
                    Some(p) => Some(p@),
                    None => None,
                },
            },
            PullCommand::Done => PullCommandV::Done,
        }
    }
}

/// An object the remote wants nothing done with: no error, no actions.
pub open spec fn skippable(o: BatchObjectV) -> bool {
    o.error is None && o.actions is None
}

/// The download action of an object that was granted one.
pub open spec fn download_action_of(o: BatchObjectV) -> ObjectActionV
    recommends
        o.actions matches Some(a) && a.download is Some,
{
    match o.actions {
        Some(a) => match a.download {
            Some(d) => d,
            None => arbitrary(),
        },
        None => arbitrary(),
    }
}

/// What the walk decides when it reaches index `i` of the response.
pub enum PullDecision {
    /// Every object was dealt with.
    Finished,
    /// A binding condition aborts the whole pull.
    Abort { error: RemoteErrorV },
    /// Object `index` is to be downloaded for input pointer `ptr_index`.
    Fetch { index: int, ptr_index: int },
}

/// Walks the response from index `i`: the first object that is not
/// skippable settles the decision — a reported error or a missing download
/// action or an unknown identifier aborts, otherwise the object is fetched.
pub open spec fn pull_decide(objects: Seq<BatchObjectV>, pointers: Seq<PointerV>, i: int) -> PullDecision
    decreases objects.len() - i when 0 <= i <= objects.len()
{
    if i >= objects.len() {
        PullDecision::Finished
    } else {
        match objects[i].error {
            Some(e) => PullDecision::Abort {
                error: RemoteErrorV::ObjectError { code: e.code, message: e.message },
            },
            None => match objects[i].actions {
                None => pull_decide(objects, pointers, i + 1),
                Some(acts) => match acts.download {
                    None => PullDecision::Abort { error: RemoteErrorV::EmptyResponse },
                    Some(_) => match first_match(pointers, objects[i].oid, 0) {
                        None => PullDecision::Abort { error: RemoteErrorV::NotFound },
                        Some(j) => PullDecision::Fetch { index: i, ptr_index: j },
                    },
                },
            },
        }
    }
}

/// Mathematical value of a [`PullMachine`].
#[verifier::ext_equal]
pub struct PullMachineV {
    pub pointers: Seq<PointerV>,
    pub objects: Seq<BatchObjectV>,
    pub index: int,
    pub ptr_index: int,
    pub attempt: int,
    pub phase: PullPhase,
}

/// Well-formedness of a pull machine: the pointers are well-formed, and
/// while an object is in flight the indices are in range, the object has a
/// download action and no error, its pointer matches its identifier, and
/// the retry budget is not exhausted.
pub open spec fn pull_wf(m: PullMachineV) -> bool {
    &&& forall|i: int| 0 <= i < m.pointers.len() ==> pointer_wf(#[trigger] m.pointers[i])
    &&& (m.phase is AwaitDir || m.phase is AwaitDownload) ==> {
        &&& 0 <= m.index < m.objects.len()
        &&& 0 <= m.ptr_index < m.pointers.len()
        &&& m.objects[m.index].error is None
        &&& m.objects[m.index].actions matches Some(a) && a.download is Some
        &&& m.pointers[m.ptr_index].oid == m.objects[m.index].oid
        &&& 0 <= m.attempt < MAX_ATTEMPTS as int
    }
}

/// Which events answer which phase: exactly the outcome of the work the
/// machine last commanded. A stopped machine accepts no event.
pub open spec fn pull_event_fits(phase: PullPhase, ev: PullEventV) -> bool {
    match phase {
        PullPhase::Ready => ev is Proceed,
        PullPhase::AwaitDir => ev is DirOk || ev is DirFailed,
        PullPhase::AwaitDownload => ev is Downloaded || ev is DownloadFailed,
        PullPhase::Stopped => false,
    }
}

/// Entering the walk at index `from`: the decision there fixes the next
/// state and command.
pub open spec fn pull_enter(m: PullMachineV, from: int) -> (PullMachineV, PullCommandV) {
    match pull_decide(m.objects, m.pointers, from) {
        PullDecision::Finished => (
            PullMachineV { phase: PullPhase::Stopped, ..m },
            PullCommandV::Done,
        ),
        PullDecision::Abort { error } => (
            PullMachineV { phase: PullPhase::Stopped, ..m },
            PullCommandV::Fail { error, discard: None },
        ),
        PullDecision::Fetch { index, ptr_index } => (
            PullMachineV {
                index,
                ptr_index,
                attempt: 0,
                phase: PullPhase::AwaitDir,
                ..m
            },
            PullCommandV::MakeDir { path: path_of(m.pointers[ptr_index].oid) },
        ),
    }
}

/// The transition relation of the pull machine, as a function: what the
/// machine becomes and what it commands, given its state and the event.
pub open spec fn pull_step(m: PullMachineV, ev: PullEventV) -> (PullMachineV, PullCommandV) {
    match (m.phase, ev) {
        (PullPhase::Ready, PullEventV::Proceed) => pull_enter(m, 0),
        (PullPhase::AwaitDir, PullEventV::DirOk) => (
            PullMachineV { phase: PullPhase::AwaitDownload, ..m },
            PullCommandV::Download {
                path: path_of(m.pointers[m.ptr_index].oid),
                action: download_action_of(m.objects[m.index]),
                delay_ms: 0,
            },
        ),
        (PullPhase::AwaitDir, PullEventV::DirFailed { message }) => (
            PullMachineV { phase: PullPhase::Stopped, ..m },
            PullCommandV::Fail { error: RemoteErrorV::Io(message), discard: None },
        ),
        (PullPhase::AwaitDownload, PullEventV::Downloaded { got }) => if got.hash
            == m.pointers[m.ptr_index].hash {
            pull_enter(m, m.index + 1)
        } else {
            (
                PullMachineV { phase: PullPhase::Stopped, ..m },
                PullCommandV::Fail {
                    error: RemoteErrorV::ChecksumMismatch,
                    discard: Some(path_of(m.pointers[m.ptr_index].oid)),
                },
            )
        },
        (PullPhase::AwaitDownload, PullEventV::DownloadFailed { error }) => if m.attempt + 1
            < MAX_ATTEMPTS as int {
            (
                PullMachineV { attempt: m.attempt + 1, ..m },
                PullCommandV::Download {
                    path: path_of(m.pointers[m.ptr_index].oid),
                    action: download_action_of(m.objects[m.index]),
                    delay_ms: RETRY_DELAY_MS,
                },
            )
        } else {
            (
                PullMachineV { phase: PullPhase::Stopped, ..m },
                PullCommandV::Fail {
                    error,
                    discard: Some(path_of(m.pointers[m.ptr_index].oid)),
                },
            )
        },
        _ => (m, PullCommandV::Done),
    }
}

/// The per-object download driver of a pull call. Feed it the outcome of
/// each commanded piece of work; it answers with the next command.
pub struct PullMachine {
    pointers: Vec<Pointer>,
    objects: Vec<BatchObject>,
    index: usize,
    ptr_index: usize,
    attempt: u8,
    phase: PullPhase,
}

impl View for PullMachine {
    type V = PullMachineV;

    closed spec fn view(&self) -> PullMachineV {
        PullMachineV {
            pointers: pointer_views(self.pointers@),
            objects: object_views(self.objects@),
            index: self.index as int,
            ptr_index: self.ptr_index as int,
            attempt: self.attempt as int,
            phase: self.phase,
        }
    }
}

impl PullMachine {
    /// Builds the walk over a batch response for the given pointer set.
    pub fn new(pointers: Vec<Pointer>, response: BatchResponse) -> (m: PullMachine)
        requires
            forall|i: int| 0 <= i < pointers@.len() ==> pointer_wf(#[trigger] pointers@[i]@),
        ensures
            m@.pointers == pointer_views(pointers@),
            m@.objects == object_views(response.objects@),
            m@.phase is Ready,
            pull_wf(m@),
    {
        let m = PullMachine {
            pointers,
            objects: response.objects,
            index: 0,
            ptr_index: 0,
            attempt: 0,
            phase: PullPhase::Ready,
        };
        proof {
            assert forall|i: int| 0 <= i < m@.pointers.len() implies pointer_wf(
                #[trigger] m@.pointers[i],
            ) by {
                assert(m@.pointers[i] == pointers@[i]@);
            }
        }
        m
    }

    /// The store path of the object in flight.
    fn current_path(&self) -> (r: Vec<u8>)
        requires
            pull_wf(self@),
            self@.phase is AwaitDir || self@.phase is AwaitDownload,
        ensures
            r@ == path_of(self@.pointers[self@.ptr_index].oid),
    {
        proof {
            assert(pointer_wf(self@.pointers[self@.ptr_index]));
            assert(self.pointers@[self.ptr_index as int]@ == self@.pointers[self@.ptr_index]);
        }
        self.pointers[self.ptr_index].path()
    }

    /// The download action granted for the object in flight.
    fn current_action(&self) -> (r: ObjectAction)
        requires
            pull_wf(self@),
            self@.phase is AwaitDir || self@.phase is AwaitDownload,
        ensures
            r@ == download_action_of(self@.objects[self@.index]),
    {
        proof {
            assert(self.objects@[self.index as int]@ == self@.objects[self@.index]);
        }
        match &self.objects[self.index].actions {
            Some(acts) => match &acts.download {
                Some(a) => a.dup(),
                None => unreached(),
            },
            None => unreached(),
        }
    }

    /// Walks the response from `from` to the next decision, updating the
    /// machine and answering with the decision's command.
    fn enter(&mut self, from: usize) -> (cmd: PullCommand)
        requires
            pull_wf(old(self)@),
            from <= old(self)@.objects.len(),
        ensures
            pull_wf(final(self)@),
            final(self)@ == pull_enter(old(self)@, from as int).0,
            cmd@ == pull_enter(old(self)@, from as int).1,
    {
        let ghost m0 = self@;
        let mut j: usize = from;
        loop
            invariant
                m0 == old(self)@,
                pull_wf(m0),
                self@ == m0,
                from <= j <= m0.objects.len(),
                pull_decide(m0.objects, m0.pointers, from as int) == pull_decide(
                    m0.objects,
                    m0.pointers,
                    j as int,
                ),
            decreases m0.objects.len() - j,
        {
            if j == self.objects.len() {
                self.phase = PullPhase::Stopped;
                return PullCommand::Done;
            }
            proof {
                assert(self.objects@[j as int]@ == m0.objects[j as int]);
            }
            match &self.objects[j].error {
                Some(e) => {
                    let code = e.code;
                    let message = clone_bytes(&e.message);
                    self.phase = PullPhase::Stopped;
                    return PullCommand::Fail {
                        error: RemoteError::ObjectError { code, message },
                        discard: None,
                    };
                },
                None => {},
            }
            match &self.objects[j].actions {
                None => {
                    j = j + 1;
                },
                Some(acts) => {
                    if acts.download.is_none() {
                        self.phase = PullPhase::Stopped;
                        return PullCommand::Fail {
                            error: RemoteError::EmptyResponse,
                            discard: None,
                        };
                    }
                    match find_pointer(&self.pointers, &self.objects[j].oid) {
                        None => {
                            self.phase = PullPhase::Stopped;
                            return PullCommand::Fail {
                                error: RemoteError::NotFound,
                                discard: None,
                            };
                        },
                        Some(p_i) => {
                            proof {
                                crate::protocol::lemma_first_match_some(
                                    m0.pointers,
                                    m0.objects[j as int].oid,
                                    0,
                                    p_i as int,
                                );
                            }
                            self.index = j;
                            self.ptr_index = p_i;
                            self.attempt = 0;
                            self.phase = PullPhase::AwaitDir;
                            let path = self.current_path();
                            return PullCommand::MakeDir { path };
                        },
                    }
                },
            }
        }
    }

    /// One transition: the shell reports the outcome of the commanded work
    /// and receives the next command. The machine and command that result
    /// are exactly [`pull_step`] of the previous state and the event.
    pub fn step(&mut self, ev: PullEvent) -> (cmd: PullCommand)
        requires
            pull_wf(old(self)@),
            pull_event_fits(old(self)@.phase, ev@),
        ensures
            pull_wf(final(self)@),
            final(self)@ == pull_step(old(self)@, ev@).0,
            cmd@ == pull_step(old(self)@, ev@).1,
    {
        match ev {
            PullEvent::Proceed => self.enter(0),
            PullEvent::DirOk => {
                let path = self.current_path();
                let action = self.current_action();
                self.phase = PullPhase::AwaitDownload;
                PullCommand::Download { path, action, delay_ms: 0 }
            },
            PullEvent::DirFailed { message } => {
                self.phase = PullPhase::Stopped;
                PullCommand::Fail { error: RemoteError::Io(message), discard: None }
            },
            PullEvent::Downloaded { got } => {
                let matches_expected = {
                    proof {
                        assert(self.pointers@[self.ptr_index as int]@
                            == self@.pointers[self@.ptr_index]);
                    }
                    bytes_eq(got.hash(), self.pointers[self.ptr_index].hash())
                };
                if matches_expected {
                    let n = self.objects.len();
                    proof {
                        assert(self@.index < self@.objects.len());
                        assert(n == self.objects@.len());
                    }
                    let next = self.index + 1;
                    self.enter(next)
                } else {
                    let path = self.current_path();
                    self.phase = PullPhase::Stopped;
                    PullCommand::Fail {
                        error: RemoteError::ChecksumMismatch,
                        discard: Some(path),
                    }
                }
            },
            PullEvent::DownloadFailed { error } => {
                let path = self.current_path();
                if self.attempt + 1 < MAX_ATTEMPTS {
                    let action = self.current_action();
                    self.attempt = self.attempt + 1;
                    PullCommand::Download { path, action, delay_ms: RETRY_DELAY_MS }
                } else {
                    self.phase = PullPhase::Stopped;
                    PullCommand::Fail { error, discard: Some(path) }
                }
            },
        }
    }
}

/// Skipping is invisible: the walk decides the same from a skippable object
/// as from the one after it, so a response object without an action set is
/// passed over — no command is issued for it and no file of its identifier
/// is named — and processing continues with the next object.
pub proof fn lemma_pull_skip_continues(
    objects: Seq<BatchObjectV>,
    pointers: Seq<PointerV>,
    i: int,
)
    requires
        0 <= i < objects.len(),
        skippable(objects[i]),
    ensures
        pull_decide(objects, pointers, i) == pull_decide(objects, pointers, i + 1),
{
}

/// A run of skippable objects changes no decision.
pub proof fn lemma_pull_decide_skips(
    objects: Seq<BatchObjectV>,
    pointers: Seq<PointerV>,
    i: int,
    k: int,
)
    requires
        0 <= i <= k <= objects.len(),
        forall|j: int| i <= j < k ==> skippable(#[trigger] objects[j]),
    ensures
        pull_decide(objects, pointers, i) == pull_decide(objects, pointers, k),
    decreases k - i,
{
    if i < k {
        lemma_pull_decide_skips(objects, pointers, i + 1, k);
    }
}

/// An error the remote reported for an object is binding: entering the walk
/// at or before that object (everything in between skippable) stops the
/// machine at once with that error's code and message. A stopped machine
/// accepts no further event, so no command is ever issued for an object at
/// a later index.
pub proof fn lemma_pull_error_aborts(
    m: PullMachineV,
    i: int,
    k: int,
    e: ObjectErrorInfoV,
)
    requires
        0 <= i <= k < m.objects.len(),
        forall|j: int| i <= j < k ==> skippable(#[trigger] m.objects[j]),
        m.objects[k].error == Some(e),
    ensures
        pull_enter(m, i).0.phase is Stopped,
        pull_enter(m, i).1 == (PullCommandV::Fail {
            error: RemoteErrorV::ObjectError { code: e.code, message: e.message },
            discard: None,
        }),
{
    lemma_pull_decide_skips(m.objects, m.pointers, i, k);
}

/// Whatever the walk fetches was asked for: a Fetch decision names the
/// first non-skippable object at or after the entry index, that object has
/// no error and was granted a download action, and its pointer is the first
/// input pointer carrying its identifier.
pub proof fn lemma_pull_fetch_inversion(
    objects: Seq<BatchObjectV>,
    pointers: Seq<PointerV>,
    i: int,
    index: int,
    ptr_index: int,
)
    requires
        0 <= i <= objects.len(),
        pull_decide(objects, pointers, i) == (PullDecision::Fetch { index, ptr_index }),
    ensures
        i <= index < objects.len(),
        forall|j: int| i <= j < index ==> skippable(#[trigger] objects[j]),
        objects[index].error is None,
        objects[index].actions matches Some(a) && a.download is Some,
        first_match(pointers, objects[index].oid, 0) == Some(ptr_index),
    decreases objects.len() - i,
{
    if i < objects.len() && objects[i].error is None && objects[i].actions is None {
        lemma_pull_fetch_inversion(objects, pointers, i + 1, index, ptr_index);
    }
}

/// The walk finishes exactly when nothing is asked: entering at `i` ends
/// in success if and only if every object from `i` on is skippable.
pub proof fn lemma_pull_done_inversion(
    objects: Seq<BatchObjectV>,
    pointers: Seq<PointerV>,
    i: int,
)
    requires
        0 <= i <= objects.len(),
    ensures
        (pull_decide(objects, pointers, i) is Finished) <==> (forall|j: int|
            i <= j < objects.len() ==> skippable(#[trigger] objects[j])),
    decreases objects.len() - i,
{
    if i < objects.len() {
        lemma_pull_done_inversion(objects, pointers, i + 1);
    }
}

/// Within one walk the response index never moves backward: once an
/// object is in flight, each event either keeps the machine on it,
/// completes it and moves to a strictly later object, or stops the walk.
/// Together with a stopped machine accepting no event, this is the
/// consistent-prefix guarantee: when a walk aborts at an index, every
/// earlier object already reached its terminal outcome.
pub proof fn lemma_pull_index_monotonic(m: PullMachineV, ev: PullEventV)
    requires
        pull_wf(m),
        pull_event_fits(m.phase, ev),
        m.phase is AwaitDir || m.phase is AwaitDownload,
    ensures
        pull_step(m, ev).0.index >= m.index,
{
    match ev {
        PullEventV::Downloaded { got } => {
            if got.hash == m.pointers[m.ptr_index].hash {
                match pull_decide(m.objects, m.pointers, m.index + 1) {
                    PullDecision::Fetch { index, ptr_index } => {
                        lemma_pull_fetch_inversion(
                            m.objects,
                            m.pointers,
                            m.index + 1,
                            index,
                            ptr_index,
                        );
                    },
                    _ => {},
                }
            }
        },
        _ => {},
    }
}

/// The integrity gate: from a download wait, the machine completes the
/// current object and moves on exactly when the digest the transport
/// computed from the received bytes equals the expected pointer's digest;
/// a differing digest stops the whole pull at once with a checksum
/// mismatch and orders the partial file discarded — it is never retried.
pub proof fn lemma_pull_hash_gate(m: PullMachineV, got: PointerV)
    requires
        pull_wf(m),
        m.phase is AwaitDownload,
    ensures
        got.hash == m.pointers[m.ptr_index].hash ==> pull_step(
            m,
            (PullEventV::Downloaded { got }),
        ) == pull_enter(m, m.index + 1),
        got.hash != m.pointers[m.ptr_index].hash ==> {
            let (m1, c1) = pull_step(m, (PullEventV::Downloaded { got }));
            &&& m1.phase is Stopped
            &&& c1 == (PullCommandV::Fail {
                error: RemoteErrorV::ChecksumMismatch,
                discard: Some(path_of(m.pointers[m.ptr_index].oid)),
            })
        },
{
}

/// Two transient failures and then a sound download succeed on the third
/// attempt: each failure is answered by a fresh download command with the
/// fixed backoff delay, and the third attempt completes the object.
pub proof fn lemma_pull_two_failures_then_success(
    m: PullMachineV,
    e1: RemoteErrorV,
    e2: RemoteErrorV,
    got: PointerV,
)
    requires
        pull_wf(m),
        m.phase is AwaitDownload,
        m.attempt == 0,
        got.hash == m.pointers[m.ptr_index].hash,
    ensures
        ({
            let (m1, c1) = pull_step(m, (PullEventV::DownloadFailed { error: e1 }));
            let (m2, c2) = pull_step(m1, (PullEventV::DownloadFailed { error: e2 }));
            let (m3, c3) = pull_step(m2, (PullEventV::Downloaded { got }));
            &&& m1.phase is AwaitDownload && m1.attempt == 1 && m1.index == m.index
            &&& c1 == (PullCommandV::Download {
                path: path_of(m.pointers[m.ptr_index].oid),
                action: download_action_of(m.objects[m.index]),
                delay_ms: RETRY_DELAY_MS,
            })
            &&& m2.phase is AwaitDownload && m2.attempt == 2 && m2.index == m.index
            &&& c2 == c1
            &&& (m3, c3) == pull_enter(m2, m.index + 1)
        }),
{
}

/// A third consecutive transport failure exhausts the retry budget: the
/// pull stops with that failure as a hard error and the partial file is
/// ordered discarded — exhaustion never falls through silently.
pub proof fn lemma_pull_exhaustion(m: PullMachineV, e: RemoteErrorV)
    requires
        pull_wf(m),
        m.phase is AwaitDownload,
        m.attempt == MAX_ATTEMPTS as int - 1,
    ensures
        ({
            let (m1, c1) = pull_step(m, (PullEventV::DownloadFailed { error: e }));
            &&& m1.phase is Stopped
            &&& c1 == (PullCommandV::Fail {
                error: e,
                discard: Some(path_of(m.pointers[m.ptr_index].oid)),
            })
        }),
{
}

} // verus!
