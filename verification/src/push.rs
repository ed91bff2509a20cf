//! The push orchestrator: the mirror of the pull walk for uploads. For
//! each response object the machine directs the shell to read the object's
//! content from the local store, upload it with bounded retry and fixed
//! backoff, and then — whenever the remote granted a verify action, with
//! or without an upload action — ask the remote to confirm receipt.
//! A verification failure is binding and is never retried.

use vstd::prelude::*;

use crate::errors::RemoteError;
use crate::errors::RemoteErrorV;
use crate::pointer::clone_bytes;
use crate::pointer::path_of;
use crate::pointer::pointer_wf;
use crate::pointer::Pointer;
use crate::pointer::PointerV;
use crate::protocol::find_pointer;
use crate::protocol::first_match;
use crate::protocol::object_views;
use crate::protocol::pointer_views;
use crate::protocol::BatchObject;
use crate::protocol::BatchObjectV;
use crate::protocol::BatchResponse;
use crate::protocol::ObjectAction;
use crate::protocol::ObjectActionV;
use crate::protocol::ObjectErrorInfoV;
use crate::protocol::MAX_ATTEMPTS;
use crate::protocol::RETRY_DELAY_MS;

verus! {

/// Where a push walk stands.
#[derive(Clone, Copy, Debug, PartialEq, Eq, Structural)]
pub enum PushPhase {
    /// Built, no decision made yet.
    Ready,
    /// The shell is reading the current object's content from the store.
    AwaitRead,
    /// The shell is uploading the current object's content.
    AwaitUpload,
    /// The shell is asking the remote to confirm the current object.
    AwaitVerify,
    /// Terminal: the walk finished or aborted.
    Stopped,
}

/// Mathematical value of a [`PushEvent`].
#[verifier::ext_equal]
pub enum PushEventV {
    Proceed,
    ReadOk,
    ReadFailed { message: Seq<u8> },
    Uploaded,
    UploadFailed { error: RemoteErrorV },
    Verified,
    VerifyFailed { error: RemoteErrorV },
}

/// What the shell reports back to the machine.
#[derive(Debug)]
pub enum PushEvent {
    /// Start the walk.
    Proceed,
    /// The object's content was read from the local store; the shell keeps
    /// the bytes for the coming upload attempts.
    ReadOk,
    /// Reading the local content failed with this I/O message.
    ReadFailed { message: Vec<u8> },
    /// The upload attempt succeeded.
    Uploaded,
    /// The upload attempt failed at the transport level.
    UploadFailed { error: RemoteError },
    /// The remote confirmed the object.
    Verified,
    /// The remote rejected the confirmation.
    VerifyFailed { error: RemoteError },
}

impl View for PushEvent {
    type V = PushEventV;

    open spec fn view(&self) -> PushEventV {
        match self {
            PushEvent::Proceed => PushEventV::Proceed,
            PushEvent::ReadOk => PushEventV::ReadOk,
            PushEvent::ReadFailed { message } => PushEventV::ReadFailed { message: message@ },
            PushEvent::Uploaded => PushEventV::Uploaded,
            PushEvent::UploadFailed { error } => PushEventV::UploadFailed { error: error@ },
            PushEvent::Verified => PushEventV::Verified,
            PushEvent::VerifyFailed { error } => PushEventV::VerifyFailed { error: error@ },
        }
    }
}

/// Mathematical value of a [`PushCommand`].
#[verifier::ext_equal]
pub enum PushCommandV {
    ReadLocal { path: Seq<u8> },
    Upload { action: ObjectActionV, delay_ms: u64 },
    Verify { action: ObjectActionV, pointer: PointerV },
    Fail { error: RemoteErrorV },
    Done,
}

/// What the machine asks the shell to do next.
#[derive(Debug)]
pub enum PushCommand {
    /// Read the object's content from this store path and report `ReadOk`
    /// or `ReadFailed`; keep the bytes for the upload attempts.
    ReadLocal { path: Vec<u8> },
    /// After waiting `delay_ms`: send the read content as the action
    /// describes; then report `Uploaded` or `UploadFailed`.
    Upload { action: ObjectAction, delay_ms: u64 },
    /// Ask the remote to confirm receipt of the object this pointer names,
    /// as the action describes; then report `Verified` or `VerifyFailed`.
    Verify { action: ObjectAction, pointer: Pointer },
    /// The walk aborted: surface the error to the caller.
    Fail { error: RemoteError },
    /// Every object reached a terminal outcome; the push succeeded.
    Done,
}

impl View for PushCommand {
    type V = PushCommandV;

    open spec fn view(&self) -> PushCommandV {
        match self {
            PushCommand::ReadLocal { path } => PushCommandV::ReadLocal { path: path@ },
            PushCommand::Upload { action, delay_ms } => PushCommandV::Upload {
                action: action@,
                delay_ms: *delay_ms,
            },
            PushCommand::Verify { action, pointer } => PushCommandV::Verify {
                action: action@,
                pointer: pointer@,
            },
            PushCommand::Fail { error } => PushCommandV::Fail { error: error@ },
            PushCommand::Done => PushCommandV::Done,
        }
    }
}

/// An object the remote wants nothing done with: no error, no actions.
pub open spec fn push_skippable(o: BatchObjectV) -> bool {
    o.error is None && o.actions is None
}

/// The upload action of an object that was granted one.
pub open spec fn upload_action_of(o: BatchObjectV) -> ObjectActionV
    recommends
        o.actions matches Some(a) && a.upload is Some,
{
    match o.actions {
        Some(a) => match a.upload {
            Some(u) => u,
            None => arbitrary(),
        },
        None => arbitrary(),
    }
}

/// The verify action of an object that was granted one.
pub open spec fn verify_action_of(o: BatchObjectV) -> ObjectActionV
    recommends
        o.actions matches Some(a) && a.verify is Some,
{
    match o.actions {
        Some(a) => match a.verify {
            Some(v) => v,
            None => arbitrary(),
        },
        None => arbitrary(),
    }
}

/// Whether an object grants a verify action.
pub open spec fn has_verify(o: BatchObjectV) -> bool {
    o.actions matches Some(a) && a.verify is Some
}

/// What the walk decides when it reaches index `i` of the response.
pub enum PushDecision {
    /// Every object was dealt with.
    Finished,
    /// A binding condition aborts the whole push.
    Abort { error: RemoteErrorV },
    /// Object `index` is to be read and uploaded for pointer `ptr_index`.
    Send { index: int, ptr_index: int },
    /// Object `index` has no upload action but is to be confirmed for
    /// pointer `ptr_index`.
    Confirm { index: int, ptr_index: int },
}

/// Walks the response from index `i`: a reported error aborts; an absent
/// action set is skipped; otherwise the object's pointer is resolved (an
/// unknown identifier aborts), and the granted actions decide — upload,
/// or confirm only, or nothing at all (skipped as well).
pub open spec fn push_decide(objects: Seq<BatchObjectV>, pointers: Seq<PointerV>, i: int) -> PushDecision
    decreases objects.len() - i when 0 <= i <= objects.len()
{
    if i >= objects.len() {
        PushDecision::Finished
    } else {
        match objects[i].error {
            Some(e) => PushDecision::Abort {
                error: RemoteErrorV::ObjectError { code: e.code, message: e.message },
            },
            None => match objects[i].actions {
                None => push_decide(objects, pointers, i + 1),
                Some(acts) => match first_match(pointers, objects[i].oid, 0) {
                    None => PushDecision::Abort { error: RemoteErrorV::NotFound },
                    Some(j) => if acts.upload is Some {
                        PushDecision::Send { index: i, ptr_index: j }
                    } else if acts.verify is Some {
                        PushDecision::Confirm { index: i, ptr_index: j }
                    } else {
                        push_decide(objects, pointers, i + 1)
                    },
                },
            },
        }
    }
}

/// Mathematical value of a [`PushMachine`].
#[verifier::ext_equal]
pub struct PushMachineV {
    pub pointers: Seq<PointerV>,
    pub objects: Seq<BatchObjectV>,
    pub index: int,
    pub ptr_index: int,
    pub attempt: int,
    pub phase: PushPhase,
}

/// Well-formedness of a push machine: the pointers are well-formed, and
/// while an object is in flight the indices are in range, the object has
/// no error and the action its phase works on, its pointer matches its
/// identifier, and the retry budget is not exhausted.
pub open spec fn push_wf(m: PushMachineV) -> bool {
    &&& forall|i: int| 0 <= i < m.pointers.len() ==> pointer_wf(#[trigger] m.pointers[i])
    &&& (m.phase is AwaitRead || m.phase is AwaitUpload || m.phase is AwaitVerify) ==> {
        &&& 0 <= m.index < m.objects.len()
        &&& 0 <= m.ptr_index < m.pointers.len()
        &&& m.objects[m.index].error is None
        &&& m.objects[m.index].actions is Some
        &&& m.pointers[m.ptr_index].oid == m.objects[m.index].oid
        &&& 0 <= m.attempt < MAX_ATTEMPTS as int
    }
    &&& (m.phase is AwaitRead || m.phase is AwaitUpload) ==> (m.objects[m.index].actions
        matches Some(a) && a.upload is Some)
    &&& m.phase is AwaitVerify ==> has_verify(m.objects[m.index])
}

/// Which events answer which phase: exactly the outcome of the work the
/// machine last commanded. A stopped machine accepts no event.
pub open spec fn push_event_fits(phase: PushPhase, ev: PushEventV) -> bool {
    match phase {
        PushPhase::Ready => ev is Proceed,
        PushPhase::AwaitRead => ev is ReadOk || ev is ReadFailed,
        PushPhase::AwaitUpload => ev is Uploaded || ev is UploadFailed,
        PushPhase::AwaitVerify => ev is Verified || ev is VerifyFailed,
        PushPhase::Stopped => false,
    }
}

/// Entering the walk at index `from`: the decision there fixes the next
/// state and command.
pub open spec fn push_enter(m: PushMachineV, from: int) -> (PushMachineV, PushCommandV) {
    match push_decide(m.objects, m.pointers, from) {
        PushDecision::Finished => (
            PushMachineV { phase: PushPhase::Stopped, ..m },
            PushCommandV::Done,
        ),
        PushDecision::Abort { error } => (
            PushMachineV { phase: PushPhase::Stopped, ..m },
            PushCommandV::Fail { error },
        ),
        PushDecision::Send { index, ptr_index } => (
            PushMachineV {
                index,
                ptr_index,
                attempt: 0,
                phase: PushPhase::AwaitRead,
                ..m
            },
            PushCommandV::ReadLocal { path: path_of(m.pointers[ptr_index].oid) },
        ),
        PushDecision::Confirm { index, ptr_index } => (
            PushMachineV {
                index,
                ptr_index,
                attempt: 0,
                phase: PushPhase::AwaitVerify,
                ..m
            },
            PushCommandV::Verify {
                action: verify_action_of(m.objects[index]),
                pointer: m.pointers[ptr_index],
            },
        ),
    }
}

/// The transition relation of the push machine, as a function: what the
/// machine becomes and what it commands, given its state and the event.
pub open spec fn push_step(m: PushMachineV, ev: PushEventV) -> (PushMachineV, PushCommandV) {
    match (m.phase, ev) {
        (PushPhase::Ready, PushEventV::Proceed) => push_enter(m, 0),
        (PushPhase::AwaitRead, PushEventV::ReadOk) => (
            PushMachineV { phase: PushPhase::AwaitUpload, ..m },
            PushCommandV::Upload {
                action: upload_action_of(m.objects[m.index]),
                delay_ms: 0,
            },
        ),
        (PushPhase::AwaitRead, PushEventV::ReadFailed { message }) => (
            PushMachineV { phase: PushPhase::Stopped, ..m },
            PushCommandV::Fail { error: RemoteErrorV::Io(message) },
        ),
        (PushPhase::AwaitUpload, PushEventV::Uploaded) => if has_verify(m.objects[m.index]) {
            (
                PushMachineV { phase: PushPhase::AwaitVerify, ..m },
                PushCommandV::Verify {
                    action: verify_action_of(m.objects[m.index]),
                    pointer: m.pointers[m.ptr_index],
                },
            )
        } else {
            push_enter(m, m.index + 1)
        },
        (PushPhase::AwaitUpload, PushEventV::UploadFailed { error }) => if m.attempt + 1
            < MAX_ATTEMPTS as int {
            (
                PushMachineV { attempt: m.attempt + 1, ..m },
                PushCommandV::Upload {
                    action: upload_action_of(m.objects[m.index]),
                    delay_ms: RETRY_DELAY_MS,
                },
            )
        } else {
            (
                PushMachineV { phase: PushPhase::Stopped, ..m },
                PushCommandV::Fail { error },
            )
        },
        (PushPhase::AwaitVerify, PushEventV::Verified) => push_enter(m, m.index + 1),
        (PushPhase::AwaitVerify, PushEventV::VerifyFailed { error }) => (
            PushMachineV { phase: PushPhase::Stopped, ..m },
            PushCommandV::Fail { error },
        ),
        _ => (m, PushCommandV::Done),
    }
}

/// The per-object upload driver of a push call. Feed it the outcome of
/// each commanded piece of work; it answers with the next command.
pub struct PushMachine {
    pointers: Vec<Pointer>,
    objects: Vec<BatchObject>,
    index: usize,
    ptr_index: usize,
    attempt: u8,
    phase: PushPhase,
}

impl View for PushMachine {
    type V = PushMachineV;

    closed spec fn view(&self) -> PushMachineV {
        PushMachineV {
            pointers: pointer_views(self.pointers@),
            objects: object_views(self.objects@),
            index: self.index as int,
            ptr_index: self.ptr_index as int,
            attempt: self.attempt as int,
            phase: self.phase,
        }
    }
}

impl PushMachine {
    /// Builds the walk over a batch response for the given pointer set.
    pub fn new(pointers: Vec<Pointer>, response: BatchResponse) -> (m: PushMachine)
        requires
            forall|i: int| 0 <= i < pointers@.len() ==> pointer_wf(#[trigger] pointers@[i]@),
        ensures
            m@.pointers == pointer_views(pointers@),
            m@.objects == object_views(response.objects@),
            m@.phase is Ready,
            push_wf(m@),
    {
        let m = PushMachine {
            pointers,
            objects: response.objects,
            index: 0,
            ptr_index: 0,
            attempt: 0,
            phase: PushPhase::Ready,
        };
        proof {
            assert forall|i: int| 0 <= i < m@.pointers.len() implies pointer_wf(
                #[trigger] m@.pointers[i],
            ) by {
                assert(m@.pointers[i] == pointers@[i]@);
            }
        }
        m
    }

    /// The store path of the object in flight.
    fn current_path(&self) -> (r: Vec<u8>)
        requires
            push_wf(self@),
            self@.phase is AwaitRead || self@.phase is AwaitUpload || self@.phase is AwaitVerify,
        ensures
            r@ == path_of(self@.pointers[self@.ptr_index].oid),
    {
        proof {
            assert(pointer_wf(self@.pointers[self@.ptr_index]));
            assert(self.pointers@[self.ptr_index as int]@ == self@.pointers[self@.ptr_index]);
        }
        self.pointers[self.ptr_index].path()
    }

    /// The upload action granted for the object in flight.
    fn current_upload_action(&self) -> (r: ObjectAction)
        requires
            push_wf(self@),
            self@.phase is AwaitRead || self@.phase is AwaitUpload,
        ensures
            r@ == upload_action_of(self@.objects[self@.index]),
    {
        proof {
            assert(self.objects@[self.index as int]@ == self@.objects[self@.index]);
        }
        match &self.objects[self.index].actions {
            Some(acts) => match &acts.upload {
                Some(a) => a.dup(),
                None => unreached(),
            },
            None => unreached(),
        }
    }

    /// The verify action granted for the object in flight.
    fn current_verify_action(&self) -> (r: ObjectAction)
        requires
            push_wf(self@),
            self@.phase is AwaitVerify,
        ensures
            r@ == verify_action_of(self@.objects[self@.index]),
    {
        proof {
            assert(self.objects@[self.index as int]@ == self@.objects[self@.index]);
        }
        match &self.objects[self.index].actions {
            Some(acts) => match &acts.verify {
                Some(a) => a.dup(),
                None => unreached(),
            },
            None => unreached(),
        }
    }

    /// The pointer of the object in flight.
    fn current_pointer(&self) -> (r: Pointer)
        requires
            push_wf(self@),
            self@.phase is AwaitRead || self@.phase is AwaitUpload || self@.phase is AwaitVerify,
        ensures
            r@ == self@.pointers[self@.ptr_index],
    {
        proof {
            assert(self.pointers@[self.ptr_index as int]@ == self@.pointers[self@.ptr_index]);
        }
        self.pointers[self.ptr_index].dup()
    }

    /// Walks the response from `from` to the next decision, updating the
    /// machine and answering with the decision's command.
    fn enter(&mut self, from: usize) -> (cmd: PushCommand)
        requires
            push_wf(old(self)@),
            from <= old(self)@.objects.len(),
        ensures
            push_wf(final(self)@),
            final(self)@ == push_enter(old(self)@, from as int).0,
            cmd@ == push_enter(old(self)@, from as int).1,
    {
        let ghost m0 = self@;
        let mut j: usize = from;
        loop
            invariant
                m0 == old(self)@,
                push_wf(m0),
                self@ == m0,
                from <= j <= m0.objects.len(),
                push_decide(m0.objects, m0.pointers, from as int) == push_decide(
                    m0.objects,
                    m0.pointers,
                    j as int,
                ),
            decreases m0.objects.len() - j,
        {
            if j == self.objects.len() {
                self.phase = PushPhase::Stopped;
                return PushCommand::Done;
            }
            proof {
                assert(self.objects@[j as int]@ == m0.objects[j as int]);
            }
            match &self.objects[j].error {
                Some(e) => {
                    let code = e.code;
                    let message = clone_bytes(&e.message);
                    self.phase = PushPhase::Stopped;
                    return PushCommand::Fail {
                        error: RemoteError::ObjectError { code, message },
                    };
                },
                None => {},
            }
            match &self.objects[j].actions {
                None => {
                    j = j + 1;
                },
                Some(acts) => {
                    match find_pointer(&self.pointers, &self.objects[j].oid) {
                        None => {
                            self.phase = PushPhase::Stopped;
                            return PushCommand::Fail { error: RemoteError::NotFound };
                        },
                        Some(p_i) => {
                            proof {
                                crate::protocol::lemma_first_match_some(
                                    m0.pointers,
                                    m0.objects[j as int].oid,
                                    0,
                                    p_i as int,
                                );
                            }
                            if acts.upload.is_some() {
                                self.index = j;
                                self.ptr_index = p_i;
                                self.attempt = 0;
                                self.phase = PushPhase::AwaitRead;
                                let path = self.current_path();
                                return PushCommand::ReadLocal { path };
                            } else if acts.verify.is_some() {
                                self.index = j;
                                self.ptr_index = p_i;
                                self.attempt = 0;
                                self.phase = PushPhase::AwaitVerify;
                                let action = self.current_verify_action();
                                let pointer = self.current_pointer();
                                return PushCommand::Verify { action, pointer };
                            } else {
                                j = j + 1;
                            }
                        },
                    }
                },
            }
        }
    }

    /// One transition: the shell reports the outcome of the commanded work
    /// and receives the next command. The machine and command that result
    /// are exactly [`push_step`] of the previous state and the event.
    pub fn step(&mut self, ev: PushEvent) -> (cmd: PushCommand)
        requires
            push_wf(old(self)@),
            push_event_fits(old(self)@.phase, ev@),
        ensures
            push_wf(final(self)@),
            final(self)@ == push_step(old(self)@, ev@).0,
            cmd@ == push_step(old(self)@, ev@).1,
    {
        match ev {
            PushEvent::Proceed => self.enter(0),
            PushEvent::ReadOk => {
                let action = self.current_upload_action();
                self.phase = PushPhase::AwaitUpload;
                PushCommand::Upload { action, delay_ms: 0 }
            },
            PushEvent::ReadFailed { message } => {
                self.phase = PushPhase::Stopped;
                PushCommand::Fail { error: RemoteError::Io(message) }
            },
            PushEvent::Uploaded => {
                let confirm = match &self.objects[self.index].actions {
                    Some(acts) => acts.verify.is_some(),
                    None => false,
                };
                proof {
                    assert(self.objects@[self.index as int]@ == self@.objects[self@.index]);
                }
                if confirm {
                    self.phase = PushPhase::AwaitVerify;
                    let action = self.current_verify_action();
                    let pointer = self.current_pointer();
                    PushCommand::Verify { action, pointer }
                } else {
                    let n = self.objects.len();
                    proof {
                        assert(self@.index < self@.objects.len());
                        assert(n == self.objects@.len());
                    }
                    let next = self.index + 1;
                    self.enter(next)
                }
            },
            PushEvent::UploadFailed { error } => {
                if self.attempt + 1 < MAX_ATTEMPTS {
                    let action = self.current_upload_action();
                    self.attempt = self.attempt + 1;
                    PushCommand::Upload { action, delay_ms: RETRY_DELAY_MS }
                } else {
                    self.phase = PushPhase::Stopped;
                    PushCommand::Fail { error }
                }
            },
            PushEvent::Verified => {
                let n = self.objects.len();
                proof {
                    assert(self@.index < self@.objects.len());
                    assert(n == self.objects@.len());
                }
                let next = self.index + 1;
                self.enter(next)
            },
            PushEvent::VerifyFailed { error } => {
                self.phase = PushPhase::Stopped;
                PushCommand::Fail { error }
            },
        }
    }
}

/// Skipping is invisible: the walk decides the same from a skippable
/// object as from the one after it.
pub proof fn lemma_push_skip_continues(
    objects: Seq<BatchObjectV>,
    pointers: Seq<PointerV>,
    i: int,
)
    requires
        0 <= i < objects.len(),
        push_skippable(objects[i]),
    ensures
        push_decide(objects, pointers, i) == push_decide(objects, pointers, i + 1),
{
}

/// A run of skippable objects changes no decision.
pub proof fn lemma_push_decide_skips(
    objects: Seq<BatchObjectV>,
    pointers: Seq<PointerV>,
    i: int,
    k: int,
)
    requires
        0 <= i <= k <= objects.len(),
        forall|j: int| i <= j < k ==> push_skippable(#[trigger] objects[j]),
    ensures
        push_decide(objects, pointers, i) == push_decide(objects, pointers, k),
    decreases k - i,
{
    if i < k {
        lemma_push_decide_skips(objects, pointers, i + 1, k);
    }
}

/// An error the remote reported for an object is binding: entering the
/// walk at or before that object (everything in between skippable) stops
/// the machine at once with that error's code and message, and no command
/// is ever issued for an object at a later index.
pub proof fn lemma_push_error_aborts(
    m: PushMachineV,
    i: int,
    k: int,
    e: ObjectErrorInfoV,
)
    requires
        0 <= i <= k < m.objects.len(),
        forall|j: int| i <= j < k ==> push_skippable(#[trigger] m.objects[j]),
        m.objects[k].error == Some(e),
    ensures
        push_enter(m, i).0.phase is Stopped,
        push_enter(m, i).1 == (PushCommandV::Fail {
            error: RemoteErrorV::ObjectError { code: e.code, message: e.message },
        }),
{
    lemma_push_decide_skips(m.objects, m.pointers, i, k);
}

/// An object the push walk passes over without any command: either the
/// remote asked nothing, or the action set it sent grants neither an
/// upload nor a verify while the object's pointer is known.
pub open spec fn push_neutral(o: BatchObjectV, pointers: Seq<PointerV>) -> bool {
    &&& o.error is None
    &&& match o.actions {
        None => true,
        Some(acts) => {
            &&& first_match(pointers, o.oid, 0) is Some
            &&& acts.upload is None
            &&& acts.verify is None
        },
    }
}

/// The walk finishes exactly when nothing is asked: entering at `i` ends
/// in success if and only if every object from `i` on is neutral.
pub proof fn lemma_push_done_inversion(
    objects: Seq<BatchObjectV>,
    pointers: Seq<PointerV>,
    i: int,
)
    requires
        0 <= i <= objects.len(),
    ensures
        (push_decide(objects, pointers, i) is Finished) <==> (forall|j: int|
            i <= j < objects.len() ==> push_neutral(#[trigger] objects[j], pointers)),
    decreases objects.len() - i,
{
    if i < objects.len() {
        lemma_push_done_inversion(objects, pointers, i + 1);
    }
}

/// Whatever the walk works on was asked for: a Send or Confirm decision
/// names an object at or after the entry index with no error, an action
/// set granting the work decided (an upload, or a verify without one),
/// and the first input pointer carrying its identifier.
pub proof fn lemma_push_decide_inversion(
    objects: Seq<BatchObjectV>,
    pointers: Seq<PointerV>,
    i: int,
    index: int,
    ptr_index: int,
)
    requires
        0 <= i <= objects.len(),
        push_decide(objects, pointers, i) == (PushDecision::Send { index, ptr_index })
            || push_decide(objects, pointers, i) == (PushDecision::Confirm { index, ptr_index }),
    ensures
        i <= index < objects.len(),
        objects[index].error is None,
        first_match(pointers, objects[index].oid, 0) == Some(ptr_index),
        push_decide(objects, pointers, i) == (PushDecision::Send { index, ptr_index })
            ==> (objects[index].actions matches Some(a) && a.upload is Some),
        push_decide(objects, pointers, i) == (PushDecision::Confirm { index, ptr_index })
            ==> (objects[index].actions matches Some(a) && a.upload is None && a.verify is Some),
    decreases objects.len() - i,
{
    if i < objects.len() && objects[i].error is None {
        if objects[i].actions is None {
            lemma_push_decide_inversion(objects, pointers, i + 1, index, ptr_index);
        } else if first_match(pointers, objects[i].oid, 0) is Some {
            let acts = objects[i].actions->Some_0;
            if acts.upload is None && acts.verify is None {
                lemma_push_decide_inversion(objects, pointers, i + 1, index, ptr_index);
            }
        }
    }
}

/// Within one walk the response index never moves backward: once an
/// object is in flight, each event either keeps the machine on it,
/// completes it and moves to a strictly later object, or stops the walk.
/// Together with a stopped machine accepting no event, this is the
/// consistent-prefix guarantee: when a walk aborts at an index, every
/// earlier object already reached its terminal outcome.
pub proof fn lemma_push_index_monotonic(m: PushMachineV, ev: PushEventV)
    requires
        push_wf(m),
        push_event_fits(m.phase, ev),
        m.phase is AwaitRead || m.phase is AwaitUpload || m.phase is AwaitVerify,
    ensures
        push_step(m, ev).0.index >= m.index,
{
    let advanced = (m.phase is AwaitUpload && ev is Uploaded && !has_verify(m.objects[m.index]))
        || (m.phase is AwaitVerify && ev is Verified);
    if advanced {
        match push_decide(m.objects, m.pointers, m.index + 1) {
            PushDecision::Send { index, ptr_index } => {
                lemma_push_decide_inversion(m.objects, m.pointers, m.index + 1, index, ptr_index);
            },
            PushDecision::Confirm { index, ptr_index } => {
                lemma_push_decide_inversion(m.objects, m.pointers, m.index + 1, index, ptr_index);
            },
            _ => {},
        }
    }
}

/// A verify action is honoured even without an upload action: an object
/// whose action set grants verify but not upload is confirmed — entering
/// the walk at it commands the remote verification of its pointer at once,
/// with no upload in between.
pub proof fn lemma_push_verify_without_upload(m: PushMachineV, i: int, j: int)
    requires
        push_wf(m),
        0 <= i < m.objects.len(),
        m.objects[i].error is None,
        m.objects[i].actions matches Some(acts) && acts.upload is None && acts.verify is Some,
        first_match(m.pointers, m.objects[i].oid, 0) == Some(j),
    ensures
        push_decide(m.objects, m.pointers, i) == (PushDecision::Confirm { index: i, ptr_index: j }),
        push_enter(m, i).0.phase is AwaitVerify,
        push_enter(m, i).1 == (PushCommandV::Verify {
            action: verify_action_of(m.objects[i]),
            pointer: m.pointers[j],
        }),
{
}

/// Two transient upload failures and then a successful send complete the
/// object on the third attempt: each failure is answered by a fresh upload
/// command with the fixed backoff delay, and the third attempt moves the
/// walk on — to the remote confirmation when one was granted, to the next
/// object otherwise.
pub proof fn lemma_push_two_failures_then_success(
    m: PushMachineV,
    e1: RemoteErrorV,
    e2: RemoteErrorV,
)
    requires
        push_wf(m),
        m.phase is AwaitUpload,
        m.attempt == 0,
    ensures
        ({
            let (m1, c1) = push_step(m, (PushEventV::UploadFailed { error: e1 }));
            let (m2, c2) = push_step(m1, (PushEventV::UploadFailed { error: e2 }));
            let (m3, c3) = push_step(m2, PushEventV::Uploaded);
            &&& m1.phase is AwaitUpload && m1.attempt == 1 && m1.index == m.index
            &&& c1 == (PushCommandV::Upload {
                action: upload_action_of(m.objects[m.index]),
                delay_ms: RETRY_DELAY_MS,
            })
            &&& m2.phase is AwaitUpload && m2.attempt == 2 && m2.index == m.index
            &&& c2 == c1
            &&& has_verify(m.objects[m.index]) ==> m3.phase is AwaitVerify && c3
                == (PushCommandV::Verify {
                action: verify_action_of(m.objects[m.index]),
                pointer: m.pointers[m.ptr_index],
            })
            &&& !has_verify(m.objects[m.index]) ==> (m3, c3) == push_enter(m2, m.index + 1)
        }),
{
}

/// A third consecutive upload failure exhausts the retry budget: the push
/// stops with that failure as a hard error — exhaustion never falls
/// through silently.
pub proof fn lemma_push_exhaustion(m: PushMachineV, e: RemoteErrorV)
    requires
        push_wf(m),
        m.phase is AwaitUpload,
        m.attempt == MAX_ATTEMPTS as int - 1,
    ensures
        push_step(m, (PushEventV::UploadFailed { error: e })).0.phase is Stopped,
        push_step(m, (PushEventV::UploadFailed { error: e })).1 == (PushCommandV::Fail {
            error: e,
        }),
{
}

/// A verification failure is binding: the push stops at once with the
/// remote's error; it is never retried.
pub proof fn lemma_push_verify_failure_stops(m: PushMachineV, e: RemoteErrorV)
    requires
        push_wf(m),
        m.phase is AwaitVerify,
    ensures
        push_step(m, (PushEventV::VerifyFailed { error: e })).0.phase is Stopped,
        push_step(m, (PushEventV::VerifyFailed { error: e })).1 == (PushCommandV::Fail {
            error: e,
        }),
{
}

} // verus!
