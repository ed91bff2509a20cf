//! Data shapes of the batch negotiation exchange: the request the client
//! sends, the per-object answer the remote gives, and the correlation of
//! response objects back to the requested pointers.

use vstd::prelude::*;

use crate::pointer::clone_bytes;
use crate::pointer::Pointer;
use crate::pointer::PointerV;

verus! {

/// How many times one object's transfer is attempted before the failure is
/// escalated.
pub const MAX_ATTEMPTS: u8 = 3;

/// Fixed delay, in milliseconds, between attempts on one object.
pub const RETRY_DELAY_MS: u64 = 500;

/// Which way content is to move in this exchange.
#[derive(Clone, Copy, Debug, PartialEq, Eq, Structural)]
pub enum Operation {
    Download,
    Upload,
}

/// A transfer adapter the client supports; only the basic one is produced.
#[derive(Clone, Copy, Debug, PartialEq, Eq, Structural)]
pub enum TransferAdapter {
    Basic,
}

/// The hash family used for object identifiers.
#[derive(Clone, Copy, Debug, PartialEq, Eq, Structural)]
pub enum HashAlgo {
    Sha256,
}

/// Mathematical value of a [`RequestObject`].
#[verifier::ext_equal]
pub struct RequestObjectV {
    pub oid: Seq<u8>,
    pub size: u64,
}

/// One object descriptor of a batch request.
#[derive(Debug)]
pub struct RequestObject {
    /// Hex identifier of the object.
    pub oid: Vec<u8>,
    /// Byte length of the object's content.
    pub size: u64,
}

impl View for RequestObject {
    type V = RequestObjectV;

    open spec fn view(&self) -> RequestObjectV {
        RequestObjectV { oid: self.oid@, size: self.size }
    }
}

/// Mathematical value of a [`BatchRequest`].
#[verifier::ext_equal]
pub struct BatchRequestV {
    pub operation: Operation,
    pub transfers: Seq<TransferAdapter>,
    pub objects: Seq<RequestObjectV>,
    pub hash_algo: HashAlgo,
}

/// The negotiation request: one operation, the supported adapters, and a
/// descriptor for each object, in input order.
#[derive(Debug)]
pub struct BatchRequest {
    pub operation: Operation,
    pub transfers: Vec<TransferAdapter>,
    pub objects: Vec<RequestObject>,
    pub hash_algo: HashAlgo,
}

impl View for BatchRequest {
    type V = BatchRequestV;

    open spec fn view(&self) -> BatchRequestV {
        BatchRequestV {
            operation: self.operation,
            transfers: self.transfers@,
            objects: Seq::new(self.objects@.len(), |i: int| self.objects@[i]@),
            hash_algo: self.hash_algo,
        }
    }
}

/// Mathematical value of a [`Header`].
#[verifier::ext_equal]
pub struct HeaderV {
    pub name: Seq<u8>,
    pub value: Seq<u8>,
}

/// One header to send when performing an object action.
#[derive(Debug)]
pub struct Header {
    pub name: Vec<u8>,
    pub value: Vec<u8>,
}

impl View for Header {
    type V = HeaderV;

    open spec fn view(&self) -> HeaderV {
        HeaderV { name: self.name@, value: self.value@ }
    }
}

impl Header {
    /// An exact copy.
    pub fn dup(&self) -> (r: Header)
        ensures
            r@ == self@,
    {
        Header { name: clone_bytes(&self.name), value: clone_bytes(&self.value) }
    }
}

/// Mathematical value of an [`ObjectAction`].
#[verifier::ext_equal]
pub struct ObjectActionV {
    pub href: Seq<u8>,
    pub expires_in: Option<u64>,
    pub headers: Seq<HeaderV>,
}

/// How to perform one sub-operation on one object: the endpoint, an
/// optional expiry, and the headers to send.
#[derive(Debug)]
pub struct ObjectAction {
    pub href: Vec<u8>,
    pub expires_in: Option<u64>,
    pub headers: Vec<Header>,
}

impl View for ObjectAction {
    type V = ObjectActionV;

    open spec fn view(&self) -> ObjectActionV {
        ObjectActionV {
            href: self.href@,
            expires_in: self.expires_in,
            headers: Seq::new(self.headers@.len(), |i: int| self.headers@[i]@),
        }
    }
}

impl ObjectAction {
    /// An exact copy.
    pub fn dup(&self) -> (r: ObjectAction)
        ensures
            r@ == self@,
    {
        let mut headers: Vec<Header> = Vec::new();
        let mut i: usize = 0;
        while i < self.headers.len()
            invariant
                i <= self.headers.len(),
                headers@.len() == i,
                forall|j: int| 0 <= j < i ==> headers@[j]@ == self.headers@[j]@,
            decreases self.headers.len() - i,
        {
            headers.push(self.headers[i].dup());
            i += 1;
        }
        let r = ObjectAction {
            href: clone_bytes(&self.href),
            expires_in: self.expires_in,
            headers,
        };
        proof {
            assert(r@.headers =~= self@.headers);
        }
        r
    }
}

/// Mathematical value of an [`ObjectErrorInfo`].
#[verifier::ext_equal]
pub struct ObjectErrorInfoV {
    pub code: u64,
    pub message: Seq<u8>,
}

/// A per-object failure the remote reported in the negotiation response.
#[derive(Debug)]
pub struct ObjectErrorInfo {
    pub code: u64,
    pub message: Vec<u8>,
}

impl View for ObjectErrorInfo {
    type V = ObjectErrorInfoV;

    open spec fn view(&self) -> ObjectErrorInfoV {
        ObjectErrorInfoV { code: self.code, message: self.message@ }
    }
}

/// Mathematical value of an [`ObjectActions`].
#[verifier::ext_equal]
pub struct ObjectActionsV {
    pub download: Option<ObjectActionV>,
    pub upload: Option<ObjectActionV>,
    pub verify: Option<ObjectActionV>,
}

/// The action set the remote granted for one object.
#[derive(Debug)]
pub struct ObjectActions {
    pub download: Option<ObjectAction>,
    pub upload: Option<ObjectAction>,
    pub verify: Option<ObjectAction>,
}

/// View of an optional action.
pub open spec fn action_view(a: Option<ObjectAction>) -> Option<ObjectActionV> {
    match a {
        Some(act) => Some(act@),
        None => None,
    }
}

impl View for ObjectActions {
    type V = ObjectActionsV;

    open spec fn view(&self) -> ObjectActionsV {
        ObjectActionsV {
            download: action_view(self.download),
            upload: action_view(self.upload),
            verify: action_view(self.verify),
        }
    }
}

/// Mathematical value of a [`BatchObject`].
#[verifier::ext_equal]
pub struct BatchObjectV {
    pub oid: Seq<u8>,
    pub size: u64,
    pub error: Option<ObjectErrorInfoV>,
    pub actions: Option<ObjectActionsV>,
}

/// One object of the negotiation response: its identifier and size, and
/// either a binding error, an action set, or neither (nothing to do).
#[derive(Debug)]
pub struct BatchObject {
    pub oid: Vec<u8>,
    pub size: u64,
    pub error: Option<ObjectErrorInfo>,
    pub actions: Option<ObjectActions>,
}

impl View for BatchObject {
    type V = BatchObjectV;

    open spec fn view(&self) -> BatchObjectV {
        BatchObjectV {
            oid: self.oid@,
            size: self.size,
            error: match self.error {
                Some(ref e) => Some(e@),
                None => None,
            },
            actions: match self.actions {
                Some(ref a) => Some(a@),
                None => None,
            },
        }
    }
}

/// The negotiation response: one entry per object.
#[derive(Debug)]
pub struct BatchResponse {
    pub objects: Vec<BatchObject>,
}

/// Views of a pointer vector.
pub open spec fn pointer_views(pointers: Seq<Pointer>) -> Seq<PointerV> {
    Seq::new(pointers.len(), |i: int| pointers[i]@)
}

/// Views of a response-object vector.
pub open spec fn object_views(objects: Seq<BatchObject>) -> Seq<BatchObjectV> {
    Seq::new(objects.len(), |i: int| objects[i]@)
}

/// Index of the first pointer at or after position `i` whose identifier is
/// `oid`, if any.
pub open spec fn first_match(pointers: Seq<PointerV>, oid: Seq<u8>, i: int) -> Option<int>
    decreases pointers.len() - i when 0 <= i <= pointers.len()
{
    if i >= pointers.len() {
        None
    } else if pointers[i].oid == oid {
        Some(i)
    } else {
        first_match(pointers, oid, i + 1)
    }
}

/// What a successful match means: the index is in range, the pointer there
/// carries the identifier, and no earlier pointer in the searched range
/// does.
pub proof fn lemma_first_match_some(pointers: Seq<PointerV>, oid: Seq<u8>, i: int, j: int)
    requires
        0 <= i <= pointers.len(),
        first_match(pointers, oid, i) == Some(j),
    ensures
        i <= j < pointers.len(),
        pointers[j].oid == oid,
        forall|k: int| i <= k < j ==> (#[trigger] pointers[k]).oid != oid,
    decreases pointers.len() - i,
{
    if i >= pointers.len() {
    } else if pointers[i].oid == oid {
    } else {
        lemma_first_match_some(pointers, oid, i + 1, j);
    }
}

/// Whether two byte vectors hold the same bytes.
pub fn bytes_eq(a: &Vec<u8>, b: &Vec<u8>) -> (r: bool)
    ensures
        r == (a@ == b@),
{
    if a.len() != b.len() {
        return false;
    }
    let mut i: usize = 0;
    while i < a.len()
        invariant
            i <= a.len(),
            a@.len() == b@.len(),
            forall|j: int| 0 <= j < i ==> a@[j] == b@[j],
        decreases a.len() - i,
    {
        if a[i] != b[i] {
            return false;
        }
        i += 1;
    }
    proof {
        assert(a@ =~= b@);
    }
    true
}

/// Resolves a response object's identifier to the first input pointer with
/// that identifier, the correlation the orchestrator relies on.
pub fn find_pointer(pointers: &Vec<Pointer>, oid: &Vec<u8>) -> (r: Option<usize>)
    ensures
        match r {
            Some(j) => j < pointers@.len() && first_match(pointer_views(pointers@), oid@, 0)
                == Some(j as int),
            None => first_match(pointer_views(pointers@), oid@, 0) is None,
        },
{
    let ghost ps = pointer_views(pointers@);
    let mut i: usize = 0;
    while i < pointers.len()
        invariant
            i <= pointers.len(),
            ps == pointer_views(pointers@),
            first_match(ps, oid@, 0) == first_match(ps, oid@, i as int),
        decreases pointers.len() - i,
    {
        let candidate = pointers[i].hex();
        if bytes_eq(&candidate, oid) {
            return Some(i);
        }
        i += 1;
    }
    None
}

/// The request a pointer set gives rise to: the stated operation, the basic
/// adapter, the sha256 hash family, and one descriptor per pointer in input
/// order.
pub open spec fn request_spec(operation: Operation, pointers: Seq<PointerV>) -> BatchRequestV {
    BatchRequestV {
        operation,
        transfers: seq![TransferAdapter::Basic],
        objects: Seq::new(pointers.len(), |i: int| RequestObjectV {
            oid: pointers[i].oid,
            size: pointers[i].size,
        }),
        hash_algo: HashAlgo::Sha256,
    }
}

/// Builds the negotiation request for the given operation and pointer set.
pub fn build_request(operation: Operation, pointers: &Vec<Pointer>) -> (r: BatchRequest)
    ensures
        r@ == request_spec(operation, pointer_views(pointers@)),
{
    let mut objects: Vec<RequestObject> = Vec::new();
    let mut i: usize = 0;
    while i < pointers.len()
        invariant
            i <= pointers.len(),
            objects@.len() == i,
            forall|j: int| 0 <= j < i ==> objects@[j]@.oid == pointers@[j]@.oid
                && objects@[j]@.size == pointers@[j]@.size,
        decreases pointers.len() - i,
    {
        let oid = pointers[i].hex();
        let size = pointers[i].size();
        objects.push(RequestObject { oid, size });
        i += 1;
    }
    let mut transfers: Vec<TransferAdapter> = Vec::new();
    transfers.push(TransferAdapter::Basic);
    let r = BatchRequest { operation, transfers, objects, hash_algo: HashAlgo::Sha256 };
    proof {
        assert(r@.transfers =~= request_spec(operation, pointer_views(pointers@)).transfers);
        assert(r@.objects =~= request_spec(operation, pointer_views(pointers@)).objects);
    }
    r
}

/// The request a `pull` call sends, or nothing when the pointer set is
/// empty: an empty pull succeeds at once and the transport is never asked.
pub fn pull_plan(pointers: &Vec<Pointer>) -> (r: Option<BatchRequest>)
    ensures
        r is None <==> pointers@.len() == 0,
        r matches Some(req) ==> req@ == request_spec(
            Operation::Download,
            pointer_views(pointers@),
        ),
{
    if pointers.len() == 0 {
        None
    } else {
        Some(build_request(Operation::Download, pointers))
    }
}

/// The request a `push` call sends, or nothing when the pointer set is
/// empty: an empty push succeeds at once and the transport is never asked.
pub fn push_plan(pointers: &Vec<Pointer>) -> (r: Option<BatchRequest>)
    ensures
        r is None <==> pointers@.len() == 0,
        r matches Some(req) ==> req@ == request_spec(
            Operation::Upload,
            pointer_views(pointers@),
        ),
{
    if pointers.len() == 0 {
        None
    } else {
        Some(build_request(Operation::Upload, pointers))
    }
}

} // verus!
