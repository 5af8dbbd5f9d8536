//! The lifecycle of one streaming upload.
//!
//! An [`UploadRequest`] turns a sequence of filesystem writes into one
//! append-only object stream. It never talks to the object store itself: the
//! caller performs each backend operation and reports its outcome, and the
//! request decides what is accepted and what state follows. The decisions are
//! stated over [`UploadView`], and the laws at the end of this file are proved
//! of every sequence of operations.

use std::sync::Arc;
use vstd::prelude::*;
use crate::text::{decimal, decimal_string};

verus! {

/// Why an upload operation was refused or failed.
#[derive(Debug)]
pub enum UploadError<E> {
    /// The backend reported a failure; the object is abandoned.
    PutRequestFailed(E),
    /// A write did not start where the previous one ended.
    OutOfOrderWrite { write_offset: u64, expected_offset: u64 },
    /// The request had already been completed.
    PutRequestAlreadyCompleted,
    /// An earlier backend failure has made the request unusable.
    PutRequestPreviouslyFailed,
    /// The object grew beyond what the backend accepts.
    ObjectTooBig { maximum_size: u64 },
}

impl<E> UploadError<E> {
    /// The message of the error itself, without that of the backend's
    /// failure behind it.
    pub open spec fn description(self) -> Seq<char> {
        match self {
            UploadError::PutRequestFailed(_) => "put request failed"@,
            UploadError::OutOfOrderWrite { write_offset, expected_offset } => {
                "out of order write; expected offset "@ + decimal(expected_offset as nat)
                    + " but got "@ + decimal(write_offset as nat)
            },
            UploadError::PutRequestAlreadyCompleted => "put request had already completed"@,
            UploadError::PutRequestPreviouslyFailed => "put request had previously failed"@,
            UploadError::ObjectTooBig { maximum_size } => {
                "object exceeded maximum upload size of "@ + decimal(maximum_size as nat)
                    + " bytes"@
            },
        }
    }

    /// The message of the error itself.
    pub fn describe(&self) -> (text: String)
        ensures
            text@ == self.description(),
    {
        match self {
            UploadError::PutRequestFailed(_) => "put request failed".to_owned(),
            UploadError::OutOfOrderWrite { write_offset, expected_offset } => {
                let mut text = "out of order write; expected offset ".to_owned();
                text.append(decimal_string(*expected_offset).as_str());
                text.append(" but got ");
                text.append(decimal_string(*write_offset).as_str());
                text
            },
            UploadError::PutRequestAlreadyCompleted => {
                "put request had already completed".to_owned()
            },
            UploadError::PutRequestPreviouslyFailed => {
                "put request had previously failed".to_owned()
            },
            UploadError::ObjectTooBig { maximum_size } => {
                let mut text = "object exceeded maximum upload size of ".to_owned();
                text.append(decimal_string(*maximum_size).as_str());
                text.append(" bytes");
                text
            },
        }
    }
}

/// Where an upload stands.
#[derive(Clone, Copy, Debug, PartialEq, Eq, Structural)]
pub enum UploadPhase {
    /// The stream is open and accepts the next write.
    InProgress,
    /// The stream was handed over for finalisation.
    Completed,
    /// A backend operation failed.
    Failed,
}

/// What an upload is, apart from the stream and the caller's handle.
pub struct UploadView {
    /// The object's key.
    pub key: Seq<char>,
    /// The offset at which the next accepted write must start.
    pub next_offset: nat,
    pub phase: UploadPhase,
    /// The lengths of the writes accepted so far, oldest first.
    pub accepted: Seq<nat>,
    /// How often the stream and the caller's handle have left the request.
    pub released: nat,
}

/// The sum of a sequence of lengths.
pub open spec fn total(lengths: Seq<nat>) -> nat
    decreases lengths.len(),
{
    if lengths.len() == 0 {
        0
    } else {
        total(lengths.drop_last()) + lengths.last()
    }
}

/// The offset as the out-of-order error reports it: a negative offset is
/// reported as its two's complement.
pub open spec fn reported_offset(offset: i64) -> u64 {
    if offset >= 0 {
        offset as u64
    } else {
        (offset + 0x1_0000_0000_0000_0000) as u64
    }
}

impl UploadView {
    /// A request as `put` creates it.
    pub open spec fn fresh(key: Seq<char>) -> UploadView {
        UploadView {
            key,
            next_offset: 0,
            phase: UploadPhase::InProgress,
            accepted: Seq::empty(),
            released: 0,
        }
    }

    /// The cursor is the sum of the accepted lengths, and the stream and the
    /// handle have left the request exactly if it is no longer in progress.
    pub open spec fn wf(self) -> bool {
        &&& self.next_offset == total(self.accepted)
        &&& self.released == (if self.phase == UploadPhase::InProgress {
            0nat
        } else {
            1nat
        })
    }

    /// Why a write at `offset` is refused before the backend is contacted,
    /// or `None` if the data is to be forwarded.
    pub open spec fn write_rejection<E>(self, offset: i64) -> Option<UploadError<E>> {
        if offset != self.next_offset {
            Some(
                UploadError::OutOfOrderWrite {
                    write_offset: reported_offset(offset),
                    expected_offset: self.next_offset as u64,
                },
            )
        } else {
            match self.phase {
                UploadPhase::InProgress => None,
                UploadPhase::Completed => Some(UploadError::PutRequestAlreadyCompleted),
                UploadPhase::Failed => Some(UploadError::PutRequestPreviouslyFailed),
            }
        }
    }

    /// The request after a write of `len` bytes at `offset` for which the
    /// backend, if it was contacted, reported `backend_ok`.
    pub open spec fn write(self, offset: i64, len: nat, backend_ok: bool) -> UploadView {
        if self.write_rejection::<()>(offset) is Some {
            self
        } else if backend_ok {
            UploadView {
                next_offset: self.next_offset + len,
                accepted: self.accepted.push(len),
                ..self
            }
        } else {
            UploadView { phase: UploadPhase::Failed, released: self.released + 1, ..self }
        }
    }

    /// Why completion is refused before the backend is contacted, or `None`
    /// if the stream is to be finalised.
    pub open spec fn complete_rejection<E>(self) -> Option<UploadError<E>> {
        match self.phase {
            UploadPhase::InProgress => None,
            UploadPhase::Completed => Some(UploadError::PutRequestAlreadyCompleted),
            UploadPhase::Failed => Some(UploadError::PutRequestPreviouslyFailed),
        }
    }

    /// The request once completion has started: the stream and the handle
    /// are handed over and the request counts as completed.
    pub open spec fn begin_complete(self) -> UploadView {
        if self.phase == UploadPhase::InProgress {
            UploadView { phase: UploadPhase::Completed, released: self.released + 1, ..self }
        } else {
            self
        }
    }

    /// The request once the backend has answered the finalisation.
    pub open spec fn finish_complete(self, backend_ok: bool) -> UploadView {
        if backend_ok {
            self
        } else {
            UploadView {
                phase: UploadPhase::Failed,
                released: if self.phase == UploadPhase::InProgress {
                    self.released + 1
                } else {
                    self.released
                },
                ..self
            }
        }
    }

    /// The request after a whole completion for which the backend, if it was
    /// contacted, reported `backend_ok`.
    pub open spec fn complete(self, backend_ok: bool) -> UploadView {
        if self.complete_rejection::<()>() is Some {
            self
        } else {
            self.begin_complete().finish_complete(backend_ok)
        }
    }
}

/// What the request holds while it is in progress, and what became of it.
enum UploadRequestState<Stream, Handle> {
    InProgress { request: Stream, handle: Handle },
    Completed,
    Failed,
}

impl<Stream, Handle> UploadRequestState<Stream, Handle> {
    spec fn phase(self) -> UploadPhase {
        match self {
            UploadRequestState::InProgress { .. } => UploadPhase::InProgress,
            UploadRequestState::Completed => UploadPhase::Completed,
            UploadRequestState::Failed => UploadPhase::Failed,
        }
    }

    /// The stream, for the caller to write to, while the request is in
    /// progress; else the error that says how the request ended.
    fn request_mut<E>(&mut self) -> (r: Result<&mut Stream, UploadError<E>>)
        ensures
            (*final(self)).phase() == (*old(self)).phase(),
            match r {
                Ok(s) => {
                    &&& (*old(self)) is InProgress
                    &&& *s == (*old(self))->request
                    &&& (*final(self))->request == *final(s)
                    &&& (*final(self))->handle == (*old(self))->handle
                },
                Err(e) => {
                    &&& *final(self) == *old(self)
                    &&& (*old(self)) is Completed
                        ==> e == UploadError::<E>::PutRequestAlreadyCompleted
                    &&& (*old(self)) is Failed
                        ==> e == UploadError::<E>::PutRequestPreviouslyFailed
                    &&& !((*old(self)) is InProgress)
                },
            },
        no_unwind
    {
        match self {
            UploadRequestState::InProgress { request, .. } => Ok(request),
            UploadRequestState::Completed => Err(UploadError::PutRequestAlreadyCompleted),
            UploadRequestState::Failed => Err(UploadError::PutRequestPreviouslyFailed),
        }
    }
}

/// One object being uploaded: enforces that writes arrive in order, and
/// becomes unusable once the backend has failed or the upload was completed.
///
/// Dropping a request that is still in progress drops the stream without
/// finalising it, so the object never becomes visible; what the backend does
/// with the abandoned stream is left to the backend.
pub struct UploadRequest<Stream, Handle> {
    key: String,
    cursor: Cursor,
    state: UploadRequestState<Stream, Handle>,
}

/// How far the upload has come.
struct Cursor {
    /// The offset at which the next write must start.
    next_request_offset: u64,
    /// The lengths of the writes accepted so far, oldest first.
    accepted: Ghost<Seq<nat>>,
}

impl<Stream, Handle> View for UploadRequest<Stream, Handle> {
    type V = UploadView;

    closed spec fn view(&self) -> UploadView {
        UploadView {
            key: self.key@,
            next_offset: self.cursor.next_request_offset as nat,
            phase: self.state.phase(),
            accepted: self.cursor.accepted@,
            released: if self.state is InProgress {
                0
            } else {
                1
            },
        }
    }
}

impl<Stream, Handle> UploadRequest<Stream, Handle> {
    /// The invariant of every request: the cursor is the sum of the lengths
    /// of the writes accepted so far.
    #[verifier::type_invariant]
    spec fn inv(self) -> bool {
        self.cursor.next_request_offset == total(self.cursor.accepted@)
    }

    /// The backend stream. Meaningful while the request is in progress.
    pub closed spec fn stream(&self) -> Stream {
        self.state->request
    }

    /// The caller's handle. Meaningful while the request is in progress.
    pub closed spec fn handle(&self) -> Handle {
        self.state->handle
    }

    /// The number of bytes accepted so far.
    pub fn size(&self) -> (n: u64)
        ensures
            n == self@.next_offset,
            n == total(self@.accepted),
            self@.wf(),
    {
        proof {
            use_type_invariant(self);
        }
        self.cursor.next_request_offset
    }

    /// Whether the request still accepts writes.
    pub fn is_in_progress(&self) -> (b: bool)
        ensures
            b == (self@.phase == UploadPhase::InProgress),
    {
        match &self.state {
            UploadRequestState::InProgress { .. } => true,
            _ => false,
        }
    }

    /// The object's key.
    pub fn key(&self) -> (k: &str)
        ensures
            k@ == self@.key,
    {
        self.key.as_str()
    }

    /// The error for a write that does not start at the cursor.
    fn check_offset<E>(&self, offset: i64) -> (r: Option<UploadError<E>>)
        ensures
            r == if offset != self@.next_offset {
                Some(
                    UploadError::<E>::OutOfOrderWrite {
                        write_offset: reported_offset(offset),
                        expected_offset: self@.next_offset as u64,
                    },
                )
            } else {
                None
            },
    {
        let expected_offset = self.cursor.next_request_offset;
        if offset < 0 {
            // A negative offset is reported as its two's complement.
            let write_offset = ((offset - i64::MIN) as u64) + 0x8000_0000_0000_0000u64;
            Some(UploadError::OutOfOrderWrite { write_offset, expected_offset })
        } else if offset as u64 != expected_offset {
            Some(UploadError::OutOfOrderWrite { write_offset: offset as u64, expected_offset })
        } else {
            None
        }
    }

    /// Decides whether a write at `offset` goes to the backend. If it does,
    /// the result is the stream to write to, and the request itself is as
    /// before; the caller reports the backend's answer to `finish_write`. If
    /// it does not, the result says why, nothing has changed, and the backend
    /// is not to be contacted.
    pub fn begin_write<E>(&mut self, offset: i64) -> (r: Result<&mut Stream, UploadError<E>>)
        ensures
            final(self)@.wf(),
            final(self)@ == old(self)@,
            match r {
                Ok(s) => {
                    &&& old(self)@.write_rejection::<E>(offset) is None
                    &&& *s == old(self).stream()
                    &&& final(self).stream() == *final(s)
                    &&& final(self).handle() == old(self).handle()
                },
                Err(e) => {
                    &&& old(self)@.write_rejection::<E>(offset) == Some(e)
                    &&& *final(self) == *old(self)
                },
            },
    {
        proof {
            use_type_invariant(&*self);
        }
        match self.check_offset(offset) {
            Some(e) => Err(e),
            None => self.state.request_mut(),
        }
    }

    /// Applies a write of `len` bytes at `offset` whose data the backend
    /// answered with `outcome`. A write that `begin_write` would refuse is
    /// refused here in the same way, whatever `outcome` holds. Otherwise a
    /// backend success advances the cursor by `len` and returns `len`, and a
    /// backend failure makes the request fail for good.
    ///
    /// The cursor must not leave the range of `u64`. It cannot where `len`
    /// is the length of a buffer: an accepted offset is an `i64`, and no
    /// buffer is longer than `isize::MAX`.
    pub fn finish_write<E>(&mut self, offset: i64, len: usize, outcome: Result<(), E>) -> (r:
        Result<usize, UploadError<E>>)
        requires
            old(self)@.write_rejection::<E>(offset) is None && outcome is Ok
                ==> old(self)@.next_offset + len <= u64::MAX,
        ensures
            final(self)@.wf(),
            final(self)@ == old(self)@.write(offset, len as nat, outcome is Ok),
            r == match old(self)@.write_rejection::<E>(offset) {
                Some(e) => Err(e),
                None => match outcome {
                    Ok(_) => Ok(len),
                    Err(cause) => Err(UploadError::PutRequestFailed(cause)),
                },
            },
            final(self)@.phase == UploadPhase::InProgress ==> {
                &&& final(self).stream() == old(self).stream()
                &&& final(self).handle() == old(self).handle()
            },
    {
        proof {
            use_type_invariant(&*self);
        }
        match self.check_offset(offset) {
            Some(e) => {
                return Err(e);
            },
            None => {},
        }
        match &self.state {
            UploadRequestState::InProgress { .. } => {},
            UploadRequestState::Completed => {
                return Err(UploadError::PutRequestAlreadyCompleted);
            },
            UploadRequestState::Failed => {
                return Err(UploadError::PutRequestPreviouslyFailed);
            },
        }
        let next_offset = self.cursor.next_request_offset;
        match outcome {
            Ok(()) => {
                let ghost accepted = self.cursor.accepted@.push(len as nat);
                proof {
                    assert(accepted.drop_last() =~= self.cursor.accepted@);
                }
                self.cursor = Cursor {
                    next_request_offset: next_offset + len as u64,
                    accepted: Ghost(accepted),
                };
                Ok(len)
            },
            Err(cause) => {
                self.state = UploadRequestState::Failed;
                Err(UploadError::PutRequestFailed(cause))
            },
        }
    }

    /// Starts the completion. While the request is in progress this hands
    /// over the stream, to be finalised, and the caller's handle, to be
    /// released once the backend has answered, whatever the answer; the
    /// request counts as completed from here on, so that nothing else can
    /// use it meanwhile. The caller reports the backend's answer to
    /// `finish_complete`. Otherwise the result says why completion is
    /// refused, nothing has changed, and the backend is not to be contacted.
    pub fn begin_complete<E>(&mut self) -> (r: Result<(Stream, Handle), UploadError<E>>)
        ensures
            final(self)@.wf(),
            final(self)@ == old(self)@.begin_complete(),
            match r {
                Ok(payload) => {
                    &&& old(self)@.complete_rejection::<E>() is None
                    &&& payload.0 == old(self).stream()
                    &&& payload.1 == old(self).handle()
                },
                Err(e) => {
                    &&& old(self)@.complete_rejection::<E>() == Some(e)
                    &&& *final(self) == *old(self)
                },
            },
    {
        proof {
            use_type_invariant(&*self);
        }
        let mut taken = UploadRequestState::Completed;
        core::mem::swap(&mut self.state, &mut taken);
        match taken {
            UploadRequestState::InProgress { request, handle } => Ok((request, handle)),
            UploadRequestState::Completed => Err(UploadError::PutRequestAlreadyCompleted),
            UploadRequestState::Failed => {
                self.state = UploadRequestState::Failed;
                Err(UploadError::PutRequestPreviouslyFailed)
            },
        }
    }

    /// Ends the completion with the backend's answer to the finalisation. A
    /// success is handed on and leaves the request completed; a failure makes
    /// the request fail for good.
    pub fn finish_complete<R, E>(&mut self, outcome: Result<R, E>) -> (r: Result<
        R,
        UploadError<E>,
    >)
        ensures
            final(self)@.wf(),
            final(self)@ == old(self)@.finish_complete(outcome is Ok),
            r == match outcome {
                Ok(result) => Ok::<R, UploadError<E>>(result),
                Err(cause) => Err(UploadError::PutRequestFailed(cause)),
            },
            outcome is Ok ==> *final(self) == *old(self),
    {
        proof {
            use_type_invariant(&*self);
        }
        match outcome {
            Ok(result) => Ok(result),
            Err(cause) => {
                self.state = UploadRequestState::Failed;
                Err(UploadError::PutRequestFailed(cause))
            },
        }
    }

    /// The name of the state the request is in.
    pub fn state_name(&self) -> (name: &'static str)
        ensures
            name@ == match self@.phase {
                UploadPhase::InProgress => "InProgress"@,
                UploadPhase::Completed => "Completed"@,
                UploadPhase::Failed => "Failed"@,
            },
    {
        match &self.state {
            UploadRequestState::InProgress { .. } => "InProgress",
            UploadRequestState::Completed => "Completed",
            UploadRequestState::Failed => "Failed",
        }
    }
}

#[derive(Debug)]
struct UploaderInner<Client> {
    client: Arc<Client>,
}

/// Opens upload requests against one shared backend client. It holds no
/// state of any request, so one uploader serves any number of them.
#[derive(Debug)]
pub struct Uploader<Client> {
    inner: Arc<UploaderInner<Client>>,
}

impl<Client> Uploader<Client> {
    /// The client that the uploader was made with.
    pub closed spec fn client_spec(&self) -> Arc<Client> {
        self.inner.client
    }

    /// An uploader whose requests go to `client`.
    pub fn new(client: Arc<Client>) -> (uploader: Self)
        ensures
            uploader.client_spec() == client,
    {
        let inner = UploaderInner { client };
        Self { inner: Arc::new(inner) }
    }

    /// The client on which to open the backend stream for `put`.
    pub fn client(&self) -> (client: &Arc<Client>)
        ensures
            *client == self.client_spec(),
    {
        &self.inner.client
    }

    /// Starts the upload of the object `key` from what the backend answered
    /// to the request to open its stream. A stream becomes a request in
    /// progress at offset 0 that owns the stream and `handle`; a failure is
    /// handed back as it came, and no request exists.
    pub fn put<Stream, Handle, E>(
        &self,
        key: &str,
        opened: Result<Stream, E>,
        handle: Handle,
    ) -> (r: Result<UploadRequest<Stream, Handle>, E>)
        ensures
            match opened {
                Ok(stream) => {
                    &&& r is Ok
                    &&& r->Ok_0@.wf()
                    &&& r->Ok_0@ == UploadView::fresh(key@)
                    &&& r->Ok_0.stream() == stream
                    &&& r->Ok_0.handle() == handle
                },
                Err(e) => r == Err::<UploadRequest<Stream, Handle>, E>(e),
            },
    {
        match opened {
            Ok(request) => Ok(
                UploadRequest {
                    key: key.to_owned(),
                    cursor: Cursor { next_request_offset: 0, accepted: Ghost(Seq::empty()) },
                    state: UploadRequestState::InProgress { request, handle },
                },
            ),
            Err(e) => Err(e),
        }
    }
}

/// One whole operation on a request, with the answer that the backend gives
/// if the operation reaches it.
pub enum UploadOp {
    Write { offset: i64, len: nat, backend_ok: bool },
    Complete { backend_ok: bool },
}

impl UploadView {
    /// The request after one operation.
    pub open spec fn apply(self, op: UploadOp) -> UploadView {
        match op {
            UploadOp::Write { offset, len, backend_ok } => self.write(offset, len, backend_ok),
            UploadOp::Complete { backend_ok } => self.complete(backend_ok),
        }
    }

    /// The request after a sequence of operations, oldest first.
    pub open spec fn run(self, ops: Seq<UploadOp>) -> UploadView
        decreases ops.len(),
    {
        if ops.len() == 0 {
            self
        } else {
            self.run(ops.drop_last()).apply(ops.last())
        }
    }

    /// Whether the operation reaches the backend.
    pub open spec fn contacts_backend(self, op: UploadOp) -> bool {
        match op {
            UploadOp::Write { offset, .. } => self.write_rejection::<()>(offset) is None,
            UploadOp::Complete { .. } => self.complete_rejection::<()>() is None,
        }
    }
}

/// Successful writes of the given lengths, each starting where the one
/// before it ended, the first at offset 0.
pub open spec fn contiguous_writes(lengths: Seq<nat>) -> Seq<UploadOp> {
    Seq::new(
        lengths.len(),
        |i: int|
            UploadOp::Write {
                offset: total(lengths.take(i)) as i64,
                len: lengths[i],
                backend_ok: true,
            },
    )
}

/// Dropping the last length lowers the sum by that length, so no prefix sums
/// to more than the whole.
pub proof fn lemma_total_of_prefix(lengths: Seq<nat>, i: int)
    requires
        0 <= i <= lengths.len(),
    ensures
        total(lengths.take(i)) <= total(lengths),
    decreases lengths.len(),
{
    if i == lengths.len() {
        assert(lengths.take(i) =~= lengths);
    } else {
        lemma_total_of_prefix(lengths.drop_last(), i);
        assert(lengths.drop_last().take(i) =~= lengths.take(i));
    }
}

/// Every operation keeps the invariant: the cursor stays the sum of the
/// accepted lengths, and the stream and the handle have left the request
/// exactly if it is no longer in progress.
pub proof fn lemma_apply_preserves_wf(v: UploadView, op: UploadOp)
    requires
        v.wf(),
    ensures
        v.apply(op).wf(),
        v.apply(op).key == v.key,
{
    match op {
        UploadOp::Write { offset, len, backend_ok } => {
            if v.write_rejection::<()>(offset) is None && backend_ok {
                assert(v.accepted.push(len).drop_last() =~= v.accepted);
            }
        },
        UploadOp::Complete { .. } => {},
    }
}

/// After any sequence of operations on a new request, the size is the sum of
/// the lengths of the writes that were accepted, and the stream and the
/// caller's handle have left the request at most once: never while it is in
/// progress, once when it is not.
pub proof fn lemma_run_preserves_wf(v: UploadView, ops: Seq<UploadOp>)
    requires
        v.wf(),
    ensures
        v.run(ops).wf(),
        v.run(ops).next_offset == total(v.run(ops).accepted),
        v.run(ops).released <= 1,
        v.run(ops).released == 0 <==> v.run(ops).phase == UploadPhase::InProgress,
        v.run(ops).key == v.key,
    decreases ops.len(),
{
    if ops.len() > 0 {
        lemma_run_preserves_wf(v, ops.drop_last());
        lemma_apply_preserves_wf(v.run(ops.drop_last()), ops.last());
    }
}

/// The cursor never goes back, and what was accepted stays accepted:
/// whatever is done to a request, the lengths accepted before are the first
/// of those accepted after.
pub proof fn lemma_cursor_never_goes_back(v: UploadView, ops: Seq<UploadOp>)
    ensures
        v.run(ops).next_offset >= v.next_offset,
        v.run(ops).accepted.len() >= v.accepted.len(),
        v.run(ops).accepted.take(v.accepted.len() as int) == v.accepted,
    decreases ops.len(),
{
    if ops.len() > 0 {
        lemma_cursor_never_goes_back(v, ops.drop_last());
        let before = v.run(ops.drop_last());
        let after = before.apply(ops.last());
        assert(after.accepted == before.accepted || after.accepted == before.accepted.push(
            after.accepted.last(),
        ));
        assert(after.accepted.take(v.accepted.len() as int) =~= before.accepted.take(
            v.accepted.len() as int,
        ));
    } else {
        assert(v.accepted.take(v.accepted.len() as int) =~= v.accepted);
    }
}

/// Writes that the backend accepts, at contiguous offsets from 0, are all
/// accepted: afterwards the request is in progress, its size is the sum of
/// their lengths, and the accepted lengths are theirs.
pub proof fn lemma_contiguous_writes_add_up(key: Seq<char>, lengths: Seq<nat>)
    requires
        total(lengths) <= i64::MAX,
    ensures
        UploadView::fresh(key).run(contiguous_writes(lengths)).next_offset == total(lengths),
        UploadView::fresh(key).run(contiguous_writes(lengths)).accepted == lengths,
        UploadView::fresh(key).run(contiguous_writes(lengths)).phase == UploadPhase::InProgress,
    decreases lengths.len(),
{
    let ops = contiguous_writes(lengths);
    if lengths.len() > 0 {
        let shorter = lengths.drop_last();
        lemma_total_of_prefix(lengths, lengths.len() - 1);
        assert(lengths.take(lengths.len() - 1) =~= shorter);
        lemma_contiguous_writes_add_up(key, shorter);
        assert(ops.drop_last() =~= contiguous_writes(shorter)) by {
            assert forall|i: int| 0 <= i < shorter.len() implies shorter.take(i)
                == lengths.take(i) by {
                assert(shorter.take(i) =~= lengths.take(i));
            }
        }
        let before = UploadView::fresh(key).run(ops.drop_last());
        assert(ops.last() == UploadOp::Write {
            offset: total(shorter) as i64,
            len: lengths.last(),
            backend_ok: true,
        });
        assert(before.write_rejection::<()>(total(shorter) as i64) is None);
        assert(before.accepted.push(lengths.last()) =~= lengths);
    } else {
        assert(lengths =~= Seq::<nat>::empty());
    }
}

/// A write that does not start at the cursor fails as out of order, with the
/// offset it named and the offset that was expected; it does not reach the
/// backend and changes nothing. So the write at the expected offset is
/// accepted right after it exactly as it would have been before.
pub proof fn lemma_out_of_order_write_changes_nothing<E>(
    v: UploadView,
    offset: i64,
    len: nat,
    backend_ok: bool,
)
    requires
        offset != v.next_offset,
    ensures
        v.write_rejection::<E>(offset) == Some(
            UploadError::<E>::OutOfOrderWrite {
                write_offset: reported_offset(offset),
                expected_offset: v.next_offset as u64,
            },
        ),
        !v.contacts_backend(UploadOp::Write { offset, len, backend_ok }),
        v.write(offset, len, backend_ok) == v,
        forall|retry: i64|
            v.write(offset, len, backend_ok).write_rejection::<E>(retry) == v.write_rejection::<E>(
                retry,
            ),
        forall|retry: i64|
            retry == v.next_offset && v.phase == UploadPhase::InProgress ==> v.write(
                offset,
                len,
                backend_ok,
            ).write_rejection::<E>(retry) is None,
{
}

/// A completion that the backend confirms leaves the request completed.
/// From then on nothing reaches the backend and nothing changes: every
/// completion fails as already completed, and so does every write at the
/// cursor.
pub proof fn lemma_completed_is_absorbing<E>(v: UploadView, ops: Seq<UploadOp>)
    requires
        v.phase == UploadPhase::InProgress,
    ensures
        v.complete(true).phase == UploadPhase::Completed,
        v.complete(true).run(ops) == v.complete(true),
        forall|op: UploadOp| !v.complete(true).run(ops).contacts_backend(op),
        v.complete(true).run(ops).complete_rejection::<E>() == Some(
            UploadError::<E>::PutRequestAlreadyCompleted,
        ),
        forall|offset: i64|
            offset == v.next_offset ==> v.complete(true).run(ops).write_rejection::<E>(offset)
                == Some(UploadError::<E>::PutRequestAlreadyCompleted),
    decreases ops.len(),
{
    if ops.len() > 0 {
        lemma_completed_is_absorbing::<E>(v, ops.drop_last());
    }
}

/// A write or a completion that fails at the backend leaves the request
/// failed. From then on nothing reaches the backend and nothing changes:
/// every completion fails as previously failed, and so does every write at
/// the cursor.
pub proof fn lemma_failed_is_absorbing<E>(v: UploadView, failing: UploadOp, ops: Seq<UploadOp>)
    requires
        v.phase == UploadPhase::InProgress,
        match failing {
            UploadOp::Write { offset, backend_ok, .. } => offset == v.next_offset && !backend_ok,
            UploadOp::Complete { backend_ok } => !backend_ok,
        },
    ensures
        v.apply(failing).phase == UploadPhase::Failed,
        v.apply(failing).run(ops) == v.apply(failing),
        forall|op: UploadOp| !v.apply(failing).run(ops).contacts_backend(op),
        v.apply(failing).run(ops).complete_rejection::<E>() == Some(
            UploadError::<E>::PutRequestPreviouslyFailed,
        ),
        forall|offset: i64|
            offset == v.next_offset ==> v.apply(failing).run(ops).write_rejection::<E>(offset)
                == Some(UploadError::<E>::PutRequestPreviouslyFailed),
    decreases ops.len(),
{
    if ops.len() > 0 {
        lemma_failed_is_absorbing::<E>(v, failing, ops.drop_last());
    }
}

/// The stream and the caller's handle leave a request once and never again:
/// a completion of a request in progress releases them whatever the backend
/// answers, and whatever is done to a new request, they have left it at most
/// once.
pub proof fn lemma_handle_released_once(key: Seq<char>, v: UploadView, ops: Seq<UploadOp>)
    requires
        v.wf(),
        v.phase == UploadPhase::InProgress,
    ensures
        v.released == 0,
        forall|backend_ok: bool| #[trigger] v.complete(backend_ok).released == 1,
        forall|backend_ok: bool| #[trigger] v.complete(backend_ok).run(ops).released == 1,
        UploadView::fresh(key).run(ops).released <= 1,
{
    assert(UploadView::fresh(key).wf());
    lemma_run_preserves_wf(UploadView::fresh(key), ops);
    assert forall|backend_ok: bool| #[trigger] v.complete(backend_ok).run(ops).released == 1 by {
        lemma_run_preserves_wf(v.complete(backend_ok), ops);
        lemma_terminal_phase_stays(v.complete(backend_ok), ops);
    }
}

/// A request that is no longer in progress never changes again.
pub proof fn lemma_terminal_phase_stays(v: UploadView, ops: Seq<UploadOp>)
    requires
        v.phase != UploadPhase::InProgress,
    ensures
        v.run(ops) == v,
    decreases ops.len(),
{
    if ops.len() > 0 {
        lemma_terminal_phase_stays(v, ops.drop_last());
    }
}

} // verus!
