//! The caller's side of a connection: the handles that submit requests and
//! the futures that their responses arrive in. The dispatch channel that
//! links them to the driver is handed to each operation.
use vstd::prelude::*;
use crate::dispatch::{Dispatch, DispatchModel};
use crate::error::Error;
use crate::poll::Poll;

verus! {

/// The single-owner sending handle of an established connection.
#[derive(Debug)]
pub struct SendRequest {
    sealed: (),
}

/// A sending handle that can be cloned, for a multiplexed connection.
#[derive(Debug)]
pub struct Http2SendRequest {
    sealed: (),
}

/// Where a response future stands.
#[derive(Debug, PartialEq, Eq, Structural)]
pub enum ResponseState {
    /// Waiting for the answer to the request accepted under this id.
    Waiting(u64),
    /// The request was never accepted; the future ends with this error.
    Failed(Error),
    /// The future has yielded its result.
    Finished,
}

/// The future of a response to a submitted request.
#[derive(Debug)]
pub struct ResponseFuture {
    state: ResponseState,
}

/// A future that yields the handle back once it can take a request.
#[derive(Debug)]
pub struct WhenReady {
    tx: Option<SendRequest>,
}

impl SendRequest {
    pub(crate) fn new() -> (r: Self) {
        SendRequest { sealed: () }
    }

    /// Ready when a request would be accepted now; an error once the
    /// connection is closed.
    pub fn poll_ready<Req, Resp>(&mut self, chan: &Dispatch<Req, Resp>) -> (r: Poll<Result<(), Error>>)
        ensures
            chan@.closed ==> r == Poll::<Result<(), Error>>::Ready(Err(Error::Closed)),
            chan@.can_send() ==> r == Poll::<Result<(), Error>>::Ready(Ok(())),
            !chan@.closed && !chan@.can_send() ==> r is Pending,
    {
        chan.poll_ready()
    }

    /// A future that yields this handle back once it can take a request.
    pub fn when_ready(self) -> (r: WhenReady)
        ensures
            r.is_pending_handle(),
    {
        WhenReady { tx: Some(self) }
    }

    pub fn is_ready<Req, Resp>(&self, chan: &Dispatch<Req, Resp>) -> (r: bool)
        ensures
            r == chan@.can_send(),
    {
        chan.is_ready()
    }

    pub fn is_closed<Req, Resp>(&self, chan: &Dispatch<Req, Resp>) -> (r: bool)
        ensures
            r == chan@.closed,
    {
        chan.is_closed()
    }

    /// Turns this handle into one that can be cloned, lifting the limit of
    /// one outstanding request.
    pub fn into_http2<Req, Resp>(self, chan: &mut Dispatch<Req, Resp>) -> (r: Http2SendRequest)
        ensures
            final(chan)@ == (DispatchModel { bounded: false, ..old(chan)@ }),
    {
        chan.unbound();
        Http2SendRequest { sealed: () }
    }

    /// Submits a request. When the channel takes it, the future waits for its
    /// answer; otherwise the future fails at once with `NotReady` and the
    /// channel is left as it was.
    pub fn send_request<Req, Resp>(&mut self, chan: &mut Dispatch<Req, Resp>, req: Req) -> (r:
        ResponseFuture)
        requires
            old(chan)@.wf(),
        ensures
            final(chan)@.wf(),
            old(chan)@.can_send() ==> r.state() == ResponseState::Waiting(old(chan)@.next_id as u64)
                && final(chan)@ == old(chan)@.sent(req),
            !old(chan)@.can_send() ==> r.state() == ResponseState::Failed(Error::NotReady)
                && final(chan)@ == old(chan)@,
    {
        submit(chan, req)
    }

    /// Submits a request; when the channel does not take it, the error comes
    /// at once together with the request, so that it can be sent elsewhere.
    pub fn send_request_retryable<Req, Resp>(&mut self, chan: &mut Dispatch<Req, Resp>, req: Req) -> (r:
        Result<ResponseFuture, (Error, Option<Req>)>)
        requires
            old(chan)@.wf(),
        ensures
            final(chan)@.wf(),
            old(chan)@.can_send() ==> (r matches Ok(f) && f.state() == ResponseState::Waiting(
                old(chan)@.next_id as u64,
            )) && final(chan)@ == old(chan)@.sent(req),
            !old(chan)@.can_send() ==> r == Err::<ResponseFuture, (Error, Option<Req>)>(
                (Error::NotReady, Some(req)),
            ) && final(chan)@ == old(chan)@,
    {
        submit_retryable(chan, req)
    }

    /// Drops the handle, releasing its place on the sending side.
    pub fn release<Req, Resp>(self, chan: &mut Dispatch<Req, Resp>)
        requires
            old(chan)@.senders > 0,
        ensures
            final(chan)@ == (DispatchModel { senders: (old(chan)@.senders - 1) as nat, ..old(chan)@ }),
    {
        chan.release_sender();
    }
}

fn submit<Req, Resp>(chan: &mut Dispatch<Req, Resp>, req: Req) -> (r: ResponseFuture)
    requires
        old(chan)@.wf(),
    ensures
        final(chan)@.wf(),
        old(chan)@.can_send() ==> r.state() == ResponseState::Waiting(old(chan)@.next_id as u64)
            && final(chan)@ == old(chan)@.sent(req),
        !old(chan)@.can_send() ==> r.state() == ResponseState::Failed(Error::NotReady)
            && final(chan)@ == old(chan)@,
{
    match chan.try_send(req) {
        Ok(id) => ResponseFuture { state: ResponseState::Waiting(id) },
        Err(_req) => ResponseFuture { state: ResponseState::Failed(Error::NotReady) },
    }
}

fn submit_retryable<Req, Resp>(chan: &mut Dispatch<Req, Resp>, req: Req) -> (r: Result<
    ResponseFuture,
    (Error, Option<Req>),
>)
    requires
        old(chan)@.wf(),
    ensures
        final(chan)@.wf(),
        old(chan)@.can_send() ==> (r matches Ok(f) && f.state() == ResponseState::Waiting(
            old(chan)@.next_id as u64,
        )) && final(chan)@ == old(chan)@.sent(req),
        !old(chan)@.can_send() ==> r == Err::<ResponseFuture, (Error, Option<Req>)>(
            (Error::NotReady, Some(req)),
        ) && final(chan)@ == old(chan)@,
{
    match chan.try_send(req) {
        Ok(id) => Ok(ResponseFuture { state: ResponseState::Waiting(id) }),
        Err(req) => Err((Error::NotReady, Some(req))),
    }
}

impl Http2SendRequest {
    pub fn is_ready<Req, Resp>(&self, chan: &Dispatch<Req, Resp>) -> (r: bool)
        ensures
            r == chan@.can_send(),
    {
        chan.is_ready()
    }

    pub fn is_closed<Req, Resp>(&self, chan: &Dispatch<Req, Resp>) -> (r: bool)
        ensures
            r == chan@.closed,
    {
        chan.is_closed()
    }

    /// Submits a request; when the channel does not take it, the error comes
    /// at once together with the request.
    pub fn send_request_retryable<Req, Resp>(&mut self, chan: &mut Dispatch<Req, Resp>, req: Req) -> (r:
        Result<ResponseFuture, (Error, Option<Req>)>)
        requires
            old(chan)@.wf(),
        ensures
            final(chan)@.wf(),
            old(chan)@.can_send() ==> (r matches Ok(f) && f.state() == ResponseState::Waiting(
                old(chan)@.next_id as u64,
            )) && final(chan)@ == old(chan)@.sent(req),
            !old(chan)@.can_send() ==> r == Err::<ResponseFuture, (Error, Option<Req>)>(
                (Error::NotReady, Some(req)),
            ) && final(chan)@ == old(chan)@,
    {
        submit_retryable(chan, req)
    }

    /// A second handle on the same channel.
    pub fn clone_on<Req, Resp>(&self, chan: &mut Dispatch<Req, Resp>) -> (r: Http2SendRequest)
        requires
            old(chan)@.senders < u64::MAX,
        ensures
            final(chan)@ == (DispatchModel { senders: old(chan)@.senders + 1, ..old(chan)@ }),
    {
        chan.add_sender();
        Http2SendRequest { sealed: () }
    }

    /// Drops the handle; the sending side closes when the last one goes.
    pub fn release<Req, Resp>(self, chan: &mut Dispatch<Req, Resp>)
        requires
            old(chan)@.senders > 0,
        ensures
            final(chan)@ == (DispatchModel { senders: (old(chan)@.senders - 1) as nat, ..old(chan)@ }),
    {
        chan.release_sender();
    }
}

/// An answer in the form of the retryable path: an error carries no request.
pub open spec fn with_no_request<Resp, Req>(res: Result<Resp, Error>) -> Result<
    Resp,
    (Error, Option<Req>),
> {
    match res {
        Ok(v) => Ok(v),
        Err(e) => Err((e, None)),
    }
}

impl ResponseFuture {
    pub closed spec fn state(&self) -> ResponseState {
        self.state
    }

    /// Where the future stands.
    pub fn status(&self) -> (r: &ResponseState)
        ensures
            *r == self.state(),
    {
        &self.state
    }

    /// Polls for the response. A future that failed before submission yields
    /// its error; one that waits yields what the channel holds for its id.
    pub fn poll<Req, Resp>(&mut self, chan: &mut Dispatch<Req, Resp>) -> (r: Poll<Result<Resp, Error>>)
        requires
            old(chan)@.wf(),
            !(old(self).state() is Finished),
        ensures
            final(chan)@.wf(),
            old(self).state() matches ResponseState::Failed(e) ==> r == Poll::<Result<Resp, Error>>::Ready(
                Err(e),
            ) && final(chan)@ == old(chan)@,
            old(self).state() matches ResponseState::Waiting(id) ==> {
                &&& old(chan)@.has_answer(id) ==> exists|k: int|
                    old(chan)@.first_answer(id, k) && r == Poll::Ready(old(chan)@.ready[k].1)
                        && final(chan)@ == old(chan)@.collected(k)
                &&& !old(chan)@.has_answer(id) && old(chan)@.is_outstanding(id) ==> r is Pending
                    && final(chan)@ == old(chan)@
                &&& !old(chan)@.has_answer(id) && !old(chan)@.is_outstanding(id) ==> r == Poll::<
                    Result<Resp, Error>,
                >::Ready(Err(old(chan)@.fate)) && final(chan)@ == old(chan)@
            },
            r is Pending ==> final(self).state() == old(self).state(),
            r is Ready ==> final(self).state() is Finished,
    {
        match self.state {
            ResponseState::Waiting(id) => {
                let r = chan.poll_response(id);
                if r.is_ready() {
                    self.state = ResponseState::Finished;
                }
                r
            },
            ResponseState::Failed(e) => {
                self.state = ResponseState::Finished;
                Poll::Ready(Err(e))
            },
            ResponseState::Finished => Poll::Pending,
        }
    }

    /// Polls for the response as `poll` does; when the request ended without
    /// an answer and a close left it unwritten, the error comes with the
    /// request, so that it can be sent elsewhere.
    pub fn poll_retryable<Req, Resp>(&mut self, chan: &mut Dispatch<Req, Resp>) -> (r: Poll<
        Result<Resp, (Error, Option<Req>)>,
    >)
        requires
            old(chan)@.wf(),
            !(old(self).state() is Finished),
        ensures
            final(chan)@.wf(),
            old(self).state() matches ResponseState::Failed(e) ==> r == Poll::<
                Result<Resp, (Error, Option<Req>)>,
            >::Ready(Err((e, None))) && final(chan)@ == old(chan)@,
            old(self).state() matches ResponseState::Waiting(id) ==> {
                &&& old(chan)@.has_answer(id) ==> exists|k: int|
                    old(chan)@.first_answer(id, k) && r == Poll::Ready(
                        with_no_request::<Resp, Req>(old(chan)@.ready[k].1),
                    ) && final(chan)@ == old(chan)@.collected(k)
                &&& !old(chan)@.has_answer(id) && old(chan)@.is_outstanding(id) ==> r is Pending
                    && final(chan)@ == old(chan)@
                &&& !old(chan)@.has_answer(id) && !old(chan)@.is_outstanding(id)
                    && old(chan)@.is_unsent(id) ==> exists|k: int|
                    0 <= k < old(chan)@.unsent.len() && old(chan)@.unsent[k].0 == id && r
                        == Poll::<Result<Resp, (Error, Option<Req>)>>::Ready(
                        Err((old(chan)@.fate, Some(old(chan)@.unsent[k].1))),
                    ) && final(chan)@ == (DispatchModel {
                        unsent: old(chan)@.unsent.remove(k),
                        ..old(chan)@
                    })
                &&& !old(chan)@.has_answer(id) && !old(chan)@.is_outstanding(id)
                    && !old(chan)@.is_unsent(id) ==> r == Poll::<
                    Result<Resp, (Error, Option<Req>)>,
                >::Ready(Err((old(chan)@.fate, None))) && final(chan)@ == old(chan)@
            },
            r is Pending ==> final(self).state() == old(self).state(),
            r is Ready ==> final(self).state() is Finished,
    {
        match self.state {
            ResponseState::Waiting(id) => {
                if chan.has_answer(id) || chan.is_outstanding(id) {
                    match self.poll(chan) {
                        Poll::Ready(Ok(v)) => Poll::Ready(Ok(v)),
                        Poll::Ready(Err(e)) => Poll::Ready(Err((e, None))),
                        Poll::Pending => Poll::Pending,
                    }
                } else {
                    self.state = ResponseState::Finished;
                    let fate = chan.fate();
                    let req = chan.reclaim(id);
                    Poll::Ready(Err((fate, req)))
                }
            },
            ResponseState::Failed(e) => {
                self.state = ResponseState::Finished;
                Poll::Ready(Err((e, None)))
            },
            ResponseState::Finished => Poll::Pending,
        }
    }

    /// Drops the future: its answer, come or to come, is discarded; the
    /// exchange itself goes on.
    pub fn cancel<Req, Resp>(self, chan: &mut Dispatch<Req, Resp>)
        requires
            old(chan)@.wf(),
        ensures
            final(chan)@.wf(),
            self.state() matches ResponseState::Waiting(id) ==> {
                &&& old(chan)@.has_answer(id) ==> exists|k: int|
                    old(chan)@.first_answer(id, k) && final(chan)@ == old(chan)@.collected(k)
                &&& !old(chan)@.has_answer(id) && old(chan)@.is_outstanding(id) ==> final(chan)@
                    == (DispatchModel { abandoned: old(chan)@.abandoned.push(id), ..old(chan)@ })
                &&& !old(chan)@.has_answer(id) && !old(chan)@.is_outstanding(id) ==> final(chan)@
                    == old(chan)@
            },
            !(self.state() is Waiting) ==> final(chan)@ == old(chan)@,
    {
        match self.state {
            ResponseState::Waiting(id) => chan.abandon(id),
            _ => {},
        }
    }
}

impl WhenReady {
    pub closed spec fn is_pending_handle(&self) -> bool {
        self.tx is Some
    }

    /// Yields the handle once the channel takes a request, an error once it
    /// is closed, and keeps the handle while neither holds.
    pub fn poll<Req, Resp>(&mut self, chan: &Dispatch<Req, Resp>) -> (r: Poll<Result<SendRequest, Error>>)
        requires
            old(self).is_pending_handle(),
        ensures
            chan@.closed ==> (r matches Poll::Ready(Err(e)) && e == Error::Closed),
            chan@.can_send() ==> r matches Poll::Ready(Ok(_)),
            !chan@.closed && !chan@.can_send() ==> r is Pending,
            r is Pending <==> final(self).is_pending_handle(),
    {
        let mut tx = self.tx.take().unwrap();
        match tx.poll_ready(chan) {
            Poll::Ready(Ok(())) => Poll::Ready(Ok(tx)),
            Poll::Ready(Err(e)) => Poll::Ready(Err(e)),
            Poll::Pending => {
                self.tx = Some(tx);
                Poll::Pending
            },
        }
    }
}

} // verus!
