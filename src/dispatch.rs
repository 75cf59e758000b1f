//! The dispatch channel: the one piece of state that the request handles and
//! the connection driver share. Each accepted request gets an id; the driver
//! takes requests in the order they were accepted and answers them by id.
use vstd::prelude::*;
use crate::error::Error;
use crate::poll::Poll;

verus! {

/// The abstract state of a dispatch channel.
pub ghost struct DispatchModel<Req, Resp> {
    /// Whether at most one request may be outstanding at a time.
    pub bounded: bool,
    /// Whether the driver side has closed the channel.
    pub closed: bool,
    /// The error that requests left unanswered by a close end with.
    pub fate: Error,
    /// The number of live handles on the sending side.
    pub senders: nat,
    /// The id that the next accepted request gets.
    pub next_id: nat,
    /// Accepted requests that the driver has not taken yet, oldest first.
    pub queue: Seq<(u64, Req)>,
    /// Requests that the driver has taken and not answered yet, oldest first.
    pub in_flight: Seq<u64>,
    /// Answers that no response future has collected yet.
    pub ready: Seq<(u64, Result<Resp, Error>)>,
    /// Outstanding requests whose response future was dropped.
    pub abandoned: Seq<u64>,
    /// Requests that a close left unwritten, kept so that they can be sent
    /// elsewhere.
    pub unsent: Seq<(u64, Req)>,
}

/// Nothing is queued or in flight.
pub open spec fn idle<Req, Resp>(d: DispatchModel<Req, Resp>) -> bool {
    d.queue.len() == 0 && d.in_flight.len() == 0
}

/// Every element is smaller than the ones after it.
pub open spec fn strictly_increasing(s: Seq<u64>) -> bool {
    forall|i: int, j: int| 0 <= i < j < s.len() ==> s[i] < s[j]
}

impl<Req, Resp> DispatchModel<Req, Resp> {
    pub open spec fn queued_ids(self) -> Seq<u64> {
        self.queue.map_values(|p: (u64, Req)| p.0)
    }

    /// The ids of all accepted requests that have no answer yet, in the order
    /// they were accepted.
    pub open spec fn outstanding(self) -> Seq<u64> {
        self.in_flight + self.queued_ids()
    }

    pub open spec fn is_queued(self, id: u64) -> bool {
        exists|k: int| 0 <= k < self.queue.len() && self.queue[k].0 == id
    }

    pub open spec fn is_outstanding(self, id: u64) -> bool {
        self.in_flight.contains(id) || self.is_queued(id)
    }

    pub open spec fn is_unsent(self, id: u64) -> bool {
        exists|k: int| 0 <= k < self.unsent.len() && self.unsent[k].0 == id
    }

    pub open spec fn has_answer(self, id: u64) -> bool {
        exists|k: int| 0 <= k < self.ready.len() && self.ready[k].0 == id
    }

    pub open spec fn wf(self) -> bool {
        &&& strictly_increasing(self.outstanding())
        &&& forall|i: int| 0 <= i < self.outstanding().len() ==> self.outstanding()[i] < self.next_id
        &&& self.next_id <= u64::MAX
    }

    /// Whether a request submitted now is accepted.
    pub open spec fn can_send(self) -> bool {
        &&& !self.closed
        &&& self.next_id < u64::MAX
        &&& (self.bounded ==> self.queue.len() == 0 && self.in_flight.len() == 0)
    }

    /// The channel after it accepted `req`.
    pub open spec fn sent(self, req: Req) -> Self {
        DispatchModel {
            next_id: self.next_id + 1,
            queue: self.queue.push((self.next_id as u64, req)),
            ..self
        }
    }

    /// The channel after the driver took the oldest queued request.
    pub open spec fn taken(self) -> Self {
        DispatchModel {
            queue: self.queue.drop_first(),
            in_flight: self.in_flight.push(self.queue[0].0),
            ..self
        }
    }

    /// The channel after the driver answered the request at `i` in flight.
    /// The answer of a request whose response future was dropped is discarded.
    pub open spec fn answered(self, i: int, res: Result<Resp, Error>) -> Self {
        let id = self.in_flight[i];
        let rest = DispatchModel { in_flight: self.in_flight.remove(i), ..self };
        if self.abandoned.contains(id) {
            DispatchModel { abandoned: self.abandoned.remove_value(id), ..rest }
        } else {
            DispatchModel { ready: self.ready.push((id, res)), ..rest }
        }
    }

    /// The channel after the answer at `k` was collected.
    pub open spec fn collected(self, k: int) -> Self {
        DispatchModel { ready: self.ready.remove(k), ..self }
    }

    /// The first answer for `id`.
    pub open spec fn first_answer(self, id: u64, k: int) -> bool {
        &&& 0 <= k < self.ready.len()
        &&& self.ready[k].0 == id
        &&& forall|j: int| 0 <= j < k ==> self.ready[j].0 != id
    }

    /// The channel after the driver closed it.
    pub open spec fn shut(self, fate: Error) -> Self {
        DispatchModel {
            closed: true,
            fate: fate,
            queue: Seq::empty(),
            in_flight: Seq::empty(),
            abandoned: Seq::empty(),
            unsent: self.unsent + self.queue,
            ..self
        }
    }
}

/// Taking the oldest queued request into flight leaves the outstanding ids as
/// they were.
pub proof fn lemma_taken_outstanding<Req, Resp>(d: DispatchModel<Req, Resp>)
    requires
        d.queue.len() > 0,
    ensures
        d.taken().outstanding() == d.outstanding(),
{
    let t = d.taken();
    assert(t.outstanding() =~= d.outstanding()) by {
        assert forall|i: int| 0 <= i < d.outstanding().len() implies t.outstanding()[i]
            == d.outstanding()[i] by {
            if i > d.in_flight.len() {
                assert(t.queued_ids()[i - d.in_flight.len() - 1] == t.queue[i
                    - d.in_flight.len() - 1].0);
            }
        }
    }
}

/// Answering a request in flight removes its id from the outstanding ones.
pub proof fn lemma_answered_outstanding<Req, Resp>(
    d: DispatchModel<Req, Resp>,
    i: int,
    res: Result<Resp, Error>,
)
    requires
        d.wf(),
        0 <= i < d.in_flight.len(),
    ensures
        d.answered(i, res).outstanding() == d.outstanding().remove(i),
        d.answered(i, res).wf(),
{
    let a = d.answered(i, res);
    assert(a.queued_ids() == d.queued_ids());
    assert(a.outstanding() =~= d.outstanding().remove(i));
    let o = d.outstanding();
    let n = a.outstanding();
    assert forall|x: int, y: int| 0 <= x < y < n.len() implies n[x] < n[y] by {
        let xo = if x < i { x } else { x + 1 };
        let yo = if y < i { y } else { y + 1 };
        assert(n[x] == o[xo]);
        assert(n[y] == o[yo]);
    }
    assert forall|x: int| 0 <= x < n.len() implies n[x] < a.next_id by {
        let xo = if x < i { x } else { x + 1 };
        assert(n[x] == o[xo]);
    }
}

/// On a bounded channel no request is accepted while an earlier one has no
/// answer yet.
pub proof fn one_request_at_a_time<Req, Resp>(d: DispatchModel<Req, Resp>, id: u64)
    requires
        d.bounded,
        d.is_outstanding(id),
    ensures
        !d.can_send(),
{
    if d.is_queued(id) {
        let k = choose|k: int| 0 <= k < d.queue.len() && d.queue[k].0 == id;
        assert(d.queue.len() > 0);
    }
}

/// Requests are answered in the order they were accepted: a newly accepted
/// request comes after every outstanding one, and the oldest request in
/// flight, the one that an HTTP/1.1 driver answers next, is the oldest of all
/// outstanding requests.
pub proof fn answers_follow_acceptance<Req, Resp>(d: DispatchModel<Req, Resp>, req: Req)
    requires
        d.wf(),
        d.can_send(),
    ensures
        d.sent(req).outstanding() == d.outstanding().push(d.next_id as u64),
        forall|k: int| 0 <= k < d.outstanding().len() ==> d.outstanding()[k] < d.next_id,
        d.sent(req).wf(),
        d.in_flight.len() > 0 ==> forall|k: int|
            0 < k < d.outstanding().len() ==> d.in_flight[0] < d.outstanding()[k],
        d.queue.len() > 0 && d.in_flight.len() == 0 ==> forall|k: int|
            0 < k < d.outstanding().len() ==> d.queue[0].0 < d.outstanding()[k],
{
    let n = d.sent(req);
    assert(n.queued_ids() =~= d.queued_ids().push(d.next_id as u64));
    assert(n.outstanding() =~= d.outstanding().push(d.next_id as u64));
    if d.in_flight.len() > 0 {
        assert(d.outstanding()[0] == d.in_flight[0]);
    }
    if d.queue.len() > 0 && d.in_flight.len() == 0 {
        assert(d.outstanding()[0] == d.queued_ids()[0]);
    }
}

/// On an open unbounded channel two requests submitted one after the other
/// are both accepted, under distinct ids; once both are in flight the later
/// one can be answered first, and the earlier one stays outstanding.
pub proof fn multiplexed_requests_are_independent<Req, Resp>(
    d: DispatchModel<Req, Resp>,
    a: Req,
    b: Req,
    res: Result<Resp, Error>,
)
    requires
        d.wf(),
        !d.bounded,
        !d.closed,
        d.next_id + 1 < u64::MAX,
        idle(d),
    ensures
        d.can_send(),
        d.sent(a).can_send(),
        ({
            let id_a = d.next_id as u64;
            let id_b = (d.next_id + 1) as u64;
            let e = d.sent(a).sent(b).taken().taken();
            &&& id_a != id_b
            &&& e.wf()
            &&& e.in_flight == seq![id_a, id_b]
            &&& e.answered(1, res).in_flight == seq![id_a]
            &&& !d.abandoned.contains(id_b) ==> e.answered(1, res).ready == d.ready.push((id_b, res))
        }),
{
    let id_a = d.next_id as u64;
    let id_b = (d.next_id + 1) as u64;
    let s1 = d.sent(a);
    let s2 = s1.sent(b);
    answers_follow_acceptance(d, a);
    answers_follow_acceptance(s1, b);
    assert(s2.queue =~= seq![(id_a, a), (id_b, b)]);
    let t1 = s2.taken();
    lemma_taken_outstanding(s2);
    let e = t1.taken();
    lemma_taken_outstanding(t1);
    assert(e.in_flight =~= seq![id_a, id_b]);
    assert(e.answered(1, res).in_flight =~= seq![id_a]);
}

/// Closing a closed channel again with the same error changes nothing, and a
/// closed channel accepts no request.
pub proof fn closing_is_idempotent<Req, Resp>(d: DispatchModel<Req, Resp>, fate: Error)
    ensures
        d.shut(fate).shut(fate) == d.shut(fate),
        !d.shut(fate).can_send(),
{
}

/// Dropping the response future of the one request in flight on a bounded
/// channel does not disturb the channel: the answer that comes later is
/// discarded, no other answer changes, and the next request is accepted.
pub proof fn dropped_future_leaves_channel_usable<Req, Resp>(
    d: DispatchModel<Req, Resp>,
    id: u64,
    res: Result<Resp, Error>,
    req: Req,
)
    requires
        d.wf(),
        !d.closed,
        d.next_id < u64::MAX,
        d.queue.len() == 0,
        d.in_flight == seq![id],
    ensures
        ({
            let a = DispatchModel { abandoned: d.abandoned.push(id), ..d };
            let e = a.answered(0, res);
            &&& a.wf()
            &&& e.wf()
            &&& e.ready == d.ready
            &&& !e.is_outstanding(id)
            &&& e.can_send()
            &&& e.sent(req).queue == seq![(d.next_id as u64, req)]
        }),
{
    let a = DispatchModel { abandoned: d.abandoned.push(id), ..d };
    assert(a.abandoned[a.abandoned.len() - 1] == id);
    assert(a.abandoned.contains(id));
    lemma_answered_outstanding(a, 0, res);
    let e = a.answered(0, res);
    assert(e.in_flight =~= Seq::<u64>::empty());
    assert(e.sent(req).queue =~= seq![(d.next_id as u64, req)]);
}

/// Once the driver closes the channel, a request that was accepted and not
/// answered is no longer outstanding and has no answer, so its response
/// future resolves with the close's error: every accepted request ends with
/// exactly one outcome.
pub proof fn close_resolves_pending_requests<Req, Resp>(
    d: DispatchModel<Req, Resp>,
    fate: Error,
    id: u64,
)
    requires
        !d.has_answer(id),
    ensures
        !d.shut(fate).is_outstanding(id),
        !d.shut(fate).has_answer(id),
        d.shut(fate).fate == fate,
{
}

/// A channel that pairs each accepted request with the slot of its response.
#[derive(Debug)]
pub struct Dispatch<Req, Resp> {
    bounded: bool,
    closed: bool,
    fate: Error,
    senders: u64,
    next_id: u64,
    queue: Vec<(u64, Req)>,
    in_flight: Vec<u64>,
    ready: Vec<(u64, Result<Resp, Error>)>,
    abandoned: Vec<u64>,
    unsent: Vec<(u64, Req)>,
}

impl<Req, Resp> View for Dispatch<Req, Resp> {
    type V = DispatchModel<Req, Resp>;

    closed spec fn view(&self) -> DispatchModel<Req, Resp> {
        DispatchModel {
            bounded: self.bounded,
            closed: self.closed,
            fate: self.fate,
            senders: self.senders as nat,
            next_id: self.next_id as nat,
            queue: self.queue@,
            in_flight: self.in_flight@,
            ready: self.ready@,
            abandoned: self.abandoned@,
            unsent: self.unsent@,
        }
    }
}

fn queued_position<Req>(q: &Vec<(u64, Req)>, id: u64) -> (r: Option<usize>)
    ensures
        r matches Some(k) ==> k < q@.len() && q@[k as int].0 == id,
        r is None ==> forall|j: int| 0 <= j < q@.len() ==> q@[j].0 != id,
{
    let mut k: usize = 0;
    while k < q.len()
        invariant
            k <= q@.len(),
            forall|j: int| 0 <= j < k ==> q@[j].0 != id,
        decreases q@.len() - k,
    {
        if q[k].0 == id {
            return Some(k);
        }
        k = k + 1;
    }
    None
}

fn answer_position<Resp>(v: &Vec<(u64, Result<Resp, Error>)>, id: u64) -> (r: Option<usize>)
    ensures
        r matches Some(k) ==> k < v@.len() && v@[k as int].0 == id && forall|j: int|
            0 <= j < k ==> v@[j].0 != id,
        r is None ==> forall|j: int| 0 <= j < v@.len() ==> v@[j].0 != id,
{
    let mut k: usize = 0;
    while k < v.len()
        invariant
            k <= v@.len(),
            forall|j: int| 0 <= j < k ==> v@[j].0 != id,
        decreases v@.len() - k,
    {
        if v[k].0 == id {
            return Some(k);
        }
        k = k + 1;
    }
    None
}

fn position(v: &Vec<u64>, id: u64) -> (r: Option<usize>)
    ensures
        r matches Some(k) ==> k < v@.len() && v@[k as int] == id,
        r matches Some(k) ==> forall|j: int| 0 <= j < k ==> v@[j] != id,
        r is None ==> !v@.contains(id),
{
    let mut k: usize = 0;
    while k < v.len()
        invariant
            k <= v@.len(),
            forall|j: int| 0 <= j < k ==> v@[j] != id,
        decreases v@.len() - k,
    {
        if v[k] == id {
            return Some(k);
        }
        k = k + 1;
    }
    None
}

impl<Req, Resp> Dispatch<Req, Resp> {
    /// A fresh open channel with one sender; `bounded` admits one outstanding
    /// request at a time.
    pub fn new(bounded: bool) -> (r: Self)
        ensures
            r@.wf(),
            r@.bounded == bounded,
            !r@.closed,
            r@.senders == 1,
            r@.next_id == 0,
            r@.queue.len() == 0,
            r@.in_flight.len() == 0,
            r@.ready.len() == 0,
            r@.abandoned.len() == 0,
            r@.unsent.len() == 0,
    {
        Dispatch {
            bounded,
            closed: false,
            fate: Error::Canceled,
            senders: 1,
            next_id: 0,
            queue: Vec::new(),
            in_flight: Vec::new(),
            ready: Vec::new(),
            abandoned: Vec::new(),
            unsent: Vec::new(),
        }
    }

    pub fn is_bounded(&self) -> (r: bool)
        ensures
            r == self@.bounded,
    {
        self.bounded
    }

    /// Whether the driver side has closed the channel.
    pub fn is_closed(&self) -> (r: bool)
        ensures
            r == self@.closed,
    {
        self.closed
    }

    /// Whether a request submitted now would be accepted.
    pub fn is_ready(&self) -> (r: bool)
        ensures
            r == self@.can_send(),
    {
        !self.closed && self.next_id < u64::MAX && (!self.bounded || (self.queue.len() == 0
            && self.in_flight.len() == 0))
    }

    /// Ready when a request would be accepted, an error when the channel is
    /// closed, pending otherwise.
    pub fn poll_ready(&self) -> (r: Poll<Result<(), Error>>)
        ensures
            self@.closed ==> r == Poll::<Result<(), Error>>::Ready(Err(Error::Closed)),
            self@.can_send() ==> r == Poll::<Result<(), Error>>::Ready(Ok(())),
            !self@.closed && !self@.can_send() ==> r is Pending,
    {
        if self.closed {
            Poll::Ready(Err(Error::Closed))
        } else if self.is_ready() {
            Poll::Ready(Ok(()))
        } else {
            Poll::Pending
        }
    }

    /// Submits a request. It is accepted, under a fresh id, exactly when the
    /// channel is ready; otherwise it is handed back and nothing changes.
    pub fn try_send(&mut self, req: Req) -> (r: Result<u64, Req>)
        requires
            old(self)@.wf(),
        ensures
            final(self)@.wf(),
            old(self)@.can_send() ==> r == Ok::<u64, Req>(old(self)@.next_id as u64)
                && final(self)@ == old(self)@.sent(req),
            !old(self)@.can_send() ==> r == Err::<u64, Req>(req) && final(self)@ == old(self)@,
    {
        if self.is_ready() {
            let id = self.next_id;
            self.queue.push((id, req));
            self.next_id = self.next_id + 1;
            proof {
                let o = old(self)@;
                let n = self@;
                assert(n == o.sent(req));
                assert(n.outstanding() =~= o.outstanding().push(id)) by {
                    assert(n.queued_ids() =~= o.queued_ids().push(id));
                }
            }
            Ok(id)
        } else {
            Err(req)
        }
    }

    /// Registers one more handle on the sending side.
    pub fn add_sender(&mut self)
        requires
            old(self)@.senders < u64::MAX,
        ensures
            final(self)@ == (DispatchModel { senders: old(self)@.senders + 1, ..old(self)@ }),
    {
        self.senders = self.senders + 1;
    }

    /// Unregisters a handle of the sending side.
    pub fn release_sender(&mut self)
        requires
            old(self)@.senders > 0,
        ensures
            final(self)@ == (DispatchModel { senders: (old(self)@.senders - 1) as nat, ..old(self)@ }),
    {
        self.senders = self.senders - 1;
    }

    /// Lifts the one-outstanding-request limit.
    pub fn unbound(&mut self)
        ensures
            final(self)@ == (DispatchModel { bounded: false, ..old(self)@ }),
    {
        self.bounded = false;
    }

    /// The number of live handles on the sending side.
    pub fn senders(&self) -> (r: u64)
        ensures
            r == self@.senders,
    {
        self.senders
    }

    /// Whether any accepted request is waiting for the driver.
    pub fn has_queued(&self) -> (r: bool)
        ensures
            r == (self@.queue.len() > 0),
    {
        self.queue.len() > 0
    }

    /// Whether any request taken by the driver waits for its answer.
    pub fn has_in_flight(&self) -> (r: bool)
        ensures
            r == (self@.in_flight.len() > 0),
    {
        self.in_flight.len() > 0
    }

    /// The driver takes the oldest queued request.
    pub fn take(&mut self) -> (r: Option<(u64, Req)>)
        requires
            old(self)@.wf(),
        ensures
            final(self)@.wf(),
            old(self)@.queue.len() == 0 ==> r is None && final(self)@ == old(self)@,
            old(self)@.queue.len() > 0 ==> r == Some(old(self)@.queue[0]) && final(self)@
                == old(self)@.taken(),
    {
        if self.queue.len() == 0 {
            None
        } else {
            let front = self.queue.remove(0);
            self.in_flight.push(front.0);
            proof {
                assert(self@.queue =~= old(self)@.queue.drop_first());
                assert(self@ == old(self)@.taken());
                lemma_taken_outstanding(old(self)@);
            }
            Some(front)
        }
    }

    fn answer_at(&mut self, i: usize, res: Result<Resp, Error>)
        requires
            old(self)@.wf(),
            i < old(self)@.in_flight.len(),
        ensures
            final(self)@ == old(self)@.answered(i as int, res),
            final(self)@.wf(),
    {
        let id = self.in_flight.remove(i);
        proof {
            lemma_answered_outstanding(old(self)@, i as int, res);
            old(self)@.abandoned.index_of_first_ensures(id);
        }
        match position(&self.abandoned, id) {
            Some(k) => {
                self.abandoned.remove(k);
            },
            None => {
                self.ready.push((id, res));
            },
        }
    }

    /// The driver answers the oldest request in flight.
    pub fn answer_oldest(&mut self, res: Result<Resp, Error>)
        requires
            old(self)@.wf(),
            old(self)@.in_flight.len() > 0,
        ensures
            final(self)@ == old(self)@.answered(0, res),
            final(self)@.wf(),
    {
        self.answer_at(0, res);
    }

    /// The driver answers the request in flight under `id`; false, with nothing
    /// changed, when no such request is in flight.
    pub fn answer(&mut self, id: u64, res: Result<Resp, Error>) -> (r: bool)
        requires
            old(self)@.wf(),
        ensures
            final(self)@.wf(),
            r == old(self)@.in_flight.contains(id),
            !r ==> final(self)@ == old(self)@,
            r ==> exists|i: int|
                0 <= i < old(self)@.in_flight.len() && old(self)@.in_flight[i] == id && final(self)@
                    == old(self)@.answered(i, res),
    {
        match position(&self.in_flight, id) {
            Some(i) => {
                self.answer_at(i, res);
                true
            },
            None => false,
        }
    }

    /// The driver closes the channel: no request is accepted any more, and
    /// every request without an answer ends with `fate`.
    pub fn close(&mut self, fate: Error)
        ensures
            final(self)@ == old(self)@.shut(fate),
            final(self)@.wf(),
    {
        self.closed = true;
        self.fate = fate;
        self.unsent.append(&mut self.queue);
        self.in_flight.clear();
        self.abandoned.clear();
        proof {
            assert(self@.queued_ids() =~= Seq::<u64>::empty());
            assert(self@.outstanding() =~= Seq::<u64>::empty());
        }
    }

    /// Whether the request under `id` was accepted and has no answer yet.
    pub fn is_outstanding(&self, id: u64) -> (r: bool)
        ensures
            r == self@.is_outstanding(id),
    {
        match position(&self.in_flight, id) {
            Some(i) => {
                assert(self@.in_flight[i as int] == id);
                true
            },
            None => match queued_position(&self.queue, id) {
                Some(k) => {
                    assert(self@.queue[k as int].0 == id);
                    true
                },
                None => false,
            },
        }
    }

    /// What the response future of the request under `id` sees: its answer,
    /// which it then collects; pending while the request is outstanding; and
    /// otherwise the error that the close left.
    pub fn poll_response(&mut self, id: u64) -> (r: Poll<Result<Resp, Error>>)
        requires
            old(self)@.wf(),
        ensures
            final(self)@.wf(),
            old(self)@.has_answer(id) ==> exists|k: int|
                old(self)@.first_answer(id, k) && r == Poll::Ready(old(self)@.ready[k].1)
                    && final(self)@ == old(self)@.collected(k),
            !old(self)@.has_answer(id) && old(self)@.is_outstanding(id) ==> r is Pending
                && final(self)@ == old(self)@,
            !old(self)@.has_answer(id) && !old(self)@.is_outstanding(id) ==> r == Poll::<
                Result<Resp, Error>,
            >::Ready(Err(old(self)@.fate)) && final(self)@ == old(self)@,
    {
        match answer_position(&self.ready, id) {
            Some(k) => {
                let (_, res) = self.ready.remove(k);
                proof {
                    assert(old(self)@.first_answer(id, k as int));
                    assert(self@ == old(self)@.collected(k as int));
                }
                Poll::Ready(res)
            },
            None => {
                if self.is_outstanding(id) {
                    Poll::Pending
                } else {
                    Poll::Ready(Err(self.fate))
                }
            },
        }
    }

    /// The response future of the request under `id` is dropped: its answer, if
    /// one came, is discarded, and one that comes later will be.
    pub fn abandon(&mut self, id: u64)
        requires
            old(self)@.wf(),
        ensures
            final(self)@.wf(),
            old(self)@.has_answer(id) ==> exists|k: int|
                old(self)@.first_answer(id, k) && final(self)@ == old(self)@.collected(k),
            !old(self)@.has_answer(id) && old(self)@.is_outstanding(id) ==> final(self)@ == (
            DispatchModel { abandoned: old(self)@.abandoned.push(id), ..old(self)@ }),
            !old(self)@.has_answer(id) && !old(self)@.is_outstanding(id) ==> final(self)@ == old(
                self,
            )@,
    {
        match answer_position(&self.ready, id) {
            Some(k) => {
                self.ready.remove(k);
                proof {
                    assert(old(self)@.first_answer(id, k as int));
                    assert(self@ == old(self)@.collected(k as int));
                }
            },
            None => {
                if self.is_outstanding(id) {
                    self.abandoned.push(id);
                }
            },
        }
    }

    /// Gives back the request under `id` if a close left it unwritten; it is
    /// then no longer kept.
    pub fn reclaim(&mut self, id: u64) -> (r: Option<Req>)
        ensures
            old(self)@.is_unsent(id) ==> exists|k: int|
                0 <= k < old(self)@.unsent.len() && old(self)@.unsent[k].0 == id && r == Some(
                    old(self)@.unsent[k].1,
                ) && final(self)@ == (DispatchModel {
                    unsent: old(self)@.unsent.remove(k),
                    ..old(self)@
                }),
            !old(self)@.is_unsent(id) ==> r is None && final(self)@ == old(self)@,
    {
        match queued_position(&self.unsent, id) {
            Some(k) => {
                assert(self@.unsent[k as int].0 == id);
                assert(self@.is_unsent(id));
                let (_, req) = self.unsent.remove(k);
                Some(req)
            },
            None => {
                assert(!self@.is_unsent(id));
                None
            },
        }
    }

    /// Whether an answer for `id` waits to be collected.
    pub fn has_answer(&self, id: u64) -> (r: bool)
        ensures
            r == self@.has_answer(id),
    {
        match answer_position(&self.ready, id) {
            Some(k) => {
                assert(self@.ready[k as int].0 == id);
                true
            },
            None => false,
        }
    }

    /// The error that requests left unanswered by a close end with.
    pub fn fate(&self) -> (r: Error)
        ensures
            r == self@.fate,
    {
        self.fate
    }
}

} // verus!
