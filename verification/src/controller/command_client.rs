//! The correlator of one connection: it gives each call an id, keeps who waits
//! for each call that still awaits its reply, and pairs each reply with its call.
//!
//! The correlator decides; its caller acts. The caller owns the transport: it
//! writes the frames that [`Correlator::submit`] hands out, gives each frame it
//! reads to [`Correlator::receive`], and tells the waiter that comes back what
//! became of its call.

use crate::codec::Wire;
use crate::controller::id_generator::{id_text, ids_are_distinct, seeded_prefix, IdGenerator};
use crate::json::{DecodeError, Json, JsonView};
use crate::messages::{Message, MessageWrapper, MessageWrapperView};
use crate::responses::{Response, ResponseView};
use crate::text::same_text;
use vstd::prelude::*;

verus! {

/// Why a call did not come to its reply.
#[derive(Debug, PartialEq)]
pub enum ClientError {
    /// The connection could not be opened; the text says why.
    FailureToConnect(String),
    /// The connection is closed, or closing.
    ConnectionClosed,
    /// The call could not be written out; the text says why. Nothing was sent.
    MessageRenderingError(String),
}

/// What a [`ClientError`] holds.
pub enum ClientErrorView {
    FailureToConnect(Seq<char>),
    ConnectionClosed,
    MessageRenderingError(Seq<char>),
}

impl DeepView for ClientError {
    type V = ClientErrorView;

    open spec fn deep_view(&self) -> ClientErrorView {
        match self {
            ClientError::FailureToConnect(why) => ClientErrorView::FailureToConnect(why@),
            ClientError::ConnectionClosed => ClientErrorView::ConnectionClosed,
            ClientError::MessageRenderingError(why) => ClientErrorView::MessageRenderingError(why@),
        }
    }
}

impl ClientErrorView {
    /// The error in words.
    pub open spec fn text(self) -> Seq<char> {
        match self {
            ClientErrorView::FailureToConnect(why) => "failed to connect to server "@ + why,
            ClientErrorView::ConnectionClosed => "socket connection is closed"@,
            ClientErrorView::MessageRenderingError(why) => "outbound message is invalid "@ + why,
        }
    }

    /// The error by the name of its kind, with its text in brackets if it has
    /// one.
    pub open spec fn debug_text(self) -> Seq<char> {
        match self {
            ClientErrorView::FailureToConnect(why) => "FailureToConnect("@ + why + ")"@,
            ClientErrorView::ConnectionClosed => "ConnectionClosed"@,
            ClientErrorView::MessageRenderingError(why) => "MessageRenderingError("@ + why + ")"@,
        }
    }
}

impl ClientError {
    /// The error in words.
    pub fn to_string(&self) -> (r: String)
        ensures
            r@ == self.deep_view().text(),
    {
        match self {
            ClientError::FailureToConnect(why) => {
                let mut text = String::from_str("failed to connect to server ");
                text.append(why.as_str());
                text
            },
            ClientError::ConnectionClosed => String::from_str("socket connection is closed"),
            ClientError::MessageRenderingError(why) => {
                let mut text = String::from_str("outbound message is invalid ");
                text.append(why.as_str());
                text
            },
        }
    }

    /// The error by the name of its kind, with its text in brackets if it has
    /// one.
    pub fn debug_text(&self) -> (r: String)
        ensures
            r@ == self.deep_view().debug_text(),
    {
        match self {
            ClientError::FailureToConnect(why) => {
                let mut text = String::from_str("FailureToConnect(");
                text.append(why.as_str());
                text.append(")");
                text
            },
            ClientError::ConnectionClosed => String::from_str("ConnectionClosed"),
            ClientError::MessageRenderingError(why) => {
                let mut text = String::from_str("MessageRenderingError(");
                text.append(why.as_str());
                text.append(")");
                text
            },
        }
    }
}

/// What becomes of a call that was handed in.
#[derive(Debug, PartialEq)]
pub enum Submission<W> {
    /// The call awaits its reply under `id`; `frame` is to be written out.
    Send { id: String, frame: Json },
    /// The call fails at once, and nothing is to be written. Whoever waited for
    /// it comes back to be told.
    Refuse { error: ClientError, waiter: W },
}

/// What becomes of a frame that was read.
#[derive(Debug, PartialEq)]
pub enum Delivery<W> {
    /// The reply to the call that awaited it under `id`. The call awaits no
    /// longer: the reply goes to whoever waited for it, once.
    Resolve { id: String, waiter: W, response: Response },
    /// A reply that names no call that awaits one. It is dropped.
    Unpaired(Response),
    /// No reply at all. The frame is dropped, and the connection goes on.
    Undecodable(DecodeError),
    /// The connection is closed: frames are read no more.
    Stopped,
}

/// What a [`Delivery`] holds.
pub enum DeliveryView<W> {
    Resolve { id: Seq<char>, waiter: W, response: ResponseView },
    Unpaired(ResponseView),
    Undecodable(DecodeError),
    Stopped,
}

impl<W> DeepView for Delivery<W> {
    type V = DeliveryView<W>;

    open spec fn deep_view(&self) -> DeliveryView<W> {
        match self {
            Delivery::Resolve { id, waiter, response } => DeliveryView::Resolve {
                id: id@,
                waiter: *waiter,
                response: response.deep_view(),
            },
            Delivery::Unpaired(response) => DeliveryView::Unpaired(response.deep_view()),
            Delivery::Undecodable(e) => DeliveryView::Undecodable(*e),
            Delivery::Stopped => DeliveryView::Stopped,
        }
    }
}

/// The state of one connection: its ids, and for each call that awaits a reply
/// whoever waits for it. A waiter is whatever the caller hands in with a call;
/// the correlator keeps it and hands it back, once.
pub struct Correlator<W> {
    ids: IdGenerator,
    pending: Vec<(String, W)>,
    closed: bool,
}

/// The ids and waiters of a list.
pub open spec fn waiting<W>(pending: &Vec<(String, W)>) -> Seq<(Seq<char>, W)> {
    Seq::new(pending.len() as nat, |i: int| (pending[i].0@, pending[i].1))
}

/// The waiters of a list, each under its id.
pub open spec fn registry<W>(list: Seq<(Seq<char>, W)>) -> Map<Seq<char>, W>
    decreases list.len(),
{
    if list.len() == 0 {
        Map::empty()
    } else {
        registry(list.drop_last()).insert(list.last().0, list.last().1)
    }
}

/// Whether no id stands twice.
pub open spec fn ids_are_unique<W>(list: Seq<(Seq<char>, W)>) -> bool {
    forall|i: int, j: int| 0 <= i < j < list.len() ==> list[i].0 != list[j].0
}

/// Whether every id of the list was issued under `prefix` with a number
/// below `sequence`.
pub open spec fn issued_before<W>(
    list: Seq<(Seq<char>, W)>,
    prefix: Seq<char>,
    sequence: u64,
) -> bool {
    forall|i: int|
        0 <= i < list.len() ==> exists|k: u64|
            k < sequence && (#[trigger] list[i]).0 == id_text(prefix, k)
}

/// With one more at the end of the list, the registry holds one more.
pub proof fn registry_of_push<W>(list: Seq<(Seq<char>, W)>, id: Seq<char>, waiter: W)
    ensures
        registry(list.push((id, waiter))) == registry(list).insert(id, waiter),
{
    assert(list.push((id, waiter)).drop_last() =~= list);
}

/// The registry holds the ids of the list, no more and no fewer, and as many
/// as the list is long if no id stands twice; under each id it holds the
/// waiter that stands with it.
pub proof fn registry_holds_the_list<W>(list: Seq<(Seq<char>, W)>)
    ensures
        registry(list).dom().finite(),
        forall|id: Seq<char>|
            registry(list).dom().contains(id) <==> exists|i: int|
                0 <= i < list.len() && (#[trigger] list[i]).0 == id,
        ids_are_unique(list) ==> registry(list).dom().len() == list.len(),
        ids_are_unique(list) ==> forall|i: int|
            0 <= i < list.len() ==> registry(list)[(#[trigger] list[i]).0] == list[i].1,
    decreases list.len(),
{
    if list.len() > 0 {
        let rest = list.drop_last();
        let last = list.last();
        registry_holds_the_list(rest);
        assert forall|id: Seq<char>| registry(list).dom().contains(id) implies exists|i: int|
            0 <= i < list.len() && (#[trigger] list[i]).0 == id by {
            if id == last.0 {
                assert(list[list.len() - 1].0 == id);
            } else {
                let i = choose|i: int| 0 <= i < rest.len() && (#[trigger] rest[i]).0 == id;
                assert(list[i].0 == id);
            }
        }
        assert forall|id: Seq<char>|
            (exists|i: int| 0 <= i < list.len() && (#[trigger] list[i]).0 == id) implies registry(
            list,
        ).dom().contains(id) by {
            let i = choose|i: int| 0 <= i < list.len() && (#[trigger] list[i]).0 == id;
            if i < rest.len() {
                assert(rest[i].0 == id);
            }
        }
        if ids_are_unique(list) {
            assert(ids_are_unique(rest)) by {
                assert forall|i: int, j: int| 0 <= i < j < rest.len() implies rest[i].0
                    != rest[j].0 by {
                    assert(list[i].0 != list[j].0);
                }
            }
            assert(!registry(rest).dom().contains(last.0)) by {
                if registry(rest).dom().contains(last.0) {
                    let i = choose|i: int| 0 <= i < rest.len() && (#[trigger] rest[i]).0 == last.0;
                    assert(list[i].0 == list[list.len() - 1].0);
                }
            }
            assert forall|i: int| 0 <= i < list.len() implies registry(list)[(
            #[trigger] list[i]).0] == list[i].1 by {
                if i < rest.len() {
                    assert(rest[i].0 == list[i].0);
                    assert(list[i].0 != list[list.len() - 1].0);
                }
            }
        }
    }
}

/// Without one of its entries the list has one fewer in the registry, if no id
/// stands twice.
pub proof fn registry_of_remove<W>(list: Seq<(Seq<char>, W)>, at: int)
    requires
        0 <= at < list.len(),
        ids_are_unique(list),
    ensures
        registry(list.remove(at)) == registry(list).remove(list[at].0),
        ids_are_unique(list.remove(at)),
{
    let rest = list.remove(at);
    assert(ids_are_unique(rest)) by {
        assert forall|i: int, j: int| 0 <= i < j < rest.len() implies rest[i].0 != rest[j].0 by {
            let a = if i < at { i } else { i + 1 };
            let b = if j < at { j } else { j + 1 };
            assert(list[a].0 != list[b].0);
        }
    }
    registry_holds_the_list(list);
    registry_holds_the_list(rest);
    let left = registry(rest);
    let right = registry(list).remove(list[at].0);
    assert forall|id: Seq<char>| left.dom().contains(id) <==> right.dom().contains(id) by {
        if left.dom().contains(id) {
            let i = choose|i: int| 0 <= i < rest.len() && (#[trigger] rest[i]).0 == id;
            let a = if i < at { i } else { i + 1 };
            assert(list[a].0 == id);
            if a < at {
                assert(list[a].0 != list[at].0);
            } else {
                assert(list[at].0 != list[a].0);
            }
        }
        if right.dom().contains(id) {
            let a = choose|a: int| 0 <= a < list.len() && (#[trigger] list[a]).0 == id;
            let i = if a < at { a } else { a - 1 };
            assert(rest[i].0 == id);
        }
    }
    assert forall|id: Seq<char>| left.dom().contains(id) implies left[id] == right[id] by {
        let i = choose|i: int| 0 <= i < rest.len() && (#[trigger] rest[i]).0 == id;
        let a = if i < at { i } else { i + 1 };
        assert(left[rest[i].0] == rest[i].1);
        assert(registry(list)[list[a].0] == list[a].1);
    }
    assert(left =~= right);
}

impl<W> Correlator<W> {
    /// What every state that this module builds keeps: no id awaits a reply
    /// twice, and each was issued by this connection earlier on.
    pub closed spec fn wf(&self) -> bool {
        &&& ids_are_unique(waiting(&self.pending))
        &&& issued_before(waiting(&self.pending), self.ids.prefix(), self.ids.sequence())
    }

    /// The calls that await their reply: under each id, whoever waits.
    pub closed spec fn pending(&self) -> Map<Seq<char>, W> {
        registry(waiting(&self.pending))
    }

    /// Whether the connection was closed.
    pub closed spec fn closed(&self) -> bool {
        self.closed
    }

    /// The prefix of the ids of this connection.
    pub closed spec fn prefix(&self) -> Seq<char> {
        self.ids.prefix()
    }

    /// The number that the next id carries.
    pub closed spec fn sequence(&self) -> u64 {
        self.ids.sequence()
    }

    /// Whether the connection takes another call: it is open and has an id left.
    pub open spec fn accepts(&self) -> bool {
        !self.closed() && self.sequence() < u64::MAX
    }

    /// An open connection on which no call awaits a reply, with ids from the
    /// given generator.
    pub fn with_ids(ids: IdGenerator) -> (r: Self)
        ensures
            r.wf(),
            r.pending() == Map::<Seq<char>, W>::empty(),
            !r.closed(),
            r.prefix() == ids.prefix(),
            r.sequence() == ids.sequence(),
    {
        let pending: Vec<(String, W)> = Vec::new();
        assert(waiting(&pending) =~= Seq::empty());
        Self { ids, pending, closed: false }
    }

    /// An open connection on which no call awaits a reply. Its ids start at zero
    /// under the given prefix, or under one drawn at random.
    pub fn new(id_prefix: Option<&str>) -> (r: Self)
        ensures
            r.wf(),
            r.pending() == Map::<Seq<char>, W>::empty(),
            !r.closed(),
            r.sequence() == 0,
            id_prefix matches Some(prefix) ==> r.prefix() == prefix@,
            id_prefix is None ==> exists|seed: u32| r.prefix() == seeded_prefix(seed),
    {
        let ids = match id_prefix {
            None => IdGenerator::default(),
            Some(prefix) => IdGenerator::new_with_prefix(prefix),
        };
        Self::with_ids(ids)
    }

    /// Whether the connection was closed.
    pub fn is_closed(&self) -> (r: bool)
        ensures
            r == self.closed(),
    {
        self.closed
    }

    /// How many calls await their reply.
    pub fn in_flight(&self) -> (n: usize)
        requires
            self.wf(),
        ensures
            n == self.pending().dom().len(),
    {
        proof {
            registry_holds_the_list(waiting(&self.pending));
        }
        self.pending.len()
    }

    /// Closes the connection, and says whether this call was the one that did
    /// it. Calls that await their reply are left as they are: they are neither
    /// answered nor failed.
    pub fn close(&mut self) -> (first: bool)
        requires
            old(self).wf(),
        ensures
            final(self).wf(),
            final(self).closed(),
            first == !old(self).closed(),
            final(self).pending() == old(self).pending(),
            final(self).prefix() == old(self).prefix(),
            final(self).sequence() == old(self).sequence(),
    {
        let first = !self.closed;
        self.closed = true;
        first
    }

    /// Takes a call in. On an open connection the call gets the next id, is
    /// noted with its waiter as awaiting its reply, and comes back as the frame
    /// to write out. On a closed connection, or once the ids are used up, the
    /// call is refused: the waiter comes back, and nothing changes.
    pub fn submit(&mut self, message: Message, waiter: W) -> (r: Submission<W>)
        requires
            old(self).wf(),
        ensures
            final(self).wf(),
            final(self).closed() == old(self).closed(),
            final(self).prefix() == old(self).prefix(),
            old(self).accepts() ==> {
                &&& r matches Submission::Send { id, frame }
                &&& id@ == id_text(old(self).prefix(), old(self).sequence())
                &&& frame@ == MessageWrapper::doc_of(
                    MessageWrapperView { inner: message.deep_view(), message_id: id@ },
                )
                &&& !old(self).pending().dom().contains(id@)
                &&& final(self).pending() == old(self).pending().insert(id@, waiter)
                &&& final(self).sequence() == old(self).sequence() + 1
            },
            !old(self).accepts() ==> {
                &&& r == (Submission::Refuse { error: ClientError::ConnectionClosed, waiter })
                &&& final(self).pending() == old(self).pending()
                &&& final(self).sequence() == old(self).sequence()
            },
    {
        if self.closed || self.ids.sequence() == u64::MAX {
            return Submission::Refuse { error: ClientError::ConnectionClosed, waiter };
        }
        let ghost before = waiting(&self.pending);
        let ghost prefix = self.ids.prefix();
        let ghost number = self.ids.sequence();
        let id = self.ids.next();
        proof {
            registry_holds_the_list(before);
            assert forall|i: int| 0 <= i < before.len() implies before[i].0 != id@ by {
                let k = choose|k: u64| k < number && before[i].0 == id_text(prefix, k);
                ids_are_distinct(prefix, k, number);
            }
            registry_of_push(before, id@, waiter);
            let after = before.push((id@, waiter));
            assert(ids_are_unique(after));
            assert(issued_before(after, prefix, (number + 1) as u64)) by {
                assert forall|i: int| 0 <= i < after.len() implies exists|k: u64|
                    k < number + 1 && (#[trigger] after[i]).0 == id_text(prefix, k) by {
                    if i < before.len() {
                        let k = choose|k: u64| k < number && before[i].0 == id_text(prefix, k);
                        assert(k < number + 1 && after[i].0 == id_text(prefix, k));
                    } else {
                        assert(number < number + 1 && after[i].0 == id_text(prefix, number));
                    }
                }
            }
        }
        self.pending.push((id.clone(), waiter));
        assert(waiting(&self.pending) =~= before.push((id@, waiter)));
        let envelope = MessageWrapper { inner: message, message_id: id };
        let frame = envelope.encode();
        Submission::Send { id: envelope.message_id, frame }
    }

    /// Takes back a call whose frame could not be written out as text. If the
    /// call awaited a reply it awaits none any more: its waiter comes back, with
    /// the failure that it is to be told. Else nothing changes.
    pub fn abandon(&mut self, id: &str, reason: &str) -> (r: Option<(W, ClientError)>)
        requires
            old(self).wf(),
        ensures
            final(self).wf(),
            final(self).closed() == old(self).closed(),
            final(self).prefix() == old(self).prefix(),
            final(self).sequence() == old(self).sequence(),
            final(self).pending() == old(self).pending().remove(id@),
            old(self).pending().dom().contains(id@) ==> (r matches Some((waiter, error))
                && waiter == old(self).pending()[id@] && error.deep_view()
                == ClientErrorView::MessageRenderingError(reason@)),
            !old(self).pending().dom().contains(id@) ==> r is None,
    {
        match self.forget(id) {
            Some(waiter) => Some(
                (waiter, ClientError::MessageRenderingError(String::from_str(reason))),
            ),
            None => None,
        }
    }

    /// Strikes an id off the list of those that await a reply, and hands out
    /// whoever waited under it.
    fn forget(&mut self, id: &str) -> (found: Option<W>)
        requires
            old(self).wf(),
        ensures
            final(self).wf(),
            final(self).closed() == old(self).closed(),
            final(self).prefix() == old(self).prefix(),
            final(self).sequence() == old(self).sequence(),
            final(self).pending() == old(self).pending().remove(id@),
            match found {
                Some(waiter) => old(self).pending().dom().contains(id@) && waiter == old(
                    self,
                ).pending()[id@],
                None => !old(self).pending().dom().contains(id@),
            },
    {
        let ghost before = waiting(&self.pending);
        proof {
            registry_holds_the_list(before);
        }
        let mut i: usize = 0;
        while i < self.pending.len()
            invariant
                i <= self.pending.len(),
                before == waiting(&self.pending),
                ids_are_unique(before),
                issued_before(before, self.ids.prefix(), self.ids.sequence()),
                self.ids == old(self).ids,
                self.closed == old(self).closed,
                registry(before) == old(self).pending(),
                forall|j: int| 0 <= j < i ==> before[j].0 != id@,
            decreases self.pending.len() - i,
        {
            if same_text(self.pending[i].0.as_str(), id) {
                proof {
                    registry_holds_the_list(before);
                    registry_of_remove(before, i as int);
                    assert(before[i as int].0 == id@);
                    let rest = before.remove(i as int);
                    assert(issued_before(rest, self.ids.prefix(), self.ids.sequence())) by {
                        assert forall|j: int| 0 <= j < rest.len() implies exists|k: u64|
                            k < self.ids.sequence() && (#[trigger] rest[j]).0 == id_text(
                                self.ids.prefix(),
                                k,
                            ) by {
                            let at = if j < i {
                                j
                            } else {
                                j + 1
                            };
                            let k = choose|k: u64|
                                k < self.ids.sequence() && before[at].0 == id_text(
                                    self.ids.prefix(),
                                    k,
                                );
                            assert(k < self.ids.sequence() && rest[j].0 == id_text(
                                self.ids.prefix(),
                                k,
                            ));
                        }
                    }
                }
                let (_, waiter) = self.pending.remove(i);
                assert(waiting(&self.pending) =~= before.remove(i as int));
                return Some(waiter);
            }
            i += 1;
        }
        proof {
            registry_holds_the_list(before);
            assert(!registry(before).dom().contains(id@));
            assert(registry(before).remove(id@) =~= registry(before));
        }
        None
    }

    /// Takes a frame that was read. On an open connection the frame is read as
    /// a reply; a reply that names a call which awaits one resolves that call,
    /// and no other: its waiter comes back with the reply. On a closed
    /// connection nothing is read and nothing changes.
    pub fn receive(&mut self, frame: &Json) -> (r: Delivery<W>)
        requires
            old(self).wf(),
        ensures
            final(self).wf(),
            final(self).closed() == old(self).closed(),
            final(self).prefix() == old(self).prefix(),
            final(self).sequence() == old(self).sequence(),
            r.deep_view() == delivery_of(old(self).closed(), old(self).pending(), frame@),
            final(self).pending() == match r {
                Delivery::Resolve { id, .. } => old(self).pending().remove(id@),
                _ => old(self).pending(),
            },
    {
        if self.closed {
            return Delivery::Stopped;
        }
        let response = match Response::decode(frame) {
            Ok(response) => response,
            Err(e) => {
                return Delivery::Undecodable(e);
            },
        };
        let id = match &response.source_message_id {
            Some(id) => id.clone(),
            None => {
                return Delivery::Unpaired(response);
            },
        };
        match self.forget(id.as_str()) {
            Some(waiter) => Delivery::Resolve { id, waiter, response },
            None => Delivery::Unpaired(response),
        }
    }
}

/// What becomes of a frame: on a closed connection nothing; else what the
/// frame reads as decides, and a reply resolves the call that it names if that
/// call awaits one, with whoever waits for it.
pub open spec fn delivery_of<W>(
    closed: bool,
    pending: Map<Seq<char>, W>,
    frame: JsonView,
) -> DeliveryView<W> {
    if closed {
        DeliveryView::Stopped
    } else {
        match Response::value_of(frame) {
            Err(e) => DeliveryView::Undecodable(e),
            Ok(response) => match response.source_message_id {
                Some(id) => if pending.dom().contains(id) {
                    DeliveryView::Resolve { id, waiter: pending[id], response }
                } else {
                    DeliveryView::Unpaired(response)
                },
                None => DeliveryView::Unpaired(response),
            },
        }
    }
}

/// A reply resolves the call that it names whatever else awaits a reply: two
/// registries that agree on that one call make the same of the frame.
pub proof fn delivery_looks_at_its_own_call_only<W>(
    pending: Map<Seq<char>, W>,
    others: Map<Seq<char>, W>,
    frame: JsonView,
)
    requires
        Response::value_of(frame) matches Ok(response) ==> (response.source_message_id matches Some(
            id,
        ) ==> {
            &&& pending.dom().contains(id) <==> others.dom().contains(id)
            &&& pending.dom().contains(id) ==> pending[id] == others[id]
        }),
    ensures
        delivery_of(false, pending, frame) == delivery_of(false, others, frame),
{
}

/// Two calls that await their replies are each resolved with its own reply and
/// its own waiter, in whichever order the two replies come; and either order
/// leaves the same calls waiting.
pub proof fn replies_resolve_in_any_order<W>(
    pending: Map<Seq<char>, W>,
    first: ResponseView,
    first_frame: JsonView,
    second: ResponseView,
    second_frame: JsonView,
)
    requires
        Response::value_of(first_frame) == Ok::<ResponseView, DecodeError>(first),
        Response::value_of(second_frame) == Ok::<ResponseView, DecodeError>(second),
        first.source_message_id is Some,
        second.source_message_id is Some,
        first.source_message_id != second.source_message_id,
        pending.dom().contains(first.source_message_id->Some_0),
        pending.dom().contains(second.source_message_id->Some_0),
    ensures
        ({
            let a = first.source_message_id->Some_0;
            let b = second.source_message_id->Some_0;
            let to_first = DeliveryView::Resolve { id: a, waiter: pending[a], response: first };
            let to_second = DeliveryView::Resolve { id: b, waiter: pending[b], response: second };
            &&& delivery_of(false, pending, first_frame) == to_first
            &&& delivery_of(false, pending.remove(a), second_frame) == to_second
            &&& delivery_of(false, pending, second_frame) == to_second
            &&& delivery_of(false, pending.remove(b), first_frame) == to_first
            &&& pending.remove(a).remove(b) == pending.remove(b).remove(a)
        }),
{
    let a = first.source_message_id->Some_0;
    let b = second.source_message_id->Some_0;
    assert(pending.remove(a).remove(b) =~= pending.remove(b).remove(a));
}

/// The ids that a connection gives to one call after another, from any point
/// on, differ from one another as long as the sequence does not run out.
pub proof fn calls_get_distinct_ids(prefix: Seq<char>, start: u64, i: nat, j: nat)
    requires
        i != j,
        start + i <= u64::MAX,
        start + j <= u64::MAX,
    ensures
        id_text(prefix, (start + i) as u64) != id_text(prefix, (start + j) as u64),
{
    ids_are_distinct(prefix, (start + i) as u64, (start + j) as u64);
}

/// On a closed connection no frame resolves a call.
pub proof fn closed_connection_resolves_nothing<W>(pending: Map<Seq<char>, W>, frame: JsonView)
    ensures
        delivery_of(true, pending, frame) == DeliveryView::<W>::Stopped,
{
}

} // verus!
