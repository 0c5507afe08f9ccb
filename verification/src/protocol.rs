//! A transport-independent session on the Glimesh (Absinthe over Phoenix)
//! websocket protocol.
//!
//! The session decides what to send and what happened; the caller moves the
//! text frames over whatever socket it uses. Requests made before the join is
//! acknowledged are held back and sent, in order, once it is.
use vstd::prelude::*;
use vstd::string::*;
use std::collections::HashMap;
use crate::phoenix::{frame_message, frame_text, json_string, new_message_ref, push_json_string};

verus! {

broadcast use vstd::std_specs::hash::group_hash_axioms;

#[verifier::external_type_specification]
#[verifier::external_body]
pub struct ExJsonValue(serde_json::Value);

#[verifier::external_type_specification]
#[verifier::external_body]
#[verifier::reject_recursive_types(L)]
#[verifier::reject_recursive_types(R)]
#[verifier::reject_recursive_types(LS)]
#[verifier::reject_recursive_types(RS)]
pub struct ExBiHashMap<L, R, LS, RS>(bimap::BiHashMap<L, R, LS, RS>);

/// The table of live subscriptions: server subscription id to the caller's
/// reference, one to one.
pub type SubscriptionTable = bimap::BiHashMap<String, u64>;

/// The pairs that a subscription table holds, as a map from id to reference.
pub uninterp spec fn subscription_pairs(t: SubscriptionTable) -> Map<Seq<char>, u64>;

/// The table with no subscription.
pub open spec fn no_subscriptions() -> Map<Seq<char>, u64> {
    Map::empty()
}

/// A table after `(id, reference)` is put in: any pair that had the same id
/// or the same reference is dropped first.
pub open spec fn table_after_insert(m: Map<Seq<char>, u64>, id: Seq<char>, reference: u64) -> Map<
    Seq<char>,
    u64,
> {
    Map::new(|k: Seq<char>| m.contains_key(k) && k != id && m[k] != reference, |k: Seq<char>| m[k]).insert(
        id,
        reference,
    )
}

/// Whether some id maps to `reference`.
pub open spec fn has_reference(m: Map<Seq<char>, u64>, reference: u64) -> bool {
    exists|k: Seq<char>| m.contains_key(k) && m[k] == reference
}

/// `bimap::BiHashMap::new`: an empty table.
#[verifier::external_body]
fn table_new() -> (t: SubscriptionTable)
    ensures
        subscription_pairs(t) == no_subscriptions(),
{
    bimap::BiHashMap::new()
}

/// `bimap::BiHashMap::insert`: the source removes the pair with the same left
/// value, then the pair with the same right value, then inserts the new pair.
#[verifier::external_body]
fn table_insert(t: &mut SubscriptionTable, id: String, reference: u64)
    ensures
        subscription_pairs(*final(t)) == table_after_insert(subscription_pairs(*old(t)), id@, reference),
{
    t.insert(id, reference);
}

/// `bimap::BiHashMap::remove_by_right`: removes and returns the pair whose
/// right value is `reference`, if there is one (the map is a bijection, so
/// there is at most one).
#[verifier::external_body]
fn table_remove_by_right(t: &mut SubscriptionTable, reference: &u64) -> (r: Option<(String, u64)>)
    ensures
        (r matches Some(p) ==> {
            &&& p.1 == *reference
            &&& subscription_pairs(*old(t)).contains_key(p.0@)
            &&& subscription_pairs(*old(t))[p.0@] == *reference
            &&& subscription_pairs(*final(t)) == subscription_pairs(*old(t)).remove(p.0@)
        }),
        r is None ==> !has_reference(subscription_pairs(*old(t)), *reference),
        r is None ==> subscription_pairs(*final(t)) == subscription_pairs(*old(t)),
{
    t.remove_by_right(reference)
}

/// `bimap::BiHashMap::get_by_left`: the reference paired with `id`, copied.
#[verifier::external_body]
fn table_get_by_left(t: &SubscriptionTable, id: &str) -> (r: Option<u64>)
    ensures
        r is Some <==> subscription_pairs(*t).contains_key(id@),
        r matches Some(v) ==> v == subscription_pairs(*t)[id@],
{
    t.get_by_left(id).copied()
}

/// A request that the session sent, kept until the server replies to it.
#[derive(Clone, Copy, Debug)]
pub enum Request {
    Join,
    Ping,
    Subscribe(u64),
    Unsubscribe(u64),
}

/// What the server told the session.
#[derive(Debug)]
pub enum Event {
    /// The join was acknowledged.
    Joined,
    /// A heartbeat was answered.
    Pong,
    /// Data arrived on the subscription with the given reference.
    Document(u64, serde_json::Value),
}

/// One thing for the caller to act on: an event, or a text frame to send.
#[derive(Debug)]
pub enum SessionResult {
    Event(Event),
    Message(String),
}

impl From<Event> for SessionResult {
    fn from(evt: Event) -> (r: Self)
        ensures
            r == SessionResult::Event(evt),
    {
        SessionResult::Event(evt)
    }
}

impl vstd::std_specs::convert::FromSpecImpl<Event> for SessionResult {
    open spec fn obeys_from_spec() -> bool {
        true
    }

    open spec fn from_spec(evt: Event) -> Self {
        SessionResult::Event(evt)
    }
}

/// A result as the contracts see it: the text of a frame by its characters.
pub enum ResultModel {
    Joined,
    Pong,
    Document(u64, serde_json::Value),
    Message(Seq<char>),
}

impl View for SessionResult {
    type V = ResultModel;

    open spec fn view(&self) -> ResultModel {
        match self {
            SessionResult::Event(Event::Joined) => ResultModel::Joined,
            SessionResult::Event(Event::Pong) => ResultModel::Pong,
            SessionResult::Event(Event::Document(r, v)) => ResultModel::Document(*r, *v),
            SessionResult::Message(m) => ResultModel::Message(m@),
        }
    }
}

/// The results as the contracts see them.
pub open spec fn results_model(v: Seq<SessionResult>) -> Seq<ResultModel> {
    v.map_values(|r: SessionResult| r@)
}

/// The event of an incoming Phoenix message.
#[derive(Clone, Copy, Debug)]
pub enum ReceiveEvent {
    PhxReply,
    PhxError,
    SubscriptionData,
}

/// An incoming message, read. The payload is read two ways, as the reply to a
/// subscription (its subscription id) and as subscription data (its
/// subscription id and result); the session uses the reading that the message
/// calls for.
#[derive(Debug)]
pub struct IncomingMessage {
    pub msg_ref: Option<u128>,
    pub event: ReceiveEvent,
    pub reply: Result<String, serde_json::Error>,
    pub data: Result<(String, serde_json::Value), serde_json::Error>,
}

/// Reading an incoming message failed.
#[derive(Debug)]
pub enum HandleMessageError {
    DeserializeError { source: serde_json::Error },
}

struct PendingRequest {
    msg_ref: u128,
    message: String,
    request: Request,
}

/// A request held back until the join is acknowledged.
pub struct PendingModel {
    pub msg_ref: u128,
    pub message: Seq<char>,
    pub request: Request,
}

/// The state of a session as the contracts see it.
pub struct SessionModel {
    pub join_ref: u128,
    pub pending: Seq<PendingModel>,
    pub in_flight: Map<u128, Request>,
    pub subscriptions: Map<Seq<char>, u64>,
    pub joined: bool,
}

/// The session state of one websocket connection.
pub struct SocketSession {
    join_ref: u128,
    pending_requests: Vec<PendingRequest>,
    in_flight_requests: HashMap<u128, Request>,
    subscriptions: SubscriptionTable,
    joined: bool,
}

spec fn pending_model(p: PendingRequest) -> PendingModel {
    PendingModel { msg_ref: p.msg_ref, message: p.message@, request: p.request }
}

impl View for SocketSession {
    type V = SessionModel;

    closed spec fn view(&self) -> SessionModel {
        SessionModel {
            join_ref: self.join_ref,
            pending: self.pending_requests@.map_values(|p: PendingRequest| pending_model(p)),
            in_flight: self.in_flight_requests@,
            subscriptions: subscription_pairs(self.subscriptions),
            joined: self.joined,
        }
    }
}

/// A fresh session with the given join reference.
pub open spec fn initial_model(join_ref: u128) -> SessionModel {
    SessionModel {
        join_ref,
        pending: Seq::empty(),
        in_flight: Map::empty(),
        subscriptions: Map::empty(),
        joined: false,
    }
}

/// The session keeps subscriptions one to one.
pub open spec fn model_wf(s: SessionModel) -> bool {
    s.subscriptions.is_injective()
}

/// Making a request: once joined (or for the join itself) its frame goes out
/// at once and it waits for a reply; before that it is held back.
pub open spec fn send_step(s: SessionModel, req: Request, msg_ref: u128, text: Seq<char>) -> (
    SessionModel,
    Seq<ResultModel>,
) {
    if s.joined || req is Join {
        (SessionModel { in_flight: s.in_flight.insert(msg_ref, req), ..s }, seq![ResultModel::Message(text)])
    } else {
        (
            SessionModel {
                pending: s.pending.push(PendingModel { msg_ref, message: text, request: req }),
                ..s
            },
            Seq::empty(),
        )
    }
}

pub open spec fn control_topic() -> Seq<char> {
    "__absinthe__:control"@
}

pub open spec fn join_text(join_ref: u128, msg_ref: u128) -> Seq<char> {
    frame_text(join_ref, msg_ref, control_topic(), "phx_join"@, "null"@)
}

pub open spec fn ping_text(join_ref: u128, msg_ref: u128) -> Seq<char> {
    frame_text(join_ref, msg_ref, "phoenix"@, "heartbeat"@, "null"@)
}

pub open spec fn subscribe_text(join_ref: u128, msg_ref: u128, body: Seq<char>) -> Seq<char> {
    frame_text(join_ref, msg_ref, control_topic(), "doc"@, body)
}

/// The payload that ends a subscription: `{"subscriptionId":<id>}`.
pub open spec fn unsubscribe_payload(id: Seq<char>) -> Seq<char> {
    "{\"subscriptionId\":"@ + json_string(id) + seq!['}']
}

pub open spec fn unsubscribe_text(join_ref: u128, msg_ref: u128, id: Seq<char>) -> Seq<char> {
    frame_text(join_ref, msg_ref, control_topic(), "unsubscribe"@, unsubscribe_payload(id))
}

pub open spec fn join_step(s: SessionModel, msg_ref: u128) -> (SessionModel, Seq<ResultModel>) {
    send_step(s, Request::Join, msg_ref, join_text(s.join_ref, msg_ref))
}

pub open spec fn ping_step(s: SessionModel, msg_ref: u128) -> (SessionModel, Seq<ResultModel>) {
    send_step(s, Request::Ping, msg_ref, ping_text(s.join_ref, msg_ref))
}

pub open spec fn subscribe_step(s: SessionModel, reference: u64, body: Seq<char>, msg_ref: u128) -> (
    SessionModel,
    Seq<ResultModel>,
) {
    send_step(s, Request::Subscribe(reference), msg_ref, subscribe_text(s.join_ref, msg_ref, body))
}

/// The subscription id that maps to `reference` (meaningful when there is one).
pub open spec fn id_of_reference(m: Map<Seq<char>, u64>, reference: u64) -> Seq<char> {
    choose|k: Seq<char>| m.contains_key(k) && m[k] == reference
}

/// Ending a subscription: if the reference is subscribed, forget it and send
/// the unsubscribe request; otherwise nothing happens.
pub open spec fn unsubscribe_step(s: SessionModel, reference: u64, msg_ref: u128) -> (
    SessionModel,
    Seq<ResultModel>,
) {
    if has_reference(s.subscriptions, reference) {
        let id = id_of_reference(s.subscriptions, reference);
        send_step(
            SessionModel { subscriptions: s.subscriptions.remove(id), ..s },
            Request::Unsubscribe(reference),
            msg_ref,
            unsubscribe_text(s.join_ref, msg_ref, id),
        )
    } else {
        (s, Seq::empty())
    }
}

/// The held-back requests become in-flight, in order.
pub open spec fn flush_pending(m: Map<u128, Request>, ps: Seq<PendingModel>) -> Map<u128, Request>
    decreases ps.len(),
{
    if ps.len() == 0 {
        m
    } else {
        flush_pending(m, ps.drop_last()).insert(ps.last().msg_ref, ps.last().request)
    }
}

/// The frames of the held-back requests, in order.
pub open spec fn pending_messages(ps: Seq<PendingModel>) -> Seq<ResultModel> {
    ps.map_values(|p: PendingModel| ResultModel::Message(p.message))
}

/// Handling a reply to an in-flight request (taken out of the in-flight set).
pub open spec fn reply_step(s: SessionModel, req: Request, reply: Result<String, serde_json::Error>) -> (
    SessionModel,
    Result<Seq<ResultModel>, serde_json::Error>,
) {
    match req {
        Request::Join => (
            SessionModel {
                joined: true,
                pending: Seq::empty(),
                in_flight: flush_pending(s.in_flight, s.pending),
                ..s
            },
            Ok(seq![ResultModel::Joined] + pending_messages(s.pending)),
        ),
        Request::Ping => (s, Ok(seq![ResultModel::Pong])),
        Request::Subscribe(reference) => match reply {
            Ok(id) => (
                SessionModel {
                    subscriptions: table_after_insert(s.subscriptions, id@, reference),
                    ..s
                },
                Ok(Seq::empty()),
            ),
            Err(e) => (s, Err(e)),
        },
        Request::Unsubscribe(_) => (s, Ok(Seq::empty())),
    }
}

/// Handling an incoming message.
pub open spec fn handle_step(s: SessionModel, m: IncomingMessage) -> (
    SessionModel,
    Result<Seq<ResultModel>, serde_json::Error>,
) {
    match m.event {
        ReceiveEvent::PhxReply => match m.msg_ref {
            Some(r) => if s.in_flight.contains_key(r) {
                reply_step(
                    SessionModel { in_flight: s.in_flight.remove(r), ..s },
                    s.in_flight[r],
                    m.reply,
                )
            } else {
                (s, Ok(Seq::empty()))
            },
            None => (s, Ok(Seq::empty())),
        },
        ReceiveEvent::PhxError => (s, Ok(Seq::empty())),
        ReceiveEvent::SubscriptionData => match m.data {
            Ok(d) => if s.subscriptions.contains_key(d.0@) {
                (s, Ok(seq![ResultModel::Document(s.subscriptions[d.0@], d.1)]))
            } else {
                (s, Ok(Seq::empty()))
            },
            Err(e) => (s, Err(e)),
        },
    }
}

/// The result of handling, as the contracts see it.
pub open spec fn handled_model(r: Result<Vec<SessionResult>, HandleMessageError>) -> Result<
    Seq<ResultModel>,
    serde_json::Error,
> {
    match r {
        Ok(v) => Ok(results_model(v@)),
        Err(HandleMessageError::DeserializeError { source }) => Err(source),
    }
}

/// After `unsubscribe`, no subscription is left for the reference.
pub proof fn lemma_unsubscribe_clears_reference(s: SessionModel, reference: u64, msg_ref: u128)
    requires
        model_wf(s),
    ensures
        !has_reference(unsubscribe_step(s, reference, msg_ref).0.subscriptions, reference),
{
    if has_reference(s.subscriptions, reference) {
        let id = id_of_reference(s.subscriptions, reference);
        let n = s.subscriptions.remove(id);
        assert forall|k: Seq<char>| n.contains_key(k) implies n[k] != reference by {
            assert(s.subscriptions.contains_key(k) && k != id);
        }
    }
}

proof fn lemma_insert_keeps_injective(m: Map<Seq<char>, u64>, id: Seq<char>, reference: u64)
    requires
        m.is_injective(),
    ensures
        table_after_insert(m, id, reference).is_injective(),
{
    let n = table_after_insert(m, id, reference);
    assert forall|a: Seq<char>, b: Seq<char>|
        n.contains_key(a) && n.contains_key(b) && a != b implies n[a] != n[b] by {
        if a != id && b != id {
            assert(m.contains_key(a) && m.contains_key(b));
        }
    }
}

/// Whether `msg_ref` is free in `s`: no request in flight and no held-back
/// request carries it, so a reply carrying it answers only the new request.
pub open spec fn is_fresh_ref(s: SessionModel, msg_ref: u128) -> bool {
    &&& !s.in_flight.contains_key(msg_ref)
    &&& forall|i: int| 0 <= i < s.pending.len() ==> s.pending[i].msg_ref != msg_ref
}

spec fn refs_below(c: u128) -> Set<u128> {
    Set::new(|x: u128| x < c)
}

proof fn lemma_refs_below_len(c: u128)
    ensures
        refs_below(c).finite(),
        refs_below(c).len() == c,
    decreases c,
{
    if c == 0 {
        assert(refs_below(c) =~= Set::empty());
    } else {
        let b = (c - 1) as u128;
        lemma_refs_below_len(b);
        assert(refs_below(b).insert(b) =~= refs_below(c));
    }
}

/// Among more references than the session has requests, one is free.
proof fn lemma_some_ref_is_free(s: SessionModel, limit: u128)
    requires
        s.in_flight.dom().finite(),
        limit == s.in_flight.len() + s.pending.len() + 1,
    ensures
        exists|x: u128| x < limit && is_fresh_ref(s, x),
{
    let refs = s.pending.map_values(|p: PendingModel| p.msg_ref);
    let used = s.in_flight.dom().union(refs.to_set());
    if forall|x: u128| x < limit ==> !is_fresh_ref(s, x) {
        assert forall|x: u128| refs_below(limit).contains(x) implies used.contains(x) by {
            assert(!is_fresh_ref(s, x));
            if !s.in_flight.contains_key(x) {
                let i = choose|i: int| 0 <= i < s.pending.len() && s.pending[i].msg_ref == x;
                assert(refs[i] == x);
                assert(refs.contains(x));
            }
        }
        lemma_refs_below_len(limit);
        refs.lemma_cardinality_of_set();
        vstd::seq_lib::seq_to_set_is_finite(refs);
        vstd::set_lib::lemma_len_union(s.in_flight.dom(), refs.to_set());
        vstd::set_lib::lemma_len_subset(refs_below(limit), used);
        assert(false);
    }
}

impl SocketSession {
    /// Every session keeps its subscriptions one to one.
    #[verifier::type_invariant]
    spec fn subscriptions_one_to_one(self) -> bool {
        subscription_pairs(self.subscriptions).is_injective()
    }

    /// The session keeps its subscriptions one to one.
    pub open spec fn wf(&self) -> bool {
        model_wf(self@)
    }

    /// A session with the given join reference.
    pub fn with_join_ref(join_ref: u128) -> (s: Self)
        ensures
            s@ == initial_model(join_ref),
            s.wf(),
    {
        let s = SocketSession {
            join_ref,
            pending_requests: Vec::new(),
            in_flight_requests: HashMap::new(),
            subscriptions: table_new(),
            joined: false,
        };
        proof {
            assert(s@.pending =~= Seq::empty());
            assert(s@.subscriptions.is_injective());
        }
        s
    }

    /// A session with a fresh random join reference.
    pub fn new() -> (s: Self)
        ensures
            s@ == initial_model(s@.join_ref),
            s.wf(),
    {
        Self::with_join_ref(new_message_ref())
    }

    fn send_request(&mut self, request: Request, msg_ref: u128, message: String) -> (r: Vec<SessionResult>)
        ensures
            final(self).wf(),
            final(self)@ == send_step(old(self)@, request, msg_ref, message@).0,
            results_model(r@) == send_step(old(self)@, request, msg_ref, message@).1,
    {
        proof {
            use_type_invariant(&*self);
        }
        let ghost m = message@;
        if self.joined || matches!(request, Request::Join) {
            let mut in_flight = HashMap::new();
            std::mem::swap(&mut in_flight, &mut self.in_flight_requests);
            in_flight.insert(msg_ref, request);
            self.in_flight_requests = in_flight;
            let mut r = Vec::new();
            r.push(SessionResult::Message(message));
            proof {
                assert(results_model(r@) =~= seq![ResultModel::Message(m)]);
                use_type_invariant(&*self);
            }
            r
        } else {
            let ghost old_pending = self.pending_requests@;
            let mut pending = Vec::new();
            std::mem::swap(&mut pending, &mut self.pending_requests);
            pending.push(PendingRequest { msg_ref, message, request });
            self.pending_requests = pending;
            proof {
                assert(self@.pending =~= old(self)@.pending.push(PendingModel { msg_ref, message: m, request }));
            }
            let r = Vec::new();
            proof {
                assert(results_model(r@) =~= Seq::empty());
                use_type_invariant(&*self);
            }
            r
        }
    }

    /// Whether no request of the session, in flight or held back, carries `msg_ref`.
    fn is_free_ref(&self, msg_ref: u128) -> (r: bool)
        ensures
            r == is_fresh_ref(self@, msg_ref),
    {
        if self.in_flight_requests.contains_key(&msg_ref) {
            return false;
        }
        let n = self.pending_requests.len();
        let mut i: usize = 0;
        while i < n
            invariant
                i <= n,
                n == self@.pending.len(),
                !self@.in_flight.contains_key(msg_ref),
                forall|j: int| 0 <= j < i ==> self@.pending[j].msg_ref != msg_ref,
            decreases n - i,
        {
            if self.pending_requests[i].msg_ref == msg_ref {
                assert(self@.pending[i as int].msg_ref == msg_ref);
                return false;
            }
            i = i + 1;
        }
        true
    }

    /// A message reference for a new request: a random one, or, should a
    /// request of the session already carry it, the least free one.
    fn fresh_message_ref(&self) -> (r: u128)
        ensures
            is_fresh_ref(self@, r),
    {
        let candidate = new_message_ref();
        if self.is_free_ref(candidate) {
            return candidate;
        }
        let limit: u128 = self.in_flight_requests.len() as u128 + self.pending_requests.len() as u128 + 1;
        let mut c: u128 = 0;
        while c < limit
            invariant
                c <= limit,
                limit == self.in_flight_requests.len() + self@.pending.len() + 1,
                forall|x: u128| x < c ==> !is_fresh_ref(self@, x),
            decreases limit - c,
        {
            if self.is_free_ref(c) {
                return c;
            }
            c = c + 1;
        }
        proof {
            lemma_some_ref_is_free(self@, limit);
            assert(false);
        }
        0
    }

    /// Joins the channel, with the given message reference.
    pub fn join_with_ref(&mut self, msg_ref: u128) -> (r: Vec<SessionResult>)
        ensures
            final(self).wf(),
            final(self)@ == join_step(old(self)@, msg_ref).0,
            results_model(r@) == join_step(old(self)@, msg_ref).1,
    {
        let text = frame_message(self.join_ref, msg_ref, "__absinthe__:control", "phx_join", "null");
        self.send_request(Request::Join, msg_ref, text)
    }

    /// Joins the channel: the join frame always goes out at once.
    pub fn join(&mut self) -> (r: Vec<SessionResult>)
        ensures
            final(self).wf(),
            exists|msg_ref: u128|
                is_fresh_ref(old(self)@, msg_ref) && final(self)@ == join_step(old(self)@, msg_ref).0 && results_model(r@) == join_step(
                    old(self)@,
                    msg_ref,
                ).1,
    {
        let msg_ref = self.fresh_message_ref();
        self.join_with_ref(msg_ref)
    }

    /// Sends a heartbeat, with the given message reference.
    pub fn ping_with_ref(&mut self, msg_ref: u128) -> (r: Vec<SessionResult>)
        ensures
            final(self).wf(),
            final(self)@ == ping_step(old(self)@, msg_ref).0,
            results_model(r@) == ping_step(old(self)@, msg_ref).1,
    {
        let text = frame_message(self.join_ref, msg_ref, "phoenix", "heartbeat", "null");
        self.send_request(Request::Ping, msg_ref, text)
    }

    /// Sends a heartbeat.
    pub fn ping(&mut self) -> (r: Vec<SessionResult>)
        ensures
            final(self).wf(),
            exists|msg_ref: u128|
                is_fresh_ref(old(self)@, msg_ref) && final(self)@ == ping_step(old(self)@, msg_ref).0 && results_model(r@) == ping_step(
                    old(self)@,
                    msg_ref,
                ).1,
    {
        let msg_ref = self.fresh_message_ref();
        self.ping_with_ref(msg_ref)
    }

    /// Subscribes `reference` to the document whose JSON text is `body`, with
    /// the given message reference.
    pub fn subscribe_with_ref(&mut self, reference: u64, body: &str, msg_ref: u128) -> (r: Vec<SessionResult>)
        ensures
            final(self).wf(),
            final(self)@ == subscribe_step(old(self)@, reference, body@, msg_ref).0,
            results_model(r@) == subscribe_step(old(self)@, reference, body@, msg_ref).1,
    {
        let text = frame_message(self.join_ref, msg_ref, "__absinthe__:control", "doc", body);
        self.send_request(Request::Subscribe(reference), msg_ref, text)
    }

    /// Subscribes `reference` to the document whose JSON text is `body`.
    pub fn subscribe(&mut self, reference: u64, body: &str) -> (r: Vec<SessionResult>)
        ensures
            final(self).wf(),
            exists|msg_ref: u128|
                is_fresh_ref(old(self)@, msg_ref) && final(self)@ == subscribe_step(old(self)@, reference, body@, msg_ref).0
                    && results_model(r@) == subscribe_step(old(self)@, reference, body@, msg_ref).1,
    {
        let msg_ref = self.fresh_message_ref();
        self.subscribe_with_ref(reference, body, msg_ref)
    }

    /// Ends the subscription of `reference`, with the given message reference.
    pub fn unsubscribe_with_ref(&mut self, reference: u64, msg_ref: u128) -> (r: Vec<SessionResult>)
        ensures
            final(self).wf(),
            final(self)@ == unsubscribe_step(old(self)@, reference, msg_ref).0,
            results_model(r@) == unsubscribe_step(old(self)@, reference, msg_ref).1,
            !has_reference(final(self)@.subscriptions, reference),
            final(self)@.joined == old(self)@.joined,
            final(self)@.join_ref == old(self)@.join_ref,
    {
        proof {
            use_type_invariant(&*self);
        }
        let ghost s0 = self@;
        proof {
            lemma_unsubscribe_clears_reference(s0, reference, msg_ref);
        }
        let mut table = table_new();
        std::mem::swap(&mut table, &mut self.subscriptions);
        let removed = table_remove_by_right(&mut table, &reference);
        proof {
            if removed is Some {
                let gone = (removed->0).0;
                assert(subscription_pairs(table) == s0.subscriptions.remove(gone@));
            } else {
                assert(subscription_pairs(table) == s0.subscriptions);
            }
            assert(subscription_pairs(table).is_injective());
        }
        self.subscriptions = table;
        match removed {
            Some(pair) => {
                let id = pair.0;
                proof {
                    let k = id_of_reference(s0.subscriptions, reference);
                    assert(s0.subscriptions.contains_key(id@));
                    assert(has_reference(s0.subscriptions, reference));
                    assert(s0.subscriptions.contains_key(k) && s0.subscriptions[k] == reference);
                    assert(k == id@);
                    assert(self@.subscriptions.is_injective());
                }
                let mut payload = String::from_str("{\"subscriptionId\":");
                push_json_string(&mut payload, id.as_str());
                payload.append("}");
                proof {
                    reveal_strlit("{\"subscriptionId\":");
                    reveal_strlit("}");
                    assert(payload@ =~= unsubscribe_payload(id@));
                }
                let text = frame_message(
                    self.join_ref,
                    msg_ref,
                    "__absinthe__:control",
                    "unsubscribe",
                    payload.as_str(),
                );
                self.send_request(Request::Unsubscribe(reference), msg_ref, text)
            },
            None => {
                let r = Vec::new();
                proof {
                    assert(self@ == s0);
                    assert(results_model(r@) =~= Seq::empty());
                    use_type_invariant(&*self);
                }
                r
            },
        }
    }

    /// Ends the subscription of `reference`; nothing happens if it has none.
    pub fn unsubscribe(&mut self, reference: u64) -> (r: Vec<SessionResult>)
        ensures
            final(self).wf(),
            exists|msg_ref: u128|
                is_fresh_ref(old(self)@, msg_ref) && final(self)@ == unsubscribe_step(old(self)@, reference, msg_ref).0
                    && results_model(r@) == unsubscribe_step(old(self)@, reference, msg_ref).1,
            !has_reference(final(self)@.subscriptions, reference),
            final(self)@.joined == old(self)@.joined,
            final(self)@.join_ref == old(self)@.join_ref,
    {
        let msg_ref = self.fresh_message_ref();
        self.unsubscribe_with_ref(reference, msg_ref)
    }
    /// Marks the session joined and sends the held-back requests, in order.
    fn flush_pending_requests(&mut self) -> (r: Vec<SessionResult>)
        ensures
            final(self).wf(),
            final(self)@ == (SessionModel {
                joined: true,
                pending: Seq::empty(),
                in_flight: flush_pending(old(self)@.in_flight, old(self)@.pending),
                ..old(self)@
            }),
            results_model(r@) == seq![ResultModel::Joined] + pending_messages(old(self)@.pending),
    {
        proof {
            use_type_invariant(&*self);
        }
        let ghost s0 = self@;
        self.joined = true;
        let mut pending: Vec<PendingRequest> = Vec::new();
        std::mem::swap(&mut pending, &mut self.pending_requests);
        let ghost pend = s0.pending;
        assert(pend == pending@.map_values(|p: PendingRequest| pending_model(p)));
        let mut results: Vec<SessionResult> = Vec::new();
        results.push(SessionResult::Event(Event::Joined));
        let n = pending.len();
        let mut i: usize = 0;
        assert(pend.take(0) =~= Seq::<PendingModel>::empty());
        assert(results_model(results@) =~= seq![ResultModel::Joined] + pending_messages(pend.take(0)));
        let mut in_flight = HashMap::new();
        std::mem::swap(&mut in_flight, &mut self.in_flight_requests);
        while i < n
            invariant
                0 <= i <= n,
                n == pending@.len(),
                pend.len() == n,
                forall|j: int| 0 <= j < n ==> #[trigger] pend[j] == pending_model(pending@[j]),
                self.join_ref == s0.join_ref,
                self.joined,
                self.pending_requests@.len() == 0,
                subscription_pairs(self.subscriptions) == s0.subscriptions,
                self.in_flight_requests@ == Map::<u128, Request>::empty(),
                in_flight@ == flush_pending(s0.in_flight, pend.take(i as int)),
                results_model(results@) == seq![ResultModel::Joined] + pending_messages(pend.take(i as int)),
            decreases n - i,
        {
            let p = &pending[i];
            let ghost before = pend.take(i as int);
            let ghost old_results = results@;
            in_flight.insert(p.msg_ref, p.request);
            let text = p.message.clone();
            results.push(SessionResult::Message(text));
            i = i + 1;
            proof {
                let after = pend.take(i as int);
                assert(after.drop_last() =~= before);
                assert(after.last() == pend[i - 1]);
                assert(results_model(results@) =~= results_model(old_results).push(
                    ResultModel::Message(pend[i - 1].message),
                ));
                assert(pending_messages(after) =~= pending_messages(before).push(
                    ResultModel::Message(pend[i - 1].message),
                ));
                assert(results_model(results@) =~= seq![ResultModel::Joined] + pending_messages(after));
            }
        }
        self.in_flight_requests = in_flight;
        proof {
            assert(pend.take(n as int) =~= pend);
            assert(self@.pending =~= Seq::empty());
            use_type_invariant(&*self);
        }
        results
    }

    /// Handles an incoming message.
    pub fn handle_incoming(&mut self, msg: IncomingMessage) -> (r: Result<Vec<SessionResult>, HandleMessageError>)
        ensures
            final(self).wf(),
            final(self)@ == handle_step(old(self)@, msg).0,
            handled_model(r) == handle_step(old(self)@, msg).1,
            old(self)@.joined ==> final(self)@.joined,
            final(self)@.join_ref == old(self)@.join_ref,
    {
        let r = self.handle_message_step(msg);
        proof {
            use_type_invariant(&*self);
        }
        r
    }

    fn handle_message_step(&mut self, msg: IncomingMessage) -> (r: Result<Vec<SessionResult>, HandleMessageError>)
        ensures
            final(self)@ == handle_step(old(self)@, msg).0,
            handled_model(r) == handle_step(old(self)@, msg).1,
    {
        proof {
            use_type_invariant(&*self);
        }
        let ghost s0 = self@;
        match msg.event {
            ReceiveEvent::PhxReply => match msg.msg_ref {
                Some(msg_ref) => {
                    let mut in_flight = HashMap::new();
                    std::mem::swap(&mut in_flight, &mut self.in_flight_requests);
                    let removed = in_flight.remove(&msg_ref);
                    self.in_flight_requests = in_flight;
                    match removed {
                        Some(Request::Join) => {
                            let results = self.flush_pending_requests();
                            Ok(results)
                        },
                        Some(Request::Ping) => {
                            let results = vec![SessionResult::Event(Event::Pong)];
                            proof {
                                assert(results_model(results@) =~= seq![ResultModel::Pong]);
                            }
                            Ok(results)
                        },
                        Some(Request::Subscribe(reference)) => match msg.reply {
                            Ok(id) => {
                                proof {
                                    lemma_insert_keeps_injective(s0.subscriptions, id@, reference);
                                }
                                let mut table = table_new();
                                std::mem::swap(&mut table, &mut self.subscriptions);
                                table_insert(&mut table, id, reference);
                                self.subscriptions = table;
                                let results = Vec::new();
                                proof {
                                    assert(results_model(results@) =~= Seq::empty());
                                }
                                Ok(results)
                            },
                            Err(e) => Err(HandleMessageError::DeserializeError { source: e }),
                        },
                        Some(Request::Unsubscribe(_)) => {
                            let results = Vec::new();
                            proof {
                                assert(results_model(results@) =~= Seq::empty());
                            }
                            Ok(results)
                        },
                        None => {
                            let results = Vec::new();
                            proof {
                                assert(self@.in_flight =~= s0.in_flight);
                                assert(results_model(results@) =~= Seq::empty());
                            }
                            Ok(results)
                        },
                    }
                },
                None => {
                    let results = Vec::new();
                    proof {
                        assert(results_model(results@) =~= Seq::empty());
                    }
                    Ok(results)
                },
            },
            ReceiveEvent::PhxError => {
                let results = Vec::new();
                proof {
                    assert(results_model(results@) =~= Seq::empty());
                }
                Ok(results)
            },
            ReceiveEvent::SubscriptionData => match msg.data {
                Ok(data) => {
                    let (id, result) = data;
                    match table_get_by_left(&self.subscriptions, id.as_str()) {
                        Some(reference) => {
                            let results = vec![SessionResult::Event(Event::Document(reference, result))];
                            proof {
                                assert(results_model(results@) =~= seq![ResultModel::Document(reference, result)]);
                            }
                            Ok(results)
                        },
                        None => {
                            let results = Vec::new();
                            proof {
                                assert(results_model(results@) =~= Seq::empty());
                            }
                            Ok(results)
                        },
                    }
                },
                Err(e) => Err(HandleMessageError::DeserializeError { source: e }),
            },
        }
    }
}

impl Default for SocketSession {
    fn default() -> (s: Self)
        ensures
            s@ == initial_model(s@.join_ref),
            s.wf(),
    {
        Self::new()
    }
}

/// Every held-back request is in flight after the flush, one whose message
/// reference no later request reuses waits for its own reply, and the flush
/// leaves every other reference as it was.
pub proof fn lemma_flush_pending(m: Map<u128, Request>, ps: Seq<PendingModel>)
    ensures
        forall|k: u128|
            (forall|i: int| 0 <= i < ps.len() ==> ps[i].msg_ref != k) ==> (#[trigger] flush_pending(m, ps).contains_key(k)
                == m.contains_key(k) && (m.contains_key(k) ==> flush_pending(m, ps)[k] == m[k])),
        forall|i: int| 0 <= i < ps.len() ==> #[trigger] flush_pending(m, ps).contains_key(ps[i].msg_ref),
        forall|i: int|
            0 <= i < ps.len() && (forall|j: int| i < j < ps.len() ==> ps[j].msg_ref != ps[i].msg_ref)
                ==> #[trigger] flush_pending(m, ps)[ps[i].msg_ref] == ps[i].request,
    decreases ps.len(),
{
    if ps.len() > 0 {
        let init = ps.drop_last();
        lemma_flush_pending(m, init);
        assert forall|k: u128|
            (forall|i: int| 0 <= i < ps.len() ==> ps[i].msg_ref != k) implies (#[trigger] flush_pending(m, ps).contains_key(k)
                == m.contains_key(k) && (m.contains_key(k) ==> flush_pending(m, ps)[k] == m[k])) by {
            assert(ps[ps.len() - 1].msg_ref != k);
            assert forall|i: int| 0 <= i < init.len() implies init[i].msg_ref != k by {
                assert(init[i] == ps[i]);
            }
        }
        assert forall|i: int| 0 <= i < ps.len() implies #[trigger] flush_pending(m, ps).contains_key(ps[i].msg_ref) by {
            if i < ps.len() - 1 {
                assert(init[i] == ps[i]);
            }
        }
        assert forall|i: int|
            0 <= i < ps.len() && (forall|j: int| i < j < ps.len() ==> ps[j].msg_ref != ps[i].msg_ref)
                implies #[trigger] flush_pending(m, ps)[ps[i].msg_ref] == ps[i].request by {
            if i < ps.len() - 1 {
                assert(init[i] == ps[i]);
                assert(ps[ps.len() - 1].msg_ref != ps[i].msg_ref);
                assert forall|j: int| i < j < init.len() implies init[j].msg_ref != init[i].msg_ref by {
                    assert(init[j] == ps[j]);
                }
            }
        }
    }
}

/// Before the join is acknowledged, a request other than the join sends
/// nothing: it is held back at the end of the queue.
pub proof fn law_requests_wait_for_join(s: SessionModel, req: Request, msg_ref: u128, text: Seq<char>)
    requires
        !s.joined,
        !(req is Join),
    ensures
        send_step(s, req, msg_ref, text).1 == Seq::<ResultModel>::empty(),
        send_step(s, req, msg_ref, text).0.pending == s.pending.push(
            PendingModel { msg_ref, message: text, request: req },
        ),
        send_step(s, req, msg_ref, text).0.in_flight == s.in_flight,
{
}

/// Once joined, a request sends its frame at once and waits for its reply.
pub proof fn law_joined_sends_at_once(s: SessionModel, req: Request, msg_ref: u128, text: Seq<char>)
    requires
        s.joined,
    ensures
        send_step(s, req, msg_ref, text).1 == seq![ResultModel::Message(text)],
        send_step(s, req, msg_ref, text).0.in_flight == s.in_flight.insert(msg_ref, req),
        send_step(s, req, msg_ref, text).0.pending == s.pending,
{
}

/// The join frame always goes out at once, joined or not.
pub proof fn law_join_always_sent(s: SessionModel, msg_ref: u128)
    ensures
        join_step(s, msg_ref).1 == seq![ResultModel::Message(join_text(s.join_ref, msg_ref))],
        join_step(s, msg_ref).0.in_flight == s.in_flight.insert(msg_ref, Request::Join),
{
}

/// When the join is acknowledged the session reports `Joined`, then sends
/// every held-back request in the order they were made; none stays held
/// back, and each waits for its reply.
pub proof fn law_join_reply_releases_pending(s: SessionModel, r: u128, m: IncomingMessage)
    requires
        s.in_flight.contains_key(r),
        s.in_flight[r] is Join,
        m.event is PhxReply,
        m.msg_ref == Some(r),
    ensures
        handle_step(s, m).1 == Ok::<Seq<ResultModel>, serde_json::Error>(
            seq![ResultModel::Joined] + pending_messages(s.pending),
        ),
        handle_step(s, m).0.joined,
        handle_step(s, m).0.pending.len() == 0,
        forall|i: int|
            0 <= i < s.pending.len() ==> #[trigger] handle_step(s, m).0.in_flight.contains_key(
                s.pending[i].msg_ref,
            ),
        forall|i: int|
            0 <= i < s.pending.len() && (forall|j: int|
                i < j < s.pending.len() ==> s.pending[j].msg_ref != s.pending[i].msg_ref) ==> #[trigger] handle_step(
                s,
                m,
            ).0.in_flight[s.pending[i].msg_ref] == s.pending[i].request,
{
    lemma_flush_pending(s.in_flight.remove(r), s.pending);
}

/// A reply is acted on once: handling the same reply again changes nothing and
/// yields nothing (unless a held-back request reused the joined request's
/// reference, which the join reply puts back in flight).
pub proof fn law_reply_handled_once(s: SessionModel, r: u128, m: IncomingMessage)
    requires
        s.in_flight.contains_key(r),
        m.event is PhxReply,
        m.msg_ref == Some(r),
        s.in_flight[r] is Join ==> forall|i: int| 0 <= i < s.pending.len() ==> s.pending[i].msg_ref != r,
    ensures
        handle_step(handle_step(s, m).0, m).0 == handle_step(s, m).0,
        handle_step(handle_step(s, m).0, m).1 == Ok::<Seq<ResultModel>, serde_json::Error>(Seq::empty()),
{
    lemma_flush_pending(s.in_flight.remove(r), s.pending);
    assert(!handle_step(s, m).0.in_flight.contains_key(r));
}

/// Subscriptions change only when the server answers a subscription or one is
/// ended: making requests leaves them as they were, and so does every
/// message other than a reply to an in-flight subscription.
pub proof fn law_subscriptions_change_only_by_reply_or_unsubscribe(
    s: SessionModel,
    reference: u64,
    body: Seq<char>,
    msg_ref: u128,
    m: IncomingMessage,
)
    ensures
        join_step(s, msg_ref).0.subscriptions == s.subscriptions,
        ping_step(s, msg_ref).0.subscriptions == s.subscriptions,
        subscribe_step(s, reference, body, msg_ref).0.subscriptions == s.subscriptions,
        !(m.event is PhxReply && m.msg_ref is Some && s.in_flight.contains_key(m.msg_ref->0)
            && s.in_flight[m.msg_ref->0] is Subscribe) ==> handle_step(s, m).0.subscriptions == s.subscriptions,
{
}

/// A subscription in the table delivers every piece of data under its id to
/// its reference.
pub proof fn law_subscribed_id_delivers(s: SessionModel, data: IncomingMessage)
    requires
        data.event is SubscriptionData,
        data.data is Ok,
        s.subscriptions.contains_key(data.data->Ok_0.0@),
    ensures
        handle_step(s, data).0 == s,
        handle_step(s, data).1 == Ok::<Seq<ResultModel>, serde_json::Error>(
            seq![ResultModel::Document(s.subscriptions[data.data->Ok_0.0@], data.data->Ok_0.1)],
        ),
{
}

/// Ending a subscription twice: the second time sends nothing and changes nothing.
pub proof fn law_second_unsubscribe_is_noop(s: SessionModel, reference: u64, first: u128, second: u128)
    requires
        model_wf(s),
    ensures
        unsubscribe_step(unsubscribe_step(s, reference, first).0, reference, second).0 == unsubscribe_step(
            s,
            reference,
            first,
        ).0,
        unsubscribe_step(unsubscribe_step(s, reference, first).0, reference, second).1 == Seq::<
            ResultModel,
        >::empty(),
{
    lemma_unsubscribe_clears_reference(s, reference, first);
}

/// Once the server has answered a subscription with its id, the data it
/// publishes under that id reaches the subscription's reference.
pub proof fn law_subscription_delivers(
    s: SessionModel,
    reference: u64,
    body: Seq<char>,
    msg_ref: u128,
    reply: IncomingMessage,
    data: IncomingMessage,
)
    requires
        s.joined,
        model_wf(s),
        reply.event is PhxReply,
        reply.msg_ref == Some(msg_ref),
        reply.reply is Ok,
        data.event is SubscriptionData,
        data.data is Ok,
        data.data->Ok_0.0@ == reply.reply->Ok_0@,
    ensures
        handle_step(handle_step(subscribe_step(s, reference, body, msg_ref).0, reply).0, data).1 == Ok::<
            Seq<ResultModel>,
            serde_json::Error,
        >(seq![ResultModel::Document(reference, data.data->Ok_0.1)]),
{
    let s1 = subscribe_step(s, reference, body, msg_ref).0;
    assert(s1.in_flight[msg_ref] == Request::Subscribe(reference));
    let s2 = handle_step(s1, reply).0;
    assert(s2.subscriptions.contains_key(reply.reply->Ok_0@));
}

/// Ending a subscription undoes it: subscribing a reference that had none,
/// having the server answer with a fresh id, then unsubscribing, leaves the
/// subscription table as it was and sends the unsubscribe request for that id.
pub proof fn law_unsubscribe_undoes_subscribe(
    s: SessionModel,
    reference: u64,
    body: Seq<char>,
    sub_ref: u128,
    reply: IncomingMessage,
    unsub_ref: u128,
)
    requires
        s.joined,
        model_wf(s),
        !has_reference(s.subscriptions, reference),
        reply.event is PhxReply,
        reply.msg_ref == Some(sub_ref),
        reply.reply is Ok,
        !s.subscriptions.contains_key(reply.reply->Ok_0@),
    ensures
        unsubscribe_step(handle_step(subscribe_step(s, reference, body, sub_ref).0, reply).0, reference, unsub_ref).0.subscriptions
            == s.subscriptions,
        unsubscribe_step(handle_step(subscribe_step(s, reference, body, sub_ref).0, reply).0, reference, unsub_ref).1
            == seq![ResultModel::Message(unsubscribe_text(s.join_ref, unsub_ref, reply.reply->Ok_0@))],
{
    let id = reply.reply->Ok_0@;
    let s1 = subscribe_step(s, reference, body, sub_ref).0;
    assert(s1.in_flight[sub_ref] == Request::Subscribe(reference));
    let s2 = handle_step(s1, reply).0;
    let filtered = Map::new(
        |k: Seq<char>| s.subscriptions.contains_key(k) && k != id && s.subscriptions[k] != reference,
        |k: Seq<char>| s.subscriptions[k],
    );
    assert(filtered =~= s.subscriptions);
    assert(s2.subscriptions == s.subscriptions.insert(id, reference));
    lemma_insert_keeps_injective(s.subscriptions, id, reference);
    assert(s2.subscriptions.contains_key(id) && s2.subscriptions[id] == reference);
    assert(has_reference(s2.subscriptions, reference));
    let k = id_of_reference(s2.subscriptions, reference);
    assert(k == id);
    assert(s2.subscriptions.remove(id) =~= s.subscriptions);
}

/// After a subscription is ended, data under its id reaches no one.
pub proof fn law_unsubscribe_stops_delivery(s: SessionModel, reference: u64, msg_ref: u128, data: IncomingMessage)
    requires
        model_wf(s),
        has_reference(s.subscriptions, reference),
        data.event is SubscriptionData,
        data.data is Ok,
        data.data->Ok_0.0@ == id_of_reference(s.subscriptions, reference),
    ensures
        handle_step(unsubscribe_step(s, reference, msg_ref).0, data).1 == Ok::<Seq<ResultModel>, serde_json::Error>(
            Seq::empty(),
        ),
{
}

/// Ending a subscription that does not exist sends nothing and changes nothing.
pub proof fn law_unsubscribe_unknown_is_noop(s: SessionModel, reference: u64, msg_ref: u128)
    requires
        !has_reference(s.subscriptions, reference),
    ensures
        unsubscribe_step(s, reference, msg_ref).0 == s,
        unsubscribe_step(s, reference, msg_ref).1 == Seq::<ResultModel>::empty(),
{
}

/// A reply that answers no request in flight changes nothing and yields nothing.
pub proof fn law_unmatched_reply_ignored(s: SessionModel, m: IncomingMessage)
    requires
        m.event is PhxReply,
        m.msg_ref is None || !s.in_flight.contains_key(m.msg_ref->0),
    ensures
        handle_step(s, m).0 == s,
        handle_step(s, m).1 == Ok::<Seq<ResultModel>, serde_json::Error>(Seq::empty()),
{
}

/// Once joined, a heartbeat is answered with `Pong`, and the request is done.
pub proof fn law_ping_answered_by_pong(s: SessionModel, msg_ref: u128, m: IncomingMessage)
    requires
        s.joined,
        m.event is PhxReply,
        m.msg_ref == Some(msg_ref),
    ensures
        handle_step(ping_step(s, msg_ref).0, m).1 == Ok::<Seq<ResultModel>, serde_json::Error>(
            seq![ResultModel::Pong],
        ),
        !handle_step(ping_step(s, msg_ref).0, m).0.in_flight.contains_key(msg_ref),
{
}

/// Every way the session changes keeps subscriptions one to one.
pub proof fn law_steps_keep_subscriptions_one_to_one(
    s: SessionModel,
    reference: u64,
    body: Seq<char>,
    msg_ref: u128,
    m: IncomingMessage,
)
    requires
        model_wf(s),
    ensures
        model_wf(join_step(s, msg_ref).0),
        model_wf(ping_step(s, msg_ref).0),
        model_wf(subscribe_step(s, reference, body, msg_ref).0),
        model_wf(unsubscribe_step(s, reference, msg_ref).0),
        model_wf(handle_step(s, m).0),
{
    if m.event is PhxReply && m.msg_ref is Some && s.in_flight.contains_key(m.msg_ref->0) {
        if s.in_flight[m.msg_ref->0] is Subscribe && m.reply is Ok {
            lemma_insert_keeps_injective(
                s.subscriptions,
                m.reply->Ok_0@,
                s.in_flight[m.msg_ref->0]->Subscribe_0,
            );
        }
    }
}


/// One call on a session, as the contracts see it: a request with the
/// message reference it was given, or the handling of an incoming message.
pub enum SessionOp {
    Join(u128),
    Ping(u128),
    Subscribe(u64, Seq<char>, u128),
    Unsubscribe(u64, u128),
    Handle(IncomingMessage),
}

/// The session after one call.
pub open spec fn op_step(s: SessionModel, op: SessionOp) -> SessionModel {
    match op {
        SessionOp::Join(msg_ref) => join_step(s, msg_ref).0,
        SessionOp::Ping(msg_ref) => ping_step(s, msg_ref).0,
        SessionOp::Subscribe(reference, body, msg_ref) => subscribe_step(s, reference, body, msg_ref).0,
        SessionOp::Unsubscribe(reference, msg_ref) => unsubscribe_step(s, reference, msg_ref).0,
        SessionOp::Handle(m) => handle_step(s, m).0,
    }
}

/// The session after the calls, in order.
pub open spec fn run_ops(s: SessionModel, ops: Seq<SessionOp>) -> SessionModel
    decreases ops.len(),
{
    if ops.len() == 0 {
        s
    } else {
        op_step(run_ops(s, ops.drop_last()), ops.last())
    }
}

/// Whether the call `op`, made on `s`, ends the subscription `id` for
/// `reference`: unsubscribing the reference, or a reply that registers a
/// subscription under the same id or for the same reference (the table is one
/// to one, so that pair replaces it).
pub open spec fn ends_subscription(s: SessionModel, op: SessionOp, id: Seq<char>, reference: u64) -> bool {
    match op {
        SessionOp::Unsubscribe(k, _) => k == reference,
        SessionOp::Handle(m) => match (m.event, m.msg_ref, m.reply) {
            (ReceiveEvent::PhxReply, Some(r), Ok(new_id)) => s.in_flight.contains_key(r) && match s.in_flight[r] {
                Request::Subscribe(k) => new_id@ == id || k == reference,
                _ => false,
            },
            _ => false,
        },
        _ => false,
    }
}

/// Whether none of the calls ends the subscription `id` for `reference`.
pub open spec fn keeps_subscription(s: SessionModel, ops: Seq<SessionOp>, id: Seq<char>, reference: u64) -> bool
    decreases ops.len(),
{
    ops.len() == 0 || (keeps_subscription(s, ops.drop_last(), id, reference) && !ends_subscription(
        run_ops(s, ops.drop_last()),
        ops.last(),
        id,
        reference,
    ))
}

/// A subscription delivers from then on: once `id` is registered for
/// `reference`, after any calls up to the one that ends it, the data that the
/// server publishes under `id` reaches `reference`.
pub proof fn law_subscription_delivers_until_ended(
    s: SessionModel,
    id: Seq<char>,
    reference: u64,
    ops: Seq<SessionOp>,
    data: IncomingMessage,
)
    requires
        s.subscriptions.contains_key(id),
        s.subscriptions[id] == reference,
        keeps_subscription(s, ops, id, reference),
        data.event is SubscriptionData,
        data.data matches Ok(d) && d.0@ == id,
    ensures
        run_ops(s, ops).subscriptions.contains_key(id),
        run_ops(s, ops).subscriptions[id] == reference,
        handle_step(run_ops(s, ops), data).1 == Ok::<Seq<ResultModel>, serde_json::Error>(
            seq![ResultModel::Document(reference, data.data->Ok_0.1)],
        ),
    decreases ops.len(),
{
    if ops.len() > 0 {
        let prev = ops.drop_last();
        law_subscription_delivers_until_ended(s, id, reference, prev, data);
        let p = run_ops(s, prev);
        let op = ops.last();
        match op {
            SessionOp::Unsubscribe(k, msg_ref) => {
                if has_reference(p.subscriptions, k) {
                    let other = id_of_reference(p.subscriptions, k);
                    assert(other != id);
                }
            },
            _ => {},
        }
    }
}


/// Handling a message never ends the join: a joined session stays joined, and
/// a session becomes joined exactly when the message acknowledges its join.
pub proof fn law_handling_keeps_joined(s: SessionModel, m: IncomingMessage)
    ensures
        s.joined ==> handle_step(s, m).0.joined,
        handle_step(s, m).0.joined == (s.joined || (m.event is PhxReply && m.msg_ref is Some
            && s.in_flight.contains_key(m.msg_ref->0) && s.in_flight[m.msg_ref->0] is Join)),
        handle_step(s, m).0.join_ref == s.join_ref,
{
}

/// Making a request never changes whether the session is joined, nor its join
/// reference.
pub proof fn law_requests_keep_joined(s: SessionModel, reference: u64, body: Seq<char>, msg_ref: u128)
    ensures
        join_step(s, msg_ref).0.joined == s.joined,
        ping_step(s, msg_ref).0.joined == s.joined,
        subscribe_step(s, reference, body, msg_ref).0.joined == s.joined,
        unsubscribe_step(s, reference, msg_ref).0.joined == s.joined,
        join_step(s, msg_ref).0.join_ref == s.join_ref,
        ping_step(s, msg_ref).0.join_ref == s.join_ref,
        subscribe_step(s, reference, body, msg_ref).0.join_ref == s.join_ref,
        unsubscribe_step(s, reference, msg_ref).0.join_ref == s.join_ref,
{
}

/// The reply to a heartbeat yields `Pong` and only takes the heartbeat out of
/// the in-flight requests: joined, held-back requests and subscriptions stay.
pub proof fn law_heartbeat_reply_only_pongs(s: SessionModel, r: u128, m: IncomingMessage)
    requires
        s.in_flight.contains_key(r),
        s.in_flight[r] is Ping,
        m.event is PhxReply,
        m.msg_ref == Some(r),
    ensures
        handle_step(s, m).1 == Ok::<Seq<ResultModel>, serde_json::Error>(seq![ResultModel::Pong]),
        handle_step(s, m).0.joined == s.joined,
        handle_step(s, m).0.join_ref == s.join_ref,
        handle_step(s, m).0.pending == s.pending,
        handle_step(s, m).0.subscriptions == s.subscriptions,
        handle_step(s, m).0.in_flight == s.in_flight.remove(r),
{
}

/// A request on a joined session goes out at once as one frame.
pub proof fn law_joined_requests_go_out(s: SessionModel, reference: u64, body: Seq<char>, msg_ref: u128)
    requires
        s.joined,
    ensures
        ping_step(s, msg_ref).1.len() == 1,
        subscribe_step(s, reference, body, msg_ref).1 == seq![
            ResultModel::Message(subscribe_text(s.join_ref, msg_ref, body)),
        ],
        subscribe_step(s, reference, body, msg_ref).0.pending == s.pending,
{
}

/// Two subscriptions in a row, each with a reference that is free when it is
/// made: the server's answers are matched to the subscriptions they answer,
/// whatever order they come in, and each id then delivers to its own
/// reference.
pub proof fn law_fresh_subscriptions_answered_separately(
    s: SessionModel,
    first: u64,
    first_body: Seq<char>,
    first_ref: u128,
    second: u64,
    second_body: Seq<char>,
    second_ref: u128,
    first_reply: IncomingMessage,
    second_reply: IncomingMessage,
)
    requires
        s.joined,
        is_fresh_ref(s, first_ref),
        is_fresh_ref(subscribe_step(s, first, first_body, first_ref).0, second_ref),
        first != second,
        first_reply.event is PhxReply,
        first_reply.msg_ref == Some(first_ref),
        first_reply.reply is Ok,
        second_reply.event is PhxReply,
        second_reply.msg_ref == Some(second_ref),
        second_reply.reply is Ok,
        first_reply.reply->Ok_0@ != second_reply.reply->Ok_0@,
    ensures
        ({
            let s2 = subscribe_step(subscribe_step(s, first, first_body, first_ref).0, second, second_body, second_ref).0;
            let done = handle_step(handle_step(s2, second_reply).0, first_reply).0;
            &&& done.subscriptions.contains_key(first_reply.reply->Ok_0@)
            &&& done.subscriptions[first_reply.reply->Ok_0@] == first
            &&& done.subscriptions.contains_key(second_reply.reply->Ok_0@)
            &&& done.subscriptions[second_reply.reply->Ok_0@] == second
        }),
        ({
            let s2 = subscribe_step(subscribe_step(s, first, first_body, first_ref).0, second, second_body, second_ref).0;
            let done = handle_step(handle_step(s2, first_reply).0, second_reply).0;
            &&& done.subscriptions.contains_key(first_reply.reply->Ok_0@)
            &&& done.subscriptions[first_reply.reply->Ok_0@] == first
            &&& done.subscriptions.contains_key(second_reply.reply->Ok_0@)
            &&& done.subscriptions[second_reply.reply->Ok_0@] == second
        }),
{
    let s1 = subscribe_step(s, first, first_body, first_ref).0;
    assert(s1.in_flight.contains_key(first_ref));
    assert(second_ref != first_ref);
    let s2 = subscribe_step(s1, second, second_body, second_ref).0;
    assert(s2.in_flight[first_ref] == Request::Subscribe(first));
    assert(s2.in_flight[second_ref] == Request::Subscribe(second));
}

/// Ending a subscription changes only the subscription table, and adds its
/// own request: the reference's id leaves the table and every other pair
/// stays; joined, the join reference and every other request are as before.
/// On a joined session the unsubscribe frame for that id goes out at once;
/// before the join it is held back. A reference with no subscription changes
/// nothing.
pub proof fn law_unsubscribe_changes_only_its_subscription(s: SessionModel, reference: u64, msg_ref: u128)
    requires
        model_wf(s),
    ensures
        ({
            let t = unsubscribe_step(s, reference, msg_ref).0;
            &&& t.joined == s.joined
            &&& t.join_ref == s.join_ref
            &&& forall|id: Seq<char>|
                #[trigger] t.subscriptions.contains_key(id) <==> (s.subscriptions.contains_key(id)
                    && s.subscriptions[id] != reference)
            &&& forall|id: Seq<char>|
                #[trigger] t.subscriptions.contains_key(id) ==> t.subscriptions[id] == s.subscriptions[id]
        }),
        !has_reference(s.subscriptions, reference) ==> unsubscribe_step(s, reference, msg_ref).0 == s
            && unsubscribe_step(s, reference, msg_ref).1 == Seq::<ResultModel>::empty(),
        forall|id: Seq<char>|
            s.subscriptions.contains_key(id) && #[trigger] s.subscriptions[id] == reference ==> {
                let text = unsubscribe_text(s.join_ref, msg_ref, id);
                let u = unsubscribe_step(s, reference, msg_ref);
                &&& s.joined ==> u.0.pending == s.pending && u.0.in_flight == s.in_flight.insert(
                    msg_ref,
                    Request::Unsubscribe(reference),
                ) && u.1 == seq![ResultModel::Message(text)]
                &&& !s.joined ==> u.0.in_flight == s.in_flight && u.0.pending == s.pending.push(
                    PendingModel { msg_ref, message: text, request: Request::Unsubscribe(reference) },
                ) && u.1 == Seq::<ResultModel>::empty()
            },
{
    if has_reference(s.subscriptions, reference) {
        let id = id_of_reference(s.subscriptions, reference);
        assert(s.subscriptions.contains_key(id) && s.subscriptions[id] == reference);
        assert forall|other: Seq<char>|
            s.subscriptions.contains_key(other) && #[trigger] s.subscriptions[other] == reference implies other == id by {
        }
    }
}

} // verus!
