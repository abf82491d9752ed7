use vstd::prelude::*;
use crate::error::{ConnectError, ExchangeError, SendRequestError};
use crate::head::{uri_text, RequestHead, RequestHeadType, ResponseHead};
use crate::headers::HeaderList;
use std::rc::Rc;

verus! {

/// A network address given ahead of time, so that the connector skips
/// resolution.
#[derive(Clone, Copy, Debug)]
pub enum SocketAddress {
    /// An IPv4 address, octets and port.
    V4([u8; 4], u16),
    /// An IPv6 address, octets and port.
    V6([u8; 16], u16),
}

/// What the connector is asked to reach: the request's target and, if the
/// caller has one, an address that overrides resolution.
pub struct Connect {
    pub uri: http::Uri,
    pub addr: Option<SocketAddress>,
}

/// A response as the caller receives it: the head the connection returned
/// and the stream of its body.
pub struct ClientResponse<P> {
    pub head: ResponseHead,
    pub payload: P,
}

/// What an attempt asks of the connection once it is established.
#[derive(PartialEq, Eq, Structural, Clone, Copy, Debug)]
pub enum Mode {
    /// An exchange: the request and its body are sent, a decoded response comes back.
    Send,
    /// An upgrade: the head is sent, the raw transport comes back.
    Tunnel,
}

/// How far an attempt has come.
#[derive(PartialEq, Eq, Structural, Clone, Copy, Debug)]
pub enum Stage {
    /// Waiting for the connector.
    Dialing,
    /// The connection has the request; waiting for its answer.
    Exchanging,
    /// Done: answered, failed or abandoned.
    Finished,
}

/// What the driver of an attempt must do after a dial completed.
pub enum Action<C, B> {
    /// Run the exchange on the connection with this head and body.
    Exchange(C, RequestHeadType, B),
    /// Run the upgrade handshake on the connection with this head.
    Upgrade(C, RequestHeadType),
    /// Stop: the attempt ends with this error.
    Fail(SendRequestError),
}

/// What the driver must do with outstanding work when the caller abandons an
/// attempt.
#[derive(PartialEq, Eq, Structural, Clone, Copy, Debug)]
pub enum Release {
    /// Drop the pending dial.
    CancelDial,
    /// The connection holds a request that may be half written: close it
    /// rather than hand it back for reuse.
    Invalidate,
    /// Nothing is outstanding.
    Nothing,
}

/// An event an attempt reacts to, without its payload.
#[derive(PartialEq, Eq, Structural, Clone, Copy, Debug)]
pub enum Signal {
    Dialed,
    DialFailed,
    Answered,
    AnswerFailed,
    Abandoned,
}

/// What an attempt does in reaction to an event, without its payload.
#[derive(PartialEq, Eq, Structural, Clone, Copy, Debug)]
pub enum Effect {
    Exchange,
    Upgrade,
    Deliver,
    Fail,
    CancelDial,
    Invalidate,
    Ignore,
}

/// The rule an attempt follows: from a stage and an event, the next stage
/// and the effect. An event that does not fit the stage is ignored.
pub open spec fn step(mode: Mode, stage: Stage, signal: Signal) -> (Stage, Effect) {
    match (stage, signal) {
        (Stage::Dialing, Signal::Dialed) => (
            Stage::Exchanging,
            if mode == Mode::Send {
                Effect::Exchange
            } else {
                Effect::Upgrade
            },
        ),
        (Stage::Dialing, Signal::DialFailed) => (Stage::Finished, Effect::Fail),
        (Stage::Dialing, Signal::Abandoned) => (Stage::Finished, Effect::CancelDial),
        (Stage::Exchanging, Signal::Answered) => (Stage::Finished, Effect::Deliver),
        (Stage::Exchanging, Signal::AnswerFailed) => (Stage::Finished, Effect::Fail),
        (Stage::Exchanging, Signal::Abandoned) => (Stage::Finished, Effect::Invalidate),
        _ => (stage, Effect::Ignore),
    }
}

/// The effects of a sequence of events, from the given stage on.
pub open spec fn run(mode: Mode, stage: Stage, signals: Seq<Signal>) -> Seq<Effect>
    decreases signals.len(),
{
    if signals.len() == 0 {
        Seq::empty()
    } else {
        let (next, effect) = step(mode, stage, signals[0]);
        seq![effect] + run(mode, next, signals.subrange(1, signals.len() as int))
    }
}

/// Whether an effect puts a request on a connection.
pub open spec fn is_handoff(e: Effect) -> bool {
    e == Effect::Exchange || e == Effect::Upgrade
}

/// The effect an action stands for.
pub open spec fn effect_of<C, B>(a: Action<C, B>) -> Effect {
    match a {
        Action::Exchange(..) => Effect::Exchange,
        Action::Upgrade(..) => Effect::Upgrade,
        Action::Fail(_) => Effect::Fail,
    }
}

/// The effect a release stands for.
pub open spec fn release_effect(r: Release) -> Effect {
    match r {
        Release::CancelDial => Effect::CancelDial,
        Release::Invalidate => Effect::Invalidate,
        Release::Nothing => Effect::Ignore,
    }
}

/// One request attempt: one dial, then at most one exchange or upgrade.
pub struct Attempt<B> {
    pub mode: Mode,
    pub stage: Stage,
    /// The head, held until it is handed to the connection.
    pub head: Option<RequestHeadType>,
    /// The body of an exchange, held until it is handed to the connection.
    pub body: Option<B>,
}

impl<B> Attempt<B> {
    /// While dialing, the attempt still holds its head, and a body exactly
    /// when it is an exchange.
    pub open spec fn wf(&self) -> bool {
        self.stage == Stage::Dialing ==> {
            &&& self.head.is_some()
            &&& self.body.is_some() == (self.mode == Mode::Send)
        }
    }

    fn start(mode: Mode, head: RequestHeadType, body: Option<B>, addr: Option<SocketAddress>) -> (r: (
        Connect,
        Attempt<B>,
    ))
        requires
            body.is_some() == (mode == Mode::Send),
        ensures
            uri_text(r.0.uri) == uri_text(head.head().uri),
            r.0.addr == addr,
            r.1.wf(),
            r.1.mode == mode,
            r.1.stage == Stage::Dialing,
            r.1.head == Some(head),
            r.1.body == body,
    {
        let uri = head.uri().clone();
        (Connect { uri, addr }, Attempt { mode, stage: Stage::Dialing, head: Some(head), body })
    }

    /// Starts an exchange with an owned head: the connector is to be asked
    /// for the head's target, at `addr` if given.
    pub fn send_request(head: RequestHead, body: B, addr: Option<SocketAddress>) -> (r: (
        Connect,
        Attempt<B>,
    ))
        ensures
            uri_text(r.0.uri) == uri_text(head.uri),
            r.0.addr == addr,
            r.1.wf(),
            r.1.mode == Mode::Send,
            r.1.stage == Stage::Dialing,
            r.1.head == Some(RequestHeadType::Owned(head)),
            r.1.body == Some(body),
    {
        Self::start(Mode::Send, RequestHeadType::Owned(head), Some(body), addr)
    }

    /// Starts an exchange with a shared head and an optional overlay of
    /// headers; the caller keeps its share of the head.
    pub fn send_request_extra(
        head: Rc<RequestHead>,
        extra_headers: Option<HeaderList>,
        body: B,
        addr: Option<SocketAddress>,
    ) -> (r: (Connect, Attempt<B>))
        ensures
            uri_text(r.0.uri) == uri_text(head.uri),
            r.0.addr == addr,
            r.1.wf(),
            r.1.mode == Mode::Send,
            r.1.stage == Stage::Dialing,
            r.1.head == Some(RequestHeadType::Shared(head, extra_headers)),
            r.1.body == Some(body),
    {
        Self::start(Mode::Send, RequestHeadType::Shared(head, extra_headers), Some(body), addr)
    }

    /// Reacts to the end of the dial. A connection gets the request, exactly
    /// as it was given; a failed dial ends the attempt with that error and no
    /// connection is ever asked for anything.
    pub fn on_dialed<C>(&mut self, dialed: Result<C, ConnectError>) -> (r: Action<C, B>)
        requires
            old(self).wf(),
            old(self).stage == Stage::Dialing,
        ensures
            final(self).wf(),
            final(self).mode == old(self).mode,
            (final(self).stage, effect_of(r)) == step(
                old(self).mode,
                Stage::Dialing,
                if dialed is Ok {
                    Signal::Dialed
                } else {
                    Signal::DialFailed
                },
            ),
            match dialed {
                Ok(c) => match old(self).mode {
                    Mode::Send => r == Action::Exchange(
                        c,
                        old(self).head.unwrap(),
                        old(self).body.unwrap(),
                    ),
                    Mode::Tunnel => r == Action::<C, B>::Upgrade(c, old(self).head.unwrap()),
                },
                Err(e) => r == Action::<C, B>::Fail(SendRequestError::Connect(e)),
            },
    {
        match dialed {
            Err(e) => {
                self.stage = Stage::Finished;
                Action::Fail(SendRequestError::Connect(e))
            },
            Ok(c) => {
                self.stage = Stage::Exchanging;
                let head = self.head.take().unwrap();
                match self.mode {
                    Mode::Send => {
                        let body = self.body.take().unwrap();
                        Action::Exchange(c, head, body)
                    },
                    Mode::Tunnel => Action::Upgrade(c, head),
                }
            },
        }
    }

    /// Reacts to the end of an exchange: the response is the head and body
    /// stream the connection returned, unchanged; a failure is wrapped as a
    /// failure after connecting.
    pub fn on_response<P>(&mut self, answer: Result<(ResponseHead, P), ExchangeError>) -> (r: Result<
        ClientResponse<P>,
        SendRequestError,
    >)
        requires
            old(self).stage == Stage::Exchanging,
            old(self).mode == Mode::Send,
        ensures
            final(self).wf(),
            final(self).mode == old(self).mode,
            (final(self).stage, if r is Ok {
                Effect::Deliver
            } else {
                Effect::Fail
            }) == step(
                old(self).mode,
                Stage::Exchanging,
                if answer is Ok {
                    Signal::Answered
                } else {
                    Signal::AnswerFailed
                },
            ),
            match answer {
                Ok((head, payload)) => r == Ok::<ClientResponse<P>, SendRequestError>(
                    (ClientResponse { head, payload }),
                ),
                Err(e) => r == Err::<ClientResponse<P>, SendRequestError>(SendRequestError::Send(e)),
            },
    {
        self.stage = Stage::Finished;
        match answer {
            Ok((head, payload)) => Ok(ClientResponse { head, payload }),
            Err(e) => Err(SendRequestError::Send(e)),
        }
    }

    /// Reacts to the end of an upgrade handshake: the response head and the
    /// transport are those the connection returned; a failure is wrapped as
    /// a failure after connecting.
    pub fn on_upgraded<T>(&mut self, answer: Result<(ResponseHead, T), ExchangeError>) -> (r: Result<
        (ResponseHead, T),
        SendRequestError,
    >)
        requires
            old(self).stage == Stage::Exchanging,
            old(self).mode == Mode::Tunnel,
        ensures
            final(self).wf(),
            final(self).mode == old(self).mode,
            (final(self).stage, if r is Ok {
                Effect::Deliver
            } else {
                Effect::Fail
            }) == step(
                old(self).mode,
                Stage::Exchanging,
                if answer is Ok {
                    Signal::Answered
                } else {
                    Signal::AnswerFailed
                },
            ),
            match answer {
                Ok(pair) => r == Ok::<(ResponseHead, T), SendRequestError>(pair),
                Err(e) => r == Err::<(ResponseHead, T), SendRequestError>(SendRequestError::Send(e)),
            },
    {
        self.stage = Stage::Finished;
        match answer {
            Ok(pair) => Ok(pair),
            Err(e) => Err(SendRequestError::Send(e)),
        }
    }

    /// The caller gives up on the attempt. A pending dial is cancelled; a
    /// connection that has the request is invalidated, never handed back as
    /// reusable; a finished attempt has nothing left to release.
    pub fn abandon(&mut self) -> (r: Release)
        ensures
            final(self).wf(),
            final(self).mode == old(self).mode,
            final(self).stage == Stage::Finished,
            (final(self).stage, release_effect(r)) == step(
                old(self).mode,
                old(self).stage,
                Signal::Abandoned,
            ),
            old(self).stage == Stage::Exchanging ==> r == Release::Invalidate,
    {
        let r = match self.stage {
            Stage::Dialing => Release::CancelDial,
            Stage::Exchanging => Release::Invalidate,
            Stage::Finished => Release::Nothing,
        };
        self.stage = Stage::Finished;
        r
    }
}

impl Attempt<()> {
    /// Starts an upgrade with an owned head: the connector is to be asked for
    /// the head's target, at `addr` if given.
    pub fn open_tunnel(head: RequestHead, addr: Option<SocketAddress>) -> (r: (Connect, Attempt<()>))
        ensures
            uri_text(r.0.uri) == uri_text(head.uri),
            r.0.addr == addr,
            r.1.wf(),
            r.1.mode == Mode::Tunnel,
            r.1.stage == Stage::Dialing,
            r.1.head == Some(RequestHeadType::Owned(head)),
            r.1.body == None::<()>,
    {
        Self::start(Mode::Tunnel, RequestHeadType::Owned(head), None, addr)
    }

    /// Starts an upgrade with a shared head and an optional overlay of
    /// headers; the caller keeps its share of the head.
    pub fn open_tunnel_extra(
        head: Rc<RequestHead>,
        extra_headers: Option<HeaderList>,
        addr: Option<SocketAddress>,
    ) -> (r: (Connect, Attempt<()>))
        ensures
            uri_text(r.0.uri) == uri_text(head.uri),
            r.0.addr == addr,
            r.1.wf(),
            r.1.mode == Mode::Tunnel,
            r.1.stage == Stage::Dialing,
            r.1.head == Some(RequestHeadType::Shared(head, extra_headers)),
            r.1.body == None::<()>,
    {
        Self::start(Mode::Tunnel, RequestHeadType::Shared(head, extra_headers), None, addr)
    }
}

/// Once the dial has completed, whatever happens, no request is put on a
/// connection again.
pub proof fn lemma_no_handoff_after_dial(mode: Mode, stage: Stage, signals: Seq<Signal>)
    requires
        stage != Stage::Dialing,
    ensures
        forall|i: int|
            0 <= i < run(mode, stage, signals).len() ==> !is_handoff(
                #[trigger] run(mode, stage, signals)[i],
            ),
    decreases signals.len(),
{
    if signals.len() > 0 {
        let (next, effect) = step(mode, stage, signals[0]);
        let rest = signals.subrange(1, signals.len() as int);
        lemma_no_handoff_after_dial(mode, next, rest);
        let r = run(mode, stage, signals);
        assert(r == seq![effect] + run(mode, next, rest));
        assert forall|i: int| 0 <= i < r.len() implies !is_handoff(#[trigger] r[i]) by {
            if i > 0 {
                assert(r[i] == run(mode, next, rest)[i - 1]);
            }
        }
    }
}

/// A failed dial ends the attempt: whatever events follow, neither an
/// exchange nor an upgrade is ever run.
pub proof fn lemma_dial_failure_never_hands_off(mode: Mode, later: Seq<Signal>)
    ensures
        forall|i: int|
            0 <= i < run(mode, Stage::Dialing, seq![Signal::DialFailed] + later).len()
                ==> !is_handoff(
                #[trigger] run(mode, Stage::Dialing, seq![Signal::DialFailed] + later)[i],
            ),
{
    let signals = seq![Signal::DialFailed] + later;
    assert(signals.subrange(1, signals.len() as int) =~= later);
    lemma_no_handoff_after_dial(mode, Stage::Finished, later);
    let r = run(mode, Stage::Dialing, signals);
    assert(r == seq![Effect::Fail] + run(mode, Stage::Finished, later));
    assert forall|i: int| 0 <= i < r.len() implies !is_handoff(#[trigger] r[i]) by {
        if i > 0 {
            assert(r[i] == run(mode, Stage::Finished, later)[i - 1]);
        }
    }
}

/// Whatever the events, an attempt puts its request on a connection at most
/// once.
pub proof fn lemma_at_most_one_handoff(mode: Mode, stage: Stage, signals: Seq<Signal>)
    ensures
        forall|i: int, j: int|
            0 <= i < j < run(mode, stage, signals).len() ==> !(is_handoff(
                #[trigger] run(mode, stage, signals)[i],
            ) && is_handoff(#[trigger] run(mode, stage, signals)[j])),
    decreases signals.len(),
{
    if signals.len() > 0 {
        let (next, effect) = step(mode, stage, signals[0]);
        let rest = signals.subrange(1, signals.len() as int);
        let r = run(mode, stage, signals);
        let t = run(mode, next, rest);
        assert(r == seq![effect] + t);
        lemma_at_most_one_handoff(mode, next, rest);
        if next != Stage::Dialing {
            lemma_no_handoff_after_dial(mode, next, rest);
        }
        assert forall|i: int, j: int|
            0 <= i < j < r.len() implies !(is_handoff(#[trigger] r[i]) && is_handoff(
                #[trigger] r[j],
            )) by {
            assert(r[j] == t[j - 1]);
            if i > 0 {
                assert(r[i] == t[i - 1]);
            }
        }
    }
}

/// An attempt abandoned while its connection holds the request, before any
/// answer, signals that the connection must be invalidated: the events in
/// between change nothing, and nothing is delivered.
pub proof fn lemma_abandon_in_flight_invalidates(mode: Mode, before: Seq<Signal>)
    requires
        forall|i: int|
            0 <= i < before.len() ==> (#[trigger] before[i] == Signal::Dialed || before[i]
                == Signal::DialFailed),
    ensures
        run(mode, Stage::Exchanging, before + seq![Signal::Abandoned]) == Seq::new(
            before.len(),
            |i: int| Effect::Ignore,
        ).push(Effect::Invalidate),
    decreases before.len(),
{
    let all = before + seq![Signal::Abandoned];
    let tail = all.subrange(1, all.len() as int);
    if before.len() == 0 {
        assert(all[0] == Signal::Abandoned);
        assert(tail =~= Seq::<Signal>::empty());
        assert(run(mode, Stage::Finished, tail) =~= Seq::<Effect>::empty());
        assert(run(mode, Stage::Exchanging, all) =~= seq![Effect::Invalidate]);
        assert(Seq::new(0, |i: int| Effect::Ignore).push(Effect::Invalidate) =~= seq![
            Effect::Invalidate,
        ]);
    } else {
        let rest = before.subrange(1, before.len() as int);
        assert(tail =~= rest + seq![Signal::Abandoned]);
        assert(all[0] == before[0]);
        lemma_abandon_in_flight_invalidates(mode, rest);
        assert(run(mode, Stage::Exchanging, all) =~= seq![Effect::Ignore] + run(
            mode,
            Stage::Exchanging,
            tail,
        ));
        assert(run(mode, Stage::Exchanging, all) =~= Seq::new(
            before.len(),
            |i: int| Effect::Ignore,
        ).push(Effect::Invalidate));
    }
}

/// An exchange with a shared head and an overlay carries the same headers as
/// one with an owned head whose headers are the overlay merged over the
/// shared head's; the shared head itself is left as it was.
pub proof fn lemma_overlay_matches_owned(
    owned: RequestHead,
    shared: Rc<RequestHead>,
    overlay: HeaderList,
)
    requires
        owned.headers@ == crate::headers::merged(shared.headers@, overlay@),
    ensures
        RequestHeadType::Owned(owned).effective() == RequestHeadType::Shared(
            shared,
            Some(overlay),
        ).effective(),
        RequestHeadType::Shared(shared, Some(overlay)).head() == *shared,
{
}

} // verus!
