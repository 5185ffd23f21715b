//! The connection manager's decision core.
//!
//! The manager owns at most one live transport session and offers two
//! operations: `request`, which sends a message and — for the kinds that
//! define a reply — waits for exactly one, recovering the session once on
//! any transport failure; and fire-and-forget notification, which never
//! recovers.  The transport itself lives outside the library; what is
//! verified here is the policy: which kinds expect a reply, which are too
//! frequent to log, where the configured address comes from, and the exact
//! retry discipline of one `request`, modelled as the `RequestFlow` state
//! machine that the outer loop drives with the outcome of each outside
//! step.

use vstd::prelude::*;

use crate::protocol::{ChuniMessage, MsgModel};

verus! {

/// The transport address used when no override is configured.
pub const DEFAULT_SOCKET_PATH: &'static str = "/tmp/chuniio_proxy.sock";

/// The view of the default transport address.
pub open spec fn spec_default_socket_path() -> Seq<char> {
    DEFAULT_SOCKET_PATH@
}

/// Picks the transport address: a non-empty configured override wins,
/// anything else falls back to the default path.
pub fn resolve_socket_path(override_path: Option<String>) -> (r: String)
    ensures
        (match override_path {
            Some(p) => if p@.len() > 0 {
                r@ == p@
            } else {
                r@ == spec_default_socket_path()
            },
            None => r@ == spec_default_socket_path(),
        }),
{
    match override_path {
        Some(p) => {
            if p.as_str().is_empty() {
                DEFAULT_SOCKET_PATH.to_owned()
            } else {
                p
            }
        },
        None => DEFAULT_SOCKET_PATH.to_owned(),
    }
}

/// The message kinds whose exchange waits for exactly one reply.
pub open spec fn spec_expects_reply(m: MsgModel) -> bool {
    ||| m is JvsPoll
    ||| m is CoinCounterRead
    ||| m is SliderStateRead
    ||| m is Ping
    ||| m is JvsFullStateRead
}

/// Decides whether an exchange of this message waits for a reply.
pub fn expects_response(m: &ChuniMessage) -> (r: bool)
    ensures
        r == spec_expects_reply(m@),
{
    match m {
        ChuniMessage::JvsPoll => true,
        ChuniMessage::CoinCounterRead => true,
        ChuniMessage::SliderStateRead => true,
        ChuniMessage::Ping => true,
        ChuniMessage::JvsFullStateRead => true,
        _ => false,
    }
}

/// The message kinds sent at polling rates, which are kept out of default
/// informational tracing so the log is not overwhelmed.
pub open spec fn spec_high_frequency(m: MsgModel) -> bool {
    ||| m is JvsPoll
    ||| m is CoinCounterRead
    ||| m is SliderStateRead
    ||| m is Ping
}

/// Decides whether this message is too frequent for informational logging.
pub fn is_high_frequency(m: &ChuniMessage) -> (r: bool)
    ensures
        r == spec_high_frequency(m@),
{
    match m {
        ChuniMessage::JvsPoll => true,
        ChuniMessage::CoinCounterRead => true,
        ChuniMessage::SliderStateRead => true,
        ChuniMessage::Ping => true,
        _ => false,
    }
}

/// Where one `request` stands in its send / recover / retry discipline.
#[derive(Debug, Clone, Copy, PartialEq, Eq, Structural)]
pub enum ReqPhase {
    /// About to attempt the exchange on the current session.
    FirstTry,
    /// The first attempt failed; a reconnect is owed.
    Recovering,
    /// The session was recovered; the one retry is owed.
    RetryTry,
    /// The request is settled; the reply (or none) is final.
    Done,
}

/// What the loop driving a `request` must do next.
#[derive(Debug, Clone, Copy, PartialEq, Eq, Structural)]
pub enum ReqAction {
    /// Send the message on the current session and collect the outcome.
    Exchange,
    /// Close any current session and open a fresh one.
    Reconnect,
    /// Hand the settled reply to the caller.
    Finish,
}

/// How one attempted exchange ended.
#[derive(Debug, Clone, PartialEq)]
pub enum ExchangeOutcome {
    /// The send went through; the payload is the decoded reply, or `None`
    /// for the kinds that define no reply.
    Delivered(Option<ChuniMessage>),
    /// The send failed, the receive failed, or the reply did not decode.
    TransportFailed,
}

/// The state machine of one `request`: at most one reconnect, at most one
/// retry, and a settled reply for the caller whatever the transport did.
#[derive(Debug, Clone, PartialEq)]
pub struct RequestFlow {
    /// Where the request stands.
    pub phase: ReqPhase,
    /// How many reconnects were attempted so far.
    pub reconnects: u8,
    /// The reply owed to the caller once the phase is `Done`.
    pub reply: Option<ChuniMessage>,
}

impl RequestFlow {
    /// The flow never reconnects twice, and carries a reply only once done.
    pub open spec fn wf(self) -> bool {
        &&& self.reconnects <= 1
        &&& (self.phase is FirstTry ==> self.reconnects == 0 && self.reply is None)
        &&& (self.phase is Recovering ==> self.reconnects == 0 && self.reply is None)
        &&& (self.phase is RetryTry ==> self.reconnects == 1 && self.reply is None)
    }

    /// The starting state: the first attempt is owed, nothing has happened.
    pub open spec fn spec_init() -> RequestFlow {
        RequestFlow { phase: ReqPhase::FirstTry, reconnects: 0, reply: None }
    }

    /// Where an exchange outcome takes the flow: a delivered exchange
    /// settles the request with its payload; a transport failure on the
    /// first attempt asks for recovery, and on the retry settles the
    /// request with no reply.
    pub open spec fn spec_on_exchange(self, out: ExchangeOutcome) -> RequestFlow {
        match out {
            ExchangeOutcome::Delivered(reply) => RequestFlow {
                phase: ReqPhase::Done,
                reconnects: self.reconnects,
                reply,
            },
            ExchangeOutcome::TransportFailed => {
                if self.phase is FirstTry {
                    RequestFlow {
                        phase: ReqPhase::Recovering,
                        reconnects: self.reconnects,
                        reply: None,
                    }
                } else {
                    RequestFlow { phase: ReqPhase::Done, reconnects: self.reconnects, reply: None }
                }
            },
        }
    }

    /// Where a reconnect outcome takes the flow: success earns the one
    /// retry, failure settles the request with no reply.  Either way the
    /// reconnect is counted.
    pub open spec fn spec_on_reconnect(self, ok: bool) -> RequestFlow {
        RequestFlow {
            phase: if ok {
                ReqPhase::RetryTry
            } else {
                ReqPhase::Done
            },
            reconnects: (self.reconnects + 1) as u8,
            reply: None,
        }
    }

    /// Starts the discipline of one `request`.
    pub fn new() -> (f: RequestFlow)
        ensures
            f == RequestFlow::spec_init(),
            f.wf(),
    {
        RequestFlow { phase: ReqPhase::FirstTry, reconnects: 0, reply: None }
    }

    /// Tells the driving loop what to do next.
    pub fn next_action(&self) -> (a: ReqAction)
        ensures
            a is Exchange <==> (self.phase is FirstTry || self.phase is RetryTry),
            a is Reconnect <==> self.phase is Recovering,
            a is Finish <==> self.phase is Done,
    {
        match self.phase {
            ReqPhase::FirstTry => ReqAction::Exchange,
            ReqPhase::RetryTry => ReqAction::Exchange,
            ReqPhase::Recovering => ReqAction::Reconnect,
            ReqPhase::Done => ReqAction::Finish,
        }
    }

    /// Feeds the flow the outcome of the exchange it asked for.
    pub fn on_exchange(&mut self, out: ExchangeOutcome)
        requires
            old(self).wf(),
            old(self).phase is FirstTry || old(self).phase is RetryTry,
        ensures
            *final(self) == old(self).spec_on_exchange(out),
            final(self).wf(),
    {
        match out {
            ExchangeOutcome::Delivered(reply) => {
                self.phase = ReqPhase::Done;
                self.reply = reply;
            },
            ExchangeOutcome::TransportFailed => {
                if matches!(self.phase, ReqPhase::FirstTry) {
                    self.phase = ReqPhase::Recovering;
                } else {
                    self.phase = ReqPhase::Done;
                    self.reply = None;
                }
            },
        }
    }

    /// Feeds the flow the outcome of the reconnect it asked for.
    pub fn on_reconnect(&mut self, ok: bool)
        requires
            old(self).wf(),
            old(self).phase is Recovering,
        ensures
            *final(self) == old(self).spec_on_reconnect(ok),
            final(self).wf(),
    {
        self.reconnects = self.reconnects + 1;
        if ok {
            self.phase = ReqPhase::RetryTry;
        } else {
            self.phase = ReqPhase::Done;
            self.reply = None;
        }
    }

    /// Hands the settled reply to the caller.
    pub fn into_reply(self) -> (r: Option<ChuniMessage>)
        requires
            self.phase is Done,
        ensures
            r == self.reply,
    {
        self.reply
    }
}

/// Recovery retry: when the first attempt fails, the reconnect succeeds
/// and the retried exchange delivers a reply, the request settles on that
/// reply — not on "no response" — and exactly one reconnect was made.
pub proof fn lemma_recovery_retry(reply: ChuniMessage)
    ensures
        ({
            let f = RequestFlow::spec_init().spec_on_exchange(
                ExchangeOutcome::TransportFailed,
            ).spec_on_reconnect(true).spec_on_exchange(
                ExchangeOutcome::Delivered(Some(reply)),
            );
            &&& f.phase is Done
            &&& f.reply == Some(reply)
            &&& f.reconnects == 1
        }),
{
}

/// Recovery exhaustion: when the first attempt fails and the reconnect
/// fails too, the request settles on "no response" — it neither retries
/// nor reconnects again.
pub proof fn lemma_recovery_exhausted()
    ensures
        ({
            let f = RequestFlow::spec_init().spec_on_exchange(
                ExchangeOutcome::TransportFailed,
            ).spec_on_reconnect(false);
            &&& f.phase is Done
            &&& f.reply is None
            &&& f.reconnects == 1
        }),
{
}

/// An undisturbed exchange never reconnects: a delivered first attempt
/// settles the request at once with its payload.
pub proof fn lemma_first_try_settles(reply: Option<ChuniMessage>)
    ensures
        ({
            let f = RequestFlow::spec_init().spec_on_exchange(ExchangeOutcome::Delivered(reply));
            &&& f.phase is Done
            &&& f.reply == reply
            &&& f.reconnects == 0
        }),
{
}

} // verus!
