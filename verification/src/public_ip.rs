//! The decisions of the public IP address lookup: ask `curl` first, then
//! query the web endpoints one after another until one answers with an
//! address.

use vstd::prelude::*;
use crate::text::{trim_text, trimmed};

verus! {

/// Seconds a web request of the lookup may take.
pub const LOOKUP_TIMEOUT_SECS: u64 = 5;
/// How many web endpoints the lookup may query.
pub const ENDPOINT_COUNT: usize = 4;

/// The web endpoints, in the order they are queried.
pub open spec fn endpoint_spec(i: int) -> Seq<char> {
    if i == 0 {
        "https://api.ipify.org"@
    } else if i == 1 {
        "https://ifconfig.me/ip"@
    } else if i == 2 {
        "https://icanhazip.com"@
    } else {
        "https://checkip.amazonaws.com"@
    }
}

/// The `i`-th web endpoint.
pub fn endpoint(i: usize) -> (r: &'static str)
    requires
        i < ENDPOINT_COUNT,
    ensures
        r@ == endpoint_spec(i as int),
{
    if i == 0 {
        "https://api.ipify.org"
    } else if i == 1 {
        "https://ifconfig.me/ip"
    } else if i == 2 {
        "https://icanhazip.com"
    } else {
        "https://checkip.amazonaws.com"
    }
}

/// Where the lookup stands.
#[derive(Debug, Clone, Copy, PartialEq, Eq, Structural)]
pub enum IpLookupPhase {
    /// Not started.
    Idle,
    /// `curl` was asked.
    Curl,
    /// The web client is being built.
    Client,
    /// The endpoint with this index was queried.
    Querying(usize),
    /// The lookup has its answer.
    Done,
}

/// What the runner observed after the lookup's last action.
pub enum IpLookupEvent {
    /// Begin the lookup.
    Start,
    /// `curl` could not be run.
    CurlFailed,
    /// `curl`'s output; `valid` tells whether the trimmed output parses as an IP address.
    CurlAnswer { text: String, valid: bool },
    /// The web client could not be built.
    ClientFailed,
    /// The web client is ready.
    ClientReady,
    /// The query failed.
    RequestFailed,
    /// The answer's body could not be read.
    BodyUnreadable,
    /// The answer's body; `valid` tells whether the trimmed body parses as an IP address.
    Answer { text: String, valid: bool },
}

/// What the runner does next.
pub enum IpLookupAction {
    /// Run `curl` against the first endpoint.
    RunCurl,
    /// Build the web client.
    BuildClient,
    /// Query this endpoint.
    Query { url: &'static str },
    /// The lookup is over, with the public address or without one.
    Finish { ip: Option<String> },
    /// The event does not fit the phase; nothing changes.
    Ignore,
}

/// `action` ends the lookup with the address `addr`.
pub open spec fn finishes_with(action: IpLookupAction, addr: Seq<char>) -> bool {
    action matches IpLookupAction::Finish { ip } && ip matches Some(a) && a@ == addr
}

/// `action` ends the lookup without an address.
pub open spec fn finishes_without(action: IpLookupAction) -> bool {
    action matches IpLookupAction::Finish { ip } && ip is None
}

/// `action` queries the endpoint `url`.
pub open spec fn queries(action: IpLookupAction, url: Seq<char>) -> bool {
    action matches IpLookupAction::Query { url: u } && u@ == url
}

/// After the endpoint `i` gave no address: the next endpoint, or the end
/// without an address after the last.
pub open spec fn after_endpoint(i: int, phase: IpLookupPhase, action: IpLookupAction) -> bool {
    if i + 1 < ENDPOINT_COUNT {
        phase == IpLookupPhase::Querying((i + 1) as usize) && queries(action, endpoint_spec(i + 1))
    } else {
        phase == IpLookupPhase::Done && finishes_without(action)
    }
}

/// The lookup's transitions: from `phase`, on `event`, to `next` with `action`.
pub open spec fn lookup_transition(phase: IpLookupPhase, event: IpLookupEvent, next: IpLookupPhase, action: IpLookupAction) -> bool {
    match (phase, event) {
        (IpLookupPhase::Idle, IpLookupEvent::Start) => next == IpLookupPhase::Curl && action is RunCurl,
        (IpLookupPhase::Curl, IpLookupEvent::CurlFailed) => next == IpLookupPhase::Client && action is BuildClient,
        (IpLookupPhase::Curl, IpLookupEvent::CurlAnswer { text, valid }) => if valid {
            next == IpLookupPhase::Done && finishes_with(action, trimmed(text@))
        } else {
            next == IpLookupPhase::Client && action is BuildClient
        },
        (IpLookupPhase::Client, IpLookupEvent::ClientFailed) => next == IpLookupPhase::Done
            && finishes_without(action),
        (IpLookupPhase::Client, IpLookupEvent::ClientReady) => next == IpLookupPhase::Querying(0)
            && queries(action, endpoint_spec(0)),
        (IpLookupPhase::Querying(i), IpLookupEvent::RequestFailed) => i < ENDPOINT_COUNT && after_endpoint(i as int, next, action),
        (IpLookupPhase::Querying(i), IpLookupEvent::BodyUnreadable) => i < ENDPOINT_COUNT && after_endpoint(i as int, next, action),
        (IpLookupPhase::Querying(i), IpLookupEvent::Answer { text, valid }) => i < ENDPOINT_COUNT && if valid
            && trimmed(text@).len() > 0 {
            next == IpLookupPhase::Done && finishes_with(action, trimmed(text@))
        } else {
            after_endpoint(i as int, next, action)
        },
        _ => next == phase && action is Ignore,
    }
}

/// How far the lookup is from its end: every step that is not ignored makes it smaller.
pub open spec fn lookup_distance(phase: IpLookupPhase) -> int {
    match phase {
        IpLookupPhase::Idle => 7,
        IpLookupPhase::Curl => 6,
        IpLookupPhase::Client => 5,
        IpLookupPhase::Querying(i) => 4 - i,
        IpLookupPhase::Done => 0,
    }
}

/// The public IP address lookup.
pub struct IpLookup {
    phase: IpLookupPhase,
}

impl IpLookup {
    /// The lookup's phase.
    pub closed spec fn phase_spec(&self) -> IpLookupPhase {
        self.phase
    }

    /// A phase the lookup can be in.
    pub open spec fn reachable(phase: IpLookupPhase) -> bool {
        phase matches IpLookupPhase::Querying(i) ==> i < ENDPOINT_COUNT
    }

    #[verifier::type_invariant]
    spec fn phase_is_reachable(self) -> bool {
        Self::reachable(self.phase)
    }

    /// A lookup that has not started.
    pub fn new() -> (r: IpLookup)
        ensures
            r.phase_spec() == IpLookupPhase::Idle,
    {
        IpLookup { phase: IpLookupPhase::Idle }
    }

    /// The lookup's phase.
    pub fn phase(&self) -> (r: IpLookupPhase)
        ensures
            r == self.phase_spec(),
    {
        self.phase
    }

    fn next_endpoint(i: usize) -> (r: (IpLookupPhase, IpLookupAction))
        requires
            i < ENDPOINT_COUNT,
        ensures
            after_endpoint(i as int, r.0, r.1),
            Self::reachable(r.0),
    {
        if i + 1 < ENDPOINT_COUNT {
            (IpLookupPhase::Querying(i + 1), IpLookupAction::Query { url: endpoint(i + 1) })
        } else {
            (IpLookupPhase::Done, IpLookupAction::Finish { ip: None })
        }
    }

    /// Takes in what the runner observed and says what it does next.
    pub fn step(&mut self, event: IpLookupEvent) -> (r: IpLookupAction)
        ensures
            lookup_transition(old(self).phase_spec(), event, final(self).phase_spec(), r),
            Self::reachable(final(self).phase_spec()),
    {
        proof {
            use_type_invariant(&*self);
        }
        let phase = self.phase;
        let (next, action) = match (phase, event) {
            (IpLookupPhase::Idle, IpLookupEvent::Start) => (IpLookupPhase::Curl, IpLookupAction::RunCurl),
            (IpLookupPhase::Curl, IpLookupEvent::CurlFailed) => (IpLookupPhase::Client, IpLookupAction::BuildClient),
            (IpLookupPhase::Curl, IpLookupEvent::CurlAnswer { text, valid }) => if valid {
                (IpLookupPhase::Done, IpLookupAction::Finish { ip: Some(trim_text(text.as_str())) })
            } else {
                (IpLookupPhase::Client, IpLookupAction::BuildClient)
            },
            (IpLookupPhase::Client, IpLookupEvent::ClientFailed) => (IpLookupPhase::Done, IpLookupAction::Finish { ip: None }),
            (IpLookupPhase::Client, IpLookupEvent::ClientReady) => (
                IpLookupPhase::Querying(0),
                IpLookupAction::Query { url: endpoint(0) },
            ),
            (IpLookupPhase::Querying(i), IpLookupEvent::RequestFailed) => Self::next_endpoint(i),
            (IpLookupPhase::Querying(i), IpLookupEvent::BodyUnreadable) => Self::next_endpoint(i),
            (IpLookupPhase::Querying(i), IpLookupEvent::Answer { text, valid }) => {
                let ip = trim_text(text.as_str());
                if valid && ip.unicode_len() > 0 {
                    (IpLookupPhase::Done, IpLookupAction::Finish { ip: Some(ip) })
                } else {
                    Self::next_endpoint(i)
                }
            },
            _ => (phase, IpLookupAction::Ignore),
        };
        self.phase = next;
        action
    }
}

/// Every step of the lookup that is not ignored brings it closer to its end,
/// so a lookup takes at most seven steps: curl, the client and the four
/// endpoints, in that order.
pub proof fn lookup_progresses(phase: IpLookupPhase, event: IpLookupEvent, next: IpLookupPhase, action: IpLookupAction)
    requires
        IpLookup::reachable(phase),
        lookup_transition(phase, event, next, action),
        !(action is Ignore),
    ensures
        0 <= lookup_distance(next) < lookup_distance(phase),
{
}

/// The lookup only ever ends with an address taken from an answer that was
/// reported valid, trimmed of surrounding whitespace.
pub proof fn lookup_answers_only_valid_addresses(phase: IpLookupPhase, event: IpLookupEvent, next: IpLookupPhase, action: IpLookupAction)
    requires
        lookup_transition(phase, event, next, action),
        action matches IpLookupAction::Finish { ip } && ip is Some,
    ensures
        match event {
            IpLookupEvent::CurlAnswer { text, valid } => valid && finishes_with(action, trimmed(text@)),
            IpLookupEvent::Answer { text, valid } => valid && finishes_with(action, trimmed(text@))
                && trimmed(text@).len() > 0,
            _ => false,
        },
{
}

} // verus!

verus! {

/// A valid, non-empty answer from any endpoint ends the lookup with that
/// answer, trimmed; and the lookup only ends without an address once the
/// client could not be built or the last endpoint gave nothing.
pub proof fn lookup_keeps_first_valid_answer(
    phase: IpLookupPhase,
    event: IpLookupEvent,
    next: IpLookupPhase,
    action: IpLookupAction,
)
    requires
        IpLookup::reachable(phase),
        lookup_transition(phase, event, next, action),
    ensures
        event matches IpLookupEvent::Answer { text, valid } ==> (phase is Querying && valid
            && trimmed(text@).len() > 0 ==> next == IpLookupPhase::Done && (action matches IpLookupAction::Finish {
            ip } && ip matches Some(a) && a@ == trimmed(text@))),
        event matches IpLookupEvent::CurlAnswer { text, valid } ==> (phase == IpLookupPhase::Curl && valid
            ==> (action matches IpLookupAction::Finish { ip } && ip matches Some(a) && a@ == trimmed(text@))),
        action matches IpLookupAction::Finish { ip } && ip is None ==> (phase == IpLookupPhase::Client
            && event is ClientFailed) || phase == IpLookupPhase::Querying((ENDPOINT_COUNT - 1) as usize),
        action matches IpLookupAction::Query { url } ==> (phase == IpLookupPhase::Client && next
            == IpLookupPhase::Querying(0) && url@ == endpoint_spec(0)) || (phase matches IpLookupPhase::Querying(
            i,
        ) && next == IpLookupPhase::Querying((i + 1) as usize) && url@ == endpoint_spec(i + 1)),
        phase == IpLookupPhase::Curl && event is CurlFailed ==> action is BuildClient,
{
}

} // verus!
