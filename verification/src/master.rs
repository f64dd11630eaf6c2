//! The server's entry in the master server's listing, master-connection
//! trouble in the server's output, and the decisions of the wait for the
//! master server to drop a stale registration.

use vstd::prelude::*;
use crate::pattern::{
    compile_regex, regex_all_captures, regex_capture_all, regex_capture_group,
    regex_compiles, regex_first_group, regex_is_match, regex_matches, compiled_from, require_compiled,
    PatternError,
};
use crate::text::{contains_seq, contains_text, decimal, occurs_at, u16_to_decimal};

verus! {

/// A listing entry `"<address>:<port>": { ... }`; group 1 is the address with
/// its port, group 2 the body between the braces.
pub const SERVER_ENTRY_PATTERN: &'static str = r#""([^"]+:\d+)"\s*:\s*\{([\s\S]*?)\}"#;
/// A field `"hostname": "<name>"`; group 1 is the name.
pub const HOSTNAME_FIELD_PATTERN: &'static str = r#""hostname"\s*:\s*"([^"]+)""#;
/// Output lines that report trouble reaching or registering with the master server.
pub const MASTER_TIMEOUT_PATTERN: &'static str = r"(?i)(cannot connect to master|master.*timed?|master.*timeout|stale.*port|incorrect.*ip|nat.*issue)";
/// Where the master server publishes its listing.
pub const MASTER_LIST_URL: &'static str = "http://master.tes3mp.com:8081/api/servers";
/// Seconds between two polls of the master server.
pub const MASTER_POLL_INTERVAL_SECS: u64 = 2;
/// Seconds a request to the master server may take.
pub const MASTER_REQUEST_TIMEOUT_SECS: u64 = 5;

/// Group `i` of one match's captures, `None` when it did not take part.
pub open spec fn group_of(caps: Seq<Option<Seq<char>>>, i: int) -> Option<Seq<char>> {
    if 0 <= i < caps.len() {
        caps[i]
    } else {
        None
    }
}

/// The address the master server lists the server under: `<ip>:<port>`.
pub open spec fn server_address(public_ip: Seq<char>, port: u16) -> Seq<char> {
    public_ip + seq![':'] + decimal(port as nat)
}

/// The suffix `:<port>` that a correctly registered address carries.
pub open spec fn port_suffix(port: u16) -> Seq<char> {
    seq![':'] + decimal(port as nat)
}

/// The first listing entry, from `entries[from]` on, whose address is
/// `target`: its address and body. The search gives up (nothing found) at an
/// entry lacking an address or a body.
pub open spec fn select_entry(entries: Seq<Seq<Option<Seq<char>>>>, from: int, target: Seq<char>) -> Option<(Seq<char>, Seq<char>)>
    decreases entries.len() - from,
{
    if from < 0 || from >= entries.len() {
        None
    } else {
        match group_of(entries[from], 1) {
            None => None,
            Some(addr) => match group_of(entries[from], 2) {
                None => None,
                Some(body) => if addr != target {
                    select_entry(entries, from + 1, target)
                } else {
                    Some((addr, body))
                },
            },
        }
    }
}

/// The server's registration in a master listing: the address and body of
/// its entry, with the hostname the body names; nothing when there is no
/// such entry or its body names no hostname.
pub open spec fn found_server(listing: Seq<char>, public_ip: Seq<char>, port: u16) -> Option<(Seq<char>, Seq<char>)> {
    match select_entry(regex_all_captures(SERVER_ENTRY_PATTERN@, listing), 0, server_address(public_ip, port)) {
        None => None,
        Some((addr, body)) => match regex_first_group(HOSTNAME_FIELD_PATTERN@, body, 1) {
            None => None,
            Some(h) => Some((addr, h)),
        },
    }
}

/// The first listing entry whose address is `target`, as address and body
/// (see `select_entry`), from the captures of the listing's entries.
pub fn select_server_entry(entries: &Vec<Vec<Option<String>>>, target: &str) -> (r: Option<(String, String)>)
    ensures
        r.deep_view() == select_entry(entries.deep_view(), 0, target@),
{
    let ghost all = entries.deep_view();
    let wanted = String::from_str(target);
    let mut i: usize = 0;
    while i < entries.len()
        invariant
            0 <= i <= entries.len(),
            all == entries.deep_view(),
            wanted@ == target@,
            select_entry(all, i as int, target@) == select_entry(all, 0, target@),
        decreases entries.len() - i,
    {
        let caps = &entries[i];
        assert(caps.deep_view() == all[i as int]);
        if caps.len() <= 1 {
            return None;
        }
        let addr = match &caps[1] {
            Some(a) => a,
            None => {
                return None;
            },
        };
        assert(addr@ == all[i as int][1].unwrap());
        if caps.len() <= 2 {
            return None;
        }
        let server_body = match &caps[2] {
            Some(b) => b,
            None => {
                return None;
            },
        };
        assert(server_body@ == all[i as int][2].unwrap());
        if *addr != wanted {
            i = i + 1;
        } else {
            return Some((addr.clone(), server_body.clone()));
        }
    }
    None
}

/// The server's address `<ip>:<port>`, as `format!("{}:{}", ip, port)` gives it.
pub fn format_server_address(public_ip: &str, port: u16) -> (r: String)
    ensures
        r@ == server_address(public_ip@, port),
{
    let mut out = String::from_str(public_ip);
    out.append(":");
    let digits = u16_to_decimal(port);
    out.append(digits.as_str());
    proof {
        reveal_strlit(":");
    }
    out
}

/// The notice worth giving when the server is bound to a wildcard or
/// loopback address: the master server will see the public address instead.
/// Other local addresses give no notice.
pub open spec fn nat_notice(local_address: Seq<char>, public_ip: Seq<char>, port: u16) -> Option<Seq<char>> {
    if local_address == "0.0.0.0"@ || local_address == "127.0.0.1"@ {
        Some("Server bound to "@ + local_address + " - master server will see "@ + server_address(public_ip, port))
    } else {
        None
    }
}

/// The notice about how the master server sees a server bound to
/// `local_address` (see `nat_notice`).
pub fn check_nat_issue(local_address: &str, public_ip: &str, port: u16) -> (r: Option<String>)
    ensures
        r.deep_view() == nat_notice(local_address@, public_ip@, port),
{
    let local = String::from_str(local_address);
    let any = String::from_str("0.0.0.0");
    let loopback = String::from_str("127.0.0.1");
    if local == any || local == loopback {
        let mut msg = String::from_str("Server bound to ");
        msg.append(local_address);
        msg.append(" - master server will see ");
        let address = format_server_address(public_ip, port);
        msg.append(address.as_str());
        Some(msg)
    } else {
        None
    }
}

/// One poll's outcome, as the supervising loop observes it.
pub enum MasterPollEvent {
    /// The request could not be sent or got no response.
    RequestFailed,
    /// A response arrived with this HTTP status.
    Status(u16),
    /// The response body could not be read.
    BodyUnreadable,
    /// The response body.
    Body(String),
}

/// What the supervising loop does next.
pub enum MasterPollAction {
    /// Sleep for the poll interval and poll again.
    Retry,
    /// Read the response body.
    ReadBody,
    /// The master lists the server under a wrong port: sleep and poll again.
    WrongPortRetry { address: String, hostname: String },
    /// The master lists the server correctly: stop waiting.
    RegistrationOk { address: String, hostname: String },
    /// The master does not list the server: stop waiting.
    NoRegistration,
}

/// The compiled listing and output patterns.
pub struct MasterPatterns {
    server_entry: regex::Regex,
    hostname_field: regex::Regex,
    master_timeout: regex::Regex,
}

impl MasterPatterns {
    #[verifier::type_invariant]
    spec fn compiled_from_patterns(self) -> bool {
        &&& compiled_from(self.server_entry, SERVER_ENTRY_PATTERN@)
        &&& compiled_from(self.hostname_field, HOSTNAME_FIELD_PATTERN@)
        &&& compiled_from(self.master_timeout, MASTER_TIMEOUT_PATTERN@)
    }

    /// Compiles the listing and output patterns.
    pub fn new() -> (r: Result<MasterPatterns, PatternError>)
        ensures
            r is Ok <==> regex_compiles(SERVER_ENTRY_PATTERN@) && regex_compiles(HOSTNAME_FIELD_PATTERN@)
                && regex_compiles(MASTER_TIMEOUT_PATTERN@),
            r matches Err(e) ==> e.pattern@ == SERVER_ENTRY_PATTERN@ || e.pattern@
                == HOSTNAME_FIELD_PATTERN@ || e.pattern@ == MASTER_TIMEOUT_PATTERN@,
    {
        let server_entry = compile_regex(SERVER_ENTRY_PATTERN);
        let hostname_field = compile_regex(HOSTNAME_FIELD_PATTERN);
        let master_timeout = compile_regex(MASTER_TIMEOUT_PATTERN);
        Self::from_compiled(server_entry, hostname_field, master_timeout)
    }

    /// Builds the pattern set from the outcome of compiling the three
    /// patterns; failures are reported in the order entry, hostname, timeout.
    pub(crate) fn from_compiled(
        server_entry: Result<regex::Regex, regex::Error>,
        hostname_field: Result<regex::Regex, regex::Error>,
        master_timeout: Result<regex::Regex, regex::Error>,
    ) -> (r: Result<MasterPatterns, PatternError>)
        requires
            server_entry matches Ok(re) ==> compiled_from(re, SERVER_ENTRY_PATTERN@),
            hostname_field matches Ok(re) ==> compiled_from(re, HOSTNAME_FIELD_PATTERN@),
            master_timeout matches Ok(re) ==> compiled_from(re, MASTER_TIMEOUT_PATTERN@),
        ensures
            r is Ok <==> (server_entry is Ok && hostname_field is Ok && master_timeout is Ok),
            server_entry is Err ==> (r matches Err(e) && e.pattern@ == SERVER_ENTRY_PATTERN@),
            server_entry is Ok && hostname_field is Err ==> (r matches Err(e) && e.pattern@
                == HOSTNAME_FIELD_PATTERN@),
            server_entry is Ok && hostname_field is Ok && master_timeout is Err ==> (r matches Err(
                e,
            ) && e.pattern@ == MASTER_TIMEOUT_PATTERN@),
    {
        let server_entry = match require_compiled(server_entry, SERVER_ENTRY_PATTERN) {
            Ok(re) => re,
            Err(e) => return Err(e),
        };
        let hostname_field = match require_compiled(hostname_field, HOSTNAME_FIELD_PATTERN) {
            Ok(re) => re,
            Err(e) => return Err(e),
        };
        let master_timeout = match require_compiled(master_timeout, MASTER_TIMEOUT_PATTERN) {
            Ok(re) => re,
            Err(e) => return Err(e),
        };
        Ok(MasterPatterns { server_entry, hostname_field, master_timeout })
    }

    /// Whether an output line reports trouble with the master server.
    pub fn check_master_timeout(&self, line: &str) -> (r: bool)
        ensures
            r == regex_is_match(MASTER_TIMEOUT_PATTERN@, line@),
    {
        proof {
            use_type_invariant(self);
        }
        regex_matches(&self.master_timeout, line)
    }

    /// The server's entry in a master listing: its listed address and
    /// hostname (see `found_server`).
    pub fn find_our_server(&self, body: &str, public_ip: &str, port: u16) -> (r: Option<(String, String)>)
        ensures
            r.deep_view() == found_server(body@, public_ip@, port),
    {
        proof {
            use_type_invariant(self);
        }
        let target = format_server_address(public_ip, port);
        let entries = regex_capture_all(&self.server_entry, body);
        match select_server_entry(&entries, target.as_str()) {
            None => None,
            Some((address, server_body)) => {
                let hostname = regex_capture_group(&self.hostname_field, server_body.as_str(), 1);
                match hostname {
                    Some(h) => Some((address, h)),
                    None => None,
                }
            },
        }
    }

    /// The next step of the wait for the master server to drop a stale
    /// registration, after `event`.
    pub fn master_poll_step(&self, event: MasterPollEvent, public_ip: &str, port: u16) -> (r: MasterPollAction)
        ensures
            match event {
                MasterPollEvent::RequestFailed => r is Retry,
                MasterPollEvent::Status(code) => if code == 200 {
                    r is ReadBody
                } else {
                    r is Retry
                },
                MasterPollEvent::BodyUnreadable => r is Retry,
                MasterPollEvent::Body(body) => match found_server(body@, public_ip@, port) {
                    None => r is NoRegistration,
                    Some((a, h)) => if contains_seq(a, port_suffix(port)) {
                        r matches MasterPollAction::RegistrationOk { address, hostname } && address@ == a
                            && hostname@ == h
                    } else {
                        r matches MasterPollAction::WrongPortRetry { address, hostname } && address@ == a
                            && hostname@ == h
                    },
                },
            },
    {
        match event {
            MasterPollEvent::RequestFailed => MasterPollAction::Retry,
            MasterPollEvent::Status(code) => if code == 200 {
                MasterPollAction::ReadBody
            } else {
                MasterPollAction::Retry
            },
            MasterPollEvent::BodyUnreadable => MasterPollAction::Retry,
            MasterPollEvent::Body(body) => match self.find_our_server(body.as_str(), public_ip, port) {
                None => MasterPollAction::NoRegistration,
                Some((address, hostname)) => {
                    let mut suffix = String::from_str(":");
                    let digits = u16_to_decimal(port);
                    suffix.append(digits.as_str());
                    proof {
                        reveal_strlit(":");
                    }
                    assert(suffix@ == port_suffix(port));
                    if contains_text(address.as_str(), suffix.as_str()) {
                        MasterPollAction::RegistrationOk { address, hostname }
                    } else {
                        MasterPollAction::WrongPortRetry { address, hostname }
                    }
                },
            },
        }
    }
}

} // verus!

verus! {

proof fn select_finds_only_target(entries: Seq<Seq<Option<Seq<char>>>>, from: int, target: Seq<char>)
    ensures
        select_entry(entries, from, target) matches Some((a, _)) ==> a == target,
    decreases entries.len() - from,
{
    if 0 <= from < entries.len() {
        select_finds_only_target(entries, from + 1, target);
    }
}

/// The server's registration is only ever taken from a listing entry whose
/// address is exactly `<ip>:<port>`, and such an address always carries the
/// `:<port>` suffix: a listing that was received never leads to a wrong-port
/// retry.
pub proof fn found_registration_has_requested_port(listing: Seq<char>, public_ip: Seq<char>, port: u16)
    ensures
        found_server(listing, public_ip, port) matches Some((a, _)) ==> a == server_address(
            public_ip,
            port,
        ) && contains_seq(a, port_suffix(port)),
{
    let target = server_address(public_ip, port);
    select_finds_only_target(regex_all_captures(SERVER_ENTRY_PATTERN@, listing), 0, target);
    let suffix = port_suffix(port);
    assert(target == public_ip + suffix);
    assert(target.subrange(public_ip.len() as int, (public_ip.len() + suffix.len()) as int) =~= suffix);
    assert(occurs_at(target, suffix, public_ip.len() as int));
}

} // verus!

verus! {

proof fn select_entry_reaches(
    entries: Seq<Seq<Option<Seq<char>>>>,
    from: int,
    k: int,
    target: Seq<char>,
    body: Seq<char>,
)
    requires
        0 <= from <= k < entries.len(),
        group_of(entries[k], 1) == Some(target),
        group_of(entries[k], 2) == Some(body),
        forall|j: int|
            from <= j < k ==> (#[trigger] group_of(entries[j], 1)) is Some && group_of(entries[j], 2) is Some
                && group_of(entries[j], 1) != Some(target),
    ensures
        select_entry(entries, from, target) == Some((target, body)),
    decreases k - from,
{
    if from < k {
        assert(group_of(entries[from], 1) is Some);
        select_entry_reaches(entries, from + 1, k, target, body);
    }
}

/// The search looks through the whole listing: when entry `k`, at any
/// position, is listed under `<ip>:<port>` with a body naming a hostname,
/// and every entry before it has an address and a body and is listed under
/// another address, the registration found is that address and hostname.
pub proof fn registration_found_at_any_position(
    listing: Seq<char>,
    public_ip: Seq<char>,
    port: u16,
    k: int,
    body: Seq<char>,
    hostname: Seq<char>,
)
    requires
        0 <= k < regex_all_captures(SERVER_ENTRY_PATTERN@, listing).len(),
        group_of(regex_all_captures(SERVER_ENTRY_PATTERN@, listing)[k], 1) == Some(
            server_address(public_ip, port),
        ),
        group_of(regex_all_captures(SERVER_ENTRY_PATTERN@, listing)[k], 2) == Some(body),
        regex_first_group(HOSTNAME_FIELD_PATTERN@, body, 1) == Some(hostname),
        forall|j: int|
            0 <= j < k ==> (#[trigger] group_of(regex_all_captures(SERVER_ENTRY_PATTERN@, listing)[j], 1)) is Some
                && group_of(regex_all_captures(SERVER_ENTRY_PATTERN@, listing)[j], 2) is Some && group_of(
                regex_all_captures(SERVER_ENTRY_PATTERN@, listing)[j],
                1,
            ) != Some(server_address(public_ip, port)),
    ensures
        found_server(listing, public_ip, port) == Some((server_address(public_ip, port), hostname)),
{
    let entries = regex_all_captures(SERVER_ENTRY_PATTERN@, listing);
    select_entry_reaches(entries, 0, k, server_address(public_ip, port), body);
}

} // verus!
