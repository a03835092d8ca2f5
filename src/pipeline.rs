//! The request pipeline: from the raw path segment to a response summary,
//! with every failure mapped to a status and a partially filled summary.

use crate::address::{is_address_text, normalize, normalized};
use crate::member_set::MemberSet;
use vstd::prelude::*;

verus! {

/// The status of a response.
#[derive(Clone, Copy, Debug, PartialEq, Eq, Structural)]
pub enum Status {
    Success,
    BadRequest,
    InternalServerError,
}

impl Status {
    pub open spec fn spec_code(self) -> u16 {
        match self {
            Status::Success => 200,
            Status::BadRequest => 400,
            Status::InternalServerError => 500,
        }
    }

    /// The numeric HTTP status code.
    pub fn code(&self) -> (r: u16)
        ensures
            r == self.spec_code(),
    {
        match self {
            Status::Success => 200,
            Status::BadRequest => 400,
            Status::InternalServerError => 500,
        }
    }
}

/// The two operations offered on an address.
#[derive(Clone, Copy, Debug, PartialEq, Eq, Structural)]
pub enum Operation {
    /// Membership test (`GET`).
    Check,
    /// Insertion (`POST`).
    Add,
}

/// Summary of a request, returned to the caller.
#[derive(Clone, Debug)]
pub struct RequestSummary {
    /// The address as the caller wrote it.
    pub request_address: String,
    /// The canonical hex literal, once parsing succeeded.
    pub parsed_address: Option<String>,
    /// Whether the address is allowed, once the store answered.
    pub is_allowed: Option<bool>,
    /// The outcome or the error, in words.
    pub message: String,
}

/// Fields are filled in pipeline order: no verdict without a parsed
/// address, and no parsed address without the caller's text.
pub open spec fn stages_in_order(s: RequestSummary) -> bool {
    &&& s.is_allowed is Some ==> s.parsed_address is Some
    &&& s.parsed_address is Some ==> s.request_address@.len() > 0
}

/// The text of an optional string.
pub open spec fn opt_text(o: Option<String>) -> Option<Seq<char>> {
    match o {
        Some(s) => Some(s@),
        None => None,
    }
}

/// The failures of a request, each with the description of its cause.
#[derive(Clone, Debug)]
pub enum RequestError {
    AddMember(String),
    CouldNotParseAddress(String),
    CouldNotParseRequestPath(String),
    IsMemberLookup(String),
    RedisConnection(String),
}

impl RequestError {
    /// The fixed lead of each error's message.
    pub open spec fn spec_prefix(&self) -> Seq<char> {
        match self {
            RequestError::AddMember(_) => "Add member error: "@,
            RequestError::CouldNotParseAddress(_) => "Could not parse address: "@,
            RequestError::CouldNotParseRequestPath(_) => "Could not parse address request path: "@,
            RequestError::IsMemberLookup(_) => "Is member lookup error: "@,
            RequestError::RedisConnection(_) => "Redis connection error: "@,
        }
    }

    pub open spec fn spec_cause(&self) -> Seq<char> {
        match self {
            RequestError::AddMember(c) => c@,
            RequestError::CouldNotParseAddress(c) => c@,
            RequestError::CouldNotParseRequestPath(c) => c@,
            RequestError::IsMemberLookup(c) => c@,
            RequestError::RedisConnection(c) => c@,
        }
    }

    pub open spec fn spec_message(&self) -> Seq<char> {
        self.spec_prefix() + self.spec_cause()
    }

    /// Malformed input is the caller's fault; anything else is the store's.
    pub open spec fn spec_status(&self) -> Status {
        match self {
            RequestError::CouldNotParseAddress(_) => Status::BadRequest,
            RequestError::CouldNotParseRequestPath(_) => Status::BadRequest,
            _ => Status::InternalServerError,
        }
    }

    /// The description shown to the caller.
    pub fn message(&self) -> (r: String)
        ensures
            r@ == self.spec_message(),
    {
        let (prefix, cause) = match self {
            RequestError::AddMember(c) => ("Add member error: ", c),
            RequestError::CouldNotParseAddress(c) => ("Could not parse address: ", c),
            RequestError::CouldNotParseRequestPath(c) => ("Could not parse address request path: ", c),
            RequestError::IsMemberLookup(c) => ("Is member lookup error: ", c),
            RequestError::RedisConnection(c) => ("Redis connection error: ", c),
        };
        String::from_str(prefix).concat(cause.as_str())
    }

    /// The status that the error is answered with.
    pub fn status(&self) -> (r: Status)
        ensures
            r == self.spec_status(),
    {
        match self {
            RequestError::CouldNotParseAddress(_) => Status::BadRequest,
            RequestError::CouldNotParseRequestPath(_) => Status::BadRequest,
            _ => Status::InternalServerError,
        }
    }
}

/// A status with the summary that goes with it.
#[derive(Clone, Debug)]
pub struct CodedSummary {
    pub status: Status,
    pub summary: RequestSummary,
}

/// Maps an error into its status and the summary built so far, with the
/// error's description as the message.
pub fn map_error(request_summary: RequestSummary, request_error: RequestError) -> (r: CodedSummary)
    ensures
        r.status == request_error.spec_status(),
        r.summary.request_address@ == request_summary.request_address@,
        opt_text(r.summary.parsed_address) == opt_text(request_summary.parsed_address),
        r.summary.is_allowed == request_summary.is_allowed,
        r.summary.message@ == request_error.spec_message(),
{
    let status = request_error.status();
    let message = request_error.message();
    CodedSummary { status, summary: RequestSummary { message, ..request_summary } }
}

/// Whether the store's answer counts as a hit: membership for a check, a
/// fresh insertion for an add.
pub open spec fn outcome_allowed(op: Operation, hit: bool) -> bool {
    match op {
        Operation::Check => hit,
        Operation::Add => true,
    }
}

/// The message that reports a completed store operation.
pub open spec fn outcome_message(op: Operation, hit: bool) -> Seq<char> {
    match op {
        Operation::Check => if hit {
            "Found in allowlist"@
        } else {
            "Not found in allowlist"@
        },
        Operation::Add => if hit {
            "Added to allowlist"@
        } else {
            "Already allowed"@
        },
    }
}

/// What the store answers for `op` on the address text `a`, given the set
/// `s` before the operation.
pub open spec fn store_hit(op: Operation, a: Seq<char>, s: Set<Seq<char>>) -> bool {
    match op {
        Operation::Check => s.contains(normalized(a)),
        Operation::Add => !s.contains(normalized(a)),
    }
}

/// The set after `op` on the address text `a`.
pub open spec fn set_after(op: Operation, a: Seq<char>, s: Set<Seq<char>>) -> Set<Seq<char>> {
    match op {
        Operation::Check => s,
        Operation::Add => s.insert(normalized(a)),
    }
}

/// A request whose address was parsed: the summary so far and the
/// canonical literal to hand to the store.
#[derive(Clone, Debug)]
pub struct Prepared {
    pub summary: RequestSummary,
    pub parsed_address: String,
}

/// The message of a path that could not be read.
pub open spec fn path_error_message(cause: Seq<char>) -> Seq<char> {
    "Could not parse address request path: "@ + cause
}

/// The message of an address that could not be parsed.
pub open spec fn address_error_message() -> Seq<char> {
    "Could not parse address: "@ + "unable to parse AccoutAddress"@
}

/// The validation stages: takes the path segment, or the reason it could
/// not be read, and parses the address. On failure the store is not to be
/// contacted: the result is a `400` answer and no literal is handed out.
pub fn prepare(request_path: Result<String, String>) -> (r: Result<Prepared, CodedSummary>)
    ensures
        match request_path {
            Err(cause) => r matches Err(c) && {
                &&& stages_in_order(c.summary)
                &&& c.status == Status::BadRequest
                &&& c.summary.request_address@ == Seq::<char>::empty()
                &&& c.summary.parsed_address is None
                &&& c.summary.is_allowed is None
                &&& c.summary.message@ == path_error_message(cause@)
            },
            Ok(raw) => {
                &&& r is Ok <==> is_address_text(raw@)
                &&& r matches Ok(p) ==> {
                    &&& stages_in_order(p.summary)
                    &&& p.parsed_address@ == normalized(raw@)
                    &&& p.summary.request_address@ == raw@
                    &&& opt_text(p.summary.parsed_address) == Some(normalized(raw@))
                    &&& p.summary.is_allowed is None
                }
                &&& r matches Err(c) ==> {
                    &&& stages_in_order(c.summary)
                    &&& c.status == Status::BadRequest
                    &&& c.summary.request_address@ == raw@
                    &&& c.summary.parsed_address is None
                    &&& c.summary.is_allowed is None
                    &&& c.summary.message@ == address_error_message()
                }
            },
        },
{
    let mut summary = RequestSummary {
        request_address: String::new(),
        parsed_address: None,
        is_allowed: None,
        message: String::new(),
    };
    let raw = match request_path {
        Ok(raw) => raw,
        Err(cause) => {
            return Err(map_error(summary, RequestError::CouldNotParseRequestPath(cause)));
        },
    };
    summary.request_address = raw.clone();
    match normalize(raw.as_str()) {
        Ok(parsed) => {
            summary.parsed_address = Some(parsed.clone());
            Ok(Prepared { summary, parsed_address: parsed })
        },
        Err(e) => Err(map_error(summary, RequestError::CouldNotParseAddress(e.description))),
    }
}

/// What came of the store stages: no connection, a failed command, or the
/// command's answer (membership for a check, a fresh insertion for an add).
#[derive(Clone, Debug)]
pub enum StoreOutcome {
    ConnectionFailed(String),
    CommandFailed(String),
    Completed(bool),
}

/// The message of a failed store command.
pub open spec fn command_error_message(op: Operation, cause: Seq<char>) -> Seq<char> {
    match op {
        Operation::Check => "Is member lookup error: "@ + cause,
        Operation::Add => "Add member error: "@ + cause,
    }
}

/// The final stage: turns the store's outcome into the answer. A store
/// failure is a `500` that keeps the parsed address and leaves `is_allowed`
/// as it was.
pub fn respond(op: Operation, prepared: Prepared, outcome: StoreOutcome) -> (r: CodedSummary)
    ensures
        r.summary.request_address@ == prepared.summary.request_address@,
        opt_text(r.summary.parsed_address) == opt_text(prepared.summary.parsed_address),
        stages_in_order(prepared.summary) && prepared.summary.parsed_address is Some
            ==> stages_in_order(r.summary),
        match outcome {
            StoreOutcome::Completed(hit) => {
                &&& r.status == Status::Success
                &&& r.summary.is_allowed == Some(outcome_allowed(op, hit))
                &&& r.summary.message@ == outcome_message(op, hit)
            },
            StoreOutcome::ConnectionFailed(cause) => {
                &&& r.status == Status::InternalServerError
                &&& r.summary.is_allowed == prepared.summary.is_allowed
                &&& r.summary.message@ == "Redis connection error: "@ + cause@
            },
            StoreOutcome::CommandFailed(cause) => {
                &&& r.status == Status::InternalServerError
                &&& r.summary.is_allowed == prepared.summary.is_allowed
                &&& r.summary.message@ == command_error_message(op, cause@)
            },
        },
{
    let mut summary = prepared.summary;
    match outcome {
        StoreOutcome::ConnectionFailed(cause) => map_error(
            summary,
            RequestError::RedisConnection(cause),
        ),
        StoreOutcome::CommandFailed(cause) => {
            let error = match op {
                Operation::Check => RequestError::IsMemberLookup(cause),
                Operation::Add => RequestError::AddMember(cause),
            };
            map_error(summary, error)
        },
        StoreOutcome::Completed(hit) => {
            let (allowed, text) = match op {
                Operation::Check => if hit {
                    (true, "Found in allowlist")
                } else {
                    (false, "Not found in allowlist")
                },
                Operation::Add => if hit {
                    (true, "Added to allowlist")
                } else {
                    (true, "Already allowed")
                },
            };
            summary.is_allowed = Some(allowed);
            summary.message = String::from_str(text);
            CodedSummary { status: Status::Success, summary }
        },
    }
}

/// The whole pipeline against an allowlist held in memory: validation,
/// then the operation on `set`, then the answer. Malformed input leaves the
/// set untouched.
pub fn serve(op: Operation, request_path: Result<String, String>, set: &mut MemberSet) -> (r:
    CodedSummary)
    requires
        old(set).wf(),
    ensures
        final(set).wf(),
        stages_in_order(r.summary),
        match request_path {
            Err(_) => r.status == Status::BadRequest && final(set)@ == old(set)@,
            Ok(raw) => if is_address_text(raw@) {
                &&& r.status == Status::Success
                &&& r.summary.request_address@ == raw@
                &&& opt_text(r.summary.parsed_address) == Some(normalized(raw@))
                &&& r.summary.is_allowed == Some(outcome_allowed(op, store_hit(op, raw@, old(set)@)))
                &&& r.summary.message@ == outcome_message(op, store_hit(op, raw@, old(set)@))
                &&& final(set)@ == set_after(op, raw@, old(set)@)
            } else {
                &&& r.status == Status::BadRequest
                &&& r.summary.parsed_address is None
                &&& r.summary.is_allowed is None
                &&& final(set)@ == old(set)@
            },
        },
{
    match prepare(request_path) {
        Err(answer) => answer,
        Ok(prepared) => {
            let hit = match op {
                Operation::Check => set.is_member(&prepared.parsed_address),
                Operation::Add => set.add_member(&prepared.parsed_address),
            };
            respond(op, prepared, StoreOutcome::Completed(hit))
        },
    }
}

/// Adding a fresh address twice: both answers allow it, the first reports
/// the insertion and the second that it was already allowed; afterwards the
/// set holds the address exactly once, one entry more than before.
pub proof fn add_twice_is_idempotent(a: Seq<char>, s: Set<Seq<char>>)
    requires
        is_address_text(a),
        s.finite(),
        !s.contains(normalized(a)),
    ensures
        outcome_allowed(Operation::Add, store_hit(Operation::Add, a, s)),
        outcome_message(Operation::Add, store_hit(Operation::Add, a, s)) == "Added to allowlist"@,
        outcome_allowed(
            Operation::Add,
            store_hit(Operation::Add, a, set_after(Operation::Add, a, s)),
        ),
        outcome_message(Operation::Add, store_hit(Operation::Add, a, set_after(Operation::Add, a, s)))
            == "Already allowed"@,
        set_after(Operation::Add, a, set_after(Operation::Add, a, s)) == s.insert(normalized(a)),
        set_after(Operation::Add, a, set_after(Operation::Add, a, s)).len() == s.len() + 1,
{
    let once = set_after(Operation::Add, a, s);
    assert(once.insert(normalized(a)) =~= once);
}

/// A check before the address was added reports it as not allowed; a check
/// after it was added reports it as allowed.
pub proof fn check_reflects_add(a: Seq<char>, s: Set<Seq<char>>)
    requires
        is_address_text(a),
        !s.contains(normalized(a)),
    ensures
        !outcome_allowed(Operation::Check, store_hit(Operation::Check, a, s)),
        outcome_allowed(
            Operation::Check,
            store_hit(Operation::Check, a, set_after(Operation::Add, a, s)),
        ),
{
}

/// The set after `n` adds of the same address, one after the other.
pub open spec fn repeated_adds(a: Seq<char>, s: Set<Seq<char>>, n: nat) -> Set<Seq<char>>
    decreases n,
{
    if n == 0 {
        s
    } else {
        set_after(Operation::Add, a, repeated_adds(a, s, (n - 1) as nat))
    }
}

/// Many adds of the same address, in whatever order the store's atomic
/// insertions serialize them: every caller is told the address is allowed,
/// only the first to run inserts it, and the set ends with it once.
pub proof fn repeated_adds_insert_once(a: Seq<char>, s: Set<Seq<char>>, n: nat)
    requires
        is_address_text(a),
        n >= 1,
        !s.contains(normalized(a)),
    ensures
        repeated_adds(a, s, n) == s.insert(normalized(a)),
        forall|k: nat|
            k < n ==> outcome_allowed(
                Operation::Add,
                #[trigger] store_hit(Operation::Add, a, repeated_adds(a, s, k)),
            ),
        forall|k: nat|
            k < n ==> (#[trigger] store_hit(Operation::Add, a, repeated_adds(a, s, k)) <==> k == 0),
    decreases n,
{
    if n > 1 {
        repeated_adds_insert_once(a, s, (n - 1) as nat);
        assert(repeated_adds(a, s, n) =~= s.insert(normalized(a)));
        assert forall|k: nat|
            k < n implies (#[trigger] store_hit(Operation::Add, a, repeated_adds(a, s, k)) <==> k
                == 0) by {
            if k == n - 1 {
                assert(repeated_adds(a, s, k).contains(normalized(a)));
            }
        }
    } else {
        assert(repeated_adds(a, s, 0) == s);
    }
}

} // verus!
