//! From the credentials file and an answer of the usage endpoint to the state
//! that is shown.

use crate::double::{rounded_to_u32, Double, INFINITY};
use crate::instant::{rfc3339, Instant};
use crate::text::{
    decimal, decimal_is_digits, decimal_reads_back, decimal_width, is_digit, parse_u64, parsed_u64,
    trim, trimmed, trimming_keeps_the_text, white_space,
};
use crate::usage::{ExtraUsageInfo, TrayState, UnavailableReason};
use vstd::prelude::*;
use vstd::string::*;

verus! {

/// The endpoint that tells the usage of an account.
pub const USAGE_URL: &'static str = "https://api.anthropic.com/api/oauth/usage";

/// The beta that the endpoint belongs to.
pub const ANTHROPIC_BETA: &'static str = "oauth-2025-04-20";

/// Amounts of extra usage have at most this many decimal places.
pub const MAX_DECIMAL_PLACES: u32 = 10;

// ---------------------------------------------------------------------------
// What the endpoint answers
// ---------------------------------------------------------------------------

/// One usage window of an answer.
pub struct LimitWindow {
    /// Utilization in percent, which the endpoint sends as a fraction.
    pub utilization: Double,
    /// When the window resets, as RFC 3339 text.
    pub resets_at: String,
}

/// The extra usage block of an answer, with its amounts in units of the currency.
pub struct ExtraUsage {
    pub is_enabled: bool,
    /// The monthly limit.
    pub limit: Double,
    /// The monthly limit with two decimals.
    pub limit_text: String,
    /// The amount used with two decimals.
    pub used_text: String,
    /// The amount used in percent of the limit. Without meaning where the limit
    /// is not positive.
    pub used_pct: Double,
    pub currency: String,
}

/// An answer of the endpoint. There is no extra usage block where the endpoint
/// sent none or one of another shape.
pub struct UsageResponse {
    pub five_hour: LimitWindow,
    pub seven_day: LimitWindow,
    pub extra_usage: Option<ExtraUsage>,
}

/// The lesser of a `u32` and a limit.
pub open spec fn at_most(n: u32, limit: u32) -> u32 {
    if n > limit {
        limit
    } else {
        n
    }
}

/// How many decimal places an amount is taken to have, whatever the endpoint
/// says.
pub fn decimal_places(sent: u32) -> (places: u32)
    ensures
        places == at_most(sent, MAX_DECIMAL_PLACES),
{
    if sent > MAX_DECIMAL_PLACES {
        MAX_DECIMAL_PLACES
    } else {
        sent
    }
}

/// Rounds a utilization to a whole percentage from 0 to 100.
pub fn to_percent(raw: Double) -> (pct: u32)
    ensures
        pct == at_most(rounded_to_u32(raw.bits), 100),
{
    let rounded: u32 = raw.round_to_u32();
    if rounded > 100 {
        100
    } else {
        rounded
    }
}

/// A higher utilization never gives a lower percentage.
pub proof fn to_percent_is_monotone(less: Double, more: Double)
    requires
        less.bits <= more.bits <= INFINITY,
    ensures
        at_most(rounded_to_u32(less.bits), 100) <= at_most(rounded_to_u32(more.bits), 100),
{
    crate::double::rounding_is_monotone(less.bits, more.bits);
}

/// The moment of a reset.
pub fn parse_reset(s: &str) -> (r: Option<Instant>)
    ensures
        r is Some <==> rfc3339(s@) is Some,
        r matches Some(i) ==> rfc3339(s@) == Some((i.secs() as i64, i.nanos() as u32)),
{
    Instant::parse_rfc3339(s)
}

/// The percentage of extra usage that is used: none where there is no limit.
pub open spec fn extra_pct(extra: ExtraUsage) -> u32 {
    if 0 < extra.limit.bits <= INFINITY {
        at_most(rounded_to_u32(extra.used_pct.bits), 100)
    } else {
        0
    }
}

/// Whether `info` is what is shown of `extra`: something exactly where the
/// account has extra usage switched on.
pub open spec fn shows_extra(info: Option<ExtraUsageInfo>, extra: Option<ExtraUsage>) -> bool {
    match extra {
        Some(e) => if e.is_enabled {
            &&& info is Some
            &&& info->0.pct == extra_pct(e)
            &&& info->0.used@ == e.used_text@
            &&& info->0.limit@ == e.limit_text@
            &&& info->0.currency@ == e.currency@
        } else {
            info is None
        },
        None => info is None,
    }
}

/// What is shown of the extra usage block.
pub fn parse_extra_usage(extra: Option<ExtraUsage>) -> (info: Option<ExtraUsageInfo>)
    ensures
        shows_extra(info, extra),
{
    match extra {
        Some(e) => {
            if !e.is_enabled {
                return None;
            }
            let pct: u32 = if e.limit.is_positive() {
                to_percent(e.used_pct)
            } else {
                0
            };
            Some(
                ExtraUsageInfo {
                    pct,
                    used: e.used_text,
                    limit: e.limit_text,
                    currency: e.currency,
                },
            )
        },
        None => None,
    }
}

/// The state for two windows whose resets are known, and the extra usage block.
pub open spec fn is_state_of(
    state: TrayState,
    five_hour: Double,
    five_hour_resets: Instant,
    seven_day: Double,
    seven_day_resets: Instant,
    extra: Option<ExtraUsage>,
) -> bool {
    match state {
        TrayState::Available {
            five_hour_pct,
            five_hour_resets: five,
            seven_day_pct,
            seven_day_resets: seven,
            extra_usage,
        } => {
            &&& five_hour_pct == at_most(rounded_to_u32(five_hour.bits), 100)
            &&& five == five_hour_resets
            &&& seven_day_pct == at_most(rounded_to_u32(seven_day.bits), 100)
            &&& seven == seven_day_resets
            &&& shows_extra(extra_usage, extra)
        },
        TrayState::Unavailable { .. } => false,
    }
}

/// The state that an answer amounts to, once the moments of its two resets have
/// been read out of it: none where one of them could not.
pub fn state_with_resets(
    five_hour: Double,
    five_hour_resets: Option<Instant>,
    seven_day: Double,
    seven_day_resets: Option<Instant>,
    extra_usage: Option<ExtraUsage>,
) -> (r: Option<TrayState>)
    ensures
        r is Some <==> five_hour_resets is Some && seven_day_resets is Some,
        r matches Some(state) ==> is_state_of(
            state,
            five_hour,
            five_hour_resets->0,
            seven_day,
            seven_day_resets->0,
            extra_usage,
        ),
{
    match (five_hour_resets, seven_day_resets) {
        (Some(five), Some(seven)) => Some(
            TrayState::Available {
                five_hour_pct: to_percent(five_hour),
                five_hour_resets: five,
                seven_day_pct: to_percent(seven_day),
                seven_day_resets: seven,
                extra_usage: parse_extra_usage(extra_usage),
            },
        ),
        _ => None,
    }
}

/// Whether `r` is the state of an answer: the one with the moments that its two
/// reset texts name, or none where one of them names no moment.
pub open spec fn is_state_of_response(r: Option<TrayState>, response: UsageResponse) -> bool {
    let five = rfc3339(response.five_hour.resets_at@);
    let seven = rfc3339(response.seven_day.resets_at@);
    &&& r is Some <==> five is Some && seven is Some
    &&& r matches Some(state) ==> exists|a: Instant, b: Instant|
        five == Some((a.secs() as i64, a.nanos() as u32)) && seven == Some(
            (b.secs() as i64, b.nanos() as u32),
        ) && #[trigger] is_state_of(
            state,
            response.five_hour.utilization,
            a,
            response.seven_day.utilization,
            b,
            response.extra_usage,
        )
}

/// The state that an answer amounts to.
pub fn to_state(response: UsageResponse) -> (r: Option<TrayState>)
    ensures
        is_state_of_response(r, response),
{
    let five = parse_reset(response.five_hour.resets_at.as_str());
    let seven = parse_reset(response.seven_day.resets_at.as_str());
    state_with_resets(
        response.five_hour.utilization,
        five,
        response.seven_day.utilization,
        seven,
        response.extra_usage,
    )
}

// ---------------------------------------------------------------------------
// Reading the token
// ---------------------------------------------------------------------------

/// How reading the credentials file went.
pub enum CredentialsRead {
    /// The profile directory is not known.
    NoProfile,
    /// The file could not be read, with the cause.
    Unreadable(String),
    /// The file is not of the expected shape, with the cause.
    Unparsable(String),
    /// The access token that the file holds.
    Token(String),
}

/// `start`, `path`, `link` and `cause` put together.
fn message(start: &str, path: &str, link: &str, cause: &str) -> (r: String)
    ensures
        r@ == start@ + path@ + link@ + cause@,
{
    let mut out = String::new();
    out.append(start);
    out.append(path);
    out.append(link);
    out.append(cause);
    proof {
        assert(out@ =~= start@ + path@ + link@ + cause@);
    }
    out
}

/// The access token without the white space around it, or what is wrong with the
/// credentials file at `path`.
pub fn read_access_token(path: &str, read: CredentialsRead) -> (r: Result<String, String>)
    ensures
        match read {
            CredentialsRead::NoProfile => r is Err && r->Err_0@
                == "USERPROFILE environment variable is not set"@,
            CredentialsRead::Unreadable(cause) => r is Err && r->Err_0@ == "could not read "@
                + path@ + ": "@ + cause@,
            CredentialsRead::Unparsable(cause) => r is Err && r->Err_0@ == "could not parse "@
                + path@ + ": "@ + cause@,
            CredentialsRead::Token(stored) => if trimmed(stored@).len() == 0 {
                r is Err && r->Err_0@ == path@ + " has an empty access token"@
            } else {
                r is Ok && r->Ok_0@ == trimmed(stored@)
            },
        },
{
    match read {
        CredentialsRead::NoProfile => Err(
            String::from_str("USERPROFILE environment variable is not set"),
        ),
        CredentialsRead::Unreadable(cause) => Err(
            message("could not read ", path, ": ", cause.as_str()),
        ),
        CredentialsRead::Unparsable(cause) => Err(
            message("could not parse ", path, ": ", cause.as_str()),
        ),
        CredentialsRead::Token(stored) => {
            let token = trim(stored.as_str());
            if token.as_str().is_empty() {
                let mut detail = String::new();
                detail.append(path);
                detail.append(" has an empty access token");
                proof {
                    assert(detail@ =~= path@ + " has an empty access token"@);
                }
                Err(detail)
            } else {
                Ok(token)
            }
        },
    }
}

/// The value of the `Authorization` header for a token.
pub fn authorization(token: &str) -> (r: String)
    ensures
        r@ == "Bearer "@ + token@,
{
    let mut out = String::new();
    out.append("Bearer ");
    out.append(token);
    proof {
        assert(out@ =~= "Bearer "@ + token@);
    }
    out
}

// ---------------------------------------------------------------------------
// What comes of a request
// ---------------------------------------------------------------------------

/// Why a fetch failed: what is shown, what is logged, and how long the server
/// asked to wait.
pub struct FetchError {
    pub message: String,
    pub reason: UnavailableReason,
    pub retry_after_secs: Option<u64>,
}

impl From<String> for FetchError {
    /// An error without a category of its own.
    fn from(message: String) -> (e: FetchError) {
        FetchError { message, reason: UnavailableReason::Other, retry_after_secs: None }
    }
}

impl vstd::std_specs::convert::FromSpecImpl<String> for FetchError {
    open spec fn obeys_from_spec() -> bool {
        true
    }

    open spec fn from_spec(message: String) -> FetchError {
        FetchError { message, reason: UnavailableReason::Other, retry_after_secs: None }
    }
}

/// Whether an HTTP status is one of success.
pub open spec fn success_status(code: u16) -> bool {
    200 <= code < 300
}

/// Whether an HTTP status is one of success.
pub fn is_success(code: u16) -> (b: bool)
    ensures
        b == success_status(code),
{
    200 <= code && code < 300
}

/// What an HTTP status other than success tells: a server that is asked too
/// often says so, and one that refuses the token does too.
pub open spec fn status_reason(code: u16) -> UnavailableReason {
    if code == 429 {
        UnavailableReason::RateLimited
    } else if code == 401 || code == 403 {
        UnavailableReason::TokenProblem
    } else {
        UnavailableReason::Other
    }
}

/// The seconds in a `Retry-After` header: a whole number, with white space around
/// it or not. The form with a date is not read.
pub open spec fn retry_after(header: Seq<char>) -> Option<u64> {
    parsed_u64(trimmed(header))
}

/// Reads a `Retry-After` header.
pub fn parse_retry_after(header: &str) -> (r: Option<u64>)
    ensures
        r == retry_after(header@),
{
    parse_u64(trim(header).as_str())
}

/// What came back of a request.
pub enum UsageReply {
    /// The request could not be sent or completed, with the cause.
    NotSent(String),
    /// A status other than success, as number and as text, and the `Retry-After`
    /// header where there is one.
    Refused { code: u16, status: String, retry_after: Option<String> },
    /// The body is not of the expected shape, with the cause.
    Unparsable(String),
    /// An answer.
    Answer(UsageResponse),
}

/// Whether `e` is the failure that a reply amounts to. The header counts only
/// where the server says that it is asked too often.
pub open spec fn is_error_of(e: FetchError, reply: UsageReply) -> bool {
    match reply {
        UsageReply::NotSent(cause) => {
            &&& e.message@ == "network error calling usage endpoint: "@ + cause@
            &&& e.reason == UnavailableReason::NetworkError
            &&& e.retry_after_secs is None
        },
        UsageReply::Refused { code, status, retry_after: header } => {
            &&& e.message@ == "usage endpoint returned HTTP "@ + status@
            &&& e.reason == status_reason(code)
            &&& e.retry_after_secs == if code == 429 && header is Some {
                retry_after(header->0@)
            } else {
                None
            }
        },
        UsageReply::Unparsable(cause) => {
            &&& e.message@ == "could not parse usage endpoint response: "@ + cause@
            &&& e.reason == UnavailableReason::Other
            &&& e.retry_after_secs is None
        },
        UsageReply::Answer(_) => false,
    }
}

fn joined(a: &str, b: &str) -> (r: String)
    ensures
        r@ == a@ + b@,
{
    let mut out = String::new();
    out.append(a);
    out.append(b);
    proof {
        assert(out@ =~= a@ + b@);
    }
    out
}

/// The answer in a reply, or the failure that the reply amounts to.
pub fn fetch_usage(reply: UsageReply) -> (r: Result<UsageResponse, FetchError>)
    ensures
        match reply {
            UsageReply::Answer(response) => r == Ok::<UsageResponse, FetchError>(response),
            _ => r is Err && is_error_of(r->Err_0, reply),
        },
{
    match reply {
        UsageReply::NotSent(cause) => Err(
            FetchError {
                message: joined("network error calling usage endpoint: ", cause.as_str()),
                reason: UnavailableReason::NetworkError,
                retry_after_secs: None,
            },
        ),
        UsageReply::Refused { code, status, retry_after } => {
            let (reason, retry_after_secs) = match code {
                429 => (
                    UnavailableReason::RateLimited,
                    match retry_after {
                        Some(header) => parse_retry_after(header.as_str()),
                        None => None,
                    },
                ),
                401 | 403 => (UnavailableReason::TokenProblem, None),
                _ => (UnavailableReason::Other, None),
            };
            Err(
                FetchError {
                    message: joined("usage endpoint returned HTTP ", status.as_str()),
                    reason,
                    retry_after_secs,
                },
            )
        },
        UsageReply::Unparsable(cause) => Err(
            FetchError::from(
                joined("could not parse usage endpoint response: ", cause.as_str()),
            ),
        ),
        UsageReply::Answer(response) => Ok(response),
    }
}

/// The state to show after a fetch, and how long the server asked to wait before
/// the next one.
pub struct FetchOutcome {
    pub state: TrayState,
    pub retry_after_secs: Option<u64>,
}

/// One attempt to fetch the usage, as far as it came.
pub enum FetchAttempt {
    /// There is no token to fetch with, with the reason.
    NoToken(String),
    /// The request was made.
    Fetched(Result<UsageResponse, FetchError>),
}

/// Whether `outcome` is what an attempt comes to. Every failure ends in a state
/// that can be shown.
pub open spec fn is_outcome_of(outcome: FetchOutcome, attempt: FetchAttempt) -> bool {
    match attempt {
        FetchAttempt::NoToken(detail) => {
            &&& outcome.state == (TrayState::Unavailable {
                detail,
                reason: UnavailableReason::TokenProblem,
            })
            &&& outcome.retry_after_secs is None
        },
        FetchAttempt::Fetched(Err(e)) => {
            &&& outcome.state == (TrayState::Unavailable { detail: e.message, reason: e.reason })
            &&& outcome.retry_after_secs == e.retry_after_secs
        },
        FetchAttempt::Fetched(Ok(response)) => {
            &&& outcome.retry_after_secs is None
            &&& match outcome.state {
                TrayState::Available { .. } => is_state_of_response(Some(outcome.state), response),
                TrayState::Unavailable { detail, reason } => {
                    &&& is_state_of_response(None, response)
                    &&& detail@ == "usage response had an unparseable reset timestamp"@
                    &&& reason == UnavailableReason::Other
                },
            }
        },
    }
}

/// The state to show after an attempt to fetch the usage.
pub fn fetch_state(attempt: FetchAttempt) -> (outcome: FetchOutcome)
    ensures
        is_outcome_of(outcome, attempt),
{
    match attempt {
        FetchAttempt::NoToken(detail) => FetchOutcome {
            state: TrayState::Unavailable { detail, reason: UnavailableReason::TokenProblem },
            retry_after_secs: None,
        },
        FetchAttempt::Fetched(Ok(response)) => match to_state(response) {
            Some(state) => FetchOutcome { state, retry_after_secs: None },
            None => FetchOutcome {
                state: TrayState::Unavailable {
                    detail: String::from_str("usage response had an unparseable reset timestamp"),
                    reason: UnavailableReason::Other,
                },
                retry_after_secs: None,
            },
        },
        FetchAttempt::Fetched(Err(e)) => FetchOutcome {
            state: TrayState::Unavailable { detail: e.message, reason: e.reason },
            retry_after_secs: e.retry_after_secs,
        },
    }
}

/// A wait asked for by the server reaches the outcome only together with the
/// state that tells of too many requests.
pub proof fn only_rate_limiting_asks_for_a_wait(
    reply: UsageReply,
    e: FetchError,
    outcome: FetchOutcome,
)
    requires
        is_error_of(e, reply),
        is_outcome_of(outcome, FetchAttempt::Fetched(Err(e))),
        outcome.retry_after_secs is Some,
    ensures
        outcome.state matches TrayState::Unavailable { reason, .. } && reason
            == UnavailableReason::RateLimited,
{
}

/// The reason that is shown tells the cause: a sign-in is asked for exactly where
/// the server refused the token, rate limiting is told of exactly where the
/// server said so, and a network error exactly where the request did not get
/// through.
pub proof fn reason_tells_the_cause(reply: UsageReply, e: FetchError, outcome: FetchOutcome)
    requires
        is_error_of(e, reply),
        is_outcome_of(outcome, FetchAttempt::Fetched(Err(e))),
    ensures
        outcome.state is Unavailable,
        outcome.state->reason == UnavailableReason::TokenProblem <==> (reply is Refused && (
        reply->code == 401 || reply->code == 403)),
        outcome.state->reason == UnavailableReason::RateLimited <==> (reply is Refused
            && reply->code == 429),
        outcome.state->reason == UnavailableReason::NetworkError <==> reply is NotSent,
{
}

/// The utilizations of a fetched state are percentages from 0 to 100.
pub proof fn fetched_utilizations_are_percentages(outcome: FetchOutcome, attempt: FetchAttempt)
    requires
        is_outcome_of(outcome, attempt),
    ensures
        outcome.state matches TrayState::Available { five_hour_pct, seven_day_pct, extra_usage, .. }
            ==> five_hour_pct <= 100 && seven_day_pct <= 100 && (extra_usage matches Some(extra)
            ==> extra.pct <= 100),
{
}

// ---------------------------------------------------------------------------
// What is made of an answer
// ---------------------------------------------------------------------------

/// A number over a limit counts as the limit, and any other as itself.
pub proof fn limits_cut(n: u32, limit: u32)
    ensures
        n <= limit ==> at_most(n, limit) == n,
        n > limit ==> at_most(n, limit) == limit,
{
}

/// A wait of any number of seconds is read, whatever white space stands around it.
pub proof fn any_wait_is_read(before: Seq<char>, secs: u64, after: Seq<char>)
    requires
        forall|i: int| 0 <= i < before.len() ==> white_space(#[trigger] before[i]),
        forall|i: int| 0 <= i < after.len() ==> white_space(#[trigger] after[i]),
    ensures
        retry_after(before + decimal(secs as nat) + after) == Some(secs),
{
    let text = decimal(secs as nat);
    decimal_width(secs as nat);
    decimal_is_digits(secs as nat);
    assert(is_digit(text[0]) && is_digit(text[text.len() - 1]));
    trimming_keeps_the_text(before, text, after);
    decimal_reads_back(secs);
}

/// A refusal for too many requests hands on the wait that its header asks for, whatever it
/// is, and none where there is no header; no other refusal hands on any.
pub proof fn refusals_hand_on_the_wait(
    e: FetchError,
    code: u16,
    status: String,
    header: Option<String>,
    before: Seq<char>,
    secs: u64,
    after: Seq<char>,
)
    requires
        is_error_of(e, UsageReply::Refused { code, status, retry_after: header }),
        forall|i: int| 0 <= i < before.len() ==> white_space(#[trigger] before[i]),
        forall|i: int| 0 <= i < after.len() ==> white_space(#[trigger] after[i]),
    ensures
        code == 429 && header is Some && header->0@ == before + decimal(secs as nat) + after
            ==> e.retry_after_secs == Some(secs),
        header is None ==> e.retry_after_secs is None,
        code != 429 ==> e.retry_after_secs is None,
        code == 429 <==> e.reason == UnavailableReason::RateLimited,
        code == 401 || code == 403 <==> e.reason == UnavailableReason::TokenProblem,
        code != 429 && code != 401 && code != 403 <==> e.reason == UnavailableReason::Other,
        e.message@ == "usage endpoint returned HTTP "@ + status@,
{
    any_wait_is_read(before, secs, after);
}

/// A request that got no answer, and an answer that cannot be read, are told with their
/// cause, and neither asks for a wait.
pub proof fn failures_are_told_with_their_cause(e: FetchError, reply: UsageReply)
    requires
        is_error_of(e, reply),
    ensures
        reply !is Answer,
        reply matches UsageReply::NotSent(cause) ==> e.reason == UnavailableReason::NetworkError
            && e.retry_after_secs is None && e.message@ == "network error calling usage endpoint: "@
            + cause@,
        reply matches UsageReply::Unparsable(cause) ==> e.reason == UnavailableReason::Other
            && e.retry_after_secs is None && e.message@
            == "could not parse usage endpoint response: "@ + cause@,
{
}

/// The statuses of success are those from 200 to 299.
pub proof fn successes_are_in_the_two_hundreds(code: u16)
    ensures
        success_status(code) <==> 200 <= code <= 299,
{
}

/// Each window of a state has its own reading and its own reset: the utilization that was
/// sent for it, rounded, and 100 where it is over that. Of the extra usage, that is shown
/// which the account has switched on.
pub proof fn each_window_has_its_own_reading(
    state: TrayState,
    five_hour: Double,
    five_hour_resets: Instant,
    seven_day: Double,
    seven_day_resets: Instant,
    extra: Option<ExtraUsage>,
)
    requires
        is_state_of(state, five_hour, five_hour_resets, seven_day, seven_day_resets, extra),
    ensures
        state matches TrayState::Available {
            five_hour_pct,
            five_hour_resets: five,
            seven_day_pct,
            seven_day_resets: seven,
            extra_usage,
        } && {
            &&& five == five_hour_resets
            &&& seven == seven_day_resets
            &&& rounded_to_u32(five_hour.bits) <= 100 ==> five_hour_pct == rounded_to_u32(
                five_hour.bits,
            )
            &&& rounded_to_u32(five_hour.bits) > 100 ==> five_hour_pct == 100
            &&& rounded_to_u32(seven_day.bits) <= 100 ==> seven_day_pct == rounded_to_u32(
                seven_day.bits,
            )
            &&& rounded_to_u32(seven_day.bits) > 100 ==> seven_day_pct == 100
            &&& extra_usage is Some <==> extra is Some && extra->0.is_enabled
        },
{
}

/// Extra usage is shown exactly where the account has it switched on, with the amounts and
/// the currency as they were sent, and with its percentage: that of the limit, rounded and
/// 100 at most, or 0 where there is no limit above nothing.
pub proof fn extra_usage_is_shown_as_sent(info: Option<ExtraUsageInfo>, extra: Option<ExtraUsage>)
    requires
        shows_extra(info, extra),
    ensures
        info is Some <==> extra is Some && extra->0.is_enabled,
        info is Some ==> {
            &&& info->0.used@ == extra->0.used_text@
            &&& info->0.limit@ == extra->0.limit_text@
            &&& info->0.currency@ == extra->0.currency@
            &&& extra->0.limit.bits == 0 || extra->0.limit.bits > INFINITY ==> info->0.pct == 0
            &&& 0 < extra->0.limit.bits <= INFINITY ==> info->0.pct == (if rounded_to_u32(
                extra->0.used_pct.bits,
            ) < 100 {
                rounded_to_u32(extra->0.used_pct.bits)
            } else {
                100
            })
        },
{
}

/// An answer amounts to a state exactly where both of its reset texts name a moment, and
/// the state has those moments and the two utilizations that were sent, each for its own
/// window.
pub proof fn answers_amount_to_their_state(r: Option<TrayState>, response: UsageResponse)
    requires
        is_state_of_response(r, response),
    ensures
        r is Some <==> rfc3339(response.five_hour.resets_at@) is Some && rfc3339(
            response.seven_day.resets_at@,
        ) is Some,
        r matches Some(state) ==> (state matches TrayState::Available {
            five_hour_pct,
            five_hour_resets,
            seven_day_pct,
            seven_day_resets,
            extra_usage,
        } && {
            &&& rfc3339(response.five_hour.resets_at@) == Some(
                (five_hour_resets.secs() as i64, five_hour_resets.nanos() as u32),
            )
            &&& rfc3339(response.seven_day.resets_at@) == Some(
                (seven_day_resets.secs() as i64, seven_day_resets.nanos() as u32),
            )
            &&& five_hour_pct == (if rounded_to_u32(response.five_hour.utilization.bits) < 100 {
                rounded_to_u32(response.five_hour.utilization.bits)
            } else {
                100
            })
            &&& seven_day_pct == (if rounded_to_u32(response.seven_day.utilization.bits) < 100 {
                rounded_to_u32(response.seven_day.utilization.bits)
            } else {
                100
            })
            &&& shows_extra(extra_usage, response.extra_usage)
        }),
{
}

/// Every attempt ends in a state that can be shown: without a token in one that asks for a
/// sign-in, after a failure in one that has the failure's reason and message and hands on
/// the wait that was asked for, and after an answer in that of the answer, or in one that
/// tells of its timestamps.
pub proof fn every_attempt_ends_in_a_state(outcome: FetchOutcome, attempt: FetchAttempt)
    requires
        is_outcome_of(outcome, attempt),
    ensures
        attempt matches FetchAttempt::NoToken(detail) ==> outcome.retry_after_secs is None
            && outcome.state == (TrayState::Unavailable {
            detail,
            reason: UnavailableReason::TokenProblem,
        }),
        attempt matches FetchAttempt::Fetched(Err(e)) ==> outcome.retry_after_secs
            == e.retry_after_secs && outcome.state == (TrayState::Unavailable {
            detail: e.message,
            reason: e.reason,
        }),
        attempt matches FetchAttempt::Fetched(Ok(response)) ==> {
            let readable = rfc3339(response.five_hour.resets_at@) is Some && rfc3339(
                response.seven_day.resets_at@,
            ) is Some;
            &&& outcome.retry_after_secs is None
            &&& outcome.state is Available <==> readable
            &&& readable ==> is_state_of_response(Some(outcome.state), response)
            &&& !readable ==> outcome.state->reason == UnavailableReason::Other
                && outcome.state->detail@ == "usage response had an unparseable reset timestamp"@
        },
{
}

/// Amounts have the decimal places that were sent, and ten where those are more.
pub proof fn amounts_have_up_to_ten_places(sent: u32)
    ensures
        sent <= 10 ==> at_most(sent, MAX_DECIMAL_PLACES) == sent,
        sent > 10 ==> at_most(sent, MAX_DECIMAL_PLACES) == 10,
{
}

} // verus!
