//! Decisions around the usage endpoint: how a response is classified, how
//! a poll error reads, which token a poll uses and when the cached token is
//! replaced.

use vstd::prelude::*;
use crate::text::{decimal_digits, parse_u64, parsed_u64, u64_text};

verus! {

/// Why a poll of the usage endpoint failed. Rate limiting is kept apart so
/// that callers back off instead of retrying at the normal pace.
#[derive(Debug, Clone, PartialEq, Eq)]
pub enum PollError {
    RateLimited { retry_after_secs: Option<u64> },
    Other(String),
}

/// The text a poll error reads as.
pub open spec fn poll_error_text(err: PollError) -> Seq<char> {
    match err {
        PollError::RateLimited { retry_after_secs: Some(s) } =>
            "rate limited by usage endpoint (HTTP 429), retry after "@ + decimal_digits(s as nat)
                + "s"@,
        PollError::RateLimited { retry_after_secs: None } =>
            "rate limited by usage endpoint (HTTP 429)"@,
        PollError::Other(message) => message@,
    }
}

impl PollError {
    /// The text this error reads as.
    pub fn message(&self) -> (text: String)
        ensures
            text@ == poll_error_text(*self),
    {
        match self {
            PollError::RateLimited { retry_after_secs: Some(s) } => String::from_str(
                "rate limited by usage endpoint (HTTP 429), retry after ",
            ).concat(u64_text(*s).as_str()).concat("s"),
            PollError::RateLimited { retry_after_secs: None } => String::from_str(
                "rate limited by usage endpoint (HTTP 429)",
            ),
            PollError::Other(message) => message.clone(),
        }
    }
}

/// HTTP status of a rate-limited request.
pub const HTTP_TOO_MANY_REQUESTS: u16 = 429;

/// How the usage endpoint answered, judged by status code alone.
#[derive(Debug, Clone, Copy, PartialEq, Eq, Structural)]
pub enum ResponseClass {
    /// HTTP 429, with the `Retry-After` seconds when the header held a number.
    RateLimited { retry_after_secs: Option<u64> },
    /// Any other status outside 200..=299.
    Failed,
    /// A 2xx status: the body should hold the usage limits.
    Success,
}

/// Class of a response with status `status` and `Retry-After` header text
/// `retry_after` (when the header was present and readable).
pub open spec fn response_class(status: u16, retry_after: Option<Seq<char>>) -> ResponseClass {
    if status == HTTP_TOO_MANY_REQUESTS {
        ResponseClass::RateLimited {
            retry_after_secs: match retry_after {
                Some(text) => parsed_u64(text),
                None => None,
            },
        }
    } else if status < 200 || status > 299 {
        ResponseClass::Failed
    } else {
        ResponseClass::Success
    }
}

/// Classifies a response of the usage endpoint.
pub fn classify_response(status: u16, retry_after: Option<&str>) -> (class: ResponseClass)
    ensures
        class == response_class(
            status,
            match retry_after {
                Some(text) => Some(text@),
                None => None,
            },
        ),
{
    if status == HTTP_TOO_MANY_REQUESTS {
        let retry_after_secs = match retry_after {
            Some(text) => parse_u64(text),
            None => None,
        };
        ResponseClass::RateLimited { retry_after_secs }
    } else if status < 200 || status > 299 {
        ResponseClass::Failed
    } else {
        ResponseClass::Success
    }
}

/// Only HTTP 429 counts as rate limiting, carrying the `Retry-After` seconds
/// when the header holds a decimal number; any other status is a success
/// exactly when it is a 2xx status, and a failure otherwise.
pub proof fn lemma_only_429_is_rate_limited(status: u16, retry_after: Option<Seq<char>>)
    ensures
        response_class(status, retry_after) is RateLimited <==> status == 429,
        status == 429 ==> response_class(status, retry_after) == (ResponseClass::RateLimited {
            retry_after_secs: match retry_after {
                Some(text) => parsed_u64(text),
                None => None,
            },
        }),
        status != 429 ==> (response_class(status, retry_after) == ResponseClass::Success <==> (200
            <= status && status <= 299)),
        status != 429 ==> (response_class(status, retry_after) == ResponseClass::Failed <==> (status
            < 200 || status > 299)),
{
}

/// The OAuth part of the CLI's cached login credentials.
#[derive(Debug, Clone)]
pub struct OauthBlob {
    pub access_token: String,
}

/// The CLI's cached login credentials, as far as they matter here.
#[derive(Debug, Clone)]
pub struct CredentialFile {
    pub claude_ai_oauth: Option<OauthBlob>,
}

/// The access token held by parsed credentials, or the reason there is none.
pub fn access_token(credentials: CredentialFile) -> (token: Result<String, String>)
    ensures
        match credentials.claude_ai_oauth {
            Some(blob) => token == Ok::<String, String>(blob.access_token),
            None => token matches Err(message) && message@
                == "no claudeAiOauth field in credential blob"@,
        },
{
    match credentials.claude_ai_oauth {
        Some(blob) => Ok(blob.access_token),
        None => Err(String::from_str("no claudeAiOauth field in credential blob")),
    }
}

/// Where a poll stands.
#[derive(Debug, Clone, PartialEq, Eq)]
pub enum PollPhase {
    /// No poll is running.
    Idle,
    /// Waiting for the fetch made with the cached token.
    TryingCached,
    /// Waiting for the token read from the OS credential store.
    ReadingCredentials,
    /// Waiting for the fetch made with a freshly read token.
    TryingFresh(String),
}

/// How a fetch of the usage endpoint ended.
#[derive(Debug, Clone, Copy, PartialEq, Eq, Structural)]
pub enum FetchStatus {
    Success,
    RateLimited,
    Failed,
}

/// What the poll does next.
#[derive(Debug, Clone, PartialEq, Eq)]
pub enum PollAction {
    /// Fetch the usage endpoint with this token.
    Fetch(String),
    /// Read the token from the OS credential store.
    ReadCredentials,
    /// The poll ends with whatever the last fetch returned.
    ReturnFetchResult,
    /// The poll ends with `PollError::Other` of this message: no token could
    /// be read.
    ReturnCredentialError(String),
}

/// A poll of the usage endpoint that reuses a cached token, so that the OS
/// credential store (which may prompt the user) is touched only when the
/// cached token stops working.
#[derive(Debug, Clone)]
pub struct TokenPoller {
    pub cached: Option<String>,
    pub phase: PollPhase,
}

/// Starting a poll: try the cached token if there is one, else read one.
pub open spec fn poll_start(cached: Option<String>) -> (TokenPoller, PollAction) {
    match cached {
        Some(token) => (
            TokenPoller { cached, phase: PollPhase::TryingCached },
            PollAction::Fetch(token),
        ),
        None => (
            TokenPoller { cached, phase: PollPhase::ReadingCredentials },
            PollAction::ReadCredentials,
        ),
    }
}

/// After a fetch: a fetch with the cached token that succeeded or was rate
/// limited ends the poll (rate limiting is not masked by re-reading the
/// credential store); one that failed otherwise falls back to a fresh read.
/// A fetch with a fresh token ends the poll, and caches that token when it
/// succeeded.
pub open spec fn poll_fetched(poller: TokenPoller, status: FetchStatus) -> (TokenPoller, PollAction) {
    match poller.phase {
        PollPhase::TryingFresh(token) => (
            TokenPoller {
                cached: if status == FetchStatus::Success {
                    Some(token)
                } else {
                    poller.cached
                },
                phase: PollPhase::Idle,
            },
            PollAction::ReturnFetchResult,
        ),
        _ => if status == FetchStatus::Failed {
            (
                TokenPoller { cached: poller.cached, phase: PollPhase::ReadingCredentials },
                PollAction::ReadCredentials,
            )
        } else {
            (
                TokenPoller { cached: poller.cached, phase: PollPhase::Idle },
                PollAction::ReturnFetchResult,
            )
        },
    }
}

/// After reading the credential store: a token is tried, a failure ends the
/// poll with its message. The cache is left alone until the token works.
pub open spec fn poll_credentials(poller: TokenPoller, read: Result<String, String>) -> (
    TokenPoller,
    PollAction,
) {
    match read {
        Ok(token) => (
            TokenPoller { cached: poller.cached, phase: PollPhase::TryingFresh(token) },
            PollAction::Fetch(token),
        ),
        Err(message) => (
            TokenPoller { cached: poller.cached, phase: PollPhase::Idle },
            PollAction::ReturnCredentialError(message),
        ),
    }
}

impl TokenPoller {
    /// A poller with no poll running, holding the token cached so far.
    pub fn new(cached: Option<String>) -> (poller: Self)
        ensures
            poller.cached == cached,
            poller.phase == PollPhase::Idle,
    {
        TokenPoller { cached, phase: PollPhase::Idle }
    }

    /// Whether the poller waits for the outcome of a fetch.
    pub fn awaiting_fetch(&self) -> (awaiting: bool)
        ensures
            awaiting == (self.phase is TryingCached || self.phase is TryingFresh),
    {
        match self.phase {
            PollPhase::TryingCached | PollPhase::TryingFresh(_) => true,
            _ => false,
        }
    }

    /// Whether the poller waits for a token from the credential store.
    pub fn awaiting_credentials(&self) -> (awaiting: bool)
        ensures
            awaiting == (self.phase is ReadingCredentials),
    {
        match self.phase {
            PollPhase::ReadingCredentials => true,
            _ => false,
        }
    }

    /// Starts a poll.
    pub fn start(&mut self) -> (action: PollAction)
        requires
            old(self).phase == PollPhase::Idle,
        ensures
            (*final(self), action) == poll_start(old(self).cached),
    {
        match &self.cached {
            Some(token) => {
                let token = token.clone();
                self.phase = PollPhase::TryingCached;
                PollAction::Fetch(token)
            },
            None => {
                self.phase = PollPhase::ReadingCredentials;
                PollAction::ReadCredentials
            },
        }
    }

    /// Takes the outcome of the fetch the poller asked for.
    pub fn on_fetched(&mut self, status: FetchStatus) -> (action: PollAction)
        requires
            old(self).phase is TryingCached || old(self).phase is TryingFresh,
        ensures
            (*final(self), action) == poll_fetched(*old(self), status),
    {
        let mut phase = PollPhase::Idle;
        std::mem::swap(&mut phase, &mut self.phase);
        match phase {
            PollPhase::TryingFresh(token) => {
                if status == FetchStatus::Success {
                    self.cached = Some(token);
                }
                PollAction::ReturnFetchResult
            },
            _ => {
                if status == FetchStatus::Failed {
                    self.phase = PollPhase::ReadingCredentials;
                    PollAction::ReadCredentials
                } else {
                    PollAction::ReturnFetchResult
                }
            },
        }
    }

    /// Takes the outcome of the credential read the poller asked for.
    pub fn on_credentials(&mut self, read: Result<String, String>) -> (action: PollAction)
        requires
            old(self).phase is ReadingCredentials,
        ensures
            (*final(self), action) == poll_credentials(*old(self), read),
    {
        match read {
            Ok(token) => {
                self.phase = PollPhase::TryingFresh(token.clone());
                PollAction::Fetch(token)
            },
            Err(message) => {
                self.phase = PollPhase::Idle;
                PollAction::ReturnCredentialError(message)
            },
        }
    }
}

/// A whole poll, driven from `Idle` with the given answers: `first` for the
/// first fetch, `read` for a credential read, `second` for a fetch with a
/// fresh token (each used only if the poll gets that far). Gives the poller
/// at the end, the action that ended the poll, whether the credential store
/// was read, and how many fetches were made.
pub open spec fn poll_run(
    cached: Option<String>,
    first: FetchStatus,
    read: Result<String, String>,
    second: FetchStatus,
) -> (TokenPoller, PollAction, bool, nat) {
    let (p1, a1) = poll_start(cached);
    if a1 is Fetch {
        let (p2, a2) = poll_fetched(p1, first);
        if a2 is ReadCredentials {
            let (p3, a3) = poll_credentials(p2, read);
            if a3 is Fetch {
                let (p4, a4) = poll_fetched(p3, second);
                (p4, a4, true, 2)
            } else {
                (p3, a3, true, 1)
            }
        } else {
            (p2, a2, false, 1)
        }
    } else {
        let (p3, a3) = poll_credentials(p1, read);
        if a3 is Fetch {
            let (p4, a4) = poll_fetched(p3, second);
            (p4, a4, true, 1)
        } else {
            (p3, a3, true, 0)
        }
    }
}

/// Every poll ends back in `Idle` after at most two fetches. The credential
/// store is read exactly when there is no cached token or the cached token's
/// fetch failed for a reason other than rate limiting, so rate limiting is
/// never masked by a fresh read and a working cached token never touches the
/// store. The cached token changes only to a freshly read token whose fetch
/// succeeded.
pub proof fn lemma_poll_run(
    cached: Option<String>,
    first: FetchStatus,
    read: Result<String, String>,
    second: FetchStatus,
)
    ensures
        ({
            let (end, last, reads_credentials, fetches) = poll_run(cached, first, read, second);
            &&& end.phase == PollPhase::Idle
            &&& fetches <= 2
            &&& (last is ReturnFetchResult || last is ReturnCredentialError)
            &&& reads_credentials == (cached is None || first == FetchStatus::Failed)
            &&& end.cached == if reads_credentials && read is Ok && second == FetchStatus::Success {
                Some(read->Ok_0)
            } else {
                cached
            }
            &&& (cached is Some && first == FetchStatus::RateLimited) ==> (last
                == PollAction::ReturnFetchResult && !reads_credentials && fetches == 1)
        }),
{
}

} // verus!
