use vstd::prelude::*;
use crate::error::{message_of, ToolResult, WebSearchError};
use crate::retry::{step, RetryState, RetryStep};
use crate::search::{decimal, format_results_markdown, push_decimal, results_markdown};
use crate::web_search::{page_results, parse_html_results};

verus! {

/// The arguments of a web search: the query and an optional result budget.
#[derive(Debug)]
pub struct WebSearchParams {
    pub query: String,
    pub max_results: Option<usize>,
}

/// The arguments of an instant answer: the query.
#[derive(Debug)]
pub struct InstantAnswerParams {
    pub query: String,
}

/// The cache key of a web search: `web_search:<query>:<max_results>`.
pub open spec fn web_search_key_spec(query: Seq<char>, max_results: nat) -> Seq<char> {
    "web_search:"@ + query + ":"@ + decimal(max_results)
}

/// The cache key of an instant answer: `instant_answer:<query>`.
pub open spec fn instant_answer_key_spec(query: Seq<char>) -> Seq<char> {
    "instant_answer:"@ + query
}

/// The cache key of a web search for `query` with a budget of `max_results`.
pub fn web_search_key(query: &str, max_results: usize) -> (r: String)
    ensures
        r@ == web_search_key_spec(query@, max_results as nat),
{
    let mut key = String::new();
    key.append("web_search:");
    key.append(query);
    key.append(":");
    push_decimal(&mut key, max_results);
    assert(key@ =~= web_search_key_spec(query@, max_results as nat));
    key
}

/// The cache key of an instant answer for `query`.
pub fn instant_answer_key(query: &str) -> (r: String)
    ensures
        r@ == instant_answer_key_spec(query@),
{
    let mut key = String::new();
    key.append("instant_answer:");
    key.append(query);
    key
}

/// Rejects an empty query before anything is fetched.
pub fn check_query(query: &str) -> (r: Result<(), WebSearchError>)
    ensures
        r is Err <==> query@.len() == 0,
        r is Err ==> r->Err_0 is EmptyQuery,
{
    if query.is_empty() {
        Err(WebSearchError::EmptyQuery)
    } else {
        Ok(())
    }
}

/// Renders a fetched result page for `query`: the results extracted from `html` with a budget
/// of `max_results`, as Markdown.
pub fn render_search_page(query: &str, html: &str, max_results: usize) -> (r: String)
    ensures
        r@ == results_markdown(query@, page_results(html@, max_results as nat)),
{
    let results = parse_html_results(html, max_results);
    format_results_markdown(query, results.as_slice())
}

/// Where a tool call stands.
pub enum Phase {
    /// The cache is to be consulted.
    Lookup,
    /// The shared rate-limiter slot is to be acquired.
    Acquire,
    /// An attempt is running.
    Attempting,
    /// The caller is sleeping before the next attempt.
    Sleeping,
    /// A reply has been handed out.
    Done,
}

/// What the caller does next for a tool call.
pub enum CallAction {
    /// Acquire the shared rate-limiter slot, then call `slot_acquired`.
    AcquireSlot,
    /// Run one fetch-and-render attempt, then call `attempt_ended` with its outcome.
    Attempt,
    /// Sleep this many seconds, then call `slept`.
    Sleep(u64),
    /// Store the text in the cache under the call's key, then reply with it as a success.
    StoreAndReply(String),
    /// Reply with this result; nothing is stored.
    Reply(ToolResult),
}

/// Whether `r` is a success carrying exactly `text`.
pub open spec fn is_success_with(r: ToolResult, text: Seq<char>) -> bool {
    r.is_error == Some(false) && r.content@.len() == 1 && r.content@[0]@ == text
}

/// Whether `r` is the tool result of error `e`.
pub open spec fn is_result_of_error(r: ToolResult, e: WebSearchError) -> bool {
    r.is_error == Some(!(e is NoResults)) && r.content@.len() == 1 && r.content@[0]@ == message_of(e)
}

/// One tool call: a cache lookup, and on a miss the rate-limiter slot, then retried attempts;
/// a success (a no-results outcome included) is stored under the call's key, a failure is mapped
/// to its message and never stored.
pub struct ToolCall {
    key: String,
    retry: RetryState,
    phase: Phase,
}

impl ToolCall {
    pub closed spec fn key_spec(&self) -> Seq<char> {
        self.key@
    }

    pub closed spec fn phase_spec(&self) -> Phase {
        self.phase
    }

    pub closed spec fn retry_spec(&self) -> RetryState {
        self.retry
    }

    pub closed spec fn wf(&self) -> bool {
        &&& self.retry.wf()
        &&& (!(self.phase is Done) ==> !self.retry.is_finished())
    }

    /// A call under cache key `key` whose operation may be retried `max_retries` times.
    pub fn new(key: String, max_retries: u32) -> (r: ToolCall)
        ensures
            r.wf(),
            r.key_spec() == key@,
            r.phase_spec() is Lookup,
            r.retry_spec().max_retries_spec() == max_retries,
            r.retry_spec().attempt_spec() == 0,
    {
        ToolCall { key, retry: RetryState::new(max_retries), phase: Phase::Lookup }
    }

    /// A web search for `query` with a budget of `max_results`.
    pub fn web_search(query: &str, max_results: usize, max_retries: u32) -> (r: ToolCall)
        ensures
            r.wf(),
            r.key_spec() == web_search_key_spec(query@, max_results as nat),
            r.phase_spec() is Lookup,
            r.retry_spec().max_retries_spec() == max_retries,
            r.retry_spec().attempt_spec() == 0,
    {
        ToolCall::new(web_search_key(query, max_results), max_retries)
    }

    /// An instant answer for `query`.
    pub fn instant_answer(query: &str, max_retries: u32) -> (r: ToolCall)
        ensures
            r.wf(),
            r.key_spec() == instant_answer_key_spec(query@),
            r.phase_spec() is Lookup,
            r.retry_spec().max_retries_spec() == max_retries,
            r.retry_spec().attempt_spec() == 0,
    {
        ToolCall::new(instant_answer_key(query), max_retries)
    }

    /// The cache key of the call.
    pub fn key(&self) -> (r: &str)
        ensures
            r@ == self.key_spec(),
    {
        self.key.as_str()
    }

    /// Takes the cache's answer for the key. A hit is replied at once, with no slot taken and
    /// no attempt made; a miss goes on to the rate limiter.
    pub fn cache_checked(&mut self, cached: Option<String>) -> (r: CallAction)
        requires
            old(self).wf(),
            old(self).phase_spec() is Lookup,
        ensures
            final(self).wf(),
            final(self).key_spec() == old(self).key_spec(),
            final(self).retry_spec() == old(self).retry_spec(),
            match cached {
                Some(text) => r is Reply && is_success_with(r->Reply_0, text@) && final(self).phase_spec() is Done,
                None => r is AcquireSlot && final(self).phase_spec() is Acquire,
            },
    {
        match cached {
            Some(text) => {
                self.phase = Phase::Done;
                CallAction::Reply(ToolResult::success(text))
            },
            None => {
                self.phase = Phase::Acquire;
                CallAction::AcquireSlot
            },
        }
    }

    /// The slot is held: the first attempt follows.
    pub fn slot_acquired(&mut self) -> (r: CallAction)
        requires
            old(self).wf(),
            old(self).phase_spec() is Acquire,
        ensures
            final(self).wf(),
            final(self).key_spec() == old(self).key_spec(),
            final(self).retry_spec() == old(self).retry_spec(),
            r is Attempt,
            final(self).phase_spec() is Attempting,
    {
        self.phase = Phase::Attempting;
        CallAction::Attempt
    }

    /// Takes the outcome of an attempt: a success is stored and replied, and so is the
    /// explanatory text of a no-results outcome; any other final error is replied with its
    /// message and not stored; anything else means sleeping before the next attempt.
    pub fn attempt_ended(&mut self, outcome: Result<String, WebSearchError>) -> (r: CallAction)
        requires
            old(self).wf(),
            old(self).phase_spec() is Attempting,
        ensures
            final(self).wf(),
            final(self).key_spec() == old(self).key_spec(),
            final(self).retry_spec().max_retries_spec() == old(self).retry_spec().max_retries_spec(),
            match step(
                old(self).retry_spec().max_retries_spec(),
                old(self).retry_spec().attempt_spec(),
                outcome,
            ) {
                RetryStep::Finished(Ok(text)) => r is StoreAndReply && r->StoreAndReply_0@ == text@
                    && final(self).phase_spec() is Done,
                RetryStep::Finished(Err(e)) => if e is NoResults {
                    r is StoreAndReply && r->StoreAndReply_0@ == message_of(e) && final(self).phase_spec() is Done
                } else {
                    r is Reply && is_result_of_error(r->Reply_0, e) && final(self).phase_spec() is Done
                },
                RetryStep::Backoff(secs) => r == CallAction::Sleep(secs) && final(self).phase_spec() is Sleeping && final(self).retry_spec().attempt_spec() == old(self).retry_spec().attempt_spec() + 1,
            },
    {
        match self.retry.record(outcome) {
            RetryStep::Finished(Ok(text)) => {
                self.phase = Phase::Done;
                CallAction::StoreAndReply(text)
            },
            RetryStep::Finished(Err(e)) => {
                self.phase = Phase::Done;
                match e {
                    WebSearchError::NoResults(_) => CallAction::StoreAndReply(e.user_message().to_owned()),
                    _ => CallAction::Reply(e.to_tool_result()),
                }
            },
            RetryStep::Backoff(secs) => {
                self.phase = Phase::Sleeping;
                CallAction::Sleep(secs)
            },
        }
    }

    /// The backoff sleep is over: the next attempt follows.
    pub fn slept(&mut self) -> (r: CallAction)
        requires
            old(self).wf(),
            old(self).phase_spec() is Sleeping,
        ensures
            final(self).wf(),
            final(self).key_spec() == old(self).key_spec(),
            final(self).retry_spec() == old(self).retry_spec(),
            r is Attempt,
            final(self).phase_spec() is Attempting,
    {
        self.phase = Phase::Attempting;
        CallAction::Attempt
    }
}

} // verus!
