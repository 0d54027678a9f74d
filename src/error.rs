use vstd::prelude::*;

verus! {

/// The ways a tool call can fail (or, for `NoResults`, end without results).
#[derive(Debug)]
pub enum WebSearchError {
    /// The transport failed; holds the transport's own diagnostic.
    HttpError(String),
    /// The result page could not be read.
    HtmlParseError(String),
    /// The instant-answer body could not be decoded.
    JsonParseError(String),
    /// The query was empty.
    EmptyQuery,
    /// The fetch took longer than its budget, in seconds.
    Timeout(u64),
    /// The provider had nothing for the query.
    NoResults(String),
}

/// Transport failures and timeouts are worth another attempt; nothing else is.
pub open spec fn retryable(e: WebSearchError) -> bool {
    e is HttpError || e is Timeout
}

/// The fixed text shown to a user for each kind of error.
pub open spec fn message_of(e: WebSearchError) -> Seq<char> {
    match e {
        WebSearchError::HttpError(_) => "Failed to fetch search results. Please try again later."@,
        WebSearchError::HtmlParseError(_) => "Failed to parse search results. The page structure may have changed."@,
        WebSearchError::JsonParseError(_) => "Failed to parse API response."@,
        WebSearchError::EmptyQuery => "Query must not be empty."@,
        WebSearchError::Timeout(_) => "Request timed out. Please try again."@,
        WebSearchError::NoResults(_) => "No results found."@,
    }
}

/// What a tool call hands back to the protocol layer: text content and whether it is an error.
#[derive(Debug)]
pub struct ToolResult {
    pub content: Vec<String>,
    pub is_error: Option<bool>,
}

impl ToolResult {
    /// A successful result carrying `text`.
    pub fn success(text: String) -> (r: ToolResult)
        ensures
            r.is_error == Some(false),
            r.content@.len() == 1,
            r.content@[0]@ == text@,
    {
        ToolResult { content: vec![text], is_error: Some(false) }
    }

    /// A failed result carrying `text`.
    pub fn error(text: String) -> (r: ToolResult)
        ensures
            r.is_error == Some(true),
            r.content@.len() == 1,
            r.content@[0]@ == text@,
    {
        ToolResult { content: vec![text], is_error: Some(true) }
    }
}

impl WebSearchError {
    /// Whether the retry policy may try again after this error.
    pub fn is_retryable(&self) -> (r: bool)
        ensures
            r == retryable(*self),
    {
        match self {
            WebSearchError::HttpError(_) | WebSearchError::Timeout(_) => true,
            _ => false,
        }
    }

    /// The stable, human-readable text for this error; no internal detail leaks into it.
    pub fn user_message(&self) -> (r: &'static str)
        ensures
            r@ == message_of(*self),
    {
        match self {
            WebSearchError::HttpError(_) => "Failed to fetch search results. Please try again later.",
            WebSearchError::HtmlParseError(_) => {
                "Failed to parse search results. The page structure may have changed."
            },
            WebSearchError::JsonParseError(_) => "Failed to parse API response.",
            WebSearchError::EmptyQuery => "Query must not be empty.",
            WebSearchError::Timeout(_) => "Request timed out. Please try again.",
            WebSearchError::NoResults(_) => "No results found.",
        }
    }

    /// Maps the error to a tool result: `NoResults` is a success with explanatory text,
    /// every other kind is an error; either way the text is the user message.
    pub fn to_tool_result(&self) -> (r: ToolResult)
        ensures
            r.is_error == Some(!(*self is NoResults)),
            r.content@.len() == 1,
            r.content@[0]@ == message_of(*self),
    {
        let text = self.user_message().to_owned();
        match self {
            WebSearchError::NoResults(_) => ToolResult::success(text),
            _ => ToolResult::error(text),
        }
    }
}

} // verus!
