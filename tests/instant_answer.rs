use websearch_mcp::instant_answer::{
    format_instant_answer, InstantAnswerResponse, RelatedTopic, ResultItem,
};

fn response(abstract_text: &str, source: &str, url: &str, topics: Vec<RelatedTopic>) -> InstantAnswerResponse {
    InstantAnswerResponse {
        abstract_text: abstract_text.to_string(),
        abstract_source: source.to_string(),
        abstract_url: url.to_string(),
        answer: String::new(),
        definition: String::new(),
        definition_source: String::new(),
        definition_url: String::new(),
        related_topics: topics,
        response_type: "A".to_string(),
    }
}

fn item(text: &str, url: &str) -> ResultItem {
    ResultItem { text: text.to_string(), first_url: url.to_string() }
}

#[test]
fn test_format_normal() {
    let response = response(
        "Rust is a general-purpose programming language emphasizing performance, type safety, and concurrency.",
        "Wikipedia",
        "https://en.wikipedia.org/wiki/Rust_(programming_language)",
        vec![RelatedTopic::Topic(item("Cargo - The Rust package manager", "https://duckduckgo.com/Cargo"))],
    );
    let output = format_instant_answer("Rust programming language", &response);
    assert!(output.contains("## Instant Answer for \"Rust programming language\""));
    assert!(output.contains("### Abstract"));
    assert!(output.contains("performance, type safety, and concurrency"));
    assert!(output.contains("**Source:** Wikipedia"));
    assert!(output.contains("**URL:** https://en.wikipedia.org/wiki/Rust_(programming_language)"));
    assert!(output.contains("### Related Topics"));
    assert!(output.contains("Cargo"));
    assert!(output.contains("_Source: DuckDuckGo Instant Answer API_"));
}

#[test]
fn test_format_empty() {
    let response = response("", "", "", vec![]);
    let output = format_instant_answer("xyzzy12345noresult", &response);
    assert!(output.contains("## Instant Answer for \"xyzzy12345noresult\""));
    assert!(output.contains("No instant answer available for this query."));
    assert!(output.contains("_Source: DuckDuckGo Instant Answer API_"));
    assert!(!output.contains("### Abstract"));
}

#[test]
fn test_format_disambig() {
    let response = response(
        "",
        "",
        "",
        vec![
            RelatedTopic::Topic(item("Java (programming language) - A language", "https://duckduckgo.com/Java")),
            RelatedTopic::Category {
                name: "Programming".to_string(),
                topics: vec![item("JavaScript - Another language", "https://duckduckgo.com/JavaScript")],
            },
        ],
    );
    let output = format_instant_answer("java", &response);
    assert!(output.contains("### Related Topics"));
    assert!(output.contains("Java (programming language)"));
    assert!(output.contains("Programming"));
    assert!(output.contains("_Source: DuckDuckGo Instant Answer API_"));
}

#[test]
fn test_format_abstract_only_no_related() {
    let response = response("Some abstract text", "TestSource", "https://example.com", vec![]);
    let output = format_instant_answer("test", &response);
    assert!(output.contains("### Abstract"));
    assert!(output.contains("Some abstract text"));
    assert!(!output.contains("### Related Topics"));
    assert!(output.contains("_Source: DuckDuckGo Instant Answer API_"));
}

#[test]
fn test_format_related_topic_items() {
    let response = response(
        "",
        "",
        "",
        vec![
            RelatedTopic::Topic(item("Topic One - Description one", "https://example.com/1")),
            RelatedTopic::Topic(item("Topic Two - Description two", "https://example.com/2")),
        ],
    );
    let output = format_instant_answer("test", &response);
    assert!(output.contains("### Related Topics"));
    assert!(output.contains("- **Topic One - Description one**"));
    assert!(output.contains("- **Topic Two - Description two**"));
}

#[test]
fn test_format_category_topics() {
    let response = response(
        "",
        "",
        "",
        vec![RelatedTopic::Category {
            name: "Science".to_string(),
            topics: vec![item("Physics - Study of matter", "https://example.com/physics")],
        }],
    );
    let output = format_instant_answer("test", &response);
    assert!(output.contains("### Related Topics"));
    assert!(output.contains("**Science**"));
    assert!(output.contains("- **Physics - Study of matter**"));
}

#[test]
fn format_instant_answer_exact_text() {
    let response = response(
        "A",
        "S",
        "U",
        vec![
            RelatedTopic::Topic(item("x", "1")),
            RelatedTopic::Category { name: "G".to_string(), topics: vec![item("y", "2"), item("z", "3")] },
        ],
    );
    assert_eq!(
        format_instant_answer("q", &response),
        "## Instant Answer for \"q\"\n\n### Abstract\nA\n\n**Source:** S\n**URL:** U\n\n### Related Topics\n- **x**\n\n**G**\n- **y**\n- **z**\n\n_Source: DuckDuckGo Instant Answer API_"
    );
    let empty = response_with_nothing();
    assert_eq!(
        format_instant_answer("q", &empty),
        "## Instant Answer for \"q\"\n\nNo instant answer available for this query.\n\n_Source: DuckDuckGo Instant Answer API_"
    );
}

fn response_with_nothing() -> InstantAnswerResponse {
    response("", "Ignored", "https://ignored.example", vec![])
}
