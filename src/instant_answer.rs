use vstd::prelude::*;

verus! {

/// One labelled link of the instant-answer response.
#[derive(Debug)]
pub struct ResultItem {
    pub text: String,
    pub first_url: String,
}

/// A related topic: a single link, or a named group of links.
#[derive(Debug)]
pub enum RelatedTopic {
    Topic(ResultItem),
    Category { name: String, topics: Vec<ResultItem> },
}

/// The instant-answer response, as decoded from the provider's body.
#[derive(Debug)]
pub struct InstantAnswerResponse {
    pub abstract_text: String,
    pub abstract_source: String,
    pub abstract_url: String,
    pub answer: String,
    pub definition: String,
    pub definition_source: String,
    pub definition_url: String,
    pub related_topics: Vec<RelatedTopic>,
    pub response_type: String,
}

/// The attribution line that closes every instant answer.
pub open spec fn attribution() -> Seq<char> {
    "_Source: DuckDuckGo Instant Answer API_"@
}

/// The heading line for `query`.
pub open spec fn answer_heading(query: Seq<char>) -> Seq<char> {
    "## Instant Answer for \""@ + query + "\"\n\n"@
}

/// A list line for one link.
pub open spec fn item_line(item: ResultItem) -> Seq<char> {
    "- **"@ + item.text@ + "**\n"@
}

/// The list lines of several links, in order.
pub open spec fn items_block(items: Seq<ResultItem>) -> Seq<char>
    decreases items.len(),
{
    if items.len() == 0 {
        Seq::empty()
    } else {
        items_block(items.drop_last()) + item_line(items.last())
    }
}

/// The rendering of one related topic: a list line, or a bold group name followed by its links.
pub open spec fn topic_block(t: RelatedTopic) -> Seq<char> {
    match t {
        RelatedTopic::Topic(item) => item_line(item),
        RelatedTopic::Category { name, topics } => "\n**"@ + name@ + "**\n"@ + items_block(topics@),
    }
}

/// The rendering of the related topics, in order.
pub open spec fn topics_block(ts: Seq<RelatedTopic>) -> Seq<char>
    decreases ts.len(),
{
    if ts.len() == 0 {
        Seq::empty()
    } else {
        topics_block(ts.drop_last()) + topic_block(ts.last())
    }
}

/// The abstract section.
pub open spec fn abstract_section(r: InstantAnswerResponse) -> Seq<char> {
    "### Abstract\n"@ + r.abstract_text@ + "\n\n"@ + "**Source:** "@ + r.abstract_source@ + "\n"@
        + "**URL:** "@ + r.abstract_url@ + "\n\n"@
}

/// The related-topics section.
pub open spec fn related_section(r: InstantAnswerResponse) -> Seq<char> {
    "### Related Topics\n"@ + topics_block(r.related_topics@) + "\n"@
}

/// The Markdown rendering of an instant answer: a heading, then the abstract section if the
/// abstract is non-empty and the related-topics section if there are topics, or a fixed notice
/// when there is neither; the attribution line always closes it.
pub open spec fn instant_answer_markdown(query: Seq<char>, r: InstantAnswerResponse) -> Seq<char> {
    let has_abstract = r.abstract_text@.len() > 0;
    let has_related = r.related_topics@.len() > 0;
    if !has_abstract && !has_related {
        answer_heading(query) + "No instant answer available for this query.\n\n"@ + attribution()
    } else {
        answer_heading(query) + (if has_abstract { abstract_section(r) } else { Seq::empty() }) + (
        if has_related {
            related_section(r)
        } else {
            Seq::empty()
        }) + attribution()
    }
}

fn push_items(out: &mut String, items: &Vec<ResultItem>)
    ensures
        final(out)@ == old(out)@ + items_block(items@),
{
    let mut i: usize = 0;
    while i < items.len()
        invariant
            i <= items@.len(),
            out@ == old(out)@ + items_block(items@.subrange(0, i as int)),
        decreases items@.len() - i,
    {
        let ghost before = out@;
        out.append("- **");
        out.append(items[i].text.as_str());
        out.append("**\n");
        proof {
            let s = items@.subrange(0, i + 1);
            assert(s.drop_last() =~= items@.subrange(0, i as int));
            assert(out@ =~= before + item_line(items@[i as int]));
        }
        i = i + 1;
    }
    assert(items@.subrange(0, items@.len() as int) =~= items@);
}

fn push_topics(out: &mut String, topics: &Vec<RelatedTopic>)
    ensures
        final(out)@ == old(out)@ + topics_block(topics@),
{
    let mut i: usize = 0;
    while i < topics.len()
        invariant
            i <= topics@.len(),
            out@ == old(out)@ + topics_block(topics@.subrange(0, i as int)),
        decreases topics@.len() - i,
    {
        let ghost before = out@;
        match &topics[i] {
            RelatedTopic::Topic(item) => {
                out.append("- **");
                out.append(item.text.as_str());
                out.append("**\n");
            },
            RelatedTopic::Category { name, topics: items } => {
                out.append("\n**");
                out.append(name.as_str());
                out.append("**\n");
                push_items(out, items);
            },
        }
        proof {
            let s = topics@.subrange(0, i + 1);
            assert(s.drop_last() =~= topics@.subrange(0, i as int));
            assert(out@ =~= before + topic_block(topics@[i as int]));
        }
        i = i + 1;
    }
    assert(topics@.subrange(0, topics@.len() as int) =~= topics@);
}

/// Renders an instant answer for `query` as Markdown.
pub fn format_instant_answer(query: &str, response: &InstantAnswerResponse) -> (r: String)
    ensures
        r@ == instant_answer_markdown(query@, *response),
{
    let mut output = String::new();
    output.append("## Instant Answer for \"");
    output.append(query);
    output.append("\"\n\n");
    let ghost heading = output@;
    assert(heading =~= answer_heading(query@));

    let has_abstract = !response.abstract_text.as_str().is_empty();
    let has_related = response.related_topics.len() > 0;

    if !has_abstract && !has_related {
        output.append("No instant answer available for this query.\n\n");
        output.append("_Source: DuckDuckGo Instant Answer API_");
        assert(output@ =~= instant_answer_markdown(query@, *response));
        return output;
    }
    if has_abstract {
        output.append("### Abstract\n");
        output.append(response.abstract_text.as_str());
        output.append("\n\n");
        output.append("**Source:** ");
        output.append(response.abstract_source.as_str());
        output.append("\n");
        output.append("**URL:** ");
        output.append(response.abstract_url.as_str());
        output.append("\n\n");
    }
    let ghost after_abstract = output@;
    assert(after_abstract =~= heading + (if has_abstract { abstract_section(*response) } else { Seq::empty() }));
    if has_related {
        output.append("### Related Topics\n");
        push_topics(&mut output, &response.related_topics);
        output.append("\n");
    }
    assert(output@ =~= after_abstract + (if has_related { related_section(*response) } else { Seq::empty() }));
    output.append("_Source: DuckDuckGo Instant Answer API_");
    assert(output@ =~= instant_answer_markdown(query@, *response));
    output
}

} // verus!
