use vstd::prelude::*;

verus! {

/// One ranked web result.
#[derive(Debug, Clone)]
pub struct SearchResult {
    pub title: String,
    pub url: String,
    pub snippet: String,
}

impl View for SearchResult {
    /// The title, link target and snippet.
    type V = (Seq<char>, Seq<char>, Seq<char>);

    open spec fn view(&self) -> Self::V {
        (self.title@, self.url@, self.snippet@)
    }
}

/// The views of a list of results.
pub open spec fn results_view(rs: Seq<SearchResult>) -> Seq<(Seq<char>, Seq<char>, Seq<char>)> {
    rs.map_values(|r: SearchResult| r@)
}

/// The ten decimal digits, in order.
pub open spec fn digit(d: nat) -> Seq<char>
    recommends
        d < 10,
{
    "0123456789"@.subrange(d as int, d as int + 1)
}

/// The decimal representation of `n`, without leading zeros.
pub open spec fn decimal(n: nat) -> Seq<char>
    decreases n,
{
    if n < 10 {
        digit(n)
    } else {
        decimal(n / 10) + digit(n % 10)
    }
}

/// Appends the decimal representation of `n` to `out`.
pub fn push_decimal(out: &mut String, n: usize)
    ensures
        final(out)@ == old(out)@ + decimal(n as nat),
    decreases n,
{
    proof {
        reveal_strlit("0123456789");
    }
    let ghost before = out@;
    if n >= 10 {
        push_decimal(out, n / 10);
    }
    let d = n % 10;
    out.append("0123456789".substring_char(d, d + 1));
    assert(out@ =~= before + decimal(n as nat));
}

/// The heading line of a results page for `query`.
pub open spec fn results_heading(query: Seq<char>) -> Seq<char> {
    "## Web Search Results for \""@ + query + "\"\n\n"@
}

/// The block for the result at position `i` (numbered from 1 in the text).
pub open spec fn result_entry(i: nat, r: (Seq<char>, Seq<char>, Seq<char>)) -> Seq<char> {
    "### "@ + decimal(i + 1) + ". "@ + r.0 + "\n"@ + "**URL:** "@ + r.1 + "\n"@ + r.2 + "\n\n---\n\n"@
}

/// The blocks of all results, in order.
pub open spec fn result_entries(rs: Seq<(Seq<char>, Seq<char>, Seq<char>)>) -> Seq<char>
    decreases rs.len(),
{
    if rs.len() == 0 {
        Seq::empty()
    } else {
        result_entries(rs.drop_last()) + result_entry((rs.len() - 1) as nat, rs.last())
    }
}

/// The Markdown rendering of search results for `query`: a heading, one numbered block per
/// result and a closing attribution that gives the count, or a fixed notice when there is none.
pub open spec fn results_markdown(query: Seq<char>, rs: Seq<(Seq<char>, Seq<char>, Seq<char>)>) -> Seq<char> {
    if rs.len() == 0 {
        results_heading(query) + "No results found.\n\n_Source: DuckDuckGo_"@
    } else {
        results_heading(query) + result_entries(rs) + "_Source: DuckDuckGo ("@ + decimal(rs.len())
            + " results)_"@
    }
}

/// Renders search results for `query` as Markdown.
pub fn format_results_markdown(query: &str, results: &[SearchResult]) -> (r: String)
    ensures
        r@ == results_markdown(query@, results_view(results@)),
{
    let ghost vs = results_view(results@);
    let mut output = String::new();
    output.append("## Web Search Results for \"");
    output.append(query);
    output.append("\"\n\n");
    let ghost heading = output@;
    assert(heading =~= results_heading(query@));
    if results.len() == 0 {
        output.append("No results found.\n\n_Source: DuckDuckGo_");
        assert(output@ =~= results_markdown(query@, vs));
        return output;
    }
    let mut i: usize = 0;
    while i < results.len()
        invariant
            i <= results@.len(),
            vs == results_view(results@),
            output@ == heading + result_entries(vs.subrange(0, i as int)),
        decreases results@.len() - i,
    {
        let ghost before = output@;
        output.append("### ");
        push_decimal(&mut output, i + 1);
        output.append(". ");
        output.append(results[i].title.as_str());
        output.append("\n");
        output.append("**URL:** ");
        output.append(results[i].url.as_str());
        output.append("\n");
        output.append(results[i].snippet.as_str());
        output.append("\n\n---\n\n");
        proof {
            let s = vs.subrange(0, i + 1);
            assert(s.drop_last() =~= vs.subrange(0, i as int));
            assert(vs[i as int] == results@[i as int]@);
            assert(output@ =~= before + result_entry(i as nat, vs[i as int]));
        }
        i = i + 1;
    }
    assert(vs.subrange(0, vs.len() as int) =~= vs);
    output.append("_Source: DuckDuckGo (");
    push_decimal(&mut output, results.len());
    output.append(" results)_");
    assert(output@ =~= results_markdown(query@, vs));
    output
}

} // verus!
