use vstd::prelude::*;
use scraper::{Html, Selector};
use crate::search::{results_view, SearchResult};
use crate::text::{trim, trimmed};

verus! {

/// What a result block holds, as plain text: the title text, the title's link target and the
/// snippet text, each if present.
pub type BlockView = (Option<Seq<char>>, Option<Seq<char>>, Option<Seq<char>>);

/// What scraper reads from the document `html`: for each element matching the selector
/// `block_css`, in document order, the text and `href` of its first descendant matching
/// `title_css` and the text of its first descendant matching `snippet_css`; `None` when one
/// of the selectors is refused.
pub uninterp spec fn page_blocks(
    html: Seq<char>,
    block_css: Seq<char>,
    title_css: Seq<char>,
    snippet_css: Seq<char>,
) -> Option<Seq<BlockView>>;

/// Relies on scraper: `Selector::parse` compiles each selector, `Html::parse_document` builds
/// the document, `Html::select` walks the matching blocks in document order,
/// `ElementRef::select(..).next()` takes a block's first matching descendant, `text` joins its
/// text nodes and `attr` reads its `href`. The result depends on the four texts alone.
#[verifier::external_body]
fn scan_page(html: &str, block_css: &str, title_css: &str, snippet_css: &str) -> (r: Option<Vec<ResultBlock>>)
    ensures
        page_blocks(html@, block_css@, title_css@, snippet_css@) == match r {
            Some(v) => Some(blocks_view(v@)),
            None => None,
        },
{
    let (Ok(block), Ok(title), Ok(snippet)) = (Selector::parse(block_css), Selector::parse(title_css), Selector::parse(snippet_css)) else {
        return None;
    };
    let mut blocks = Vec::new();
    for el in Html::parse_document(html).select(&block) {
        let head = el.select(&title).next();
        blocks.push(ResultBlock {
            title: head.map(|h| h.text().collect()),
            href: head.and_then(|h| h.attr("href")).map(|v| v.to_string()),
            snippet: el.select(&snippet).next().map(|x| x.text().collect()),
        });
    }
    Some(blocks)
}

/// What one result block of a page holds, untrimmed: the text and link target of its title
/// element (both `None` when it has no title element; the link `None` also when the title
/// carries none) and the text of its snippet element, if it has one.
#[derive(Debug)]
pub struct ResultBlock {
    pub title: Option<String>,
    pub href: Option<String>,
    pub snippet: Option<String>,
}

/// The text of an optional string.
pub open spec fn opt_text(o: Option<String>) -> Option<Seq<char>> {
    match o {
        Some(t) => Some(t@),
        None => None,
    }
}

impl View for ResultBlock {
    type V = BlockView;

    open spec fn view(&self) -> BlockView {
        (opt_text(self.title), opt_text(self.href), opt_text(self.snippet))
    }
}

/// The views of a list of blocks.
pub open spec fn blocks_view(bs: Seq<ResultBlock>) -> Seq<BlockView> {
    bs.map_values(|b: ResultBlock| b@)
}

/// A block yields a result when its title has both a text and a link target.
pub open spec fn is_complete(b: BlockView) -> bool {
    b.0 is Some && b.1 is Some
}

/// The result a complete block yields: trimmed title, link target, trimmed snippet (empty when
/// the block has none).
pub open spec fn block_result(b: BlockView) -> (Seq<char>, Seq<char>, Seq<char>) {
    (
        trimmed(b.0->Some_0),
        b.1->Some_0,
        match b.2 {
            Some(s) => trimmed(s),
            None => trimmed(Seq::empty()),
        },
    )
}

/// The results of all complete blocks, in document order.
pub open spec fn block_results(blocks: Seq<BlockView>) -> Seq<(Seq<char>, Seq<char>, Seq<char>)>
    decreases blocks.len(),
{
    if blocks.len() == 0 {
        Seq::empty()
    } else if is_complete(blocks.last()) {
        block_results(blocks.drop_last()).push(block_result(blocks.last()))
    } else {
        block_results(blocks.drop_last())
    }
}

/// The first `max_results` results of the complete blocks, in document order.
pub open spec fn extracted(blocks: Seq<BlockView>, max_results: nat) -> Seq<(Seq<char>, Seq<char>, Seq<char>)> {
    let all = block_results(blocks);
    if all.len() <= max_results {
        all
    } else {
        all.subrange(0, max_results as int)
    }
}

/// The results of a shorter prefix of blocks are a prefix of those of a longer one.
pub proof fn lemma_block_results_prefix(blocks: Seq<BlockView>, i: int, j: int)
    requires
        0 <= i <= j <= blocks.len(),
    ensures
        block_results(blocks.subrange(0, i)).len() <= block_results(blocks.subrange(0, j)).len(),
        block_results(blocks.subrange(0, i)) == block_results(blocks.subrange(0, j)).subrange(
            0,
            block_results(blocks.subrange(0, i)).len() as int,
        ),
    decreases j - i,
{
    if i < j {
        lemma_block_results_prefix(blocks, i, j - 1);
        assert(blocks.subrange(0, j).drop_last() =~= blocks.subrange(0, j - 1));
        let a = block_results(blocks.subrange(0, i));
        let b = block_results(blocks.subrange(0, j - 1));
        let c = block_results(blocks.subrange(0, j));
        assert(c.subrange(0, b.len() as int) =~= b);
        assert(c.subrange(0, a.len() as int) =~= b.subrange(0, a.len() as int));
    }
}

/// When every block is complete, each yields its result, in order.
proof fn lemma_all_complete(blocks: Seq<BlockView>)
    requires
        forall|i: int| 0 <= i < blocks.len() ==> is_complete(#[trigger] blocks[i]),
    ensures
        block_results(blocks) == blocks.map_values(|b: BlockView| block_result(b)),
    decreases blocks.len(),
{
    if blocks.len() > 0 {
        lemma_all_complete(blocks.drop_last());
        assert(block_results(blocks) =~= blocks.map_values(|b: BlockView| block_result(b)));
    }
}

/// A page of `K` complete result blocks, read with a budget of `m`, yields `min(K, m)` results:
/// those of the first blocks, in document order, titles and snippets trimmed.
pub proof fn lemma_complete_blocks(blocks: Seq<BlockView>, max_results: nat)
    requires
        forall|i: int| 0 <= i < blocks.len() ==> is_complete(#[trigger] blocks[i]),
    ensures
        extracted(blocks, max_results).len() == if blocks.len() <= max_results {
            blocks.len()
        } else {
            max_results
        },
        forall|i: int|
            0 <= i < extracted(blocks, max_results).len() ==> #[trigger] extracted(blocks, max_results)[i]
                == block_result(blocks[i]),
{
    lemma_all_complete(blocks);
}

proof fn lemma_insert_incomplete(blocks: Seq<BlockView>, at: int, b: BlockView)
    requires
        0 <= at <= blocks.len(),
        !is_complete(b),
    ensures
        block_results(blocks.insert(at, b)) == block_results(blocks),
    decreases blocks.len(),
{
    let longer = blocks.insert(at, b);
    if at == blocks.len() {
        assert(longer.drop_last() =~= blocks);
    } else {
        lemma_insert_incomplete(blocks.drop_last(), at, b);
        assert(longer.drop_last() =~= blocks.drop_last().insert(at, b));
        assert(longer.last() == blocks.last());
    }
}

/// A block without a title text or link target is dropped and does not use up the budget:
/// inserting one anywhere changes nothing.
pub proof fn lemma_incomplete_block_dropped(blocks: Seq<BlockView>, at: int, b: BlockView, max_results: nat)
    requires
        0 <= at <= blocks.len(),
        !is_complete(b),
    ensures
        extracted(blocks.insert(at, b), max_results) == extracted(blocks, max_results),
{
    lemma_insert_incomplete(blocks, at, b);
}

/// A budget of zero yields nothing.
pub proof fn lemma_zero_budget(blocks: Seq<BlockView>)
    ensures
        extracted(blocks, 0).len() == 0,
{
}

/// Turns result blocks, in document order, into at most `max_results` search results: blocks
/// without a title text or link target are skipped without counting, titles and snippets are
/// trimmed, a missing snippet becomes empty.
pub fn extract_results(blocks: &Vec<ResultBlock>, max_results: usize) -> (r: Vec<SearchResult>)
    ensures
        results_view(r@) == extracted(blocks_view(blocks@), max_results as nat),
{
    let ghost bv = blocks_view(blocks@);
    let mut out: Vec<SearchResult> = Vec::new();
    let mut i: usize = 0;
    while i < blocks.len() && out.len() < max_results
        invariant
            i <= blocks@.len(),
            out@.len() <= max_results,
            bv == blocks_view(blocks@),
            results_view(out@) == block_results(bv.subrange(0, i as int)),
        decreases blocks@.len() - i,
    {
        let block = &blocks[i];
        let ghost prev = out@;
        assert(bv[i as int] == block@);
        match (&block.title, &block.href) {
            (Some(title), Some(href)) => {
                let snippet = match &block.snippet {
                    Some(s) => trim(s.as_str()),
                    None => trim(""),
                };
                out.push(SearchResult { title: trim(title.as_str()), url: href.clone(), snippet });
                proof {
                    if block.snippet is None {
                        reveal_strlit("");
                        assert(""@ =~= Seq::<char>::empty());
                    }
                    assert(out@ == prev.push(out@.last()));
                    assert(results_view(out@) =~= results_view(prev).push(block_result(block@)));
                }
            },
            _ => {},
        }
        assert(bv.subrange(0, i + 1).drop_last() =~= bv.subrange(0, i as int));
        i = i + 1;
    }
    proof {
        let n = bv.len() as int;
        assert(bv.subrange(0, n) =~= bv);
        lemma_block_results_prefix(bv, i as int, n);
        let all = block_results(bv);
        if out@.len() == max_results {
            assert(all.subrange(0, max_results as int) == results_view(out@));
        } else {
            assert(i == n);
        }
    }
    out
}

/// The results of the page `html` with a budget of `max_results`: the extraction of what
/// scraper reads from it with the result-page selectors, nothing when a selector is refused.
pub open spec fn page_results(html: Seq<char>, max_results: nat) -> Seq<(Seq<char>, Seq<char>, Seq<char>)> {
    match page_blocks(html, ".result"@, ".result__a"@, ".result__snippet"@) {
        Some(blocks) => extracted(blocks, max_results),
        None => Seq::empty(),
    }
}

/// Extracts at most `max_results` search results from a result page, in document order.
/// A page is read only when `max_results` is positive.
pub fn parse_html_results(html: &str, max_results: usize) -> (r: Vec<SearchResult>)
    ensures
        results_view(r@) == page_results(html@, max_results as nat),
{
    if max_results == 0 {
        let r = Vec::new();
        assert(results_view(r@) =~= page_results(html@, 0));
        return r;
    }
    match scan_page(html, ".result", ".result__a", ".result__snippet") {
        Some(blocks) => extract_results(&blocks, max_results),
        None => {
            let r = Vec::new();
            assert(results_view(r@) =~= Seq::<(Seq<char>, Seq<char>, Seq<char>)>::empty());
            r
        },
    }
}

} // verus!
