//! Merging the stock listings of the exchanges into one collection keyed by
//! ticker, with the semantics of a map built from the concatenated listings:
//! a ticker that appears more than once keeps its last occurrence. The map
//! is a vector with unique tickers, first occurrence deciding the position.

use vstd::prelude::*;
use crate::text::eq_str;

verus! {

/// One listed stock as the external source reports it.
pub struct StockInfo {
    pub ticker: String,
    pub name: String,
}

/// The position of the first entry with this ticker; negative when absent.
pub open spec fn stock_index(items: Seq<StockInfo>, key: Seq<char>) -> int
    decreases items.len(),
{
    if items.len() == 0 {
        -1
    } else if items[0].ticker@ == key {
        0
    } else {
        let r = stock_index(items.drop_first(), key);
        if r < 0 {
            -1
        } else {
            r + 1
        }
    }
}

/// What `stock_index` finds: a real position holding the key, or a
/// guarantee that the key is absent.
proof fn lemma_stock_index_props(items: Seq<StockInfo>, key: Seq<char>)
    ensures
        stock_index(items, key) >= 0 ==> stock_index(items, key) < items.len() && items[stock_index(
            items,
            key,
        )].ticker@ == key,
        stock_index(items, key) < 0 ==> forall|i: int|
            0 <= i < items.len() ==> items[i].ticker@ != key,
    decreases items.len(),
{
    if items.len() > 0 && items[0].ticker@ != key {
        lemma_stock_index_props(items.drop_first(), key);
        assert(forall|i: int| 1 <= i < items.len() ==> items[i] == items.drop_first()[i - 1]);
    }
}

/// If the first `j` entries miss the key and entry `j` holds it (or `j` is
/// the length), `stock_index` finds exactly `j` (or reports absence).
proof fn lemma_stock_index_at(items: Seq<StockInfo>, key: Seq<char>, j: int)
    requires
        0 <= j <= items.len(),
        forall|k: int| 0 <= k < j ==> items[k].ticker@ != key,
        j < items.len() ==> items[j].ticker@ == key,
    ensures
        stock_index(items, key) == if j < items.len() {
            j
        } else {
            -1
        },
    decreases j, items.len(),
{
    if items.len() == 0 {
    } else if j == 0 {
    } else {
        assert(forall|k: int| 0 <= k < j - 1 ==> items.drop_first()[k].ticker@ != key);
        lemma_stock_index_at(items.drop_first(), key, j - 1);
    }
}

/// Folding `items` into `acc`, one entry at a time: a known ticker is
/// replaced in place (last occurrence wins), a new one is appended.
pub open spec fn spec_merge_into(acc: Seq<StockInfo>, items: Seq<StockInfo>) -> Seq<StockInfo>
    decreases items.len(),
{
    if items.len() == 0 {
        acc
    } else {
        let folded = spec_merge_into(acc, items.drop_last());
        let s = items.last();
        let i = stock_index(folded, s.ticker@);
        if i < 0 {
            folded.push(s)
        } else {
            folded.update(i, s)
        }
    }
}

/// The merged listing: every ticker once, with its last occurrence.
pub open spec fn spec_merge_stocks(items: Seq<StockInfo>) -> Seq<StockInfo> {
    spec_merge_into(Seq::empty(), items)
}

/// Folding distributes over concatenation.
proof fn lemma_merge_into_append(acc: Seq<StockInfo>, a: Seq<StockInfo>, b: Seq<StockInfo>)
    ensures
        spec_merge_into(acc, a + b) == spec_merge_into(spec_merge_into(acc, a), b),
    decreases b.len(),
{
    if b.len() == 0 {
        assert(a + b =~= a);
    } else {
        lemma_merge_into_append(acc, a, b.drop_last());
        assert((a + b).drop_last() =~= a + b.drop_last());
    }
}

/// Folds one exchange's listing into the accumulated merge.
fn merge_into(acc: &mut Vec<StockInfo>, items: Vec<StockInfo>)
    ensures
        final(acc)@ == spec_merge_into(old(acc)@, items@),
{
    let mut items = items;
    let ghost orig = items@;
    let ghost mut processed: int = 0;
    while items.len() > 0
        invariant
            0 <= processed,
            processed + items@.len() == orig.len(),
            items@ =~= orig.skip(processed),
            acc@ == spec_merge_into(old(acc)@, orig.take(processed)),
        decreases items@.len(),
    {
        let s = items.remove(0);
        proof {
            assert(s == orig[processed]);
            assert(items@ =~= orig.skip(processed + 1));
            assert(orig.take(processed + 1).drop_last() =~= orig.take(processed));
            assert(orig.take(processed + 1).last() == orig[processed]);
        }
        let ghost folded = acc@;
        let n = acc.len();
        let mut j: usize = 0;
        while j < n && !eq_str(acc[j].ticker.as_str(), s.ticker.as_str())
            invariant
                0 <= j <= n == acc.len(),
                acc@ == folded,
                forall|k: int| 0 <= k < j ==> folded[k].ticker@ != s.ticker@,
            decreases n - j,
        {
            j = j + 1;
        }
        proof {
            lemma_stock_index_at(folded, s.ticker@, j as int);
        }
        if j == n {
            acc.push(s);
        } else {
            let _ = acc.remove(j);
            acc.insert(j, s);
            proof {
                assert(acc@ =~= folded.update(j as int, s));
            }
        }
        proof {
            processed = processed + 1;
        }
    }
    proof {
        assert(orig.take(processed) =~= orig);
    }
}

/// Merges the listings of the three exchanges into one collection with a
/// single entry per ticker; a ticker listed more than once keeps the entry
/// seen last, as a map built from the concatenated listings would.
pub fn merge_stocks(nyse: Vec<StockInfo>, nasdaq: Vec<StockInfo>, amex: Vec<StockInfo>) -> (r: Vec<
    StockInfo,
>)
    ensures
        r@ == spec_merge_stocks(nyse@ + nasdaq@ + amex@),
{
    let ghost a = nyse@;
    let ghost b = nasdaq@;
    let ghost c = amex@;
    let mut acc: Vec<StockInfo> = Vec::new();
    merge_into(&mut acc, nyse);
    merge_into(&mut acc, nasdaq);
    merge_into(&mut acc, amex);
    proof {
        lemma_merge_into_append(Seq::empty(), a, b);
        lemma_merge_into_append(Seq::empty(), a + b, c);
        assert(a + b + c =~= (a + b) + c);
    }
    acc
}

/// Folding keeps tickers unique.
proof fn lemma_merge_into_unique(acc: Seq<StockInfo>, items: Seq<StockInfo>)
    requires
        forall|i: int, j: int|
            0 <= i < j < acc.len() ==> acc[i].ticker@ != acc[j].ticker@,
    ensures
        forall|i: int, j: int|
            0 <= i < j < spec_merge_into(acc, items).len() ==> spec_merge_into(acc, items)[i].ticker@
                != spec_merge_into(acc, items)[j].ticker@,
    decreases items.len(),
{
    if items.len() > 0 {
        lemma_merge_into_unique(acc, items.drop_last());
        let folded = spec_merge_into(acc, items.drop_last());
        let s = items.last();
        lemma_stock_index_props(folded, s.ticker@);
    }
}

/// The merged listing holds each ticker at most once: the invariant of a
/// collection keyed by ticker.
pub proof fn lemma_merged_tickers_unique(items: Seq<StockInfo>)
    ensures
        forall|i: int, j: int|
            0 <= i < j < spec_merge_stocks(items).len() ==> spec_merge_stocks(items)[i].ticker@
                != spec_merge_stocks(items)[j].ticker@,
{
    lemma_merge_into_unique(Seq::empty(), items);
}

} // verus!
