//! The latest metrics of each asset, kept for queries.
//!
//! The board holds one snapshot per symbol: a newer one replaces the older.
//! A symbol that no pipeline has reported on yet is not found.

use crate::models::MarketMetrics;
use vstd::prelude::*;
use vstd::string::StringExecFns;

verus! {

/// The board of latest metrics.
pub struct MetricsBoard<T> {
    entries: Vec<MarketMetrics<T>>,
}

/// The place of the snapshot of `symbol` among `entries`, if there is one.
pub open spec fn holds_at<T>(entries: Seq<MarketMetrics<T>>, symbol: Seq<char>, i: int) -> bool {
    0 <= i < entries.len() && entries[i].symbol@ == symbol
}

/// No two snapshots of `entries` are for the same symbol.
pub open spec fn one_per_symbol<T>(entries: Seq<MarketMetrics<T>>) -> bool {
    forall|i: int, j: int|
        0 <= i < j < entries.len() ==> entries[i].symbol@ != entries[j].symbol@
}

/// The snapshots of `entries` by symbol.
pub open spec fn by_symbol<T>(entries: Seq<MarketMetrics<T>>) -> Map<Seq<char>, MarketMetrics<T>> {
    Map::new(
        |symbol: Seq<char>| exists|i: int| holds_at(entries, symbol, i),
        |symbol: Seq<char>| entries[choose|i: int| holds_at(entries, symbol, i)],
    )
}

proof fn entry_is_found<T>(entries: Seq<MarketMetrics<T>>, i: int)
    requires
        one_per_symbol(entries),
        0 <= i < entries.len(),
    ensures
        by_symbol(entries).contains_key(entries[i].symbol@),
        by_symbol(entries)[entries[i].symbol@] == entries[i],
{
    let symbol = entries[i].symbol@;
    assert(holds_at(entries, symbol, i));
    let j = choose|j: int| holds_at(entries, symbol, j);
    assert(holds_at(entries, symbol, j));
    assert(i == j);
}

proof fn replaced_entry<T>(entries: Seq<MarketMetrics<T>>, i: int, metrics: MarketMetrics<T>)
    requires
        one_per_symbol(entries),
        0 <= i < entries.len(),
        entries[i].symbol@ == metrics.symbol@,
    ensures
        one_per_symbol(entries.update(i, metrics)),
        by_symbol(entries.update(i, metrics)) == by_symbol(entries).insert(
            metrics.symbol@,
            metrics,
        ),
{
    let after = entries.update(i, metrics);
    assert(one_per_symbol(after)) by {
        assert forall|a: int, b: int| 0 <= a < b < after.len() implies after[a].symbol@
            != after[b].symbol@ by {
            assert(after[a].symbol@ == entries[a].symbol@);
            assert(after[b].symbol@ == entries[b].symbol@);
        }
    }
    assert forall|symbol: Seq<char>|
        by_symbol(after).contains_key(symbol) == by_symbol(entries).insert(
            metrics.symbol@,
            metrics,
        ).contains_key(symbol) by {
        if by_symbol(after).contains_key(symbol) {
            let k = choose|k: int| holds_at(after, symbol, k);
            assert(holds_at(entries, symbol, k));
        }
        if by_symbol(entries).contains_key(symbol) {
            let k = choose|k: int| holds_at(entries, symbol, k);
            assert(holds_at(after, symbol, k));
        }
        if symbol == metrics.symbol@ {
            assert(holds_at(after, symbol, i));
        }
    }
    assert forall|symbol: Seq<char>| by_symbol(after).contains_key(symbol) implies by_symbol(
        after,
    )[symbol] == by_symbol(entries).insert(metrics.symbol@, metrics)[symbol] by {
        let k = choose|k: int| holds_at(after, symbol, k);
        assert(holds_at(after, symbol, k));
        entry_is_found(after, k);
        if k != i {
            assert(holds_at(entries, symbol, k));
            entry_is_found(entries, k);
        }
    }
    assert(by_symbol(after) =~= by_symbol(entries).insert(metrics.symbol@, metrics));
}

proof fn added_entry<T>(entries: Seq<MarketMetrics<T>>, metrics: MarketMetrics<T>)
    requires
        one_per_symbol(entries),
        !by_symbol(entries).contains_key(metrics.symbol@),
    ensures
        one_per_symbol(entries.push(metrics)),
        by_symbol(entries.push(metrics)) == by_symbol(entries).insert(metrics.symbol@, metrics),
{
    let after = entries.push(metrics);
    let last = entries.len() as int;
    assert(one_per_symbol(after)) by {
        assert forall|a: int, b: int| 0 <= a < b < after.len() implies after[a].symbol@
            != after[b].symbol@ by {
            if b == last {
                if after[a].symbol@ == metrics.symbol@ {
                    assert(holds_at(entries, metrics.symbol@, a));
                }
            }
        }
    }
    assert forall|symbol: Seq<char>|
        by_symbol(after).contains_key(symbol) == by_symbol(entries).insert(
            metrics.symbol@,
            metrics,
        ).contains_key(symbol) by {
        if by_symbol(after).contains_key(symbol) {
            let k = choose|k: int| holds_at(after, symbol, k);
            if k != last {
                assert(holds_at(entries, symbol, k));
            }
        }
        if by_symbol(entries).contains_key(symbol) {
            let k = choose|k: int| holds_at(entries, symbol, k);
            assert(holds_at(after, symbol, k));
        }
        if symbol == metrics.symbol@ {
            assert(holds_at(after, symbol, last));
        }
    }
    assert forall|symbol: Seq<char>| by_symbol(after).contains_key(symbol) implies by_symbol(
        after,
    )[symbol] == by_symbol(entries).insert(metrics.symbol@, metrics)[symbol] by {
        let k = choose|k: int| holds_at(after, symbol, k);
        assert(holds_at(after, symbol, k));
        entry_is_found(after, k);
        if k != last {
            assert(holds_at(entries, symbol, k));
            entry_is_found(entries, k);
        }
    }
    assert(by_symbol(after) =~= by_symbol(entries).insert(metrics.symbol@, metrics));
}

impl<T> View for MetricsBoard<T> {
    type V = Map<Seq<char>, MarketMetrics<T>>;

    /// The latest snapshot of each symbol that has one.
    closed spec fn view(&self) -> Map<Seq<char>, MarketMetrics<T>> {
        by_symbol(self.entries@)
    }
}

impl<T> MetricsBoard<T> {
    #[verifier::type_invariant]
    spec fn distinct_symbols(&self) -> bool {
        one_per_symbol(self.entries@)
    }
}

impl<T: Copy> MetricsBoard<T> {
    /// A board without snapshots.
    pub fn new() -> (board: Self)
        ensures
            board@ == Map::<Seq<char>, MarketMetrics<T>>::empty(),
    {
        let board = MetricsBoard { entries: Vec::new() };
        assert(board@ =~= Map::<Seq<char>, MarketMetrics<T>>::empty());
        board
    }

    fn find(&self, symbol: &String) -> (place: Option<usize>)
        ensures
            match place {
                Some(index) => holds_at(self.entries@, symbol@, index as int),
                None => !self@.contains_key(symbol@),
            },
    {
        let mut index: usize = 0;
        while index < self.entries.len()
            invariant
                index <= self.entries@.len(),
                forall|k: int| 0 <= k < index ==> !holds_at(self.entries@, symbol@, k),
            decreases self.entries@.len() - index,
        {
            if self.entries[index].symbol == *symbol {
                return Some(index);
            }
            index = index + 1;
        }
        None
    }

    /// The latest snapshot of `symbol`; `None` for a symbol that has not
    /// been reported on.
    pub fn latest_metrics(&self, symbol: &str) -> (found: Option<MarketMetrics<T>>)
        ensures
            found == (if self@.contains_key(symbol@) {
                Some(self@[symbol@])
            } else {
                None
            }),
    {
        proof {
            use_type_invariant(self);
        }
        let wanted = String::from_str(symbol);
        match self.find(&wanted) {
            None => None,
            Some(index) => {
                proof {
                    entry_is_found(self.entries@, index as int);
                }
                let entry = &self.entries[index];
                Some(
                    MarketMetrics {
                        symbol: entry.symbol.clone(),
                        price: entry.price,
                        price_change_percent: entry.price_change_percent,
                        volume: entry.volume,
                        volume_ratio: entry.volume_ratio,
                        rsi: entry.rsi,
                        volatility: entry.volatility,
                        tempo_bias: entry.tempo_bias,
                        last_updated: entry.last_updated,
                    },
                )
            },
        }
    }

    /// Records `metrics` as the latest snapshot of its symbol. The
    /// snapshots of all other symbols stay as they are.
    pub fn update_metrics(&mut self, metrics: MarketMetrics<T>)
        ensures
            final(self)@ == old(self)@.insert(metrics.symbol@, metrics),
    {
        proof {
            use_type_invariant(&*self);
        }
        let place = self.find(&metrics.symbol);
        let mut entries: Vec<MarketMetrics<T>> = Vec::new();
        std::mem::swap(&mut entries, &mut self.entries);
        match place {
            Some(index) => {
                proof {
                    replaced_entry(entries@, index as int, metrics);
                }
                entries.set(index, metrics);
            },
            None => {
                proof {
                    added_entry(entries@, metrics);
                }
                entries.push(metrics);
            },
        }
        self.entries = entries;
    }
}

} // verus!
