//! Lookup tables keyed by page, kept as entries with unique pages.
use vstd::prelude::*;
use crate::page::{Page, PageView};

verus! {

/// No page appears twice among the entries.
pub open spec fn keys_unique<V>(s: Seq<(Page, V)>) -> bool {
    forall|i: int, j: int| 0 <= i < j < s.len() ==> (#[trigger] s[i]).0@ != (#[trigger] s[j]).0@
}

/// The table the entries stand for; a later entry for a page replaces an
/// earlier one.
pub open spec fn entries_map<V>(s: Seq<(Page, V)>) -> Map<PageView, V>
    decreases s.len(),
{
    if s.len() == 0 {
        Map::empty()
    } else {
        entries_map(s.drop_last()).insert(s.last().0@, s.last().1)
    }
}

/// With unique pages, the table holds exactly the entries' pages, each with
/// its entry's value.
pub proof fn lemma_entries_map<V>(s: Seq<(Page, V)>)
    requires
        keys_unique(s),
    ensures
        forall|k: PageView| #[trigger] entries_map(s).dom().contains(k) <==> exists|i: int| 0 <= i < s.len() && (#[trigger] s[i]).0@ == k,
        forall|i: int| 0 <= i < s.len() ==> #[trigger] entries_map(s)[s[i].0@] == s[i].1,
    decreases s.len(),
{
    if s.len() > 0 {
        let init = s.drop_last();
        assert(keys_unique(init)) by {
            assert forall|i: int, j: int| 0 <= i < j < init.len() implies (#[trigger] init[i]).0@ != (#[trigger] init[j]).0@ by {
                assert(init[i] == s[i] && init[j] == s[j]);
            }
        }
        lemma_entries_map(init);
        let last = s.len() - 1;
        assert(entries_map(s) == entries_map(init).insert(s[last].0@, s[last].1));
        assert forall|k: PageView| #[trigger] entries_map(s).dom().contains(k) <==> exists|i: int| 0 <= i < s.len() && (#[trigger] s[i]).0@ == k by {
            if entries_map(s).dom().contains(k) {
                if k == s[last].0@ {
                    assert(s[last].0@ == k);
                } else {
                    assert(entries_map(init).dom().contains(k));
                    let i = choose|i: int| 0 <= i < init.len() && (#[trigger] init[i]).0@ == k;
                    assert(s[i] == init[i]);
                }
            }
            if exists|i: int| 0 <= i < s.len() && (#[trigger] s[i]).0@ == k {
                let i = choose|i: int| 0 <= i < s.len() && (#[trigger] s[i]).0@ == k;
                if i < last {
                    assert(init[i] == s[i]);
                    assert(entries_map(init).dom().contains(k));
                }
            }
        }
        assert forall|i: int| 0 <= i < s.len() implies #[trigger] entries_map(s)[s[i].0@] == s[i].1 by {
            if i < last {
                assert(init[i] == s[i]);
                assert(s[i].0@ != s[last].0@);
            }
        }
    }
}

/// Where `page` stands among the entries, if it is there.
pub fn find_page<V>(entries: &Vec<(Page, V)>, page: &Page) -> (r: Option<usize>)
    ensures
        match r {
            Some(i) => i < entries@.len() && entries@[i as int].0@ == page@,
            None => forall|i: int| 0 <= i < entries@.len() ==> (#[trigger] entries@[i]).0@ != page@,
        },
{
    let mut i: usize = 0;
    while i < entries.len()
        invariant
            0 <= i <= entries@.len(),
            forall|j: int| 0 <= j < i ==> (#[trigger] entries@[j]).0@ != page@,
        decreases entries@.len() - i,
    {
        if entries[i].0 == *page {
            return Some(i);
        }
        i = i + 1;
    }
    None
}

/// Binds `page` to `value`, replacing what the page was bound to.
pub fn insert_entry<V>(entries: &mut Vec<(Page, V)>, page: Page, value: V)
    requires
        keys_unique(old(entries)@),
    ensures
        keys_unique(final(entries)@),
        entries_map(final(entries)@) == entries_map(old(entries)@).insert(page@, value),
{
    let ghost before = entries@;
    let ghost key = page@;
    match find_page(entries, &page) {
        Some(i) => {
            entries.set(i, (page, value));
            proof {
                let after = entries@;
                assert(keys_unique(after)) by {
                    assert forall|a: int, b: int| 0 <= a < b < after.len() implies (#[trigger] after[a]).0@ != (#[trigger] after[b]).0@ by {
                        assert(before[a].0@ != before[b].0@);
                    }
                }
                lemma_entries_map(before);
                lemma_entries_map(after);
                assert forall|k: PageView| #[trigger] entries_map(after).dom().contains(k) == entries_map(before).insert(key, value).dom().contains(k) by {
                    if exists|j: int| 0 <= j < after.len() && (#[trigger] after[j]).0@ == k {
                        let j = choose|j: int| 0 <= j < after.len() && (#[trigger] after[j]).0@ == k;
                        if j != i {
                            assert(before[j] == after[j]);
                        }
                    }
                    if exists|j: int| 0 <= j < before.len() && (#[trigger] before[j]).0@ == k {
                        let j = choose|j: int| 0 <= j < before.len() && (#[trigger] before[j]).0@ == k;
                        if j != i {
                            assert(before[j] == after[j]);
                        } else {
                            assert(after[j].0@ == k);
                        }
                    }
                    if k == key {
                        assert(after[i as int].0@ == k);
                    }
                }
                assert forall|k: PageView| #[trigger] entries_map(after).dom().contains(k) implies entries_map(after)[k] == entries_map(before).insert(key, value)[k] by {
                    let j = choose|j: int| 0 <= j < after.len() && (#[trigger] after[j]).0@ == k;
                    if j != i {
                        assert(before[j] == after[j]);
                    }
                }
                assert(entries_map(after) =~= entries_map(before).insert(key, value));
            }
        },
        None => {
            entries.push((page, value));
            proof {
                let after = entries@;
                assert(after.drop_last() =~= before);
                assert(keys_unique(after)) by {
                    assert forall|a: int, b: int| 0 <= a < b < after.len() implies (#[trigger] after[a]).0@ != (#[trigger] after[b]).0@ by {
                        assert(after[a] == before[a] || a >= before.len());
                        if b < before.len() {
                            assert(before[a].0@ != before[b].0@);
                        } else {
                            assert(before[a].0@ != key);
                        }
                    }
                }
            }
        },
    }
}

/// With unique pages, the table has one key per entry.
pub proof fn lemma_entries_map_len<V>(s: Seq<(Page, V)>)
    requires
        keys_unique(s),
    ensures
        entries_map(s).len() == s.len(),
        entries_map(s).dom().finite(),
    decreases s.len(),
{
    if s.len() > 0 {
        let init = s.drop_last();
        assert(keys_unique(init)) by {
            assert forall|i: int, j: int| 0 <= i < j < init.len() implies (#[trigger] init[i]).0@ != (#[trigger] init[j]).0@ by {
                assert(init[i] == s[i] && init[j] == s[j]);
            }
        }
        lemma_entries_map_len(init);
        lemma_entries_map(init);
        let last = s.len() - 1;
        if entries_map(init).dom().contains(s[last].0@) {
            let i = choose|i: int| 0 <= i < init.len() && (#[trigger] init[i]).0@ == s[last].0@;
            assert(init[i] == s[i]);
        }
    }
}

} // verus!
