//! Search over the catalogue: which commands a query finds, and in what order.

use vstd::prelude::*;
use crate::data::{catalog_fits, catalog_size, Category, Command};
use crate::text::{chars_of, contains_chars, contains_seq, lowercase, occurs_at, to_lowercase};

verus! {

/// `id` names a command of the catalogue: a category and a position in it.
pub open spec fn valid_id(categories: Seq<Category>, id: (usize, usize)) -> bool {
    &&& id.0 < categories.len()
    &&& id.1 < categories[id.0 as int].commands@.len()
}

/// The command that `id` names.
pub open spec fn command_at(categories: Seq<Category>, id: (usize, usize)) -> Command {
    categories[id.0 as int].commands@[id.1 as int]
}

/// A command is found by a query (already in lower case) when the query
/// occurs in the lower-case form of its command line or of its description.
pub open spec fn command_matches(command: Command, query: Seq<char>) -> bool {
    contains_seq(lowercase(command.cmd@), query) || contains_seq(lowercase(command.desc@), query)
}

/// The matching commands among the first `upto` commands of category `c`.
pub open spec fn category_hits(categories: Seq<Category>, c: int, query: Seq<char>, upto: int) -> Seq<
    (usize, usize),
>
    decreases upto,
{
    if upto <= 0 {
        seq![]
    } else {
        let before = category_hits(categories, c, query, upto - 1);
        if command_matches(categories[c].commands@[upto - 1], query) {
            before.push((c as usize, (upto - 1) as usize))
        } else {
            before
        }
    }
}

/// The matching commands of the first `n` categories, category by category.
pub open spec fn hits_upto(categories: Seq<Category>, query: Seq<char>, n: int) -> Seq<
    (usize, usize),
>
    decreases n,
{
    if n <= 0 {
        seq![]
    } else {
        hits_upto(categories, query, n - 1) + category_hits(
            categories,
            n - 1,
            query,
            categories[n - 1].commands@.len() as int,
        )
    }
}

/// Every command that the query finds, in catalogue order.
pub open spec fn search_hits(categories: Seq<Category>, query: Seq<char>) -> Seq<(usize, usize)> {
    hits_upto(categories, query, categories.len() as int)
}

/// `a` comes before `b` in catalogue order.
pub open spec fn id_before(a: (usize, usize), b: (usize, usize)) -> bool {
    a.0 < b.0 || (a.0 == b.0 && a.1 < b.1)
}

/// Whether the lower-case query `query` finds `command`.
pub fn command_matches_lowered(command: &Command, query: &Vec<char>) -> (r: bool)
    ensures
        r == command_matches(*command, query@),
{
    let cmd_lower = to_lowercase(command.cmd);
    let cmd_chars = chars_of(cmd_lower.as_str());
    if contains_chars(&cmd_chars, query) {
        return true;
    }
    let desc_lower = to_lowercase(command.desc);
    let desc_chars = chars_of(desc_lower.as_str());
    contains_chars(&desc_chars, query)
}

/// Every command of the catalogue that the lower-case query `query` finds,
/// in catalogue order.
pub fn find_commands(categories: &Vec<Category>, query: &Vec<char>) -> (r: Vec<(usize, usize)>)
    requires
        catalog_fits(categories@),
    ensures
        r@ == search_hits(categories@, query@),
{
    let mut results: Vec<(usize, usize)> = Vec::new();
    let mut c: usize = 0;
    while c < categories.len()
        invariant
            c <= categories@.len(),
            catalog_fits(categories@),
            results@ == hits_upto(categories@, query@, c as int),
        decreases categories@.len() - c,
    {
        let commands = &categories[c].commands;
        assert(commands@.len() <= usize::MAX);
        let mut k: usize = 0;
        while k < commands.len()
            invariant
                c < categories@.len(),
                commands == categories@[c as int].commands,
                k <= commands@.len(),
                results@ == hits_upto(categories@, query@, c as int) + category_hits(
                    categories@,
                    c as int,
                    query@,
                    k as int,
                ),
            decreases commands@.len() - k,
        {
            let ghost before = category_hits(categories@, c as int, query@, k as int);
            if command_matches_lowered(&commands[k], query) {
                results.push((c, k));
                assert(hits_upto(categories@, query@, c as int) + before.push((c, k)) =~= (
                hits_upto(categories@, query@, c as int) + before).push((c, k)));
            }
            k = k + 1;
        }
        c = c + 1;
    }
    results
}

/// Each entry of `category_hits` names a matching command of category `c`
/// below `upto`; every such command is listed; positions strictly increase.
proof fn lemma_category_hits(categories: Seq<Category>, c: int, query: Seq<char>, upto: int)
    requires
        catalog_fits(categories),
        0 <= c < categories.len(),
        upto <= categories[c].commands@.len(),
    ensures
        ({
            let h = category_hits(categories, c, query, upto);
            &&& forall|j: int|
                0 <= j < h.len() ==> (#[trigger] h[j]).0 == c && 0 <= h[j].1 < upto
                    && command_matches(categories[c].commands@[h[j].1 as int], query)
            &&& forall|k: int|
                0 <= k < upto && command_matches(categories[c].commands@[k], query) ==> h.contains(
                    (c as usize, k as usize),
                )
            &&& forall|i: int, j: int| 0 <= i < j < h.len() ==> h[i].1 < h[j].1
        }),
    decreases upto,
{
    if upto > 0 {
        lemma_category_hits(categories, c, query, upto - 1);
        let before = category_hits(categories, c, query, upto - 1);
        let h = category_hits(categories, c, query, upto);
        assert forall|k: int|
            0 <= k < upto && command_matches(categories[c].commands@[k], query) implies h.contains(
            (c as usize, k as usize),
        ) by {
            if k < upto - 1 {
                let j = choose|j: int| 0 <= j < before.len() && before[j] == (c as usize, k as usize);
                assert(h[j] == before[j]);
            } else {
                assert(h[h.len() - 1] == (c as usize, k as usize));
            }
        }
    }
}

/// The results of a search are exactly the commands that the query finds:
/// each names a command of the catalogue that matches, every matching command
/// is among them, and they come in catalogue order, each once.
pub proof fn lemma_search_hits_exact(categories: Seq<Category>, query: Seq<char>)
    requires
        catalog_fits(categories),
    ensures
        forall|j: int|
            0 <= j < search_hits(categories, query).len() ==> valid_id(
                categories,
                #[trigger] search_hits(categories, query)[j],
            ) && command_matches(command_at(categories, search_hits(categories, query)[j]), query),
        forall|id: (usize, usize)|
            valid_id(categories, id) && command_matches(command_at(categories, id), query)
                ==> #[trigger] search_hits(categories, query).contains(id),
        forall|i: int, j: int|
            0 <= i < j < search_hits(categories, query).len() ==> id_before(
                #[trigger] search_hits(categories, query)[i],
                #[trigger] search_hits(categories, query)[j],
            ),
{
    lemma_hits_upto(categories, query, categories.len() as int);
}

proof fn lemma_hits_upto(categories: Seq<Category>, query: Seq<char>, n: int)
    requires
        catalog_fits(categories),
        n <= categories.len(),
    ensures
        ({
            let h = hits_upto(categories, query, n);
            &&& forall|j: int|
                0 <= j < h.len() ==> valid_id(categories, #[trigger] h[j]) && h[j].0 < n
                    && command_matches(command_at(categories, h[j]), query)
            &&& forall|id: (usize, usize)|
                valid_id(categories, id) && id.0 < n && command_matches(
                    command_at(categories, id),
                    query,
                ) ==> #[trigger] h.contains(id)
            &&& forall|i: int, j: int| 0 <= i < j < h.len() ==> id_before(#[trigger] h[i], #[trigger] h[j])
        }),
    decreases n,
{
    if n > 0 {
        lemma_hits_upto(categories, query, n - 1);
        let c = n - 1;
        let len = categories[c].commands@.len() as int;
        lemma_category_hits(categories, c, query, len);
        let before = hits_upto(categories, query, n - 1);
        let last = category_hits(categories, c, query, len);
        let h = hits_upto(categories, query, n);
        assert(h == before + last);
        assert forall|j: int| 0 <= j < h.len() implies valid_id(categories, #[trigger] h[j])
            && h[j].0 < n && command_matches(command_at(categories, h[j]), query) by {
            if j >= before.len() {
                assert(h[j] == last[j - before.len()]);
            } else {
                assert(h[j] == before[j]);
            }
        }
        assert forall|id: (usize, usize)|
            valid_id(categories, id) && id.0 < n && command_matches(
                command_at(categories, id),
                query,
            ) implies #[trigger] h.contains(id) by {
            if id.0 < c {
                assert(before.contains(id));
                let j = choose|j: int| 0 <= j < before.len() && before[j] == id;
                assert(h[j] == before[j]);
            } else {
                assert(last.contains((c as usize, id.1 as usize)));
                let j = choose|j: int| 0 <= j < last.len() && last[j] == id;
                assert(h[before.len() + j] == last[j]);
            }
        }
        assert forall|i: int, j: int| 0 <= i < j < h.len() implies id_before(
            #[trigger] h[i],
            #[trigger] h[j],
        ) by {
            if j < before.len() {
                assert(h[i] == before[i] && h[j] == before[j]);
            } else if i < before.len() {
                assert(h[i] == before[i] && h[j] == last[j - before.len()]);
            } else {
                assert(h[i] == last[i - before.len()] && h[j] == last[j - before.len()]);
            }
        }
    }
}

proof fn lemma_category_hits_len(categories: Seq<Category>, c: int, query: Seq<char>, upto: int)
    requires
        upto >= 0,
    ensures
        category_hits(categories, c, query, upto).len() <= upto,
        (forall|k: int| 0 <= k < upto ==> command_matches(#[trigger] categories[c].commands@[k], query))
            ==> category_hits(categories, c, query, upto).len() == upto,
    decreases upto,
{
    if upto > 0 {
        lemma_category_hits_len(categories, c, query, upto - 1);
    }
}

proof fn lemma_hits_upto_len(categories: Seq<Category>, query: Seq<char>, n: int)
    requires
        0 <= n <= categories.len(),
    ensures
        hits_upto(categories, query, n).len() <= catalog_size(categories.subrange(0, n)),
        (forall|id: (usize, usize)| valid_id(categories, id) ==> command_matches(
            #[trigger] command_at(categories, id),
            query,
        )) && catalog_fits(categories) ==> hits_upto(categories, query, n).len() == catalog_size(
            categories.subrange(0, n),
        ),
    decreases n,
{
    if n > 0 {
        lemma_hits_upto_len(categories, query, n - 1);
        let c = n - 1;
        let len = categories[c].commands@.len() as int;
        lemma_category_hits_len(categories, c, query, len);
        assert(categories.subrange(0, n).drop_last() =~= categories.subrange(0, n - 1));
        if (forall|id: (usize, usize)| valid_id(categories, id) ==> command_matches(
            #[trigger] command_at(categories, id),
            query,
        )) && catalog_fits(categories) {
            assert forall|k: int| 0 <= k < len implies command_matches(
                #[trigger] categories[c].commands@[k],
                query,
            ) by {
                assert(valid_id(categories, (c as usize, k as usize)));
                assert(command_at(categories, (c as usize, k as usize)) == categories[c].commands@[k]);
            }
        }
    } else {
        assert(categories.subrange(0, 0).len() == 0);
    }
}

/// A search never finds more commands than the catalogue has.
pub proof fn law_hits_at_most_catalog(categories: Seq<Category>, query: Seq<char>)
    ensures
        search_hits(categories, query).len() <= catalog_size(categories),
{
    lemma_hits_upto_len(categories, query, categories.len() as int);
    assert(categories.subrange(0, categories.len() as int) =~= categories);
}

/// The empty query finds every command of the catalogue.
pub proof fn law_empty_query_finds_all(categories: Seq<Category>)
    requires
        catalog_fits(categories),
    ensures
        search_hits(categories, seq![]).len() == catalog_size(categories),
        forall|id: (usize, usize)|
            valid_id(categories, id) ==> #[trigger] search_hits(categories, seq![]).contains(id),
{
    let empty = Seq::<char>::empty();
    assert forall|id: (usize, usize)| valid_id(categories, id) implies command_matches(
        #[trigger] command_at(categories, id),
        empty,
    ) by {
        let text = lowercase(command_at(categories, id).cmd@);
        assert(text.subrange(0, 0) =~= empty);
        assert(occurs_at(text, empty, 0));
    }
    lemma_hits_upto_len(categories, empty, categories.len() as int);
    assert(categories.subrange(0, categories.len() as int) =~= categories);
    lemma_search_hits_exact(categories, empty);
}

} // verus!
