//! The filter engine: which tasks a search string shows, and in what order.

use vstd::prelude::*;

use crate::model::Task;
use crate::text::chars_of;
use crate::text::lowercase;
use crate::text::lowercase_of;
use crate::text::occurs;
use crate::text::occurs_in;
use crate::text::texts_of;

verus! {

/// A description is shown under a search string when the string is empty or
/// occurs in the description, letter case set aside.
pub open spec fn is_shown(description: Seq<char>, search: Seq<char>) -> bool {
    search.len() == 0 || occurs_in(lowercase_of(search), lowercase_of(description))
}

/// The positions below `n` of the tasks that `search` shows, in list order.
pub open spec fn matching_below(tasks: Seq<Task>, search: Seq<char>, n: nat) -> Seq<usize>
    decreases n,
{
    if n == 0 {
        Seq::empty()
    } else {
        let before = matching_below(tasks, search, (n - 1) as nat);
        if is_shown(tasks[n - 1].description@, search) {
            before.push((n - 1) as usize)
        } else {
            before
        }
    }
}

/// The filtered view: the positions in `tasks` of the tasks that `search`
/// shows, in list order.
pub open spec fn filtered(tasks: Seq<Task>, search: Seq<char>) -> Seq<usize> {
    matching_below(tasks, search, tasks.len())
}

/// `view` picks out of `tasks`, in their order and each once, exactly the
/// tasks that `search` shows.
pub open spec fn is_view_of(view: Seq<usize>, tasks: Seq<Task>, search: Seq<char>) -> bool {
    &&& forall|a: int, b: int| 0 <= a < b < view.len() ==> view[a] < view[b]
    &&& forall|a: int|
        0 <= a < view.len() ==> view[a] < tasks.len() && is_shown(
            tasks[view[a] as int].description@,
            search,
        )
    &&& forall|i: int|
        0 <= i < tasks.len() && is_shown(#[trigger] tasks[i].description@, search) ==> view.contains(
            i as usize,
        )
}

/// The matching positions below `n` are a view of the first `n` tasks.
proof fn lemma_matching_below(tasks: Seq<Task>, search: Seq<char>, n: nat)
    requires
        n <= tasks.len(),
        tasks.len() <= usize::MAX,
    ensures
        is_view_of(matching_below(tasks, search, n), tasks.take(n as int), search),
        matching_below(tasks, search, n).len() <= n,
    decreases n,
{
    let view = matching_below(tasks, search, n);
    if n > 0 {
        let before = matching_below(tasks, search, (n - 1) as nat);
        lemma_matching_below(tasks, search, (n - 1) as nat);
        let shorter = tasks.take(n - 1);
        let prefix = tasks.take(n as int);
        assert forall|a: int| 0 <= a < view.len() implies view[a] < prefix.len() && is_shown(
            prefix[view[a] as int].description@,
            search,
        ) by {
            if a < before.len() {
                assert(before[a] < shorter.len());
                assert(shorter[before[a] as int] == prefix[before[a] as int]);
            }
        }
        assert forall|a: int, b: int| 0 <= a < b < view.len() implies view[a] < view[b] by {
            if b == before.len() {
                assert(before[a] < shorter.len());
            }
        }
        assert forall|i: int|
            0 <= i < prefix.len() && is_shown(
                #[trigger] prefix[i].description@,
                search,
            ) implies view.contains(i as usize) by {
            if i < n - 1 {
                assert(shorter[i] == prefix[i]);
                assert(before.contains(i as usize));
                let at = choose|at: int| 0 <= at < before.len() && before[at] == i as usize;
                assert(view[at] == i as usize);
            } else {
                assert(view[view.len() - 1] == i as usize);
            }
        }
    }
}

/// The filtered view is a subsequence of the task list that keeps its order
/// and holds exactly the tasks whose description contains the search string,
/// letter case set aside.
pub proof fn lemma_filtered_is_view(tasks: Seq<Task>, search: Seq<char>)
    requires
        tasks.len() <= usize::MAX,
    ensures
        is_view_of(filtered(tasks, search), tasks, search),
        filtered(tasks, search).len() <= tasks.len(),
{
    lemma_matching_below(tasks, search, tasks.len());
    assert(tasks.take(tasks.len() as int) =~= tasks);
}

/// Only one sequence is a view of a task list under a search string.
pub proof fn lemma_view_is_unique(
    first: Seq<usize>,
    second: Seq<usize>,
    tasks: Seq<Task>,
    search: Seq<char>,
)
    requires
        is_view_of(first, tasks, search),
        is_view_of(second, tasks, search),
    ensures
        first == second,
    decreases first.len() + second.len(),
{
    if first.len() == 0 {
        if second.len() > 0 {
            assert(first.contains(second[0]));
        }
        assert(first =~= second);
    } else if second.len() == 0 {
        assert(second.contains(first[0]));
    } else {
        let x = first.last();
        let y = second.last();
        assert(second.contains(x));
        assert(first.contains(y));
        let at_x = choose|at: int| 0 <= at < second.len() && second[at] == x;
        let at_y = choose|at: int| 0 <= at < first.len() && first[at] == y;
        assert(x == y) by {
            if at_x < second.len() - 1 {
                assert(second[at_x] < second[second.len() - 1]);
            }
            if at_y < first.len() - 1 {
                assert(first[at_y] < first[first.len() - 1]);
            }
        }
        let cut = tasks.take(x as int);
        let f = first.drop_last();
        let s = second.drop_last();
        assert(is_view_of(f, cut, search)) by {
            assert forall|a: int| 0 <= a < f.len() implies f[a] < cut.len() && is_shown(
                cut[f[a] as int].description@,
                search,
            ) by {
                assert(first[a] < first[first.len() - 1]);
            }
            assert forall|i: int|
                0 <= i < cut.len() && is_shown(
                    #[trigger] cut[i].description@,
                    search,
                ) implies f.contains(i as usize) by {
                assert(tasks[i] == cut[i]);
                assert(first.contains(i as usize));
                let at = choose|at: int| 0 <= at < first.len() && first[at] == i as usize;
                assert(f[at] == i as usize);
            }
        }
        assert(is_view_of(s, cut, search)) by {
            assert forall|a: int| 0 <= a < s.len() implies s[a] < cut.len() && is_shown(
                cut[s[a] as int].description@,
                search,
            ) by {
                assert(second[a] < second[second.len() - 1]);
            }
            assert forall|i: int|
                0 <= i < cut.len() && is_shown(
                    #[trigger] cut[i].description@,
                    search,
                ) implies s.contains(i as usize) by {
                assert(tasks[i] == cut[i]);
                assert(second.contains(i as usize));
                let at = choose|at: int| 0 <= at < second.len() && second[at] == i as usize;
                assert(s[at] == i as usize);
            }
        }
        lemma_view_is_unique(f, s, cut, search);
        assert(first =~= f.push(x));
        assert(second =~= s.push(y));
    }
}

/// Under an empty search string every position below `n` matches.
proof fn lemma_all_match_below(tasks: Seq<Task>, n: nat)
    requires
        n <= tasks.len(),
    ensures
        matching_below(tasks, Seq::empty(), n) == Seq::new(n, |i: int| i as usize),
    decreases n,
{
    if n > 0 {
        lemma_all_match_below(tasks, (n - 1) as nat);
    }
    assert(matching_below(tasks, Seq::empty(), n) =~= Seq::new(n, |i: int| i as usize));
}

/// An empty search string shows the whole list, unchanged.
pub proof fn lemma_empty_search_shows_all(tasks: Seq<Task>)
    ensures
        filtered(tasks, Seq::empty()) == Seq::new(tasks.len(), |i: int| i as usize),
{
    lemma_all_match_below(tasks, tasks.len());
}

/// The positions below `n` of the texts that hold `needle` as a contiguous
/// part, in order.
pub open spec fn holding_below(texts: Seq<Seq<char>>, needle: Seq<char>, n: nat) -> Seq<usize>
    decreases n,
{
    if n == 0 {
        Seq::empty()
    } else {
        let before = holding_below(texts, needle, (n - 1) as nat);
        if occurs_in(needle, texts[n - 1]) {
            before.push((n - 1) as usize)
        } else {
            before
        }
    }
}

/// The positions of the texts that hold `needle` as a contiguous part, in
/// order.
pub open spec fn holding(texts: Seq<Seq<char>>, needle: Seq<char>) -> Seq<usize> {
    holding_below(texts, needle, texts.len())
}

/// The descriptions of a task list in lower case, in list order.
pub open spec fn lowered(tasks: Seq<Task>) -> Seq<Seq<char>> {
    Seq::new(tasks.len(), |i: int| lowercase_of(tasks[i].description@))
}

/// Under a search string that is not empty, the tasks shown are those whose
/// lower-cased description holds the lower-cased search string.
pub proof fn lemma_filtered_is_holding(tasks: Seq<Task>, search: Seq<char>, n: nat)
    requires
        search.len() > 0,
        n <= tasks.len(),
    ensures
        matching_below(tasks, search, n) == holding_below(
            lowered(tasks),
            lowercase_of(search),
            n,
        ),
    decreases n,
{
    if n > 0 {
        lemma_filtered_is_holding(tasks, search, (n - 1) as nat);
    }
}

/// Picks out of `texts`, already in lower case, the positions of those that
/// hold `needle`, already in lower case, as a contiguous part.
pub fn select(texts: &Vec<String>, needle: &str) -> (view: Vec<usize>)
    ensures
        view@ == holding(texts_of(texts@), needle@),
{
    let needle_chars = chars_of(needle);
    let mut view: Vec<usize> = Vec::new();
    let mut i: usize = 0;
    while i < texts.len()
        invariant
            i <= texts.len(),
            needle_chars@ == needle@,
            view@ == holding_below(texts_of(texts@), needle@, i as nat),
        decreases texts.len() - i,
    {
        let hay = chars_of(texts[i].as_str());
        if occurs(&hay, &needle_chars) {
            view.push(i);
        }
        i = i + 1;
    }
    view
}

/// Writes every description of a task list in lower case.
pub fn lowered_descriptions(tasks: &Vec<Task>) -> (texts: Vec<String>)
    ensures
        texts_of(texts@) == lowered(tasks@),
{
    let mut texts: Vec<String> = Vec::new();
    let mut i: usize = 0;
    while i < tasks.len()
        invariant
            i <= tasks.len(),
            texts@.len() == i,
            forall|k: int| 0 <= k < i ==> (#[trigger] texts@[k])@ == lowercase_of(
                tasks@[k].description@,
            ),
        decreases tasks.len() - i,
    {
        texts.push(lowercase(tasks[i].description.as_str()));
        i = i + 1;
    }
    assert(texts_of(texts@) =~= lowered(tasks@));
    texts
}

/// Every position of a list of `len` entries, in order.
pub fn every_position(len: usize) -> (view: Vec<usize>)
    ensures
        view@ == Seq::new(len as nat, |i: int| i as usize),
{
    let mut view: Vec<usize> = Vec::new();
    let mut i: usize = 0;
    while i < len
        invariant
            i <= len,
            view@ == Seq::new(i as nat, |k: int| k as usize),
        decreases len - i,
    {
        view.push(i);
        i = i + 1;
        assert(view@ =~= Seq::new(i as nat, |k: int| k as usize));
    }
    view
}

/// Computes the filtered view of `tasks` under `search`: every position
/// under an empty search string; otherwise the positions of the descriptions
/// that, in lower case, hold the search string in lower case.
pub fn filter(tasks: &Vec<Task>, search: &str) -> (view: Vec<usize>)
    ensures
        view@ == filtered(tasks@, search@),
        is_view_of(view@, tasks@, search@),
        view@.len() <= tasks@.len(),
        search@.len() == 0 ==> view@ == Seq::new(tasks@.len(), |i: int| i as usize),
        search@.len() > 0 ==> view@ == holding(lowered(tasks@), lowercase_of(search@)),
{
    proof {
        assert(tasks.len() <= usize::MAX);
        lemma_filtered_is_view(tasks@, search@);
    }
    if search.is_empty() {
        proof {
            assert(search@ =~= Seq::empty());
            lemma_empty_search_shows_all(tasks@);
        }
        every_position(tasks.len())
    } else {
        let texts = lowered_descriptions(tasks);
        let needle = lowercase(search);
        proof {
            lemma_filtered_is_holding(tasks@, search@, tasks@.len());
        }
        select(&texts, needle.as_str())
    }
}

} // verus!
