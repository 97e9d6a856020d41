//! Where a chart goes in the game folder: its own folder name when free,
//! else a numbered variant, else a variant with a fresh id.

use vstd::prelude::*;
use crate::names;
use crate::paths::{ChartPath, PartView};
use crate::text;

verus! {

/// `<folder> (<n>)`.
pub open spec fn numbered_name(folder: Seq<char>, n: nat) -> Seq<char> {
    folder + " ("@ + text::decimal(n) + ")"@
}

/// The names tried for a folder, in order: the name itself, then
/// `<name> (2)` up to `<name> (999)`.
pub open spec fn name_candidates(folder: Seq<char>) -> Seq<Seq<char>> {
    Seq::new(999, |i: int| if i == 0 { folder } else { numbered_name(folder, (i + 1) as nat) })
}

/// The names tried for a new install: the chosen folder name, then the
/// candidates for "<title> by <charter>".
pub open spec fn new_install_candidates_of(
    folder: Seq<char>,
    title: Seq<char>,
    charter: Seq<char>,
) -> Seq<Seq<char>> {
    seq![folder] + name_candidates(names::sanitized(names::title_by_charter(title, charter)))
}

fn push_candidates(out: &mut Vec<String>, folder: &str)
    ensures
        final(out)@.map_values(|s: String| s@) == old(out)@.map_values(|s: String| s@) + name_candidates(folder@),
{
    let ghost base = old(out)@.map_values(|s: String| s@);
    let start = out.len();
    out.push(text::string_from(&text::chars_of(folder)));
    let mut n: u32 = 2;
    while n <= 999
        invariant
            2 <= n <= 1000,
            out@.len() == start + n - 1,
            start == old(out)@.len(),
            forall|k: int| 0 <= k < start ==> (#[trigger] out@[k])@ == base[k],
            base == old(out)@.map_values(|s: String| s@),
            forall|k: int| 0 <= k < n - 1 ==> (#[trigger] out@[start + k])@ == name_candidates(folder@)[k],
        decreases 1000 - n,
    {
        let mut v = text::chars_of(folder);
        text::append_str(&mut v, " (");
        text::append_chars(&mut v, &text::decimal_chars(n as u64));
        text::append_str(&mut v, ")");
        out.push(text::string_from(&v));
        n = n + 1;
    }
    let ghost m = out@.map_values(|s: String| s@);
    let ghost want = base + name_candidates(folder@);
    assert(m.len() == want.len());
    assert forall|k: int| 0 <= k < m.len() implies m[k] == want[k] by {
        if k < start {
            assert(out@[k]@ == base[k]);
        } else {
            assert(out@[start + (k - start)]@ == name_candidates(folder@)[k - start]);
        }
    }
    assert(m =~= want);
}

/// The names tried, in order, when placing a folder named `folder_name`.
pub fn unique_candidates(folder_name: &str) -> (r: Vec<String>)
    ensures
        r@.map_values(|s: String| s@) == name_candidates(folder_name@),
{
    let mut out: Vec<String> = Vec::new();
    push_candidates(&mut out, folder_name);
    assert(Seq::<Seq<char>>::empty() + name_candidates(folder_name@) == name_candidates(folder_name@));
    out
}

/// The names tried, in order, for a new install: `folder_name`, then the
/// numbered forms of "<title> by <charter>".
pub fn new_install_candidates(folder_name: &str, title: &str, charter: &str) -> (r: Vec<String>)
    ensures
        r@.map_values(|s: String| s@) == new_install_candidates_of(folder_name@, title@, charter@),
{
    let mut out: Vec<String> = Vec::new();
    out.push(text::string_from(&text::chars_of(folder_name)));
    assert(out@.map_values(|s: String| s@) =~= seq![folder_name@]);
    let conflict = names::conflicting_install_folder_name(title, charter);
    push_candidates(&mut out, conflict.as_str());
    out
}

/// The first candidate the app found free (`present[i]` says whether
/// candidate `i` exists already), if any.
pub fn first_free(present: &Vec<bool>) -> (r: Option<usize>)
    ensures
        match r {
            Some(i) => i < present@.len() && !present@[i as int] && forall|j: int| 0 <= j < i ==> present@[j],
            None => forall|j: int| 0 <= j < present@.len() ==> present@[j],
        },
{
    let mut i: usize = 0;
    while i < present.len()
        invariant
            i <= present@.len(),
            forall|j: int| 0 <= j < i ==> present@[j],
        decreases present@.len() - i,
    {
        if !present[i] {
            return Some(i);
        }
        i = i + 1;
    }
    None
}

/// `<base>-<id>` with a fresh random id: the last resort when every
/// numbered name is taken.
pub fn fallback_install_name(base: &str) -> (r: String)
    ensures
        exists|id: Seq<char>| crate::ids::is_simple_uuid(id) && r@ == base@ + "-"@ + id,
{
    let id = crate::ids::new_simple_id();
    let mut v = text::chars_of(base);
    text::append_str(&mut v, "-");
    text::append_chars(&mut v, &text::chars_of(id.as_str()));
    text::string_from(&v)
}

/// Where a folder named `folder` lands under `target`, given which
/// candidate names are taken: the first free candidate, else the name with
/// a fresh simple UUID appended.
pub open spec fn unique_placement(
    target: Seq<PartView>,
    folder: Seq<char>,
    present: Seq<bool>,
    r: Seq<PartView>,
) -> bool {
    match first_free_index(present) {
        Some(i) => r == target.push(PartView::Normal(name_candidates(folder)[i])),
        None => exists|id: Seq<char>|
            crate::ids::is_simple_uuid(id) && r == target.push(PartView::Normal(folder + "-"@ + id)),
    }
}

/// Where a new install lands under `target`, given which candidate names
/// are taken: the first free candidate of `new_install_candidates_of`, else
/// "<title> by <charter>" with a fresh simple UUID appended.
pub open spec fn new_install_placement(
    target: Seq<PartView>,
    folder: Seq<char>,
    title: Seq<char>,
    charter: Seq<char>,
    present: Seq<bool>,
    r: Seq<PartView>,
) -> bool {
    match first_free_index(present) {
        Some(i) => r == target.push(
            PartView::Normal(new_install_candidates_of(folder, title, charter)[i]),
        ),
        None => exists|id: Seq<char>|
            crate::ids::is_simple_uuid(id) && r == target.push(
                PartView::Normal(names::sanitized(names::title_by_charter(title, charter)) + "-"@ + id),
            ),
    }
}

/// The presence flags the app reported, cut or filled to `n`: a name whose
/// presence was not reported counts as taken.
pub open spec fn reported_flags(present: Seq<bool>, n: nat) -> Seq<bool> {
    Seq::new(n, |i: int| if i < present.len() { present[i] } else { true })
}

/// `reported_flags` of the app's flags.
pub fn fit_flags(present: &Vec<bool>, n: usize) -> (r: Vec<bool>)
    ensures
        r@ == reported_flags(present@, n as nat),
{
    let mut out: Vec<bool> = Vec::new();
    let mut i: usize = 0;
    while i < n
        invariant
            i <= n,
            out@.len() == i,
            forall|k: int| 0 <= k < i ==> out@[k] == (if k < present@.len() { present@[k] } else { true }),
        decreases n - i,
    {
        if i < present.len() {
            out.push(present[i]);
        } else {
            out.push(true);
        }
        i = i + 1;
    }
    assert(out@ =~= reported_flags(present@, n as nat));
    out
}

/// The path for a folder placed under `target`: the first of `candidates`
/// that the app found free, else `<fallback_base>-<fresh id>`.
pub fn place_under(
    target: &ChartPath,
    candidates: &Vec<String>,
    present: &Vec<bool>,
    fallback_base: &str,
) -> (r: ChartPath)
    requires
        present@.len() == candidates@.len(),
    ensures
        match first_free_index(present@) {
            Some(i) => r@ == target@.push(PartView::Normal(candidates@[i]@)),
            None => exists|id: Seq<char>|
                crate::ids::is_simple_uuid(id) && r@ == target@.push(
                    PartView::Normal(fallback_base@ + "-"@ + id),
                ),
        },
{
    match first_free(present) {
        Some(i) => {
            proof {
                lemma_first_free_index(present@, i as int);
            }
            target.join_name(candidates[i].as_str())
        },
        None => {
            proof {
                lemma_first_free_none(present@);
            }
            let name = fallback_install_name(fallback_base);
            target.join_name(name.as_str())
        },
    }
}

/// The path for a chart restored from the trash or a backup: the first
/// free name among `folder_name`, `<folder_name> (2)` ... `<folder_name> (999)`
/// (`present` says which candidates of [`unique_candidates`] exist), else
/// `<folder_name>-<fresh id>`.
pub fn unique_install_path(target: &ChartPath, folder_name: &str, present: &Vec<bool>) -> (r: ChartPath)
    requires
        present@.len() == name_candidates(folder_name@).len(),
    ensures
        unique_placement(target@, folder_name@, present@, r@),
{
    let candidates = unique_candidates(folder_name);
    proof {
        assert forall|i: int| 0 <= i < candidates@.len() implies candidates@[i]@ == name_candidates(folder_name@)[i] by {
            assert(candidates@.map_values(|s: String| s@)[i] == candidates@[i]@);
        }
    }
    proof {
        lemma_first_free_bounds(present@);
    }
    place_under(target, &candidates, present, folder_name)
}

/// The path for a new install: `folder_name` when free, else the first free
/// numbered form of "<title> by <charter>" (`present` says which candidates
/// of [`new_install_candidates`] exist), else that name with a fresh id.
pub fn new_install_path(
    target: &ChartPath,
    folder_name: &str,
    title: &str,
    charter: &str,
    present: &Vec<bool>,
) -> (r: ChartPath)
    requires
        present@.len() == new_install_candidates_of(folder_name@, title@, charter@).len(),
    ensures
        new_install_placement(target@, folder_name@, title@, charter@, present@, r@),
{
    let candidates = new_install_candidates(folder_name, title, charter);
    let conflict = names::conflicting_install_folder_name(title, charter);
    proof {
        assert forall|i: int| 0 <= i < candidates@.len() implies candidates@[i]@
            == new_install_candidates_of(folder_name@, title@, charter@)[i] by {
            assert(candidates@.map_values(|s: String| s@)[i] == candidates@[i]@);
        }
    }
    proof {
        lemma_first_free_bounds(present@);
    }
    place_under(target, &candidates, present, conflict.as_str())
}

/// The index of the first `false`, if any.
pub open spec fn first_free_index(present: Seq<bool>) -> Option<int>
    decreases present.len(),
{
    if present.len() == 0 {
        None
    } else if !present[0] {
        Some(0)
    } else {
        match first_free_index(present.drop_first()) {
            Some(i) => Some(i + 1),
            None => None,
        }
    }
}

proof fn lemma_first_free_bounds(present: Seq<bool>)
    ensures
        first_free_index(present) matches Some(i) ==> 0 <= i < present.len(),
    decreases present.len(),
{
    if present.len() > 0 {
        lemma_first_free_bounds(present.drop_first());
    }
}

proof fn lemma_first_free_index(present: Seq<bool>, i: int)
    requires
        0 <= i < present.len(),
        !present[i],
        forall|j: int| 0 <= j < i ==> present[j],
    ensures
        first_free_index(present) == Some(i),
    decreases i,
{
    if i > 0 {
        lemma_first_free_index(present.drop_first(), i - 1);
    }
}

proof fn lemma_first_free_none(present: Seq<bool>)
    requires
        forall|j: int| 0 <= j < present.len() ==> present[j],
    ensures
        first_free_index(present) is None,
    decreases present.len(),
{
    if present.len() > 0 {
        lemma_first_free_none(present.drop_first());
    }
}

/// Placing a folder never takes a name that is in use: the name chosen is
/// the first candidate found free, every candidate before it is taken, and
/// the fallback is used only when every candidate is taken.
pub proof fn lemma_placement_takes_first_free(present: Seq<bool>)
    ensures
        match first_free_index(present) {
            Some(i) => 0 <= i < present.len() && !present[i] && forall|j: int| 0 <= j < i ==> present[j],
            None => forall|j: int| 0 <= j < present.len() ==> present[j],
        },
    decreases present.len(),
{
    if present.len() > 0 && present[0] {
        let d = present.drop_first();
        lemma_placement_takes_first_free(d);
        match first_free_index(d) {
            Some(i) => {
                assert forall|j: int| 0 <= j < i + 1 implies present[j] by {
                    if j > 0 {
                        assert(present[j] == d[j - 1]);
                    }
                }
            },
            None => {
                assert forall|j: int| 0 <= j < present.len() implies present[j] by {
                    if j > 0 {
                        assert(present[j] == d[j - 1]);
                    }
                }
            },
        }
    }
}

} // verus!
