//! Subject alternative names: from the entries of a certificate's extension
//! to the DNS names that a check reports.
//!
//! An entry is modelled by what this library reads of it: `Some(name)` for an
//! entry of type `dNSName`, `None` for an entry of any other type.

use vstd::prelude::*;

verus! {

/// The DNS names among `entries`: the entries of another type are left out, and
/// the names stand in the order of their entries.
pub open spec fn dns_names_of(entries: Seq<Option<Seq<char>>>) -> Seq<Seq<char>> {
    entries.filter_map(|entry: Option<Seq<char>>| entry)
}

/// The alternative names of a certificate whose extension is `extension`: none
/// where the certificate has no such extension.
pub open spec fn alternative_names_of(extension: Option<Seq<Option<Seq<char>>>>) -> Seq<
    Seq<char>,
> {
    match extension {
        Some(entries) => dns_names_of(entries),
        None => Seq::empty(),
    }
}

/// Whether `picks` are positions below `len`, each greater than the one before.
pub open spec fn rising_positions(picks: Seq<int>, len: int) -> bool {
    &&& forall|k: int| 0 <= k < picks.len() ==> 0 <= #[trigger] picks[k] < len
    &&& forall|j: int, k: int| 0 <= j < k < picks.len() ==> picks[j] < picks[k]
}

/// Collects the DNS names among `entries`, in the order of the entries.
pub fn dns_names(entries: &Vec<Option<String>>) -> (names: Vec<String>)
    ensures
        names.deep_view() == dns_names_of(entries.deep_view()),
{
    let ghost model = entries.deep_view();
    let mut names: Vec<String> = Vec::new();
    let mut i: usize = 0;
    while i < entries.len()
        invariant
            i <= entries.len(),
            model == entries.deep_view(),
            names.deep_view() == dns_names_of(model.take(i as int)),
        decreases entries.len() - i,
    {
        proof {
            model.lemma_filter_map_take_succ(|entry: Option<Seq<char>>| entry, i as int);
        }
        let ghost before = names.deep_view();
        match &entries[i] {
            Some(name) => {
                names.push(name.clone());
                assert(names.deep_view() =~= before.push(name@));
            },
            None => {},
        }
        i = i + 1;
    }
    assert(model.take(i as int) =~= model);
    names
}

/// Collects the alternative names that a check reports for a certificate whose
/// extension is `extension`. A certificate without the extension has none, and
/// this is no failure.
pub fn alternative_names(extension: &Option<Vec<Option<String>>>) -> (names: Vec<String>)
    ensures
        names.deep_view() == alternative_names_of(extension.deep_view()),
{
    match extension {
        Some(entries) => dns_names(entries),
        None => Vec::new(),
    }
}

/// The alternative names keep the order of the extension: the names are
/// exactly the DNS entries, read from first to last. The positions returned
/// show it: one for each name, rising, each holding its name; and no DNS entry
/// of the extension is passed over.
pub proof fn lemma_names_keep_order(entries: Seq<Option<Seq<char>>>) -> (picks: Seq<int>)
    ensures
        picks.len() == dns_names_of(entries).len(),
        rising_positions(picks, entries.len() as int),
        forall|k: int|
            0 <= k < picks.len() ==> entries[#[trigger] picks[k]] == Some(
                dns_names_of(entries)[k],
            ),
        forall|i: int|
            0 <= i < entries.len() && (#[trigger] entries[i]) is Some ==> picks.contains(i),
    decreases entries.len(),
{
    if entries.len() == 0 {
        Seq::empty()
    } else {
        let front = entries.drop_last();
        let last = entries.len() - 1;
        let front_picks = lemma_names_keep_order(front);
        let picks = match entries.last() {
            Some(_) => front_picks.push(last),
            None => front_picks,
        };
        assert forall|i: int| 0 <= i < entries.len() && (#[trigger] entries[i]) is Some implies picks.contains(i) by {
            if i < last {
                assert(front[i] is Some);
                let k = choose|k: int| 0 <= k < front_picks.len() && front_picks[k] == i;
                assert(picks[k] == i);
            } else {
                assert(picks[picks.len() - 1] == i);
            }
        }
        picks
    }
}

/// A certificate without the extension has no alternative names.
pub proof fn lemma_no_extension_no_names()
    ensures
        alternative_names_of(None) == Seq::<Seq<char>>::empty(),
{
}

} // verus!
