//! Icon selection: which icon of the catalog is shown for a condition code.

use vstd::prelude::*;

use crate::render_plugin::{identifiers, ImageName};

verus! {

/// How an icon is drawn: not at all, or in full.
#[derive(Clone, Copy, Debug, PartialEq, Eq, Structural)]
pub enum Opacity {
    Transparent,
    Opaque,
}

/// The opacity of the icon called `identifier` when the condition code is
/// `target`.
pub open spec fn opacity_for(identifier: Seq<char>, target: Seq<char>) -> Opacity {
    if identifier == target {
        Opacity::Opaque
    } else {
        Opacity::Transparent
    }
}

/// The opacity of every entry of `catalog`, in catalog order, when the
/// condition code is `target`.
pub open spec fn selected(catalog: Seq<Seq<char>>, target: Seq<char>) -> Seq<Opacity> {
    Seq::new(catalog.len(), |i: int| opacity_for(catalog[i], target))
}

/// The same selection as a mapping from the identifiers of `catalog` to their
/// opacities.
pub open spec fn selection(catalog: Seq<Seq<char>>, target: Seq<char>) -> Map<Seq<char>, Opacity> {
    Map::new(|id: Seq<char>| catalog.contains(id), |id: Seq<char>| opacity_for(id, target))
}

/// Maps a condition code to the one icon that stands for it.
pub struct IconSelector;

impl IconSelector {
    /// The opacity of each catalog entry for the condition code `target`:
    /// opaque where the entry's identifier is the code, transparent
    /// everywhere else. A code that no entry carries leaves every icon
    /// transparent.
    pub fn select(catalog: &Vec<ImageName>, target: &String) -> (opacities: Vec<Opacity>)
        ensures
            opacities@ == selected(identifiers(catalog@), target@),
    {
        let mut opacities: Vec<Opacity> = Vec::new();
        let mut i: usize = 0;
        while i < catalog.len()
            invariant
                i <= catalog@.len(),
                opacities@.len() == i,
                forall|j: int|
                    0 <= j < i ==> opacities@[j] == opacity_for(
                        #[trigger] identifiers(catalog@)[j],
                        target@,
                    ),
            decreases catalog@.len() - i,
        {
            let opacity = if catalog[i].name == *target {
                Opacity::Opaque
            } else {
                Opacity::Transparent
            };
            opacities.push(opacity);
            i += 1;
        }
        opacities
    }
}

/// Every entry gets the opacity that the mapping gives its identifier, so the
/// order in which the catalog is walked has no part in the result.
pub proof fn lemma_selected_follows_selection(
    catalog: Seq<Seq<char>>,
    target: Seq<char>,
    i: int,
)
    requires
        0 <= i < catalog.len(),
    ensures
        selection(catalog, target).dom().contains(catalog[i]),
        selected(catalog, target)[i] == selection(catalog, target)[catalog[i]],
{
    assert(catalog.contains(catalog[i]));
}

/// Two catalogs that hold the same identifiers, in whatever order, map them to
/// the same opacities.
pub proof fn lemma_selection_ignores_order(
    first: Seq<Seq<char>>,
    second: Seq<Seq<char>>,
    target: Seq<char>,
)
    requires
        first.to_set() == second.to_set(),
    ensures
        selection(first, target) == selection(second, target),
{
    assert forall|id: Seq<char>| first.contains(id) == second.contains(id) by {
        assert(first.to_set().contains(id) == first.contains(id));
        assert(second.to_set().contains(id) == second.contains(id));
    }
    assert(selection(first, target) =~= selection(second, target));
}

/// In a catalog whose identifiers differ from one another at most one entry is
/// opaque: the one whose identifier is the condition code.
pub proof fn lemma_at_most_one_opaque(catalog: Seq<Seq<char>>, target: Seq<char>, i: int, j: int)
    requires
        catalog.no_duplicates(),
        0 <= i < catalog.len(),
        0 <= j < catalog.len(),
        selected(catalog, target)[i] == Opacity::Opaque,
        selected(catalog, target)[j] == Opacity::Opaque,
    ensures
        i == j,
        catalog[i] == target,
{
}

/// An entry is opaque exactly when its identifier is the condition code, and
/// transparent otherwise.
pub proof fn lemma_opaque_iff_match(catalog: Seq<Seq<char>>, target: Seq<char>, i: int)
    requires
        0 <= i < catalog.len(),
    ensures
        selected(catalog, target)[i] == Opacity::Opaque <==> catalog[i] == target,
        selected(catalog, target)[i] == Opacity::Transparent <==> catalog[i] != target,
{
}

/// A condition code that no entry carries leaves every entry transparent.
pub proof fn lemma_no_match_all_transparent(catalog: Seq<Seq<char>>, target: Seq<char>)
    requires
        !catalog.contains(target),
    ensures
        forall|i: int|
            0 <= i < catalog.len() ==> #[trigger] selected(catalog, target)[i]
                == Opacity::Transparent,
{
    assert forall|i: int| 0 <= i < catalog.len() implies #[trigger] selected(catalog, target)[i]
        == Opacity::Transparent by {
        assert(catalog.contains(catalog[i]));
    }
}

/// Selecting twice from the same catalog for the same condition code gives the
/// same opacities: the result depends on nothing but the two.
pub proof fn lemma_select_is_a_function(
    catalog_a: Seq<Seq<char>>,
    target_a: Seq<char>,
    catalog_b: Seq<Seq<char>>,
    target_b: Seq<char>,
)
    requires
        catalog_a == catalog_b,
        target_a == target_b,
    ensures
        selected(catalog_a, target_a) == selected(catalog_b, target_b),
        selection(catalog_a, target_a) == selection(catalog_b, target_b),
{
}

} // verus!
