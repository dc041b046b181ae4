//! The plan of an installation: the features to install, in their order.

use vstd::prelude::*;
use crate::feature::{lemma_name_round_trip, listing, Feature};

verus! {

/// Whether every one of `names` names a feature.
pub open spec fn all_known(names: Seq<Seq<char>>) -> bool {
    forall|i: int| 0 <= i < names.len() ==> (#[trigger] Feature::named(names[i])) is Some
}

/// The plan that `names` ask for: the feature of each name, at the place of
/// the name. Nothing is left out, moved or merged, so a feature that is
/// named twice stands in the plan twice.
pub open spec fn planned(names: Seq<Seq<char>>) -> Seq<Feature> {
    Seq::new(names.len(), |i: int| Feature::named(names[i])->0)
}

/// The place of the first of `names` that names no feature.
pub open spec fn first_unknown(names: Seq<Seq<char>>, position: int) -> bool {
    &&& 0 <= position < names.len()
    &&& Feature::named(names[position]) is None
    &&& forall|k: int| 0 <= k < position ==> (#[trigger] Feature::named(names[k])) is Some
}

/// Resolves the names that were asked for into a plan. Where a name names
/// no feature there is no plan, and the place of the first such name is
/// returned instead.
pub fn resolve(names: &Vec<String>) -> (plan: Result<Vec<Feature>, usize>)
    ensures
        plan is Ok <==> all_known(names.deep_view()),
        plan matches Ok(features) ==> features@ == planned(names.deep_view()),
        plan matches Err(position) ==> first_unknown(names.deep_view(), position as int),
{
    let ghost asked = names.deep_view();
    let mut features: Vec<Feature> = Vec::new();
    let mut i: usize = 0;
    while i < names.len()
        invariant
            i <= names.len(),
            asked == names.deep_view(),
            features.len() == i,
            forall|k: int|
                0 <= k < i ==> (#[trigger] Feature::named(asked[k])) == Some(features[k]),
        decreases names.len() - i,
    {
        assert(asked[i as int] == names[i as int]@);
        match Feature::from_name(names[i].as_str()) {
            Some(feature) => {
                features.push(feature);
            },
            None => {
                assert(!all_known(asked)) by {
                    assert(Feature::named(asked[i as int]) is None);
                }
                return Err(i);
            },
        }
        i += 1;
    }
    assert(features@ =~= planned(asked));
    Ok(features)
}

/// Asking by name for every feature, in canonical order, gives the plan of
/// a full installation: the same features in the same order.
pub proof fn lemma_every_name_gives_the_full_plan()
    ensures
        all_known(listing()),
        planned(listing()) == Feature::registry(),
{
    let names = listing();
    assert forall|i: int| 0 <= i < names.len() implies (#[trigger] Feature::named(names[i]))
        == Some(Feature::registry()[i]) by {
        lemma_name_round_trip(Feature::registry()[i]);
    }
    assert(planned(names) =~= Feature::registry());
}

/// A plan follows the names place by place: it is as long as the list of
/// names, and at every place stands the feature that the name there names.
pub proof fn lemma_plan_keeps_order_and_repetitions(names: Seq<Seq<char>>, i: int)
    requires
        all_known(names),
        0 <= i < names.len(),
    ensures
        planned(names).len() == names.len(),
        planned(names)[i].name_text() == names[i],
{
    assert(Feature::named(names[i]) is Some);
}

} // verus!
