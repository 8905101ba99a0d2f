//! The label matcher: whether an issue's labels meet the requested labels
//! under an operator.

use crate::models::{label_views, Label, LabelView, Operator};
use crate::text::string_views;
use vstd::prelude::*;

verus! {

/// The names that occur among the labels.
pub open spec fn label_names(labels: Seq<LabelView>) -> Set<Seq<char>> {
    Set::new(|name: Seq<char>| exists|i: int| 0 <= i < labels.len() && labels[i].name == name)
}

/// The verdict of `operator` on the set of requested names and the set of
/// names that the issue has.
pub open spec fn verdict(operator: Operator, requested: Set<Seq<char>>, actual: Set<Seq<char>>) -> bool {
    match operator {
        Operator::And => requested.subset_of(actual),
        Operator::Or => !requested.disjoint(actual),
        Operator::Not => requested.disjoint(actual),
    }
}

/// Whether one of the labels has this name.
pub fn has_label(labels: &[Label], name: &String) -> (found: bool)
    ensures
        found == label_names(label_views(labels@)).contains(name@),
{
    let ghost all = label_views(labels@);
    let mut i: usize = 0;
    while i < labels.len()
        invariant
            i <= labels.len(),
            all == label_views(labels@),
            forall|k: int| 0 <= k < i ==> all[k].name != name@,
        decreases labels.len() - i,
    {
        if labels[i].is_named(name) {
            assert(all[i as int].name == name@);
            return true;
        }
        i += 1;
    }
    false
}

/// Decides whether the labels of an issue meet the requested labels.
///
/// `And` asks that every requested name is among the labels, `Or` that at
/// least one is, `Not` that none is. Names are compared as they stand. The
/// order of the labels and repeated names change nothing.
pub fn evaluate(operator: Operator, requested: &Vec<String>, actual: &[Label]) -> (met: bool)
    ensures
        met == verdict(
            operator,
            string_views(requested@).to_set(),
            label_names(label_views(actual@)),
        ),
{
    let ghost wanted = string_views(requested@);
    let ghost names = label_names(label_views(actual@));
    let mut all: bool = true;
    let mut any: bool = false;
    let mut i: usize = 0;
    while i < requested.len()
        invariant
            i <= requested.len(),
            wanted == string_views(requested@),
            names == label_names(label_views(actual@)),
            all == (forall|k: int| 0 <= k < i ==> names.contains(#[trigger] wanted[k])),
            any == (exists|k: int| 0 <= k < i && names.contains(#[trigger] wanted[k])),
        decreases requested.len() - i,
    {
        let found = has_label(actual, &requested[i]);
        assert(wanted[i as int] == requested[i as int]@);
        if found {
            any = true;
        } else {
            all = false;
        }
        i += 1;
    }
    proof {
        lemma_verdict_by_names(wanted, names);
    }
    match operator {
        Operator::And => all,
        Operator::Or => any,
        Operator::Not => !any,
    }
}

/// The verdicts in terms of the requested names one by one: `And` holds
/// where every one of them is a name of the issue, `Or` where some one is,
/// `Not` where none is.
pub proof fn lemma_verdict_by_names(requested: Seq<Seq<char>>, actual: Set<Seq<char>>)
    ensures
        verdict(Operator::And, requested.to_set(), actual) <==> (forall|i: int|
            0 <= i < requested.len() ==> actual.contains(#[trigger] requested[i])),
        verdict(Operator::Or, requested.to_set(), actual) <==> (exists|i: int|
            0 <= i < requested.len() && actual.contains(#[trigger] requested[i])),
        verdict(Operator::Not, requested.to_set(), actual) <==> (forall|i: int|
            0 <= i < requested.len() ==> !actual.contains(#[trigger] requested[i])),
{
    let wanted = requested.to_set();
    assert forall|i: int| 0 <= i < requested.len() implies wanted.contains(
        #[trigger] requested[i],
    ) by {
        assert(requested.contains(requested[i]));
    }
    if !wanted.disjoint(actual) {
        let name = choose|name: Seq<char>| wanted.contains(name) && actual.contains(name);
        assert(requested.contains(name));
    }
}

/// The verdicts in terms of sets: `And` holds where the requested names are a
/// subset of the issue's, `Or` where the two sets share a name, `Not` where
/// they share none.
pub proof fn lemma_verdict_by_sets(requested: Set<Seq<char>>, actual: Set<Seq<char>>)
    ensures
        verdict(Operator::And, requested, actual) <==> requested.subset_of(actual),
        verdict(Operator::Or, requested, actual) <==> requested.intersect(actual) != Set::<
            Seq<char>,
        >::empty(),
        verdict(Operator::Not, requested, actual) <==> requested.intersect(actual) == Set::<
            Seq<char>,
        >::empty(),
{
    let shared = requested.intersect(actual);
    if requested.disjoint(actual) {
        assert(shared =~= Set::<Seq<char>>::empty());
    } else {
        let name = choose|name: Seq<char>| requested.contains(name) && actual.contains(name);
        assert(shared.contains(name));
    }
}

/// The verdicts in terms of the labels themselves: `And` holds where every
/// requested name is the name of some label, `Or` where some requested name
/// is, `Not` where no requested name is the name of any label.
pub proof fn lemma_verdict_by_labels(requested: Seq<Seq<char>>, actual: Seq<LabelView>)
    ensures
        verdict(Operator::And, requested.to_set(), label_names(actual)) <==> (forall|i: int|
            0 <= i < requested.len() ==> exists|j: int|
                0 <= j < actual.len() && actual[j].name == #[trigger] requested[i]),
        verdict(Operator::Or, requested.to_set(), label_names(actual)) <==> (exists|
            i: int,
            j: int,
        |
            0 <= i < requested.len() && 0 <= j < actual.len() && #[trigger] actual[j].name
                == #[trigger] requested[i]),
        verdict(Operator::Not, requested.to_set(), label_names(actual)) <==> (forall|
            i: int,
            j: int,
        |
            0 <= i < requested.len() && 0 <= j < actual.len() ==> #[trigger] actual[j].name
                != #[trigger] requested[i]),
{
    let names = label_names(actual);
    lemma_verdict_by_names(requested, names);
    if forall|i: int| 0 <= i < requested.len() ==> names.contains(#[trigger] requested[i]) {
        assert forall|i: int| 0 <= i < requested.len() implies exists|j: int|
            0 <= j < actual.len() && actual[j].name == #[trigger] requested[i] by {
            assert(names.contains(requested[i]));
        }
    }
    if exists|i: int| 0 <= i < requested.len() && names.contains(#[trigger] requested[i]) {
        let i = choose|i: int| 0 <= i < requested.len() && names.contains(#[trigger] requested[i]);
        let j = choose|j: int| 0 <= j < actual.len() && actual[j].name == requested[i];
        assert(actual[j].name == requested[i]);
    }
}

/// Where no label is requested, `And` and `Not` hold and `Or` does not,
/// whatever labels the issue has.
pub proof fn lemma_nothing_requested(requested: Seq<Seq<char>>, actual: Set<Seq<char>>)
    requires
        requested.len() == 0,
    ensures
        verdict(Operator::And, requested.to_set(), actual),
        !verdict(Operator::Or, requested.to_set(), actual),
        verdict(Operator::Not, requested.to_set(), actual),
{
    lemma_verdict_by_names(requested, actual);
}

/// `Or` and `Not` never agree.
pub proof fn lemma_or_is_not_not(requested: Set<Seq<char>>, actual: Set<Seq<char>>)
    ensures
        verdict(Operator::Or, requested, actual) != verdict(Operator::Not, requested, actual),
{
}

/// The verdict goes by which names are requested, not by their order or by how
/// often one is repeated.
pub proof fn lemma_order_and_repeats(
    operator: Operator,
    first: Seq<Seq<char>>,
    second: Seq<Seq<char>>,
    actual: Set<Seq<char>>,
)
    requires
        forall|name: Seq<char>| first.contains(name) <==> second.contains(name),
    ensures
        verdict(operator, first.to_set(), actual) == verdict(operator, second.to_set(), actual),
{
    assert(first.to_set() =~= second.to_set());
}

} // verus!
