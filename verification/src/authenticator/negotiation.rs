//! Negotiation: the choice of one set of HPKE parameters and of one
//! compression algorithm that both parties support.
//!
//! The HPKE parameters go by the proposer's order: the first set that the
//! proposer offers and the responder supports is chosen. The compression goes
//! by the responder's order: the first algorithm that the responder supports
//! and the proposer offers is chosen.

use vstd::prelude::*;
use crate::authenticator::protocol::archive::ArchiveAlgorithm;
use crate::authenticator::protocol::hpke_format::{HPKEParameters, HPKEParametersView};
use crate::authenticator::protocol::request::params_view;

verus! {

/// The first item of `list` that `keep` holds of, if there is one.
pub open spec fn first_kept<T>(list: Seq<T>, keep: spec_fn(T) -> bool) -> Option<T>
    decreases list.len(),
{
    if list.len() == 0 {
        None
    } else if keep(list[0]) {
        Some(list[0])
    } else {
        first_kept(list.drop_first(), keep)
    }
}

/// Whether `list` holds a set with the mode and the algorithms of `p`.
pub open spec fn lists(list: Seq<HPKEParametersView>, p: HPKEParametersView) -> bool {
    exists|i: int| 0 <= i < list.len() && #[trigger] list[i].matches(p)
}

/// The HPKE parameters that the two parties settle on: the first set that the
/// proposer offers and the responder supports. It is the proposer's entry,
/// with the key material that the proposer put in.
pub open spec fn negotiated_hpke(
    offered: Seq<HPKEParametersView>,
    supported: Seq<HPKEParametersView>,
) -> Option<HPKEParametersView> {
    first_kept(offered, |p: HPKEParametersView| lists(supported, p))
}

/// The compression that the two parties settle on: the first algorithm that
/// the responder supports and the proposer offers.
pub open spec fn negotiated_archive(
    offered: Seq<ArchiveAlgorithm>,
    supported: Seq<ArchiveAlgorithm>,
) -> Option<ArchiveAlgorithm> {
    first_kept(supported, |a: ArchiveAlgorithm| offered.contains(a))
}

/// What negotiation gives: parameters and a compression, or nothing where
/// either axis has no common choice.
pub open spec fn negotiated(
    offered_hpke: Seq<HPKEParametersView>,
    offered_archive: Seq<ArchiveAlgorithm>,
    supported_hpke: Seq<HPKEParametersView>,
    supported_archive: Seq<ArchiveAlgorithm>,
) -> Option<(HPKEParametersView, ArchiveAlgorithm)> {
    match (
        negotiated_hpke(offered_hpke, supported_hpke),
        negotiated_archive(offered_archive, supported_archive),
    ) {
        (Some(hpke), Some(archive)) => Some((hpke, archive)),
        _ => None,
    }
}

/// The mathematical value of parameters that may be absent.
pub open spec fn chosen_view(chosen: Option<HPKEParameters>) -> Option<HPKEParametersView> {
    match chosen {
        Some(p) => Some(p@),
        None => None,
    }
}

/// `first_kept` returns the leftmost item that is kept, and nothing only
/// where no item is kept.
pub proof fn lemma_first_kept<T>(list: Seq<T>, keep: spec_fn(T) -> bool)
    ensures
        match first_kept(list, keep) {
            Some(x) => exists|i: int|
                0 <= i < list.len() && #[trigger] list[i] == x && keep(list[i]) && forall|j: int|
                    0 <= j < i ==> !keep(#[trigger] list[j]),
            None => forall|j: int| 0 <= j < list.len() ==> !keep(#[trigger] list[j]),
        },
    decreases list.len(),
{
    if list.len() == 0 {
    } else if keep(list[0]) {
        assert(list[0] == list[0]);
    } else {
        let rest = list.drop_first();
        lemma_first_kept(rest, keep);
        match first_kept(rest, keep) {
            Some(x) => {
                let i = choose|i: int|
                    0 <= i < rest.len() && #[trigger] rest[i] == x && keep(rest[i]) && forall|
                        j: int,
                    |
                        0 <= j < i ==> !keep(#[trigger] rest[j]);
                assert(list[i + 1] == x);
                assert forall|j: int| 0 <= j < i + 1 implies !keep(#[trigger] list[j]) by {
                    if j > 0 {
                        assert(list[j] == rest[j - 1]);
                    }
                }
            },
            None => {
                assert forall|j: int| 0 <= j < list.len() implies !keep(#[trigger] list[j]) by {
                    if j > 0 {
                        assert(list[j] == rest[j - 1]);
                    }
                }
            },
        }
    }
}

/// Two predicates that agree on every item of a list keep the same first
/// item.
pub proof fn lemma_first_kept_agrees<T>(
    list: Seq<T>,
    keep: spec_fn(T) -> bool,
    other: spec_fn(T) -> bool,
)
    requires
        forall|i: int| 0 <= i < list.len() ==> keep(#[trigger] list[i]) == other(list[i]),
    ensures
        first_kept(list, keep) == first_kept(list, other),
    decreases list.len(),
{
    if list.len() > 0 {
        let rest = list.drop_first();
        assert forall|i: int| 0 <= i < rest.len() implies keep(#[trigger] rest[i]) == other(
            rest[i],
        ) by {
            assert(rest[i] == list[i + 1]);
        }
        lemma_first_kept_agrees(rest, keep, other);
    }
}

/// Negotiation of the HPKE parameters goes by the proposer's order. Where the
/// two lists share a tuple of mode and algorithms, the choice is the first
/// entry of the proposer's list whose tuple the responder supports. Where they
/// share none, there is no choice.
pub proof fn lemma_negotiation_takes_first_common(
    offered: Seq<HPKEParametersView>,
    supported: Seq<HPKEParametersView>,
)
    ensures
        match negotiated_hpke(offered, supported) {
            Some(p) => exists|i: int|
                0 <= i < offered.len() && #[trigger] offered[i] == p && lists(supported, offered[i])
                    && forall|j: int| 0 <= j < i ==> !lists(supported, #[trigger] offered[j]),
            None => forall|j: int|
                0 <= j < offered.len() ==> !lists(supported, #[trigger] offered[j]),
        },
{
    let keep = |p: HPKEParametersView| lists(supported, p);
    lemma_first_kept(offered, keep);
    match first_kept(offered, keep) {
        Some(p) => {
            let i = choose|i: int|
                0 <= i < offered.len() && #[trigger] offered[i] == p && keep(offered[i]) && forall|
                    j: int,
                |
                    0 <= j < i ==> !keep(#[trigger] offered[j]);
            assert(offered[i] == p && lists(supported, offered[i]));
            assert forall|j: int| 0 <= j < i implies !lists(supported, #[trigger] offered[j]) by {
                assert(!keep(offered[j]));
            }
        },
        None => {
            assert forall|j: int| 0 <= j < offered.len() implies !lists(
                supported,
                #[trigger] offered[j],
            ) by {
                assert(!keep(offered[j]));
            }
        },
    }
}

/// The order of the responder's list plays no part in the choice of the HPKE
/// parameters: two lists that hold the same entries, in whatever order and
/// however often, lead to the same choice.
pub proof fn lemma_negotiation_ignores_responder_order(
    offered: Seq<HPKEParametersView>,
    supported: Seq<HPKEParametersView>,
    reordered: Seq<HPKEParametersView>,
)
    requires
        forall|p: HPKEParametersView| supported.contains(p) <==> reordered.contains(p),
    ensures
        negotiated_hpke(offered, supported) == negotiated_hpke(offered, reordered),
{
    let keep = |p: HPKEParametersView| lists(supported, p);
    let other = |p: HPKEParametersView| lists(reordered, p);
    assert forall|p: HPKEParametersView| lists(supported, p) == lists(reordered, p) by {
        if lists(supported, p) {
            let i = choose|i: int| 0 <= i < supported.len() && #[trigger] supported[i].matches(p);
            assert(supported.contains(supported[i]));
            let k = choose|k: int| 0 <= k < reordered.len() && reordered[k] == supported[i];
            assert(reordered[k].matches(p));
        }
        if lists(reordered, p) {
            let i = choose|i: int| 0 <= i < reordered.len() && #[trigger] reordered[i].matches(p);
            assert(reordered.contains(reordered[i]));
            let k = choose|k: int| 0 <= k < supported.len() && supported[k] == reordered[i];
            assert(supported[k].matches(p));
        }
    }
    lemma_first_kept_agrees(offered, keep, other);
}

/// Whether `list` holds a set with the mode and the algorithms of `p`.
pub fn lists_params(list: &[HPKEParameters], p: &HPKEParameters) -> (found: bool)
    ensures
        found == lists(params_view(list@), p@),
{
    let mut i: usize = 0;
    while i < list.len()
        invariant
            i <= list@.len(),
            forall|j: int| 0 <= j < i ==> !(#[trigger] params_view(list@)[j]).matches(p@),
        decreases list@.len() - i,
    {
        if list[i].eq(p) {
            assert(params_view(list@)[i as int].matches(p@));
            return true;
        }
        i = i + 1;
    }
    false
}

/// Whether `list` holds `a`.
pub fn lists_archive(list: &[ArchiveAlgorithm], a: ArchiveAlgorithm) -> (found: bool)
    ensures
        found == list@.contains(a),
{
    let mut i: usize = 0;
    while i < list.len()
        invariant
            i <= list@.len(),
            forall|j: int| 0 <= j < i ==> list@[j] != a,
        decreases list@.len() - i,
    {
        if list[i] == a {
            return true;
        }
        i = i + 1;
    }
    false
}

/// Chooses the HPKE parameters: the first entry of `offered` that `supported`
/// lists.
pub fn first_common_hpke(offered: &[HPKEParameters], supported: &[HPKEParameters]) -> (chosen:
    Option<HPKEParameters>)
    ensures
        chosen_view(chosen) == negotiated_hpke(params_view(offered@), params_view(supported@)),
{
    let ghost keep = |p: HPKEParametersView| lists(params_view(supported@), p);
    let ghost all = params_view(offered@);
    let mut i: usize = 0;
    assert(all.skip(0) =~= all);
    while i < offered.len()
        invariant
            i <= offered@.len(),
            all == params_view(offered@),
            keep == |p: HPKEParametersView| lists(params_view(supported@), p),
            first_kept(all, keep) == first_kept(all.skip(i as int), keep),
        decreases offered@.len() - i,
    {
        assert(all.skip(i as int).drop_first() =~= all.skip(i + 1));
        assert(all.skip(i as int)[0] == offered@[i as int]@);
        if lists_params(supported, &offered[i]) {
            return Some(offered[i].duplicate());
        }
        i = i + 1;
    }
    None
}

/// Chooses the compression: the first entry of `supported` that `offered`
/// holds.
pub fn first_common_archive(offered: &[ArchiveAlgorithm], supported: &[ArchiveAlgorithm]) -> (chosen:
    Option<ArchiveAlgorithm>)
    ensures
        chosen == negotiated_archive(offered@, supported@),
{
    let ghost keep = |a: ArchiveAlgorithm| offered@.contains(a);
    let mut i: usize = 0;
    assert(supported@.skip(0) =~= supported@);
    while i < supported.len()
        invariant
            i <= supported@.len(),
            keep == |a: ArchiveAlgorithm| offered@.contains(a),
            first_kept(supported@, keep) == first_kept(supported@.skip(i as int), keep),
        decreases supported@.len() - i,
    {
        assert(supported@.skip(i as int).drop_first() =~= supported@.skip(i + 1));
        if lists_archive(offered, supported[i]) {
            return Some(supported[i]);
        }
        i = i + 1;
    }
    None
}

} // verus!
