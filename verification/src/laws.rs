//! Laws of the store and the view builders, stated and proved once over
//! the mathematical models that the executable contracts use.

use vstd::prelude::*;

use crate::store::first_object_spec;
use crate::store::matches_pattern;
use crate::store::scan_spec;
use crate::store::all_objects_spec;
use crate::store::subjects_by_object_spec;
use crate::term::TermV;
use crate::term::TripleV;
use crate::term::term_text;
use crate::views::CharacterV;
use crate::views::ConstructV;
use crate::views::EntanglementV;
use crate::views::GraphEdgeV;
use crate::views::GraphNodeV;
use crate::views::characters_spec;
use crate::views::constructs_spec;
use crate::views::entanglements_spec;
use crate::views::entities_of_type_spec;
use crate::views::network_spec;
use crate::views::nodes_spec;
use crate::views::rdf_type;
use crate::views::relationships_spec;

verus! {

/// On an empty store every lookup and every view builder yields an empty
/// result. Together with the contracts of `new` and `clear` — both leave
/// the store's triple sequence empty — and of `triple_count`, this covers
/// both the freshly created and the just-cleared store.
pub proof fn lemma_empty_store_views(ty: TermV, s: TermV, p: TermV, preds: Seq<TermV>)
    ensures
        first_object_spec(Seq::empty(), s, p) is None,
        all_objects_spec(Seq::empty(), s, p) == Seq::<TermV>::empty(),
        subjects_by_object_spec(Seq::empty(), s, preds) == Seq::<TermV>::empty(),
        entities_of_type_spec(Seq::empty(), ty) == Seq::<TermV>::empty(),
        relationships_spec(Seq::empty(), s) == Seq::<Seq<char>>::empty(),
        constructs_spec(Seq::empty()) == Seq::<ConstructV>::empty(),
        entanglements_spec(Seq::empty()) == Seq::<EntanglementV>::empty(),
        characters_spec(Seq::empty()) == Seq::<CharacterV>::empty(),
        network_spec(Seq::empty()).nodes == Seq::<GraphNodeV>::empty(),
        network_spec(Seq::empty()).edges == Seq::<GraphEdgeV>::empty(),
{
    assert(scan_spec(Seq::empty(), Some(s), Some(p), None) =~= Seq::<TripleV>::empty());
    assert(all_objects_spec(Seq::empty(), s, p) =~= Seq::<TermV>::empty());
    assert(entities_of_type_spec(Seq::empty(), ty) =~= Seq::<TermV>::empty());
    assert(relationships_spec(Seq::empty(), s) =~= Seq::<Seq<char>>::empty());
    assert(constructs_spec(Seq::empty()) =~= Seq::<ConstructV>::empty());
    assert(entanglements_spec(Seq::empty()) =~= Seq::<EntanglementV>::empty());
    assert(characters_spec(Seq::empty()) =~= Seq::<CharacterV>::empty());
    assert(nodes_spec(Seq::empty()) =~= Seq::<GraphNodeV>::empty());
}

/// Queries are repeatable: two results of the same query against the same
/// unmutated store contents are the same ordered sequence. The query
/// contracts pin each result to a function of the store view alone, so
/// nothing else can influence it.
pub proof fn lemma_repeated_query_identical(
    g: Seq<TripleV>,
    ty: TermV,
    r1: Seq<TermV>,
    r2: Seq<TermV>,
)
    requires
        r1 == entities_of_type_spec(g, ty),
        r2 == entities_of_type_spec(g, ty),
    ensures
        r1 == r2,
{
}

/// Appending a triple never disturbs an existing first match: the
/// first-match lookup keeps returning what it returned before, and only a
/// store with no earlier match can see the new triple.
pub proof fn lemma_first_object_append(g: Seq<TripleV>, t: TripleV, s: TermV, p: TermV)
    ensures
        first_object_spec(g.push(t), s, p) == if first_object_spec(g, s, p) is Some {
            first_object_spec(g, s, p)
        } else if matches_pattern(t, Some(s), Some(p), None) {
            Some(t.object)
        } else {
            None::<TermV>
        },
{
    assert(g.push(t).drop_last() =~= g);
    assert(g.push(t).last() == t);
}

/// First-match semantics: once `(s, p, o1)` is the first match, a later
/// `(s, p, o2)` is invisible to the first-match lookup, which still
/// returns `o1`.
pub proof fn lemma_first_match_wins(g: Seq<TripleV>, s: TermV, p: TermV, o1: TermV, o2: TermV)
    requires
        first_object_spec(g, s, p) == Some(o1),
    ensures
        first_object_spec(g.push(TripleV { subject: s, predicate: p, object: o2 }), s, p) == Some(
            o1,
        ),
{
    lemma_first_object_append(g, TripleV { subject: s, predicate: p, object: o2 }, s, p);
}

/// The node pass performs no deduplication: the graph holds exactly one
/// node per `rdf:type` triple, carrying that triple's subject text as its
/// id — so a subject with two type assertions yields two node entries
/// sharing the same id.
pub proof fn lemma_one_node_per_type_assertion(g: Seq<TripleV>)
    ensures
        nodes_spec(g).len() == scan_spec(g, None, Some(rdf_type()), None).len(),
        forall|i: int|
            0 <= i < nodes_spec(g).len() ==> (#[trigger] nodes_spec(g)[i]).id == term_text(
                scan_spec(g, None, Some(rdf_type()), None)[i].subject,
            ),
{
}

} // verus!
