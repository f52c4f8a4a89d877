//! Enrichment of dependency names with registry descriptions.
//!
//! Lookups run concurrently outside the library; this module fixes what the
//! gathered output must look like: one `DescribedDependency` per input name,
//! in input order, with every recoverable lookup failure folded into the
//! sentinel description rather than propagated.

use vstd::prelude::*;

use crate::errors::DepsError;

verus! {

/// One (name, description) pair of the result set.
pub struct DescribedDependency {
    pub name: String,
    pub description: String,
}

impl View for DescribedDependency {
    type V = (Seq<char>, Seq<char>);

    open spec fn view(&self) -> (Seq<char>, Seq<char>) {
        (self.name@, self.description@)
    }
}

impl DeepView for DescribedDependency {
    type V = (Seq<char>, Seq<char>);

    open spec fn deep_view(&self) -> (Seq<char>, Seq<char>) {
        self.view()
    }
}

/// The fixed placeholder shown when a lookup cannot produce a description.
pub open spec fn sentinel() -> Seq<char> {
    "-- unknown --"@
}

/// Exec counterpart of `sentinel`.
pub fn sentinel_description() -> (r: String)
    ensures
        r@ == sentinel(),
{
    "-- unknown --".to_owned()
}

/// The description that one lookup outcome contributes: the returned text
/// on success, the sentinel on any recoverable failure.
pub open spec fn described(res: Result<Seq<char>, DepsError>) -> Seq<char> {
    match res {
        Ok(d) => d,
        Err(_) => sentinel(),
    }
}

/// The view of one lookup outcome.
pub open spec fn result_view(res: Result<String, DepsError>) -> Result<Seq<char>, DepsError> {
    match res {
        Ok(d) => Ok(d@),
        Err(e) => Err(e),
    }
}

/// The whole enriched result set, as a function of the names and of the
/// per-name lookup outcomes: positionally aligned with the names.
pub open spec fn spec_enrich(
    names: Seq<Seq<char>>,
    results: Seq<Result<Seq<char>, DepsError>>,
) -> Seq<(Seq<char>, Seq<char>)> {
    Seq::new(names.len(), |i: int| (names[i], described(results[i])))
}

/// Pairs every name with the description its lookup outcome contributes.
/// Per-item failures never surface here: the operation is infallible and
/// keeps the input order.
pub fn enrich(names: &Vec<String>, results: &Vec<Result<String, DepsError>>) -> (r: Vec<
    DescribedDependency,
>)
    requires
        names@.len() == results@.len(),
    ensures
        r.deep_view() == spec_enrich(
            names.deep_view(),
            results@.map_values(|res: Result<String, DepsError>| result_view(res)),
        ),
        r@.len() == names@.len(),
{
    let mut r: Vec<DescribedDependency> = Vec::new();
    let mut i: usize = 0;
    while i < names.len()
        invariant
            i <= names@.len(),
            names@.len() == results@.len(),
            r.deep_view() =~= spec_enrich(
                names.deep_view(),
                results@.map_values(|res: Result<String, DepsError>| result_view(res)),
            ).take(i as int),
        decreases names@.len() - i,
    {
        let name = names[i].clone();
        let description = match &results[i] {
            Ok(d) => d.clone(),
            Err(_) => sentinel_description(),
        };
        let dep = DescribedDependency { name, description };
        let ghost r0 = r;
        let ghost depg = dep;
        r.push(dep);
        proof {
            let full = spec_enrich(
                names.deep_view(),
                results@.map_values(|res: Result<String, DepsError>| result_view(res)),
            );
            assert(r0@.len() == i as int) by {
                assert(r0.deep_view().len() == i as int);
            }
            assert(r@ == r0@.push(depg));
            assert(depg.deep_view() == (names@[i as int]@, described(result_view(results@[i as int]))));
            assert(full[i as int] == (
                names.deep_view()[i as int],
                described(result_view(results@[i as int])),
            ));
            assert(names.deep_view()[i as int] == names@[i as int]@);
            assert(r@[i as int].deep_view() == full[i as int]);
            assert forall|k: int| 0 <= k < i + 1 implies r.deep_view()[k] == full.take(i + 1)[k] by {
                if k < i {
                    assert(r@[k] == r0@[k]);
                    assert(r0.deep_view()[k] == full.take(i as int)[k]);
                }
            }
            assert(r.deep_view() =~= full.take(i + 1));
        }
        i = i + 1;
    }
    proof {
        let full = spec_enrich(
            names.deep_view(),
            results@.map_values(|res: Result<String, DepsError>| result_view(res)),
        );
        assert(full.take(names@.len() as int) =~= full);
    }
    r
}

/// Law: enrichment preserves length and name order — the pair at each
/// position carries exactly the name at that position of the input.
pub proof fn lemma_enrich_aligned(
    names: Seq<Seq<char>>,
    results: Seq<Result<Seq<char>, DepsError>>,
)
    requires
        results.len() == names.len(),
    ensures
        spec_enrich(names, results).len() == names.len(),
        forall|i: int|
            0 <= i < names.len() ==> (#[trigger] spec_enrich(names, results)[i]).0 == names[i],
{
}

/// Law: when every lookup succeeds, every description equals the text that
/// the lookup returned for that position.
pub proof fn lemma_enrich_all_ok(names: Seq<Seq<char>>, results: Seq<Result<Seq<char>, DepsError>>)
    requires
        results.len() == names.len(),
        forall|i: int| 0 <= i < results.len() ==> (#[trigger] results[i]) is Ok,
    ensures
        forall|i: int|
            0 <= i < names.len() ==> (#[trigger] spec_enrich(names, results)[i]).1
                == results[i]->Ok_0,
{
}

/// Law: when every lookup fails, every description is the sentinel.
pub proof fn lemma_enrich_all_err(
    names: Seq<Seq<char>>,
    results: Seq<Result<Seq<char>, DepsError>>,
)
    requires
        results.len() == names.len(),
        forall|i: int| 0 <= i < results.len() ==> (#[trigger] results[i]) is Err,
    ensures
        forall|i: int|
            0 <= i < names.len() ==> (#[trigger] spec_enrich(names, results)[i]).1 == sentinel(),
{
}

} // verus!
