//! The startup resolver's filtering step: from the surfaces the compositor
//! reported and the requested tags to the surfaces to monitor, each believed
//! visible.
//!
//! The surrounding program queries the compositor, flattens its reply into a
//! candidate list, and retries with a fixed delay until `startup_complete`
//! holds; only then are the watchers spawned.

use vstd::prelude::*;

use crate::geometry::Layer;

verus! {

/// Whether a queried surface's tag matches one of the requested tags.
pub open spec fn spec_matches(l: Layer, namespaces: Seq<String>) -> bool {
    exists|i: int| 0 <= i < namespaces.len() && namespaces[i]@ == l.namespace@
}

/// A matched surface as the resolver keeps it: same geometry and tag, with
/// the visibility belief initialized to shown.
pub open spec fn spec_resolved(l: Layer) -> Layer {
    Layer { visible: true, ..l }
}

/// The resolver's result: the candidates whose tag was requested, in query
/// order, each marked visible.
pub open spec fn spec_resolve(candidates: Seq<Layer>, namespaces: Seq<String>) -> Seq<Layer>
    decreases candidates.len(),
{
    if candidates.len() == 0 {
        Seq::empty()
    } else {
        let init = spec_resolve(candidates.drop_last(), namespaces);
        if spec_matches(candidates.last(), namespaces) {
            init.push(spec_resolved(candidates.last()))
        } else {
            init
        }
    }
}

/// Keep the candidates whose tag matches a requested tag, marking each kept
/// surface visible.
pub fn resolve_layers(candidates: &Vec<Layer>, namespaces: &Vec<String>) -> (r: Vec<Layer>)
    ensures
        r@ == spec_resolve(candidates@, namespaces@),
{
    let mut r: Vec<Layer> = Vec::new();
    let mut i: usize = 0;
    while i < candidates.len()
        invariant
            0 <= i <= candidates@.len(),
            r@ == spec_resolve(candidates@.take(i as int), namespaces@),
        decreases candidates@.len() - i,
    {
        let mut matched = false;
        let mut j: usize = 0;
        while j < namespaces.len()
            invariant
                0 <= i < candidates@.len(),
                0 <= j <= namespaces@.len(),
                matched ==> spec_matches(candidates@[i as int], namespaces@),
                !matched ==> forall|k: int|
                    0 <= k < j ==> namespaces@[k]@ != candidates@[i as int].namespace@,
            decreases namespaces@.len() - j,
        {
            if namespaces[j] == candidates[i].namespace {
                matched = true;
            }
            j = j + 1;
        }
        if matched {
            let c = &candidates[i];
            r.push(
                Layer {
                    x: c.x,
                    y: c.y,
                    w: c.w,
                    h: c.h,
                    namespace: c.namespace.clone(),
                    visible: true,
                },
            );
        }
        proof {
            assert(candidates@.take(i as int + 1).drop_last() =~= candidates@.take(i as int));
            assert(candidates@.take(i as int + 1).last() == candidates@[i as int]);
        }
        i = i + 1;
    }
    proof {
        assert(candidates@.take(candidates@.len() as int) =~= candidates@);
    }
    r
}

/// Whether startup resolution is complete: exactly one resolved surface per
/// requested tag.  Until this holds the surrounding program sleeps a fixed
/// second and queries again, without limit.
pub fn startup_complete(layers: &Vec<Layer>, namespaces: &Vec<String>) -> (r: bool)
    ensures
        r == (layers@.len() == namespaces@.len()),
{
    layers.len() == namespaces.len()
}

} // verus!
