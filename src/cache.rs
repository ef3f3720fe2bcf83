use vstd::prelude::*;

use crate::config::{spec_num_circuits, FoldingConfig, Lang};
use crate::verify::{states_equal, Scalar};

verus! {

/// Collects the cache key of every circuit shape of the non-uniform
/// configuration for `lang` folded at reduction count `rc`, in shape order:
/// element `i` is the key that `key_of(rc, i)` computes for shape `i`.
pub fn circuit_cache_keys<K: Fn(usize, usize) -> Scalar>(rc: usize, lang: &Lang, key_of: K) -> (r:
    Vec<Scalar>)
    requires
        forall|i: usize| i <= lang.spec_extensions().len() ==> key_of.requires((rc, i)),
    ensures
        r@.len() == spec_num_circuits(&FoldingConfig::NIVC(*lang, rc)),
        forall|i: int| 0 <= i < r@.len() ==> key_of.ensures((rc, i as usize), #[trigger] r@[i]),
{
    let num_circuits = lang.extension_count() + 1;
    let mut keys: Vec<Scalar> = Vec::new();
    let mut i: usize = 0;
    while i < num_circuits
        invariant
            num_circuits == lang.spec_extensions().len() + 1,
            0 <= i <= num_circuits,
            keys@.len() == i,
            forall|j: usize| j <= lang.spec_extensions().len() ==> key_of.requires((rc, j)),
            forall|j: int| 0 <= j < i ==> key_of.ensures((rc, j as usize), #[trigger] keys@[j]),
        decreases num_circuits - i,
    {
        let key = key_of(rc, i);
        keys.push(key);
        i = i + 1;
    }
    keys
}

/// Whether setup parameters cached under the keys `stored` are still valid
/// for shapes whose current keys are `current`: only where the two
/// sequences agree element by element.
pub fn cache_keys_match(stored: &Vec<Scalar>, current: &Vec<Scalar>) -> (r: bool)
    ensures
        r == (stored@ == current@),
{
    states_equal(stored, current)
}

} // verus!
