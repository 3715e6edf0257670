use vstd::prelude::*;

use crate::error::InternalError;
use crate::order::{sorted_names, strictly_sorted};

verus! {

/// Which implementation drives a configured telescope.
#[derive(Clone, Copy, Debug, PartialEq, Eq, Structural)]
pub enum TelescopeType {
    Salsa,
    Fake,
}

/// One telescope of the configuration.
#[derive(Clone, Debug)]
pub struct TelescopeDefinition {
    pub name: String,
    pub telescope_type: TelescopeType,
    pub controller_address: Option<String>,
    pub receiver_address: Option<String>,
}

/// A telescope ready to be built: a hardware-backed one with both of its
/// addresses, or a simulated one.
#[derive(Clone, Debug)]
pub enum TelescopePlan {
    Salsa { name: String, controller_address: String, receiver_address: String },
    Fake { name: String },
}

/// Checks a definition: a hardware-backed telescope needs a controller address
/// and a receiver address, a simulated one nothing.
pub fn plan_telescope(def: TelescopeDefinition) -> (r: Result<TelescopePlan, InternalError>)
    ensures
        def.telescope_type == TelescopeType::Fake ==> r == Ok::<TelescopePlan, InternalError>(
            TelescopePlan::Fake { name: def.name },
        ),
        def.telescope_type == TelescopeType::Salsa ==> match (
            def.controller_address,
            def.receiver_address,
        ) {
            (Some(c), Some(a)) => r == Ok::<TelescopePlan, InternalError>(
                TelescopePlan::Salsa { name: def.name, controller_address: c, receiver_address: a },
            ),
            _ => r is Err,
        },
{
    match def.telescope_type {
        TelescopeType::Fake => Ok(TelescopePlan::Fake { name: def.name }),
        TelescopeType::Salsa => match (def.controller_address, def.receiver_address) {
            (Some(controller_address), Some(receiver_address)) => Ok(
                TelescopePlan::Salsa { name: def.name, controller_address, receiver_address },
            ),
            (None, _) => Err(
                InternalError::new(
                    String::from_str("Telescope of type Salsa should have controller_address."),
                ),
            ),
            (_, None) => Err(
                InternalError::new(
                    String::from_str("Telescope of type Salsa should have receiver_address."),
                ),
            ),
        },
    }
}

/// The distinct names of the definitions, in lexicographic order.
pub fn telescope_names(defs: &Vec<TelescopeDefinition>) -> (r: Vec<String>)
    ensures
        strictly_sorted(r@.map_values(|s: String| s@)),
        forall|i: int|
            0 <= i < defs@.len() ==> r@.map_values(|s: String| s@).contains(defs@[i].name@),
        forall|q: int|
            0 <= q < r@.len() ==> defs@.map_values(|d: TelescopeDefinition| d.name@).contains(
                #[trigger] r@[q]@,
            ),
{
    let mut distinct: Vec<String> = Vec::new();
    let mut k: usize = 0;
    while k < defs.len()
        invariant
            k <= defs@.len(),
            forall|i: int, j: int|
                0 <= i < j < distinct@.len() ==> distinct@[i]@ != distinct@[j]@,
            forall|i: int|
                0 <= i < k ==> exists|q: int|
                    0 <= q < distinct@.len() && (#[trigger] distinct@[q])@ == (#[trigger] defs@[i]).name@,
            forall|q: int|
                0 <= q < distinct@.len() ==> exists|i: int|
                    0 <= i < k && (#[trigger] distinct@[q])@ == (#[trigger] defs@[i]).name@,
        decreases defs@.len() - k,
    {
        let mut seen = false;
        let mut p: usize = 0;
        while p < distinct.len()
            invariant
                p <= distinct@.len(),
                k < defs@.len(),
                seen ==> exists|q: int|
                    0 <= q < distinct@.len() && (#[trigger] distinct@[q])@ == defs@[k as int].name@,
                !seen ==> forall|q: int| 0 <= q < p ==> distinct@[q]@ != defs@[k as int].name@,
            decreases distinct@.len() - p,
        {
            if distinct[p] == defs[k as usize].name {
                seen = true;
            }
            p = p + 1;
        }
        if !seen {
            let ghost before = distinct@;
            distinct.push(defs[k].name.clone());
            assert(distinct@[before.len() as int]@ == defs@[k as int].name@);
            assert forall|q: int| 0 <= q < distinct@.len() implies exists|i: int|
                0 <= i < k + 1 && (#[trigger] distinct@[q])@ == (#[trigger] defs@[i]).name@ by {
                if q < before.len() {
                    assert(distinct@[q] == before[q]);
                    let i = choose|i: int|
                        0 <= i < k && before[q]@ == (#[trigger] defs@[i]).name@;
                    assert(distinct@[q]@ == defs@[i].name@);
                } else {
                    assert(distinct@[q]@ == defs@[k as int].name@);
                }
            }
            assert forall|i: int| 0 <= i < k + 1 implies exists|q: int|
                0 <= q < distinct@.len() && (#[trigger] distinct@[q])@ == (#[trigger] defs@[i]).name@ by {
                if i < k {
                    let q = choose|q: int|
                        0 <= q < before.len() && (#[trigger] before[q])@ == defs@[i].name@;
                    assert(distinct@[q] == before[q]);
                } else {
                    assert(distinct@[before.len() as int]@ == defs@[i].name@);
                }
            }
        }
        k = k + 1;
    }
    let r = sorted_names(&distinct);
    proof {
        let rv = r@.map_values(|s: String| s@);
        assert forall|i: int| 0 <= i < defs@.len() implies rv.contains(defs@[i].name@) by {
            let q = choose|q: int|
                0 <= q < distinct@.len() && (#[trigger] distinct@[q])@ == defs@[i].name@;
            assert(rv.contains(distinct@[q]@));
        }
        assert forall|q: int| 0 <= q < r@.len() implies defs@.map_values(
            |d: TelescopeDefinition| d.name@,
        ).contains(#[trigger] r@[q]@) by {
            let dv = distinct@.map_values(|s: String| s@);
            assert(dv.contains(r@[q]@));
            let j = choose|j: int| 0 <= j < dv.len() && dv[j] == r@[q]@;
            let dj = distinct@[j];
            let i = choose|i: int|
                0 <= i < defs@.len() && (#[trigger] distinct@[j])@ == (#[trigger] defs@[i]).name@;
            assert(defs@.map_values(|d: TelescopeDefinition| d.name@)[i] == r@[q]@);
        }
    }
    r
}

} // verus!
