//! Pipeline planning: the computable part of building a render pipeline
//! from its description. The GPU objects themselves are built by the
//! wrapped graphics library; what is planned here is the binding layout
//! list and the uniform buffer map, one buffer per distinct binding
//! location, sized by the last declaration of that location. The plans
//! are accumulated into locally owned values and returned; no hidden
//! state is involved.

use vstd::prelude::*;

use crate::config_structs::AFUniform;
use crate::enums::AFBindingType;
use crate::enums::AFShaderStage;

verus! {

/// One planned pipeline binding: where it binds, what it is, and which
/// stage sees it.
#[derive(Copy, Clone, PartialEq, Eq, Structural, Debug)]
pub struct AFBinding {
    pub id: u32,
    pub binding: AFBindingType,
    pub visibility: AFShaderStage,
}

/// The binding a uniform declaration stands for: a buffer of the
/// uniform's byte size at the uniform's location, read-only to shaders.
pub open spec fn binding_of(uniform: AFUniform) -> AFBinding {
    AFBinding {
        id: uniform.location,
        binding: AFBindingType::Buffer {
            size: uniform.byte_size as usize,
            dynamic: uniform.dynamic,
            readonly: true,
        },
        visibility: uniform.stage,
    }
}

/// The binding layout list: one binding per uniform declaration, in
/// declaration order.
pub fn uniform_bindings(uniforms: &Vec<AFUniform>) -> (layouts: Vec<AFBinding>)
    ensures
        layouts@ == uniforms@.map_values(|u: AFUniform| binding_of(u)),
{
    let mut layouts: Vec<AFBinding> = Vec::new();
    let mut i: usize = 0;
    while i < uniforms.len()
        invariant
            0 <= i <= uniforms@.len(),
            layouts@ == uniforms@.take(i as int).map_values(|u: AFUniform| binding_of(u)),
        decreases uniforms@.len() - i,
    {
        let u = uniforms[i];
        layouts.push(AFBinding {
            id: u.location,
            binding: AFBindingType::Buffer {
                size: u.byte_size as usize,
                dynamic: u.dynamic,
                readonly: true,
            },
            visibility: u.stage,
        });
        proof {
            assert(uniforms@.take(i as int).map_values(|x: AFUniform| binding_of(x)).push(
                binding_of(uniforms@[i as int]),
            ) =~= uniforms@.take(i as int + 1).map_values(|x: AFUniform| binding_of(x)));
        }
        i += 1;
    }
    proof {
        assert(uniforms@.take(uniforms@.len() as int) =~= uniforms@);
    }
    layouts
}

/// The distinct binding locations of a uniform list, in order of first
/// occurrence.
pub open spec fn distinct_locations(uniforms: Seq<AFUniform>) -> Seq<u32>
    decreases uniforms.len(),
{
    if uniforms.len() == 0 {
        Seq::empty()
    } else {
        let prefix = distinct_locations(uniforms.drop_last());
        if prefix.contains(uniforms.last().location) {
            prefix
        } else {
            prefix.push(uniforms.last().location)
        }
    }
}

/// The byte size of the last uniform declared at a location: a repeated
/// location overwrites the buffer size planned for it.
pub open spec fn last_byte_size(uniforms: Seq<AFUniform>, location: u32) -> u32
    decreases uniforms.len(),
{
    if uniforms.len() == 0 {
        0
    } else if uniforms.last().location == location {
        uniforms.last().byte_size
    } else {
        last_byte_size(uniforms.drop_last(), location)
    }
}

/// The locations column of a buffer plan.
pub open spec fn plan_locations(plan: Seq<(u32, u32)>) -> Seq<u32> {
    plan.map_values(|p: (u32, u32)| p.0)
}

/// The distinct-locations list never repeats a location, and holds
/// exactly the locations that occur in the uniform list.
pub proof fn lemma_distinct_locations(uniforms: Seq<AFUniform>)
    ensures
        distinct_locations(uniforms).no_duplicates(),
        forall|loc: u32|
            distinct_locations(uniforms).contains(loc) <==> (exists|i: int|
                0 <= i < uniforms.len() && (#[trigger] uniforms[i]).location == loc),
    decreases uniforms.len(),
{
    if uniforms.len() > 0 {
        lemma_distinct_locations(uniforms.drop_last());
        let prefix = distinct_locations(uniforms.drop_last());
        let loc0 = uniforms.last().location;
        assert forall|loc: u32| distinct_locations(uniforms).contains(loc) implies (exists|i: int|
            0 <= i < uniforms.len() && (#[trigger] uniforms[i]).location == loc) by {
            if loc == loc0 {
                assert(uniforms[uniforms.len() - 1].location == loc);
            } else {
                assert(prefix.contains(loc));
                let i = choose|i: int|
                    0 <= i < uniforms.drop_last().len() && (#[trigger] uniforms.drop_last()[i])
                        .location == loc;
                assert(uniforms[i].location == loc);
            }
        }
        assert forall|loc: u32|
            (exists|i: int|
                0 <= i < uniforms.len() && (#[trigger] uniforms[i]).location
                    == loc) implies distinct_locations(uniforms).contains(loc) by {
            let i = choose|i: int|
                0 <= i < uniforms.len() && (#[trigger] uniforms[i]).location == loc;
            if i < uniforms.len() - 1 {
                assert(uniforms.drop_last()[i].location == loc);
                assert(prefix.contains(loc));
                if !prefix.contains(loc0) {
                    assert(prefix.push(loc0)[prefix.index_of(loc)] == loc);
                }
            } else {
                assert(loc == loc0);
                if prefix.contains(loc0) {
                } else {
                    assert(prefix.push(loc0).last() == loc0);
                }
            }
        }
        if !prefix.contains(loc0) {
            let whole = prefix.push(loc0);
            assert forall|a: int, b: int|
                0 <= a < whole.len() && 0 <= b < whole.len() && a != b implies whole[a]
                != whole[b] by {
                if a < prefix.len() && b < prefix.len() {
                    assert(whole[a] == prefix[a] && whole[b] == prefix[b]);
                } else if a == prefix.len() {
                    assert(whole[a] == loc0 && whole[b] == prefix[b]);
                    assert(!prefix.contains(loc0));
                } else {
                    assert(whole[b] == loc0 && whole[a] == prefix[a]);
                    assert(!prefix.contains(loc0));
                }
            }
        }
    }
}

/// Finds the plan entry for a location, if one exists.
fn find_location(plan: &Vec<(u32, u32)>, location: u32) -> (r: Option<usize>)
    ensures
        match r {
            Some(k) => k < plan@.len() && plan@[k as int].0 == location,
            None => forall|j: int| 0 <= j < plan@.len() ==> (#[trigger] plan@[j]).0 != location,
        },
{
    let mut k: usize = 0;
    while k < plan.len()
        invariant
            0 <= k <= plan@.len(),
            forall|j: int| 0 <= j < k ==> (#[trigger] plan@[j]).0 != location,
        decreases plan@.len() - k,
    {
        if plan[k].0 == location {
            return Some(k);
        }
        k += 1;
    }
    None
}

/// The uniform buffer plan: one entry per distinct binding location, in
/// first-occurrence order, each mapped to the byte size of the last
/// uniform declared at it. This is the buffer map a pipeline constructor
/// allocates from.
pub fn uniform_buffer_sizes(uniforms: &Vec<AFUniform>) -> (plan: Vec<(u32, u32)>)
    ensures
        plan_locations(plan@) == distinct_locations(uniforms@),
        forall|j: int|
            0 <= j < plan@.len() ==> (#[trigger] plan@[j]).1 == last_byte_size(
                uniforms@,
                plan@[j].0,
            ),
{
    let mut plan: Vec<(u32, u32)> = Vec::new();
    let mut i: usize = 0;
    proof {
        assert(uniforms@.take(0) =~= Seq::<AFUniform>::empty());
        assert(plan_locations(plan@) =~= distinct_locations(uniforms@.take(0)));
    }
    while i < uniforms.len()
        invariant
            0 <= i <= uniforms@.len(),
            plan_locations(plan@) == distinct_locations(uniforms@.take(i as int)),
            forall|j: int|
                0 <= j < plan@.len() ==> (#[trigger] plan@[j]).1 == last_byte_size(
                    uniforms@.take(i as int),
                    plan@[j].0,
                ),
        decreases uniforms@.len() - i,
    {
        let ghost taken = uniforms@.take(i as int);
        let ghost taken_next = uniforms@.take(i as int + 1);
        proof {
            assert(taken_next.drop_last() =~= taken);
            assert(taken_next.last() == uniforms@[i as int]);
            lemma_distinct_locations(taken);
        }
        let u = uniforms[i];
        let ghost before = plan@;
        match find_location(&plan, u.location) {
            Some(k) => {
                proof {
                    assert(plan_locations(before)[k as int] == before[k as int].0);
                    assert(distinct_locations(taken).contains(u.location));
                }
                plan[k] = (u.location, u.byte_size);
                proof {
                    assert(plan_locations(plan@) =~= plan_locations(before));
                    assert(distinct_locations(taken_next) == distinct_locations(taken));
                    assert forall|j: int| 0 <= j < plan@.len() implies (#[trigger] plan@[j]).1
                        == last_byte_size(taken_next, plan@[j].0) by {
                        if j == k {
                            assert(plan@[j] == (u.location, u.byte_size));
                        } else {
                            assert(plan@[j] == before[j]);
                            assert(plan_locations(before)[j] == before[j].0);
                            assert(plan_locations(before)[k as int] == u.location);
                            assert(plan_locations(before).no_duplicates());
                            assert(before[j].0 != u.location);
                        }
                    }
                }
            },
            None => {
                proof {
                    assert forall|loc: u32|
                        distinct_locations(taken).contains(loc) implies loc != u.location by {
                        let j = choose|j: int|
                            0 <= j < plan_locations(before).len() && plan_locations(before)[j]
                                == loc;
                        assert(before[j].0 == loc);
                    }
                    assert(!distinct_locations(taken).contains(u.location));
                }
                plan.push((u.location, u.byte_size));
                proof {
                    assert(plan_locations(plan@) =~= plan_locations(before).push(u.location));
                    assert(distinct_locations(taken_next) == distinct_locations(taken).push(
                        u.location,
                    ));
                    assert forall|j: int| 0 <= j < plan@.len() implies (#[trigger] plan@[j]).1
                        == last_byte_size(taken_next, plan@[j].0) by {
                        if j < before.len() {
                            assert(plan@[j] == before[j]);
                            assert(plan_locations(before)[j] == before[j].0);
                            assert(distinct_locations(taken).contains(before[j].0));
                            assert(before[j].0 != u.location);
                        } else {
                            assert(plan@[j] == (u.location, u.byte_size));
                        }
                    }
                }
            },
        }
        i += 1;
    }
    proof {
        assert(uniforms@.take(uniforms@.len() as int) =~= uniforms@);
    }
    plan
}

} // verus!
