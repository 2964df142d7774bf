use vstd::prelude::*;
use crate::collection::ResourceCollection;
use crate::error::RegistryError;
use crate::material::Material;

verus! {

/// Where the bind group at one index of a pipeline layout comes from.
#[derive(Clone, Copy, Debug, PartialEq, Eq)]
pub enum GroupSource {
    /// What the registry of shared bind groups holds under this id at the
    /// time of use.
    Shared(usize),
    /// The material's own bind group at this position.
    Own(usize),
}

/// The bind groups of a material in the order of their indices: the
/// shared ones first, in the order in which the material names them,
/// then its own.
pub open spec fn spec_group_order(shared: Seq<usize>, own: nat) -> Seq<GroupSource> {
    Seq::new(
        shared.len() + own,
        |i: int|
            if i < shared.len() {
                GroupSource::Shared(shared[i])
            } else {
                GroupSource::Own((i - shared.len()) as usize)
            },
    )
}

/// The bind groups of a material in the order of their indices. The
/// index of a group is its position in the result.
pub fn group_order(shared: &Vec<usize>, own: usize) -> (order: Vec<GroupSource>)
    ensures
        order@ == spec_group_order(shared@, own as nat),
{
    let mut order: Vec<GroupSource> = Vec::new();
    let mut i: usize = 0;
    while i < shared.len()
        invariant
            i <= shared@.len(),
            order@.len() == i,
            forall|j: int| 0 <= j < i ==> order@[j] == GroupSource::Shared(shared@[j]),
        decreases shared@.len() - i,
    {
        order.push(GroupSource::Shared(shared[i]));
        i += 1;
    }
    let mut k: usize = 0;
    while k < own
        invariant
            k <= own,
            order@.len() == shared@.len() + k,
            forall|j: int| 0 <= j < shared@.len() ==> order@[j] == GroupSource::Shared(shared@[j]),
            forall|j: int|
                shared@.len() <= j < shared@.len() + k ==> order@[j] == GroupSource::Own(
                    (j - shared@.len()) as usize,
                ),
        decreases own - k,
    {
        order.push(GroupSource::Own(k));
        k += 1;
    }
    proof {
        assert(order@ =~= spec_group_order(shared@, own as nat));
    }
    order
}

/// Whether the registry of shared bind groups holds a value under every
/// id of the sequence.
pub open spec fn all_held<S>(ids: Seq<usize>, shared: ResourceCollection<S>) -> bool {
    forall|i: int| 0 <= i < ids.len() ==> ids[i] < shared@.len()
}

/// What is bound for a draw with a material: every group in index
/// order, if every shared id of the material leads to a stored value.
pub open spec fn spec_bind_plan<G, P, L, S>(
    material: Material<G, P, L>,
    shared: ResourceCollection<S>,
) -> Result<Seq<GroupSource>, RegistryError> {
    if all_held(material.shared_bind_groups@, shared) {
        Ok(spec_group_order(material.shared_bind_groups@, material.bind_groups@.len()))
    } else {
        Err(RegistryError::OutOfRange)
    }
}

/// The bind groups to set for a draw with `material`, in index order.
///
/// A shared group is named by its id and resolved by the caller when it
/// is bound, so that what was stored last under the id is what is bound.
/// The plan fails as a whole where an id leads to nothing.
pub fn bind_plan<G, P, L, S>(material: &Material<G, P, L>, shared: &ResourceCollection<S>) -> (plan:
    Result<Vec<GroupSource>, RegistryError>)
    ensures
        match plan {
            Ok(order) => spec_bind_plan(*material, *shared) == Ok::<
                Seq<GroupSource>,
                RegistryError,
            >(order@),
            Err(e) => spec_bind_plan(*material, *shared) == Err::<Seq<GroupSource>, RegistryError>(
                e,
            ),
        },
{
    let ids = &material.shared_bind_groups;
    let mut i: usize = 0;
    while i < ids.len()
        invariant
            i <= ids@.len(),
            ids@ == material.shared_bind_groups@,
            forall|j: int| 0 <= j < i ==> ids@[j] < shared@.len(),
        decreases ids@.len() - i,
    {
        if ids[i] >= shared.len() {
            return Err(RegistryError::OutOfRange);
        }
        i += 1;
    }
    Ok(group_order(ids, material.bind_groups.len()))
}

/// What is bound for a draw of a mesh whose material is `material`: the
/// plan of that material, if the id leads to one.
pub open spec fn spec_draw_plan<G, P, L, S>(
    materials: ResourceCollection<Material<G, P, L>>,
    shared: ResourceCollection<S>,
    material: usize,
) -> Result<Seq<GroupSource>, RegistryError> {
    match materials.spec_get(material) {
        Err(e) => Err(e),
        Ok(m) => spec_bind_plan(m, shared),
    }
}

/// The bind groups to set for a draw of a mesh, by the id of its material.
/// Neither registry is changed.
pub fn draw_plan<G, P, L, S>(
    materials: &ResourceCollection<Material<G, P, L>>,
    shared: &ResourceCollection<S>,
    material: usize,
) -> (plan: Result<Vec<GroupSource>, RegistryError>)
    ensures
        match plan {
            Ok(order) => spec_draw_plan(*materials, *shared, material) == Ok::<
                Seq<GroupSource>,
                RegistryError,
            >(order@),
            Err(e) => spec_draw_plan(*materials, *shared, material) == Err::<
                Seq<GroupSource>,
                RegistryError,
            >(e),
        },
{
    match materials.get(material) {
        Err(e) => Err(e),
        Ok(m) => bind_plan(m, shared),
    }
}

} // verus!
