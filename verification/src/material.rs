use vstd::prelude::*;
use crate::binding::BindingKind;
use crate::collection::ResourceCollection;
use crate::error::RegistryError;
use crate::omi::{BindGroupDescription, EntryModel, GroupModel, MaterialDescription, MaterialModel};
use crate::resource::{BindingResource, ShaderResource};
use crate::text::str_eq;

verus! {

/// A compiled material: its pipeline, the ids of the shared bind groups
/// that come first in its pipeline layout, and its own bind groups.
///
/// The GPU objects are the application's; the registry logic never looks
/// into them.
pub struct Material<G, P, L> {
    pub name: String,
    pub shared_bind_groups: Vec<usize>,
    pub bind_groups: Vec<G>,
    pub render_pipeline: P,
    pub pipeline_layout: L,
}

impl<G, P, L> Material<G, P, L> {
    /// A material around a pipeline that is already built.
    pub fn with_pipeline(
        name: String,
        render_pipeline: P,
        pipeline_layout: L,
        shared_bind_groups: Vec<usize>,
        bind_groups: Vec<G>,
    ) -> (material: Self)
        ensures
            material.name == name,
            material.render_pipeline == render_pipeline,
            material.pipeline_layout == pipeline_layout,
            material.shared_bind_groups == shared_bind_groups,
            material.bind_groups == bind_groups,
    {
        Material { name, shared_bind_groups, bind_groups, render_pipeline, pipeline_layout }
    }
}

/// One slot of a bind group with what it is bound to.
#[derive(Clone, Copy, Debug, PartialEq, Eq)]
pub struct BoundEntry {
    pub binding: u32,
    pub resource: BindingResource,
}

impl DeepView for BoundEntry {
    type V = BoundEntry;

    open spec fn deep_view(&self) -> BoundEntry {
        *self
    }
}

/// A resource that a material names and the registry cannot supply.
#[derive(Clone, Debug, PartialEq, Eq)]
pub struct ResourceError {
    /// The name as the material document gives it.
    pub name: String,
    pub error: RegistryError,
}

/// The mathematical content of a `ResourceError`.
pub struct ResourceFault {
    pub name: Seq<char>,
    pub error: RegistryError,
}

impl DeepView for ResourceError {
    type V = ResourceFault;

    open spec fn deep_view(&self) -> ResourceFault {
        ResourceFault { name: self.name@, error: self.error }
    }
}

/// The stored values behind the first `upto` entries of a bind group, or
/// the first name among them that leads to none.
pub open spec fn spec_backing(
    entries: Seq<EntryModel>,
    resources: ResourceCollection<ShaderResource>,
    upto: int,
) -> Result<Seq<ShaderResource>, ResourceFault>
    decreases upto,
{
    if upto <= 0 {
        Ok(Seq::empty())
    } else {
        match spec_backing(entries, resources, upto - 1) {
            Err(e) => Err(e),
            Ok(found) => match resources.spec_get_resource(entries[upto - 1].resource) {
                Err(error) => Err(ResourceFault { name: entries[upto - 1].resource, error }),
                Ok(stored) => Ok(found.push(stored)),
            },
        }
    }
}

/// The first `upto` slots of a bind group, each bound to what its stored
/// value gives for the slot's type, or the first that cannot be bound.
pub open spec fn spec_bound(
    entries: Seq<EntryModel>,
    backing: Seq<ShaderResource>,
    upto: int,
) -> Result<Seq<BoundEntry>, ResourceFault>
    decreases upto,
{
    if upto <= 0 {
        Ok(Seq::empty())
    } else {
        match spec_bound(entries, backing, upto - 1) {
            Err(e) => Err(e),
            Ok(bound) => match backing[upto - 1].spec_binding_for(entries[upto - 1].ty) {
                Err(error) => Err(ResourceFault { name: entries[upto - 1].resource, error }),
                Ok(resource) => Ok(
                    bound.push(BoundEntry { binding: entries[upto - 1].binding, resource }),
                ),
            },
        }
    }
}

/// The bindings of a bind group: every name is resolved first, then every
/// slot is bound.
pub open spec fn spec_plan_bind_group(
    group: GroupModel,
    resources: ResourceCollection<ShaderResource>,
) -> Result<Seq<BoundEntry>, ResourceFault> {
    match spec_backing(group.entries, resources, group.entries.len() as int) {
        Err(e) => Err(e),
        Ok(backing) => spec_bound(group.entries, backing, group.entries.len() as int),
    }
}

/// A failure among the first entries is the failure of the whole group.
proof fn lemma_backing_fault_persists(
    entries: Seq<EntryModel>,
    resources: ResourceCollection<ShaderResource>,
    upto: int,
    end: int,
)
    requires
        spec_backing(entries, resources, upto) is Err,
        upto <= end,
    ensures
        spec_backing(entries, resources, end) == spec_backing(entries, resources, upto),
    decreases end - upto,
{
    if upto < end {
        lemma_backing_fault_persists(entries, resources, upto, end - 1);
    }
}

/// A slot among the first that cannot be bound fails the whole group.
proof fn lemma_bound_fault_persists(
    entries: Seq<EntryModel>,
    backing: Seq<ShaderResource>,
    upto: int,
    end: int,
)
    requires
        spec_bound(entries, backing, upto) is Err,
        upto <= end,
    ensures
        spec_bound(entries, backing, end) == spec_bound(entries, backing, upto),
    decreases end - upto,
{
    if upto < end {
        lemma_bound_fault_persists(entries, backing, upto, end - 1);
    }
}

/// The bindings of a bind group, from the stored values that its entries
/// name.
pub fn plan_bind_group(
    group: &BindGroupDescription,
    resources: &ResourceCollection<ShaderResource>,
) -> (plan: Result<Vec<BoundEntry>, ResourceError>)
    ensures
        match plan {
            Ok(bound) => spec_plan_bind_group(group.deep_view(), *resources) == Ok::<
                Seq<BoundEntry>,
                ResourceFault,
            >(bound@),
            Err(e) => spec_plan_bind_group(group.deep_view(), *resources) == Err::<
                Seq<BoundEntry>,
                ResourceFault,
            >(e.deep_view()),
        },
{
    let ghost entries = group.deep_view().entries;
    let n = group.entries.len();
    let mut backing: Vec<ShaderResource> = Vec::new();
    let mut i: usize = 0;
    while i < n
        invariant
            i <= n,
            n == group.entries@.len(),
            backing@.len() == i,
            entries == group.deep_view().entries,
            spec_backing(entries, *resources, i as int) == Ok::<Seq<ShaderResource>, ResourceFault>(
                backing@,
            ),
        decreases n - i,
    {
        let entry = &group.entries[i];
        assert(entries[i as int] == entry.deep_view());
        match resources.get_resource(entry.resource.as_str()) {
            Ok(stored) => {
                backing.push(*stored);
            },
            Err(error) => {
                proof {
                    lemma_backing_fault_persists(entries, *resources, i + 1, n as int);
                }
                return Err(ResourceError { name: entry.resource.clone(), error });
            },
        }
        i += 1;
    }
    let mut bound: Vec<BoundEntry> = Vec::new();
    let mut i: usize = 0;
    while i < n
        invariant
            i <= n,
            n == group.entries@.len(),
            n == backing@.len(),
            entries == group.deep_view().entries,
            spec_backing(entries, *resources, n as int) == Ok::<Seq<ShaderResource>, ResourceFault>(
                backing@,
            ),
            spec_bound(entries, backing@, i as int) == Ok::<Seq<BoundEntry>, ResourceFault>(bound@),
        decreases n - i,
    {
        let entry = &group.entries[i];
        assert(entries[i as int] == entry.deep_view());
        match backing[i].binding_for(&entry.ty) {
            Ok(resource) => {
                bound.push(BoundEntry { binding: entry.binding, resource });
            },
            Err(error) => {
                proof {
                    lemma_bound_fault_persists(entries, backing@, i + 1, n as int);
                }
                return Err(ResourceError { name: entry.resource.clone(), error });
            },
        }
        i += 1;
    }
    Ok(bound)
}

/// Whether a slot of this kind is backed by a texture, which is loaded
/// before the material is built.
pub open spec fn wants_texture(kind: BindingKind) -> bool {
    kind == BindingKind::Sampler || kind == BindingKind::Texture
}

/// The resources of the texture-backed slots among the first `upto`
/// entries, in slot order.
pub open spec fn spec_entry_textures(entries: Seq<EntryModel>, upto: int) -> Seq<Seq<char>>
    decreases upto,
{
    if upto <= 0 {
        Seq::empty()
    } else if wants_texture(entries[upto - 1].ty.spec_kind()) {
        spec_entry_textures(entries, upto - 1).push(entries[upto - 1].resource)
    } else {
        spec_entry_textures(entries, upto - 1)
    }
}

/// The resources of the texture-backed slots of the first `upto` bind
/// groups, group by group.
pub open spec fn spec_texture_names(groups: Seq<GroupModel>, upto: int) -> Seq<Seq<char>>
    decreases upto,
{
    if upto <= 0 {
        Seq::empty()
    } else {
        spec_texture_names(groups, upto - 1) + spec_entry_textures(
            groups[upto - 1].entries,
            groups[upto - 1].entries.len() as int,
        )
    }
}

/// The names of the textures that a material needs: the resource of
/// every sampler slot and every texture slot, in the order of the
/// document. A texture that backs two slots is named twice.
pub fn texture_names(description: &MaterialDescription) -> (names: Vec<String>)
    ensures
        names.deep_view() == spec_texture_names(
            description.deep_view().bind_groups,
            description.deep_view().bind_groups.len() as int,
        ),
{
    let ghost groups = description.deep_view().bind_groups;
    let mut names: Vec<String> = Vec::new();
    proof {
        assert(names.deep_view() =~= Seq::<Seq<char>>::empty());
    }
    let mut g: usize = 0;
    while g < description.bind_groups.len()
        invariant
            g <= description.bind_groups@.len(),
            groups == description.deep_view().bind_groups,
            names.deep_view() == spec_texture_names(groups, g as int),
        decreases description.bind_groups@.len() - g,
    {
        let group = &description.bind_groups[g];
        let ghost entries = groups[g as int].entries;
        assert(entries == group.entries.deep_view());
        let ghost start = names.deep_view();
        let mut i: usize = 0;
        while i < group.entries.len()
            invariant
                i <= group.entries@.len(),
                entries == group.entries.deep_view(),
                names.deep_view() == start + spec_entry_textures(entries, i as int),
            decreases group.entries@.len() - i,
        {
            let entry = &group.entries[i];
            assert(entries[i as int] == entry.deep_view());
            let kind = entry.ty.kind();
            match kind {
                BindingKind::Sampler | BindingKind::Texture => {
                    let ghost before = names.deep_view();
                    names.push(entry.resource.clone());
                    proof {
                        assert(names.deep_view() =~= before.push(entry.resource@));
                        assert(names.deep_view() =~= start + spec_entry_textures(entries, i + 1));
                    }
                },
                _ => {},
            }
            i += 1;
        }
        g += 1;
    }
    names
}

/// The ids of the first `upto` shared bind groups of a material, or the
/// first name among them that the registry of shared bind groups does
/// not hold.
pub open spec fn spec_shared_ids<S>(
    names: Seq<Seq<char>>,
    shared: ResourceCollection<S>,
    upto: int,
) -> Result<Seq<usize>, ResourceFault>
    decreases upto,
{
    if upto <= 0 {
        Ok(Seq::empty())
    } else {
        match spec_shared_ids(names, shared, upto - 1) {
            Err(e) => Err(e),
            Ok(ids) => if !shared.names().contains_key(names[upto - 1]) {
                Err(ResourceFault { name: names[upto - 1], error: RegistryError::UnknownKey })
            } else if shared.names()[names[upto - 1]] >= shared@.len() {
                Err(ResourceFault { name: names[upto - 1], error: RegistryError::OutOfRange })
            } else {
                Ok(ids.push(shared.names()[names[upto - 1]]))
            },
        }
    }
}

/// A shared bind group among the first that is not held fails them all.
proof fn lemma_shared_fault_persists<S>(
    names: Seq<Seq<char>>,
    shared: ResourceCollection<S>,
    upto: int,
    end: int,
)
    requires
        spec_shared_ids(names, shared, upto) is Err,
        upto <= end,
    ensures
        spec_shared_ids(names, shared, end) == spec_shared_ids(names, shared, upto),
    decreases end - upto,
{
    if upto < end {
        lemma_shared_fault_persists(names, shared, upto, end - 1);
    }
}

/// The ids of the shared bind groups that a material names. The material
/// keeps the ids, not the groups: what is stored under an id when the
/// material is drawn is what is bound.
pub fn shared_ids<S>(names: &Vec<String>, shared: &ResourceCollection<S>) -> (ids: Result<
    Vec<usize>,
    ResourceError,
>)
    ensures
        match ids {
            Ok(found) => spec_shared_ids(names.deep_view(), *shared, names@.len() as int) == Ok::<
                Seq<usize>,
                ResourceFault,
            >(found@),
            Err(e) => spec_shared_ids(names.deep_view(), *shared, names@.len() as int) == Err::<
                Seq<usize>,
                ResourceFault,
            >(e.deep_view()),
        },
{
    let mut ids: Vec<usize> = Vec::new();
    let mut i: usize = 0;
    while i < names.len()
        invariant
            i <= names@.len(),
            spec_shared_ids(names.deep_view(), *shared, i as int) == Ok::<
                Seq<usize>,
                ResourceFault,
            >(ids@),
        decreases names@.len() - i,
    {
        let name = &names[i];
        assert(names.deep_view()[i as int] == name@);
        let error = match shared.lookup(name.as_str()) {
            None => RegistryError::UnknownKey,
            Some(id) => {
                if id < shared.len() {
                    ids.push(id);
                    i += 1;
                    continue;
                }
                RegistryError::OutOfRange
            },
        };
        proof {
            lemma_shared_fault_persists(names.deep_view(), *shared, i + 1, names@.len() as int);
        }
        return Err(ResourceError { name: name.clone(), error });
    }
    Ok(ids)
}

/// What is needed to build a material, once every name in its document
/// is resolved.
#[derive(Clone, Debug, PartialEq, Eq)]
pub struct MaterialPlan {
    /// The ids of the shared bind groups, in the order of the document.
    pub shared_bind_groups: Vec<usize>,
    /// The bindings of the material's own bind groups.
    pub bind_groups: Vec<Vec<BoundEntry>>,
    /// Whether the fragment entry point lies in the module of the vertex
    /// entry point, so that one shader module serves both.
    pub single_module: bool,
}

/// The mathematical content of a `MaterialPlan`.
pub struct PlanModel {
    pub shared_bind_groups: Seq<usize>,
    pub bind_groups: Seq<Seq<BoundEntry>>,
    pub single_module: bool,
}

impl DeepView for MaterialPlan {
    type V = PlanModel;

    open spec fn deep_view(&self) -> PlanModel {
        PlanModel {
            shared_bind_groups: self.shared_bind_groups@,
            bind_groups: self.bind_groups.deep_view(),
            single_module: self.single_module,
        }
    }
}

/// The bindings of the first `upto` bind groups, or the first failure
/// among them.
pub open spec fn spec_plan_groups(
    groups: Seq<GroupModel>,
    resources: ResourceCollection<ShaderResource>,
    upto: int,
) -> Result<Seq<Seq<BoundEntry>>, ResourceFault>
    decreases upto,
{
    if upto <= 0 {
        Ok(Seq::empty())
    } else {
        match spec_plan_groups(groups, resources, upto - 1) {
            Err(e) => Err(e),
            Ok(plans) => match spec_plan_bind_group(groups[upto - 1], resources) {
                Err(e) => Err(e),
                Ok(bound) => Ok(plans.push(bound)),
            },
        }
    }
}

/// A bind group among the first that fails, fails them all.
proof fn lemma_groups_fault_persists(
    groups: Seq<GroupModel>,
    resources: ResourceCollection<ShaderResource>,
    upto: int,
    end: int,
)
    requires
        spec_plan_groups(groups, resources, upto) is Err,
        upto <= end,
    ensures
        spec_plan_groups(groups, resources, end) == spec_plan_groups(groups, resources, upto),
    decreases end - upto,
{
    if upto < end {
        lemma_groups_fault_persists(groups, resources, upto, end - 1);
    }
}

/// The plan of a material: its own bind groups are resolved first, in the
/// order of the document, then its shared bind groups.
pub open spec fn spec_plan_material<S>(
    description: MaterialModel,
    resources: ResourceCollection<ShaderResource>,
    shared: ResourceCollection<S>,
) -> Result<PlanModel, ResourceFault> {
    match spec_plan_groups(
        description.bind_groups,
        resources,
        description.bind_groups.len() as int,
    ) {
        Err(e) => Err(e),
        Ok(bind_groups) => match spec_shared_ids(
            description.shared_bind_groups,
            shared,
            description.shared_bind_groups.len() as int,
        ) {
            Err(e) => Err(e),
            Ok(shared_bind_groups) => Ok(
                PlanModel {
                    shared_bind_groups,
                    bind_groups,
                    single_module: description.fragment.module == description.vertex.module,
                },
            ),
        },
    }
}

/// Resolves every name of a material description against the registries.
/// Nothing is changed in either registry.
pub fn plan_material<S>(
    description: &MaterialDescription,
    resources: &ResourceCollection<ShaderResource>,
    shared: &ResourceCollection<S>,
) -> (plan: Result<MaterialPlan, ResourceError>)
    ensures
        match plan {
            Ok(p) => spec_plan_material(description.deep_view(), *resources, *shared) == Ok::<
                PlanModel,
                ResourceFault,
            >(p.deep_view()),
            Err(e) => spec_plan_material(description.deep_view(), *resources, *shared) == Err::<
                PlanModel,
                ResourceFault,
            >(e.deep_view()),
        },
{
    let ghost groups = description.deep_view().bind_groups;
    let mut bind_groups: Vec<Vec<BoundEntry>> = Vec::new();
    proof {
        assert(bind_groups.deep_view() =~= Seq::<Seq<BoundEntry>>::empty());
    }
    let mut g: usize = 0;
    while g < description.bind_groups.len()
        invariant
            g <= description.bind_groups@.len(),
            groups == description.deep_view().bind_groups,
            spec_plan_groups(groups, *resources, g as int) == Ok::<
                Seq<Seq<BoundEntry>>,
                ResourceFault,
            >(bind_groups.deep_view()),
        decreases description.bind_groups@.len() - g,
    {
        let group = &description.bind_groups[g];
        assert(groups[g as int] == group.deep_view());
        match plan_bind_group(group, resources) {
            Ok(bound) => {
                let ghost before = bind_groups.deep_view();
                bind_groups.push(bound);
                proof {
                    assert(bound.deep_view() =~= bound@);
                    assert(bind_groups.deep_view() =~= before.push(bound@));
                }
            },
            Err(e) => {
                proof {
                    lemma_groups_fault_persists(
                        groups,
                        *resources,
                        g + 1,
                        description.bind_groups@.len() as int,
                    );
                }
                return Err(e);
            },
        }
        g += 1;
    }
    let shared_bind_groups = match shared_ids(&description.shared_bind_groups, shared) {
        Ok(ids) => ids,
        Err(e) => {
            return Err(e);
        },
    };
    let single_module = str_eq(
        description.fragment.module.as_str(),
        description.vertex.module.as_str(),
    );
    Ok(MaterialPlan { shared_bind_groups, bind_groups, single_module })
}

/// The name under which a loaded asset is kept: the resource name where
/// one is given, else the file name.
pub open spec fn asset_name_of(file_name: &str, resource_name: Option<&str>) -> Seq<char> {
    match resource_name {
        Some(name) => name@,
        None => file_name@,
    }
}

/// The name under which a loaded asset is kept.
pub fn asset_name<'a>(file_name: &'a str, resource_name: Option<&'a str>) -> (name: &'a str)
    ensures
        name@ == asset_name_of(file_name, resource_name),
{
    match resource_name {
        Some(name) => name,
        None => file_name,
    }
}

/// The texture kept under its name, loading it first where the registry
/// holds none under that name. Where the loader fails, its error is
/// handed on and the registry is as before.
pub fn load_texture<'a, T, E, F: FnOnce() -> Result<T, E>>(
    file_name: &str,
    resources: &'a mut ResourceCollection<T>,
    resource_name: Option<&str>,
    load: F,
) -> (loaded: Result<&'a mut T, E>)
    requires
        old(resources).wf(),
        old(resources).id_for(asset_name_of(file_name, resource_name)) <= old(resources)@.len(),
        load.requires(()),
    ensures
        match loaded {
            Ok(texture) => {
                &&& final(resources).wf()
                &&& final(resources).names() == old(resources).names().insert(
                    asset_name_of(file_name, resource_name),
                    old(resources).id_for(asset_name_of(file_name, resource_name)) as usize,
                )
                &&& old(resources).holds(asset_name_of(file_name, resource_name)) ==> *texture
                    == old(resources)@[old(resources).id_for(
                    asset_name_of(file_name, resource_name),
                ) as int]
                &&& !old(resources).holds(asset_name_of(file_name, resource_name))
                    ==> load.ensures((), Ok(*texture))
                &&& final(resources)@ == if old(resources).id_for(
                    asset_name_of(file_name, resource_name),
                ) == old(resources)@.len() {
                    old(resources)@.push(*final(texture))
                } else {
                    old(resources)@.update(
                        old(resources).id_for(asset_name_of(file_name, resource_name)) as int,
                        *final(texture),
                    )
                }
            },
            Err(e) => {
                &&& !old(resources).holds(asset_name_of(file_name, resource_name))
                &&& load.ensures((), Err(e))
                &&& *final(resources) == *old(resources)
            },
        },
        old(resources).is_ready() ==> final(resources).is_ready(),
{
    let name = asset_name(file_name, resource_name);
    resources.get_or_try_insert_with(name, load)
}

/// Whether `post` and `loaded` are an outcome of `load_material` on `pre`
/// under `name`, with a builder that may return what `built` admits.
///
/// A material that the registry holds under the name is returned as it
/// is and nothing changes. Else the builder decides: what it builds is
/// inserted under the name; where it fails, its error is handed on and
/// nothing changes.
pub open spec fn material_loaded<M, E>(
    pre: ResourceCollection<M>,
    post: ResourceCollection<M>,
    name: Seq<char>,
    built: spec_fn(Result<M, E>) -> bool,
    loaded: Result<usize, E>,
) -> bool {
    if pre.holds(name) {
        loaded == Ok::<usize, E>(pre.names()[name]) && post == pre
    } else {
        match loaded {
            Ok(id) => id < post@.len() && built(Ok(post@[id as int]))
                && ResourceCollection::inserted(pre, post, name, post@[id as int], id),
            Err(e) => built(Err(e)) && post == pre,
        }
    }
}

/// The id of the material kept under its name, building and inserting it
/// first where the registry holds none under that name.
pub fn load_material<M, E, F: FnOnce() -> Result<M, E>>(
    file_name: &str,
    materials: &mut ResourceCollection<M>,
    resource_name: Option<&str>,
    build: F,
) -> (loaded: Result<usize, E>)
    requires
        old(materials).wf(),
        old(materials).id_for(asset_name_of(file_name, resource_name)) <= old(materials)@.len(),
        build.requires(()),
    ensures
        material_loaded(
            *old(materials),
            *final(materials),
            asset_name_of(file_name, resource_name),
            |outcome: Result<M, E>| build.ensures((), outcome),
            loaded,
        ),
        old(materials).is_ready() ==> final(materials).is_ready(),
{
    let name = asset_name(file_name, resource_name);
    match materials.lookup(name) {
        Some(id) => {
            if id < materials.len() {
                return Ok(id);
            }
        },
        None => {},
    }
    match build() {
        Ok(material) => Ok(materials.insert(name, material)),
        Err(e) => Err(e),
    }
}

/// Loading a material a second time under the same name returns the id
/// of the first time and leaves the registry as the first load left it,
/// whatever the builder would do.
pub proof fn lemma_load_material_idempotent<M, E>(
    before: ResourceCollection<M>,
    once: ResourceCollection<M>,
    twice: ResourceCollection<M>,
    name: Seq<char>,
    first_build: spec_fn(Result<M, E>) -> bool,
    second_build: spec_fn(Result<M, E>) -> bool,
    id: usize,
    again: Result<usize, E>,
)
    requires
        material_loaded(before, once, name, first_build, Ok::<usize, E>(id)),
        material_loaded(once, twice, name, second_build, again),
    ensures
        again == Ok::<usize, E>(id),
        twice == once,
        twice@.len() == once@.len(),
{
}

} // verus!
