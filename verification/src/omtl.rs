use vstd::prelude::*;
use crate::error::RegistryError;
use crate::omi::{name_reader, names};
use crate::schema::{
    agrees_deep, invalid, items, lemma_each_fault_persists, missing, required, spec_each,
    spec_items, spec_required, under, Field, SchemaError, SchemaFault, Step,
};
use crate::text::str_eq;
use crate::yaml::Yaml;

verus! {

/// One item of the `objects` list of a material bundle: the material of
/// the sub-meshes that it selects.
#[derive(Clone, Debug, PartialEq, Eq)]
pub enum ObjectRule {
    /// The sub-mesh of this name.
    ByName { name: String, material_index: u64 },
    /// The sub-mesh at this position of the model.
    ByIndex { index: u64, material_index: u64 },
    /// An item with neither a `name` nor an `index`: it selects nothing.
    Unkeyed,
}

/// The mathematical content of an `ObjectRule`.
pub enum RuleModel {
    ByName { name: Seq<char>, material_index: u64 },
    ByIndex { index: u64, material_index: u64 },
    Unkeyed,
}

impl DeepView for ObjectRule {
    type V = RuleModel;

    open spec fn deep_view(&self) -> RuleModel {
        match self {
            ObjectRule::ByName { name, material_index } => RuleModel::ByName {
                name: name@,
                material_index: *material_index,
            },
            ObjectRule::ByIndex { index, material_index } => RuleModel::ByIndex {
                index: *index,
                material_index: *material_index,
            },
            ObjectRule::Unkeyed => RuleModel::Unkeyed,
        }
    }
}

/// A material bundle: the materials of a model by name, the rules that
/// give sub-meshes a material of their own, and the material of every
/// other sub-mesh.
#[derive(Clone, Debug, PartialEq, Eq)]
pub struct MaterialBundle {
    pub materials: Vec<String>,
    pub objects: Vec<ObjectRule>,
    pub fallback: u64,
}

/// The mathematical content of a `MaterialBundle`.
pub struct BundleModel {
    pub materials: Seq<Seq<char>>,
    pub objects: Seq<RuleModel>,
    pub fallback: u64,
}

impl DeepView for MaterialBundle {
    type V = BundleModel;

    open spec fn deep_view(&self) -> BundleModel {
        BundleModel {
            materials: self.materials.deep_view(),
            objects: self.objects.deep_view(),
            fallback: self.fallback,
        }
    }
}

/// The required `material_index` of an item that selects a sub-mesh.
pub open spec fn spec_material_index(item: Yaml) -> Result<u64, SchemaFault> {
    match spec_required(item, Field::MaterialIndex) {
        Err(e) => Err(e),
        Ok(value) => match value.spec_as_u64() {
            Some(index) => Ok(index),
            None => Err(invalid(Field::MaterialIndex)),
        },
    }
}

/// The rule of one item of the `objects` list. A `name` decides before an
/// `index` does.
pub open spec fn spec_rule(item: Yaml) -> Result<RuleModel, SchemaFault> {
    match item.spec_get(Field::Name.spec_name()) {
        Some(value) => match value.spec_as_str() {
            None => Err(invalid(Field::Name)),
            Some(name) => match spec_material_index(item) {
                Err(e) => Err(e),
                Ok(material_index) => Ok(RuleModel::ByName { name, material_index }),
            },
        },
        None => match item.spec_get(Field::Index.spec_name()) {
            Some(value) => match value.spec_as_u64() {
                None => Err(invalid(Field::Index)),
                Some(index) => match spec_material_index(item) {
                    Err(e) => Err(e),
                    Ok(material_index) => Ok(RuleModel::ByIndex { index, material_index }),
                },
            },
            None => Ok(RuleModel::Unkeyed),
        },
    }
}

/// `spec_rule` as the reader of the items of the `objects` list.
pub open spec fn rule_reader() -> spec_fn(Yaml, int) -> Result<RuleModel, SchemaFault> {
    |item: Yaml, at: int| spec_rule(item)
}

/// The `default` of an item, where it has one that is an unsigned integer.
pub open spec fn spec_item_fallback(item: Yaml) -> Option<u64> {
    match item.spec_get(Field::Fallback.spec_name()) {
        Some(value) => value.spec_as_u64(),
        None => None,
    }
}

/// The first `default` from position `from` on.
pub open spec fn spec_fallback(objects: Seq<Yaml>, from: int) -> Option<u64>
    decreases objects.len() - from,
{
    if from < 0 || from >= objects.len() {
        None
    } else {
        match spec_item_fallback(objects[from]) {
            Some(index) => Some(index),
            None => spec_fallback(objects, from + 1),
        }
    }
}

/// What a material bundle document describes, or the first fault in it,
/// in the order `materials`, `objects` (as a list), the fallback, the
/// rules.
pub open spec fn spec_parse_omtl(root: Yaml) -> Result<BundleModel, SchemaFault> {
    match spec_items(root, Field::Materials) {
        Err(e) => Err(e),
        Ok(list) => match spec_each(list, name_reader(), list.len() as int) {
            Err(e) => Err(under(Step::Key(Field::Materials), e)),
            Ok(materials) => match spec_items(root, Field::Objects) {
                Err(e) => Err(e),
                Ok(objects) => match spec_fallback(objects, 0) {
                    None => Err(under(Step::Key(Field::Objects), missing(Field::Fallback))),
                    Some(fallback) => match spec_each(objects, rule_reader(), objects.len() as int) {
                        Err(e) => Err(under(Step::Key(Field::Objects), e)),
                        Ok(rules) => Ok(BundleModel { materials, objects: rules, fallback }),
                    },
                },
            },
        },
    }
}

/// The required `material_index` of an item that selects a sub-mesh.
pub fn material_index(item: &Yaml) -> (found: Result<u64, SchemaError>)
    ensures
        match found {
            Ok(index) => spec_material_index(*item) == Ok::<u64, SchemaFault>(index),
            Err(e) => spec_material_index(*item) == Err::<u64, SchemaFault>(e.deep_view()),
        },
{
    match required(item, Field::MaterialIndex) {
        Err(e) => Err(e),
        Ok(value) => match value.as_u64() {
            Some(index) => Ok(index),
            None => Err(SchemaError::invalid(Field::MaterialIndex)),
        },
    }
}

/// The rule of one item of the `objects` list.
pub fn rule(item: &Yaml) -> (found: Result<ObjectRule, SchemaError>)
    ensures
        agrees_deep(found, spec_rule(*item)),
{
    match item.get(Field::Name.name()) {
        Some(value) => match value.as_str() {
            None => Err(SchemaError::invalid(Field::Name)),
            Some(name) => match material_index(item) {
                Err(e) => Err(e),
                Ok(material_index) => Ok(
                    ObjectRule::ByName { name: name.to_owned(), material_index },
                ),
            },
        },
        None => match item.get(Field::Index.name()) {
            Some(value) => match value.as_u64() {
                None => Err(SchemaError::invalid(Field::Index)),
                Some(index) => match material_index(item) {
                    Err(e) => Err(e),
                    Ok(material_index) => Ok(ObjectRule::ByIndex { index, material_index }),
                },
            },
            None => Ok(ObjectRule::Unkeyed),
        },
    }
}

/// The first `default` of a list of objects.
pub fn fallback(objects: &Vec<Yaml>) -> (found: Option<u64>)
    ensures
        found == spec_fallback(objects@, 0),
{
    let mut i: usize = 0;
    while i < objects.len()
        invariant
            i <= objects@.len(),
            spec_fallback(objects@, 0) == spec_fallback(objects@, i as int),
        decreases objects@.len() - i,
    {
        match objects[i].get(Field::Fallback.name()) {
            Some(value) => match value.as_u64() {
                Some(index) => {
                    return Some(index);
                },
                None => {},
            },
            None => {},
        }
        i += 1;
    }
    None
}

/// Reads a material bundle document.
pub fn parse_omtl(root: &Yaml) -> (found: Result<MaterialBundle, SchemaError>)
    ensures
        agrees_deep(found, spec_parse_omtl(*root)),
{
    let list = match items(root, Field::Materials) {
        Ok(list) => list,
        Err(e) => {
            return Err(e);
        },
    };
    let materials = match names(list) {
        Ok(materials) => materials,
        Err(e) => {
            return Err(e.under(Step::Key(Field::Materials)));
        },
    };
    let objects = match items(root, Field::Objects) {
        Ok(objects) => objects,
        Err(e) => {
            return Err(e);
        },
    };
    let fallback = match fallback(objects) {
        Some(index) => index,
        None => {
            return Err(SchemaError::missing(Field::Fallback).under(Step::Key(Field::Objects)));
        },
    };
    let mut rules: Vec<ObjectRule> = Vec::new();
    proof {
        assert(rules.deep_view() =~= Seq::<RuleModel>::empty());
    }
    let mut i: usize = 0;
    while i < objects.len()
        invariant
            i <= objects@.len(),
            spec_each(objects@, rule_reader(), i as int) == Ok::<Seq<RuleModel>, SchemaFault>(
                rules.deep_view(),
            ),
            spec_items(*root, Field::Materials) == Ok::<Seq<Yaml>, SchemaFault>(list@),
            spec_each(list@, name_reader(), list@.len() as int) == Ok::<
                Seq<Seq<char>>,
                SchemaFault,
            >(materials.deep_view()),
            spec_items(*root, Field::Objects) == Ok::<Seq<Yaml>, SchemaFault>(objects@),
            spec_fallback(objects@, 0) == Some(fallback),
        decreases objects@.len() - i,
    {
        let one = match rule(&objects[i]) {
            Ok(one) => one,
            Err(e) => {
                proof {
                    lemma_each_fault_persists(objects@, rule_reader(), i + 1, objects@.len() as int);
                }
                return Err(e.under(Step::Item(i)).under(Step::Key(Field::Objects)));
            },
        };
        let ghost before = rules.deep_view();
        rules.push(one);
        proof {
            assert(rules.deep_view() =~= before.push(one.deep_view()));
        }
        i += 1;
    }
    Ok(MaterialBundle { materials, objects: rules, fallback })
}

/// The material index that a rule gives to the sub-mesh of this name at
/// this position, if the rule selects it.
pub open spec fn spec_rule_choice(rule: RuleModel, name: Seq<char>, position: nat) -> Option<u64> {
    match rule {
        RuleModel::ByName { name: wanted, material_index } => if wanted == name {
            Some(material_index)
        } else {
            None
        },
        RuleModel::ByIndex { index, material_index } => if index == position {
            Some(material_index)
        } else {
            None
        },
        RuleModel::Unkeyed => None,
    }
}

/// The choice of the first rule from position `from` on that selects the
/// sub-mesh.
pub open spec fn spec_first_choice(
    rules: Seq<RuleModel>,
    name: Seq<char>,
    position: nat,
    from: int,
) -> Option<u64>
    decreases rules.len() - from,
{
    if from < 0 || from >= rules.len() {
        None
    } else {
        match spec_rule_choice(rules[from], name, position) {
            Some(index) => Some(index),
            None => spec_first_choice(rules, name, position, from + 1),
        }
    }
}

impl BundleModel {
    /// The material index of a sub-mesh: that of the first rule which
    /// selects it, else the fallback.
    pub open spec fn material_index_of(self, name: Seq<char>, position: nat) -> u64 {
        match spec_first_choice(self.objects, name, position, 0) {
            Some(index) => index,
            None => self.fallback,
        }
    }

    /// The loaded material of a sub-mesh: the id at its material index in
    /// the list of the ids of the bundle's materials.
    pub open spec fn material_of(self, loaded: Seq<usize>, name: Seq<char>, position: nat) -> Result<
        usize,
        RegistryError,
    > {
        if self.material_index_of(name, position) < loaded.len() {
            Ok(loaded[self.material_index_of(name, position) as int])
        } else {
            Err(RegistryError::OutOfRange)
        }
    }
}

impl MaterialBundle {
    /// The material index of the sub-mesh of this name at this position.
    pub fn material_index_of(&self, name: &str, position: usize) -> (index: u64)
        ensures
            index == self.deep_view().material_index_of(name@, position as nat),
    {
        let ghost rules = self.deep_view().objects;
        let mut i: usize = 0;
        while i < self.objects.len()
            invariant
                i <= self.objects@.len(),
                rules == self.objects.deep_view(),
                spec_first_choice(rules, name@, position as nat, 0) == spec_first_choice(
                    rules,
                    name@,
                    position as nat,
                    i as int,
                ),
            decreases self.objects@.len() - i,
        {
            assert(rules[i as int] == self.objects@[i as int].deep_view());
            match &self.objects[i] {
                ObjectRule::ByName { name: wanted, material_index } => {
                    if str_eq(wanted.as_str(), name) {
                        return *material_index;
                    }
                },
                ObjectRule::ByIndex { index, material_index } => {
                    if *index == position as u64 {
                        return *material_index;
                    }
                },
                ObjectRule::Unkeyed => {},
            }
            i += 1;
        }
        self.fallback
    }

    /// The id of the loaded material of a sub-mesh. `loaded` holds the
    /// ids of the bundle's materials in the order of `materials`.
    pub fn material_of(&self, loaded: &Vec<usize>, name: &str, position: usize) -> (id: Result<
        usize,
        RegistryError,
    >)
        ensures
            id == self.deep_view().material_of(loaded@, name@, position as nat),
    {
        let index = self.material_index_of(name, position);
        if index < loaded.len() as u64 {
            Ok(loaded[index as usize])
        } else {
            Err(RegistryError::OutOfRange)
        }
    }
}

} // verus!
