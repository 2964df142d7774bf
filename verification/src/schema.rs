use vstd::prelude::*;
use crate::yaml::Yaml;

verus! {

/// The field names of the material documents.
#[derive(Clone, Copy, Debug, PartialEq, Eq)]
pub enum Field {
    BindGroups,
    SharedBindGroups,
    Buffers,
    EntryPoints,
    Vertex,
    Fragment,
    Module,
    Function,
    Label,
    Entries,
    Visibility,
    Type,
    Buffer,
    MinBindingSize,
    HasDynamicOffset,
    Sampler,
    Texture,
    SamplerType,
    Filterable,
    ViewDimension,
    Multisampled,
    StorageTexture,
    Access,
    Format,
    Channel,
    VertexReturn,
    Count,
    Resource,
    Materials,
    Objects,
    Fallback,
    Name,
    Index,
    MaterialIndex,
}

impl Field {
    /// The field's name as it stands in a document.
    pub open spec fn spec_name(self) -> Seq<char> {
        match self {
            Field::BindGroups => "bind_groups"@,
            Field::SharedBindGroups => "shared_bind_groups"@,
            Field::Buffers => "buffers"@,
            Field::EntryPoints => "entry_points"@,
            Field::Vertex => "vertex"@,
            Field::Fragment => "fragment"@,
            Field::Module => "module"@,
            Field::Function => "function"@,
            Field::Label => "label"@,
            Field::Entries => "entries"@,
            Field::Visibility => "visibility"@,
            Field::Type => "type"@,
            Field::Buffer => "buffer"@,
            Field::MinBindingSize => "min_binding_size"@,
            Field::HasDynamicOffset => "has_dynamic_offset"@,
            Field::Sampler => "sampler"@,
            Field::Texture => "texture"@,
            Field::SamplerType => "sampler_type"@,
            Field::Filterable => "filterable"@,
            Field::ViewDimension => "view_dimension"@,
            Field::Multisampled => "multisampled"@,
            Field::StorageTexture => "storage_texture"@,
            Field::Access => "access"@,
            Field::Format => "format"@,
            Field::Channel => "channel"@,
            Field::VertexReturn => "vertex_return"@,
            Field::Count => "count"@,
            Field::Resource => "resource"@,
            Field::Materials => "materials"@,
            Field::Objects => "objects"@,
            Field::Fallback => "default"@,
            Field::Name => "name"@,
            Field::Index => "index"@,
            Field::MaterialIndex => "material_index"@,
        }
    }

    /// The field's name as it stands in a document.
    pub fn name(self) -> (name: &'static str)
        ensures
            name@ == self.spec_name(),
    {
        match self {
            Field::BindGroups => "bind_groups",
            Field::SharedBindGroups => "shared_bind_groups",
            Field::Buffers => "buffers",
            Field::EntryPoints => "entry_points",
            Field::Vertex => "vertex",
            Field::Fragment => "fragment",
            Field::Module => "module",
            Field::Function => "function",
            Field::Label => "label",
            Field::Entries => "entries",
            Field::Visibility => "visibility",
            Field::Type => "type",
            Field::Buffer => "buffer",
            Field::MinBindingSize => "min_binding_size",
            Field::HasDynamicOffset => "has_dynamic_offset",
            Field::Sampler => "sampler",
            Field::Texture => "texture",
            Field::SamplerType => "sampler_type",
            Field::Filterable => "filterable",
            Field::ViewDimension => "view_dimension",
            Field::Multisampled => "multisampled",
            Field::StorageTexture => "storage_texture",
            Field::Access => "access",
            Field::Format => "format",
            Field::Channel => "channel",
            Field::VertexReturn => "vertex_return",
            Field::Count => "count",
            Field::Resource => "resource",
            Field::Materials => "materials",
            Field::Objects => "objects",
            Field::Fallback => "default",
            Field::Name => "name",
            Field::Index => "index",
            Field::MaterialIndex => "material_index",
        }
    }
}

/// One step of the way from a document's root to a value in it.
#[derive(Clone, Copy, Debug, PartialEq, Eq)]
pub enum Step {
    /// Into the field of a mapping.
    Key(Field),
    /// Into the item of a sequence, counted from zero.
    Item(usize),
}

/// What is wrong with the value at the end of a path.
#[derive(Clone, Copy, Debug, PartialEq, Eq)]
pub enum Fault {
    /// A required field is absent.
    Missing,
    /// The value is of the wrong kind: a number where a text is wanted, a
    /// text where a sequence is wanted.
    Invalid,
    /// The value is a text, but none of the accepted ones.
    Unrecognized,
    /// The value is zero where a count or a size must be positive.
    Zero,
}

/// A document that does not follow the schema: the fault, the way to the
/// offending value, and the offending text where the fault is an
/// unrecognized one.
#[derive(Clone, Debug, PartialEq, Eq)]
pub struct SchemaError {
    pub fault: Fault,
    pub path: Vec<Step>,
    pub token: Option<String>,
}

/// The mathematical content of a `SchemaError`.
pub struct SchemaFault {
    pub fault: Fault,
    pub path: Seq<Step>,
    pub token: Option<Seq<char>>,
}

impl DeepView for SchemaError {
    type V = SchemaFault;

    open spec fn deep_view(&self) -> SchemaFault {
        SchemaFault {
            fault: self.fault,
            path: self.path@,
            token: match self.token {
                Some(t) => Some(t@),
                None => None,
            },
        }
    }
}

/// A fault of the value at hand, with no way to it yet.
pub open spec fn bare(fault: Fault, token: Option<Seq<char>>) -> SchemaFault {
    SchemaFault { fault, path: Seq::empty(), token }
}

/// The fault of a required field that is absent.
pub open spec fn missing(field: Field) -> SchemaFault {
    SchemaFault { fault: Fault::Missing, path: seq![Step::Key(field)], token: None }
}

/// The fault of a field whose value is of the wrong kind.
pub open spec fn invalid(field: Field) -> SchemaFault {
    SchemaFault { fault: Fault::Invalid, path: seq![Step::Key(field)], token: None }
}

/// The fault of a field whose text is none of the accepted ones.
pub open spec fn unrecognized(field: Field, token: Seq<char>) -> SchemaFault {
    SchemaFault { fault: Fault::Unrecognized, path: seq![Step::Key(field)], token: Some(token) }
}

/// The fault of a field that is zero where it must be positive.
pub open spec fn zero(field: Field) -> SchemaFault {
    SchemaFault { fault: Fault::Zero, path: seq![Step::Key(field)], token: None }
}

/// The fault `inner`, seen from one step further out.
pub open spec fn under(step: Step, inner: SchemaFault) -> SchemaFault {
    SchemaFault { fault: inner.fault, path: seq![step] + inner.path, token: inner.token }
}

/// The value of a required field.
pub open spec fn spec_required(node: Yaml, field: Field) -> Result<Yaml, SchemaFault> {
    match node.spec_get(field.spec_name()) {
        Some(value) => Ok(value),
        None => Err(missing(field)),
    }
}

/// The characters of a required text field.
pub open spec fn spec_text(node: Yaml, field: Field) -> Result<Seq<char>, SchemaFault> {
    match spec_required(node, field) {
        Err(e) => Err(e),
        Ok(value) => match value.spec_as_str() {
            Some(s) => Ok(s),
            None => Err(invalid(field)),
        },
    }
}

/// The truth value of a required boolean field.
pub open spec fn spec_flag(node: Yaml, field: Field) -> Result<bool, SchemaFault> {
    match spec_required(node, field) {
        Err(e) => Err(e),
        Ok(value) => match value.spec_as_bool() {
            Some(b) => Ok(b),
            None => Err(invalid(field)),
        },
    }
}

/// The items of a required sequence field.
pub open spec fn spec_items(node: Yaml, field: Field) -> Result<Seq<Yaml>, SchemaFault> {
    match spec_required(node, field) {
        Err(e) => Err(e),
        Ok(value) => match value.spec_as_sequence() {
            Some(items) => Ok(items),
            None => Err(invalid(field)),
        },
    }
}

/// The items of a sequence field that may be absent: an absent field
/// stands for the empty sequence.
pub open spec fn spec_optional_items(node: Yaml, field: Field) -> Result<Seq<Yaml>, SchemaFault> {
    match node.spec_get(field.spec_name()) {
        None => Ok(Seq::empty()),
        Some(value) => match value.spec_as_sequence() {
            Some(items) => Ok(items),
            None => Err(invalid(field)),
        },
    }
}

/// The value of an unsigned field that may be absent, or may hold
/// something that is no unsigned integer: both stand for "none".
pub open spec fn spec_optional_u64(node: Yaml, field: Field) -> Option<u64> {
    match node.spec_get(field.spec_name()) {
        None => None,
        Some(value) => value.spec_as_u64(),
    }
}

/// The outcomes of `parse` on the first `upto` items of a sequence, in
/// order; the first fault ends it, and is reported under its item.
pub open spec fn spec_each<T>(
    items: Seq<Yaml>,
    parse: spec_fn(Yaml, int) -> Result<T, SchemaFault>,
    upto: int,
) -> Result<Seq<T>, SchemaFault>
    decreases upto,
{
    if upto <= 0 {
        Ok(Seq::empty())
    } else {
        match spec_each(items, parse, upto - 1) {
            Err(e) => Err(e),
            Ok(done) => match parse(items[upto - 1], upto - 1) {
                Err(e) => Err(under(Step::Item((upto - 1) as usize), e)),
                Ok(value) => Ok(done.push(value)),
            },
        }
    }
}

/// A fault among the first items of a sequence is the fault of every
/// longer run over it.
pub proof fn lemma_each_fault_persists<T>(
    items: Seq<Yaml>,
    parse: spec_fn(Yaml, int) -> Result<T, SchemaFault>,
    upto: int,
    end: int,
)
    requires
        spec_each(items, parse, upto) is Err,
        upto <= end,
    ensures
        spec_each(items, parse, end) == spec_each(items, parse, upto),
    decreases end - upto,
{
    if upto < end {
        lemma_each_fault_persists(items, parse, upto, end - 1);
    }
}

/// A fault of one item is a fault of every run that reaches the item.
pub proof fn lemma_each_fault_spreads<T>(
    items: Seq<Yaml>,
    parse: spec_fn(Yaml, int) -> Result<T, SchemaFault>,
    at: int,
    upto: int,
)
    requires
        0 <= at < upto,
        parse(items[at], at) is Err,
    ensures
        spec_each(items, parse, upto) is Err,
    decreases upto,
{
    if at < upto - 1 {
        lemma_each_fault_spreads(items, parse, at, upto - 1);
    }
}

/// Whether a function's result is the outcome `want`: the same value, or
/// an error with the content of the fault.
pub open spec fn agrees<A>(got: Result<A, SchemaError>, want: Result<A, SchemaFault>) -> bool {
    match got {
        Ok(value) => want == Ok::<A, SchemaFault>(value),
        Err(e) => want == Err::<A, SchemaFault>(e.deep_view()),
    }
}

/// As `agrees`, for a value that is compared by its content.
pub open spec fn agrees_deep<A: DeepView>(
    got: Result<A, SchemaError>,
    want: Result<A::V, SchemaFault>,
) -> bool {
    match got {
        Ok(value) => want == Ok::<A::V, SchemaFault>(value.deep_view()),
        Err(e) => want == Err::<A::V, SchemaFault>(e.deep_view()),
    }
}

impl SchemaError {
    /// The error of a value of the wrong kind, with no way to it yet.
    pub fn bare_invalid() -> (e: SchemaError)
        ensures
            e.deep_view() == bare(Fault::Invalid, None),
    {
        SchemaError { fault: Fault::Invalid, path: Vec::new(), token: None }
    }

    /// The error of a text that is none of the accepted ones, with no way
    /// to it yet.
    pub fn bare_unrecognized(token: &str) -> (e: SchemaError)
        ensures
            e.deep_view() == bare(Fault::Unrecognized, Some(token@)),
    {
        SchemaError { fault: Fault::Unrecognized, path: Vec::new(), token: Some(token.to_owned()) }
    }

    /// The error of a required field that is absent.
    pub fn missing(field: Field) -> (e: SchemaError)
        ensures
            e.deep_view() == missing(field),
    {
        let mut path: Vec<Step> = Vec::new();
        path.push(Step::Key(field));
        proof {
            assert(path@ =~= seq![Step::Key(field)]);
        }
        SchemaError { fault: Fault::Missing, path, token: None }
    }

    /// The error of a field whose value is of the wrong kind.
    pub fn invalid(field: Field) -> (e: SchemaError)
        ensures
            e.deep_view() == invalid(field),
    {
        let mut path: Vec<Step> = Vec::new();
        path.push(Step::Key(field));
        proof {
            assert(path@ =~= seq![Step::Key(field)]);
        }
        SchemaError { fault: Fault::Invalid, path, token: None }
    }

    /// The error of a field whose text is none of the accepted ones.
    pub fn unrecognized(field: Field, token: &str) -> (e: SchemaError)
        ensures
            e.deep_view() == unrecognized(field, token@),
    {
        let mut path: Vec<Step> = Vec::new();
        path.push(Step::Key(field));
        proof {
            assert(path@ =~= seq![Step::Key(field)]);
        }
        SchemaError { fault: Fault::Unrecognized, path, token: Some(token.to_owned()) }
    }

    /// The error of a field that is zero where it must be positive.
    pub fn zero(field: Field) -> (e: SchemaError)
        ensures
            e.deep_view() == zero(field),
    {
        let mut path: Vec<Step> = Vec::new();
        path.push(Step::Key(field));
        proof {
            assert(path@ =~= seq![Step::Key(field)]);
        }
        SchemaError { fault: Fault::Zero, path, token: None }
    }

    /// The same error, seen from one step further out.
    pub fn under(self, step: Step) -> (e: SchemaError)
        ensures
            e.deep_view() == under(step, self.deep_view()),
    {
        let mut path = self.path;
        path.insert(0, step);
        proof {
            assert(path@ =~= seq![step] + self.path@);
        }
        SchemaError { fault: self.fault, path, token: self.token }
    }
}

/// The value of a required field.
pub fn required<'a>(node: &'a Yaml, field: Field) -> (found: Result<&'a Yaml, SchemaError>)
    ensures
        match found {
            Ok(value) => spec_required(*node, field) == Ok::<Yaml, SchemaFault>(*value),
            Err(e) => spec_required(*node, field) == Err::<Yaml, SchemaFault>(e.deep_view()),
        },
{
    match node.get(field.name()) {
        Some(value) => Ok(value),
        None => Err(SchemaError::missing(field)),
    }
}

/// The characters of a required text field.
pub fn text<'a>(node: &'a Yaml, field: Field) -> (found: Result<&'a str, SchemaError>)
    ensures
        match found {
            Ok(s) => spec_text(*node, field) == Ok::<Seq<char>, SchemaFault>(s@),
            Err(e) => spec_text(*node, field) == Err::<Seq<char>, SchemaFault>(e.deep_view()),
        },
{
    match required(node, field) {
        Err(e) => Err(e),
        Ok(value) => match value.as_str() {
            Some(s) => Ok(s),
            None => Err(SchemaError::invalid(field)),
        },
    }
}

/// The truth value of a required boolean field.
pub fn flag(node: &Yaml, field: Field) -> (found: Result<bool, SchemaError>)
    ensures
        match found {
            Ok(b) => spec_flag(*node, field) == Ok::<bool, SchemaFault>(b),
            Err(e) => spec_flag(*node, field) == Err::<bool, SchemaFault>(e.deep_view()),
        },
{
    match required(node, field) {
        Err(e) => Err(e),
        Ok(value) => match value.as_bool() {
            Some(b) => Ok(b),
            None => Err(SchemaError::invalid(field)),
        },
    }
}

/// The items of a required sequence field.
pub fn items<'a>(node: &'a Yaml, field: Field) -> (found: Result<&'a Vec<Yaml>, SchemaError>)
    ensures
        match found {
            Ok(list) => spec_items(*node, field) == Ok::<Seq<Yaml>, SchemaFault>(list@),
            Err(e) => spec_items(*node, field) == Err::<Seq<Yaml>, SchemaFault>(e.deep_view()),
        },
{
    match required(node, field) {
        Err(e) => Err(e),
        Ok(value) => match value.as_sequence() {
            Some(list) => Ok(list),
            None => Err(SchemaError::invalid(field)),
        },
    }
}

/// The items of a sequence field that may be absent; `None` stands for
/// the empty sequence of an absent field.
pub fn optional_items<'a>(node: &'a Yaml, field: Field) -> (found: Result<
    Option<&'a Vec<Yaml>>,
    SchemaError,
>)
    ensures
        match found {
            Ok(Some(list)) => spec_optional_items(*node, field) == Ok::<Seq<Yaml>, SchemaFault>(
                list@,
            ),
            Ok(None) => spec_optional_items(*node, field) == Ok::<Seq<Yaml>, SchemaFault>(
                Seq::empty(),
            ),
            Err(e) => spec_optional_items(*node, field) == Err::<Seq<Yaml>, SchemaFault>(
                e.deep_view(),
            ),
        },
{
    match node.get(field.name()) {
        None => Ok(None),
        Some(value) => match value.as_sequence() {
            Some(list) => Ok(Some(list)),
            None => Err(SchemaError::invalid(field)),
        },
    }
}

/// The value of an unsigned field that may be absent.
pub fn optional_u64(node: &Yaml, field: Field) -> (found: Option<u64>)
    ensures
        found == spec_optional_u64(*node, field),
{
    match node.get(field.name()) {
        None => None,
        Some(value) => value.as_u64(),
    }
}

/// The decimal digit `d` as a text.
pub open spec fn spec_digit(d: nat) -> Seq<char> {
    if d == 0 {
        "0"@
    } else if d == 1 {
        "1"@
    } else if d == 2 {
        "2"@
    } else if d == 3 {
        "3"@
    } else if d == 4 {
        "4"@
    } else if d == 5 {
        "5"@
    } else if d == 6 {
        "6"@
    } else if d == 7 {
        "7"@
    } else if d == 8 {
        "8"@
    } else {
        "9"@
    }
}

/// The number `n` in decimal digits, without leading zeros.
pub open spec fn spec_decimal(n: nat) -> Seq<char>
    decreases n,
{
    if n < 10 {
        spec_digit(n)
    } else {
        spec_decimal(n / 10) + spec_digit(n % 10)
    }
}

/// One step of a path as it is written: a field after a dot, unless it
/// comes first, and an item in square brackets.
pub open spec fn spec_step_text(step: Step, first: bool) -> Seq<char> {
    match step {
        Step::Key(field) => if first {
            field.spec_name()
        } else {
            "."@ + field.spec_name()
        },
        Step::Item(index) => "["@ + spec_decimal(index as nat) + "]"@,
    }
}

/// The first `upto` steps of a path as they are written, as in
/// `bind_groups[0].entries[1].visibility`.
pub open spec fn spec_path_text(path: Seq<Step>, upto: int) -> Seq<char>
    decreases upto,
{
    if upto <= 0 {
        Seq::empty()
    } else {
        spec_path_text(path, upto - 1) + spec_step_text(path[upto - 1], upto == 1)
    }
}

impl SchemaFault {
    /// The fault in one line: what is wrong, and the way to it.
    pub open spec fn message(self) -> Seq<char> {
        let path = spec_path_text(self.path, self.path.len() as int);
        match self.fault {
            Fault::Missing => "missing field `"@ + path + "`"@,
            Fault::Invalid => "field `"@ + path + "` is invalid"@,
            Fault::Zero => "field `"@ + path + "` is zero"@,
            Fault::Unrecognized => "field `"@ + path + "` has the unrecognized value `"@ + match self.token {
                Some(token) => token,
                None => Seq::empty(),
            } + "`"@,
        }
    }
}

/// The decimal digit `d` as a text.
fn digit(d: usize) -> (text: &'static str)
    requires
        d < 10,
    ensures
        text@ == spec_digit(d as nat),
{
    if d == 0 {
        "0"
    } else if d == 1 {
        "1"
    } else if d == 2 {
        "2"
    } else if d == 3 {
        "3"
    } else if d == 4 {
        "4"
    } else if d == 5 {
        "5"
    } else if d == 6 {
        "6"
    } else if d == 7 {
        "7"
    } else if d == 8 {
        "8"
    } else {
        "9"
    }
}

/// The number `n` in decimal digits, without leading zeros.
pub fn decimal(n: usize) -> (text: String)
    ensures
        text@ == spec_decimal(n as nat),
    decreases n,
{
    if n < 10 {
        digit(n).to_owned()
    } else {
        let mut text = decimal(n / 10);
        text.append(digit(n % 10));
        text
    }
}

impl SchemaError {
    /// The way to the offending value as it is written, as in
    /// `bind_groups[0].entries[1].visibility`.
    pub fn path_text(&self) -> (text: String)
        ensures
            text@ == spec_path_text(self.path@, self.path@.len() as int),
    {
        let mut text = String::new();
        let mut i: usize = 0;
        while i < self.path.len()
            invariant
                i <= self.path@.len(),
                text@ == spec_path_text(self.path@, i as int),
            decreases self.path@.len() - i,
        {
            let ghost before = text@;
            match self.path[i] {
                Step::Key(field) => {
                    if i > 0 {
                        text.append(".");
                    }
                    text.append(field.name());
                    proof {
                        assert(text@ =~= before + spec_step_text(self.path@[i as int], i == 0));
                    }
                },
                Step::Item(index) => {
                    text.append("[");
                    let number = decimal(index);
                    text.append(number.as_str());
                    text.append("]");
                    proof {
                        assert(text@ =~= before + spec_step_text(self.path@[i as int], i == 0));
                    }
                },
            }
            i += 1;
        }
        text
    }

    /// The error in one line: what is wrong, and the way to it.
    pub fn message(&self) -> (text: String)
        ensures
            text@ == self.deep_view().message(),
    {
        let path = self.path_text();
        let mut text = String::new();
        match self.fault {
            Fault::Missing => {
                text.append("missing field `");
                text.append(path.as_str());
                text.append("`");
            },
            Fault::Invalid => {
                text.append("field `");
                text.append(path.as_str());
                text.append("` is invalid");
            },
            Fault::Zero => {
                text.append("field `");
                text.append(path.as_str());
                text.append("` is zero");
            },
            Fault::Unrecognized => {
                text.append("field `");
                text.append(path.as_str());
                text.append("` has the unrecognized value `");
                match &self.token {
                    Some(token) => {
                        text.append(token.as_str());
                    },
                    None => {},
                }
                text.append("`");
            },
        }
        proof {
            assert(text@ =~= self.deep_view().message());
        }
        text
    }
}

} // verus!
