use vstd::prelude::*;
use crate::omi::{parse_omi, spec_parse_omi, MaterialDescription, MaterialModel};
use crate::omtl::{parse_omtl, spec_parse_omtl, BundleModel, MaterialBundle};
use crate::schema::{SchemaError, SchemaFault};
use crate::vertex::VertexRegistry;
use crate::yaml::{parse_yaml, yaml_document, SyntaxError};

verus! {

/// Why a text is no valid document: it is no YAML, or it is YAML that
/// does not follow the schema.
#[derive(Clone, Debug, PartialEq, Eq)]
pub enum DocumentError {
    Syntax(SyntaxError),
    Schema(SchemaError),
}

/// The mathematical content of a `DocumentError`. Of a syntax error only
/// its kind counts; the message is the parser's.
pub enum DocumentFault {
    Syntax,
    Schema(SchemaFault),
}

impl DeepView for DocumentError {
    type V = DocumentFault;

    open spec fn deep_view(&self) -> DocumentFault {
        match self {
            DocumentError::Syntax(_) => DocumentFault::Syntax,
            DocumentError::Schema(e) => DocumentFault::Schema(e.deep_view()),
        }
    }
}

/// What the text of a material document describes.
pub open spec fn spec_load_omi(text: Seq<char>, registry: VertexRegistry) -> Result<
    MaterialModel,
    DocumentFault,
> {
    match yaml_document(text) {
        None => Err(DocumentFault::Syntax),
        Some(root) => match spec_parse_omi(root, registry) {
            Ok(material) => Ok(material),
            Err(fault) => Err(DocumentFault::Schema(fault)),
        },
    }
}

/// What the text of a material bundle document describes.
pub open spec fn spec_load_omtl(text: Seq<char>) -> Result<BundleModel, DocumentFault> {
    match yaml_document(text) {
        None => Err(DocumentFault::Syntax),
        Some(root) => match spec_parse_omtl(root) {
            Ok(bundle) => Ok(bundle),
            Err(fault) => Err(DocumentFault::Schema(fault)),
        },
    }
}

/// Reads the text of a material document. Nothing is looked up or built:
/// the description is validated as a whole first.
pub fn load_omi(text: &str, registry: &VertexRegistry) -> (loaded: Result<
    MaterialDescription,
    DocumentError,
>)
    ensures
        match loaded {
            Ok(description) => spec_load_omi(text@, *registry) == Ok::<MaterialModel, DocumentFault>(
                description.deep_view(),
            ),
            Err(e) => spec_load_omi(text@, *registry) == Err::<MaterialModel, DocumentFault>(
                e.deep_view(),
            ),
        },
{
    let root = match parse_yaml(text) {
        Ok(root) => root,
        Err(e) => {
            return Err(DocumentError::Syntax(e));
        },
    };
    match parse_omi(&root, registry) {
        Ok(description) => Ok(description),
        Err(e) => Err(DocumentError::Schema(e)),
    }
}

/// Reads the text of a material bundle document.
pub fn load_omtl(text: &str) -> (loaded: Result<MaterialBundle, DocumentError>)
    ensures
        match loaded {
            Ok(bundle) => spec_load_omtl(text@) == Ok::<BundleModel, DocumentFault>(
                bundle.deep_view(),
            ),
            Err(e) => spec_load_omtl(text@) == Err::<BundleModel, DocumentFault>(e.deep_view()),
        },
{
    let root = match parse_yaml(text) {
        Ok(root) => root,
        Err(e) => {
            return Err(DocumentError::Syntax(e));
        },
    };
    match parse_omtl(&root) {
        Ok(bundle) => Ok(bundle),
        Err(e) => Err(DocumentError::Schema(e)),
    }
}

} // verus!
