//! Record declarations and the classification of their fields.

use vstd::prelude::*;

verus! {

/// Name of the wrapper type that marks a field as optional.
pub const OPTION_WRAPPER: &'static str = "Option";

/// Name of the wrapper type that holds a growable collection.
pub const COLLECTION_WRAPPER: &'static str = "Vec";

/// The one key that an accumulation annotation may assign.
pub const ACCESSOR_KEY: &'static str = "each";

/// One generic argument of a path type, as written.
#[derive(Clone, Debug, PartialEq, Eq)]
pub enum GenericArg {
    /// A type argument.
    Type(String),
    /// A lifetime, a constant or a binding.
    Other(String),
}

/// A declared type, as far as classification needs to see it.
#[derive(Clone, Debug, PartialEq, Eq)]
pub enum TypeRef {
    /// A path type: `head` names its first segment, `args` are that segment's
    /// generic arguments and `text` is the whole type as written.
    Path { text: String, head: String, args: Vec<GenericArg> },
    /// Any other type (a reference, a tuple, an array, ...), as written.
    Other { text: String },
}

/// The value assigned inside an annotation.
#[derive(Clone, Debug, PartialEq, Eq)]
pub enum AttrValue {
    /// A string literal, with its quotes removed.
    Str(String),
    /// Any other expression, as written.
    Other(String),
}

/// A field annotation, as far as it could be read.
#[derive(Clone, Debug, PartialEq, Eq)]
pub enum Attribute {
    /// A single assignment `key = value` inside the annotation's parentheses.
    Assign { key: String, value: AttrValue },
    /// Any other shape.
    Unrecognized,
}

/// One declared field of a record.
#[derive(Clone, Debug, PartialEq, Eq)]
pub struct FieldSchema {
    pub name: String,
    pub ty: TypeRef,
    pub attrs: Vec<Attribute>,
}

/// A record declaration: its name and its fields in declaration order.
#[derive(Clone, Debug, PartialEq, Eq)]
pub struct RecordSchema {
    pub name: String,
    pub fields: Vec<FieldSchema>,
}

/// Why a record cannot have a builder.
#[derive(Clone, Copy, Debug, PartialEq, Eq)]
pub enum SchemaError {
    /// An accumulation annotation stands on a field that is not a collection.
    AttributeTypeMismatch,
    /// An annotation does not assign one string literal to the accessor key.
    MalformedAttribute,
    /// A field carries more than one annotation.
    MultipleAttributes,
    /// A wrapper type has no type parameter to extract.
    TypeExtractionFailed,
}

/// How a field is stored and assembled; the strings are element types and
/// accessor names.
#[derive(Clone, Debug, PartialEq, Eq)]
pub enum Classification {
    /// A plain type `T`: must be set before assembly.
    Required(String),
    /// `Option<T>`: may be left unset.
    Optional(String),
    /// `Vec<T>` with an accumulation annotation naming its accessor.
    Accumulated(String, String),
}

/// The whole type as written.
pub open spec fn type_text(ty: TypeRef) -> String {
    match ty {
        TypeRef::Path { text, .. } => text,
        TypeRef::Other { text } => text,
    }
}

/// Whether `ty` is a path type whose head is `name`.
pub open spec fn has_head(ty: TypeRef, name: Seq<char>) -> bool {
    match ty {
        TypeRef::Path { head, .. } => head@ == name,
        TypeRef::Other { .. } => false,
    }
}

/// The first generic argument of a path type, when it is a type.
pub open spec fn first_type_arg(ty: TypeRef) -> Option<String> {
    match ty {
        TypeRef::Path { args, .. } => if args.len() > 0 {
            match args@[0] {
                GenericArg::Type(t) => Some(t),
                GenericArg::Other(_) => None,
            }
        } else {
            None
        },
        TypeRef::Other { .. } => None,
    }
}

/// The accessor name that an annotation assigns, or why it cannot be read.
pub open spec fn accessor_of(a: Attribute) -> Result<String, SchemaError> {
    match a {
        Attribute::Assign { key, value: AttrValue::Str(s) } => if key@ == ACCESSOR_KEY@ {
            Ok(s)
        } else {
            Err(SchemaError::MalformedAttribute)
        },
        _ => Err(SchemaError::MalformedAttribute),
    }
}

/// The classification of a field, or why it has none.
pub open spec fn classification_of(f: FieldSchema) -> Result<Classification, SchemaError> {
    if f.attrs.len() > 1 {
        Err(SchemaError::MultipleAttributes)
    } else if f.attrs.len() == 1 {
        match accessor_of(f.attrs@[0]) {
            Err(e) => Err(e),
            Ok(acc) => if !has_head(f.ty, COLLECTION_WRAPPER@) {
                Err(SchemaError::AttributeTypeMismatch)
            } else {
                match first_type_arg(f.ty) {
                    Some(t) => Ok(Classification::Accumulated(t, acc)),
                    None => Err(SchemaError::TypeExtractionFailed),
                }
            },
        }
    } else if has_head(f.ty, OPTION_WRAPPER@) {
        match first_type_arg(f.ty) {
            Some(t) => Ok(Classification::Optional(t)),
            None => Err(SchemaError::TypeExtractionFailed),
        }
    } else {
        Ok(Classification::Required(type_text(f.ty)))
    }
}

/// Whether `ty` is a path type headed by `name`.
pub fn is_wrapper(ty: &TypeRef, name: &str) -> (r: bool)
    ensures
        r == has_head(*ty, name@),
{
    match ty {
        TypeRef::Path { head, .. } => {
            let name = String::from_str(name);
            *head == name
        },
        TypeRef::Other { .. } => false,
    }
}

/// The type parameter of the wrapper `name` around `ty`.
pub fn unwrap_wrapper(ty: &TypeRef, name: &str) -> (r: Result<String, SchemaError>)
    ensures
        r == (if has_head(*ty, name@) && first_type_arg(*ty) is Some {
            Ok(first_type_arg(*ty)->Some_0)
        } else {
            Err(SchemaError::TypeExtractionFailed)
        }),
{
    if !is_wrapper(ty, name) {
        return Err(SchemaError::TypeExtractionFailed);
    }
    match ty {
        TypeRef::Path { args, .. } => {
            if args.len() == 0 {
                return Err(SchemaError::TypeExtractionFailed);
            }
            match &args[0] {
                GenericArg::Type(t) => Ok(t.clone()),
                GenericArg::Other(_) => Err(SchemaError::TypeExtractionFailed),
            }
        },
        TypeRef::Other { .. } => Err(SchemaError::TypeExtractionFailed),
    }
}

/// The whole type as written.
pub fn text_of(ty: &TypeRef) -> (r: String)
    ensures
        r == type_text(*ty),
{
    match ty {
        TypeRef::Path { text, .. } => text.clone(),
        TypeRef::Other { text } => text.clone(),
    }
}

/// Reads the accessor name out of an accumulation annotation.
pub fn resolve_accessor(a: &Attribute) -> (r: Result<String, SchemaError>)
    ensures
        r == accessor_of(*a),
{
    match a {
        Attribute::Assign { key, value: AttrValue::Str(s) } => {
            let expected = String::from_str(ACCESSOR_KEY);
            if *key == expected {
                Ok(s.clone())
            } else {
                Err(SchemaError::MalformedAttribute)
            }
        },
        _ => Err(SchemaError::MalformedAttribute),
    }
}

/// Classifies one field by the shape of its declared type and its annotations.
pub fn classify(f: &FieldSchema) -> (r: Result<Classification, SchemaError>)
    ensures
        r == classification_of(*f),
{
    if f.attrs.len() > 1 {
        return Err(SchemaError::MultipleAttributes);
    }
    if f.attrs.len() == 1 {
        let acc = match resolve_accessor(&f.attrs[0]) {
            Ok(acc) => acc,
            Err(e) => return Err(e),
        };
        if !is_wrapper(&f.ty, COLLECTION_WRAPPER) {
            return Err(SchemaError::AttributeTypeMismatch);
        }
        match unwrap_wrapper(&f.ty, COLLECTION_WRAPPER) {
            Ok(t) => Ok(Classification::Accumulated(t, acc)),
            Err(e) => Err(e),
        }
    } else if is_wrapper(&f.ty, OPTION_WRAPPER) {
        match unwrap_wrapper(&f.ty, OPTION_WRAPPER) {
            Ok(t) => Ok(Classification::Optional(t)),
            Err(e) => Err(e),
        }
    } else {
        Ok(Classification::Required(text_of(&f.ty)))
    }
}

} // verus!
