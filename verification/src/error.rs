//! Why a record cannot be given an overlay.

use vstd::prelude::*;
use vstd::string::*;

verus! {

/// A kind of field type of which nobody can tell whether it is the marker type.
#[derive(Debug, Clone, Copy, PartialEq, Eq, Structural)]
pub enum UnsupportedType {
    ImplTrait,
    TraitObject,
    Inferred,
    Macro,
    Reference,
    Never,
    Slice,
    Pointer,
    FunctionPointer,
    /// Tokens that were never read as a type.
    Unrecognized,
}

/// A misuse that stops the generation.
#[derive(Debug, Clone, Copy, PartialEq, Eq, Structural)]
pub enum GenerationError {
    /// The invocation does not start with the marker type's identifier.
    MissingMarker,
    /// A rename annotation does not hold exactly one argument.
    MalformedRename,
    /// The item is no record with named or positional fields.
    NotARecord,
    /// A field's type cannot be compared with the marker type.
    UnsupportedType(UnsupportedType),
}

impl UnsupportedType {
    /// The words that name this kind of type.
    pub open spec fn category(self) -> Seq<char> {
        match self {
            UnsupportedType::ImplTrait => "opaque impl type"@,
            UnsupportedType::TraitObject => "trait object"@,
            UnsupportedType::Inferred => "inferred type"@,
            UnsupportedType::Macro => "macro-produced type"@,
            UnsupportedType::Reference => "reference"@,
            UnsupportedType::Never => "never-type"@,
            UnsupportedType::Slice => "slice"@,
            UnsupportedType::Pointer => "pointer"@,
            UnsupportedType::FunctionPointer => "function pointer"@,
            UnsupportedType::Unrecognized => "unrecognized type"@,
        }
    }

    /// The words that name this kind of type.
    pub fn category_text(self) -> (text: &'static str)
        ensures
            text@ == self.category(),
    {
        match self {
            UnsupportedType::ImplTrait => "opaque impl type",
            UnsupportedType::TraitObject => "trait object",
            UnsupportedType::Inferred => "inferred type",
            UnsupportedType::Macro => "macro-produced type",
            UnsupportedType::Reference => "reference",
            UnsupportedType::Never => "never-type",
            UnsupportedType::Slice => "slice",
            UnsupportedType::Pointer => "pointer",
            UnsupportedType::FunctionPointer => "function pointer",
            UnsupportedType::Unrecognized => "unrecognized type",
        }
    }
}

impl GenerationError {
    /// The message that reports this error.
    pub open spec fn message_spec(self) -> Seq<char> {
        match self {
            GenerationError::MissingMarker => "Expected target_enum"@,
            GenerationError::MalformedRename =>
                "'enumify_rename' attribute expects one and only one argument (the new type to use)"@,
            GenerationError::NotARecord => "enumify_struct only works for structs"@,
            GenerationError::UnsupportedType(kind) =>
                "Using enumify_struct for a struct containing a "@ + kind.category()
                    + " is not valid."@,
        }
    }

    /// The message that reports this error; for a field type it names the
    /// kind of type that was met.
    pub fn message(&self) -> (text: String)
        ensures
            text@ == self.message_spec(),
    {
        match self {
            GenerationError::MissingMarker => String::from_str("Expected target_enum"),
            GenerationError::MalformedRename => String::from_str(
                "'enumify_rename' attribute expects one and only one argument (the new type to use)",
            ),
            GenerationError::NotARecord => String::from_str(
                "enumify_struct only works for structs",
            ),
            GenerationError::UnsupportedType(kind) => {
                let mut text = String::from_str("Using enumify_struct for a struct containing a ");
                text.append(kind.category_text());
                text.append(" is not valid.");
                text
            },
        }
    }
}

/// An outcome with its value replaced by the value's model.
pub open spec fn viewed<T: View>(outcome: Result<T, GenerationError>) -> Result<
    T::V,
    GenerationError,
> {
    match outcome {
        Ok(value) => Ok(value@),
        Err(error) => Err(error),
    }
}

} // verus!
