//! Validation errors: one value per conformance violation, carrying the
//! location of the offending value and a description of the violation.

use vstd::prelude::*;

verus! {

/// The mathematical shape of a validation error: its variant together with
/// its path and text as character sequences.
pub enum ErrorModel {
    Format { path: Seq<char>, detail: Seq<char> },
    Required { path: Seq<char>, property: Seq<char> },
}

impl ErrorModel {
    /// Where in the input document the violation was found.
    pub open spec fn spec_path(self) -> Seq<char> {
        match self {
            ErrorModel::Format { path, .. } => path,
            ErrorModel::Required { path, .. } => path,
        }
    }

    /// What was violated: the format detail, or the missing property's name.
    pub open spec fn spec_describe(self) -> Seq<char> {
        match self {
            ErrorModel::Format { detail, .. } => detail,
            ErrorModel::Required { property, .. } => property,
        }
    }
}

/// One conformance violation found while validating an input value.
#[derive(Debug, PartialEq)]
pub enum ValidationError {
    /// A string did not conform to the format named by the schema.
    Format { path: String, detail: String },
    /// An object lacked a property that the schema requires.
    Required { path: String, property: String },
}

impl DeepView for ValidationError {
    type V = ErrorModel;

    open spec fn deep_view(&self) -> ErrorModel {
        match self {
            ValidationError::Format { path, detail } => ErrorModel::Format {
                path: path@,
                detail: detail@,
            },
            ValidationError::Required { path, property } => ErrorModel::Required {
                path: path@,
                property: property@,
            },
        }
    }
}

impl ValidationError {
    /// The location of the offending value, as a slash-joined pointer string.
    pub fn path(&self) -> (r: &str)
        ensures
            r@ == self.deep_view().spec_path(),
    {
        match self {
            ValidationError::Format { path, .. } => path.as_str(),
            ValidationError::Required { path, .. } => path.as_str(),
        }
    }

    /// A description of the violation.
    pub fn describe(&self) -> (r: &str)
        ensures
            r@ == self.deep_view().spec_describe(),
    {
        match self {
            ValidationError::Format { detail, .. } => detail.as_str(),
            ValidationError::Required { property, .. } => property.as_str(),
        }
    }
}

} // verus!
