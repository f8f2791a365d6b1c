//! Validation errors of the configuration schema.
use vstd::prelude::*;

verus! {

/// Why a configuration was rejected. An `entry` is the position of the
/// provider entry in the `providers` list; `None` means the root table.
#[derive(Clone, Debug)]
pub enum ConfigError {
    /// A key that the schema does not know.
    UnknownField { field: String, entry: Option<usize> },
    /// A key that occurs twice in one table.
    DuplicateField { field: String, entry: Option<usize> },
    /// A required key of a provider entry is absent.
    MissingField { field: String, entry: usize },
    /// The `url` of a provider entry is not an absolute URL.
    InvalidUrl { value: String, entry: usize },
    /// The value of a key has the wrong shape.
    WrongType { field: String, entry: Option<usize> },
    /// The root, or a provider entry, is not a table.
    NotATable { entry: Option<usize> },
}

/// The mathematical model of a [`ConfigError`].
pub enum ErrorModel {
    UnknownField { field: Seq<char>, entry: Option<usize> },
    DuplicateField { field: Seq<char>, entry: Option<usize> },
    MissingField { field: Seq<char>, entry: usize },
    InvalidUrl { value: Seq<char>, entry: usize },
    WrongType { field: Seq<char>, entry: Option<usize> },
    NotATable { entry: Option<usize> },
}

impl View for ConfigError {
    type V = ErrorModel;

    open spec fn view(&self) -> ErrorModel {
        match self {
            ConfigError::UnknownField { field, entry } => ErrorModel::UnknownField {
                field: field@,
                entry: *entry,
            },
            ConfigError::DuplicateField { field, entry } => ErrorModel::DuplicateField {
                field: field@,
                entry: *entry,
            },
            ConfigError::MissingField { field, entry } => ErrorModel::MissingField {
                field: field@,
                entry: *entry,
            },
            ConfigError::InvalidUrl { value, entry } => ErrorModel::InvalidUrl {
                value: value@,
                entry: *entry,
            },
            ConfigError::WrongType { field, entry } => ErrorModel::WrongType {
                field: field@,
                entry: *entry,
            },
            ConfigError::NotATable { entry } => ErrorModel::NotATable { entry: *entry },
        }
    }
}

} // verus!
