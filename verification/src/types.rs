//! The data model: entity descriptors, line classifications and errors.

use crate::text::{decimal, join3, numeral};
use vstd::prelude::*;
use vstd::string::*;
use vstd::std_specs::convert::FromSpecImpl;

verus! {

/// Makes `std::io::Error` known to the verifier, as a value of which nothing
/// is said.
#[verifier::external_type_specification]
#[verifier::external_body]
pub struct ExIoError(std::io::Error);

/// Folder of the event-trigger files, directly below the base directory.
pub const EVENT_TRIGGER_FOLDER: &'static str = "event_triggers";

/// Folder of the extension files, directly below the base directory.
pub const EXTENSION_FOLDER: &'static str = "extensions";

/// Folder of the per-role files, directly below the base directory.
pub const ROLE_FOLDER: &'static str = "roles";

/// Folder that holds one subtree per schema.
pub const SCHEMA_FOLDER: &'static str = "schemas";

/// Folder of a schema's functions.
pub const FUNCTION_FOLDER: &'static str = "functions";

/// Folder of a schema's tables.
pub const TABLE_FOLDER: &'static str = "tables";

/// Folder of a schema's types.
pub const TYPE_FOLDER: &'static str = "types";

/// Folder of a schema's views.
pub const VIEW_FOLDER: &'static str = "views";

/// The two phases of a dump: the header section, then the object definitions.
#[derive(Clone, Copy, Debug, PartialEq, Eq, Structural)]
pub enum Mode {
    Preamble,
    Body,
}

/// The kinds of database object that a marker comment can announce.
#[derive(Clone, Copy, Debug, PartialEq, Eq, Hash, Structural)]
pub enum EntityType {
    Acl,
    Aggregate,
    Comment,
    CheckConstraint,
    Constraint,
    Database,
    Default,
    DefaultAcl,
    Domain,
    EventTrigger,
    Extension,
    FkConstraint,
    ForeignTable,
    Function,
    Index,
    MaterializedView,
    MaterializedViewData,
    Policy,
    RowSecurity,
    Rule,
    Schema,
    Sequence,
    SequenceOwnedBy,
    SequenceSet,
    Table,
    TableData,
    Trigger,
    Type,
    View,
}

/// What a marker comment says about the object that follows it.
#[derive(Debug, PartialEq, Eq)]
pub struct Entity {
    /// The object's name as printed; for a function, its full signature.
    pub name: String,
    pub entity_type: EntityType,
    /// Absent where the marker's schema field is `-`.
    pub schema: Option<String>,
    pub owner: String,
}

/// The mathematical value of an [`Entity`].
pub struct EntityView {
    pub name: Seq<char>,
    pub entity_type: EntityType,
    pub schema: Option<Seq<char>>,
    pub owner: Seq<char>,
}

impl View for Entity {
    type V = EntityView;

    open spec fn view(&self) -> EntityView {
        EntityView {
            name: self.name@,
            entity_type: self.entity_type,
            schema: match self.schema {
                Some(s) => Some(s@),
                None => None,
            },
            owner: self.owner@,
        }
    }
}

impl DeepView for Entity {
    type V = EntityView;

    open spec fn deep_view(&self) -> EntityView {
        self@
    }
}

/// The descriptor that stands in before any marker has been seen.
pub open spec fn blank_entity() -> EntityView {
    EntityView {
        name: Seq::empty(),
        entity_type: EntityType::Acl,
        schema: None,
        owner: Seq::empty(),
    }
}

impl Default for Entity {
    fn default() -> (entity: Entity)
        ensures
            entity@ == blank_entity(),
    {
        Entity {
            name: String::new(),
            entity_type: EntityType::Acl,
            schema: None,
            owner: String::new(),
        }
    }
}

/// The classification of one line of input.
#[derive(Clone, Copy, Debug, PartialEq, Eq, Structural)]
pub enum Line {
    MarkerComment,
    EmptyComment,
    PreambleComment,
    Empty,
    Content,
}

/// Why a dump could not be split.
#[derive(Debug)]
pub enum EssenceError {
    /// The base directory exists already and was not to be replaced.
    BaseDirExistsError,
    /// A function's name holds no parenthesised argument list; carries the
    /// name as the marker gave it.
    GarbledFunctionNameError(String),
    /// A marker comment could not be parsed; carries the line's number.
    GarbledMarkerError(u32),
    /// Reading the dump or writing a file failed.
    IoError(std::io::Error),
    /// An object that belongs in a schema names none; carries the object's
    /// name.
    SchemaMissingError(String),
}

/// The mathematical value of an [`EssenceError`].
pub enum EssenceErrorView {
    BaseDirExistsError,
    GarbledFunctionNameError(Seq<char>),
    GarbledMarkerError(u32),
    IoError(std::io::Error),
    SchemaMissingError(Seq<char>),
}

impl View for EssenceError {
    type V = EssenceErrorView;

    open spec fn view(&self) -> EssenceErrorView {
        match self {
            EssenceError::BaseDirExistsError => EssenceErrorView::BaseDirExistsError,
            EssenceError::GarbledFunctionNameError(signature) => {
                EssenceErrorView::GarbledFunctionNameError(signature@)
            },
            EssenceError::GarbledMarkerError(line_number) => {
                EssenceErrorView::GarbledMarkerError(*line_number)
            },
            EssenceError::IoError(cause) => EssenceErrorView::IoError(*cause),
            EssenceError::SchemaMissingError(name) => EssenceErrorView::SchemaMissingError(name@),
        }
    }
}

impl DeepView for EssenceError {
    type V = EssenceErrorView;

    open spec fn deep_view(&self) -> EssenceErrorView {
        self@
    }
}

/// Whether `text` describes `error`. The text of an I/O failure is that of
/// its cause, which this relation leaves open.
pub open spec fn message_text(error: EssenceErrorView, text: Seq<char>) -> bool {
    match error {
        EssenceErrorView::BaseDirExistsError => text
            == "Base directory already exists, specify '-d' to allow automcatic deletion."@,
        EssenceErrorView::GarbledFunctionNameError(signature) => text
            == "function signature garbled ("@ + signature + ")"@,
        EssenceErrorView::GarbledMarkerError(line_number) => text
            == "garbled marker comment (line: "@ + numeral(line_number as nat) + ")"@,
        EssenceErrorView::IoError(_) => true,
        EssenceErrorView::SchemaMissingError(name) => text == "schema unknown for function '"@
            + name + "'"@,
    }
}

impl EssenceError {
    /// Describes the error in one line of text. An I/O failure is described
    /// as its cause describes itself.
    pub fn message(&self) -> (text: String)
        ensures
            message_text(self@, text@),
            self matches EssenceError::IoError(cause) ==> to_string_from_display_ensures::<
                std::io::Error,
            >(cause, text),
    {
        match self {
            EssenceError::BaseDirExistsError => String::from_str(
                "Base directory already exists, specify '-d' to allow automcatic deletion.",
            ),
            EssenceError::GarbledFunctionNameError(signature) => join3(
                "function signature garbled (",
                signature.as_str(),
                ")",
            ),
            EssenceError::GarbledMarkerError(line_number) => {
                let number = decimal(*line_number);
                join3("garbled marker comment (line: ", number.as_str(), ")")
            },
            EssenceError::IoError(cause) => cause.to_string(),
            EssenceError::SchemaMissingError(name) => join3(
                "schema unknown for function '",
                name.as_str(),
                "'",
            ),
        }
    }
}

impl From<std::io::Error> for EssenceError {
    fn from(cause: std::io::Error) -> (error: EssenceError) {
        EssenceError::IoError(cause)
    }
}

impl FromSpecImpl<std::io::Error> for EssenceError {
    open spec fn obeys_from_spec() -> bool {
        true
    }

    open spec fn from_spec(cause: std::io::Error) -> EssenceError {
        EssenceError::IoError(cause)
    }
}

} // verus!
