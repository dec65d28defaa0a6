//! The routing table: which entity types live in a schema, and where the
//! text that follows a marker goes.
//!
//! Nothing here touches the file system. A destination is a path below the
//! base directory, written as the list of its components, and what is to be
//! done with it is an [`Action`] for the caller to carry out.

use crate::marker::{bare_name, extract_function_name, is_polymorph, overloads};
use crate::path::{below, copied, top};
use crate::types::{
    Entity, EntityType, EntityView, EssenceError, EssenceErrorView, EVENT_TRIGGER_FOLDER,
    EXTENSION_FOLDER, FUNCTION_FOLDER, ROLE_FOLDER, SCHEMA_FOLDER, TABLE_FOLDER, TYPE_FOLDER,
    VIEW_FOLDER,
};
use vstd::prelude::*;
use vstd::string::*;

verus! {

/// One thing for the caller to do to its output. The actions of a step are
/// carried out in the order in which they are listed.
#[derive(Debug, PartialEq, Eq)]
pub enum Action {
    /// Make sure that this directory exists, and every directory above it.
    EnsureDirectory(Vec<String>),
    /// Create this file, or empty it if it exists, and make it the active
    /// output in place of the one before.
    Open(Vec<String>),
    /// Append this text to the active output.
    Write(String),
    /// Pass what was written so far on to the active output's file.
    Flush,
}

/// The mathematical value of an [`Action`].
pub enum ActionView {
    EnsureDirectory(Seq<Seq<char>>),
    Open(Seq<Seq<char>>),
    Write(Seq<char>),
    Flush,
}

impl View for Action {
    type V = ActionView;

    open spec fn view(&self) -> ActionView {
        match self {
            Action::EnsureDirectory(path) => ActionView::EnsureDirectory(path.deep_view()),
            Action::Open(path) => ActionView::Open(path.deep_view()),
            Action::Write(text) => ActionView::Write(text@),
            Action::Flush => ActionView::Flush,
        }
    }
}

impl DeepView for Action {
    type V = ActionView;

    open spec fn deep_view(&self) -> ActionView {
        self@
    }
}

/// Whether objects of this type are filed below a schema.
pub open spec fn needs_schema(entity_type: EntityType) -> bool {
    match entity_type {
        EntityType::Acl => false,
        EntityType::Comment => false,
        EntityType::Database => false,
        EntityType::DefaultAcl => false,
        EntityType::EventTrigger => false,
        EntityType::Extension => false,
        EntityType::Schema => false,
        _ => true,
    }
}

/// Whether objects of this type are filed below a schema.
pub fn requires_schema(entity_type: EntityType) -> (needed: bool)
    ensures
        needed == needs_schema(entity_type),
{
    match entity_type {
        EntityType::Acl => false,
        EntityType::Comment => false,
        EntityType::Database => false,
        EntityType::DefaultAcl => false,
        EntityType::EventTrigger => false,
        EntityType::Extension => false,
        EntityType::Schema => false,
        _ => true,
    }
}

/// The name of the file of an object that stands alone: `<name>.sql`.
pub open spec fn plain_file(name: Seq<char>) -> Seq<char> {
    name + ".sql"@
}

/// The name of the file of an object in a schema: `<schema>.<name>.sql`.
pub open spec fn schema_file(schema: Seq<char>, name: Seq<char>) -> Seq<char> {
    schema + "."@ + name + ".sql"@
}

/// The actions that file an object directly in `base_dir`.
pub open spec fn entity_actions(name: Seq<char>, base_dir: Seq<Seq<char>>) -> Seq<ActionView> {
    seq![
        ActionView::EnsureDirectory(base_dir),
        ActionView::Open(base_dir.push(plain_file(name))),
    ]
}

/// The actions that file an object of a schema in the folder of its kind.
pub open spec fn schema_entity_actions(
    schema: Seq<char>,
    name: Seq<char>,
    base_dir: Seq<Seq<char>>,
    folder_name: Seq<char>,
) -> Seq<ActionView> {
    seq![
        ActionView::EnsureDirectory(base_dir.push(schema).push(folder_name)),
        ActionView::Open(base_dir.push(schema).push(folder_name).push(schema_file(schema, name))),
    ]
}

/// The folder of the functions of `schema`.
pub open spec fn function_folder(schema: Seq<char>) -> Seq<Seq<char>> {
    seq![SCHEMA_FOLDER@, schema, FUNCTION_FOLDER@]
}

/// Where the text of a function of `schema` goes: into a file of its own
/// under its bare name `file`, or, where there is no `file` because the
/// function joins the overloads before it, after a blank line into the file
/// that is open already.
pub open spec fn function_target(schema: Seq<char>, file: Option<Seq<char>>) -> ActionView {
    match file {
        Some(name) => ActionView::Open(function_folder(schema).push(schema_file(schema, name))),
        None => ActionView::Write("\n"@),
    }
}

/// The file of its own that a function marker asks for, or none where the
/// function joins the overloads in the file that is open: that is where the
/// marker before it was a function too and the two are overloads of each
/// other.
pub open spec fn function_file(marker: EntityView, previous: EntityView) -> Result<
    Option<Seq<char>>,
    EssenceErrorView,
> {
    let joins = if previous.entity_type == EntityType::Function {
        overloads(marker, previous)
    } else {
        Ok(false)
    };
    match joins {
        Err(error) => Err(error),
        Ok(true) => Ok(None),
        Ok(false) => match bare_name(marker.name) {
            Some(name) => Ok(Some(name)),
            None => Err(EssenceErrorView::GarbledFunctionNameError(marker.name)),
        },
    }
}

/// Where a marker sends the text that follows it.
#[derive(Debug)]
pub struct Routing {
    /// What is to be done, in this order, whether or not the routing failed.
    pub actions: Vec<Action>,
    /// Why the marker could not be routed, if it could not.
    pub failure: Option<EssenceError>,
    /// Whether the text up to the next marker is dropped.
    pub suppress: bool,
}

/// The mathematical value of a [`Routing`].
pub struct RoutingView {
    pub actions: Seq<ActionView>,
    pub failure: Option<EssenceErrorView>,
    pub suppress: bool,
}

impl View for Routing {
    type V = RoutingView;

    open spec fn view(&self) -> RoutingView {
        RoutingView {
            actions: self.actions.deep_view(),
            failure: self.failure.deep_view(),
            suppress: self.suppress,
        }
    }
}

/// A routing that opens or extends a file.
pub open spec fn filed(actions: Seq<ActionView>) -> RoutingView {
    RoutingView { actions, failure: None, suppress: false }
}

/// A routing that drops the text up to the next marker.
pub open spec fn dropped(actions: Seq<ActionView>) -> RoutingView {
    RoutingView { actions, failure: None, suppress: true }
}

/// A routing that failed after `actions`.
pub open spec fn refused(actions: Seq<ActionView>, error: EssenceErrorView) -> RoutingView {
    RoutingView { actions, failure: Some(error), suppress: false }
}

/// The routing of a marker whose type lives in a schema. `file` is looked at
/// for a function only.
pub open spec fn routed_in_schema(
    marker: EntityView,
    schema: Seq<char>,
    file: Result<Option<Seq<char>>, EssenceErrorView>,
) -> RoutingView {
    let home = seq![ActionView::EnsureDirectory(seq![SCHEMA_FOLDER@, schema])];
    match marker.entity_type {
        EntityType::Function => {
            let prepared = home.push(ActionView::EnsureDirectory(function_folder(schema)));
            match file {
                Ok(target) => filed(prepared.push(function_target(schema, target))),
                Err(error) => refused(prepared, error),
            }
        },
        EntityType::Table => filed(
            home + schema_entity_actions(schema, marker.name, seq![SCHEMA_FOLDER@], TABLE_FOLDER@),
        ),
        EntityType::View => filed(
            home + schema_entity_actions(schema, marker.name, seq![SCHEMA_FOLDER@], VIEW_FOLDER@),
        ),
        EntityType::Type => filed(
            home + schema_entity_actions(schema, marker.name, seq![SCHEMA_FOLDER@], TYPE_FOLDER@),
        ),
        _ => dropped(home),
    }
}

/// The routing of a marker whose type lives outside the schemas.
pub open spec fn routed_outside(marker: EntityView) -> RoutingView {
    match marker.entity_type {
        EntityType::Schema => filed(
            seq![
                ActionView::EnsureDirectory(seq![SCHEMA_FOLDER@, marker.name]),
                ActionView::Open(seq![SCHEMA_FOLDER@, marker.name, plain_file(marker.name)]),
            ],
        ),
        EntityType::Extension => filed(entity_actions(marker.name, seq![EXTENSION_FOLDER@])),
        EntityType::EventTrigger => filed(entity_actions(marker.name, seq![EVENT_TRIGGER_FOLDER@])),
        EntityType::DefaultAcl => filed(entity_actions(marker.owner, seq![ROLE_FOLDER@])),
        _ => dropped(seq![]),
    }
}

/// The routing of a marker. A type that lives in a schema asks for one: a
/// marker of such a type without a schema is refused before anything is
/// done. `file` says where a function goes (see [`function_file`]) and is
/// looked at for a function only.
pub open spec fn routed(
    marker: EntityView,
    file: Result<Option<Seq<char>>, EssenceErrorView>,
) -> RoutingView {
    if needs_schema(marker.entity_type) {
        match marker.schema {
            Some(schema) => routed_in_schema(marker, schema, file),
            None => refused(seq![], EssenceErrorView::SchemaMissingError(marker.name)),
        }
    } else {
        routed_outside(marker)
    }
}

/// The view of a function's destination or the error in its place.
pub open spec fn file_view(file: Result<Option<String>, EssenceError>) -> Result<
    Option<Seq<char>>,
    EssenceErrorView,
> {
    match file {
        Ok(target) => Ok(target.deep_view()),
        Err(error) => Err(error@),
    }
}

/// Builds `<name>.sql`.
fn plain_file_name(name: &str) -> (file: String)
    ensures
        file@ == plain_file(name@),
{
    let mut file = String::from_str(name);
    file.append(".sql");
    file
}

/// Builds `<schema>.<name>.sql`.
fn schema_file_name(schema: &str, name: &str) -> (file: String)
    ensures
        file@ == schema_file(schema@, name@),
{
    let mut file = String::from_str(schema);
    file.append(".");
    file.append(name);
    file.append(".sql");
    file
}

/// The two actions of a routing: make a directory sure, then do `then`.
fn pair(directory: Vec<String>, then: Action) -> (actions: Vec<Action>)
    ensures
        actions.deep_view() == seq![ActionView::EnsureDirectory(directory.deep_view()), then@],
{
    let ghost first = ActionView::EnsureDirectory(directory.deep_view());
    let ghost second = then@;
    let mut actions: Vec<Action> = Vec::new();
    actions.push(Action::EnsureDirectory(directory));
    actions.push(then);
    assert(actions.deep_view() =~= seq![first, second]);
    actions
}

/// Files an object directly in `base_dir`, in `<name>.sql`.
pub fn create_entity(name: &str, base_dir: &Vec<String>) -> (actions: Vec<Action>)
    ensures
        actions.deep_view() == entity_actions(name@, base_dir.deep_view()),
{
    let file = plain_file_name(name);
    pair(copied(base_dir), Action::Open(below(base_dir, file.as_str())))
}

/// Files an object of `schema` below `base_dir`, in the folder of its kind
/// and in `<schema>.<name>.sql`.
pub fn create_schema_entity(
    schema: &str,
    name: &str,
    base_dir: &Vec<String>,
    folder_name: &str,
) -> (actions: Vec<Action>)
    ensures
        actions.deep_view() == schema_entity_actions(
            schema@,
            name@,
            base_dir.deep_view(),
            folder_name@,
        ),
{
    let home = below(base_dir, schema);
    let folder = below(&home, folder_name);
    let file = schema_file_name(schema, name);
    let target = below(&folder, file.as_str());
    pair(folder, Action::Open(target))
}

/// One action, then those of `rest`.
fn preceded(first: Action, rest: Vec<Action>) -> (actions: Vec<Action>)
    ensures
        actions.deep_view() == seq![first@] + rest.deep_view(),
{
    let ghost head = first@;
    let ghost tail = rest.deep_view();
    let mut rest = rest;
    let mut actions: Vec<Action> = Vec::new();
    actions.push(first);
    actions.append(&mut rest);
    assert(actions.deep_view() =~= seq![head] + tail);
    actions
}

/// Decides whether a function marker gets a file of its own, and under which
/// name. `previous` is the marker that was routed last.
pub fn function_destination(marker: &Entity, previous: &Entity) -> (file: Result<
    Option<String>,
    EssenceError,
>)
    ensures
        file_view(file) == function_file(marker@, previous@),
{
    let joins = if previous.entity_type == EntityType::Function {
        match is_polymorph(marker, previous) {
            Ok(joins) => joins,
            Err(error) => return Err(error),
        }
    } else {
        false
    };
    if joins {
        Ok(None)
    } else {
        match extract_function_name(marker) {
            Ok(name) => Ok(Some(name)),
            Err(error) => Err(error),
        }
    }
}

/// Routes a marker whose type lives in a schema.
fn route_in_schema(
    marker: &Entity,
    schema: &str,
    file: Result<Option<String>, EssenceError>,
) -> (routing: Routing)
    ensures
        routing@ == routed_in_schema(marker@, schema@, file_view(file)),
{
    let schemas = top(SCHEMA_FOLDER);
    let home = Action::EnsureDirectory(below(&schemas, schema));
    assert(home@ == ActionView::EnsureDirectory(seq![SCHEMA_FOLDER@, schema@])) by {
        assert(seq![SCHEMA_FOLDER@].push(schema@) =~= seq![SCHEMA_FOLDER@, schema@]);
    }
    match marker.entity_type {
        EntityType::Function => {
            let folder = below(&below(&schemas, schema), FUNCTION_FOLDER);
            assert(folder.deep_view() =~= function_folder(schema@));
            match file {
                Ok(target) => {
                    let then = match target {
                        Some(name) => {
                            let file_name = schema_file_name(schema, name.as_str());
                            Action::Open(below(&folder, file_name.as_str()))
                        },
                        None => Action::Write(String::from_str("\n")),
                    };
                    let ghost prepared = seq![home@].push(
                        ActionView::EnsureDirectory(function_folder(schema@)),
                    );
                    let actions = preceded(home, pair(folder, then));
                    assert(actions.deep_view() =~= prepared.push(
                        function_target(schema@, target.deep_view()),
                    ));
                    Routing { actions, failure: None, suppress: false }
                },
                Err(error) => {
                    let actions = pair(below(&schemas, schema), Action::EnsureDirectory(folder));
                    assert(actions.deep_view() =~= seq![home@].push(
                        ActionView::EnsureDirectory(function_folder(schema@)),
                    ));
                    Routing { actions, failure: Some(error), suppress: false }
                },
            }
        },
        EntityType::Table => Routing {
            actions: preceded(
                home,
                create_schema_entity(schema, marker.name.as_str(), &schemas, TABLE_FOLDER),
            ),
            failure: None,
            suppress: false,
        },
        EntityType::View => Routing {
            actions: preceded(
                home,
                create_schema_entity(schema, marker.name.as_str(), &schemas, VIEW_FOLDER),
            ),
            failure: None,
            suppress: false,
        },
        EntityType::Type => Routing {
            actions: preceded(
                home,
                create_schema_entity(schema, marker.name.as_str(), &schemas, TYPE_FOLDER),
            ),
            failure: None,
            suppress: false,
        },
        _ => {
            let ghost only = home@;
            let mut actions: Vec<Action> = Vec::new();
            actions.push(home);
            assert(actions.deep_view() =~= seq![only]);
            Routing { actions, failure: None, suppress: true }
        },
    }
}

/// Routes a marker whose type lives outside the schemas.
fn route_outside(marker: &Entity) -> (routing: Routing)
    ensures
        routing@ == routed_outside(marker@),
{
    match marker.entity_type {
        EntityType::Schema => {
            let home = below(&top(SCHEMA_FOLDER), marker.name.as_str());
            let file_name = plain_file_name(marker.name.as_str());
            let target = below(&home, file_name.as_str());
            assert(home.deep_view() =~= seq![SCHEMA_FOLDER@, marker@.name]);
            assert(target.deep_view() =~= seq![
                SCHEMA_FOLDER@,
                marker@.name,
                plain_file(marker@.name),
            ]);
            Routing { actions: pair(home, Action::Open(target)), failure: None, suppress: false }
        },
        EntityType::Extension => Routing {
            actions: create_entity(marker.name.as_str(), &top(EXTENSION_FOLDER)),
            failure: None,
            suppress: false,
        },
        EntityType::EventTrigger => Routing {
            actions: create_entity(marker.name.as_str(), &top(EVENT_TRIGGER_FOLDER)),
            failure: None,
            suppress: false,
        },
        EntityType::DefaultAcl => Routing {
            actions: create_entity(marker.owner.as_str(), &top(ROLE_FOLDER)),
            failure: None,
            suppress: false,
        },
        _ => {
            let actions: Vec<Action> = Vec::new();
            assert(actions.deep_view() =~= Seq::<ActionView>::empty());
            Routing { actions, failure: None, suppress: true }
        },
    }
}

/// Routes a marker: says which directories and which file it asks for, or
/// that the text after it is dropped, or why it cannot be routed. `file` is
/// what [`function_destination`] decided; it is looked at for a function
/// only.
pub fn route(marker: &Entity, file: Result<Option<String>, EssenceError>) -> (routing: Routing)
    ensures
        routing@ == routed(marker@, file_view(file)),
{
    if requires_schema(marker.entity_type) {
        match &marker.schema {
            Some(schema) => route_in_schema(marker, schema.as_str(), file),
            None => {
                let actions: Vec<Action> = Vec::new();
                assert(actions.deep_view() =~= Seq::<ActionView>::empty());
                Routing {
                    actions,
                    failure: Some(EssenceError::SchemaMissingError(marker.name.clone())),
                    suppress: false,
                }
            },
        }
    } else {
        route_outside(marker)
    }
}

} // verus!
