//! The catalog of entity types: the keyword that names each type in a
//! marker comment.

use crate::text::same_text;
use crate::types::EntityType;
use vstd::prelude::*;

verus! {

/// The keyword under which a marker comment names an entity type.
pub open spec fn keyword(entity_type: EntityType) -> Seq<char> {
    match entity_type {
        EntityType::Acl => "ACL"@,
        EntityType::Aggregate => "AGGREGATE"@,
        EntityType::Comment => "COMMENT"@,
        EntityType::CheckConstraint => "CHECK CONSTRAINT"@,
        EntityType::Constraint => "CONSTRAINT"@,
        EntityType::Database => "DATABASE"@,
        EntityType::Default => "DEFAULT"@,
        EntityType::DefaultAcl => "DEFAULT ACL"@,
        EntityType::Domain => "DOMAIN"@,
        EntityType::EventTrigger => "EVENT TRIGGER"@,
        EntityType::Extension => "EXTENSION"@,
        EntityType::FkConstraint => "FK CONSTRAINT"@,
        EntityType::ForeignTable => "FOREIGN TABLE"@,
        EntityType::Function => "FUNCTION"@,
        EntityType::Index => "INDEX"@,
        EntityType::MaterializedView => "MATERIALIZED VIEW"@,
        EntityType::MaterializedViewData => "MATERIALIZED VIEW DATA"@,
        EntityType::Policy => "POLICY"@,
        EntityType::RowSecurity => "ROW SECURITY"@,
        EntityType::Rule => "RULE"@,
        EntityType::Schema => "SCHEMA"@,
        EntityType::Sequence => "SEQUENCE"@,
        EntityType::SequenceOwnedBy => "SEQUENCE OWNED BY"@,
        EntityType::SequenceSet => "SEQUENCE SET"@,
        EntityType::Table => "TABLE"@,
        EntityType::TableData => "TABLE DATA"@,
        EntityType::Trigger => "TRIGGER"@,
        EntityType::Type => "TYPE"@,
        EntityType::View => "VIEW"@,
    }
}

/// The entity type that `word` names, if it names one.
pub open spec fn named_type(word: Seq<char>) -> Option<EntityType> {
    if exists|t: EntityType| keyword(t) == word {
        Some(choose|t: EntityType| keyword(t) == word)
    } else {
        None
    }
}

/// No two entity types share a keyword.
pub proof fn lemma_keywords_differ(a: EntityType, b: EntityType)
    requires
        keyword(a) == keyword(b),
    ensures
        a == b,
{
    reveal_strlit("ACL");
    reveal_strlit("AGGREGATE");
    reveal_strlit("COMMENT");
    reveal_strlit("CHECK CONSTRAINT");
    reveal_strlit("CONSTRAINT");
    reveal_strlit("DATABASE");
    reveal_strlit("DEFAULT");
    reveal_strlit("DEFAULT ACL");
    reveal_strlit("DOMAIN");
    reveal_strlit("EVENT TRIGGER");
    reveal_strlit("EXTENSION");
    reveal_strlit("FK CONSTRAINT");
    reveal_strlit("FOREIGN TABLE");
    reveal_strlit("FUNCTION");
    reveal_strlit("INDEX");
    reveal_strlit("MATERIALIZED VIEW");
    reveal_strlit("MATERIALIZED VIEW DATA");
    reveal_strlit("POLICY");
    reveal_strlit("ROW SECURITY");
    reveal_strlit("RULE");
    reveal_strlit("SCHEMA");
    reveal_strlit("SEQUENCE");
    reveal_strlit("SEQUENCE OWNED BY");
    reveal_strlit("SEQUENCE SET");
    reveal_strlit("TABLE");
    reveal_strlit("TABLE DATA");
    reveal_strlit("TRIGGER");
    reveal_strlit("TYPE");
    reveal_strlit("VIEW");
    let x = keyword(a);
    let y = keyword(b);
    assert(x.len() == y.len());
    assert(x[0] == y[0]);
    assert(x[1] == y[1]);
    assert(x[2] == y[2]);
}

/// Every keyword names its own type, and nothing else does.
pub proof fn lemma_named_type(word: Seq<char>)
    ensures
        forall|t: EntityType| keyword(t) == word ==> named_type(word) == Some(t),
        named_type(word) matches Some(t) ==> keyword(t) == word,
        named_type(word) is None ==> forall|t: EntityType| keyword(t) != word,
{
    assert forall|t: EntityType| keyword(t) == word implies named_type(word) == Some(t) by {
        let chosen = choose|u: EntityType| keyword(u) == word;
        lemma_keywords_differ(chosen, t);
    }
}

/// Looks `word` up in the catalog.
pub fn entity_type_from_keyword(word: &str) -> (found: Option<EntityType>)
    ensures
        found == named_type(word@),
        found matches Some(t) ==> keyword(t) == word@,
        found is None ==> forall|t: EntityType| keyword(t) != word@,
{
    let found = if same_text(word, "ACL") {
        Some(EntityType::Acl)
    } else if same_text(word, "AGGREGATE") {
        Some(EntityType::Aggregate)
    } else if same_text(word, "COMMENT") {
        Some(EntityType::Comment)
    } else if same_text(word, "CHECK CONSTRAINT") {
        Some(EntityType::CheckConstraint)
    } else if same_text(word, "CONSTRAINT") {
        Some(EntityType::Constraint)
    } else if same_text(word, "DATABASE") {
        Some(EntityType::Database)
    } else if same_text(word, "DEFAULT") {
        Some(EntityType::Default)
    } else if same_text(word, "DEFAULT ACL") {
        Some(EntityType::DefaultAcl)
    } else if same_text(word, "DOMAIN") {
        Some(EntityType::Domain)
    } else if same_text(word, "EVENT TRIGGER") {
        Some(EntityType::EventTrigger)
    } else if same_text(word, "EXTENSION") {
        Some(EntityType::Extension)
    } else if same_text(word, "FK CONSTRAINT") {
        Some(EntityType::FkConstraint)
    } else if same_text(word, "FOREIGN TABLE") {
        Some(EntityType::ForeignTable)
    } else if same_text(word, "FUNCTION") {
        Some(EntityType::Function)
    } else if same_text(word, "INDEX") {
        Some(EntityType::Index)
    } else if same_text(word, "MATERIALIZED VIEW") {
        Some(EntityType::MaterializedView)
    } else if same_text(word, "MATERIALIZED VIEW DATA") {
        Some(EntityType::MaterializedViewData)
    } else if same_text(word, "POLICY") {
        Some(EntityType::Policy)
    } else if same_text(word, "ROW SECURITY") {
        Some(EntityType::RowSecurity)
    } else if same_text(word, "RULE") {
        Some(EntityType::Rule)
    } else if same_text(word, "SCHEMA") {
        Some(EntityType::Schema)
    } else if same_text(word, "SEQUENCE") {
        Some(EntityType::Sequence)
    } else if same_text(word, "SEQUENCE OWNED BY") {
        Some(EntityType::SequenceOwnedBy)
    } else if same_text(word, "SEQUENCE SET") {
        Some(EntityType::SequenceSet)
    } else if same_text(word, "TABLE") {
        Some(EntityType::Table)
    } else if same_text(word, "TABLE DATA") {
        Some(EntityType::TableData)
    } else if same_text(word, "TRIGGER") {
        Some(EntityType::Trigger)
    } else if same_text(word, "TYPE") {
        Some(EntityType::Type)
    } else if same_text(word, "VIEW") {
        Some(EntityType::View)
    } else {
        None
    };
    proof {
        lemma_named_type(word@);
        if let Some(t) = found {
            assert(keyword(t) == word@);
        } else {
            assert forall|t: EntityType| keyword(t) != word@ by {
                match t {
                    EntityType::Acl => {},
                    EntityType::Aggregate => {},
                    EntityType::Comment => {},
                    EntityType::CheckConstraint => {},
                    EntityType::Constraint => {},
                    EntityType::Database => {},
                    EntityType::Default => {},
                    EntityType::DefaultAcl => {},
                    EntityType::Domain => {},
                    EntityType::EventTrigger => {},
                    EntityType::Extension => {},
                    EntityType::FkConstraint => {},
                    EntityType::ForeignTable => {},
                    EntityType::Function => {},
                    EntityType::Index => {},
                    EntityType::MaterializedView => {},
                    EntityType::MaterializedViewData => {},
                    EntityType::Policy => {},
                    EntityType::RowSecurity => {},
                    EntityType::Rule => {},
                    EntityType::Schema => {},
                    EntityType::Sequence => {},
                    EntityType::SequenceOwnedBy => {},
                    EntityType::SequenceSet => {},
                    EntityType::Table => {},
                    EntityType::TableData => {},
                    EntityType::Trigger => {},
                    EntityType::Type => {},
                    EntityType::View => {},
                }
            }
        }
    }
    found
}

} // verus!
