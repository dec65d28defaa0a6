use essence::types::{Entity, EntityType, Line};
use essence::{
    create_entity, create_schema_entity, extract_function_name, identify_line, identify_marker,
    is_polymorph,
};

#[test]
fn a_marker_line_from_classification_to_file() {
    let line = "-- Name: total(integer[]); Type: FUNCTION; Schema: stats; Owner: dana";
    assert_eq!(identify_line(line), Line::MarkerComment);

    let marker = identify_marker(line).unwrap();
    assert_eq!(
        marker,
        Entity {
            name: "total(integer[])".to_string(),
            entity_type: EntityType::Function,
            schema: Some("stats".to_string()),
            owner: "dana".to_string(),
        }
    );

    let bare = extract_function_name(&marker).unwrap();
    assert_eq!(bare, "total");

    let other = identify_marker("-- Name: total(real[]); Type: FUNCTION; Schema: stats; Owner: x")
        .unwrap();
    assert!(is_polymorph(&marker, &other).unwrap());

    let actions = create_schema_entity("stats", &bare, &vec!["schemas".to_string()], "functions");
    assert_eq!(actions.len(), 2);
    let actions = create_entity(&marker.owner, &vec!["roles".to_string()]);
    assert_eq!(actions.len(), 2);
}
