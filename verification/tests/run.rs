use essence::run::{split, Run};
use essence::types::EssenceError;

fn dump(lines: &[&str]) -> Vec<String> {
    lines.iter().map(|line| line.to_string()).collect()
}

fn file(parts: &[&str]) -> Vec<String> {
    parts.iter().map(|part| part.to_string()).collect()
}

fn text_of(run: &Run, parts: &[&str]) -> Option<String> {
    run.archive.content(&file(parts))
}

#[test]
fn empty_dump_leaves_an_empty_preamble() {
    let run = split(&dump(&[]), "preamble.sql");
    assert!(run.failure.is_none());
    assert_eq!(run.archive.paths(), vec![file(&["preamble.sql"])]);
    assert_eq!(text_of(&run, &["preamble.sql"]), Some(String::new()));
}

#[test]
fn preamble_file_takes_the_name_it_is_given() {
    let run = split(&dump(&["SET a = 1;"]), "head.sql");
    assert_eq!(run.archive.paths(), vec![file(&["head.sql"])]);
    assert_eq!(text_of(&run, &["head.sql"]), Some("SET a = 1;\n".to_string()));
}

#[test]
fn table_body_lands_in_its_file() {
    let run = split(
        &dump(&[
            "SET statement_timeout = 0;",
            "",
            "-- Name: t1; Type: TABLE; Schema: public; Owner: alice",
            "",
            "CREATE TABLE public.t1 (",
            "    id integer",
            ");",
        ]),
        "preamble.sql",
    );
    assert!(run.failure.is_none());
    assert_eq!(
        text_of(&run, &["schemas", "public", "tables", "public.t1.sql"]),
        Some("CREATE TABLE public.t1 (\n    id integer\n);\n".to_string())
    );
    assert_eq!(
        text_of(&run, &["preamble.sql"]),
        Some("SET statement_timeout = 0;\n".to_string())
    );
    assert_eq!(
        run.archive.paths(),
        vec![
            file(&["preamble.sql"]),
            file(&["schemas", "public", "tables", "public.t1.sql"]),
        ]
    );
}

#[test]
fn table_body_in_the_layout_of_a_real_dump() {
    let run = split(
        &dump(&[
            "--",
            "-- PostgreSQL database dump",
            "--",
            "",
            "SET statement_timeout = 0;",
            "SET lock_timeout = 0;",
            "",
            "--",
            "-- Name: t1; Type: TABLE; Schema: public; Owner: alice",
            "--",
            "",
            "CREATE TABLE public.t1 (",
            "    id integer",
            ");",
            "",
            "",
            "ALTER TABLE public.t1 OWNER TO alice;",
            "",
            "--",
            "-- PostgreSQL database dump complete",
            "--",
            "",
        ]),
        "preamble.sql",
    );
    assert!(run.failure.is_none());
    assert_eq!(
        text_of(&run, &["preamble.sql"]),
        Some("SET statement_timeout = 0;\nSET lock_timeout = 0;\n".to_string())
    );
    assert_eq!(
        text_of(&run, &["schemas", "public", "tables", "public.t1.sql"]),
        Some(
            "CREATE TABLE public.t1 (\n    id integer\n);\n\n\nALTER TABLE public.t1 OWNER TO alice;\n\n-- PostgreSQL database dump complete\n\n"
                .to_string()
        )
    );
}

#[test]
fn overloads_share_one_file() {
    let run = split(
        &dump(&[
            "SET statement_timeout = 0;",
            "",
            "-- Name: f(integer); Type: FUNCTION; Schema: app; Owner: bob",
            "",
            "CREATE FUNCTION app.f(integer) RETURNS integer;",
            "-- Name: f(text); Type: FUNCTION; Schema: app; Owner: bob",
            "",
            "CREATE FUNCTION app.f(text) RETURNS integer;",
        ]),
        "preamble.sql",
    );
    assert!(run.failure.is_none());
    assert_eq!(
        run.archive.paths(),
        vec![
            file(&["preamble.sql"]),
            file(&["schemas", "app", "functions", "app.f.sql"]),
        ]
    );
    assert_eq!(
        text_of(&run, &["schemas", "app", "functions", "app.f.sql"]),
        Some(
            "CREATE FUNCTION app.f(integer) RETURNS integer;\n\nCREATE FUNCTION app.f(text) RETURNS integer;\n"
                .to_string()
        )
    );
}

#[test]
fn functions_with_different_names_get_a_file_each() {
    let run = split(
        &dump(&[
            "SET statement_timeout = 0;",
            "",
            "-- Name: f(integer); Type: FUNCTION; Schema: app; Owner: bob",
            "",
            "CREATE FUNCTION app.f(integer);",
            "-- Name: g(integer); Type: FUNCTION; Schema: app; Owner: bob",
            "",
            "CREATE FUNCTION app.g(integer);",
        ]),
        "preamble.sql",
    );
    assert!(run.failure.is_none());
    assert_eq!(
        text_of(&run, &["schemas", "app", "functions", "app.f.sql"]),
        Some("CREATE FUNCTION app.f(integer);\n".to_string())
    );
    assert_eq!(
        text_of(&run, &["schemas", "app", "functions", "app.g.sql"]),
        Some("CREATE FUNCTION app.g(integer);\n".to_string())
    );
    assert_eq!(run.archive.paths().len(), 3);
}

#[test]
fn overload_that_comes_later_empties_the_file() {
    let run = split(
        &dump(&[
            "SET statement_timeout = 0;",
            "",
            "-- Name: f(integer); Type: FUNCTION; Schema: app; Owner: bob",
            "",
            "first;",
            "-- Name: t; Type: TABLE; Schema: app; Owner: bob",
            "",
            "table;",
            "-- Name: f(text); Type: FUNCTION; Schema: app; Owner: bob",
            "",
            "second;",
        ]),
        "preamble.sql",
    );
    assert!(run.failure.is_none());
    assert_eq!(
        text_of(&run, &["schemas", "app", "functions", "app.f.sql"]),
        Some("second;\n".to_string())
    );
    assert_eq!(
        text_of(&run, &["schemas", "app", "tables", "app.t.sql"]),
        Some("table;\n".to_string())
    );
}

#[test]
fn comment_marker_leaves_no_file_and_the_run_goes_on() {
    let run = split(
        &dump(&[
            "SET statement_timeout = 0;",
            "",
            "-- Name: t1; Type: TABLE; Schema: public; Owner: alice",
            "",
            "CREATE TABLE public.t1 ();",
            "-- Name: TABLE t1; Type: COMMENT; Schema: public; Owner: alice",
            "",
            "COMMENT ON TABLE public.t1 IS 'first';",
            "",
            "-- Name: v1; Type: VIEW; Schema: public; Owner: alice",
            "",
            "CREATE VIEW public.v1 AS SELECT 1;",
        ]),
        "preamble.sql",
    );
    assert!(run.failure.is_none());
    assert_eq!(
        run.archive.paths(),
        vec![
            file(&["preamble.sql"]),
            file(&["schemas", "public", "tables", "public.t1.sql"]),
            file(&["schemas", "public", "views", "public.v1.sql"]),
        ]
    );
    assert_eq!(
        text_of(&run, &["schemas", "public", "tables", "public.t1.sql"]),
        Some("CREATE TABLE public.t1 ();\n".to_string())
    );
    assert_eq!(
        text_of(&run, &["schemas", "public", "views", "public.v1.sql"]),
        Some("CREATE VIEW public.v1 AS SELECT 1;\n".to_string())
    );
    assert_eq!(
        text_of(&run, &["preamble.sql"]),
        Some("SET statement_timeout = 0;\n".to_string())
    );
}

#[test]
fn roles_schemas_and_extensions_get_their_files() {
    let run = split(
        &dump(&[
            "SET statement_timeout = 0;",
            "",
            "-- Name: app; Type: SCHEMA; Schema: -; Owner: alice",
            "",
            "CREATE SCHEMA app;",
            "-- Name: plpgsql; Type: EXTENSION; Schema: -; Owner: ",
            "",
            "CREATE EXTENSION plpgsql;",
            "-- Name: audit; Type: EVENT TRIGGER; Schema: -; Owner: root",
            "",
            "CREATE EVENT TRIGGER audit;",
            "-- Name: DEFAULT PRIVILEGES FOR TABLES; Type: DEFAULT ACL; Schema: app; Owner: alice",
            "",
            "ALTER DEFAULT PRIVILEGES;",
        ]),
        "preamble.sql",
    );
    assert!(run.failure.is_none());
    assert_eq!(text_of(&run, &["schemas", "app", "app.sql"]), Some("CREATE SCHEMA app;\n".to_string()));
    assert_eq!(
        text_of(&run, &["extensions", "plpgsql.sql"]),
        Some("CREATE EXTENSION plpgsql;\n".to_string())
    );
    assert_eq!(
        text_of(&run, &["event_triggers", "audit.sql"]),
        Some("CREATE EVENT TRIGGER audit;\n".to_string())
    );
    assert_eq!(
        text_of(&run, &["roles", "alice.sql"]),
        Some("ALTER DEFAULT PRIVILEGES;\n".to_string())
    );
    assert_eq!(run.archive.paths().len(), 5);
}

#[test]
fn failure_stops_the_run_and_keeps_what_was_written() {
    let run = split(
        &dump(&[
            "SET statement_timeout = 0;",
            "",
            "-- Name: t1; Type: TABLE; Schema: public; Owner: alice",
            "",
            "CREATE TABLE public.t1 ();",
            "-- Name: x; Type: WIDGET; Schema: public; Owner: alice",
            "",
            "never looked at",
            "-- Name: v1; Type: VIEW; Schema: public; Owner: alice",
        ]),
        "preamble.sql",
    );
    match run.failure {
        Some(EssenceError::GarbledMarkerError(line_number)) => assert_eq!(line_number, 6),
        ref other => panic!("{:?}", other),
    }
    assert_eq!(
        run.archive.paths(),
        vec![
            file(&["preamble.sql"]),
            file(&["schemas", "public", "tables", "public.t1.sql"]),
        ]
    );
    assert_eq!(
        text_of(&run, &["schemas", "public", "tables", "public.t1.sql"]),
        Some("CREATE TABLE public.t1 ();\n".to_string())
    );
}

#[test]
fn missing_schema_stops_the_run() {
    let run = split(
        &dump(&["x", "", "-- Name: orphan; Type: TABLE; Schema: -; Owner: alice", "", "body"]),
        "preamble.sql",
    );
    match run.failure {
        Some(EssenceError::SchemaMissingError(ref name)) => assert_eq!(name, "orphan"),
        ref other => panic!("{:?}", other),
    }
    assert_eq!(run.archive.paths(), vec![file(&["preamble.sql"])]);
}

#[test]
fn garbled_function_name_stops_the_run() {
    let run = split(
        &dump(&["x", "", "-- Name: f; Type: FUNCTION; Schema: app; Owner: alice", "", "body"]),
        "preamble.sql",
    );
    match run.failure {
        Some(EssenceError::GarbledFunctionNameError(ref signature)) => assert_eq!(signature, "f"),
        ref other => panic!("{:?}", other),
    }
    assert_eq!(run.archive.paths(), vec![file(&["preamble.sql"])]);
}

#[test]
fn splitting_twice_gives_the_same_files() {
    let lines = dump(&[
        "--",
        "-- dump",
        "--",
        "",
        "SET statement_timeout = 0;",
        "",
        "--",
        "-- Name: app; Type: SCHEMA; Schema: -; Owner: alice",
        "--",
        "",
        "CREATE SCHEMA app;",
        "",
        "--",
        "-- Name: f(integer); Type: FUNCTION; Schema: app; Owner: bob",
        "--",
        "",
        "CREATE FUNCTION app.f(integer);",
        "--",
        "-- Name: f(text); Type: FUNCTION; Schema: app; Owner: bob",
        "--",
        "",
        "CREATE FUNCTION app.f(text);",
        "--",
        "-- Name: i; Type: INDEX; Schema: app; Owner: bob",
        "--",
        "",
        "CREATE INDEX i;",
        "--",
        "-- Name: t; Type: TABLE; Schema: app; Owner: bob",
        "--",
        "",
        "CREATE TABLE app.t ();",
    ]);
    let first = split(&lines, "preamble.sql");
    let second = split(&lines, "preamble.sql");
    assert!(first.failure.is_none());
    assert!(second.failure.is_none());
    let paths = first.archive.paths();
    assert_eq!(paths, second.archive.paths());
    assert_eq!(paths.len(), 4);
    for path in &paths {
        assert_eq!(first.archive.content(path), second.archive.content(path));
        assert!(first.archive.content(path).is_some());
    }
    assert_eq!(
        text_of(&first, &["schemas", "app", "functions", "app.f.sql"]),
        Some("CREATE FUNCTION app.f(integer);\n\nCREATE FUNCTION app.f(text);\n".to_string())
    );
}
