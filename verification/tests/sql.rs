use local_athena::sql::select_table;
use local_athena::sql::table_reference;
use local_athena::sql::FromItem;
use local_athena::sql::QueryError;
use local_athena::sql::StatementShape;
use local_athena::sql::MAX_NESTING;
use local_athena::sql::MAX_QUERY_BYTES;

fn table(parts: &[Option<&str>], joins: usize) -> FromItem {
    FromItem { name: Some(parts.iter().map(|p| p.map(|s| s.to_string())).collect()), joins }
}

#[test]
fn a_plain_select_names_its_table() {
    assert_eq!(table_reference("SELECT * FROM events"), Ok("events".to_string()));
    assert_eq!(table_reference("select a, b from events where a > 1"), Ok("events".to_string()));
    assert_eq!(table_reference("SELECT * FROM events;"), Ok("events".to_string()));
    assert_eq!(table_reference("SELECT * FROM events AS e LIMIT 10"), Ok("events".to_string()));
}

#[test]
fn a_schema_in_front_of_the_table_is_dropped() {
    assert_eq!(table_reference("SELECT * FROM logs.events"), Ok("events".to_string()));
    assert_eq!(table_reference("SELECT * FROM \"My Db\".\"My Table\""), Ok("My Table".to_string()));
}

#[test]
fn a_join_is_refused() {
    assert_eq!(
        table_reference("SELECT * FROM a JOIN b ON a.id=b.id"),
        Err(QueryError::Joined(1))
    );
    assert_eq!(
        table_reference("SELECT * FROM a JOIN b ON a.id=b.id JOIN c ON b.id=c.id"),
        Err(QueryError::Joined(2))
    );
}

#[test]
fn text_that_is_no_sql_is_refused() {
    assert_eq!(table_reference("SELEC * FROM events"), Err(QueryError::Unparseable));
    assert_eq!(table_reference("SELECT * FROM"), Err(QueryError::Unparseable));
    assert_eq!(table_reference("SELECT * FROM a b c"), Err(QueryError::Unparseable));
}

#[test]
fn no_statement_or_several_are_refused() {
    assert_eq!(table_reference(""), Err(QueryError::StatementCount(0)));
    assert_eq!(table_reference(";"), Err(QueryError::StatementCount(0)));
    assert_eq!(
        table_reference("SELECT * FROM a; SELECT * FROM b"),
        Err(QueryError::StatementCount(2))
    );
}

#[test]
fn a_statement_that_is_no_query_is_refused() {
    assert_eq!(table_reference("DROP TABLE events"), Err(QueryError::NotQuery));
    assert_eq!(table_reference("CREATE TABLE t (a INT)"), Err(QueryError::NotQuery));
}

#[test]
fn a_query_that_is_no_plain_select_is_refused() {
    assert_eq!(
        table_reference("SELECT * FROM a UNION SELECT * FROM b"),
        Err(QueryError::NotSelect)
    );
    assert_eq!(table_reference("VALUES (1, 2)"), Err(QueryError::NotSelect));
    assert_eq!(table_reference("(SELECT * FROM a)"), Err(QueryError::NotSelect));
}

#[test]
fn a_select_from_no_table_or_several_is_refused() {
    assert_eq!(table_reference("SELECT 1"), Err(QueryError::FromCount(0)));
    assert_eq!(table_reference("SELECT * FROM a, b"), Err(QueryError::FromCount(2)));
    assert_eq!(table_reference("SELECT * FROM a, b, c"), Err(QueryError::FromCount(3)));
}

#[test]
fn a_select_from_a_subquery_is_refused() {
    assert_eq!(
        table_reference("SELECT * FROM (SELECT * FROM a) AS t"),
        Err(QueryError::NotTable)
    );
}

#[test]
fn a_name_of_three_parts_is_refused() {
    assert_eq!(table_reference("SELECT * FROM a.b.c"), Err(QueryError::NameParts(3)));
    assert_eq!(table_reference("SELECT * FROM a.b.c.d"), Err(QueryError::NameParts(4)));
}

#[test]
fn the_parser_sees_the_text_it_is_given() {
    assert_eq!(table_reference("SELECT * FROM first"), Ok("first".to_string()));
    assert_eq!(table_reference("SELECT * FROM second"), Ok("second".to_string()));
}

#[test]
fn operators_outside_the_dialect_do_not_stop_the_parser() {
    assert_eq!(table_reference("SELECT a << 2 FROM events"), Ok("events".to_string()));
    assert!(table_reference("SELECT a ] FROM events").is_err());
    assert!(table_reference("GRANT SELECT ON t TO u GRANTED BY 1").is_err());
}

#[test]
fn deep_nesting_is_refused_not_followed() {
    let mut query = String::from("SELECT ");
    for _ in 0..2000 {
        query.push('(');
    }
    query.push('1');
    for _ in 0..2000 {
        query.push(')');
    }
    query.push_str(" FROM events");
    assert_eq!(table_reference(&query), Err(QueryError::Unparseable));
}

#[test]
fn shapes_one_select_of_one_table() {
    let statements = vec![StatementShape::Query(Some(vec![table(&[Some("events")], 0)]))];
    assert_eq!(select_table(&statements), Ok("events".to_string()));
    let qualified = vec![StatementShape::Query(Some(vec![table(&[Some("db"), Some("events")], 0)]))];
    assert_eq!(select_table(&qualified), Ok("events".to_string()));
}

#[test]
fn shapes_each_refusal() {
    assert_eq!(select_table(&Vec::new()), Err(QueryError::StatementCount(0)));
    assert_eq!(
        select_table(&vec![StatementShape::NotQuery, StatementShape::NotQuery]),
        Err(QueryError::StatementCount(2))
    );
    assert_eq!(select_table(&vec![StatementShape::NotQuery]), Err(QueryError::NotQuery));
    assert_eq!(select_table(&vec![StatementShape::Query(None)]), Err(QueryError::NotSelect));
    assert_eq!(
        select_table(&vec![StatementShape::Query(Some(Vec::new()))]),
        Err(QueryError::FromCount(0))
    );
    assert_eq!(
        select_table(&vec![StatementShape::Query(Some(vec![
            table(&[Some("a")], 0),
            table(&[Some("b")], 0),
        ]))]),
        Err(QueryError::FromCount(2))
    );
    assert_eq!(
        select_table(&vec![StatementShape::Query(Some(vec![FromItem { name: None, joins: 0 }]))]),
        Err(QueryError::NotTable)
    );
    assert_eq!(
        select_table(&vec![StatementShape::Query(Some(vec![table(&[Some("a")], 3)]))]),
        Err(QueryError::Joined(3))
    );
    assert_eq!(
        select_table(&vec![StatementShape::Query(Some(vec![table(&[], 0)]))]),
        Err(QueryError::NameParts(0))
    );
    assert_eq!(
        select_table(&vec![StatementShape::Query(Some(vec![table(
            &[Some("a"), Some("b"), Some("c")],
            0
        )]))]),
        Err(QueryError::NameParts(3))
    );
}

#[test]
fn shapes_a_part_that_is_no_identifier() {
    assert_eq!(
        select_table(&vec![StatementShape::Query(Some(vec![table(&[None], 0)]))]),
        Err(QueryError::NotTable)
    );
    assert_eq!(
        select_table(&vec![StatementShape::Query(Some(vec![table(&[Some("db"), None], 0)]))]),
        Err(QueryError::NotTable)
    );
    assert_eq!(
        select_table(&vec![StatementShape::Query(Some(vec![table(&[None, Some("events")], 0)]))]),
        Ok("events".to_string())
    );
}

fn filled(prefix: &str, unit: &str, suffix: &str, bytes: usize) -> String {
    let mut q = String::from(prefix);
    while q.len() + unit.len() + suffix.len() <= bytes {
        q.push_str(unit);
    }
    q.push_str(suffix);
    q
}

#[test]
fn the_bounds_on_a_query() {
    assert_eq!(MAX_QUERY_BYTES, 16384);
    assert_eq!(MAX_NESTING, 10);
}

#[test]
fn an_operator_chain_at_the_bound_is_parsed() {
    let query = filled("SELECT 1", "+1", " FROM events", MAX_QUERY_BYTES);
    assert_eq!(query.len(), MAX_QUERY_BYTES);
    assert_eq!(table_reference(&query), Ok("events".to_string()));
}

#[test]
fn a_query_beyond_the_bound_is_refused_unread() {
    let mut query = filled("SELECT 1", "+1", " FROM events", MAX_QUERY_BYTES);
    query.push(' ');
    assert_eq!(query.len(), MAX_QUERY_BYTES + 1);
    assert_eq!(table_reference(&query), Err(QueryError::TooLong));
    let long = filled("SELECT 1", "+1", " FROM events", 1_000_000);
    assert_eq!(table_reference(&long), Err(QueryError::TooLong));
    let noise = "x".repeat(MAX_QUERY_BYTES + 1);
    assert_eq!(table_reference(&noise), Err(QueryError::TooLong));
    assert_eq!(table_reference(&noise[1..]), Err(QueryError::Unparseable));
}

#[test]
fn the_bound_counts_bytes_not_characters() {
    let text = "\u{e9}".repeat(MAX_QUERY_BYTES / 2 - 10);
    let within = format!("SELECT * FROM \"{}\"", text);
    assert!(within.len() <= MAX_QUERY_BYTES);
    assert_eq!(table_reference(&within), Ok(text.clone()));
    let beyond = format!("{}        ", within);
    assert!(beyond.chars().count() < MAX_QUERY_BYTES);
    assert!(beyond.len() > MAX_QUERY_BYTES);
    assert_eq!(table_reference(&beyond), Err(QueryError::TooLong));
}

#[test]
fn chains_of_every_kind_at_the_bound_come_back() {
    let n = MAX_QUERY_BYTES;
    let events = Ok("events".to_string());
    assert_eq!(table_reference(&filled("SELECT 1", "*1", " FROM events", n)), events);
    assert_eq!(table_reference(&filled("SELECT a", "[1]", " FROM events", n)), events);
    assert_eq!(table_reference(&filled("SELECT 1", "::int", " FROM events", n)), events);
    assert_eq!(table_reference(&filled("SELECT a", " IS NULL", " FROM events", n)), events);
    assert_eq!(
        table_reference(&filled("SELECT 1 FROM events WHERE a", " OR a", "", n)),
        events
    );
    assert_eq!(
        table_reference(&filled("SELECT 1", " UNION SELECT 1", "", n)),
        Err(QueryError::NotSelect)
    );
    assert!(table_reference(&filled("SELECT 1 FROM a", " JOIN a ON 1=1", "", n)).is_err());
    assert!(table_reference(&filled("SELECT 1", ";", "", n)).is_err());
}

#[test]
fn nesting_within_the_depth_is_followed() {
    let queries = [
        "SELECT * FROM events WHERE a = 1 AND (b = 2 OR c IN (1, 2, 3))",
        "SELECT coalesce(nullif(lower(trim(a)), ''), 'x') FROM events",
        "SELECT * FROM events WHERE ((a = 1) AND ((b = 2) OR (c = 3)))",
        "SELECT * FROM events WHERE a IN (SELECT b FROM u WHERE c = (SELECT max(d) FROM v))",
        "SELECT sum(CASE WHEN a IN (1,2) THEN cast(b AS double) ELSE 0 END) / count(*) FROM events",
        "WITH t AS (SELECT a FROM b) SELECT * FROM events",
    ];
    for query in queries {
        assert_eq!(table_reference(query), Ok("events".to_string()));
    }
}

#[test]
fn nesting_beyond_the_depth_is_refused() {
    let n = MAX_QUERY_BYTES;
    let nests = [
        ("SELECT ", "(", "1 FROM events"),
        ("SELECT ", "f(", "1 FROM events"),
        ("SELECT ", " NOT", " a FROM events"),
        ("SELECT ", "CASE WHEN ", "1 FROM events"),
        ("SELECT ", "(SELECT ", "1 FROM events"),
        ("SELECT * FROM ", "(SELECT * FROM ", "events"),
        ("SELECT 1 FROM ", "(a JOIN ", "a"),
        ("SELECT CAST(1 AS ", "ARRAY<", "INT) FROM events"),
        ("", "EXPLAIN ", "SELECT 1 FROM events"),
        ("", "IF 1 THEN ", "SELECT 1 FROM events"),
        ("", "WITH a AS (", "SELECT 1 FROM events"),
    ];
    for (prefix, unit, suffix) in nests {
        assert_eq!(
            table_reference(&filled(prefix, unit, suffix, n)),
            Err(QueryError::Unparseable)
        );
        assert!(table_reference(&filled(prefix, unit, suffix, 256)).is_err());
    }
}
