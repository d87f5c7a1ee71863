use bmbp_orm::sqlgen::{plan_page_query, usize_to_string, wrap_count_sql, wrap_page_sql};

#[test]
fn decimal_rendering() {
    assert_eq!(usize_to_string(0), "0");
    assert_eq!(usize_to_string(7), "7");
    assert_eq!(usize_to_string(10), "10");
    assert_eq!(usize_to_string(12345), "12345");
    assert_eq!(usize_to_string(1000000), "1000000");
}

#[test]
fn count_sql_wraps_the_query() {
    assert_eq!(
        wrap_count_sql("SELECT * FROM t"),
        "SELECT COUNT(1) FROM (SELECT * FROM t) AS count "
    );
}

#[test]
fn page_sql_exact_rendering() {
    assert_eq!(
        wrap_page_sql("SELECT * FROM t", 3, 20),
        "SELECT * FROM (SELECT * FROM t) LIMIT 20 OFFSET 40"
    );
    assert_eq!(
        wrap_page_sql("SELECT * FROM t", 1, 5),
        "SELECT * FROM (SELECT * FROM t) LIMIT 5 OFFSET 0"
    );
}

/// Page number zero issues the page query of page number one.
#[test]
fn page_num_zero_behaves_like_one() {
    let sql = "SELECT * FROM t WHERE a = $1";
    assert_eq!(wrap_page_sql(sql, 0, 7), wrap_page_sql(sql, 1, 7));
    assert_eq!(
        wrap_page_sql(sql, 0, 7),
        "SELECT * FROM (SELECT * FROM t WHERE a = $1) LIMIT 7 OFFSET 0"
    );
}

/// Page size zero uses ten as the LIMIT.
#[test]
fn page_size_zero_defaults_to_ten() {
    let sql = "SELECT * FROM t";
    assert_eq!(wrap_page_sql(sql, 4, 0), wrap_page_sql(sql, 4, 10));
    assert_eq!(
        wrap_page_sql(sql, 4, 0),
        "SELECT * FROM (SELECT * FROM t) LIMIT 10 OFFSET 30"
    );
}

/// The count query of a page request is the same whatever page is
/// asked for.
#[test]
fn count_sql_independent_of_page() {
    let sql = "SELECT * FROM t";
    let plan_a = plan_page_query(sql, 1, 5);
    let plan_b = plan_page_query(sql, 9, 50);
    assert_eq!(plan_a.count_sql, plan_b.count_sql);
    assert_eq!(plan_a.count_sql, "SELECT COUNT(1) FROM (SELECT * FROM t) AS count ");
    assert_ne!(plan_a.page_sql, plan_b.page_sql);
}
