//! Count and page query generation.
//!
//! The layer never writes SQL of its own except here: a rendered query
//! is wrapped into a count query, and into a page query with a LIMIT
//! and OFFSET computed from the requested page.  A requested page
//! number below one is treated as one, and a requested page size of
//! zero falls back to ten rows.

use vstd::prelude::*;

verus! {

/// The character of one decimal digit.
pub open spec fn dec_digit(d: nat) -> char {
    if d == 0 {
        '0'
    } else if d == 1 {
        '1'
    } else if d == 2 {
        '2'
    } else if d == 3 {
        '3'
    } else if d == 4 {
        '4'
    } else if d == 5 {
        '5'
    } else if d == 6 {
        '6'
    } else if d == 7 {
        '7'
    } else if d == 8 {
        '8'
    } else {
        '9'
    }
}

/// The decimal rendering of a natural number, most significant digit
/// first, without leading zeros (zero renders as one digit).
pub open spec fn dec_seq(n: nat) -> Seq<char>
    decreases n,
{
    if n < 10 {
        seq![dec_digit(n)]
    } else {
        dec_seq(n / 10).push(dec_digit(n % 10))
    }
}

/// The one-character string of one decimal digit.
fn digit_literal(d: usize) -> (s: &'static str)
    requires
        d < 10,
    ensures
        s@ == seq![dec_digit(d as nat)],
{
    if d == 0 {
        proof {
            reveal_strlit("0");
        }
        assert("0"@ =~= seq![dec_digit(0)]);
        "0"
    } else if d == 1 {
        proof {
            reveal_strlit("1");
        }
        assert("1"@ =~= seq![dec_digit(1)]);
        "1"
    } else if d == 2 {
        proof {
            reveal_strlit("2");
        }
        assert("2"@ =~= seq![dec_digit(2)]);
        "2"
    } else if d == 3 {
        proof {
            reveal_strlit("3");
        }
        assert("3"@ =~= seq![dec_digit(3)]);
        "3"
    } else if d == 4 {
        proof {
            reveal_strlit("4");
        }
        assert("4"@ =~= seq![dec_digit(4)]);
        "4"
    } else if d == 5 {
        proof {
            reveal_strlit("5");
        }
        assert("5"@ =~= seq![dec_digit(5)]);
        "5"
    } else if d == 6 {
        proof {
            reveal_strlit("6");
        }
        assert("6"@ =~= seq![dec_digit(6)]);
        "6"
    } else if d == 7 {
        proof {
            reveal_strlit("7");
        }
        assert("7"@ =~= seq![dec_digit(7)]);
        "7"
    } else if d == 8 {
        proof {
            reveal_strlit("8");
        }
        assert("8"@ =~= seq![dec_digit(8)]);
        "8"
    } else {
        proof {
            reveal_strlit("9");
        }
        assert("9"@ =~= seq![dec_digit(9)]);
        "9"
    }
}

/// Renders a number in decimal.
pub fn usize_to_string(n: usize) -> (s: String)
    ensures
        s@ == dec_seq(n as nat),
    decreases n,
{
    if n < 10 {
        String::from_str(digit_literal(n))
    } else {
        let mut s = usize_to_string(n / 10);
        s.append(digit_literal(n % 10));
        proof {
            assert(s@ =~= dec_seq((n / 10) as nat).push(dec_digit((n % 10) as nat)));
        }
        s
    }
}

/// The page number actually used: a requested number below one is
/// treated as one.
pub open spec fn effective_page_num(page_num: nat) -> nat {
    if page_num > 1 {
        page_num
    } else {
        1
    }
}

/// The page size actually used for the LIMIT: a requested size of zero
/// falls back to ten rows.
pub open spec fn effective_page_size(page_size: nat) -> nat {
    if page_size > 0 {
        page_size
    } else {
        10
    }
}

/// The row offset of a page: full pages skipped before it.
pub open spec fn page_offset(page_num: nat, page_size: nat) -> nat {
    ((effective_page_num(page_num) - 1) * effective_page_size(page_size)) as nat
}

/// The count query wrapped around a rendered query.
pub open spec fn count_sql_spec(sql: Seq<char>) -> Seq<char> {
    "SELECT COUNT(1) FROM ("@ + sql + ") AS count "@
}

/// The count query a page request issues, as a function of the whole
/// request.
pub open spec fn plan_count_sql_spec(sql: Seq<char>, page_num: nat, page_size: nat) -> Seq<
    char,
> {
    count_sql_spec(sql)
}

/// The page query wrapped around a rendered query.
pub open spec fn page_sql_spec(sql: Seq<char>, page_num: nat, page_size: nat) -> Seq<char> {
    "SELECT * FROM ("@ + sql + ") LIMIT "@ + dec_seq(effective_page_size(page_size))
        + " OFFSET "@ + dec_seq(page_offset(page_num, page_size))
}

/// Wraps a rendered query into its count query.
pub fn wrap_count_sql(sql: &str) -> (r: String)
    ensures
        r@ == count_sql_spec(sql@),
{
    let mut s = String::from_str("SELECT COUNT(1) FROM (");
    s.append(sql);
    s.append(") AS count ");
    proof {
        assert(s@ =~= count_sql_spec(sql@));
    }
    s
}

/// Wraps a rendered query into its page query.  The offset must fit
/// the machine word, as it does for every page a backend can hold.
pub fn wrap_page_sql(sql: &str, page_num: usize, page_size: usize) -> (r: String)
    requires
        page_offset(page_num as nat, page_size as nat) <= usize::MAX,
    ensures
        r@ == page_sql_spec(sql@, page_num as nat, page_size as nat),
{
    let new_page_num: usize = if page_num > 1 {
        page_num
    } else {
        1
    };
    let new_page_size: usize = if page_size > 0 {
        page_size
    } else {
        10
    };
    let offset: usize = (new_page_num - 1) * new_page_size;
    let mut s = String::from_str("SELECT * FROM (");
    s.append(sql);
    s.append(") LIMIT ");
    let limit_text = usize_to_string(new_page_size);
    s.append(limit_text.as_str());
    s.append(" OFFSET ");
    let offset_text = usize_to_string(offset);
    s.append(offset_text.as_str());
    proof {
        assert(s@ =~= page_sql_spec(sql@, page_num as nat, page_size as nat));
    }
    s
}

/// The two queries a page request issues: the count query, whose
/// result is the unfiltered total, and the page query, whose result is
/// the page's rows.
pub struct PagePlan {
    pub count_sql: String,
    pub page_sql: String,
}

/// Plans a page request over a rendered query: one count query and one
/// page query.
pub fn plan_page_query(sql: &str, page_num: usize, page_size: usize) -> (p: PagePlan)
    requires
        page_offset(page_num as nat, page_size as nat) <= usize::MAX,
    ensures
        p.count_sql@ == plan_count_sql_spec(sql@, page_num as nat, page_size as nat),
        p.count_sql@ == count_sql_spec(sql@),
        p.page_sql@ == page_sql_spec(sql@, page_num as nat, page_size as nat),
{
    let count_sql = wrap_count_sql(sql);
    let page_sql = wrap_page_sql(sql, page_num, page_size);
    PagePlan { count_sql, page_sql }
}

/// A page request with page number zero issues exactly the queries of
/// a request with page number one: page numbers below one normalize
/// to one, so the rows and the total of the two requests coincide.
/// Only the echoed page number of the assembled result reports the
/// request as it was given.
pub proof fn lemma_page_num_zero_like_one(sql: Seq<char>, page_size: nat)
    ensures
        effective_page_num(0) == 1,
        effective_page_num(1) == 1,
        page_sql_spec(sql, 0, page_size) == page_sql_spec(sql, 1, page_size),
        plan_count_sql_spec(sql, 0, page_size) == plan_count_sql_spec(sql, 1, page_size),
{
}

/// A page request with page size zero uses ten as the LIMIT: it issues
/// exactly the queries of a request with page size ten.
pub proof fn lemma_page_size_zero_defaults_to_ten(sql: Seq<char>, page_num: nat)
    ensures
        effective_page_size(0) == 10,
        page_sql_spec(sql, page_num, 0) == page_sql_spec(sql, page_num, 10),
{
}

/// The count query of a page request does not depend on the requested
/// page number or page size: the total of a page result is extracted
/// from the count query's single row alone, so one underlying query
/// yields one total whatever pages are asked for.
pub proof fn lemma_count_sql_independent_of_page(
    sql: Seq<char>,
    num1: nat,
    size1: nat,
    num2: nat,
    size2: nat,
)
    ensures
        plan_count_sql_spec(sql, num1, size1) == plan_count_sql_spec(sql, num2, size2),
{
}

} // verus!
