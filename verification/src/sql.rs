//! The query that a search becomes: SQL text with numbered placeholders and,
//! apart from the text, the values bound to them. No value ever becomes part
//! of the text. The text and the bound values are gathered by `sqlx`'s
//! `QueryBuilder`.

use crate::decimal::as_sent;
use crate::decimal::decimal_view;
use crate::decimal::in_range;
use crate::decimal::Decimal;
use crate::predicate::param_of;
use crate::predicate::params_of;
use crate::predicate::predicate_views;
use crate::predicate::sent;
use crate::predicate::sent_params;
use crate::predicate::Param;
use crate::predicate::ParamView;
use crate::predicate::Predicate;
use crate::predicate::PredicateView;
use crate::query::bounds_in_range;
use crate::query::filter_predicates;
use crate::query::FilterQueryView;
use crate::query::FilterQuery;
use crate::store::Mark;
use bigdecimal::num_bigint::BigInt;
use bigdecimal::num_bigint::Sign;
use bigdecimal::BigDecimal;
use crate::text::like_pattern;
use vstd::prelude::*;
use vstd::utf8::encode_utf8;

verus! {

/// A query for the store's products joined with their categories, under
/// construction: `inner` is the `QueryBuilder` that holds its SQL text and
/// the values bound so far. Its text is [`statement_sql`] and its bound values
/// are [`statement_params`].
#[verifier::external_body]
pub struct Statement {
    pub inner: sqlx::QueryBuilder<'static, sqlx::Postgres>,
}

/// The SQL text that a statement holds.
pub uninterp spec fn statement_sql(statement: Statement) -> Seq<char>;

/// The values bound in a statement, in the order of their placeholders, each
/// as the store receives it.
pub uninterp spec fn statement_params(statement: Statement) -> Seq<ParamView>;

/// The character of a base-ten digit.
pub open spec fn digit_char(d: nat) -> char {
    if d == 0 {
        '0'
    } else if d == 1 {
        '1'
    } else if d == 2 {
        '2'
    } else if d == 3 {
        '3'
    } else if d == 4 {
        '4'
    } else if d == 5 {
        '5'
    } else if d == 6 {
        '6'
    } else if d == 7 {
        '7'
    } else if d == 8 {
        '8'
    } else {
        '9'
    }
}

/// A natural number in base ten, without leading zeros.
pub open spec fn number_text(n: nat) -> Seq<char>
    decreases n,
{
    if n < 10 {
        seq![digit_char(n)]
    } else {
        number_text(n / 10).push(digit_char(n % 10))
    }
}

/// The placeholder of the `n`-th bound value: `$n`.
pub open spec fn placeholder(n: nat) -> Seq<char> {
    seq!['$'] + number_text(n)
}

/// The largest number of bytes that one bound text may take.
pub const MAX_TEXT_BYTES: usize = 0x7fff_ffff;

/// `QueryBuilder::new`. Trusted: the new builder holds the given text and no
/// bound value.
#[verifier::external_body]
pub(crate) fn start(sql: &str) -> (r: Statement)
    ensures
        statement_sql(r) == sql@,
        statement_params(r) == Seq::<ParamView>::empty(),
{
    Statement { inner: sqlx::QueryBuilder::new(sql) }
}

/// `QueryBuilder::push`. Trusted: the fragment is appended to the text as it
/// stands and the bound values stay.
#[verifier::external_body]
pub(crate) fn push_sql(statement: &mut Statement, sql: &str)
    ensures
        statement_sql(*final(statement)) == statement_sql(*old(statement)) + sql@,
        statement_params(*final(statement)) == statement_params(*old(statement)),
{
    statement.inner.push(sql);
}

/// `QueryBuilder::push_bind` with a `String`. Trusted: the text is bound as
/// the next value and its placeholder, `$` and the count of values bound with
/// it, is appended to the SQL text. The call fails on a text of more than
/// [`MAX_TEXT_BYTES`] bytes, which `requires` leaves out.
#[verifier::external_body]
pub(crate) fn bind_text(statement: &mut Statement, value: String)
    requires
        encode_utf8(value@).len() <= MAX_TEXT_BYTES,
    ensures
        statement_sql(*final(statement)) == statement_sql(*old(statement)) + placeholder(
            statement_params(*old(statement)).len() + 1,
        ),
        statement_params(*final(statement)) == statement_params(*old(statement)).push(
            ParamView::Text(value@),
        ),
{
    statement.inner.push_bind(value);
}

/// `QueryBuilder::push_bind` with a `bool`. Trusted: the flag is bound as the
/// next value and its placeholder is appended to the SQL text.
#[verifier::external_body]
pub(crate) fn bind_flag(statement: &mut Statement, value: bool)
    ensures
        statement_sql(*final(statement)) == statement_sql(*old(statement)) + placeholder(
            statement_params(*old(statement)).len() + 1,
        ),
        statement_params(*final(statement)) == statement_params(*old(statement)).push(
            ParamView::Flag(value),
        ),
{
    statement.inner.push_bind(value);
}

/// `QueryBuilder::push_bind` with the `BigDecimal` that `BigInt::from_radix_be`
/// and `BigDecimal::new` make of the parts. Trusted: the number is bound as
/// the next value, in the form in which the store receives it, and its
/// placeholder is appended to the SQL text. The call fails on a number that
/// the wire form of `NUMERIC` cannot carry; the sizes of [`in_range`] keep
/// within what it can.
#[verifier::external_body]
pub(crate) fn bind_number(statement: &mut Statement, negative: bool, digits: &Vec<u8>, scale: i64)
    requires
        in_range(digits@, scale as int),
    ensures
        statement_sql(*final(statement)) == statement_sql(*old(statement)) + placeholder(
            statement_params(*old(statement)).len() + 1,
        ),
        statement_params(*final(statement)) == statement_params(*old(statement)).push(
            ParamView::Number(as_sent(decimal_view(negative, digits@, scale as int))),
        ),
{
    let sign = if negative {
        Sign::Minus
    } else {
        Sign::Plus
    };
    let unscaled = BigInt::from_radix_be(sign, digits, 10).unwrap();
    statement.inner.push_bind(BigDecimal::new(unscaled, scale));
}

/// `QueryBuilder::push_bind` with an `i32`. Trusted: the integer is bound as
/// the next value and its placeholder is appended to the SQL text.
#[verifier::external_body]
pub(crate) fn bind_integer(statement: &mut Statement, value: i32)
    ensures
        statement_sql(*final(statement)) == statement_sql(*old(statement)) + placeholder(
            statement_params(*old(statement)).len() + 1,
        ),
        statement_params(*final(statement)) == statement_params(*old(statement)).push(
            ParamView::Integer(value as int),
        ),
{
    statement.inner.push_bind(value);
}

/// `QueryBuilder::push_bind` with an `i64`. Trusted: the integer is bound as
/// the next value and its placeholder is appended to the SQL text.
#[verifier::external_body]
pub(crate) fn bind_long(statement: &mut Statement, value: i64)
    ensures
        statement_sql(*final(statement)) == statement_sql(*old(statement)) + placeholder(
            statement_params(*old(statement)).len() + 1,
        ),
        statement_params(*final(statement)) == statement_params(*old(statement)).push(
            ParamView::Long(value as int),
        ),
{
    statement.inner.push_bind(value);
}

/// `QueryBuilder::sql`. Trusted: it hands out the text that the builder
/// holds.
#[verifier::external_body]
pub(crate) fn current_sql(statement: &Statement) -> (r: String)
    ensures
        r@ == statement_sql(*statement),
{
    statement.inner.sql().to_owned()
}

/// The query that every search starts from: each product joined with its
/// category, under a condition that is always true.
pub open spec fn filter_base() -> Seq<char> {
    "SELECT p.id, p.name, p.description, p.price, p.is_best_seller, p.is_deal_of_the_day, p.discount, p.category_id, c.name AS category_name FROM products p INNER JOIN categories c ON p.category_id = c.id WHERE 1=1"@
}

/// The SQL that states a predicate, up to its placeholder.
pub open spec fn clause_of(predicate: PredicateView) -> Seq<char> {
    match predicate {
        PredicateView::CategoryContains(_) => " AND c.name ILIKE "@,
        PredicateView::BestSeller(_) => " AND p.is_best_seller = "@,
        PredicateView::DealOfTheDay(_) => " AND p.is_deal_of_the_day = "@,
        PredicateView::MinPrice(_) => " AND p.price >= "@,
        PredicateView::MaxPrice(_) => " AND p.price <= "@,
    }
}

/// The SQL text of a search: the base query, then for each predicate in turn
/// its clause and the placeholder with its number in the list.
pub open spec fn filter_sql(predicates: Seq<PredicateView>) -> Seq<char>
    decreases predicates.len(),
{
    if predicates.len() == 0 {
        filter_base()
    } else {
        filter_sql(predicates.drop_last()) + clause_of(predicates.last()) + placeholder(
            predicates.len(),
        )
    }
}

/// Whether the value that a predicate binds is one that the store takes: a
/// pattern of at most [`MAX_TEXT_BYTES`] bytes in UTF-8. Flags and numbers
/// always are.
pub open spec fn bindable(predicate: PredicateView) -> bool {
    match predicate {
        PredicateView::CategoryContains(text) => encode_utf8(like_pattern(text)).len()
            <= MAX_TEXT_BYTES,
        _ => true,
    }
}

/// Whether every predicate of a list is [`bindable`].
pub open spec fn all_bindable(predicates: Seq<PredicateView>) -> bool {
    forall|i: int| 0 <= i < predicates.len() ==> bindable(#[trigger] predicates[i])
}

impl Statement {
    /// The SQL text of the statement.
    pub fn sql(&self) -> (r: String)
        ensures
            r@ == statement_sql(*self),
    {
        current_sql(self)
    }
}

/// The clause of a predicate, as text.
fn clause(predicate: &Predicate) -> (r: &'static str)
    ensures
        r@ == clause_of(predicate@),
{
    match predicate {
        Predicate::CategoryContains(_) => " AND c.name ILIKE ",
        Predicate::BestSeller(_) => " AND p.is_best_seller = ",
        Predicate::DealOfTheDay(_) => " AND p.is_deal_of_the_day = ",
        Predicate::MinPrice(_) => " AND p.price >= ",
        Predicate::MaxPrice(_) => " AND p.price <= ",
    }
}

/// The query for a search with the given predicates: the base query with one
/// `AND` clause per predicate, in the order of the list, each with the
/// placeholder of the value it binds. `None` where a predicate is not
/// [`bindable`].
pub fn filter_statement(predicates: &Vec<Predicate>) -> (r: Option<Statement>)
    ensures
        r is Some == all_bindable(predicate_views(predicates@)),
        r matches Some(statement) ==> {
            &&& statement_sql(statement) == filter_sql(predicate_views(predicates@))
            &&& statement_params(statement) == sent_params(params_of(predicate_views(predicates@)))
        },
{
    let ghost views = predicate_views(predicates@);
    let mut statement: Statement = start(
        "SELECT p.id, p.name, p.description, p.price, p.is_best_seller, p.is_deal_of_the_day, p.discount, p.category_id, c.name AS category_name FROM products p INNER JOIN categories c ON p.category_id = c.id WHERE 1=1",
    );
    let mut i: usize = 0;
    assert(sent_params(params_of(views.take(0))) =~= Seq::<ParamView>::empty());
    while i < predicates.len()
        invariant
            i <= predicates.len(),
            views == predicate_views(predicates@),
            forall|j: int| 0 <= j < i ==> bindable(#[trigger] views[j]),
            statement_sql(statement) == filter_sql(views.take(i as int)),
            statement_params(statement) == sent_params(params_of(views.take(i as int))),
        decreases predicates.len() - i,
    {
        let predicate: &Predicate = &predicates[i];
        proof {
            assert(views.take(i + 1).drop_last() =~= views.take(i as int));
            assert(views.take(i + 1).last() == predicate@);
            assert(sent_params(params_of(views.take(i + 1))) =~= sent_params(
                params_of(views.take(i as int)),
            ).push(sent(param_of(predicate@))));
        }
        push_sql(&mut statement, clause(predicate));
        match predicate.param() {
            Param::Text(pattern) => {
                let size: usize = pattern.as_str().as_bytes().len();
                if size > MAX_TEXT_BYTES {
                    assert(!bindable(views[i as int]));
                    return None;
                }
                bind_text(&mut statement, pattern);
            },
            Param::Flag(flag) => {
                bind_flag(&mut statement, flag);
            },
            Param::Number(number) => {
                let (negative, digits, scale) = number.parts();
                bind_number(&mut statement, negative, digits, scale);
            },
            Param::Integer(number) => {
                bind_integer(&mut statement, number);
            },
            Param::Long(number) => {
                bind_long(&mut statement, number);
            },
        }
        i += 1;
    }
    assert(views.take(predicates.len() as int) =~= views);
    Some(statement)
}

/// Whether every predicate of a list is [`bindable`].
pub fn can_bind(predicates: &Vec<Predicate>) -> (r: bool)
    ensures
        r == all_bindable(predicate_views(predicates@)),
{
    let ghost views = predicate_views(predicates@);
    let mut i: usize = 0;
    while i < predicates.len()
        invariant
            i <= predicates.len(),
            views == predicate_views(predicates@),
            forall|j: int| 0 <= j < i ==> bindable(#[trigger] views[j]),
        decreases predicates.len() - i,
    {
        if let Param::Text(pattern) = predicates[i].param() {
            if pattern.as_str().as_bytes().len() > MAX_TEXT_BYTES {
                assert(!bindable(views[i as int]));
                return false;
            }
        }
        i += 1;
    }
    true
}

/// Whether a search can be put to the store: neither price bound is a
/// number beyond the sizes of a decimal, and every predicate is
/// [`bindable`].
pub open spec fn askable(query: FilterQueryView) -> bool {
    bounds_in_range(query) && all_bindable(filter_predicates(query))
}

/// The query for a search: the predicates of the query, then the statement
/// for them. `None` where the search is not [`askable`].
pub fn filter_query(query: &FilterQuery) -> (r: Option<Statement>)
    ensures
        r is Some == askable(query@),
        r matches Some(statement) ==> {
            &&& statement_sql(statement) == filter_sql(filter_predicates(query@))
            &&& statement_params(statement) == sent_params(params_of(filter_predicates(query@)))
        },
{
    match query.predicates() {
        Some(predicates) => filter_statement(&predicates),
        None => None,
    }
}

/// The query for stored products: every column of every product.
pub open spec fn products_base() -> Seq<char> {
    "SELECT id, name, description, price, is_best_seller, is_deal_of_the_day, discount, category_id FROM products"@
}

/// The query for categories: every column of every category.
pub open spec fn categories_base() -> Seq<char> {
    "SELECT id, name FROM categories"@
}

/// The condition and the limit that ask for the products with a mark.
pub open spec fn mark_clause(mark: Mark) -> Seq<char> {
    match mark {
        Mark::BestSeller => " WHERE is_best_seller = true LIMIT "@,
        Mark::DealOfTheDay => " WHERE is_deal_of_the_day = true LIMIT "@,
    }
}

/// The query for every product.
pub fn all_products_statement() -> (r: Statement)
    ensures
        statement_sql(r) == products_base(),
        statement_params(r) == Seq::<ParamView>::empty(),
{
    start(
        "SELECT id, name, description, price, is_best_seller, is_deal_of_the_day, discount, category_id FROM products",
    )
}

/// The query for the product with an id, which is bound.
pub fn product_by_id_statement(id: i32) -> (r: Statement)
    ensures
        statement_sql(r) == products_base() + " WHERE id = "@ + placeholder(1),
        statement_params(r) == seq![ParamView::Integer(id as int)],
{
    let mut statement: Statement = all_products_statement();
    push_sql(&mut statement, " WHERE id = ");
    bind_integer(&mut statement, id);
    assert(statement_params(statement) =~= seq![ParamView::Integer(id as int)]);
    statement
}

/// The query for the first products with a mark; the limit is bound.
pub fn marked_products_statement(mark: Mark, limit: i64) -> (r: Statement)
    ensures
        statement_sql(r) == products_base() + mark_clause(mark) + placeholder(1),
        statement_params(r) == seq![ParamView::Long(limit as int)],
{
    let mut statement: Statement = all_products_statement();
    match mark {
        Mark::BestSeller => push_sql(&mut statement, " WHERE is_best_seller = true LIMIT "),
        Mark::DealOfTheDay => push_sql(&mut statement, " WHERE is_deal_of_the_day = true LIMIT "),
    }
    bind_long(&mut statement, limit);
    assert(statement_params(statement) =~= seq![ParamView::Long(limit as int)]);
    statement
}

/// The query for the products whose price lies between two bounds, both
/// included and both bound, the lower first.
pub fn price_range_statement(min: &Decimal, max: &Decimal) -> (r: Statement)
    ensures
        statement_sql(r) == products_base() + " WHERE price BETWEEN "@ + placeholder(1)
            + " AND "@ + placeholder(2),
        statement_params(r) == seq![
            ParamView::Number(as_sent(min@)),
            ParamView::Number(as_sent(max@)),
        ],
{
    let mut statement: Statement = all_products_statement();
    push_sql(&mut statement, " WHERE price BETWEEN ");
    let (negative, digits, scale) = min.parts();
    bind_number(&mut statement, negative, digits, scale);
    push_sql(&mut statement, " AND ");
    let (negative, digits, scale) = max.parts();
    bind_number(&mut statement, negative, digits, scale);
    assert(statement_params(statement) =~= seq![
        ParamView::Number(as_sent(min@)),
        ParamView::Number(as_sent(max@)),
    ]);
    statement
}

/// The query for the joined rows of one category, whose id is bound.
pub fn products_in_category_statement(category_id: i32) -> (r: Statement)
    ensures
        statement_sql(r) == filter_base() + " AND p.category_id = "@ + placeholder(1),
        statement_params(r) == seq![ParamView::Integer(category_id as int)],
{
    let mut statement: Statement = start(
        "SELECT p.id, p.name, p.description, p.price, p.is_best_seller, p.is_deal_of_the_day, p.discount, p.category_id, c.name AS category_name FROM products p INNER JOIN categories c ON p.category_id = c.id WHERE 1=1",
    );
    push_sql(&mut statement, " AND p.category_id = ");
    bind_integer(&mut statement, category_id);
    assert(statement_params(statement) =~= seq![ParamView::Integer(category_id as int)]);
    statement
}

/// The query for every category.
pub fn all_categories_statement() -> (r: Statement)
    ensures
        statement_sql(r) == categories_base(),
        statement_params(r) == Seq::<ParamView>::empty(),
{
    start("SELECT id, name FROM categories")
}

/// The query for the category with an id, which is bound.
pub fn category_by_id_statement(id: i32) -> (r: Statement)
    ensures
        statement_sql(r) == categories_base() + " WHERE id = "@ + placeholder(1),
        statement_params(r) == seq![ParamView::Integer(id as int)],
{
    let mut statement: Statement = all_categories_statement();
    push_sql(&mut statement, " WHERE id = ");
    bind_integer(&mut statement, id);
    assert(statement_params(statement) =~= seq![ParamView::Integer(id as int)]);
    statement
}

} // verus!
