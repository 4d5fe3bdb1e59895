use catalog::decimal::Decimal;
use catalog::model::ProductWithCategory;
use catalog::predicate::{all_hold, params, Param, Predicate};
use catalog::query::FilterQuery;
use catalog::sql::{
    all_categories_statement, all_products_statement, category_by_id_statement, filter_query,
    filter_statement, marked_products_statement, price_range_statement, product_by_id_statement,
    products_in_category_statement,
};
use catalog::store::Mark;

const PRODUCTS: &str = "SELECT id, name, description, price, is_best_seller, is_deal_of_the_day, discount, category_id FROM products";

const BASE: &str = "SELECT p.id, p.name, p.description, p.price, p.is_best_seller, p.is_deal_of_the_day, p.discount, p.category_id, c.name AS category_name FROM products p INNER JOIN categories c ON p.category_id = c.id WHERE 1=1";

fn decimal(text: &str) -> Decimal {
    Decimal::parse(text).expect("a decimal")
}

fn query(
    category: Option<&str>,
    best: Option<bool>,
    deal: Option<bool>,
    min: Option<&str>,
    max: Option<&str>,
) -> FilterQuery {
    FilterQuery {
        category: category.map(str::to_string),
        is_best_seller: best,
        is_deal_of_the_day: deal,
        min_price: min.map(str::to_string),
        max_price: max.map(str::to_string),
    }
}

fn sql_of(query: &FilterQuery) -> String {
    filter_statement(&query.predicates().expect("in range")).expect("bindable").sql()
}

#[test]
fn no_criterion_gives_the_base_query() {
    assert_eq!(sql_of(&FilterQuery::none()), BASE);
    assert!(FilterQuery::none().predicates().expect("in range").is_empty());
}

#[test]
fn every_criterion_gives_one_clause_in_fixed_order() {
    let q = query(Some("snack"), Some(true), Some(false), Some("1.50"), Some("20"));
    let expected = format!(
        "{BASE} AND c.name ILIKE $1 AND p.is_best_seller = $2 AND p.is_deal_of_the_day = $3 AND p.price >= $4 AND p.price <= $5"
    );
    assert_eq!(sql_of(&q), expected);
    let predicates = q.predicates().expect("in range");
    assert_eq!(predicates.len(), 5);
    assert!(matches!(&predicates[0], Predicate::CategoryContains(t) if t == "snack"));
    assert!(matches!(predicates[1], Predicate::BestSeller(true)));
    assert!(matches!(predicates[2], Predicate::DealOfTheDay(false)));
    assert!(matches!(&predicates[3], Predicate::MinPrice(d) if d.to_text() == "1.50"));
    assert!(matches!(&predicates[4], Predicate::MaxPrice(d) if d.to_text() == "20"));
}

#[test]
fn placeholders_count_the_criteria_that_are_there() {
    let q = query(None, None, Some(true), None, Some("7"));
    assert_eq!(sql_of(&q), format!("{BASE} AND p.is_deal_of_the_day = $1 AND p.price <= $2"));
    let q = query(Some(" "), None, None, Some("x"), Some("7"));
    assert_eq!(sql_of(&q), format!("{BASE} AND p.price <= $1"));
}

#[test]
fn values_never_enter_the_text() {
    let q = query(Some("'; DROP TABLE products; --"), None, None, None, None);
    assert_eq!(sql_of(&q), format!("{BASE} AND c.name ILIKE $1"));
    let bound = params(&q.predicates().expect("in range"));
    assert_eq!(bound.len(), 1);
    assert!(matches!(&bound[0], Param::Text(t) if t == "%'; DROP TABLE products; --%"));
}

#[test]
fn bound_values_follow_the_predicates() {
    let q = query(Some("tea"), Some(false), None, Some("2.5"), None);
    let bound = params(&q.predicates().expect("in range"));
    assert_eq!(bound.len(), 3);
    assert!(matches!(&bound[0], Param::Text(t) if t == "%tea%"));
    assert!(matches!(bound[1], Param::Flag(false)));
    assert!(matches!(&bound[2], Param::Number(d) if d.to_text() == "2.5"));
}

#[test]
fn many_predicates_number_their_placeholders_in_base_ten() {
    let mut predicates = Vec::new();
    for _ in 0..12 {
        predicates.push(Predicate::BestSeller(true));
    }
    let sql = filter_statement(&predicates).expect("bindable").sql();
    assert!(sql.ends_with(" AND p.is_best_seller = $10 AND p.is_best_seller = $11 AND p.is_best_seller = $12"));
    assert!(sql.contains(" = $9 AND"));
}

#[test]
fn a_statement_can_be_run_by_its_builder() {
    let predicates = vec![Predicate::MinPrice(decimal("-0.5")), Predicate::BestSeller(true)];
    let mut statement = filter_statement(&predicates).expect("bindable");
    assert_eq!(statement.inner.sql(), format!("{BASE} AND p.price >= $1 AND p.is_best_seller = $2"));
    let _query = statement.inner.build();
}

#[test]
fn predicates_decide_rows() {
    let row = ProductWithCategory {
        id: 1,
        name: "Green tea".to_string(),
        description: String::new(),
        price: decimal("4.20"),
        is_best_seller: true,
        is_deal_of_the_day: false,
        discount: decimal("0"),
        category_id: 2,
        category_name: "Beverages".to_string(),
    };
    assert!(Predicate::CategoryContains("BEV".to_string()).holds(&row));
    assert!(!Predicate::CategoryContains("snack".to_string()).holds(&row));
    assert!(Predicate::BestSeller(true).holds(&row));
    assert!(!Predicate::DealOfTheDay(true).holds(&row));
    assert!(Predicate::MinPrice(decimal("4.2")).holds(&row));
    assert!(!Predicate::MinPrice(decimal("4.21")).holds(&row));
    assert!(Predicate::MaxPrice(decimal("4.2")).holds(&row));
    assert!(!Predicate::MaxPrice(decimal("4.19")).holds(&row));
    assert!(all_hold(&vec![], &row));
    assert!(all_hold(&vec![Predicate::BestSeller(true), Predicate::MaxPrice(decimal("5"))], &row));
    assert!(!all_hold(&vec![Predicate::BestSeller(true), Predicate::MaxPrice(decimal("4"))], &row));
    assert!(Predicate::BestSeller(true).clone().holds(&row));
}

#[test]
fn a_category_is_bound_as_it_is_between_percent_signs() {
    for text in ["snack", "_", "50%_off\\", "\\", "  tea "] {
        let q = query(Some(text), None, None, None, None);
        assert_eq!(sql_of(&q), format!("{BASE} AND c.name ILIKE $1"));
        let bound = params(&q.predicates().expect("in range"));
        assert!(matches!(&bound[0], Param::Text(t) if *t == format!("%{text}%")));
    }
}

#[test]
fn a_bound_out_of_range_is_not_passed_over() {
    let q = query(None, None, None, Some("1e200000"), None);
    assert!(q.predicates().is_none());
    assert!(filter_query(&q).is_none());
    let q = query(Some("tea"), None, None, Some("1"), Some("1e-40000"));
    assert!(q.predicates().is_none());
    assert!(filter_query(&q).is_none());
    let q = query(None, None, None, Some("1e2000"), Some("nonsense"));
    assert_eq!(
        filter_query(&q).expect("askable").sql(),
        format!("{BASE} AND p.price >= $1")
    );
}

#[test]
fn a_query_is_the_statement_of_its_predicates() {
    let q = query(Some("tea"), None, Some(true), Some("oops"), Some("3"));
    let sql = filter_query(&q).expect("bindable").sql();
    assert_eq!(sql, format!("{BASE} AND c.name ILIKE $1 AND p.is_deal_of_the_day = $2 AND p.price <= $3"));
    assert_eq!(filter_query(&FilterQuery::none()).expect("bindable").sql(), BASE);
}

#[test]
fn fixed_queries() {
    assert_eq!(all_products_statement().sql(), PRODUCTS);
    assert_eq!(product_by_id_statement(7).sql(), format!("{PRODUCTS} WHERE id = $1"));
    assert_eq!(
        marked_products_statement(Mark::BestSeller, 10).sql(),
        format!("{PRODUCTS} WHERE is_best_seller = true LIMIT $1")
    );
    assert_eq!(
        marked_products_statement(Mark::DealOfTheDay, -1).sql(),
        format!("{PRODUCTS} WHERE is_deal_of_the_day = true LIMIT $1")
    );
    assert_eq!(
        price_range_statement(&decimal("1.5"), &decimal("2e2")).sql(),
        format!("{PRODUCTS} WHERE price BETWEEN $1 AND $2")
    );
    assert_eq!(
        products_in_category_statement(3).sql(),
        format!("{BASE} AND p.category_id = $1")
    );
    assert_eq!(all_categories_statement().sql(), "SELECT id, name FROM categories");
    assert_eq!(category_by_id_statement(1).sql(), "SELECT id, name FROM categories WHERE id = $1");
}
