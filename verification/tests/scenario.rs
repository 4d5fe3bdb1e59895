use catalog::decimal::Decimal;
use catalog::dto::ProductDto;
use catalog::error::AppError;
use catalog::model::{Category, Product, ProductWithCategory};
use catalog::repository::{CategoryRepo, ProductRepo};
use catalog::service::{CategoryService, ProductService};
use catalog::store::Store;

fn decimal(text: &str) -> Decimal {
    Decimal::parse(text).expect("a decimal")
}

fn product(id: i32, price: &str, category_id: i32, best: bool, deal: bool) -> Product {
    Product {
        id,
        name: format!("product {id}"),
        description: format!("description {id}"),
        price: decimal(price),
        is_best_seller: best,
        is_deal_of_the_day: deal,
        discount: decimal("0.10"),
        category_id,
    }
}

fn snacks() -> Store {
    let categories = vec![Category { id: 1, name: "Snacks".to_string() }];
    let products = vec![product(10, "9.99", 1, true, false), product(11, "25.00", 1, false, false)];
    Store::new(categories, products).expect("distinct ids")
}

fn ids(rows: &[Product]) -> Vec<i32> {
    rows.iter().map(|p| p.id).collect()
}

fn joined_ids(rows: &[ProductWithCategory]) -> Vec<i32> {
    rows.iter().map(|p| p.id).collect()
}

fn dto_ids(rows: &[ProductDto]) -> Vec<i32> {
    rows.iter().map(|p| p.id).collect()
}

#[test]
fn best_sellers_of_the_snack_store() {
    let service = ProductService::create_service(snacks());
    let records = service.get_best_sellers(5).ok().expect("records");
    assert_eq!(dto_ids(&records), vec![10]);
    assert_eq!(records[0].price, "9.99");
    assert_eq!(records[0].category_name, None);
}

#[test]
fn filter_by_category_and_min_price() {
    let store = snacks();
    let rows = ProductRepo
        .find_by_filter(&store, Some("snack".to_string()), None, None, Some("10.00".to_string()), None)
        .ok()
        .expect("rows");
    assert_eq!(joined_ids(&rows), vec![11]);
    assert_eq!(rows[0].category_name, "Snacks");
}

#[test]
fn filter_without_criteria_is_the_whole_join() {
    let categories = vec![
        Category { id: 1, name: "Snacks".to_string() },
        Category { id: 2, name: "Beverages".to_string() },
    ];
    let products = vec![
        product(1, "1.00", 1, false, false),
        product(2, "2.00", 7, true, true),
        product(3, "3.00", 2, false, true),
    ];
    let store = Store::new(categories, products).expect("distinct ids");
    let rows = ProductRepo.find_by_filter(&store, None, None, None, None, None).ok().expect("rows");
    assert_eq!(joined_ids(&rows), vec![1, 3]);
    assert_eq!(rows[1].category_name, "Beverages");
    let all = ProductRepo.find_all(&store).ok().expect("rows");
    assert_eq!(ids(&all), vec![1, 2, 3]);
}

#[test]
fn category_filter_ignores_case_and_finds_a_part() {
    let categories = vec![
        Category { id: 1, name: "Snacks".to_string() },
        Category { id: 2, name: "Beverages".to_string() },
    ];
    let products = vec![product(1, "1.00", 1, false, false), product(3, "3.00", 2, false, true)];
    let store = Store::new(categories, products).expect("distinct ids");
    let rows = ProductRepo
        .find_by_filter(&store, Some("bev".to_string()), None, None, None, None)
        .ok()
        .expect("rows");
    assert_eq!(joined_ids(&rows), vec![3]);
    let rows = ProductRepo
        .find_by_filter(&store, Some("RAGE".to_string()), None, None, None, None)
        .ok()
        .expect("rows");
    assert_eq!(joined_ids(&rows), vec![3]);
    let rows = ProductRepo
        .find_by_filter(&store, Some("tea".to_string()), None, None, None, None)
        .ok()
        .expect("rows");
    assert!(rows.is_empty());
}

#[test]
fn blank_category_counts_as_missing() {
    let store = snacks();
    for blank in ["", "   ", "\t\n", "\u{3000}"] {
        let rows = ProductRepo
            .find_by_filter(&store, Some(blank.to_string()), None, None, None, None)
            .ok()
            .expect("rows");
        assert_eq!(joined_ids(&rows), vec![10, 11]);
    }
}

#[test]
fn malformed_bounds_are_ignored_by_the_filter() {
    let store = snacks();
    let rows = ProductRepo
        .find_by_filter(&store, None, None, None, Some("ten".to_string()), Some("".to_string()))
        .ok()
        .expect("rows");
    assert_eq!(joined_ids(&rows), vec![10, 11]);
    let rows = ProductRepo
        .find_by_filter(&store, None, None, None, Some("abc".to_string()), Some("10".to_string()))
        .ok()
        .expect("rows");
    assert_eq!(joined_ids(&rows), vec![10]);
}

#[test]
fn flags_filter() {
    let store = snacks();
    let rows =
        ProductRepo.find_by_filter(&store, None, Some(false), None, None, None).ok().expect("rows");
    assert_eq!(joined_ids(&rows), vec![11]);
    let rows =
        ProductRepo.find_by_filter(&store, None, None, Some(true), None, None).ok().expect("rows");
    assert!(rows.is_empty());
}

#[test]
fn price_range_is_inclusive() {
    let store = snacks();
    let rows =
        ProductRepo.find_by_price_range(&store, decimal("9.99"), decimal("25")).ok().expect("rows");
    assert_eq!(ids(&rows), vec![10, 11]);
    let rows =
        ProductRepo.find_by_price_range(&store, decimal("10"), decimal("24.999")).ok().expect("rows");
    assert!(rows.is_empty());
    let rows =
        ProductRepo.find_by_price_range(&store, decimal("9.990"), decimal("9.99")).ok().expect("rows");
    assert_eq!(ids(&rows), vec![10]);
}

#[test]
fn price_range_with_min_above_max_is_empty() {
    let store = snacks();
    let rows =
        ProductRepo.find_by_price_range(&store, decimal("30"), decimal("5")).ok().expect("rows");
    assert!(rows.is_empty());
}

#[test]
fn product_by_id() {
    let service = ProductService::create_service(snacks());
    let record = service.get_product_by_id(11).ok().expect("a record");
    assert_eq!(record.id, 11);
    assert_eq!(record.price, "25.00");
    assert_eq!(record.discount, "0.10");
    assert_eq!(record.category_id, 1);
    assert_eq!(record.category_name, None);
    match service.get_product_by_id(12) {
        Err(AppError::NotFound(text)) => assert_eq!(text, "Product not found"),
        _ => panic!("expected not found"),
    }
}

#[test]
fn products_by_category_carry_its_name() {
    let service = ProductService::create_service(snacks());
    let records = service.get_products_by_category_id(1).ok().expect("records");
    assert_eq!(dto_ids(&records), vec![10, 11]);
    assert_eq!(records[0].category_name, Some("Snacks".to_string()));
    let records = service.get_products_by_category_id(2).ok().expect("records");
    assert!(records.is_empty());
}

#[test]
fn limits() {
    let categories = vec![];
    let products = vec![
        product(1, "1", 1, true, true),
        product(2, "2", 1, true, false),
        product(3, "3", 1, true, true),
    ];
    let store = Store::new(categories, products).expect("distinct ids");
    assert_eq!(ids(&ProductRepo.find_best_sellers(&store, 2).ok().expect("rows")), vec![1, 2]);
    assert_eq!(ids(&ProductRepo.find_best_sellers(&store, 10).ok().expect("rows")), vec![1, 2, 3]);
    assert!(ProductRepo.find_best_sellers(&store, 0).ok().expect("rows").is_empty());
    assert_eq!(ids(&ProductRepo.find_deals_of_the_day(&store, 1).ok().expect("rows")), vec![1]);
    assert_eq!(ids(&ProductRepo.find_deals_of_the_day(&store, 5).ok().expect("rows")), vec![1, 3]);
    match ProductRepo.find_best_sellers(&store, -1) {
        Err(fault) => assert_eq!(fault.detail, "LIMIT must not be negative"),
        Ok(_) => panic!("expected a fault"),
    }
    let service = ProductService::create_service(store);
    match service.get_deals_of_the_day(-3) {
        Err(AppError::DatabaseError(fault)) => assert_eq!(fault.detail, "LIMIT must not be negative"),
        _ => panic!("expected a failure of the database"),
    }
}

#[test]
fn duplicate_ids_are_refused() {
    let categories = vec![
        Category { id: 1, name: "a".to_string() },
        Category { id: 1, name: "b".to_string() },
    ];
    assert!(Store::new(categories, vec![]).is_none());
    let products = vec![product(4, "1", 1, false, false), product(4, "2", 1, false, false)];
    assert!(Store::new(vec![], products).is_none());
}

#[test]
fn categories() {
    let service = CategoryService::create_service(snacks());
    let all = service.get_categories().ok().expect("records");
    assert_eq!(all.len(), 1);
    assert_eq!(all[0].name, "Snacks");
    assert_eq!(service.get_category_by_id(1).ok().expect("a record").id, 1);
    match service.get_category_by_id(9) {
        Err(AppError::NotFound(text)) => assert_eq!(text, "Category not found"),
        _ => panic!("expected not found"),
    }
    let store = snacks();
    assert!(CategoryRepo.find_by_id(&store, 2).ok().expect("an answer").is_none());
}

#[test]
fn category_filter_ignores_the_case_of_every_letter() {
    let categories = vec![
        Category { id: 1, name: "épicerie".to_string() },
        Category { id: 2, name: "Crème & Co".to_string() },
        Category { id: 3, name: "100% juice".to_string() },
    ];
    let products = vec![
        product(1, "1.00", 1, false, false),
        product(2, "2.00", 2, false, false),
        product(3, "3.00", 3, false, false),
    ];
    let store = Store::new(categories, products).expect("distinct ids");
    let find = |text: &str| {
        let rows = ProductRepo
            .find_by_filter(&store, Some(text.to_string()), None, None, None, None)
            .ok()
            .expect("rows");
        joined_ids(&rows)
    };
    assert_eq!(find("É"), vec![1]);
    assert_eq!(find("ÉPICERIE"), vec![1]);
    assert_eq!(find("crÈme"), vec![2]);
    assert_eq!(find("E"), vec![1, 2, 3]);
    assert_eq!(find("%"), vec![1, 2, 3]);
    assert_eq!(find("_"), vec![1, 2, 3]);
    assert_eq!(find("\\%"), vec![3]);
    assert_eq!(find("1__%"), vec![3]);
    assert_eq!(find("c_è"), vec![2]);
}

#[test]
fn a_search_with_a_bound_out_of_range_is_a_fault() {
    let store = snacks();
    match ProductRepo.find_by_filter(&store, None, None, None, Some("1e200000".to_string()), None) {
        Err(fault) => assert_eq!(fault.detail, "a value of the search is beyond what the store takes"),
        Ok(_) => panic!("expected a fault"),
    }
    match ProductRepo.find_by_filter(&store, None, None, None, None, Some("1e-40000".to_string())) {
        Err(fault) => assert_eq!(fault.detail, "a value of the search is beyond what the store takes"),
        Ok(_) => panic!("expected a fault"),
    }
}
