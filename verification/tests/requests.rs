use catalog::decimal::Decimal;
use catalog::dto::{CategoryDto, ProductDto};
use catalog::error::{AppError, StoreError};
use catalog::model::{Category, Product, ProductWithCategory};
use catalog::query::{BestSellerQuery, PriceRangeQuery, DEFAULT_LIMIT};
use catalog::service::{
    categories_response, category_response, joined_response, product_response, products_response,
    ProductService,
};
use catalog::store::Store;

fn decimal(text: &str) -> Decimal {
    Decimal::parse(text).expect("a decimal")
}

fn product(id: i32, price: &str) -> Product {
    Product {
        id,
        name: "name".to_string(),
        description: "text".to_string(),
        price: decimal(price),
        is_best_seller: false,
        is_deal_of_the_day: true,
        discount: decimal("1.5"),
        category_id: 3,
    }
}

fn range(min: &str, max: &str) -> PriceRangeQuery {
    PriceRangeQuery { min_price: min.to_string(), max_price: max.to_string() }
}

#[test]
fn limit_defaults_to_ten() {
    assert_eq!(DEFAULT_LIMIT, 10);
    assert_eq!(BestSellerQuery { limit: None }.effective_limit(), 10);
    assert_eq!(BestSellerQuery { limit: Some(3) }.effective_limit(), 3);
    assert_eq!(BestSellerQuery { limit: Some(-1) }.effective_limit(), -1);
}

#[test]
fn strict_bounds_are_parsed() {
    let (min, max) = range("10.5", "50.0").bounds().ok().expect("bounds");
    assert_eq!(min.to_text(), "10.5");
    assert_eq!(max.to_text(), "50.0");
}

#[test]
fn strict_bounds_refuse_malformed_text() {
    match range("ten", "50") .bounds() {
        Err(AppError::ValidationError(text)) => assert_eq!(text, "min_price is not a decimal number"),
        _ => panic!("expected an error of validation"),
    }
    match range("10", "") .bounds() {
        Err(AppError::ValidationError(text)) => assert_eq!(text, "max_price is not a decimal number"),
        _ => panic!("expected an error of validation"),
    }
    match range("x", "y") .bounds() {
        Err(AppError::ValidationError(text)) => assert_eq!(text, "min_price is not a decimal number"),
        _ => panic!("expected an error of validation"),
    }
}

#[test]
fn strict_bounds_refuse_numbers_out_of_range() {
    match range("1e200000", "50").bounds() {
        Err(AppError::ValidationError(text)) => assert_eq!(text, "min_price is out of range"),
        _ => panic!("expected an error of validation"),
    }
    match range("1", "1e-40000").bounds() {
        Err(AppError::ValidationError(text)) => assert_eq!(text, "max_price is out of range"),
        _ => panic!("expected an error of validation"),
    }
    match range("1e200000", "nonsense").bounds() {
        Err(AppError::ValidationError(text)) => assert_eq!(text, "min_price is out of range"),
        _ => panic!("expected an error of validation"),
    }
}

#[test]
fn strict_price_range_of_the_service() {
    let store = Store::new(vec![], vec![product(1, "5"), product(2, "15"), product(3, "25")])
        .expect("distinct ids");
    let service = ProductService::create_service(store);
    let records = service.get_products_in_price_range(&range("5", "15.00")).ok().expect("records");
    assert_eq!(records.iter().map(|r| r.id).collect::<Vec<_>>(), vec![1, 2]);
    let records = service.get_products_in_price_range(&range("20", "10")).ok().expect("records");
    assert!(records.is_empty());
    match service.get_products_in_price_range(&range("abc", "10")) {
        Err(AppError::ValidationError(_)) => {}
        _ => panic!("expected an error of validation"),
    }
    let records =
        service.get_products_by_price_range(decimal("25"), decimal("25")).ok().expect("records");
    assert_eq!(records.iter().map(|r| r.id).collect::<Vec<_>>(), vec![3]);
    let all = service.get_products().ok().expect("records");
    assert_eq!(all.len(), 3);
}

#[test]
fn a_product_becomes_a_record_without_category_name() {
    let record = ProductDto::from(product(7, "12.340"));
    assert_eq!(record.id, 7);
    assert_eq!(record.name, "name");
    assert_eq!(record.description, "text");
    assert_eq!(record.price, "12.340");
    assert!(!record.is_best_seller);
    assert!(record.is_deal_of_the_day);
    assert_eq!(record.discount, "1.5");
    assert_eq!(record.category_id, 3);
    assert_eq!(record.category_name, None);
}

#[test]
fn a_joined_row_becomes_a_record_with_category_name() {
    let row = product(7, "0.99").with_category("Snacks");
    assert_eq!(row.category_name, "Snacks");
    let copy: ProductWithCategory = row.clone();
    let record = ProductDto::from(row);
    assert_eq!(record.id, copy.id);
    assert_eq!(record.price, "0.99");
    assert_eq!(record.category_name, Some("Snacks".to_string()));
}

#[test]
fn a_category_becomes_a_record() {
    let record = CategoryDto::from(Category { id: 4, name: "Dairy".to_string() });
    assert_eq!(record.id, 4);
    assert_eq!(record.name, "Dairy");
}

#[test]
fn responses_pass_faults_on_as_database_errors() {
    let fault = || StoreError { detail: "connection lost".to_string() };
    match product_response(Err(fault())) {
        Err(AppError::DatabaseError(cause)) => assert_eq!(cause.detail, "connection lost"),
        _ => panic!("expected a failure of the database"),
    }
    assert!(matches!(products_response(Err(fault())), Err(AppError::DatabaseError(_))));
    assert!(matches!(joined_response(Err(fault())), Err(AppError::DatabaseError(_))));
    assert!(matches!(category_response(Err(fault())), Err(AppError::DatabaseError(_))));
    assert!(matches!(categories_response(Err(fault())), Err(AppError::DatabaseError(_))));
}

#[test]
fn responses_map_rows_to_records() {
    assert!(matches!(product_response(Ok(None)), Err(AppError::NotFound(t)) if t == "Product not found"));
    assert!(matches!(category_response(Ok(None)), Err(AppError::NotFound(t)) if t == "Category not found"));
    let record = product_response(Ok(Some(product(5, "1")))).ok().expect("a record");
    assert_eq!(record.id, 5);
    let records = products_response(Ok(vec![product(1, "1"), product(2, "2")])).ok().expect("records");
    assert_eq!(records.iter().map(|r| r.price.clone()).collect::<Vec<_>>(), vec!["1", "2"]);
    assert!(products_response(Ok(vec![])).ok().expect("records").is_empty());
    let rows = vec![product(1, "1").with_category("A"), product(2, "2").with_category("B")];
    let records = joined_response(Ok(rows)).ok().expect("records");
    assert_eq!(records[1].category_name, Some("B".to_string()));
    let records = categories_response(Ok(vec![Category { id: 1, name: "A".to_string() }]))
        .ok()
        .expect("records");
    assert_eq!(records[0].name, "A");
}

#[test]
fn messages_hold_nothing_of_the_cause() {
    let error = AppError::DatabaseError(StoreError { detail: "relation \"products\" does not exist".to_string() });
    assert_eq!(error.message(), "Database error");
    assert_eq!(AppError::InternalError.message(), "Internal server error");
    assert_eq!(AppError::NotFound("Product not found".to_string()).message(), "Product not found");
    assert_eq!(AppError::ValidationError("bad".to_string()).message(), "bad");
}
