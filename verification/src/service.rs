//! What the catalog answers to its callers: records, or a failure of a kind
//! the caller can act on.
//!
//! A lookup of one entity that finds nothing fails as not found; a listing
//! that finds nothing succeeds with no records. A fault of the store is
//! passed on as a failure of the database, whatever was asked.

use crate::decimal::Decimal;
use crate::dto::category_dto;
use crate::dto::category_dto_views;
use crate::dto::category_dtos;
use crate::dto::joined_dto;
use crate::dto::joined_dtos;
use crate::dto::product_dto;
use crate::dto::product_dto_views;
use crate::dto::product_dtos;
use crate::dto::CategoryDto;
use crate::dto::ProductDto;
use crate::error::AppError;
use crate::error::StoreError;
use crate::model::category_views;
use crate::model::joined_views;
use crate::model::product_views;
use crate::model::Category;
use crate::model::Product;
use crate::model::ProductWithCategory;
use crate::query::range_bounds;
use crate::query::PriceRangeQuery;
use crate::repository::negative_limit;
use crate::repository::CategoryRepo;
use crate::repository::ProductRepo;
use crate::store::best_sellers;
use crate::store::category_with_id;
use crate::store::deals_of_the_day;
use crate::store::joined_in_category;
use crate::store::lemma_product_with_id;
use crate::store::product_with_id;
use crate::store::products_priced_within;
use crate::store::Store;
use vstd::prelude::*;

verus! {

/// What is reported of a product that is not there.
pub open spec fn product_not_found() -> Seq<char> {
    "Product not found"@
}

/// What is reported of a category that is not there.
pub open spec fn category_not_found() -> Seq<char> {
    "Category not found"@
}

/// The records of stored products, one for one.
fn product_records(rows: &Vec<Product>) -> (r: Vec<ProductDto>)
    ensures
        product_dto_views(r@) == product_dtos(product_views(rows@)),
{
    let mut out: Vec<ProductDto> = Vec::new();
    let mut i: usize = 0;
    while i < rows.len()
        invariant
            i <= rows.len(),
            out.len() == i,
            forall|j: int| 0 <= j < i ==> (#[trigger] out@[j])@ == product_dto(rows@[j]@),
        decreases rows.len() - i,
    {
        out.push(ProductDto::from(rows[i].clone()));
        i += 1;
    }
    assert(product_dto_views(out@) =~= product_dtos(product_views(rows@)));
    out
}

/// The records of joined rows, one for one.
fn joined_records(rows: &Vec<ProductWithCategory>) -> (r: Vec<ProductDto>)
    ensures
        product_dto_views(r@) == joined_dtos(joined_views(rows@)),
{
    let mut out: Vec<ProductDto> = Vec::new();
    let mut i: usize = 0;
    while i < rows.len()
        invariant
            i <= rows.len(),
            out.len() == i,
            forall|j: int| 0 <= j < i ==> (#[trigger] out@[j])@ == joined_dto(rows@[j]@),
        decreases rows.len() - i,
    {
        out.push(ProductDto::from(rows[i].clone()));
        i += 1;
    }
    assert(product_dto_views(out@) =~= joined_dtos(joined_views(rows@)));
    out
}

/// The records of categories, one for one.
fn category_records(rows: &Vec<Category>) -> (r: Vec<CategoryDto>)
    ensures
        category_dto_views(r@) == category_dtos(category_views(rows@)),
{
    let mut out: Vec<CategoryDto> = Vec::new();
    let mut i: usize = 0;
    while i < rows.len()
        invariant
            i <= rows.len(),
            out.len() == i,
            forall|j: int| 0 <= j < i ==> (#[trigger] out@[j])@ == category_dto(rows@[j]@),
        decreases rows.len() - i,
    {
        out.push(CategoryDto::from(rows[i].clone()));
        i += 1;
    }
    assert(category_dto_views(out@) =~= category_dtos(category_views(rows@)));
    out
}

/// The answer to a lookup of one product, given what the repository
/// returned: the record of the product; not found, where there was none; a
/// failure of the database, where the store failed.
pub fn product_response(found: Result<Option<Product>, StoreError>) -> (r: Result<
    ProductDto,
    AppError,
>)
    ensures
        match found {
            Ok(Some(product)) => r matches Ok(record) && record@ == product_dto(product@),
            Ok(None) => r matches Err(AppError::NotFound(text)) && text@ == product_not_found(),
            Err(fault) => r matches Err(AppError::DatabaseError(cause)) && cause.detail@
                == fault.detail@,
        },
{
    match found {
        Ok(Some(product)) => Ok(ProductDto::from(product)),
        Ok(None) => Err(AppError::NotFound("Product not found".to_owned())),
        Err(fault) => Err(AppError::DatabaseError(fault)),
    }
}

/// The answer to a listing of stored products, given what the repository
/// returned: a record for each row, in the order of the rows; a failure of
/// the database, where the store failed.
pub fn products_response(rows: Result<Vec<Product>, StoreError>) -> (r: Result<
    Vec<ProductDto>,
    AppError,
>)
    ensures
        match rows {
            Ok(rows) => r matches Ok(records) && product_dto_views(records@) == product_dtos(
                product_views(rows@),
            ),
            Err(fault) => r matches Err(AppError::DatabaseError(cause)) && cause.detail@
                == fault.detail@,
        },
{
    match rows {
        Ok(rows) => Ok(product_records(&rows)),
        Err(fault) => Err(AppError::DatabaseError(fault)),
    }
}

/// The answer to a listing of joined rows, given what the repository
/// returned: a record for each row, in the order of the rows; a failure of
/// the database, where the store failed.
pub fn joined_response(rows: Result<Vec<ProductWithCategory>, StoreError>) -> (r: Result<
    Vec<ProductDto>,
    AppError,
>)
    ensures
        match rows {
            Ok(rows) => r matches Ok(records) && product_dto_views(records@) == joined_dtos(
                joined_views(rows@),
            ),
            Err(fault) => r matches Err(AppError::DatabaseError(cause)) && cause.detail@
                == fault.detail@,
        },
{
    match rows {
        Ok(rows) => Ok(joined_records(&rows)),
        Err(fault) => Err(AppError::DatabaseError(fault)),
    }
}

/// The answer to a lookup of one category, given what the repository
/// returned.
pub fn category_response(found: Result<Option<Category>, StoreError>) -> (r: Result<
    CategoryDto,
    AppError,
>)
    ensures
        match found {
            Ok(Some(category)) => r matches Ok(record) && record@ == category_dto(category@),
            Ok(None) => r matches Err(AppError::NotFound(text)) && text@ == category_not_found(),
            Err(fault) => r matches Err(AppError::DatabaseError(cause)) && cause.detail@
                == fault.detail@,
        },
{
    match found {
        Ok(Some(category)) => Ok(CategoryDto::from(category)),
        Ok(None) => Err(AppError::NotFound("Category not found".to_owned())),
        Err(fault) => Err(AppError::DatabaseError(fault)),
    }
}

/// The answer to a listing of categories, given what the repository
/// returned.
pub fn categories_response(rows: Result<Vec<Category>, StoreError>) -> (r: Result<
    Vec<CategoryDto>,
    AppError,
>)
    ensures
        match rows {
            Ok(rows) => r matches Ok(records) && category_dto_views(records@) == category_dtos(
                category_views(rows@),
            ),
            Err(fault) => r matches Err(AppError::DatabaseError(cause)) && cause.detail@
                == fault.detail@,
        },
{
    match rows {
        Ok(rows) => Ok(category_records(&rows)),
        Err(fault) => Err(AppError::DatabaseError(fault)),
    }
}

/// The product service over a snapshot of the catalog.
pub struct ProductService {
    pub store: Store,
    pub repo: ProductRepo,
}

impl ProductService {
    /// The service over this snapshot.
    pub fn create_service(store: Store) -> (r: ProductService)
        ensures
            r.store@ == store@,
    {
        ProductService { store, repo: ProductRepo }
    }

    /// The record of the product with this id; not found where there is
    /// none. The record of a product that is found carries the id asked for.
    pub fn get_product_by_id(&self, id: i32) -> (r: Result<ProductDto, AppError>)
        ensures
            match product_with_id(self.store@.products, id as int) {
                Some(product) => r matches Ok(record) && record@ == product_dto(product)
                    && record.id == id,
                None => r matches Err(AppError::NotFound(text)) && text@ == product_not_found(),
            },
    {
        let found = self.repo.find_by_id(&self.store, id);
        proof {
            lemma_product_with_id(self.store@.products, id as int);
        }
        product_response(found)
    }

    /// The records of all products.
    pub fn get_products(&self) -> (r: Result<Vec<ProductDto>, AppError>)
        ensures
            r matches Ok(records) && product_dto_views(records@) == product_dtos(
                self.store@.products,
            ),
    {
        products_response(self.repo.find_all(&self.store))
    }

    /// The records of the products of one category, each with the name of
    /// the category.
    pub fn get_products_by_category_id(&self, category_id: i32) -> (r: Result<
        Vec<ProductDto>,
        AppError,
    >)
        ensures
            r matches Ok(records) && product_dto_views(records@) == joined_dtos(
                joined_in_category(self.store@, category_id as int),
            ),
    {
        joined_response(self.repo.find_by_category_id(&self.store, category_id))
    }

    /// The records of the first `limit` best sellers. A limit below zero is
    /// refused by the store.
    pub fn get_best_sellers(&self, limit: i64) -> (r: Result<Vec<ProductDto>, AppError>)
        ensures
            match r {
                Ok(records) => limit >= 0 && product_dto_views(records@) == product_dtos(
                    best_sellers(self.store@, limit as int),
                ),
                Err(AppError::DatabaseError(cause)) => limit < 0 && cause.detail@
                    == negative_limit(),
                Err(_) => false,
            },
    {
        products_response(self.repo.find_best_sellers(&self.store, limit))
    }

    /// The records of the first `limit` deals of the day. A limit below zero
    /// is refused by the store.
    pub fn get_deals_of_the_day(&self, limit: i64) -> (r: Result<Vec<ProductDto>, AppError>)
        ensures
            match r {
                Ok(records) => limit >= 0 && product_dto_views(records@) == product_dtos(
                    deals_of_the_day(self.store@, limit as int),
                ),
                Err(AppError::DatabaseError(cause)) => limit < 0 && cause.detail@
                    == negative_limit(),
                Err(_) => false,
            },
    {
        products_response(self.repo.find_deals_of_the_day(&self.store, limit))
    }

    /// The records of the products whose price lies between the bounds, both
    /// included.
    pub fn get_products_by_price_range(&self, min_price: Decimal, max_price: Decimal) -> (r: Result<
        Vec<ProductDto>,
        AppError,
    >)
        ensures
            r matches Ok(records) && product_dto_views(records@) == product_dtos(
                products_priced_within(self.store@, min_price@, max_price@),
            ),
    {
        products_response(self.repo.find_by_price_range(&self.store, min_price, max_price))
    }

    /// The records of the products whose price lies between the bounds of
    /// the query, both included. A bound that is no decimal, or one beyond
    /// the sizes of a decimal, is an error of validation, the lower bound's
    /// first.
    pub fn get_products_in_price_range(&self, query: &PriceRangeQuery) -> (r: Result<
        Vec<ProductDto>,
        AppError,
    >)
        ensures
            match range_bounds(query.min_price@, query.max_price@) {
                Ok((min, max)) => r matches Ok(records) && product_dto_views(records@)
                    == product_dtos(products_priced_within(self.store@, min, max)),
                Err(report) => r matches Err(AppError::ValidationError(text)) && text@ == report,
            },
    {
        match query.bounds() {
            Ok((min, max)) => self.get_products_by_price_range(min, max),
            Err(error) => Err(error),
        }
    }
}

/// The category service over a snapshot of the catalog.
pub struct CategoryService {
    pub store: Store,
    pub repo: CategoryRepo,
}

impl CategoryService {
    /// The service over this snapshot.
    pub fn create_service(store: Store) -> (r: CategoryService)
        ensures
            r.store@ == store@,
    {
        CategoryService { store, repo: CategoryRepo }
    }

    /// The record of the category with this id; not found where there is
    /// none.
    pub fn get_category_by_id(&self, id: i32) -> (r: Result<CategoryDto, AppError>)
        ensures
            match category_with_id(self.store@.categories, id as int) {
                Some(category) => r matches Ok(record) && record@ == category_dto(category),
                None => r matches Err(AppError::NotFound(text)) && text@ == category_not_found(),
            },
    {
        category_response(self.repo.find_by_id(&self.store, id))
    }

    /// The records of all categories.
    pub fn get_categories(&self) -> (r: Result<Vec<CategoryDto>, AppError>)
        ensures
            r matches Ok(records) && category_dto_views(records@) == category_dtos(
                self.store@.categories,
            ),
    {
        categories_response(self.repo.find_all(&self.store))
    }
}

} // verus!
