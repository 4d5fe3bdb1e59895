//! The records that leave the catalog, and how rows become such records.
//!
//! Prices and discounts leave as text, digit for digit; the name of the
//! category is there exactly when the row came from a join.

use crate::decimal::decimal_text;
use crate::model::Category;
use crate::model::CategoryView;
use crate::model::Product;
use crate::model::ProductView;
use crate::model::ProductWithCategory;
use crate::model::ProductWithCategoryView;
use vstd::prelude::*;
use vstd::std_specs::convert::FromSpecImpl;

verus! {

/// A category as it is shown.
#[derive(Debug)]
pub struct CategoryDto {
    pub id: i32,
    pub name: String,
}

/// The content of a [`CategoryDto`].
pub struct CategoryDtoView {
    pub id: int,
    pub name: Seq<char>,
}

impl View for CategoryDto {
    type V = CategoryDtoView;

    open spec fn view(&self) -> CategoryDtoView {
        CategoryDtoView { id: self.id as int, name: self.name@ }
    }
}

/// The record of a category.
pub open spec fn category_dto(category: CategoryView) -> CategoryDtoView {
    CategoryDtoView { id: category.id, name: category.name }
}

impl FromSpecImpl<Category> for CategoryDto {
    open spec fn obeys_from_spec() -> bool {
        false
    }

    open spec fn from_spec(category: Category) -> CategoryDto {
        arbitrary()
    }
}

impl From<Category> for CategoryDto {
    fn from(category: Category) -> (r: CategoryDto)
        ensures
            r@ == category_dto(category@),
    {
        CategoryDto { id: category.id, name: category.name }
    }
}

/// A product as it is shown.
#[derive(Debug)]
pub struct ProductDto {
    pub id: i32,
    pub name: String,
    pub description: String,
    pub price: String,
    pub is_best_seller: bool,
    pub is_deal_of_the_day: bool,
    pub discount: String,
    pub category_id: i32,
    pub category_name: Option<String>,
}

/// The content of a [`ProductDto`].
pub struct ProductDtoView {
    pub id: int,
    pub name: Seq<char>,
    pub description: Seq<char>,
    pub price: Seq<char>,
    pub is_best_seller: bool,
    pub is_deal_of_the_day: bool,
    pub discount: Seq<char>,
    pub category_id: int,
    pub category_name: Option<Seq<char>>,
}

impl View for ProductDto {
    type V = ProductDtoView;

    open spec fn view(&self) -> ProductDtoView {
        ProductDtoView {
            id: self.id as int,
            name: self.name@,
            description: self.description@,
            price: self.price@,
            is_best_seller: self.is_best_seller,
            is_deal_of_the_day: self.is_deal_of_the_day,
            discount: self.discount@,
            category_id: self.category_id as int,
            category_name: match self.category_name {
                Some(name) => Some(name@),
                None => None,
            },
        }
    }
}

/// The record of a stored product: every field as it is, price and discount
/// as text, and no name of a category.
pub open spec fn product_dto(product: ProductView) -> ProductDtoView {
    ProductDtoView {
        id: product.id,
        name: product.name,
        description: product.description,
        price: decimal_text(product.price.unscaled, product.price.scale),
        is_best_seller: product.is_best_seller,
        is_deal_of_the_day: product.is_deal_of_the_day,
        discount: decimal_text(product.discount.unscaled, product.discount.scale),
        category_id: product.category_id,
        category_name: None,
    }
}

/// The record of a joined row: every field as it is, price and discount as
/// text, and the name of the category.
pub open spec fn joined_dto(row: ProductWithCategoryView) -> ProductDtoView {
    ProductDtoView {
        id: row.id,
        name: row.name,
        description: row.description,
        price: decimal_text(row.price.unscaled, row.price.scale),
        is_best_seller: row.is_best_seller,
        is_deal_of_the_day: row.is_deal_of_the_day,
        discount: decimal_text(row.discount.unscaled, row.discount.scale),
        category_id: row.category_id,
        category_name: Some(row.category_name),
    }
}

impl FromSpecImpl<Product> for ProductDto {
    open spec fn obeys_from_spec() -> bool {
        false
    }

    open spec fn from_spec(product: Product) -> ProductDto {
        arbitrary()
    }
}

impl From<Product> for ProductDto {
    fn from(product: Product) -> (r: ProductDto)
        ensures
            r@ == product_dto(product@),
            r.category_name is None,
    {
        ProductDto {
            id: product.id,
            name: product.name,
            description: product.description,
            price: product.price.to_text(),
            is_best_seller: product.is_best_seller,
            is_deal_of_the_day: product.is_deal_of_the_day,
            discount: product.discount.to_text(),
            category_id: product.category_id,
            category_name: None,
        }
    }
}

impl FromSpecImpl<ProductWithCategory> for ProductDto {
    open spec fn obeys_from_spec() -> bool {
        false
    }

    open spec fn from_spec(row: ProductWithCategory) -> ProductDto {
        arbitrary()
    }
}

impl From<ProductWithCategory> for ProductDto {
    fn from(row: ProductWithCategory) -> (r: ProductDto)
        ensures
            r@ == joined_dto(row@),
            r.category_name matches Some(name) && name@ == row.category_name@,
    {
        ProductDto {
            id: row.id,
            name: row.name,
            description: row.description,
            price: row.price.to_text(),
            is_best_seller: row.is_best_seller,
            is_deal_of_the_day: row.is_deal_of_the_day,
            discount: row.discount.to_text(),
            category_id: row.category_id,
            category_name: Some(row.category_name),
        }
    }
}

/// The contents of a sequence of product records.
pub open spec fn product_dto_views(records: Seq<ProductDto>) -> Seq<ProductDtoView> {
    Seq::new(records.len(), |i: int| records[i]@)
}

/// The contents of a sequence of category records.
pub open spec fn category_dto_views(records: Seq<CategoryDto>) -> Seq<CategoryDtoView> {
    Seq::new(records.len(), |i: int| records[i]@)
}

/// The records of a sequence of stored products, one for one.
pub open spec fn product_dtos(rows: Seq<ProductView>) -> Seq<ProductDtoView> {
    Seq::new(rows.len(), |i: int| product_dto(rows[i]))
}

/// The records of a sequence of joined rows, one for one.
pub open spec fn joined_dtos(rows: Seq<ProductWithCategoryView>) -> Seq<ProductDtoView> {
    Seq::new(rows.len(), |i: int| joined_dto(rows[i]))
}

/// The records of a sequence of categories, one for one.
pub open spec fn category_dtos(rows: Seq<CategoryView>) -> Seq<CategoryDtoView> {
    Seq::new(rows.len(), |i: int| category_dto(rows[i]))
}

} // verus!
