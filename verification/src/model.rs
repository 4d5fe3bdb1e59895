//! The rows of the catalog: categories, products, and products joined with
//! the name of their category.

use crate::decimal::Decimal;
use crate::decimal::DecimalView;
use vstd::prelude::*;

verus! {

/// A category of products.
#[derive(Debug)]
pub struct Category {
    pub id: i32,
    pub name: String,
}

/// The content of a [`Category`].
pub struct CategoryView {
    pub id: int,
    pub name: Seq<char>,
}

impl View for Category {
    type V = CategoryView;

    open spec fn view(&self) -> CategoryView {
        CategoryView { id: self.id as int, name: self.name@ }
    }
}

impl Clone for Category {
    fn clone(&self) -> (r: Self)
        ensures
            r@ == self@,
    {
        Category { id: self.id, name: self.name.clone() }
    }
}

/// A product as it is stored.
#[derive(Debug)]
pub struct Product {
    pub id: i32,
    pub name: String,
    pub description: String,
    pub price: Decimal,
    pub is_best_seller: bool,
    pub is_deal_of_the_day: bool,
    pub discount: Decimal,
    pub category_id: i32,
}

/// The content of a [`Product`].
pub struct ProductView {
    pub id: int,
    pub name: Seq<char>,
    pub description: Seq<char>,
    pub price: DecimalView,
    pub is_best_seller: bool,
    pub is_deal_of_the_day: bool,
    pub discount: DecimalView,
    pub category_id: int,
}

impl View for Product {
    type V = ProductView;

    open spec fn view(&self) -> ProductView {
        ProductView {
            id: self.id as int,
            name: self.name@,
            description: self.description@,
            price: self.price@,
            is_best_seller: self.is_best_seller,
            is_deal_of_the_day: self.is_deal_of_the_day,
            discount: self.discount@,
            category_id: self.category_id as int,
        }
    }
}

impl Clone for Product {
    fn clone(&self) -> (r: Self)
        ensures
            r@ == self@,
    {
        Product {
            id: self.id,
            name: self.name.clone(),
            description: self.description.clone(),
            price: self.price.clone(),
            is_best_seller: self.is_best_seller,
            is_deal_of_the_day: self.is_deal_of_the_day,
            discount: self.discount.clone(),
            category_id: self.category_id,
        }
    }
}

/// A product together with the name of the category it belongs to. Such a
/// row exists only as the answer to a query that joins the two.
#[derive(Debug)]
pub struct ProductWithCategory {
    pub id: i32,
    pub name: String,
    pub description: String,
    pub price: Decimal,
    pub is_best_seller: bool,
    pub is_deal_of_the_day: bool,
    pub discount: Decimal,
    pub category_id: i32,
    pub category_name: String,
}

/// The content of a [`ProductWithCategory`].
pub struct ProductWithCategoryView {
    pub id: int,
    pub name: Seq<char>,
    pub description: Seq<char>,
    pub price: DecimalView,
    pub is_best_seller: bool,
    pub is_deal_of_the_day: bool,
    pub discount: DecimalView,
    pub category_id: int,
    pub category_name: Seq<char>,
}

impl View for ProductWithCategory {
    type V = ProductWithCategoryView;

    open spec fn view(&self) -> ProductWithCategoryView {
        ProductWithCategoryView {
            id: self.id as int,
            name: self.name@,
            description: self.description@,
            price: self.price@,
            is_best_seller: self.is_best_seller,
            is_deal_of_the_day: self.is_deal_of_the_day,
            discount: self.discount@,
            category_id: self.category_id as int,
            category_name: self.category_name@,
        }
    }
}

impl Clone for ProductWithCategory {
    fn clone(&self) -> (r: Self)
        ensures
            r@ == self@,
    {
        ProductWithCategory {
            id: self.id,
            name: self.name.clone(),
            description: self.description.clone(),
            price: self.price.clone(),
            is_best_seller: self.is_best_seller,
            is_deal_of_the_day: self.is_deal_of_the_day,
            discount: self.discount.clone(),
            category_id: self.category_id,
            category_name: self.category_name.clone(),
        }
    }
}

/// The joined row of a product and the name of its category.
pub open spec fn joined_row(product: ProductView, category_name: Seq<char>) -> ProductWithCategoryView {
    ProductWithCategoryView {
        id: product.id,
        name: product.name,
        description: product.description,
        price: product.price,
        is_best_seller: product.is_best_seller,
        is_deal_of_the_day: product.is_deal_of_the_day,
        discount: product.discount,
        category_id: product.category_id,
        category_name,
    }
}

/// The contents of a sequence of categories.
pub open spec fn category_views(rows: Seq<Category>) -> Seq<CategoryView> {
    Seq::new(rows.len(), |i: int| rows[i]@)
}

/// The contents of a sequence of products.
pub open spec fn product_views(rows: Seq<Product>) -> Seq<ProductView> {
    Seq::new(rows.len(), |i: int| rows[i]@)
}

/// The contents of a sequence of joined rows.
pub open spec fn joined_views(rows: Seq<ProductWithCategory>) -> Seq<ProductWithCategoryView> {
    Seq::new(rows.len(), |i: int| rows[i]@)
}

impl Product {
    /// The joined row of this product and the name of its category.
    pub fn with_category(&self, category_name: &str) -> (r: ProductWithCategory)
        ensures
            r@ == joined_row(self@, category_name@),
    {
        ProductWithCategory {
            id: self.id,
            name: self.name.clone(),
            description: self.description.clone(),
            price: self.price.clone(),
            is_best_seller: self.is_best_seller,
            is_deal_of_the_day: self.is_deal_of_the_day,
            discount: self.discount.clone(),
            category_id: self.category_id,
            category_name: category_name.to_owned(),
        }
    }
}

} // verus!
