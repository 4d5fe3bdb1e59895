//! The queries of the catalog, answered from a snapshot of it.
//!
//! Each query returns rows or a fault of the store. That nothing was found is
//! no fault: it is an empty answer.
//!
//! The store itself is asked with the statements of [`crate::sql`]:
//! `find_all` goes with `all_products_statement`, `find_by_id` with
//! `product_by_id_statement`, `find_by_category_id` with
//! `products_in_category_statement`, the two listings by mark with
//! `marked_products_statement`, `find_by_price_range` with
//! `price_range_statement` and `find_by_filter` with `filter_query`. What the
//! store makes of a statement is not stated here. In particular no statement
//! orders its rows: the rows here come in the order of the snapshot, and of
//! a limited listing the store may return others than the first.

use crate::decimal::Decimal;
use crate::error::StoreError;
use crate::model::category_views;
use crate::model::joined_views;
use crate::model::product_views;
use crate::model::Category;
use crate::model::Product;
use crate::model::ProductWithCategory;
use crate::predicate::all_hold;
use crate::predicate::predicate_views;
use crate::predicate::Predicate;
use crate::query::filter_predicates;
use crate::sql::askable;
use crate::sql::can_bind;
use crate::query::FilterQuery;
use crate::query::FilterQueryView;
use crate::query::text_view;
use crate::store::all_joined;
use crate::store::at_most;
use crate::store::best_sellers;
use crate::store::category_with_id;
use crate::store::deals_of_the_day;
use crate::store::distinct_category_ids;
use crate::store::distinct_product_ids;
use crate::store::in_category;
use crate::store::carries;
use crate::store::marked;
use crate::store::Mark;
use crate::store::join;
use crate::store::joined_in_category;
use crate::store::joined_satisfying;
use crate::store::lemma_category_found;
use crate::store::lemma_filter_none;
use crate::store::lemma_filter_step;
use crate::store::lemma_join_step;
use crate::store::lemma_product_found;
use crate::store::priced_within;
use crate::store::product_with_id;
use crate::store::products_priced_within;
use crate::store::satisfies;
use crate::store::Store;
use vstd::prelude::*;

verus! {

/// What is reported of a limit below zero.
pub open spec fn negative_limit() -> Seq<char> {
    "LIMIT must not be negative"@
}

/// What is reported of a search with a value that the store does not take.
pub open spec fn beyond_the_store() -> Seq<char> {
    "a value of the search is beyond what the store takes"@
}

/// The category with this id among the rows, where there is one.
fn find_category(rows: &Vec<Category>, id: i32) -> (r: Option<&Category>)
    requires
        distinct_category_ids(category_views(rows@)),
    ensures
        match r {
            Some(category) => category_with_id(category_views(rows@), id as int) == Some(
                category@,
            ),
            None => category_with_id(category_views(rows@), id as int) is None,
        },
{
    let ghost views = category_views(rows@);
    let mut i: usize = 0;
    while i < rows.len()
        invariant
            i <= rows.len(),
            views == category_views(rows@),
            distinct_category_ids(views),
            forall|j: int| 0 <= j < i ==> views[j].id != id,
        decreases rows.len() - i,
    {
        if rows[i].id == id {
            proof {
                lemma_category_found(views, i as int);
            }
            return Some(&rows[i]);
        }
        i += 1;
    }
    None
}

/// Every joined row of the store.
fn joined_rows(store: &Store) -> (r: Vec<ProductWithCategory>)
    ensures
        joined_views(r@) == all_joined(store@),
{
    let products: &Vec<Product> = store.products();
    let categories: &Vec<Category> = store.categories();
    let ghost pv = product_views(products@);
    let ghost cv = category_views(categories@);
    let mut out: Vec<ProductWithCategory> = Vec::new();
    let mut i: usize = 0;
    assert(joined_views(out@) =~= join(pv.take(0), cv));
    while i < products.len()
        invariant
            i <= products.len(),
            pv == product_views(products@),
            cv == category_views(categories@),
            distinct_category_ids(cv),
            joined_views(out@) == join(pv.take(i as int), cv),
        decreases products.len() - i,
    {
        proof {
            lemma_join_step(pv, cv, i as int);
        }
        let product: &Product = &products[i];
        match find_category(categories, product.category_id) {
            Some(category) => {
                let row: ProductWithCategory = product.with_category(category.name.as_str());
                let ghost before = joined_views(out@);
                out.push(row);
                assert(joined_views(out@) =~= before.push(row@));
            },
            None => {},
        }
        i += 1;
    }
    assert(pv.take(products.len() as int) =~= pv);
    out
}

/// The first `limit` products that carry a mark, in the order of the store.
/// A limit below zero is a fault.
fn find_marked(store: &Store, mark: Mark, limit: i64) -> (r: Result<Vec<Product>, StoreError>)
    ensures
        match r {
            Ok(rows) => {
                &&& limit >= 0
                &&& product_views(rows@) == marked(store@, mark, limit as int)
                &&& rows@.len() <= limit
            },
            Err(error) => limit < 0 && error.detail@ == negative_limit(),
        },
{
    if limit < 0 {
        return Err(StoreError { detail: "LIMIT must not be negative".to_owned() });
    }
    let products: &Vec<Product> = store.products();
    let ghost all = product_views(products@);
    let ghost keep = carries(mark);
    let mut out: Vec<Product> = Vec::new();
    let mut i: usize = 0;
    proof {
        lemma_filter_none(all.take(0), keep);
        assert(product_views(out@) =~= at_most(all.take(0).filter(keep), limit as int));
    }
    while i < products.len()
        invariant
            i <= products.len(),
            limit >= 0,
            all == product_views(products@),
            keep == carries(mark),
            product_views(out@) == at_most(all.take(i as int).filter(keep), limit as int),
        decreases products.len() - i,
    {
        proof {
            lemma_filter_step(all, keep, i as int);
        }
        let carried: bool = match mark {
            Mark::BestSeller => products[i].is_best_seller,
            Mark::DealOfTheDay => products[i].is_deal_of_the_day,
        };
        if carried && (out.len() as u64) < (limit as u64) {
            let ghost before = product_views(out@);
            out.push(products[i].clone());
            assert(product_views(out@) =~= before.push(all[i as int]));
            assert(product_views(out@) =~= at_most(all.take(i + 1).filter(keep), limit as int));
        } else {
            assert(product_views(out@) =~= at_most(all.take(i + 1).filter(keep), limit as int));
        }
        i += 1;
    }
    assert(all.take(products.len() as int) =~= all);
    assert(product_views(out@).len() == out@.len());
    Ok(out)
}

/// The repository of products.
pub struct ProductRepo;

impl ProductRepo {
    /// Every product, in the order in which the store keeps them.
    pub fn find_all(&self, store: &Store) -> (r: Result<Vec<Product>, StoreError>)
        ensures
            r matches Ok(rows) && product_views(rows@) == store@.products,
    {
        let products: &Vec<Product> = store.products();
        let mut out: Vec<Product> = Vec::new();
        let mut i: usize = 0;
        while i < products.len()
            invariant
                i <= products.len(),
                out.len() == i,
                forall|j: int| 0 <= j < i ==> (#[trigger] out@[j])@ == products@[j]@,
            decreases products.len() - i,
        {
            out.push(products[i].clone());
            i += 1;
        }
        assert(product_views(out@) =~= product_views(products@));
        Ok(out)
    }

    /// The product with this id, or none.
    pub fn find_by_id(&self, store: &Store, id: i32) -> (r: Result<Option<Product>, StoreError>)
        ensures
            match r {
                Ok(Some(product)) => product_with_id(store@.products, id as int) == Some(
                    product@,
                ),
                Ok(None) => product_with_id(store@.products, id as int) is None,
                Err(_) => false,
            },
    {
        let products: &Vec<Product> = store.products();
        let ghost views = product_views(products@);
        let mut i: usize = 0;
        while i < products.len()
            invariant
                i <= products.len(),
                views == product_views(products@),
                views == store@.products,
                distinct_product_ids(views),
                forall|j: int| 0 <= j < i ==> views[j].id != id,
            decreases products.len() - i,
        {
            if products[i].id == id {
                proof {
                    lemma_product_found(views, i as int);
                }
                return Ok(Some(products[i].clone()));
            }
            i += 1;
        }
        Ok(None)
    }

    /// The products of one category, each with the category's name. Empty
    /// where the category has no products or is not there.
    pub fn find_by_category_id(&self, store: &Store, category_id: i32) -> (r: Result<
        Vec<ProductWithCategory>,
        StoreError,
    >)
        ensures
            r matches Ok(rows) && joined_views(rows@) == joined_in_category(
                store@,
                category_id as int,
            ),
    {
        let rows: Vec<ProductWithCategory> = joined_rows(store);
        let ghost all = joined_views(rows@);
        let ghost keep = in_category(category_id as int);
        let mut out: Vec<ProductWithCategory> = Vec::new();
        let mut i: usize = 0;
        proof {
            lemma_filter_none(all.take(0), keep);
            assert(joined_views(out@) =~= all.take(0).filter(keep));
        }
        while i < rows.len()
            invariant
                i <= rows.len(),
                all == joined_views(rows@),
                keep == in_category(category_id as int),
                joined_views(out@) == all.take(i as int).filter(keep),
            decreases rows.len() - i,
        {
            proof {
                lemma_filter_step(all, keep, i as int);
            }
            if rows[i].category_id == category_id {
                let ghost before = joined_views(out@);
                out.push(rows[i].clone());
                assert(joined_views(out@) =~= before.push(all[i as int]));
            }
            i += 1;
        }
        assert(all.take(rows.len() as int) =~= all);
        Ok(out)
    }

    /// The first `limit` best sellers, in the order of the store. A limit
    /// below zero is a fault.
    pub fn find_best_sellers(&self, store: &Store, limit: i64) -> (r: Result<
        Vec<Product>,
        StoreError,
    >)
        ensures
            match r {
                Ok(rows) => {
                    &&& limit >= 0
                    &&& product_views(rows@) == best_sellers(store@, limit as int)
                    &&& rows@.len() <= limit
                },
                Err(error) => limit < 0 && error.detail@ == negative_limit(),
            },
    {
        find_marked(store, Mark::BestSeller, limit)
    }

    /// The first `limit` deals of the day, in the order of the store. A limit
    /// below zero is a fault.
    pub fn find_deals_of_the_day(&self, store: &Store, limit: i64) -> (r: Result<
        Vec<Product>,
        StoreError,
    >)
        ensures
            match r {
                Ok(rows) => {
                    &&& limit >= 0
                    &&& product_views(rows@) == deals_of_the_day(store@, limit as int)
                    &&& rows@.len() <= limit
                },
                Err(error) => limit < 0 && error.detail@ == negative_limit(),
            },
    {
        find_marked(store, Mark::DealOfTheDay, limit)
    }

    /// The products whose price lies between the two bounds, both included.
    /// The bounds are taken as they come: where the lower exceeds the upper,
    /// no price lies between them.
    pub fn find_by_price_range(&self, store: &Store, min_price: Decimal, max_price: Decimal) -> (r:
        Result<Vec<Product>, StoreError>)
        ensures
            r matches Ok(rows) && product_views(rows@) == products_priced_within(
                store@,
                min_price@,
                max_price@,
            ),
    {
        let products: &Vec<Product> = store.products();
        let ghost all = product_views(products@);
        let ghost keep = priced_within(min_price@, max_price@);
        let mut out: Vec<Product> = Vec::new();
        let mut i: usize = 0;
        proof {
            lemma_filter_none(all.take(0), keep);
            assert(product_views(out@) =~= all.take(0).filter(keep));
        }
        while i < products.len()
            invariant
                i <= products.len(),
                all == product_views(products@),
                keep == priced_within(min_price@, max_price@),
                product_views(out@) == all.take(i as int).filter(keep),
            decreases products.len() - i,
        {
            proof {
                lemma_filter_step(all, keep, i as int);
            }
            if min_price.le(&products[i].price) && products[i].price.le(&max_price) {
                let ghost before = product_views(out@);
                out.push(products[i].clone());
                assert(product_views(out@) =~= before.push(all[i as int]));
            }
            i += 1;
        }
        assert(all.take(products.len() as int) =~= all);
        Ok(out)
    }

    /// The joined rows of which every predicate of the list holds.
    pub fn find_by_predicates(&self, store: &Store, predicates: &Vec<Predicate>) -> (r: Result<
        Vec<ProductWithCategory>,
        StoreError,
    >)
        ensures
            r matches Ok(rows) && joined_views(rows@) == joined_satisfying(
                store@,
                predicate_views(predicates@),
            ),
    {
        let rows: Vec<ProductWithCategory> = joined_rows(store);
        let ghost all = joined_views(rows@);
        let ghost keep = satisfies(predicate_views(predicates@));
        let mut out: Vec<ProductWithCategory> = Vec::new();
        let mut i: usize = 0;
        proof {
            lemma_filter_none(all.take(0), keep);
            assert(joined_views(out@) =~= all.take(0).filter(keep));
        }
        while i < rows.len()
            invariant
                i <= rows.len(),
                all == joined_views(rows@),
                keep == satisfies(predicate_views(predicates@)),
                joined_views(out@) == all.take(i as int).filter(keep),
            decreases rows.len() - i,
        {
            proof {
                lemma_filter_step(all, keep, i as int);
            }
            if all_hold(predicates, &rows[i]) {
                let ghost before = joined_views(out@);
                out.push(rows[i].clone());
                assert(joined_views(out@) =~= before.push(all[i as int]));
            }
            i += 1;
        }
        assert(all.take(rows.len() as int) =~= all);
        Ok(out)
    }

    /// The joined rows that meet every criterion that is there: category,
    /// best seller, deal of the day, lower and upper price bound. A blank
    /// category counts as missing, and so does a price bound that is no
    /// decimal. A product without its category is never among the rows. A
    /// search that is not [`askable`] is a fault.
    pub fn find_by_filter(
        &self,
        store: &Store,
        category: Option<String>,
        is_best_seller: Option<bool>,
        is_deal_of_the_day: Option<bool>,
        min_price: Option<String>,
        max_price: Option<String>,
    ) -> (r: Result<Vec<ProductWithCategory>, StoreError>)
        ensures
            ({
                let query = FilterQueryView {
                    category: text_view(category),
                    is_best_seller,
                    is_deal_of_the_day,
                    min_price: text_view(min_price),
                    max_price: text_view(max_price),
                };
                match r {
                    Ok(rows) => askable(query) && joined_views(rows@) == joined_satisfying(
                        store@,
                        filter_predicates(query),
                    ),
                    Err(error) => !askable(query) && error.detail@ == beyond_the_store(),
                }
            }),
    {
        let query = FilterQuery { category, is_best_seller, is_deal_of_the_day, min_price, max_price };
        let predicates: Vec<Predicate> = match query.predicates() {
            Some(predicates) => predicates,
            None => {
                return Err(
                    StoreError { detail: "a value of the search is beyond what the store takes".to_owned() },
                );
            },
        };
        if !can_bind(&predicates) {
            return Err(
                StoreError { detail: "a value of the search is beyond what the store takes".to_owned() },
            );
        }
        self.find_by_predicates(store, &predicates)
    }
}

/// The repository of categories.
pub struct CategoryRepo;

impl CategoryRepo {
    /// Every category, in the order in which the store keeps them.
    pub fn find_all(&self, store: &Store) -> (r: Result<Vec<Category>, StoreError>)
        ensures
            r matches Ok(rows) && category_views(rows@) == store@.categories,
    {
        let categories: &Vec<Category> = store.categories();
        let mut out: Vec<Category> = Vec::new();
        let mut i: usize = 0;
        while i < categories.len()
            invariant
                i <= categories.len(),
                out.len() == i,
                forall|j: int| 0 <= j < i ==> (#[trigger] out@[j])@ == categories@[j]@,
            decreases categories.len() - i,
        {
            out.push(categories[i].clone());
            i += 1;
        }
        assert(category_views(out@) =~= category_views(categories@));
        Ok(out)
    }

    /// The category with this id, or none.
    pub fn find_by_id(&self, store: &Store, id: i32) -> (r: Result<Option<Category>, StoreError>)
        ensures
            match r {
                Ok(Some(category)) => category_with_id(store@.categories, id as int) == Some(
                    category@,
                ),
                Ok(None) => category_with_id(store@.categories, id as int) is None,
                Err(_) => false,
            },
    {
        let categories: &Vec<Category> = store.categories();
        match find_category(categories, id) {
            Some(category) => Ok(Some(category.clone())),
            None => Ok(None),
        }
    }
}

} // verus!
