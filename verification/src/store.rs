//! A snapshot of the catalog: its categories and its products, and what each
//! query of the catalog means over them.

use crate::decimal::decimal_le;
use crate::decimal::DecimalView;
use crate::model::category_views;
use crate::model::joined_row;
use crate::model::product_views;
use crate::model::Category;
use crate::model::CategoryView;
use crate::model::Product;
use crate::model::ProductView;
use crate::model::ProductWithCategoryView;
use crate::predicate::holds_all;
use crate::predicate::PredicateView;
use vstd::prelude::*;

verus! {

/// The content of a [`Store`]: its rows in the order in which they are kept.
pub struct StoreView {
    pub categories: Seq<CategoryView>,
    pub products: Seq<ProductView>,
}

/// No two categories share an id.
pub open spec fn distinct_category_ids(rows: Seq<CategoryView>) -> bool {
    forall|i: int, j: int| 0 <= i < j < rows.len() ==> rows[i].id != rows[j].id
}

/// No two products share an id.
pub open spec fn distinct_product_ids(rows: Seq<ProductView>) -> bool {
    forall|i: int, j: int| 0 <= i < j < rows.len() ==> rows[i].id != rows[j].id
}

/// What holds of every store: ids are keys. A product may name a category
/// that is not there.
pub open spec fn store_wf(store: StoreView) -> bool {
    &&& distinct_category_ids(store.categories)
    &&& distinct_product_ids(store.products)
}

/// Whether a category with this id is among the rows.
pub open spec fn has_category(rows: Seq<CategoryView>, id: int) -> bool {
    exists|i: int| 0 <= i < rows.len() && rows[i].id == id
}

/// The category with this id, where there is one.
pub open spec fn category_with_id(rows: Seq<CategoryView>, id: int) -> Option<CategoryView> {
    if has_category(rows, id) {
        Some(rows[choose|i: int| 0 <= i < rows.len() && rows[i].id == id])
    } else {
        None
    }
}

/// Whether a product with this id is among the rows.
pub open spec fn has_product(rows: Seq<ProductView>, id: int) -> bool {
    exists|i: int| 0 <= i < rows.len() && rows[i].id == id
}

/// The product with this id, where there is one.
pub open spec fn product_with_id(rows: Seq<ProductView>, id: int) -> Option<ProductView> {
    if has_product(rows, id) {
        Some(rows[choose|i: int| 0 <= i < rows.len() && rows[i].id == id])
    } else {
        None
    }
}

/// The inner join of products with categories: for each product whose
/// category is there, in the order of the products, the product with the
/// name of that category. A product without its category gives no row.
pub open spec fn join(products: Seq<ProductView>, categories: Seq<CategoryView>) -> Seq<
    ProductWithCategoryView,
>
    decreases products.len(),
{
    if products.len() == 0 {
        seq![]
    } else {
        let rest = join(products.drop_last(), categories);
        match category_with_id(categories, products.last().category_id) {
            Some(category) => rest.push(joined_row(products.last(), category.name)),
            None => rest,
        }
    }
}

/// A mark that a product may carry.
#[derive(Debug, Clone, Copy)]
pub enum Mark {
    BestSeller,
    DealOfTheDay,
}

/// The products that carry a mark.
pub open spec fn carries(mark: Mark) -> spec_fn(ProductView) -> bool {
    |product: ProductView|
        match mark {
            Mark::BestSeller => product.is_best_seller,
            Mark::DealOfTheDay => product.is_deal_of_the_day,
        }
}

/// The products whose price lies between the two bounds, both included.
pub open spec fn priced_within(min: DecimalView, max: DecimalView) -> spec_fn(ProductView) -> bool {
    |product: ProductView| decimal_le(min, product.price) && decimal_le(product.price, max)
}

/// The joined rows of one category.
pub open spec fn in_category(category_id: int) -> spec_fn(ProductWithCategoryView) -> bool {
    |row: ProductWithCategoryView| row.category_id == category_id
}

/// The joined rows of which every predicate holds.
pub open spec fn satisfies(predicates: Seq<PredicateView>) -> spec_fn(
    ProductWithCategoryView,
) -> bool {
    |row: ProductWithCategoryView| holds_all(predicates, row)
}

/// The first `limit` rows, or all of them where there are fewer.
pub open spec fn at_most<A>(rows: Seq<A>, limit: int) -> Seq<A> {
    if limit <= 0 {
        Seq::empty()
    } else if limit >= rows.len() {
        rows
    } else {
        rows.take(limit)
    }
}

/// Every joined row of the store.
pub open spec fn all_joined(store: StoreView) -> Seq<ProductWithCategoryView> {
    join(store.products, store.categories)
}

/// The joined rows of one category.
pub open spec fn joined_in_category(store: StoreView, category_id: int) -> Seq<
    ProductWithCategoryView,
> {
    all_joined(store).filter(in_category(category_id))
}

/// The joined rows of which every predicate holds.
pub open spec fn joined_satisfying(store: StoreView, predicates: Seq<PredicateView>) -> Seq<
    ProductWithCategoryView,
> {
    all_joined(store).filter(satisfies(predicates))
}

/// The first `limit` products that carry a mark.
pub open spec fn marked(store: StoreView, mark: Mark, limit: int) -> Seq<ProductView> {
    at_most(store.products.filter(carries(mark)), limit)
}

/// The first `limit` best sellers.
pub open spec fn best_sellers(store: StoreView, limit: int) -> Seq<ProductView> {
    marked(store, Mark::BestSeller, limit)
}

/// The first `limit` deals of the day.
pub open spec fn deals_of_the_day(store: StoreView, limit: int) -> Seq<ProductView> {
    marked(store, Mark::DealOfTheDay, limit)
}

/// The products whose price lies between the two bounds, both included.
pub open spec fn products_priced_within(store: StoreView, min: DecimalView, max: DecimalView) -> Seq<
    ProductView,
> {
    store.products.filter(priced_within(min, max))
}

/// A snapshot of the catalog. Ids are keys: no two categories share one, and
/// no two products.
#[derive(Debug)]
pub struct Store {
    categories: Vec<Category>,
    products: Vec<Product>,
}

impl View for Store {
    type V = StoreView;

    closed spec fn view(&self) -> StoreView {
        StoreView {
            categories: category_views(self.categories@),
            products: product_views(self.products@),
        }
    }
}

/// A row with an id that is its key.
pub trait Keyed {
    /// The id of the row.
    spec fn key(&self) -> int;

    /// The id of the row.
    fn row_id(&self) -> (r: i32)
        ensures
            r == self.key(),
    ;
}

impl Keyed for Category {
    open spec fn key(&self) -> int {
        self.id as int
    }

    fn row_id(&self) -> (r: i32) {
        self.id
    }
}

impl Keyed for Product {
    open spec fn key(&self) -> int {
        self.id as int
    }

    fn row_id(&self) -> (r: i32) {
        self.id
    }
}

/// No two rows share an id.
pub open spec fn distinct_keys<T: Keyed>(rows: Seq<T>) -> bool {
    forall|i: int, j: int| 0 <= i < j < rows.len() ==> rows[i].key() != rows[j].key()
}

/// Whether no two rows share an id.
fn keys_distinct<T: Keyed>(rows: &Vec<T>) -> (r: bool)
    ensures
        r == distinct_keys(rows@),
{
    let mut j: usize = 0;
    while j < rows.len()
        invariant
            j <= rows.len(),
            forall|a: int, b: int| 0 <= a < b < j ==> rows@[a].key() != rows@[b].key(),
        decreases rows.len() - j,
    {
        let mut i: usize = 0;
        while i < j
            invariant
                i <= j,
                j < rows.len(),
                forall|a: int| 0 <= a < i ==> rows@[a].key() != rows@[j as int].key(),
            decreases j - i,
        {
            if rows[i].row_id() == rows[j].row_id() {
                return false;
            }
            i += 1;
        }
        j += 1;
    }
    true
}

impl Store {
    #[verifier::type_invariant]
    spec fn well_formed(self) -> bool {
        store_wf(self@)
    }

    /// The store with these rows, in this order. `None` where two categories
    /// share an id, or two products.
    pub fn new(categories: Vec<Category>, products: Vec<Product>) -> (r: Option<Store>)
        ensures
            match r {
                Some(store) => {
                    &&& store@.categories == category_views(categories@)
                    &&& store@.products == product_views(products@)
                    &&& store_wf(store@)
                },
                None => !distinct_category_ids(category_views(categories@))
                    || !distinct_product_ids(product_views(products@)),
            },
    {
        proof {
            let cv = category_views(categories@);
            let pv = product_views(products@);
            assert(distinct_keys(categories@) == distinct_category_ids(cv)) by {
                if distinct_keys(categories@) {
                    assert forall|i: int, j: int| 0 <= i < j < cv.len() implies cv[i].id
                        != cv[j].id by {
                        assert(categories@[i].key() != categories@[j].key());
                    }
                }
                if distinct_category_ids(cv) {
                    assert forall|i: int, j: int|
                        0 <= i < j < categories@.len() implies categories@[i].key()
                        != categories@[j].key() by {
                        assert(cv[i].id != cv[j].id);
                    }
                }
            }
            assert(distinct_keys(products@) == distinct_product_ids(pv)) by {
                if distinct_keys(products@) {
                    assert forall|i: int, j: int| 0 <= i < j < pv.len() implies pv[i].id
                        != pv[j].id by {
                        assert(products@[i].key() != products@[j].key());
                    }
                }
                if distinct_product_ids(pv) {
                    assert forall|i: int, j: int|
                        0 <= i < j < products@.len() implies products@[i].key()
                        != products@[j].key() by {
                        assert(pv[i].id != pv[j].id);
                    }
                }
            }
        }
        if !keys_distinct(&categories) {
            return None;
        }
        if !keys_distinct(&products) {
            return None;
        }
        Some(Store { categories, products })
    }

    /// The categories, in the order in which they are kept.
    pub fn categories(&self) -> (r: &Vec<Category>)
        ensures
            category_views(r@) == self@.categories,
            store_wf(self@),
    {
        proof {
            use_type_invariant(self);
        }
        &self.categories
    }

    /// The products, in the order in which they are kept.
    pub fn products(&self) -> (r: &Vec<Product>)
        ensures
            product_views(r@) == self@.products,
            store_wf(self@),
    {
        proof {
            use_type_invariant(self);
        }
        &self.products
    }
}

/// Where ids are keys, a category found under an id is the category with
/// that id.
pub proof fn lemma_category_found(rows: Seq<CategoryView>, i: int)
    requires
        distinct_category_ids(rows),
        0 <= i < rows.len(),
    ensures
        category_with_id(rows, rows[i].id) == Some(rows[i]),
{
    let id = rows[i].id;
    let k = choose|k: int| 0 <= k < rows.len() && rows[k].id == id;
    if k < i {
        assert(rows[k].id != rows[i].id);
    } else if i < k {
        assert(rows[i].id != rows[k].id);
    }
}

/// Where ids are keys, a product found under an id is the product with that
/// id.
pub proof fn lemma_product_found(rows: Seq<ProductView>, i: int)
    requires
        distinct_product_ids(rows),
        0 <= i < rows.len(),
    ensures
        product_with_id(rows, rows[i].id) == Some(rows[i]),
{
    let id = rows[i].id;
    let k = choose|k: int| 0 <= k < rows.len() && rows[k].id == id;
    if k < i {
        assert(rows[k].id != rows[i].id);
    } else if i < k {
        assert(rows[i].id != rows[k].id);
    }
}

/// The product with an id, where there is one, carries that id.
pub proof fn lemma_product_with_id(rows: Seq<ProductView>, id: int)
    ensures
        product_with_id(rows, id) matches Some(product) ==> product.id == id,
{
}

/// One product more adds its joined row to the join, or nothing.
pub proof fn lemma_join_step(products: Seq<ProductView>, categories: Seq<CategoryView>, i: int)
    requires
        0 <= i < products.len(),
    ensures
        join(products.take(i + 1), categories) == match category_with_id(
            categories,
            products[i].category_id,
        ) {
            Some(category) => join(products.take(i), categories).push(
                joined_row(products[i], category.name),
            ),
            None => join(products.take(i), categories),
        },
{
    assert(products.take(i + 1).drop_last() =~= products.take(i));
    assert(products.take(i + 1).last() == products[i]);
}

/// One row more adds itself to the rows that are kept, or nothing.
pub proof fn lemma_filter_step<A>(rows: Seq<A>, keep: spec_fn(A) -> bool, i: int)
    requires
        0 <= i < rows.len(),
    ensures
        rows.take(i + 1).filter(keep) == if keep(rows[i]) {
            rows.take(i).filter(keep).push(rows[i])
        } else {
            rows.take(i).filter(keep)
        },
{
    assert(rows.take(i + 1) =~= rows.take(i).push(rows[i]));
    rows.take(i).lemma_filter_push(rows[i], keep);
}

/// Of no rows none is kept.
pub proof fn lemma_filter_none<A>(rows: Seq<A>, keep: spec_fn(A) -> bool)
    requires
        rows.len() == 0,
    ensures
        rows.filter(keep) == Seq::<A>::empty(),
{
    reveal(Seq::filter);
    assert(rows.filter(keep) =~= Seq::<A>::empty());
}

} // verus!
