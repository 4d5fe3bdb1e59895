//! What holds of the catalog as a whole, proved from the definitions of its
//! queries.

use crate::decimal::decimal_le;
use crate::decimal::reading_of;
use crate::decimal::lemma_order_transitive;
use crate::decimal::DecimalView;
use crate::model::ProductView;
use crate::model::ProductWithCategoryView;
use crate::predicate::holds;
use crate::predicate::holds_all;
use crate::predicate::param_of;
use crate::predicate::params_of;
use crate::predicate::PredicateView;
use crate::query::best_seller_part;
use crate::query::category_part;
use crate::query::deal_part;
use crate::query::filter_predicates;
use crate::query::max_price_part;
use crate::query::min_price_part;
use crate::query::FilterQueryView;
use crate::sql::askable;
use crate::sql::clause_of;
use crate::sql::filter_sql;
use crate::model::CategoryView;
use crate::store::all_joined;
use crate::store::category_with_id;
use crate::store::in_category;
use crate::store::join;
use crate::store::joined_in_category;
use crate::store::joined_satisfying;
use crate::store::priced_within;
use crate::store::products_priced_within;
use crate::store::satisfies;
use crate::store::StoreView;
use crate::text::contains_part;
use crate::text::found_in;
use crate::text::is_wildcard;
use crate::text::like_from;
use crate::text::like_matches;
use crate::text::like_pattern;
use crate::text::lowercase;
use crate::text::occurs_at;
use vstd::prelude::*;

verus! {

/// Where every row is kept, the rows stay as they are.
pub proof fn lemma_keep_all<A>(rows: Seq<A>, keep: spec_fn(A) -> bool)
    requires
        forall|i: int| 0 <= i < rows.len() ==> keep(#[trigger] rows[i]),
    ensures
        rows.filter(keep) == rows,
    decreases rows.len(),
{
    reveal(Seq::filter);
    if rows.len() > 0 {
        lemma_keep_all(rows.drop_last(), keep);
        assert(rows.drop_last().push(rows.last()) =~= rows);
    }
}

/// Where no row is kept, none is left.
pub proof fn lemma_keep_none<A>(rows: Seq<A>, keep: spec_fn(A) -> bool)
    requires
        forall|i: int| 0 <= i < rows.len() ==> !keep(#[trigger] rows[i]),
    ensures
        rows.filter(keep) == Seq::<A>::empty(),
    decreases rows.len(),
{
    reveal(Seq::filter);
    if rows.len() > 0 {
        lemma_keep_none(rows.drop_last(), keep);
    } else {
        assert(rows =~= Seq::<A>::empty());
    }
}

/// A search with no criterion has no predicate.
pub proof fn lemma_no_criterion_no_predicate(query: FilterQueryView)
    requires
        query.category is None,
        query.is_best_seller is None,
        query.is_deal_of_the_day is None,
        query.min_price is None,
        query.max_price is None,
    ensures
        filter_predicates(query) == Seq::<PredicateView>::empty(),
{
    assert(filter_predicates(query) =~= Seq::<PredicateView>::empty());
}

/// A search with no criterion answers with the whole inner join of products
/// and categories: every product that has its category, and no other.
pub proof fn lemma_filter_without_criteria(store: StoreView, query: FilterQueryView)
    requires
        query.category is None,
        query.is_best_seller is None,
        query.is_deal_of_the_day is None,
        query.min_price is None,
        query.max_price is None,
    ensures
        joined_satisfying(store, filter_predicates(query)) == all_joined(store),
{
    lemma_no_criterion_no_predicate(query);
    lemma_keep_all(all_joined(store), satisfies(filter_predicates(query)));
}

/// Every row of the inner join carries the name of the category that its
/// product names: a product without its category gives no row.
pub proof fn lemma_joined_rows_have_their_category(
    products: Seq<ProductView>,
    categories: Seq<CategoryView>,
    i: int,
)
    requires
        0 <= i < join(products, categories).len(),
    ensures
        category_with_id(categories, join(products, categories)[i].category_id) matches Some(
            category,
        ) && join(products, categories)[i].category_name == category.name,
    decreases products.len(),
{
    if products.len() > 0 {
        let rest = join(products.drop_last(), categories);
        if i < rest.len() {
            lemma_joined_rows_have_their_category(products.drop_last(), categories, i);
        }
    }
}

/// The inner join has at most one row for each product.
pub proof fn lemma_join_is_no_longer_than_products(
    products: Seq<ProductView>,
    categories: Seq<CategoryView>,
)
    ensures
        join(products, categories).len() <= products.len(),
    decreases products.len(),
{
    if products.len() > 0 {
        lemma_join_is_no_longer_than_products(products.drop_last(), categories);
    }
}

/// A category that is not there has no rows.
pub proof fn lemma_unknown_category_has_no_rows(store: StoreView, category_id: int)
    requires
        category_with_id(store.categories, category_id) is None,
    ensures
        joined_in_category(store, category_id) == Seq::<ProductWithCategoryView>::empty(),
{
    let rows = all_joined(store);
    let keep = in_category(category_id);
    assert forall|i: int| 0 <= i < rows.len() implies !keep(#[trigger] rows[i]) by {
        lemma_joined_rows_have_their_category(store.products, store.categories, i);
    }
    lemma_keep_none(rows, keep);
}

/// The text of a query holds nothing of the values it is bound to: two
/// searches whose predicates are of the same kinds, one for one, have the
/// same text, whatever their values.
pub proof fn lemma_text_is_free_of_values(a: Seq<PredicateView>, b: Seq<PredicateView>)
    requires
        a.len() == b.len(),
        forall|i: int| 0 <= i < a.len() ==> clause_of(#[trigger] a[i]) == clause_of(b[i]),
    ensures
        filter_sql(a) == filter_sql(b),
    decreases a.len(),
{
    if a.len() > 0 {
        lemma_text_is_free_of_values(a.drop_last(), b.drop_last());
        assert(clause_of(a[a.len() - 1]) == clause_of(b[a.len() - 1]));
    }
}

/// Every value of a search is bound: there are as many values as
/// predicates, the value of each predicate at its place.
pub proof fn lemma_every_value_is_bound(predicates: Seq<PredicateView>, i: int)
    requires
        0 <= i < predicates.len(),
    ensures
        params_of(predicates).len() == predicates.len(),
        params_of(predicates)[i] == param_of(predicates[i]),
{
}

/// A search has at most five predicates: one for each criterion.
pub proof fn lemma_at_most_one_predicate_each(query: FilterQueryView)
    ensures
        filter_predicates(query).len() == category_part(query.category).len() + best_seller_part(
            query.is_best_seller,
        ).len() + deal_part(query.is_deal_of_the_day).len() + min_price_part(
            query.min_price,
        ).len() + max_price_part(query.max_price).len(),
        category_part(query.category).len() <= 1,
        best_seller_part(query.is_best_seller).len() <= 1,
        deal_part(query.is_deal_of_the_day).len() <= 1,
        min_price_part(query.min_price).len() <= 1,
        max_price_part(query.max_price).len() <= 1,
        query.is_best_seller is Some ==> best_seller_part(query.is_best_seller).len() == 1,
        query.is_deal_of_the_day is Some ==> deal_part(query.is_deal_of_the_day).len() == 1,
{
}

/// Each criterion that is there narrows the answer: a row of the answer
/// meets every predicate of the search.
pub proof fn lemma_answers_meet_every_predicate(
    store: StoreView,
    predicates: Seq<PredicateView>,
    i: int,
    k: int,
)
    requires
        0 <= i < joined_satisfying(store, predicates).len(),
        0 <= k < predicates.len(),
    ensures
        holds(predicates[k], joined_satisfying(store, predicates)[i]),
{
    let rows = all_joined(store);
    let keep = satisfies(predicates);
    rows.lemma_filter_pred(keep, i);
    assert(holds_all(predicates, rows.filter(keep)[i]));
}

/// A price range answers with products whose price lies between the bounds,
/// both included.
pub proof fn lemma_range_answers_lie_within(
    store: StoreView,
    min: DecimalView,
    max: DecimalView,
    i: int,
)
    requires
        0 <= i < products_priced_within(store, min, max).len(),
    ensures
        decimal_le(min, products_priced_within(store, min, max)[i].price),
        decimal_le(products_priced_within(store, min, max)[i].price, max),
{
    store.products.lemma_filter_pred(priced_within(min, max), i);
}

/// A price range leaves out no product whose price lies between the bounds.
pub proof fn lemma_range_leaves_none_out(
    store: StoreView,
    min: DecimalView,
    max: DecimalView,
    i: int,
)
    requires
        0 <= i < store.products.len(),
        decimal_le(min, store.products[i].price),
        decimal_le(store.products[i].price, max),
    ensures
        products_priced_within(store, min, max).contains(store.products[i]),
{
    store.products.lemma_filter_contains(priced_within(min, max), i);
}

/// A price range whose lower bound exceeds its upper bound answers with no
/// product.
pub proof fn lemma_reversed_range_is_empty(store: StoreView, min: DecimalView, max: DecimalView)
    requires
        !decimal_le(min, max),
    ensures
        products_priced_within(store, min, max) == Seq::<ProductView>::empty(),
{
    let keep = priced_within(min, max);
    assert forall|i: int| 0 <= i < store.products.len() implies !keep(
        #[trigger] store.products[i],
    ) by {
        let price = store.products[i].price;
        if decimal_le(min, price) && decimal_le(price, max) {
            lemma_order_transitive(min, price, max);
        }
    }
    lemma_keep_none(store.products, keep);
}

/// In a search, a lower price bound that is no decimal counts as missing.
pub proof fn lemma_malformed_min_price_is_ignored(query: FilterQueryView)
    requires
        query.min_price matches Some(text) && reading_of(text) is NoDecimal,
    ensures
        filter_predicates(query) == filter_predicates(
            FilterQueryView { min_price: None, ..query },
        ),
{
}

/// A search with a price bound that is no decimal can be made exactly when
/// the search without that bound can.
pub proof fn lemma_malformed_bounds_keep_the_search_askable(query: FilterQueryView)
    requires
        query.min_price matches Some(text) && reading_of(text) is NoDecimal,
    ensures
        askable(query) == askable(FilterQueryView { min_price: None, ..query }),
{
}

/// In a search, an upper price bound that is no decimal counts as missing.
pub proof fn lemma_malformed_max_price_is_ignored(query: FilterQueryView)
    requires
        query.max_price matches Some(text) && reading_of(text) is NoDecimal,
    ensures
        filter_predicates(query) == filter_predicates(
            FilterQueryView { max_price: None, ..query },
        ),
{
}

/// Two texts that differ in the case of letters at most: their lower case is
/// the same.
pub open spec fn same_folded(a: Seq<char>, b: Seq<char>) -> bool {
    lowercase(a) == lowercase(b)
}

/// A text without wildcards: as a pattern it stands for itself alone.
pub open spec fn plain(text: Seq<char>) -> bool {
    forall|k: int| 0 <= k < text.len() ==> !is_wildcard(#[trigger] text[k])
}

/// A text is found in every text of which it is a part.
pub proof fn lemma_part_is_found(before: Seq<char>, part: Seq<char>, after: Seq<char>)
    ensures
        contains_part(before + part + after, part),
{
    let hay = before + part + after;
    assert(occurs_at(hay, part, before.len() as int)) by {
        assert forall|j: int| 0 <= j < part.len() implies #[trigger] hay[before.len() + j]
            == part[j] by {}
    }
}

/// The `%` at the end of a pattern stands for any rest of a text.
proof fn lemma_last_percent(text: Seq<char>, pattern: Seq<char>, i: int)
    requires
        0 <= i <= text.len(),
        pattern.len() >= 1,
        pattern.last() == '%',
    ensures
        like_from(text, pattern, i, pattern.len() - 1),
    decreases text.len() - i,
{
    if i < text.len() {
        lemma_last_percent(text, pattern, i + 1);
    } else {
        assert(like_from(text, pattern, i, pattern.len() as int));
    }
    assert(pattern[pattern.len() - 1] == '%');
}

/// Behind its first `%`, the pattern of a text without wildcards stands for
/// what begins with the rest of that text.
proof fn lemma_plain_tail(hay: Seq<char>, text: Seq<char>, i: int, j: int)
    requires
        plain(text),
        0 <= i <= hay.len(),
        1 <= j <= text.len() + 1,
    ensures
        like_from(hay, like_pattern(text), i, j) == (i + (text.len() + 1 - j) <= hay.len()
            && forall|k: int|
            0 <= k < text.len() + 1 - j ==> #[trigger] hay[i + k] == text[j - 1 + k]),
    decreases text.len() + 1 - j,
{
    let pattern = like_pattern(text);
    if j == text.len() + 1 {
        lemma_last_percent(hay, pattern, i);
    } else {
        assert(pattern[j] == text[j - 1]);
        assert(!is_wildcard(text[j - 1]));
        if i < hay.len() {
            lemma_plain_tail(hay, text, i + 1, j + 1);
            if like_from(hay, pattern, i, j) {
                assert forall|k: int| 0 <= k < text.len() + 1 - j implies #[trigger] hay[i + k]
                    == text[j - 1 + k] by {
                    if k > 0 {
                        assert(hay[(i + 1) + (k - 1)] == text[j + (k - 1)]);
                    }
                }
            }
            if i + (text.len() + 1 - j) <= hay.len() && (forall|k: int|
                0 <= k < text.len() + 1 - j ==> #[trigger] hay[i + k] == text[j - 1 + k]) {
                assert(hay[i + 0] == text[j - 1 + 0]);
                assert forall|k: int| 0 <= k < text.len() - j implies #[trigger] hay[(i + 1) + k]
                    == text[j + k] by {
                    assert(hay[i + (k + 1)] == text[j - 1 + (k + 1)]);
                }
            }
        }
    }
}

/// The pattern of a text without wildcards stands for what holds that text
/// somewhere.
proof fn lemma_plain_head(hay: Seq<char>, text: Seq<char>, i: int)
    requires
        plain(text),
        0 <= i <= hay.len(),
    ensures
        like_from(hay, like_pattern(text), i, 0) == (exists|at: int|
            i <= at && occurs_at(hay, text, at)),
    decreases hay.len() - i,
{
    let pattern = like_pattern(text);
    assert(pattern[0] == '%');
    lemma_plain_tail(hay, text, i, 1);
    assert(like_from(hay, pattern, i, 1) == occurs_at(hay, text, i)) by {
        if occurs_at(hay, text, i) {
            assert forall|k: int| 0 <= k < text.len() implies #[trigger] hay[i + k] == text[k] by {}
        }
    }
    if i < hay.len() {
        lemma_plain_head(hay, text, i + 1);
    }
    if like_from(hay, pattern, i, 0) {
        if like_from(hay, pattern, i, 1) {
            assert(i <= i && occurs_at(hay, text, i));
        } else {
            let at = choose|at: int| i + 1 <= at && occurs_at(hay, text, at);
            assert(i <= at && occurs_at(hay, text, at));
        }
    }
    if exists|at: int| i <= at && occurs_at(hay, text, at) {
        let at = choose|at: int| i <= at && occurs_at(hay, text, at);
        if at > i {
            assert(i + 1 <= at && occurs_at(hay, text, at));
        }
    }
}

/// For a text without wildcards the pattern finds exactly the texts of
/// which it is a part.
pub proof fn lemma_plain_pattern_is_containment(hay: Seq<char>, text: Seq<char>)
    requires
        plain(text),
    ensures
        like_matches(hay, like_pattern(text)) == contains_part(hay, text),
{
    lemma_plain_head(hay, text, 0);
    if contains_part(hay, text) {
        let at = choose|at: int| occurs_at(hay, text, at);
        assert(0 <= at && occurs_at(hay, text, at));
    }
}

/// A search text without wildcards finds exactly the names of which it is a
/// part, the case of letters ignored: the name need not equal the text nor
/// begin with it.
pub proof fn lemma_plain_text_is_found_as_a_part(name: Seq<char>, text: Seq<char>)
    requires
        plain(lowercase(text)),
    ensures
        found_in(name, text) == contains_part(lowercase(name), lowercase(text)),
{
    lemma_plain_pattern_is_containment(lowercase(name), lowercase(text));
}

/// The case of the letters of the text sought makes no difference.
pub proof fn lemma_case_of_needle_is_ignored(hay: Seq<char>, needle: Seq<char>, other: Seq<char>)
    requires
        same_folded(needle, other),
    ensures
        found_in(hay, needle) == found_in(hay, other),
{
}

/// The case of the letters of the text searched makes no difference.
pub proof fn lemma_case_of_hay_is_ignored(hay: Seq<char>, other: Seq<char>, needle: Seq<char>)
    requires
        same_folded(hay, other),
    ensures
        found_in(hay, needle) == found_in(other, needle),
{
}

/// A category predicate whose text has no wildcard holds of every row whose
/// category's name, in lower case, has the text, in lower case, as a part.
pub proof fn lemma_category_match(
    row: ProductWithCategoryView,
    text: Seq<char>,
    before: Seq<char>,
    after: Seq<char>,
)
    requires
        plain(lowercase(text)),
        lowercase(row.category_name) == before + lowercase(text) + after,
    ensures
        holds(PredicateView::CategoryContains(text), row),
{
    lemma_part_is_found(before, lowercase(text), after);
    lemma_plain_text_is_found_as_a_part(row.category_name, text);
}

/// A category predicate holds of a row exactly when it holds of the row
/// with the text in any other case.
pub proof fn lemma_category_match_ignores_case(
    row: ProductWithCategoryView,
    text: Seq<char>,
    other: Seq<char>,
)
    requires
        same_folded(text, other),
    ensures
        holds(PredicateView::CategoryContains(text), row) == holds(
            PredicateView::CategoryContains(other),
            row,
        ),
{
}

} // verus!
