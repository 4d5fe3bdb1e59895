//! What a caller may ask of the catalog, as it arrives: optional search
//! criteria, a price range as two texts, a limit that may be missing.

use crate::decimal::decimal_of_text;
use crate::decimal::reading_of;
use crate::decimal::Reading;
use crate::decimal::ReadingView;
use crate::decimal::Decimal;
use crate::decimal::DecimalView;
use crate::error::AppError;
use crate::predicate::predicate_views;
use crate::predicate::Predicate;
use crate::predicate::PredicateView;
use crate::text::blank;
use crate::text::is_blank;
use vstd::prelude::*;

verus! {

/// The limit of a listing whose caller named none.
pub const DEFAULT_LIMIT: i64 = 10;

/// The query of a bounded listing: how many rows at most, if the caller says.
#[derive(Debug)]
pub struct BestSellerQuery {
    pub limit: Option<i64>,
}

impl BestSellerQuery {
    /// The limit to apply: the caller's, or [`DEFAULT_LIMIT`] where none was
    /// given.
    pub fn effective_limit(&self) -> (r: i64)
        ensures
            r == match self.limit {
                Some(limit) => limit,
                None => DEFAULT_LIMIT,
            },
    {
        match self.limit {
            Some(limit) => limit,
            None => DEFAULT_LIMIT,
        }
    }
}

/// The query of a listing by price: both bounds, as the caller wrote them.
#[derive(Debug)]
pub struct PriceRangeQuery {
    pub min_price: String,
    pub max_price: String,
}

/// What is reported of a lower bound that is no decimal.
pub open spec fn invalid_min_price() -> Seq<char> {
    "min_price is not a decimal number"@
}

/// What is reported of an upper bound that is no decimal.
pub open spec fn invalid_max_price() -> Seq<char> {
    "max_price is not a decimal number"@
}

/// What is reported of a lower bound beyond the sizes of a decimal.
pub open spec fn min_price_out_of_range() -> Seq<char> {
    "min_price is out of range"@
}

/// What is reported of an upper bound beyond the sizes of a decimal.
pub open spec fn max_price_out_of_range() -> Seq<char> {
    "max_price is out of range"@
}

/// Both bounds of a price range, or what is reported of the first that is
/// none: the lower bound's failing comes first.
pub open spec fn range_bounds(min: Seq<char>, max: Seq<char>) -> Result<
    (DecimalView, DecimalView),
    Seq<char>,
> {
    match reading_of(min) {
        ReadingView::NoDecimal => Err(invalid_min_price()),
        ReadingView::OutOfRange => Err(min_price_out_of_range()),
        ReadingView::Number(low) => match reading_of(max) {
            ReadingView::NoDecimal => Err(invalid_max_price()),
            ReadingView::OutOfRange => Err(max_price_out_of_range()),
            ReadingView::Number(high) => Ok((low, high)),
        },
    }
}

impl PriceRangeQuery {
    /// Both bounds as decimals. A bound that is no decimal, or one beyond
    /// the sizes of a decimal, is an error of validation, the lower bound's
    /// first; nothing is passed over in silence here.
    pub fn bounds(&self) -> (r: Result<(Decimal, Decimal), AppError>)
        ensures
            match range_bounds(self.min_price@, self.max_price@) {
                Ok((low, high)) => r matches Ok((min, max)) && min@ == low && max@ == high,
                Err(report) => r matches Err(AppError::ValidationError(text)) && text@ == report,
            },
    {
        let min: Decimal = match Decimal::read(self.min_price.as_str()) {
            Reading::Number(min) => min,
            Reading::OutOfRange => {
                return Err(AppError::ValidationError("min_price is out of range".to_owned()));
            },
            Reading::NoDecimal => {
                return Err(
                    AppError::ValidationError("min_price is not a decimal number".to_owned()),
                );
            },
        };
        let max: Decimal = match Decimal::read(self.max_price.as_str()) {
            Reading::Number(max) => max,
            Reading::OutOfRange => {
                return Err(AppError::ValidationError("max_price is out of range".to_owned()));
            },
            Reading::NoDecimal => {
                return Err(
                    AppError::ValidationError("max_price is not a decimal number".to_owned()),
                );
            },
        };
        Ok((min, max))
    }
}

/// The criteria of a search, each of which may be missing.
#[derive(Debug)]
pub struct FilterQuery {
    pub category: Option<String>,
    pub is_best_seller: Option<bool>,
    pub is_deal_of_the_day: Option<bool>,
    pub min_price: Option<String>,
    pub max_price: Option<String>,
}

/// The content of a [`FilterQuery`].
pub struct FilterQueryView {
    pub category: Option<Seq<char>>,
    pub is_best_seller: Option<bool>,
    pub is_deal_of_the_day: Option<bool>,
    pub min_price: Option<Seq<char>>,
    pub max_price: Option<Seq<char>>,
}

/// The content of a text that may be missing.
pub open spec fn text_view(text: Option<String>) -> Option<Seq<char>> {
    match text {
        Some(text) => Some(text@),
        None => None,
    }
}

impl View for FilterQuery {
    type V = FilterQueryView;

    open spec fn view(&self) -> FilterQueryView {
        FilterQueryView {
            category: text_view(self.category),
            is_best_seller: self.is_best_seller,
            is_deal_of_the_day: self.is_deal_of_the_day,
            min_price: text_view(self.min_price),
            max_price: text_view(self.max_price),
        }
    }
}

/// What the category criterion contributes: one predicate, unless it is
/// missing or blank.
pub open spec fn category_part(category: Option<Seq<char>>) -> Seq<PredicateView> {
    match category {
        Some(text) => if is_blank(text) {
            seq![]
        } else {
            seq![PredicateView::CategoryContains(text)]
        },
        None => seq![],
    }
}

/// What the best-seller criterion contributes: one predicate, unless missing.
pub open spec fn best_seller_part(flag: Option<bool>) -> Seq<PredicateView> {
    match flag {
        Some(flag) => seq![PredicateView::BestSeller(flag)],
        None => seq![],
    }
}

/// What the deal-of-the-day criterion contributes: one predicate, unless
/// missing.
pub open spec fn deal_part(flag: Option<bool>) -> Seq<PredicateView> {
    match flag {
        Some(flag) => seq![PredicateView::DealOfTheDay(flag)],
        None => seq![],
    }
}

/// The decimal that a bound denotes, if it is there and is one.
pub open spec fn bound_of(text: Option<Seq<char>>) -> Option<DecimalView> {
    match text {
        Some(text) => decimal_of_text(text),
        None => None,
    }
}

/// Whether a bound is a number beyond the sizes of a decimal.
pub open spec fn out_of_range(text: Option<Seq<char>>) -> bool {
    text matches Some(text) && reading_of(text) is OutOfRange
}

/// Whether neither price bound of a search is a number beyond the sizes of
/// a decimal. Such a bound is not passed over: the search cannot be made.
pub open spec fn bounds_in_range(query: FilterQueryView) -> bool {
    !out_of_range(query.min_price) && !out_of_range(query.max_price)
}

/// What the lower price bound contributes: one predicate, unless it is
/// missing or no decimal.
pub open spec fn min_price_part(text: Option<Seq<char>>) -> Seq<PredicateView> {
    match bound_of(text) {
        Some(bound) => seq![PredicateView::MinPrice(bound)],
        None => seq![],
    }
}

/// What the upper price bound contributes: one predicate, unless it is
/// missing or no decimal.
pub open spec fn max_price_part(text: Option<Seq<char>>) -> Seq<PredicateView> {
    match bound_of(text) {
        Some(bound) => seq![PredicateView::MaxPrice(bound)],
        None => seq![],
    }
}

/// The predicates of a search, in their fixed order: category, best seller,
/// deal of the day, lower price bound, upper price bound.
pub open spec fn filter_predicates(query: FilterQueryView) -> Seq<PredicateView> {
    category_part(query.category) + best_seller_part(query.is_best_seller) + deal_part(
        query.is_deal_of_the_day,
    ) + min_price_part(query.min_price) + max_price_part(query.max_price)
}

/// The decimal that a bound denotes, if it is there and is one; an error
/// where it is a number beyond the sizes of a decimal.
fn bound(text: &Option<String>) -> (r: Result<Option<Decimal>, ()>)
    ensures
        match r {
            Ok(Some(d)) => !out_of_range(text_view(*text)) && bound_of(text_view(*text)) == Some(
                d@,
            ),
            Ok(None) => !out_of_range(text_view(*text)) && bound_of(text_view(*text)) is None,
            Err(_) => out_of_range(text_view(*text)),
        },
{
    match text {
        Some(text) => match Decimal::read(text.as_str()) {
            Reading::Number(number) => Ok(Some(number)),
            Reading::OutOfRange => Err(()),
            Reading::NoDecimal => Ok(None),
        },
        None => Ok(None),
    }
}

impl FilterQuery {
    /// A search with no criterion.
    pub fn none() -> (r: FilterQuery)
        ensures
            r@ == (FilterQueryView {
                category: None,
                is_best_seller: None,
                is_deal_of_the_day: None,
                min_price: None,
                max_price: None,
            }),
    {
        FilterQuery {
            category: None,
            is_best_seller: None,
            is_deal_of_the_day: None,
            min_price: None,
            max_price: None,
        }
    }

    /// The predicates of this search: one for each criterion that is there,
    /// in the fixed order of [`filter_predicates`]. A blank category counts
    /// as missing, and so does a price bound that is no decimal. `None`
    /// where a price bound is a number beyond the sizes of a decimal.
    pub fn predicates(&self) -> (r: Option<Vec<Predicate>>)
        ensures
            match r {
                Some(predicates) => bounds_in_range(self@) && predicate_views(predicates@)
                    == filter_predicates(self@),
                None => !bounds_in_range(self@),
            },
    {
        let min: Option<Decimal> = match bound(&self.min_price) {
            Ok(min) => min,
            Err(_) => {
                return None;
            },
        };
        let max: Option<Decimal> = match bound(&self.max_price) {
            Ok(max) => max,
            Err(_) => {
                return None;
            },
        };
        let mut out: Vec<Predicate> = Vec::new();
        let ghost first = category_part(self@.category);
        let ghost second = first + best_seller_part(self@.is_best_seller);
        let ghost third = second + deal_part(self@.is_deal_of_the_day);
        let ghost fourth = third + min_price_part(self@.min_price);
        if let Some(text) = &self.category {
            if !blank(text.as_str()) {
                out.push(Predicate::CategoryContains(text.clone()));
            }
        }
        assert(predicate_views(out@) =~= first);
        if let Some(flag) = self.is_best_seller {
            out.push(Predicate::BestSeller(flag));
        }
        assert(predicate_views(out@) =~= second);
        if let Some(flag) = self.is_deal_of_the_day {
            out.push(Predicate::DealOfTheDay(flag));
        }
        assert(predicate_views(out@) =~= third);
        if let Some(min) = min {
            out.push(Predicate::MinPrice(min));
        }
        assert(predicate_views(out@) =~= fourth);
        if let Some(max) = max {
            out.push(Predicate::MaxPrice(max));
        }
        assert(predicate_views(out@) =~= fourth + max_price_part(self@.max_price));
        Some(out)
    }
}

} // verus!
