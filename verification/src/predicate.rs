//! Search predicates: one condition on a product and its category, carrying
//! the value it is bound to.

use crate::decimal::as_sent;
use crate::decimal::decimal_le;
use crate::decimal::Decimal;
use crate::decimal::DecimalView;
use crate::model::ProductWithCategory;
use crate::model::ProductWithCategoryView;
use crate::text::find_in;
use crate::text::found_in;
use crate::text::like_pattern;
use vstd::prelude::*;

verus! {

/// One condition of a search. A row is an answer when every condition of the
/// search holds of it.
#[derive(Debug)]
pub enum Predicate {
    /// The category's name is found by this text: the text is a pattern,
    /// sought anywhere in the name, the case of letters ignored.
    CategoryContains(String),
    /// The best-seller mark is this.
    BestSeller(bool),
    /// The deal-of-the-day mark is this.
    DealOfTheDay(bool),
    /// The price is at least this.
    MinPrice(Decimal),
    /// The price is at most this.
    MaxPrice(Decimal),
}

/// The content of a [`Predicate`].
pub enum PredicateView {
    CategoryContains(Seq<char>),
    BestSeller(bool),
    DealOfTheDay(bool),
    MinPrice(DecimalView),
    MaxPrice(DecimalView),
}

impl View for Predicate {
    type V = PredicateView;

    open spec fn view(&self) -> PredicateView {
        match self {
            Predicate::CategoryContains(text) => PredicateView::CategoryContains(text@),
            Predicate::BestSeller(flag) => PredicateView::BestSeller(*flag),
            Predicate::DealOfTheDay(flag) => PredicateView::DealOfTheDay(*flag),
            Predicate::MinPrice(bound) => PredicateView::MinPrice(bound@),
            Predicate::MaxPrice(bound) => PredicateView::MaxPrice(bound@),
        }
    }
}

/// A value bound to a placeholder of a query.
#[derive(Debug)]
pub enum Param {
    Text(String),
    Flag(bool),
    Number(Decimal),
    Integer(i32),
    Long(i64),
}

/// The content of a [`Param`].
pub enum ParamView {
    Text(Seq<char>),
    Flag(bool),
    Number(DecimalView),
    Integer(int),
    Long(int),
}

impl View for Param {
    type V = ParamView;

    open spec fn view(&self) -> ParamView {
        match self {
            Param::Text(text) => ParamView::Text(text@),
            Param::Flag(flag) => ParamView::Flag(*flag),
            Param::Number(number) => ParamView::Number(number@),
            Param::Integer(number) => ParamView::Integer(*number as int),
            Param::Long(number) => ParamView::Long(*number as int),
        }
    }
}

/// The contents of a sequence of predicates.
pub open spec fn predicate_views(predicates: Seq<Predicate>) -> Seq<PredicateView> {
    Seq::new(predicates.len(), |i: int| predicates[i]@)
}

/// The contents of a sequence of bound values.
pub open spec fn param_views(params: Seq<Param>) -> Seq<ParamView> {
    Seq::new(params.len(), |i: int| params[i]@)
}

/// The value that a predicate binds.
pub open spec fn param_of(predicate: PredicateView) -> ParamView {
    match predicate {
        PredicateView::CategoryContains(text) => ParamView::Text(like_pattern(text)),
        PredicateView::BestSeller(flag) => ParamView::Flag(flag),
        PredicateView::DealOfTheDay(flag) => ParamView::Flag(flag),
        PredicateView::MinPrice(bound) => ParamView::Number(bound),
        PredicateView::MaxPrice(bound) => ParamView::Number(bound),
    }
}

/// A value as the store receives it: a number as [`as_sent`] has it, every
/// other value as it is.
pub open spec fn sent(param: ParamView) -> ParamView {
    match param {
        ParamView::Number(number) => ParamView::Number(as_sent(number)),
        other => other,
    }
}

/// The values of a list as the store receives them, one for one.
pub open spec fn sent_params(params: Seq<ParamView>) -> Seq<ParamView> {
    Seq::new(params.len(), |i: int| sent(params[i]))
}

/// The values that a list of predicates binds, in the order of the list.
pub open spec fn params_of(predicates: Seq<PredicateView>) -> Seq<ParamView> {
    Seq::new(predicates.len(), |i: int| param_of(predicates[i]))
}

/// Whether a predicate holds of a joined row.
pub open spec fn holds(predicate: PredicateView, row: ProductWithCategoryView) -> bool {
    match predicate {
        PredicateView::CategoryContains(text) => found_in(row.category_name, text),
        PredicateView::BestSeller(flag) => row.is_best_seller == flag,
        PredicateView::DealOfTheDay(flag) => row.is_deal_of_the_day == flag,
        PredicateView::MinPrice(bound) => decimal_le(bound, row.price),
        PredicateView::MaxPrice(bound) => decimal_le(row.price, bound),
    }
}

/// Whether every predicate of a list holds of a joined row.
pub open spec fn holds_all(predicates: Seq<PredicateView>, row: ProductWithCategoryView) -> bool {
    forall|i: int| 0 <= i < predicates.len() ==> holds(#[trigger] predicates[i], row)
}

impl Clone for Predicate {
    fn clone(&self) -> (r: Self)
        ensures
            r@ == self@,
    {
        match self {
            Predicate::CategoryContains(text) => Predicate::CategoryContains(text.clone()),
            Predicate::BestSeller(flag) => Predicate::BestSeller(*flag),
            Predicate::DealOfTheDay(flag) => Predicate::DealOfTheDay(*flag),
            Predicate::MinPrice(bound) => Predicate::MinPrice(bound.clone()),
            Predicate::MaxPrice(bound) => Predicate::MaxPrice(bound.clone()),
        }
    }
}

/// The pattern that finds `text` anywhere in a name.
pub fn pattern(text: &str) -> (r: String)
    ensures
        r@ == like_pattern(text@),
{
    let mut pattern: String = "%".to_owned();
    pattern.append(text);
    pattern.append("%");
    proof {
        reveal_strlit("%");
        assert(pattern@ =~= like_pattern(text@));
    }
    pattern
}

impl Predicate {
    /// The value that this predicate binds.
    pub fn param(&self) -> (r: Param)
        ensures
            r@ == param_of(self@),
    {
        match self {
            Predicate::CategoryContains(text) => Param::Text(pattern(text.as_str())),
            Predicate::BestSeller(flag) => Param::Flag(*flag),
            Predicate::DealOfTheDay(flag) => Param::Flag(*flag),
            Predicate::MinPrice(bound) => Param::Number(bound.clone()),
            Predicate::MaxPrice(bound) => Param::Number(bound.clone()),
        }
    }

    /// Whether this predicate holds of a joined row.
    pub fn holds(&self, row: &ProductWithCategory) -> (r: bool)
        ensures
            r == holds(self@, row@),
    {
        match self {
            Predicate::CategoryContains(text) => find_in(
                row.category_name.as_str(),
                text.as_str(),
            ),
            Predicate::BestSeller(flag) => row.is_best_seller == *flag,
            Predicate::DealOfTheDay(flag) => row.is_deal_of_the_day == *flag,
            Predicate::MinPrice(bound) => bound.le(&row.price),
            Predicate::MaxPrice(bound) => row.price.le(bound),
        }
    }
}

/// Whether every predicate of a list holds of a joined row.
pub fn all_hold(predicates: &Vec<Predicate>, row: &ProductWithCategory) -> (r: bool)
    ensures
        r == holds_all(predicate_views(predicates@), row@),
{
    let mut i: usize = 0;
    while i < predicates.len()
        invariant
            i <= predicates.len(),
            forall|j: int| 0 <= j < i ==> holds(#[trigger] predicate_views(predicates@)[j], row@),
        decreases predicates.len() - i,
    {
        if !predicates[i].holds(row) {
            assert(!holds(predicate_views(predicates@)[i as int], row@));
            return false;
        }
        i += 1;
    }
    true
}

/// The values that a list of predicates binds, in the order of the list.
pub fn params(predicates: &Vec<Predicate>) -> (r: Vec<Param>)
    ensures
        param_views(r@) == params_of(predicate_views(predicates@)),
{
    let mut out: Vec<Param> = Vec::new();
    let mut i: usize = 0;
    while i < predicates.len()
        invariant
            i <= predicates.len(),
            out.len() == i,
            forall|j: int| 0 <= j < i ==> (#[trigger] out@[j])@ == param_of(predicates@[j]@),
        decreases predicates.len() - i,
    {
        out.push(predicates[i].param());
        i += 1;
    }
    assert(param_views(out@) =~= params_of(predicate_views(predicates@)));
    out
}

} // verus!
