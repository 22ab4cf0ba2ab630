//! The legacy filter expression form of a layer: a small predicate language
//! over one feature's attributes.

use vstd::prelude::*;

use crate::bytes::bytes_eq;
use crate::tile::{FeatureView, Value, ValueModel};

verus! {

/// A literal a filter compares against.
#[derive(Debug, Clone)]
pub enum FilterValue {
    Text(Vec<u8>),
    Number(i64),
    Truth(bool),
}

impl View for FilterValue {
    type V = ValueModel;

    open spec fn view(&self) -> ValueModel {
        match self {
            FilterValue::Text(s) => ValueModel::Text(s@),
            FilterValue::Number(n) => ValueModel::Number(*n as int),
            FilterValue::Truth(b) => ValueModel::Truth(*b),
        }
    }
}

/// How a filter literal compares against a feature value: equal kinds compare
/// by value, differing kinds are never equal, and order exists between
/// numbers only.
pub open spec fn spec_value_eq(l: ValueModel, r: ValueModel) -> bool {
    match (l, r) {
        (ValueModel::Text(a), ValueModel::Text(b)) => a == b,
        (ValueModel::Number(a), ValueModel::Number(b)) => a == b,
        (ValueModel::Truth(a), ValueModel::Truth(b)) => a == b,
        _ => false,
    }
}

/// Whether the comparison holds. Ordered comparisons are defined only between
/// two numbers and are false for any other pairing.
pub open spec fn spec_cmp_holds(cmp: Comparison, l: ValueModel, r: ValueModel) -> bool {
    match cmp {
        Comparison::Eq => spec_value_eq(l, r),
        Comparison::Neq => !spec_value_eq(l, r),
        Comparison::Lteq => l is Number && r is Number && l->Number_0 <= r->Number_0,
        Comparison::GtEq => l is Number && r is Number && l->Number_0 >= r->Number_0,
        Comparison::Lt => l is Number && r is Number && l->Number_0 < r->Number_0,
        Comparison::Gt => l is Number && r is Number && l->Number_0 > r->Number_0,
    }
}

fn value_eq(l: &FilterValue, r: &Value) -> (res: bool)
    ensures
        res == spec_value_eq(l@, r@),
{
    match (l, r) {
        (FilterValue::Text(a), Value::Text(b)) => bytes_eq(a.as_slice(), b.as_slice()),
        (FilterValue::Number(a), Value::Number(b)) => *a == *b,
        (FilterValue::Truth(a), Value::Truth(b)) => *a == *b,
        _ => false,
    }
}

/// A comparison operator of a filter.
#[derive(Debug, Copy, Clone, PartialEq, Eq, Structural)]
pub enum Comparison {
    Eq,
    Neq,
    Lteq,
    GtEq,
    Lt,
    Gt,
}

impl Comparison {
    /// What a comparison against a missing key evaluates to: true for the
    /// not-equal comparison, false for every other.
    pub fn default(&self) -> (r: bool)
        ensures
            r == (*self is Neq),
    {
        match self {
            Comparison::Neq => true,
            _ => false,
        }
    }

    /// Compares a filter literal against a feature value.
    pub fn cmp(&self, l: &FilterValue, r: &Value) -> (res: bool)
        ensures
            res == spec_cmp_holds(*self, l@, r@),
    {
        match self {
            Comparison::Eq => value_eq(l, r),
            Comparison::Neq => !value_eq(l, r),
            Comparison::Lteq => match (l, r) {
                (FilterValue::Number(a), Value::Number(b)) => *a <= *b,
                _ => false,
            },
            Comparison::GtEq => match (l, r) {
                (FilterValue::Number(a), Value::Number(b)) => *a >= *b,
                _ => false,
            },
            Comparison::Lt => match (l, r) {
                (FilterValue::Number(a), Value::Number(b)) => *a < *b,
                _ => false,
            },
            Comparison::Gt => match (l, r) {
                (FilterValue::Number(a), Value::Number(b)) => *a > *b,
                _ => false,
            },
        }
    }

    /// The operator written by the given token, if any.
    pub fn from_str(s: &[u8]) -> (r: Option<Comparison>)
        ensures
            r == spec_comparison_token(s@),
    {
        let n = s.len();
        proof {
            if s@.len() == 2 {
                assert(s@ =~= seq![s@[0], s@[1]]);
            } else if s@.len() == 1 {
                assert(s@ =~= seq![s@[0]]);
            }
        }
        if n == 2 && s[0] == 61 && s[1] == 61 {
            Some(Comparison::Eq)
        } else if n == 2 && s[0] == 33 && s[1] == 61 {
            Some(Comparison::Neq)
        } else if n == 2 && s[0] == 60 && s[1] == 61 {
            Some(Comparison::Lteq)
        } else if n == 2 && s[0] == 62 && s[1] == 61 {
            Some(Comparison::GtEq)
        } else if n == 1 && s[0] == 60 {
            Some(Comparison::Lt)
        } else if n == 1 && s[0] == 62 {
            Some(Comparison::Gt)
        } else {
            None
        }
    }
}

/// The comparison operator a token denotes.
pub open spec fn spec_comparison_token(s: Seq<u8>) -> Option<Comparison> {
    if s == seq![61u8, 61u8] {
        Some(Comparison::Eq)
    } else if s == seq![33u8, 61u8] {
        Some(Comparison::Neq)
    } else if s == seq![60u8, 61u8] {
        Some(Comparison::Lteq)
    } else if s == seq![62u8, 61u8] {
        Some(Comparison::GtEq)
    } else if s == seq![60u8] {
        Some(Comparison::Lt)
    } else if s == seq![62u8] {
        Some(Comparison::Gt)
    } else {
        None
    }
}

/// A layer filter: conjunctions and disjunctions of key/value predicates.
#[derive(Debug)]
pub enum FilterExpression {
    All(Vec<FilterExpression>),
    Any(Vec<FilterExpression>),
    In(Vec<u8>, Vec<FilterValue>),
    NotIn(Vec<u8>, Vec<FilterValue>),
    Has(FilterValue),
    NotHas(FilterValue),
    Cmp(Vec<u8>, Comparison, FilterValue),
    True,
}

impl FilterExpression {
    /// What the filter evaluates to on one feature. A comparison against a
    /// missing key takes the operator's default (true only for not-equal); a
    /// membership test against a missing key is false (and its negation
    /// true).
    pub open spec fn spec_eval(self, view: FeatureView<'_>) -> bool
        decreases self,
    {
        match self {
            FilterExpression::All(filters) => forall|i: int|
                0 <= i < filters@.len() ==> (#[trigger] filters@[i]).spec_eval(view),
            FilterExpression::Any(filters) => exists|i: int|
                0 <= i < filters@.len() && (#[trigger] filters@[i]).spec_eval(view),
            FilterExpression::In(tag, values) => match view.spec_key(tag@) {
                Some(v) => exists|i: int|
                    0 <= i < values@.len() && spec_value_eq((#[trigger] values@[i])@, v),
                None => false,
            },
            FilterExpression::NotIn(tag, values) => match view.spec_key(tag@) {
                Some(v) => forall|i: int|
                    0 <= i < values@.len() ==> !spec_value_eq((#[trigger] values@[i])@, v),
                None => true,
            },
            FilterExpression::Has(tag) => match tag@ {
                ValueModel::Text(k) => view.spec_key(k) is Some,
                _ => false,
            },
            FilterExpression::NotHas(tag) => match tag@ {
                ValueModel::Text(k) => view.spec_key(k) is None,
                _ => true,
            },
            FilterExpression::Cmp(tag, cmp, value) => match view.spec_key(tag@) {
                Some(v) => spec_cmp_holds(cmp, value@, v),
                None => cmp is Neq,
            },
            FilterExpression::True => true,
        }
    }

    /// Evaluates the filter against one feature.
    #[verifier::loop_isolation(false)]
    pub fn eval(&self, view: &FeatureView<'_>) -> (r: bool)
        ensures
            r == self.spec_eval(*view),
        decreases *self,
    {
        match self {
            FilterExpression::All(filters) => {
                let n = filters.len();
                let mut i: usize = 0;
                while i < n
                    invariant
                        0 <= i <= n,
                        n == filters@.len(),
                        forall|j: int| 0 <= j < i ==> (#[trigger] filters@[j]).spec_eval(*view),
                    decreases n - i,
                {
                    if !filters[i].eval(view) {
                        return false;
                    }
                    i += 1;
                }
                true
            },
            FilterExpression::Any(filters) => {
                let n = filters.len();
                let mut i: usize = 0;
                while i < n
                    invariant
                        0 <= i <= n,
                        n == filters@.len(),
                        forall|j: int| 0 <= j < i ==> !(#[trigger] filters@[j]).spec_eval(*view),
                    decreases n - i,
                {
                    if filters[i].eval(view) {
                        return true;
                    }
                    i += 1;
                }
                false
            },
            FilterExpression::In(tag, values) => {
                match view.key(tag.as_slice()) {
                    Some(v) => {
                        let n = values.len();
                        let mut i: usize = 0;
                        while i < n
                            invariant
                                0 <= i <= n,
                                n == values@.len(),
                                forall|j: int|
                                    0 <= j < i ==> !spec_value_eq((#[trigger] values@[j])@, v@),
                            decreases n - i,
                        {
                            if value_eq(&values[i], &v) {
                                return true;
                            }
                            i += 1;
                        }
                        false
                    },
                    None => false,
                }
            },
            FilterExpression::NotIn(tag, values) => {
                match view.key(tag.as_slice()) {
                    Some(v) => {
                        let n = values.len();
                        let mut i: usize = 0;
                        while i < n
                            invariant
                                0 <= i <= n,
                                n == values@.len(),
                                forall|j: int|
                                    0 <= j < i ==> !spec_value_eq((#[trigger] values@[j])@, v@),
                            decreases n - i,
                        {
                            if value_eq(&values[i], &v) {
                                return false;
                            }
                            i += 1;
                        }
                        true
                    },
                    None => true,
                }
            },
            FilterExpression::Has(tag) => {
                match tag {
                    FilterValue::Text(k) => view.key(k.as_slice()).is_some(),
                    _ => false,
                }
            },
            FilterExpression::NotHas(tag) => {
                match tag {
                    FilterValue::Text(k) => view.key(k.as_slice()).is_none(),
                    _ => true,
                }
            },
            FilterExpression::Cmp(tag, cmp, value) => {
                match view.key(tag.as_slice()) {
                    Some(v) => cmp.cmp(value, &v),
                    None => cmp.default(),
                }
            },
            FilterExpression::True => true,
        }
    }
}

/// The asymmetric default of comparisons against a missing key: a not-equal
/// filter holds, every other comparison fails.
pub proof fn lemma_missing_key_comparison(
    tag: Vec<u8>,
    cmp: Comparison,
    value: FilterValue,
    view: FeatureView<'_>,
)
    requires
        view.spec_key(tag@) is None,
    ensures
        FilterExpression::Cmp(tag, cmp, value).spec_eval(view) == (cmp is Neq),
{
}

} // verus!
