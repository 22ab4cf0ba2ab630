//! The expression form of data-driven style properties: a small language of
//! attribute lookups, comparisons, matches and case analyses, evaluated
//! eagerly against one feature.

use vstd::prelude::*;

use crate::bytes::{bytes_eq, bytes_of};
use crate::style::color::Color;
use crate::tile::{FeatureView, Value, ValueModel};

verus! {

/// A value an expression evaluates to.
#[derive(Debug)]
pub enum ExpressionValue {
    Text(Vec<u8>),
    Number(i64),
    Truth(bool),
    Color(Color),
    Null,
}

/// Mathematical model of an [`ExpressionValue`].
pub enum ExpressionValueModel {
    Text(Seq<u8>),
    Number(int),
    Truth(bool),
    Color(Color),
    Null,
}

impl View for ExpressionValue {
    type V = ExpressionValueModel;

    open spec fn view(&self) -> ExpressionValueModel {
        match self {
            ExpressionValue::Text(s) => ExpressionValueModel::Text(s@),
            ExpressionValue::Number(n) => ExpressionValueModel::Number(*n as int),
            ExpressionValue::Truth(b) => ExpressionValueModel::Truth(*b),
            ExpressionValue::Color(c) => ExpressionValueModel::Color(*c),
            ExpressionValue::Null => ExpressionValueModel::Null,
        }
    }
}

/// The model of a feature attribute value, as an expression value.
pub open spec fn model_of_feature_value(v: ValueModel) -> ExpressionValueModel {
    match v {
        ValueModel::Text(s) => ExpressionValueModel::Text(s),
        ValueModel::Number(n) => ExpressionValueModel::Number(n),
        ValueModel::Truth(b) => ExpressionValueModel::Truth(b),
    }
}

/// Truthiness of an expression value: non-empty texts, non-zero numbers and
/// `true` are truthy; colors and the null value are not.
pub open spec fn spec_truthy(v: ExpressionValueModel) -> bool {
    match v {
        ExpressionValueModel::Text(s) => s.len() != 0,
        ExpressionValueModel::Number(n) => n != 0,
        ExpressionValueModel::Truth(b) => b,
        ExpressionValueModel::Color(_) => false,
        ExpressionValueModel::Null => false,
    }
}

/// Value equality between expression values: equal kinds compare by value,
/// differing kinds are never equal, and the null value equals nothing, not
/// even itself.
pub open spec fn spec_expr_eq(l: ExpressionValueModel, r: ExpressionValueModel) -> bool {
    match (l, r) {
        (ExpressionValueModel::Text(a), ExpressionValueModel::Text(b)) => a == b,
        (ExpressionValueModel::Number(a), ExpressionValueModel::Number(b)) => a == b,
        (ExpressionValueModel::Truth(a), ExpressionValueModel::Truth(b)) => a == b,
        (ExpressionValueModel::Color(a), ExpressionValueModel::Color(b)) => a == b,
        _ => false,
    }
}

impl ExpressionValue {
    /// An owned copy.
    pub fn dup(&self) -> (r: ExpressionValue)
        ensures
            r@ == self@,
    {
        match self {
            ExpressionValue::Text(s) => ExpressionValue::Text(bytes_of(s.as_slice())),
            ExpressionValue::Number(n) => ExpressionValue::Number(*n),
            ExpressionValue::Truth(b) => ExpressionValue::Truth(*b),
            ExpressionValue::Color(c) => ExpressionValue::Color(*c),
            ExpressionValue::Null => ExpressionValue::Null,
        }
    }

    /// The text bytes, when this value is a text.
    pub fn as_str(&self) -> (r: Option<&Vec<u8>>)
        ensures
            match r {
                Some(s) => self@ == ExpressionValueModel::Text(s@),
                None => !(self@ is Text),
            },
    {
        match self {
            ExpressionValue::Text(s) => Some(s),
            _ => None,
        }
    }

    /// Truthiness; see [`spec_truthy`].
    pub fn truthy(&self) -> (r: bool)
        ensures
            r == spec_truthy(self@),
    {
        match self {
            ExpressionValue::Text(s) => s.len() != 0,
            ExpressionValue::Number(n) => *n != 0,
            ExpressionValue::Truth(b) => *b,
            ExpressionValue::Color(_) => false,
            ExpressionValue::Null => false,
        }
    }
}

fn expr_eq(l: &ExpressionValue, r: &ExpressionValue) -> (res: bool)
    ensures
        res == spec_expr_eq(l@, r@),
{
    match (l, r) {
        (ExpressionValue::Text(a), ExpressionValue::Text(b)) => bytes_eq(
            a.as_slice(),
            b.as_slice(),
        ),
        (ExpressionValue::Number(a), ExpressionValue::Number(b)) => *a == *b,
        (ExpressionValue::Truth(a), ExpressionValue::Truth(b)) => *a == *b,
        (ExpressionValue::Color(a), ExpressionValue::Color(b)) => {
            let eq = match (a, b) {
                (Color::Rgba(x), Color::Rgba(y)) => x.r == y.r && x.g == y.g && x.b == y.b && x.a
                    == y.a,
                (Color::Hsla(x), Color::Hsla(y)) => x.h == y.h && x.s == y.s && x.l == y.l && x.a
                    == y.a,
                _ => false,
            };
            eq
        },
        _ => false,
    }
}

/// A comparison operator of an expression.
#[derive(Debug, Copy, Clone, PartialEq, Eq, Structural)]
pub enum Comparison {
    Eq,
    Neq,
    Lteq,
    GtEq,
    Lt,
    Gt,
}

/// Whether the comparison holds between two expression values. Ordered
/// comparisons are defined only between two numbers and are false for any
/// other pairing.
pub open spec fn spec_expr_cmp(
    cmp: Comparison,
    l: ExpressionValueModel,
    r: ExpressionValueModel,
) -> bool {
    match cmp {
        Comparison::Eq => spec_expr_eq(l, r),
        Comparison::Neq => !spec_expr_eq(l, r),
        Comparison::Lteq => l is Number && r is Number && l->Number_0 <= r->Number_0,
        Comparison::GtEq => l is Number && r is Number && l->Number_0 >= r->Number_0,
        Comparison::Lt => l is Number && r is Number && l->Number_0 < r->Number_0,
        Comparison::Gt => l is Number && r is Number && l->Number_0 > r->Number_0,
    }
}

impl Comparison {
    pub fn cmp(&self, l: &ExpressionValue, r: &ExpressionValue) -> (res: bool)
        ensures
            res == spec_expr_cmp(*self, l@, r@),
    {
        match self {
            Comparison::Eq => expr_eq(l, r),
            Comparison::Neq => !expr_eq(l, r),
            Comparison::Lteq => match (l, r) {
                (ExpressionValue::Number(a), ExpressionValue::Number(b)) => *a <= *b,
                _ => false,
            },
            Comparison::GtEq => match (l, r) {
                (ExpressionValue::Number(a), ExpressionValue::Number(b)) => *a >= *b,
                _ => false,
            },
            Comparison::Lt => match (l, r) {
                (ExpressionValue::Number(a), ExpressionValue::Number(b)) => *a < *b,
                _ => false,
            },
            Comparison::Gt => match (l, r) {
                (ExpressionValue::Number(a), ExpressionValue::Number(b)) => *a > *b,
                _ => false,
            },
        }
    }

    /// The operator written by the given token, if any.
    pub fn from_str(s: &[u8]) -> (r: Option<Comparison>)
        ensures
            r == spec_expr_comparison_token(s@),
    {
        let n = s.len();
        proof {
            if s@.len() == 2 {
                assert(s@ =~= seq![s@[0], s@[1]]);
            } else if s@.len() == 1 {
                assert(s@ =~= seq![s@[0]]);
            }
        }
        if n == 2 && s[0] == 61 && s[1] == 61 {
            Some(Comparison::Eq)
        } else if n == 2 && s[0] == 33 && s[1] == 61 {
            Some(Comparison::Neq)
        } else if n == 2 && s[0] == 60 && s[1] == 61 {
            Some(Comparison::Lteq)
        } else if n == 2 && s[0] == 62 && s[1] == 61 {
            Some(Comparison::GtEq)
        } else if n == 1 && s[0] == 60 {
            Some(Comparison::Lt)
        } else if n == 1 && s[0] == 62 {
            Some(Comparison::Gt)
        } else {
            None
        }
    }
}

/// The comparison operator a token denotes.
pub open spec fn spec_expr_comparison_token(s: Seq<u8>) -> Option<Comparison> {
    if s == seq![61u8, 61u8] {
        Some(Comparison::Eq)
    } else if s == seq![33u8, 61u8] {
        Some(Comparison::Neq)
    } else if s == seq![60u8, 61u8] {
        Some(Comparison::Lteq)
    } else if s == seq![62u8, 61u8] {
        Some(Comparison::GtEq)
    } else if s == seq![60u8] {
        Some(Comparison::Lt)
    } else if s == seq![62u8] {
        Some(Comparison::Gt)
    } else {
        None
    }
}

/// A data-driven expression tree.
#[derive(Debug)]
pub enum DataExpression {
    All(Vec<DataExpression>),
    Any(Vec<DataExpression>),
    In(Box<DataExpression>, Vec<DataExpression>),
    Has(Box<DataExpression>),
    Get(Box<DataExpression>),
    Cmp(Comparison, Box<DataExpression>, Box<DataExpression>),
    ToBoolean(Box<DataExpression>),
    Match(
        Box<DataExpression>,
        Vec<(DataExpression, DataExpression)>,
        Box<DataExpression>,
    ),
    Case(Vec<(DataExpression, DataExpression)>, Box<DataExpression>),
    Constant(ExpressionValue),
}

impl DataExpression {
    /// What the expression evaluates to on one feature.
    pub open spec fn spec_eval(self, view: FeatureView<'_>) -> ExpressionValueModel
        decreases self, 1int,
    {
        match self {
            DataExpression::All(exps) => ExpressionValueModel::Truth(
                forall|i: int|
                    0 <= i < exps@.len() ==> spec_truthy(
                        (#[trigger] exps@[i]).spec_eval(view),
                    ),
            ),
            DataExpression::Any(exps) => ExpressionValueModel::Truth(
                exists|i: int|
                    0 <= i < exps@.len() && spec_truthy(
                        (#[trigger] exps@[i]).spec_eval(view),
                    ),
            ),
            DataExpression::In(needle, values) => {
                let n = needle.spec_eval(view);
                ExpressionValueModel::Truth(
                    exists|i: int|
                        0 <= i < values@.len() && spec_expr_eq(
                            (#[trigger] values@[i]).spec_eval(view),
                            n,
                        ),
                )
            },
            DataExpression::Has(tag) => ExpressionValueModel::Truth(
                match tag.spec_eval(view) {
                    ExpressionValueModel::Text(k) => view.spec_key(k) is Some,
                    _ => false,
                },
            ),
            DataExpression::Get(tag) => match tag.spec_eval(view) {
                ExpressionValueModel::Text(k) => match view.spec_key(k) {
                    Some(v) => model_of_feature_value(v),
                    None => ExpressionValueModel::Null,
                },
                _ => ExpressionValueModel::Null,
            },
            DataExpression::Cmp(cmp, l, r) => ExpressionValueModel::Truth(
                spec_expr_cmp(cmp, l.spec_eval(view), r.spec_eval(view)),
            ),
            DataExpression::ToBoolean(v) => ExpressionValueModel::Truth(
                spec_truthy(v.spec_eval(view)),
            ),
            DataExpression::Match(input, cases, fallback) => match spec_match_cases(
                input.spec_eval(view),
                cases@,
                view,
            ) {
                Some(v) => v,
                None => fallback.spec_eval(view),
            },
            DataExpression::Case(cases, fallback) => match spec_case_cases(cases@, view) {
                Some(v) => v,
                None => fallback.spec_eval(view),
            },
            DataExpression::Constant(v) => v@,
        }
    }

    /// Whether any subexpression reads the feature's attributes, so that the
    /// result can differ from feature to feature.
    pub open spec fn spec_reads_feature(self) -> bool
        decreases self,
    {
        match self {
            DataExpression::All(exps) => exists|i: int|
                0 <= i < exps@.len() && (#[trigger] exps@[i]).spec_reads_feature(),
            DataExpression::Any(exps) => exists|i: int|
                0 <= i < exps@.len() && (#[trigger] exps@[i]).spec_reads_feature(),
            DataExpression::In(needle, values) => needle.spec_reads_feature() || exists|i: int|
                0 <= i < values@.len() && (#[trigger] values@[i]).spec_reads_feature(),
            DataExpression::Has(_) => true,
            DataExpression::Get(_) => true,
            DataExpression::Cmp(_, l, r) => l.spec_reads_feature() || r.spec_reads_feature(),
            DataExpression::ToBoolean(v) => v.spec_reads_feature(),
            DataExpression::Match(input, cases, fallback) => input.spec_reads_feature()
                || fallback.spec_reads_feature() || exists|i: int|
                0 <= i < cases@.len() && ((#[trigger] cases@[i]).0.spec_reads_feature()
                    || cases@[i].1.spec_reads_feature()),
            DataExpression::Case(cases, fallback) => fallback.spec_reads_feature() || exists|
                i: int,
            |
                0 <= i < cases@.len() && ((#[trigger] cases@[i]).0.spec_reads_feature()
                    || cases@[i].1.spec_reads_feature()),
            DataExpression::Constant(_) => false,
        }
    }
}

/// The value of the first match case whose label equals the input, if any
/// case matches.
pub open spec fn spec_match_cases(
    input: ExpressionValueModel,
    cases: Seq<(DataExpression, DataExpression)>,
    view: FeatureView<'_>,
) -> Option<ExpressionValueModel>
    decreases cases, 0int,
{
    if cases.len() == 0 {
        None
    } else if spec_expr_eq(input, cases[0].0.spec_eval(view)) {
        Some(cases[0].1.spec_eval(view))
    } else {
        spec_match_cases(input, cases.skip(1), view)
    }
}

/// The value of the first case whose condition is truthy, if any is.
pub open spec fn spec_case_cases(
    cases: Seq<(DataExpression, DataExpression)>,
    view: FeatureView<'_>,
) -> Option<ExpressionValueModel>
    decreases cases, 0int,
{
    if cases.len() == 0 {
        None
    } else if spec_truthy(cases[0].0.spec_eval(view)) {
        Some(cases[0].1.spec_eval(view))
    } else {
        spec_case_cases(cases.skip(1), view)
    }
}

impl DataExpression {
    /// Evaluates the expression against one feature.
    #[verifier::loop_isolation(false)]
    pub fn eval(&self, view: &FeatureView<'_>) -> (r: ExpressionValue)
        ensures
            r@ == self.spec_eval(*view),
        decreases *self,
    {
        match self {
            DataExpression::All(exps) => {
                let n = exps.len();
                let mut i: usize = 0;
                while i < n
                    invariant
                        0 <= i <= n,
                        n == exps@.len(),
                        forall|j: int|
                            0 <= j < i ==> spec_truthy((#[trigger] exps@[j]).spec_eval(*view)),
                    decreases n - i,
                {
                    if !exps[i].eval(view).truthy() {
                        return ExpressionValue::Truth(false);
                    }
                    i += 1;
                }
                ExpressionValue::Truth(true)
            },
            DataExpression::Any(exps) => {
                let n = exps.len();
                let mut i: usize = 0;
                while i < n
                    invariant
                        0 <= i <= n,
                        n == exps@.len(),
                        forall|j: int|
                            0 <= j < i ==> !spec_truthy((#[trigger] exps@[j]).spec_eval(*view)),
                    decreases n - i,
                {
                    if exps[i].eval(view).truthy() {
                        return ExpressionValue::Truth(true);
                    }
                    i += 1;
                }
                ExpressionValue::Truth(false)
            },
            DataExpression::In(needle, values) => {
                let nv = needle.eval(view);
                let n = values.len();
                let mut i: usize = 0;
                while i < n
                    invariant
                        0 <= i <= n,
                        n == values@.len(),
                        forall|j: int|
                            0 <= j < i ==> !spec_expr_eq(
                                (#[trigger] values@[j]).spec_eval(*view),
                                nv@,
                            ),
                    decreases n - i,
                {
                    let v = values[i].eval(view);
                    if expr_eq(&v, &nv) {
                        return ExpressionValue::Truth(true);
                    }
                    i += 1;
                }
                ExpressionValue::Truth(false)
            },
            DataExpression::Has(tag) => {
                let t = tag.eval(view);
                match t.as_str() {
                    Some(k) => ExpressionValue::Truth(view.key(k.as_slice()).is_some()),
                    None => ExpressionValue::Truth(false),
                }
            },
            DataExpression::Get(tag) => {
                let t = tag.eval(view);
                match t.as_str() {
                    Some(k) => match view.key(k.as_slice()) {
                        Some(v) => match v {
                            Value::Text(s) => ExpressionValue::Text(s),
                            Value::Number(n) => ExpressionValue::Number(n),
                            Value::Truth(b) => ExpressionValue::Truth(b),
                        },
                        None => ExpressionValue::Null,
                    },
                    None => ExpressionValue::Null,
                }
            },
            DataExpression::Cmp(cmp, l, r) => {
                let lv = l.eval(view);
                let rv = r.eval(view);
                ExpressionValue::Truth(cmp.cmp(&lv, &rv))
            },
            DataExpression::ToBoolean(v) => {
                let vv = v.eval(view);
                ExpressionValue::Truth(vv.truthy())
            },
            DataExpression::Match(input, cases, fallback) => {
                let iv = input.eval(view);
                let n = cases.len();
                let mut i: usize = 0;
                assert(cases@.skip(0) =~= cases@);
                while i < n
                    invariant
                        0 <= i <= n,
                        n == cases@.len(),
                        spec_match_cases(iv@, cases@, *view) == spec_match_cases(
                            iv@,
                            cases@.skip(i as int),
                            *view,
                        ),
                    decreases n - i,
                {
                    let ghost pre = cases@.skip(i as int);
                    assert(pre[0] == cases@[i as int]);
                    let label = cases[i].0.eval(view);
                    if expr_eq(&iv, &label) {
                        return cases[i].1.eval(view);
                    }
                    assert(pre.skip(1) =~= cases@.skip(i as int + 1));
                    i += 1;
                }
                fallback.eval(view)
            },
            DataExpression::Case(cases, fallback) => {
                let n = cases.len();
                let mut i: usize = 0;
                assert(cases@.skip(0) =~= cases@);
                while i < n
                    invariant
                        0 <= i <= n,
                        n == cases@.len(),
                        spec_case_cases(cases@, *view) == spec_case_cases(
                            cases@.skip(i as int),
                            *view,
                        ),
                    decreases n - i,
                {
                    let ghost pre = cases@.skip(i as int);
                    assert(pre[0] == cases@[i as int]);
                    let cond = cases[i].0.eval(view);
                    if cond.truthy() {
                        return cases[i].1.eval(view);
                    }
                    assert(pre.skip(1) =~= cases@.skip(i as int + 1));
                    i += 1;
                }
                fallback.eval(view)
            },
            DataExpression::Constant(v) => v.dup(),
        }
    }

    /// Whether the expression reads the feature's attributes.
    #[verifier::loop_isolation(false)]
    pub fn is_computed_from_feature(&self) -> (r: bool)
        ensures
            r == self.spec_reads_feature(),
        decreases *self,
    {
        match self {
            DataExpression::All(exps) => {
                let n = exps.len();
                let mut i: usize = 0;
                while i < n
                    invariant
                        0 <= i <= n,
                        n == exps@.len(),
                        forall|j: int| 0 <= j < i ==> !(#[trigger] exps@[j]).spec_reads_feature(),
                    decreases n - i,
                {
                    if exps[i].is_computed_from_feature() {
                        return true;
                    }
                    i += 1;
                }
                false
            },
            DataExpression::Any(exps) => {
                let n = exps.len();
                let mut i: usize = 0;
                while i < n
                    invariant
                        0 <= i <= n,
                        n == exps@.len(),
                        forall|j: int| 0 <= j < i ==> !(#[trigger] exps@[j]).spec_reads_feature(),
                    decreases n - i,
                {
                    if exps[i].is_computed_from_feature() {
                        return true;
                    }
                    i += 1;
                }
                false
            },
            DataExpression::In(needle, values) => {
                if needle.is_computed_from_feature() {
                    return true;
                }
                let n = values.len();
                let mut i: usize = 0;
                while i < n
                    invariant
                        0 <= i <= n,
                        n == values@.len(),
                        forall|j: int| 0 <= j < i ==> !(#[trigger] values@[j]).spec_reads_feature(),
                    decreases n - i,
                {
                    if values[i].is_computed_from_feature() {
                        return true;
                    }
                    i += 1;
                }
                false
            },
            DataExpression::Has(_) => true,
            DataExpression::Get(_) => true,
            DataExpression::Cmp(_, l, r) => l.is_computed_from_feature()
                || r.is_computed_from_feature(),
            DataExpression::ToBoolean(v) => v.is_computed_from_feature(),
            DataExpression::Match(input, cases, fallback) => {
                if input.is_computed_from_feature() || fallback.is_computed_from_feature() {
                    return true;
                }
                let n = cases.len();
                let mut i: usize = 0;
                while i < n
                    invariant
                        0 <= i <= n,
                        n == cases@.len(),
                        forall|j: int|
                            0 <= j < i ==> !((#[trigger] cases@[j]).0.spec_reads_feature()
                                || cases@[j].1.spec_reads_feature()),
                    decreases n - i,
                {
                    if cases[i].0.is_computed_from_feature()
                        || cases[i].1.is_computed_from_feature() {
                        return true;
                    }
                    i += 1;
                }
                false
            },
            DataExpression::Case(cases, fallback) => {
                if fallback.is_computed_from_feature() {
                    return true;
                }
                let n = cases.len();
                let mut i: usize = 0;
                while i < n
                    invariant
                        0 <= i <= n,
                        n == cases@.len(),
                        forall|j: int|
                            0 <= j < i ==> !((#[trigger] cases@[j]).0.spec_reads_feature()
                                || cases@[j].1.spec_reads_feature()),
                    decreases n - i,
                {
                    if cases[i].0.is_computed_from_feature()
                        || cases[i].1.is_computed_from_feature() {
                        return true;
                    }
                    i += 1;
                }
                false
            },
            DataExpression::Constant(_) => false,
        }
    }
}

} // verus!
