//! The lowering of evaluated parameters to query parameters. A caller's value
//! reaches BigQuery in no other way than this.

use vstd::prelude::*;

use crate::bigquery::QueryParameter;
use crate::decimal::{decimal, render, signed_decimal};
use crate::json::{Json, JsonView, Number, NumberView};
use crate::text::some_text;

verus! {

/// A query parameter as a mathematical value: its type's name, and its value
/// unless null.
pub struct ParameterView {
    pub parameter_type: Seq<char>,
    pub value: Option<Seq<char>>,
}

impl View for QueryParameter {
    type V = ParameterView;

    open spec fn view(&self) -> ParameterView {
        ParameterView { parameter_type: self.parameter_type@, value: some_text(self.value) }
    }
}

/// The parameters as mathematical values.
pub open spec fn parameter_views(ps: Seq<QueryParameter>) -> Seq<ParameterView> {
    Seq::new(ps.len(), |i: int| ps[i]@)
}

/// A value that can be bound: neither an array nor an object.
pub open spec fn is_scalar(v: JsonView) -> bool {
    !(v is Array) && !(v is Object)
}

/// Every value can be bound.
pub open spec fn all_scalar(values: Seq<JsonView>) -> bool {
    forall|i: int| 0 <= i < values.len() ==> is_scalar(#[trigger] values[i])
}

/// The parameter that a scalar is bound as. Null is bound as a null text.
pub open spec fn lowered(v: JsonView) -> ParameterView {
    match v {
        JsonView::Bool(b) => ParameterView {
            parameter_type: "BOOL"@,
            value: Some(
                if b {
                    "true"@
                } else {
                    "false"@
                },
            ),
        },
        JsonView::Number(NumberView::PosInt(n)) => ParameterView {
            parameter_type: "INT64"@,
            value: Some(decimal(n as nat)),
        },
        JsonView::Number(NumberView::NegInt(n)) => ParameterView {
            parameter_type: "INT64"@,
            value: Some(signed_decimal(n as int)),
        },
        JsonView::Number(NumberView::Float(text)) => ParameterView {
            parameter_type: "FLOAT64"@,
            value: Some(text),
        },
        JsonView::Str(s) => ParameterView { parameter_type: "STRING"@, value: Some(s) },
        _ => ParameterView { parameter_type: "STRING"@, value: None },
    }
}

/// The parameters that scalars are bound as, in their order.
pub open spec fn bound(values: Seq<JsonView>) -> Seq<ParameterView> {
    Seq::new(values.len(), |i: int| lowered(values[i]))
}

/// What is said of a value that cannot be bound.
pub open spec fn not_scalar_text() -> Seq<char> {
    "arrays and objects cannot be bound as query parameters"@
}

/// A parameter of the given type and value.
fn parameter(parameter_type: &str, value: Option<String>) -> (r: QueryParameter)
    ensures
        r.parameter_type@ == parameter_type@,
        r.value == value,
{
    QueryParameter { parameter_type: parameter_type.to_owned(), value }
}

/// The text of a number that may be negative.
fn signed_text(n: i64) -> (r: String)
    ensures
        r@ == signed_decimal(n as int),
{
    if n < 0 {
        proof {
            reveal_strlit("-");
        }
        let mut s = "-".to_owned();
        s.append(render((-(n as i128)) as u128).as_str());
        assert("-"@ =~= seq!['-']);
        s
    } else {
        render(n as u128)
    }
}

/// Lower a value to a query parameter. Arrays and objects are refused.
pub fn json_to_bq_param(value: &Json) -> (r: Result<QueryParameter, String>)
    ensures
        match r {
            Ok(p) => is_scalar(value@) && p@ == lowered(value@),
            Err(m) => !is_scalar(value@) && m@ == not_scalar_text(),
        },
{
    match value {
        Json::Null => Ok(parameter("STRING", None)),
        Json::Bool(b) => {
            let word = if *b {
                "true"
            } else {
                "false"
            };
            Ok(parameter("BOOL", Some(word.to_owned())))
        },
        Json::Number(n) => match n {
            Number::PosInt(u) => Ok(parameter("INT64", Some(render(*u as u128)))),
            Number::NegInt(i) => Ok(parameter("INT64", Some(signed_text(*i)))),
            Number::Float(text) => Ok(parameter("FLOAT64", Some(text.clone()))),
        },
        Json::String(s) => Ok(parameter("STRING", Some(s.clone()))),
        Json::Array(_) | Json::Object(_) => Err(
            "arrays and objects cannot be bound as query parameters".to_owned(),
        ),
    }
}

} // verus!
