//! The typed-setter protocol: how a record with typed fields takes values
//! of the language into its fields and gives them back.

use vstd::prelude::*;
use vstd::string::*;

use crate::text::{concat, str_eq};
use crate::evaluation::{evaluation_view, EvaluationError, EvaluationErrorView, EvaluationOutcome};
use crate::value::{result_view, Value, ValueError, ValueErrorView, ValueOutcome, ValueView};

verus! {

/// The type of a field.
#[derive(Debug, Clone, Copy, PartialEq, Eq, Structural)]
pub enum FieldType {
    Int,
    Str,
    Bool,
}

impl FieldType {
    /// The name of the variant of `Value` that the field holds.
    pub open spec fn name(self) -> Seq<char> {
        match self {
            FieldType::Int => "int"@,
            FieldType::Str => "str"@,
            FieldType::Bool => "bool"@,
        }
    }

    /// Whether a field of this type holds `value`.
    pub open spec fn admits(self, value: ValueView) -> bool {
        match self {
            FieldType::Int => value is Int,
            FieldType::Str => value is Str,
            FieldType::Bool => value is Bool,
        }
    }

    /// The name of the variant of `Value` that the field holds.
    pub fn type_str(&self) -> (r: &'static str)
        ensures
            r@ == self.name(),
    {
        match self {
            FieldType::Int => "int",
            FieldType::Str => "str",
            FieldType::Bool => "bool",
        }
    }
}

/// The failure of storing a value of another type in a field.
pub open spec fn wrong_type(field: Seq<char>, ty: FieldType) -> ValueErrorView {
    ValueErrorView::Other { message: "variable "@ + field + " shoud be of type "@ + ty.name() }
}

/// The failure of storing `Empty` in a field that cannot be null.
pub open spec fn cannot_be_empty(field: Seq<char>) -> ValueErrorView {
    ValueErrorView::Other { message: "variable "@ + field + " cannot be empty"@ }
}

/// What a field makes of a value: the value itself where its variant is
/// the field's type; `Empty`, which clears the field, where the field is
/// nullable; a failure otherwise.
pub open spec fn accepted(
    field: Seq<char>,
    ty: FieldType,
    optional: bool,
    value: ValueView,
) -> ValueOutcome {
    if ty.admits(value) {
        Ok(value)
    } else if value is Empty {
        if optional {
            Ok(ValueView::Empty)
        } else {
            Err(cannot_be_empty(field))
        }
    } else {
        Err(wrong_type(field, ty))
    }
}

/// Checks `value` against the field `field` of type `ty`.
pub fn accept(field: &str, ty: FieldType, optional: bool, value: Value) -> (r: Result<
    Value,
    ValueError,
>)
    ensures
        result_view(r) == accepted(field@, ty, optional, value@),
{
    let fits = match ty {
        FieldType::Int => matches!(value, Value::Int(_)),
        FieldType::Str => matches!(value, Value::Str(_)),
        FieldType::Bool => matches!(value, Value::Bool(_)),
    };
    if fits {
        Ok(value)
    } else if matches!(value, Value::Empty) {
        if optional {
            Ok(Value::Empty)
        } else {
            let mut message = concat("variable ", field);
            message.append(" cannot be empty");
            Err(ValueError::new_other(message))
        }
    } else {
        let mut message = concat("variable ", field);
        message.append(" shoud be of type ");
        message.append(ty.type_str());
        Err(ValueError::new_other(message))
    }
}

/// The model of a checked integer field.
pub open spec fn int_of(r: ValueOutcome) -> Result<Option<i64>, ValueErrorView> {
    match r {
        Ok(ValueView::Int(i)) => Ok(Some(i)),
        Ok(_) => Ok(None),
        Err(error) => Err(error),
    }
}

/// The model of a checked string field.
pub open spec fn str_of(r: ValueOutcome) -> Result<Option<Seq<char>>, ValueErrorView> {
    match r {
        Ok(ValueView::Str(s)) => Ok(Some(s)),
        Ok(_) => Ok(None),
        Err(error) => Err(error),
    }
}

/// The model of a checked boolean field.
pub open spec fn bool_of(r: ValueOutcome) -> Result<Option<bool>, ValueErrorView> {
    match r {
        Ok(ValueView::Bool(b)) => Ok(Some(b)),
        Ok(_) => Ok(None),
        Err(error) => Err(error),
    }
}

/// The new content of a nullable integer field.
pub fn optional_int(field: &str, value: Value) -> (r: Result<Option<i64>, ValueError>)
    ensures
        match r {
            Ok(content) => Ok(content),
            Err(error) => Err(error@),
        } == int_of(accepted(field@, FieldType::Int, true, value@)),
{
    match accept(field, FieldType::Int, true, value) {
        Ok(Value::Int(i)) => Ok(Some(i)),
        Ok(_) => Ok(None),
        Err(error) => Err(error),
    }
}

/// The new content of an integer field.
pub fn required_int(field: &str, value: Value) -> (r: Result<i64, ValueError>)
    ensures
        match r {
            Ok(content) => Ok(Some(content)),
            Err(error) => Err(error@),
        } == int_of(accepted(field@, FieldType::Int, false, value@)),
{
    match accept(field, FieldType::Int, false, value) {
        Ok(Value::Int(i)) => Ok(i),
        Ok(_) => {
            proof {
                assert(false);
            }
            Ok(0)
        },
        Err(error) => Err(error),
    }
}

/// The new content of a nullable string field.
pub fn optional_str(field: &str, value: Value) -> (r: Result<Option<String>, ValueError>)
    ensures
        match r {
            Ok(Some(content)) => Ok(Some(content@)),
            Ok(None) => Ok(None),
            Err(error) => Err(error@),
        } == str_of(accepted(field@, FieldType::Str, true, value@)),
{
    match accept(field, FieldType::Str, true, value) {
        Ok(Value::Str(s)) => Ok(Some(s)),
        Ok(_) => Ok(None),
        Err(error) => Err(error),
    }
}

/// The new content of a string field.
pub fn required_str(field: &str, value: Value) -> (r: Result<String, ValueError>)
    ensures
        match r {
            Ok(content) => Ok(Some(content@)),
            Err(error) => Err(error@),
        } == str_of(accepted(field@, FieldType::Str, false, value@)),
{
    match accept(field, FieldType::Str, false, value) {
        Ok(Value::Str(s)) => Ok(s),
        Ok(_) => {
            proof {
                assert(false);
            }
            Ok(String::new())
        },
        Err(error) => Err(error),
    }
}

/// The new content of a nullable boolean field.
pub fn optional_bool(field: &str, value: Value) -> (r: Result<Option<bool>, ValueError>)
    ensures
        match r {
            Ok(content) => Ok(content),
            Err(error) => Err(error@),
        } == bool_of(accepted(field@, FieldType::Bool, true, value@)),
{
    match accept(field, FieldType::Bool, true, value) {
        Ok(Value::Bool(b)) => Ok(Some(b)),
        Ok(_) => Ok(None),
        Err(error) => Err(error),
    }
}

/// The new content of a boolean field.
pub fn required_bool(field: &str, value: Value) -> (r: Result<bool, ValueError>)
    ensures
        match r {
            Ok(content) => Ok(Some(content)),
            Err(error) => Err(error@),
        } == bool_of(accepted(field@, FieldType::Bool, false, value@)),
{
    match accept(field, FieldType::Bool, false, value) {
        Ok(Value::Bool(b)) => Ok(b),
        Ok(_) => {
            proof {
                assert(false);
            }
            Ok(false)
        },
        Err(error) => Err(error),
    }
}

/// The model of the value of a nullable integer field.
pub open spec fn int_model(content: Option<i64>) -> ValueView {
    match content {
        Some(i) => ValueView::Int(i),
        None => ValueView::Empty,
    }
}

/// The model of the value of a nullable string field.
pub open spec fn str_model(content: Option<String>) -> ValueView {
    match content {
        Some(s) => ValueView::Str(s@),
        None => ValueView::Empty,
    }
}

/// The model of the value of a nullable boolean field.
pub open spec fn bool_model(content: Option<bool>) -> ValueView {
    match content {
        Some(b) => ValueView::Bool(b),
        None => ValueView::Empty,
    }
}

/// The value of a nullable integer field: `Empty` where it is null.
pub fn int_or_empty(content: Option<i64>) -> (r: Value)
    ensures
        r@ == int_model(content),
{
    match content {
        Some(i) => Value::Int(i),
        None => Value::Empty,
    }
}

/// The value of a nullable string field: `Empty` where it is null.
pub fn str_or_empty(content: Option<String>) -> (r: Value)
    ensures
        r@ == str_model(content),
{
    match content {
        Some(s) => Value::Str(s),
        None => Value::Empty,
    }
}

/// The value of a nullable boolean field: `Empty` where it is null.
pub fn bool_or_empty(content: Option<bool>) -> (r: Value)
    ensures
        r@ == bool_model(content),
{
    match content {
        Some(b) => Value::Bool(b),
        None => Value::Empty,
    }
}

/// The description of one field of a record.
#[derive(Debug)]
pub struct Field {
    pub name: String,
    pub ty: FieldType,
    pub optional: bool,
}

/// The mathematical model of a `Field`.
pub struct FieldView {
    pub name: Seq<char>,
    pub ty: FieldType,
    pub optional: bool,
}

/// The description of a record: its name and its fields in order.
#[derive(Debug)]
pub struct Derived {
    pub name: String,
    pub fields: Vec<Field>,
}

/// The mathematical model of a `Derived`.
pub struct DerivedView {
    pub name: Seq<char>,
    pub fields: Seq<FieldView>,
}

/// Why a record cannot be described.
#[derive(Debug)]
pub enum DeriveError {
    /// The declared type of a field is none of the six supported ones.
    UnsupportedType { field: String, declared: String },
    /// A field is nullable where nullable fields are not allowed.
    OptionalField { field: String },
}

/// The mathematical model of a `DeriveError`.
pub enum DeriveErrorView {
    UnsupportedType { field: Seq<char>, declared: Seq<char> },
    OptionalField { field: Seq<char> },
}

impl View for Field {
    type V = FieldView;

    open spec fn view(&self) -> FieldView {
        FieldView { name: self.name@, ty: self.ty, optional: self.optional }
    }
}

impl View for Derived {
    type V = DerivedView;

    open spec fn view(&self) -> DerivedView {
        DerivedView { name: self.name@, fields: self.fields@.map_values(|f: Field| f@) }
    }
}

impl View for DeriveError {
    type V = DeriveErrorView;

    open spec fn view(&self) -> DeriveErrorView {
        match self {
            DeriveError::UnsupportedType { field, declared } => DeriveErrorView::UnsupportedType {
                field: field@,
                declared: declared@,
            },
            DeriveError::OptionalField { field } => DeriveErrorView::OptionalField {
                field: field@,
            },
        }
    }
}

impl DeriveErrorView {
    /// The message shown to the user.
    pub open spec fn text(self) -> Seq<char> {
        match self {
            DeriveErrorView::UnsupportedType { field, declared } => "Unsupported type "@
                + declared + ")"@,
            DeriveErrorView::OptionalField { field } => "Option fields are not supported"@,
        }
    }
}

impl DeriveError {
    /// The message shown to the user.
    pub fn to_string(&self) -> (r: String)
        ensures
            r@ == self@.text(),
    {
        match self {
            DeriveError::UnsupportedType { field, declared } => {
                let mut out = concat("Unsupported type ", declared.as_str());
                out.append(")");
                out
            },
            DeriveError::OptionalField { field } => "Option fields are not supported".to_owned(),
        }
    }
}

/// The type and the nullability that a declared type stands for: `i64`,
/// `String` and `bool`, and each of them inside `Option < .. >`.
pub open spec fn declared_type(declared: Seq<char>) -> Option<(FieldType, bool)> {
    if declared == "i64"@ {
        Some((FieldType::Int, false))
    } else if declared == "String"@ {
        Some((FieldType::Str, false))
    } else if declared == "bool"@ {
        Some((FieldType::Bool, false))
    } else if declared == "Option < i64 >"@ {
        Some((FieldType::Int, true))
    } else if declared == "Option < String >"@ {
        Some((FieldType::Str, true))
    } else if declared == "Option < bool >"@ {
        Some((FieldType::Bool, true))
    } else {
        None
    }
}

/// The description of the field `name` declared with the type `declared`.
pub open spec fn parsed_field(
    name: Seq<char>,
    declared: Seq<char>,
    allow_optional: bool,
) -> Result<FieldView, DeriveErrorView> {
    match declared_type(declared) {
        None => Err(DeriveErrorView::UnsupportedType { field: name, declared }),
        Some((ty, optional)) => if optional && !allow_optional {
            Err(DeriveErrorView::OptionalField { field: name })
        } else {
            Ok(FieldView { name, ty, optional })
        },
    }
}

/// The descriptions of the declared fields, in order, or the failure of the
/// first field that has one.
pub open spec fn parsed_fields(
    declared: Seq<(Seq<char>, Seq<char>)>,
    allow_optional: bool,
) -> Result<Seq<FieldView>, DeriveErrorView>
    decreases declared.len(),
{
    if declared.len() == 0 {
        Ok(Seq::empty())
    } else {
        match parsed_fields(declared.drop_last(), allow_optional) {
            Err(error) => Err(error),
            Ok(front) => match parsed_field(
                declared.last().0,
                declared.last().1,
                allow_optional,
            ) {
                Err(error) => Err(error),
                Ok(field) => Ok(front.push(field)),
            },
        }
    }
}

/// The model of a list of declared fields.
pub open spec fn declared_view(declared: Seq<(String, String)>) -> Seq<(Seq<char>, Seq<char>)> {
    declared.map_values(|d: (String, String)| (d.0@, d.1@))
}

/// The type and the nullability that a declared type stands for.
pub fn parse_type(declared: &str) -> (r: Option<(FieldType, bool)>)
    ensures
        r == declared_type(declared@),
{
    if str_eq(declared, "i64") {
        Some((FieldType::Int, false))
    } else if str_eq(declared, "String") {
        Some((FieldType::Str, false))
    } else if str_eq(declared, "bool") {
        Some((FieldType::Bool, false))
    } else if str_eq(declared, "Option < i64 >") {
        Some((FieldType::Int, true))
    } else if str_eq(declared, "Option < String >") {
        Some((FieldType::Str, true))
    } else if str_eq(declared, "Option < bool >") {
        Some((FieldType::Bool, true))
    } else {
        None
    }
}

/// Describes the record `name` from the names and declared types of its
/// fields. The first field with an unsupported type, or that is nullable
/// where `allow_optional` is not set, is the failure.
pub fn parse(name: String, declared: &Vec<(String, String)>, allow_optional: bool) -> (r: Result<
    Derived,
    DeriveError,
>)
    ensures
        match r {
            Ok(derived) => Ok(derived@.fields),
            Err(error) => Err(error@),
        } == parsed_fields(declared_view(declared@), allow_optional),
        r matches Ok(derived) ==> derived.name@ == name@,
{
    let mut fields: Vec<Field> = Vec::new();
    let mut i: usize = 0;
    let ghost all = declared_view(declared@);
    assert(all.take(0) =~= Seq::empty());
    assert(fields@.map_values(|f: Field| f@) =~= Seq::empty());
    while i < declared.len()
        invariant
            i <= declared.len(),
            all == declared_view(declared@),
            parsed_fields(all.take(i as int), allow_optional) == Ok::<
                Seq<FieldView>,
                DeriveErrorView,
            >(fields@.map_values(|f: Field| f@)),
        decreases declared.len() - i,
    {
        let field_name = declared[i].0.clone();
        let declared_as = &declared[i].1;
        proof {
            assert(all.take(i + 1).drop_last() =~= all.take(i as int));
            assert(all.take(i + 1).last() == (declared@[i as int].0@, declared@[i as int].1@));
        }
        let (ty, optional) = match parse_type(declared_as.as_str()) {
            Some(parsed) => parsed,
            None => {
                proof {
                    lemma_failure_stays(all, i + 1, allow_optional);
                }
                return Err(
                    DeriveError::UnsupportedType { field: field_name, declared: declared_as.clone() },
                );
            },
        };
        if !allow_optional && optional {
            proof {
                lemma_failure_stays(all, i + 1, allow_optional);
            }
            return Err(DeriveError::OptionalField { field: field_name });
        }
        let ghost so_far = fields@;
        fields.push(Field { name: field_name, ty, optional });
        assert(fields@.map_values(|f: Field| f@) =~= so_far.map_values(|f: Field| f@).push(
            FieldView { name: declared@[i as int].0@, ty, optional },
        ));
        i = i + 1;
    }
    assert(all.take(i as int) =~= all);
    Ok(Derived { name, fields })
}

/// A failure among the first `n` declared fields is the failure of the
/// whole list.
pub proof fn lemma_failure_stays(
    declared: Seq<(Seq<char>, Seq<char>)>,
    n: int,
    allow_optional: bool,
)
    requires
        0 <= n <= declared.len(),
        parsed_fields(declared.take(n), allow_optional) is Err,
    ensures
        parsed_fields(declared, allow_optional) == parsed_fields(declared.take(n), allow_optional),
    decreases declared.len() - n,
{
    if n == declared.len() {
        assert(declared.take(n) =~= declared);
    } else {
        assert(declared.take(n + 1).drop_last() =~= declared.take(n));
        lemma_failure_stays(declared, n + 1, allow_optional);
    }
}

/// The first of `fields` named `identifier`, if there is one.
pub open spec fn first_named(fields: Seq<FieldView>, identifier: Seq<char>) -> Option<FieldView>
    decreases fields.len(),
{
    if fields.len() == 0 {
        None
    } else if fields[0].name == identifier {
        Some(fields[0])
    } else {
        first_named(fields.drop_first(), identifier)
    }
}

impl DerivedView {
    /// The first field named `identifier`, if there is one.
    pub open spec fn field(self, identifier: Seq<char>) -> Option<FieldView> {
        first_named(self.fields, identifier)
    }

    /// What the record makes of `value` stored under `identifier`: what
    /// the field of that name makes of it, or `UndeclaredIdentifier` where
    /// there is no such field.
    pub open spec fn accepted(self, identifier: Seq<char>, value: ValueView) -> EvaluationOutcome {
        match self.field(identifier) {
            Some(field) => crate::evaluation::lift(
                accepted(field.name, field.ty, field.optional, value),
            ),
            None => Err(EvaluationErrorView::UndeclaredIdentifier(identifier)),
        }
    }
}

/// The model of a field that was looked up.
pub open spec fn found_view(r: Option<&Field>) -> Option<FieldView> {
    match r {
        Some(field) => Some(field@),
        None => None,
    }
}

impl Derived {
    /// The first field named `identifier`, if there is one.
    pub fn field(&self, identifier: &str) -> (r: Option<&Field>)
        ensures
            found_view(r) == self@.field(identifier@),
    {
        let mut i: usize = 0;
        let ghost all = self@.fields;
        assert(all.skip(0) =~= all);
        while i < self.fields.len()
            invariant
                i <= self.fields.len(),
                all == self@.fields,
                all.len() == self.fields.len(),
                first_named(all.skip(i as int), identifier@) == first_named(all, identifier@),
            decreases self.fields.len() - i,
        {
            proof {
                assert(all.skip(i as int)[0] == self.fields@[i as int]@);
                assert(all.skip(i as int).drop_first() =~= all.skip(i + 1));
            }
            if str_eq(self.fields[i].name.as_str(), identifier) {
                return Some(&self.fields[i]);
            }
            i = i + 1;
        }
        None
    }

    /// Checks `value` against the field named `identifier`.
    pub fn accept(&self, identifier: &str, value: Value) -> (r: Result<Value, EvaluationError>)
        ensures
            evaluation_view(r) == self@.accepted(identifier@, value@),
    {
        match self.field(identifier) {
            Some(field) => match accept(field.name.as_str(), field.ty, field.optional, value) {
                Ok(checked) => Ok(checked),
                Err(error) => Err(EvaluationError::ValueError(error)),
            },
            None => Err(EvaluationError::UndeclaredIdentifier(identifier.to_owned())),
        }
    }
}

} // verus!
