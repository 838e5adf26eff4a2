//! Why a record could not be decoded.

use vstd::prelude::*;

verus! {

/// The failure of decoding one record from the fields bound under its prefix.
#[derive(Debug, PartialEq, Eq)]
pub enum DecodeFailure {
    /// A declared field of the record has no value under the prefix.
    MissingField { prefix: String, field: String },
    /// A field has a value under the prefix, and the value is not of the field's type.
    TypeCoercion { prefix: String, field: String, value: String, target: String },
    /// A field is given a value under the prefix a second time.
    DuplicateField { prefix: String, field: String },
}

/// A decode failure as plain text.
pub enum DecodeFailureView {
    /// The field `field` of the record under `prefix` has no value.
    MissingField { prefix: Seq<char>, field: Seq<char> },
    /// The field `field` of the record under `prefix` has the value `value`, which is no
    /// `target`.
    TypeCoercion { prefix: Seq<char>, field: Seq<char>, value: Seq<char>, target: Seq<char> },
    /// The field `field` of the record under `prefix` is given a value a second time.
    DuplicateField { prefix: Seq<char>, field: Seq<char> },
}

impl View for DecodeFailure {
    type V = DecodeFailureView;

    open spec fn view(&self) -> DecodeFailureView {
        match *self {
            DecodeFailure::MissingField { prefix, field } => DecodeFailureView::MissingField {
                prefix: prefix@,
                field: field@,
            },
            DecodeFailure::TypeCoercion {
                prefix,
                field,
                value,
                target,
            } => DecodeFailureView::TypeCoercion {
                prefix: prefix@,
                field: field@,
                value: value@,
                target: target@,
            },
            DecodeFailure::DuplicateField { prefix, field } => DecodeFailureView::DuplicateField {
                prefix: prefix@,
                field: field@,
            },
        }
    }
}

impl DecodeFailureView {
    /// The failure in words.
    pub open spec fn message(self) -> Seq<char> {
        match self {
            DecodeFailureView::MissingField { prefix, field } => "missing value for field "@
                + field + " under prefix "@ + prefix,
            DecodeFailureView::TypeCoercion { prefix, field, value, target } => "value '"@ + value
                + "' of field "@ + field + " under prefix "@ + prefix + " is not a "@ + target,
            DecodeFailureView::DuplicateField { prefix, field } => "second value for field "@
                + field + " under prefix "@ + prefix,
        }
    }
}

/// A failure that may have been met, as plain text.
pub open spec fn failure_view(met: Option<DecodeFailure>) -> Option<DecodeFailureView> {
    match met {
        Some(failure) => Some(failure@),
        None => None,
    }
}

/// The outcome of a decoding as plain text: the record, or the failure.
pub open spec fn result_view<T: View>(outcome: Result<T, DecodeFailure>) -> Result<
    T::V,
    DecodeFailureView,
> {
    match outcome {
        Ok(record) => Ok(record@),
        Err(failure) => Err(failure@),
    }
}

impl DecodeFailure {
    /// The failure for a declared field without a value.
    pub fn missing(prefix: &str, field: &str) -> (failure: DecodeFailure)
        ensures
            failure@ == (DecodeFailureView::MissingField { prefix: prefix@, field: field@ }),
    {
        DecodeFailure::MissingField { prefix: prefix.to_owned(), field: field.to_owned() }
    }

    /// The failure for a value that is not of its field's type.
    pub fn mistyped(prefix: &str, field: &str, value: &str, target: &str) -> (failure:
        DecodeFailure)
        ensures
            failure@ == (DecodeFailureView::TypeCoercion {
                prefix: prefix@,
                field: field@,
                value: value@,
                target: target@,
            }),
    {
        DecodeFailure::TypeCoercion {
            prefix: prefix.to_owned(),
            field: field.to_owned(),
            value: value.to_owned(),
            target: target.to_owned(),
        }
    }

    /// The failure for a field that is given a value a second time.
    pub fn duplicate(prefix: &str, field: &str) -> (failure: DecodeFailure)
        ensures
            failure@ == (DecodeFailureView::DuplicateField { prefix: prefix@, field: field@ }),
    {
        DecodeFailure::DuplicateField { prefix: prefix.to_owned(), field: field.to_owned() }
    }

    /// The failure in words, for the one who has to mend the pairs.
    pub fn message(&self) -> (text: String)
        ensures
            text@ == self@.message(),
    {
        match self {
            DecodeFailure::MissingField { prefix, field } => {
                let mut text = "missing value for field ".to_owned();
                text.append(field.as_str());
                text.append(" under prefix ");
                text.append(prefix.as_str());
                text
            },
            DecodeFailure::TypeCoercion { prefix, field, value, target } => {
                let mut text = "value '".to_owned();
                text.append(value.as_str());
                text.append("' of field ");
                text.append(field.as_str());
                text.append(" under prefix ");
                text.append(prefix.as_str());
                text.append(" is not a ");
                text.append(target.as_str());
                text
            },
            DecodeFailure::DuplicateField { prefix, field } => {
                let mut text = "second value for field ".to_owned();
                text.append(field.as_str());
                text.append(" under prefix ");
                text.append(prefix.as_str());
                text
            },
        }
    }
}

} // verus!
