//! The errors of this crate.

use vstd::prelude::*;
use vstd::string::StringExecFns;
use crate::text::{decimal, push_decimal};

verus! {

/// The array of a geometry that a length belongs to.
#[derive(Clone, Copy, Debug, PartialEq, Eq, Structural)]
pub enum Dimension {
    /// Cartesian coordinates, three per atom.
    Positions,
    /// Lattice vectors, nine numbers.
    Lattice,
    /// Periodicity flags, one per direction.
    Periodic,
}

impl Dimension {
    /// The name of the array in messages.
    pub open spec fn spec_name(self) -> Seq<char> {
        match self {
            Dimension::Positions => "positions"@,
            Dimension::Lattice => "lattice"@,
            Dimension::Periodic => "periodic"@,
        }
    }

    /// The name of the array in messages.
    pub fn name(self) -> (name: &'static str)
        ensures
            name@ == self.spec_name(),
    {
        match self {
            Dimension::Positions => "positions",
            Dimension::Lattice => "lattice",
            Dimension::Periodic => "periodic",
        }
    }
}

/// A coefficient of a damping function.
#[derive(Clone, Copy, Debug, PartialEq, Eq, Structural)]
pub enum ParamField {
    S6,
    S8,
    S9,
    A1,
    A2,
    Rs6,
    Rs8,
    Alp,
    Bet,
}

impl ParamField {
    /// The name of the coefficient, as the records spell it.
    pub open spec fn spec_name(self) -> Seq<char> {
        match self {
            ParamField::S6 => "s6"@,
            ParamField::S8 => "s8"@,
            ParamField::S9 => "s9"@,
            ParamField::A1 => "a1"@,
            ParamField::A2 => "a2"@,
            ParamField::Rs6 => "rs6"@,
            ParamField::Rs8 => "rs8"@,
            ParamField::Alp => "alp"@,
            ParamField::Bet => "bet"@,
        }
    }

    /// The name of the coefficient, as the records spell it.
    pub fn name(self) -> (name: &'static str)
        ensures
            name@ == self.spec_name(),
    {
        match self {
            ParamField::S6 => "s6",
            ParamField::S8 => "s8",
            ParamField::S9 => "s9",
            ParamField::A1 => "a1",
            ParamField::A2 => "a2",
            ParamField::Rs6 => "rs6",
            ParamField::Rs8 => "rs8",
            ParamField::Alp => "alp",
            ParamField::Bet => "bet",
        }
    }
}

/// The text that `derive_builder::UninitializedFieldError` shows under `{:?}`
/// when it is made for a field of this name. The text is a function of the
/// name alone; the standard library does not fix the form that a derived
/// `Debug` prints, so it is not written out here.
pub uninterp spec fn uninitialized_field_debug(field: Seq<char>) -> Seq<char>;

/// Makes a `derive_builder::UninitializedFieldError` with
/// `UninitializedFieldError::new` and formats it with `{:?}`. The contract
/// only gives the text its name.
#[verifier::external_body]
fn uninitialized_field_text(field: &'static str) -> (text: String)
    ensures
        text@ == uninitialized_field_debug(field@),
{
    format!("{:?}", derive_builder::UninitializedFieldError::new(field))
}

/// The mathematical content of a [`DFTD3Error`].
pub enum DFTD3ErrorView {
    DimensionMismatch { field: Dimension, expected: nat, got: nat },
    DegenerateGeometry { message: Seq<char> },
    IncompleteParametrization { missing_field: ParamField },
    UnknownMethod { name: Seq<char>, message: Seq<char> },
    UnknownDampingVersion { name: Seq<char> },
    EngineError { message: Seq<char> },
}

/// Why an operation failed.
#[derive(Debug, Clone, PartialEq, Eq)]
pub enum DFTD3Error {
    /// An array has the wrong length. Found before the engine is asked.
    DimensionMismatch { field: Dimension, expected: usize, got: usize },
    /// The engine refused the coordinates, as it does when atoms coincide.
    DegenerateGeometry { message: String },
    /// A builder was finished while a coefficient without a default was unset.
    IncompleteParametrization { missing_field: ParamField },
    /// The engine holds no parameters under this method name.
    UnknownMethod { name: String, message: String },
    /// The name stands for none of the damping functions.
    UnknownDampingVersion { name: String },
    /// Any other failure that the engine reported, with its message.
    EngineError { message: String },
}

impl DFTD3ErrorView {
    /// The message of the error. An error that the engine reported has the
    /// engine's message, letter for letter.
    pub open spec fn message(self) -> Seq<char> {
        match self {
            DFTD3ErrorView::DimensionMismatch { field, expected, got } => {
                "Invalid dimension for "@ + field.spec_name() + ", expected "@ + decimal(expected)
                    + ", got "@ + decimal(got)
            },
            DFTD3ErrorView::DegenerateGeometry { message } => message,
            DFTD3ErrorView::IncompleteParametrization { missing_field } => {
                "Builder error: "@ + uninitialized_field_debug(missing_field.spec_name())
            },
            DFTD3ErrorView::UnknownMethod { message, .. } => message,
            DFTD3ErrorView::UnknownDampingVersion { name } => "Unknown DFTD3 version: "@ + name,
            DFTD3ErrorView::EngineError { message } => message,
        }
    }
}

impl View for DFTD3Error {
    type V = DFTD3ErrorView;

    open spec fn view(&self) -> DFTD3ErrorView {
        match *self {
            DFTD3Error::DimensionMismatch { field, expected, got } => {
                DFTD3ErrorView::DimensionMismatch {
                    field,
                    expected: expected as nat,
                    got: got as nat,
                }
            },
            DFTD3Error::DegenerateGeometry { message } => {
                DFTD3ErrorView::DegenerateGeometry { message: message@ }
            },
            DFTD3Error::IncompleteParametrization { missing_field } => {
                DFTD3ErrorView::IncompleteParametrization { missing_field }
            },
            DFTD3Error::UnknownMethod { name, message } => {
                DFTD3ErrorView::UnknownMethod { name: name@, message: message@ }
            },
            DFTD3Error::UnknownDampingVersion { name } => {
                DFTD3ErrorView::UnknownDampingVersion { name: name@ }
            },
            DFTD3Error::EngineError { message } => {
                DFTD3ErrorView::EngineError { message: message@ }
            },
        }
    }
}

impl DFTD3Error {
    /// The message of the error.
    pub fn get_message(&self) -> (text: String)
        ensures
            text@ == self@.message(),
    {
        match self {
            DFTD3Error::DimensionMismatch { field, expected, got } => {
                let mut text = String::from_str("Invalid dimension for ");
                text.append(field.name());
                text.append(", expected ");
                push_decimal(&mut text, *expected);
                text.append(", got ");
                push_decimal(&mut text, *got);
                text
            },
            DFTD3Error::DegenerateGeometry { message } => message.clone(),
            DFTD3Error::IncompleteParametrization { missing_field } => {
                let mut text = String::from_str("Builder error: ");
                let field = uninitialized_field_text(missing_field.name());
                text.append(field.as_str());
                text
            },
            DFTD3Error::UnknownMethod { message, .. } => message.clone(),
            DFTD3Error::UnknownDampingVersion { name } => {
                let mut text = String::from_str("Unknown DFTD3 version: ");
                text.append(name.as_str());
                text
            },
            DFTD3Error::EngineError { message } => message.clone(),
        }
    }

    /// The error as one line of text: its message behind the name of this
    /// type.
    pub fn report(&self) -> (text: String)
        ensures
            text@ == "DFTD3Error: "@ + self@.message(),
    {
        let mut text = String::from_str("DFTD3Error: ");
        let message = self.get_message();
        text.append(message.as_str());
        text
    }
}

/// The mathematical content of a result: that of the value, or that of the
/// error.
pub open spec fn viewed<T: View>(result: Result<T, DFTD3Error>) -> Result<T::V, DFTD3ErrorView> {
    match result {
        Ok(value) => Ok(value@),
        Err(error) => Err(error@),
    }
}

/// `result` is a failure whose content is `error`.
pub open spec fn fails_with<T>(result: Result<T, DFTD3Error>, error: DFTD3ErrorView) -> bool {
    result is Err && result->Err_0@ == error
}

} // verus!
