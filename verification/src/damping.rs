//! The five damping functions: their coefficients, and builders that fill in
//! the coefficients that have a default.

use vstd::prelude::*;
use vstd::string::StringExecFns;
use crate::error::{DFTD3Error, DFTD3ErrorView, ParamField, fails_with};
use crate::scalar::{Scalar, ONE, FOURTEEN};

verus! {

/// One of the five damping functions.
#[derive(Clone, Copy, Debug, PartialEq, Eq, Structural)]
pub enum DampingScheme {
    /// Rational damping, also known as Becke-Johnson damping.
    Rational,
    /// Zero damping, the scheme that DFT-D3 was first published with.
    Zero,
    /// Rational damping with the modified parameters.
    ModifiedRational,
    /// Zero damping with an additional offset.
    ModifiedZero,
    /// Rational damping with an additional power function.
    OptimizedPower,
}

impl DampingScheme {
    /// The scheme that a name in normal form stands for.
    pub open spec fn selected_by(name: Seq<char>) -> Option<DampingScheme> {
        if name == "d3bj"@ || name == "bj"@ {
            Some(DampingScheme::Rational)
        } else if name == "d3zero"@ || name == "zero"@ {
            Some(DampingScheme::Zero)
        } else if name == "d3bjm"@ || name == "d3mbj"@ || name == "bjm"@ || name == "mbj"@ {
            Some(DampingScheme::ModifiedRational)
        } else if name == "d3zerom"@ || name == "d3mzero"@ || name == "zerom"@ || name
            == "mzero"@ {
            Some(DampingScheme::ModifiedZero)
        } else if name == "d3op"@ || name == "op"@ {
            Some(DampingScheme::OptimizedPower)
        } else {
            None
        }
    }

    /// Looks a name up that is already in normal form: lower case and free of
    /// separators.
    pub fn from_selector(name: &str) -> (scheme: Option<DampingScheme>)
        ensures
            scheme == Self::selected_by(name@),
    {
        let name = String::from_str(name);
        if name == String::from_str("d3bj") || name == String::from_str("bj") {
            Some(DampingScheme::Rational)
        } else if name == String::from_str("d3zero") || name == String::from_str("zero") {
            Some(DampingScheme::Zero)
        } else if name == String::from_str("d3bjm") || name == String::from_str("d3mbj") || name
            == String::from_str("bjm") || name == String::from_str("mbj") {
            Some(DampingScheme::ModifiedRational)
        } else if name == String::from_str("d3zerom") || name == String::from_str("d3mzero")
            || name == String::from_str("zerom") || name == String::from_str("mzero") {
            Some(DampingScheme::ModifiedZero)
        } else if name == String::from_str("d3op") || name == String::from_str("op") {
            Some(DampingScheme::OptimizedPower)
        } else {
            None
        }
    }
}

/// The value of a coefficient that has a default.
pub open spec fn or_default(value: Option<Scalar>, default: u64) -> Scalar {
    match value {
        Some(value) => value,
        None => Scalar { bits: default },
    }
}

fn value_or(value: Option<Scalar>, default: u64) -> (out: Scalar)
    ensures
        out == or_default(value, default),
{
    match value {
        Some(value) => value,
        None => Scalar { bits: default },
    }
}

fn required(value: Option<Scalar>, field: ParamField) -> (result: Result<Scalar, DFTD3Error>)
    ensures
        match value {
            Some(value) => result == Ok::<Scalar, DFTD3Error>(value),
            None => fails_with(
                result,
                DFTD3ErrorView::IncompleteParametrization { missing_field: field },
            ),
        },
{
    match value {
        Some(value) => Ok(value),
        None => Err(DFTD3Error::IncompleteParametrization { missing_field: field }),
    }
}

/// Coefficients of rational damping.
#[derive(Clone, Copy, Debug, PartialEq, Eq, Structural)]
pub struct DFTD3RationalDampingParam {
    /// Scaling of the dipole-dipole term.
    pub s6: Scalar,
    /// Scaling of the dipole-quadrupole term.
    pub s8: Scalar,
    /// Scaling of the three-body term; 0.0 switches the term off.
    pub s9: Scalar,
    /// Scaling of the critical radius.
    pub a1: Scalar,
    /// Offset of the critical radius.
    pub a2: Scalar,
    /// Exponent of the zero damping; it also damps the three-body term.
    pub alp: Scalar,
}

/// Coefficients of rational damping, some of them not yet given.
#[derive(Clone, Copy, Debug, PartialEq, Eq, Structural)]
pub struct DFTD3RationalDampingParamBuilder {
    pub s6: Option<Scalar>,
    pub s8: Option<Scalar>,
    pub s9: Option<Scalar>,
    pub a1: Option<Scalar>,
    pub a2: Option<Scalar>,
    pub alp: Option<Scalar>,
}

impl Default for DFTD3RationalDampingParamBuilder {
    /// A builder to which nothing was given yet.
    fn default() -> (builder: Self)
        ensures
            builder == (DFTD3RationalDampingParamBuilder {
                s6: None,
                s8: None,
                s9: None,
                a1: None,
                a2: None,
                alp: None,
            }),
    {
        DFTD3RationalDampingParamBuilder {
            s6: None,
            s8: None,
            s9: None,
            a1: None,
            a2: None,
            alp: None,
        }
    }
}

impl DFTD3RationalDampingParamBuilder {
    /// The first coefficient without a default that was not given, in the
    /// order in which the record declares them.
    pub open spec fn missing(self) -> Option<ParamField> {
        if self.s8 is None {
            Some(ParamField::S8)
        } else if self.a1 is None {
            Some(ParamField::A1)
        } else if self.a2 is None {
            Some(ParamField::A2)
        } else {
            None
        }
    }

    /// The coefficients, with 1.0 for `s6` and `s9` and 14.0 for `alp` where
    /// they were not given.
    pub open spec fn record(self) -> DFTD3RationalDampingParam
        recommends
            self.missing() is None,
    {
        DFTD3RationalDampingParam {
            s6: or_default(self.s6, ONE),
            s8: self.s8->0,
            s9: or_default(self.s9, ONE),
            a1: self.a1->0,
            a2: self.a2->0,
            alp: or_default(self.alp, FOURTEEN),
        }
    }

    /// Gives `s6` in place of its default, 1.0.
    pub fn s6(self, value: Scalar) -> (builder: Self)
        ensures
            builder == (Self { s6: Some(value), ..self }),
    {
        Self { s6: Some(value), ..self }
    }

    /// Gives `s8`, which has no default.
    pub fn s8(self, value: Scalar) -> (builder: Self)
        ensures
            builder == (Self { s8: Some(value), ..self }),
    {
        Self { s8: Some(value), ..self }
    }

    /// Gives `s9` in place of its default, 1.0.
    pub fn s9(self, value: Scalar) -> (builder: Self)
        ensures
            builder == (Self { s9: Some(value), ..self }),
    {
        Self { s9: Some(value), ..self }
    }

    /// Gives `a1`, which has no default.
    pub fn a1(self, value: Scalar) -> (builder: Self)
        ensures
            builder == (Self { a1: Some(value), ..self }),
    {
        Self { a1: Some(value), ..self }
    }

    /// Gives `a2`, which has no default.
    pub fn a2(self, value: Scalar) -> (builder: Self)
        ensures
            builder == (Self { a2: Some(value), ..self }),
    {
        Self { a2: Some(value), ..self }
    }

    /// Gives `alp` in place of its default, 14.0.
    pub fn alp(self, value: Scalar) -> (builder: Self)
        ensures
            builder == (Self { alp: Some(value), ..self }),
    {
        Self { alp: Some(value), ..self }
    }

    /// The coefficients, if every one without a default was given; else the
    /// first that is missing.
    pub fn build(self) -> (result: Result<DFTD3RationalDampingParam, DFTD3Error>)
        ensures
            match self.missing() {
                Some(field) => fails_with(
                    result,
                    DFTD3ErrorView::IncompleteParametrization { missing_field: field },
                ),
                None => result == Ok::<DFTD3RationalDampingParam, DFTD3Error>(self.record()),
            },
    {
        let s8 = required(self.s8, ParamField::S8)?;
        let a1 = required(self.a1, ParamField::A1)?;
        let a2 = required(self.a2, ParamField::A2)?;
        Ok(
            DFTD3RationalDampingParam {
                s6: value_or(self.s6, ONE),
                s8,
                s9: value_or(self.s9, ONE),
                a1,
                a2,
                alp: value_or(self.alp, FOURTEEN),
            },
        )
    }

    /// Finishing fails exactly when `s8`, `a1` or `a2` was never given. Where it
    /// succeeds, each coefficient that was given is kept, and each that was
    /// not has its default: 1.0 for `s6` and `s9` and 14.0 for `alp`.
    pub proof fn law_finish(self)
        ensures
            self.missing() is Some <==> (self.s8 is None || self.a1 is None || self.a2 is None),
            self.s6 is None ==> self.record().s6 == (Scalar { bits: ONE }),
            self.s9 is None ==> self.record().s9 == (Scalar { bits: ONE }),
            self.alp is None ==> self.record().alp == (Scalar { bits: FOURTEEN }),
            self.s6 is Some ==> self.record().s6 == self.s6->0,
            self.s8 is Some ==> self.record().s8 == self.s8->0,
            self.s9 is Some ==> self.record().s9 == self.s9->0,
            self.a1 is Some ==> self.record().a1 == self.a1->0,
            self.a2 is Some ==> self.record().a2 == self.a2->0,
            self.alp is Some ==> self.record().alp == self.alp->0,
    {
    }
}

/// Coefficients of zero damping.
#[derive(Clone, Copy, Debug, PartialEq, Eq, Structural)]
pub struct DFTD3ZeroDampingParam {
    /// Scaling of the dipole-dipole term.
    pub s6: Scalar,
    /// Scaling of the dipole-quadrupole term.
    pub s8: Scalar,
    /// Scaling of the three-body term; 0.0 switches the term off.
    pub s9: Scalar,
    /// Range separation of the dipole-dipole term.
    pub rs6: Scalar,
    /// Range separation of the dipole-quadrupole term.
    pub rs8: Scalar,
    /// Exponent of the zero damping; it also damps the three-body term.
    pub alp: Scalar,
}

/// Coefficients of zero damping, some of them not yet given.
#[derive(Clone, Copy, Debug, PartialEq, Eq, Structural)]
pub struct DFTD3ZeroDampingParamBuilder {
    pub s6: Option<Scalar>,
    pub s8: Option<Scalar>,
    pub s9: Option<Scalar>,
    pub rs6: Option<Scalar>,
    pub rs8: Option<Scalar>,
    pub alp: Option<Scalar>,
}

impl Default for DFTD3ZeroDampingParamBuilder {
    /// A builder to which nothing was given yet.
    fn default() -> (builder: Self)
        ensures
            builder == (DFTD3ZeroDampingParamBuilder {
                s6: None,
                s8: None,
                s9: None,
                rs6: None,
                rs8: None,
                alp: None,
            }),
    {
        DFTD3ZeroDampingParamBuilder {
            s6: None,
            s8: None,
            s9: None,
            rs6: None,
            rs8: None,
            alp: None,
        }
    }
}

impl DFTD3ZeroDampingParamBuilder {
    /// The first coefficient without a default that was not given, in the
    /// order in which the record declares them.
    pub open spec fn missing(self) -> Option<ParamField> {
        if self.s8 is None {
            Some(ParamField::S8)
        } else if self.rs6 is None {
            Some(ParamField::Rs6)
        } else {
            None
        }
    }

    /// The coefficients, with 1.0 for `s6`, `s9` and `rs8` and 14.0 for `alp` where
    /// they were not given.
    pub open spec fn record(self) -> DFTD3ZeroDampingParam
        recommends
            self.missing() is None,
    {
        DFTD3ZeroDampingParam {
            s6: or_default(self.s6, ONE),
            s8: self.s8->0,
            s9: or_default(self.s9, ONE),
            rs6: self.rs6->0,
            rs8: or_default(self.rs8, ONE),
            alp: or_default(self.alp, FOURTEEN),
        }
    }

    /// Gives `s6` in place of its default, 1.0.
    pub fn s6(self, value: Scalar) -> (builder: Self)
        ensures
            builder == (Self { s6: Some(value), ..self }),
    {
        Self { s6: Some(value), ..self }
    }

    /// Gives `s8`, which has no default.
    pub fn s8(self, value: Scalar) -> (builder: Self)
        ensures
            builder == (Self { s8: Some(value), ..self }),
    {
        Self { s8: Some(value), ..self }
    }

    /// Gives `s9` in place of its default, 1.0.
    pub fn s9(self, value: Scalar) -> (builder: Self)
        ensures
            builder == (Self { s9: Some(value), ..self }),
    {
        Self { s9: Some(value), ..self }
    }

    /// Gives `rs6`, which has no default.
    pub fn rs6(self, value: Scalar) -> (builder: Self)
        ensures
            builder == (Self { rs6: Some(value), ..self }),
    {
        Self { rs6: Some(value), ..self }
    }

    /// Gives `rs8` in place of its default, 1.0.
    pub fn rs8(self, value: Scalar) -> (builder: Self)
        ensures
            builder == (Self { rs8: Some(value), ..self }),
    {
        Self { rs8: Some(value), ..self }
    }

    /// Gives `alp` in place of its default, 14.0.
    pub fn alp(self, value: Scalar) -> (builder: Self)
        ensures
            builder == (Self { alp: Some(value), ..self }),
    {
        Self { alp: Some(value), ..self }
    }

    /// The coefficients, if every one without a default was given; else the
    /// first that is missing.
    pub fn build(self) -> (result: Result<DFTD3ZeroDampingParam, DFTD3Error>)
        ensures
            match self.missing() {
                Some(field) => fails_with(
                    result,
                    DFTD3ErrorView::IncompleteParametrization { missing_field: field },
                ),
                None => result == Ok::<DFTD3ZeroDampingParam, DFTD3Error>(self.record()),
            },
    {
        let s8 = required(self.s8, ParamField::S8)?;
        let rs6 = required(self.rs6, ParamField::Rs6)?;
        Ok(
            DFTD3ZeroDampingParam {
                s6: value_or(self.s6, ONE),
                s8,
                s9: value_or(self.s9, ONE),
                rs6,
                rs8: value_or(self.rs8, ONE),
                alp: value_or(self.alp, FOURTEEN),
            },
        )
    }

    /// Finishing fails exactly when `s8` or `rs6` was never given. Where it
    /// succeeds, each coefficient that was given is kept, and each that was
    /// not has its default: 1.0 for `s6`, `s9` and `rs8` and 14.0 for `alp`.
    pub proof fn law_finish(self)
        ensures
            self.missing() is Some <==> (self.s8 is None || self.rs6 is None),
            self.s6 is None ==> self.record().s6 == (Scalar { bits: ONE }),
            self.s9 is None ==> self.record().s9 == (Scalar { bits: ONE }),
            self.rs8 is None ==> self.record().rs8 == (Scalar { bits: ONE }),
            self.alp is None ==> self.record().alp == (Scalar { bits: FOURTEEN }),
            self.s6 is Some ==> self.record().s6 == self.s6->0,
            self.s8 is Some ==> self.record().s8 == self.s8->0,
            self.s9 is Some ==> self.record().s9 == self.s9->0,
            self.rs6 is Some ==> self.record().rs6 == self.rs6->0,
            self.rs8 is Some ==> self.record().rs8 == self.rs8->0,
            self.alp is Some ==> self.record().alp == self.alp->0,
    {
    }
}

/// Coefficients of modified rational damping.
#[derive(Clone, Copy, Debug, PartialEq, Eq, Structural)]
pub struct DFTD3ModifiedRationalDampingParam {
    /// Scaling of the dipole-dipole term.
    pub s6: Scalar,
    /// Scaling of the dipole-quadrupole term.
    pub s8: Scalar,
    /// Scaling of the three-body term; 0.0 switches the term off.
    pub s9: Scalar,
    /// Scaling of the critical radius.
    pub a1: Scalar,
    /// Offset of the critical radius.
    pub a2: Scalar,
    /// Exponent of the zero damping; it also damps the three-body term.
    pub alp: Scalar,
}

/// Coefficients of modified rational damping, some of them not yet given.
#[derive(Clone, Copy, Debug, PartialEq, Eq, Structural)]
pub struct DFTD3ModifiedRationalDampingParamBuilder {
    pub s6: Option<Scalar>,
    pub s8: Option<Scalar>,
    pub s9: Option<Scalar>,
    pub a1: Option<Scalar>,
    pub a2: Option<Scalar>,
    pub alp: Option<Scalar>,
}

impl Default for DFTD3ModifiedRationalDampingParamBuilder {
    /// A builder to which nothing was given yet.
    fn default() -> (builder: Self)
        ensures
            builder == (DFTD3ModifiedRationalDampingParamBuilder {
                s6: None,
                s8: None,
                s9: None,
                a1: None,
                a2: None,
                alp: None,
            }),
    {
        DFTD3ModifiedRationalDampingParamBuilder {
            s6: None,
            s8: None,
            s9: None,
            a1: None,
            a2: None,
            alp: None,
        }
    }
}

impl DFTD3ModifiedRationalDampingParamBuilder {
    /// The first coefficient without a default that was not given, in the
    /// order in which the record declares them.
    pub open spec fn missing(self) -> Option<ParamField> {
        if self.s8 is None {
            Some(ParamField::S8)
        } else if self.a1 is None {
            Some(ParamField::A1)
        } else if self.a2 is None {
            Some(ParamField::A2)
        } else {
            None
        }
    }

    /// The coefficients, with 1.0 for `s6` and `s9` and 14.0 for `alp` where
    /// they were not given.
    pub open spec fn record(self) -> DFTD3ModifiedRationalDampingParam
        recommends
            self.missing() is None,
    {
        DFTD3ModifiedRationalDampingParam {
            s6: or_default(self.s6, ONE),
            s8: self.s8->0,
            s9: or_default(self.s9, ONE),
            a1: self.a1->0,
            a2: self.a2->0,
            alp: or_default(self.alp, FOURTEEN),
        }
    }

    /// Gives `s6` in place of its default, 1.0.
    pub fn s6(self, value: Scalar) -> (builder: Self)
        ensures
            builder == (Self { s6: Some(value), ..self }),
    {
        Self { s6: Some(value), ..self }
    }

    /// Gives `s8`, which has no default.
    pub fn s8(self, value: Scalar) -> (builder: Self)
        ensures
            builder == (Self { s8: Some(value), ..self }),
    {
        Self { s8: Some(value), ..self }
    }

    /// Gives `s9` in place of its default, 1.0.
    pub fn s9(self, value: Scalar) -> (builder: Self)
        ensures
            builder == (Self { s9: Some(value), ..self }),
    {
        Self { s9: Some(value), ..self }
    }

    /// Gives `a1`, which has no default.
    pub fn a1(self, value: Scalar) -> (builder: Self)
        ensures
            builder == (Self { a1: Some(value), ..self }),
    {
        Self { a1: Some(value), ..self }
    }

    /// Gives `a2`, which has no default.
    pub fn a2(self, value: Scalar) -> (builder: Self)
        ensures
            builder == (Self { a2: Some(value), ..self }),
    {
        Self { a2: Some(value), ..self }
    }

    /// Gives `alp` in place of its default, 14.0.
    pub fn alp(self, value: Scalar) -> (builder: Self)
        ensures
            builder == (Self { alp: Some(value), ..self }),
    {
        Self { alp: Some(value), ..self }
    }

    /// The coefficients, if every one without a default was given; else the
    /// first that is missing.
    pub fn build(self) -> (result: Result<DFTD3ModifiedRationalDampingParam, DFTD3Error>)
        ensures
            match self.missing() {
                Some(field) => fails_with(
                    result,
                    DFTD3ErrorView::IncompleteParametrization { missing_field: field },
                ),
                None => result == Ok::<DFTD3ModifiedRationalDampingParam, DFTD3Error>(
                    self.record(),
                ),
            },
    {
        let s8 = required(self.s8, ParamField::S8)?;
        let a1 = required(self.a1, ParamField::A1)?;
        let a2 = required(self.a2, ParamField::A2)?;
        Ok(
            DFTD3ModifiedRationalDampingParam {
                s6: value_or(self.s6, ONE),
                s8,
                s9: value_or(self.s9, ONE),
                a1,
                a2,
                alp: value_or(self.alp, FOURTEEN),
            },
        )
    }

    /// Finishing fails exactly when `s8`, `a1` or `a2` was never given. Where it
    /// succeeds, each coefficient that was given is kept, and each that was
    /// not has its default: 1.0 for `s6` and `s9` and 14.0 for `alp`.
    pub proof fn law_finish(self)
        ensures
            self.missing() is Some <==> (self.s8 is None || self.a1 is None || self.a2 is None),
            self.s6 is None ==> self.record().s6 == (Scalar { bits: ONE }),
            self.s9 is None ==> self.record().s9 == (Scalar { bits: ONE }),
            self.alp is None ==> self.record().alp == (Scalar { bits: FOURTEEN }),
            self.s6 is Some ==> self.record().s6 == self.s6->0,
            self.s8 is Some ==> self.record().s8 == self.s8->0,
            self.s9 is Some ==> self.record().s9 == self.s9->0,
            self.a1 is Some ==> self.record().a1 == self.a1->0,
            self.a2 is Some ==> self.record().a2 == self.a2->0,
            self.alp is Some ==> self.record().alp == self.alp->0,
    {
    }
}

/// Coefficients of modified zero damping.
#[derive(Clone, Copy, Debug, PartialEq, Eq, Structural)]
pub struct DFTD3ModifiedZeroDampingParam {
    /// Scaling of the dipole-dipole term.
    pub s6: Scalar,
    /// Scaling of the dipole-quadrupole term.
    pub s8: Scalar,
    /// Scaling of the three-body term; 0.0 switches the term off.
    pub s9: Scalar,
    /// Range separation of the dipole-dipole term.
    pub rs6: Scalar,
    /// Range separation of the dipole-quadrupole term.
    pub rs8: Scalar,
    /// Exponent of the zero damping; it also damps the three-body term.
    pub alp: Scalar,
    /// Offset of the damping radius.
    pub bet: Scalar,
}

/// Coefficients of modified zero damping, some of them not yet given.
#[derive(Clone, Copy, Debug, PartialEq, Eq, Structural)]
pub struct DFTD3ModifiedZeroDampingParamBuilder {
    pub s6: Option<Scalar>,
    pub s8: Option<Scalar>,
    pub s9: Option<Scalar>,
    pub rs6: Option<Scalar>,
    pub rs8: Option<Scalar>,
    pub alp: Option<Scalar>,
    pub bet: Option<Scalar>,
}

impl Default for DFTD3ModifiedZeroDampingParamBuilder {
    /// A builder to which nothing was given yet.
    fn default() -> (builder: Self)
        ensures
            builder == (DFTD3ModifiedZeroDampingParamBuilder {
                s6: None,
                s8: None,
                s9: None,
                rs6: None,
                rs8: None,
                alp: None,
                bet: None,
            }),
    {
        DFTD3ModifiedZeroDampingParamBuilder {
            s6: None,
            s8: None,
            s9: None,
            rs6: None,
            rs8: None,
            alp: None,
            bet: None,
        }
    }
}

impl DFTD3ModifiedZeroDampingParamBuilder {
    /// The first coefficient without a default that was not given, in the
    /// order in which the record declares them.
    pub open spec fn missing(self) -> Option<ParamField> {
        if self.s8 is None {
            Some(ParamField::S8)
        } else if self.rs6 is None {
            Some(ParamField::Rs6)
        } else if self.bet is None {
            Some(ParamField::Bet)
        } else {
            None
        }
    }

    /// The coefficients, with 1.0 for `s6`, `s9` and `rs8` and 14.0 for `alp` where
    /// they were not given.
    pub open spec fn record(self) -> DFTD3ModifiedZeroDampingParam
        recommends
            self.missing() is None,
    {
        DFTD3ModifiedZeroDampingParam {
            s6: or_default(self.s6, ONE),
            s8: self.s8->0,
            s9: or_default(self.s9, ONE),
            rs6: self.rs6->0,
            rs8: or_default(self.rs8, ONE),
            alp: or_default(self.alp, FOURTEEN),
            bet: self.bet->0,
        }
    }

    /// Gives `s6` in place of its default, 1.0.
    pub fn s6(self, value: Scalar) -> (builder: Self)
        ensures
            builder == (Self { s6: Some(value), ..self }),
    {
        Self { s6: Some(value), ..self }
    }

    /// Gives `s8`, which has no default.
    pub fn s8(self, value: Scalar) -> (builder: Self)
        ensures
            builder == (Self { s8: Some(value), ..self }),
    {
        Self { s8: Some(value), ..self }
    }

    /// Gives `s9` in place of its default, 1.0.
    pub fn s9(self, value: Scalar) -> (builder: Self)
        ensures
            builder == (Self { s9: Some(value), ..self }),
    {
        Self { s9: Some(value), ..self }
    }

    /// Gives `rs6`, which has no default.
    pub fn rs6(self, value: Scalar) -> (builder: Self)
        ensures
            builder == (Self { rs6: Some(value), ..self }),
    {
        Self { rs6: Some(value), ..self }
    }

    /// Gives `rs8` in place of its default, 1.0.
    pub fn rs8(self, value: Scalar) -> (builder: Self)
        ensures
            builder == (Self { rs8: Some(value), ..self }),
    {
        Self { rs8: Some(value), ..self }
    }

    /// Gives `alp` in place of its default, 14.0.
    pub fn alp(self, value: Scalar) -> (builder: Self)
        ensures
            builder == (Self { alp: Some(value), ..self }),
    {
        Self { alp: Some(value), ..self }
    }

    /// Gives `bet`, which has no default.
    pub fn bet(self, value: Scalar) -> (builder: Self)
        ensures
            builder == (Self { bet: Some(value), ..self }),
    {
        Self { bet: Some(value), ..self }
    }

    /// The coefficients, if every one without a default was given; else the
    /// first that is missing.
    pub fn build(self) -> (result: Result<DFTD3ModifiedZeroDampingParam, DFTD3Error>)
        ensures
            match self.missing() {
                Some(field) => fails_with(
                    result,
                    DFTD3ErrorView::IncompleteParametrization { missing_field: field },
                ),
                None => result == Ok::<DFTD3ModifiedZeroDampingParam, DFTD3Error>(self.record()),
            },
    {
        let s8 = required(self.s8, ParamField::S8)?;
        let rs6 = required(self.rs6, ParamField::Rs6)?;
        let bet = required(self.bet, ParamField::Bet)?;
        Ok(
            DFTD3ModifiedZeroDampingParam {
                s6: value_or(self.s6, ONE),
                s8,
                s9: value_or(self.s9, ONE),
                rs6,
                rs8: value_or(self.rs8, ONE),
                alp: value_or(self.alp, FOURTEEN),
                bet,
            },
        )
    }

    /// Finishing fails exactly when `s8`, `rs6` or `bet` was never given. Where it
    /// succeeds, each coefficient that was given is kept, and each that was
    /// not has its default: 1.0 for `s6`, `s9` and `rs8` and 14.0 for `alp`.
    pub proof fn law_finish(self)
        ensures
            self.missing() is Some <==> (self.s8 is None || self.rs6 is None || self.bet is None),
            self.s6 is None ==> self.record().s6 == (Scalar { bits: ONE }),
            self.s9 is None ==> self.record().s9 == (Scalar { bits: ONE }),
            self.rs8 is None ==> self.record().rs8 == (Scalar { bits: ONE }),
            self.alp is None ==> self.record().alp == (Scalar { bits: FOURTEEN }),
            self.s6 is Some ==> self.record().s6 == self.s6->0,
            self.s8 is Some ==> self.record().s8 == self.s8->0,
            self.s9 is Some ==> self.record().s9 == self.s9->0,
            self.rs6 is Some ==> self.record().rs6 == self.rs6->0,
            self.rs8 is Some ==> self.record().rs8 == self.rs8->0,
            self.alp is Some ==> self.record().alp == self.alp->0,
            self.bet is Some ==> self.record().bet == self.bet->0,
    {
    }
}

/// Coefficients of optimized power damping.
#[derive(Clone, Copy, Debug, PartialEq, Eq, Structural)]
pub struct DFTD3OptimizedPowerDampingParam {
    /// Scaling of the dipole-dipole term.
    pub s6: Scalar,
    /// Scaling of the dipole-quadrupole term.
    pub s8: Scalar,
    /// Scaling of the three-body term; 0.0 switches the term off.
    pub s9: Scalar,
    /// Scaling of the critical radius.
    pub a1: Scalar,
    /// Offset of the critical radius.
    pub a2: Scalar,
    /// Exponent of the zero damping; it also damps the three-body term.
    pub alp: Scalar,
    /// Power of the zero-damping-like factor.
    pub bet: Scalar,
}

/// Coefficients of optimized power damping, some of them not yet given.
#[derive(Clone, Copy, Debug, PartialEq, Eq, Structural)]
pub struct DFTD3OptimizedPowerDampingParamBuilder {
    pub s6: Option<Scalar>,
    pub s8: Option<Scalar>,
    pub s9: Option<Scalar>,
    pub a1: Option<Scalar>,
    pub a2: Option<Scalar>,
    pub alp: Option<Scalar>,
    pub bet: Option<Scalar>,
}

impl Default for DFTD3OptimizedPowerDampingParamBuilder {
    /// A builder to which nothing was given yet.
    fn default() -> (builder: Self)
        ensures
            builder == (DFTD3OptimizedPowerDampingParamBuilder {
                s6: None,
                s8: None,
                s9: None,
                a1: None,
                a2: None,
                alp: None,
                bet: None,
            }),
    {
        DFTD3OptimizedPowerDampingParamBuilder {
            s6: None,
            s8: None,
            s9: None,
            a1: None,
            a2: None,
            alp: None,
            bet: None,
        }
    }
}

impl DFTD3OptimizedPowerDampingParamBuilder {
    /// The first coefficient without a default that was not given, in the
    /// order in which the record declares them.
    pub open spec fn missing(self) -> Option<ParamField> {
        if self.s8 is None {
            Some(ParamField::S8)
        } else if self.a1 is None {
            Some(ParamField::A1)
        } else if self.a2 is None {
            Some(ParamField::A2)
        } else if self.bet is None {
            Some(ParamField::Bet)
        } else {
            None
        }
    }

    /// The coefficients, with 1.0 for `s6` and `s9` and 14.0 for `alp` where
    /// they were not given.
    pub open spec fn record(self) -> DFTD3OptimizedPowerDampingParam
        recommends
            self.missing() is None,
    {
        DFTD3OptimizedPowerDampingParam {
            s6: or_default(self.s6, ONE),
            s8: self.s8->0,
            s9: or_default(self.s9, ONE),
            a1: self.a1->0,
            a2: self.a2->0,
            alp: or_default(self.alp, FOURTEEN),
            bet: self.bet->0,
        }
    }

    /// Gives `s6` in place of its default, 1.0.
    pub fn s6(self, value: Scalar) -> (builder: Self)
        ensures
            builder == (Self { s6: Some(value), ..self }),
    {
        Self { s6: Some(value), ..self }
    }

    /// Gives `s8`, which has no default.
    pub fn s8(self, value: Scalar) -> (builder: Self)
        ensures
            builder == (Self { s8: Some(value), ..self }),
    {
        Self { s8: Some(value), ..self }
    }

    /// Gives `s9` in place of its default, 1.0.
    pub fn s9(self, value: Scalar) -> (builder: Self)
        ensures
            builder == (Self { s9: Some(value), ..self }),
    {
        Self { s9: Some(value), ..self }
    }

    /// Gives `a1`, which has no default.
    pub fn a1(self, value: Scalar) -> (builder: Self)
        ensures
            builder == (Self { a1: Some(value), ..self }),
    {
        Self { a1: Some(value), ..self }
    }

    /// Gives `a2`, which has no default.
    pub fn a2(self, value: Scalar) -> (builder: Self)
        ensures
            builder == (Self { a2: Some(value), ..self }),
    {
        Self { a2: Some(value), ..self }
    }

    /// Gives `alp` in place of its default, 14.0.
    pub fn alp(self, value: Scalar) -> (builder: Self)
        ensures
            builder == (Self { alp: Some(value), ..self }),
    {
        Self { alp: Some(value), ..self }
    }

    /// Gives `bet`, which has no default.
    pub fn bet(self, value: Scalar) -> (builder: Self)
        ensures
            builder == (Self { bet: Some(value), ..self }),
    {
        Self { bet: Some(value), ..self }
    }

    /// The coefficients, if every one without a default was given; else the
    /// first that is missing.
    pub fn build(self) -> (result: Result<DFTD3OptimizedPowerDampingParam, DFTD3Error>)
        ensures
            match self.missing() {
                Some(field) => fails_with(
                    result,
                    DFTD3ErrorView::IncompleteParametrization { missing_field: field },
                ),
                None => result == Ok::<DFTD3OptimizedPowerDampingParam, DFTD3Error>(self.record()),
            },
    {
        let s8 = required(self.s8, ParamField::S8)?;
        let a1 = required(self.a1, ParamField::A1)?;
        let a2 = required(self.a2, ParamField::A2)?;
        let bet = required(self.bet, ParamField::Bet)?;
        Ok(
            DFTD3OptimizedPowerDampingParam {
                s6: value_or(self.s6, ONE),
                s8,
                s9: value_or(self.s9, ONE),
                a1,
                a2,
                alp: value_or(self.alp, FOURTEEN),
                bet,
            },
        )
    }

    /// Finishing fails exactly when `s8`, `a1`, `a2` or `bet` was never given. Where it
    /// succeeds, each coefficient that was given is kept, and each that was
    /// not has its default: 1.0 for `s6` and `s9` and 14.0 for `alp`.
    pub proof fn law_finish(self)
        ensures
            self.missing() is Some <==> (self.s8 is None || self.a1 is None || self.a2 is None
                || self.bet is None),
            self.s6 is None ==> self.record().s6 == (Scalar { bits: ONE }),
            self.s9 is None ==> self.record().s9 == (Scalar { bits: ONE }),
            self.alp is None ==> self.record().alp == (Scalar { bits: FOURTEEN }),
            self.s6 is Some ==> self.record().s6 == self.s6->0,
            self.s8 is Some ==> self.record().s8 == self.s8->0,
            self.s9 is Some ==> self.record().s9 == self.s9->0,
            self.a1 is Some ==> self.record().a1 == self.a1->0,
            self.a2 is Some ==> self.record().a2 == self.a2->0,
            self.alp is Some ==> self.record().alp == self.alp->0,
            self.bet is Some ==> self.record().bet == self.bet->0,
    {
    }
}


} // verus!
