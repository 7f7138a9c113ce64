//! Parametrizations: a damping function with all its coefficients, as the
//! engine holds it.

use vstd::prelude::*;
use crate::damping::{
    DFTD3ModifiedRationalDampingParam, DFTD3ModifiedRationalDampingParamBuilder,
    DFTD3ModifiedZeroDampingParam, DFTD3ModifiedZeroDampingParamBuilder,
    DFTD3OptimizedPowerDampingParam, DFTD3OptimizedPowerDampingParamBuilder,
    DFTD3RationalDampingParam, DFTD3RationalDampingParamBuilder, DFTD3ZeroDampingParam,
    DFTD3ZeroDampingParamBuilder, DampingScheme,
};
use crate::engine::{ErrorChannel, Handle};
use crate::error::{DFTD3Error, DFTD3ErrorView, ParamField, fails_with, viewed};
use crate::scalar::Scalar;
use crate::text::{normalize, normalized};

verus! {

/// What the engine is asked when a parametrization is made: to take the
/// coefficients as they are given, or to look them up in its table of
/// published methods.
#[derive(Debug, Clone, PartialEq, Eq)]
pub enum ParamRequest {
    Rational(DFTD3RationalDampingParam),
    Zero(DFTD3ZeroDampingParam),
    ModifiedRational(DFTD3ModifiedRationalDampingParam),
    ModifiedZero(DFTD3ModifiedZeroDampingParam),
    OptimizedPower(DFTD3OptimizedPowerDampingParam),
    /// The entry of the table for `method`. With `atm` set, the entry that
    /// includes the three-body term.
    Load { scheme: DampingScheme, method: String, atm: bool },
}

/// The mathematical content of a [`ParamRequest`].
pub enum ParamRequestView {
    Rational(DFTD3RationalDampingParam),
    Zero(DFTD3ZeroDampingParam),
    ModifiedRational(DFTD3ModifiedRationalDampingParam),
    ModifiedZero(DFTD3ModifiedZeroDampingParam),
    OptimizedPower(DFTD3OptimizedPowerDampingParam),
    Load { scheme: DampingScheme, method: Seq<char>, atm: bool },
}

impl View for ParamRequest {
    type V = ParamRequestView;

    open spec fn view(&self) -> ParamRequestView {
        match *self {
            ParamRequest::Rational(coefficients) => ParamRequestView::Rational(coefficients),
            ParamRequest::Zero(coefficients) => ParamRequestView::Zero(coefficients),
            ParamRequest::ModifiedRational(coefficients) => ParamRequestView::ModifiedRational(
                coefficients,
            ),
            ParamRequest::ModifiedZero(coefficients) => ParamRequestView::ModifiedZero(
                coefficients,
            ),
            ParamRequest::OptimizedPower(coefficients) => ParamRequestView::OptimizedPower(
                coefficients,
            ),
            ParamRequest::Load { scheme, method, atm } => ParamRequestView::Load {
                scheme,
                method: method@,
                atm,
            },
        }
    }
}

impl ParamRequestView {
    /// The damping function that the request is for.
    pub open spec fn scheme(self) -> DampingScheme {
        match self {
            ParamRequestView::Rational(_) => DampingScheme::Rational,
            ParamRequestView::Zero(_) => DampingScheme::Zero,
            ParamRequestView::ModifiedRational(_) => DampingScheme::ModifiedRational,
            ParamRequestView::ModifiedZero(_) => DampingScheme::ModifiedZero,
            ParamRequestView::OptimizedPower(_) => DampingScheme::OptimizedPower,
            ParamRequestView::Load { scheme, .. } => scheme,
        }
    }

    /// What a failure of the engine means for the request. A lookup fails
    /// because the table has no entry for the method. Coefficients that are
    /// given cannot be unknown, so a failure there is the engine's own.
    pub open spec fn failure(self, message: Seq<char>) -> DFTD3ErrorView {
        match self {
            ParamRequestView::Load { method, .. } => DFTD3ErrorView::UnknownMethod {
                name: method,
                message,
            },
            _ => DFTD3ErrorView::EngineError { message },
        }
    }

    /// What the engine's answer makes of the request: with the channel set
    /// no parametrization comes out, otherwise `ptr` is its handle.
    pub open spec fn outcome(self, ptr: Handle, error: Option<Seq<char>>) -> Result<
        ParamView,
        DFTD3ErrorView,
    > {
        match error {
            Some(message) => Err(self.failure(message)),
            None => Ok(ParamView { handle: ptr, origin: self }),
        }
    }
}

/// A lookup in the engine's table that the engine answers with a set channel
/// fails for an unknown method, under the name that was asked for and with
/// the engine's message. This holds for each damping function, with and
/// without the three-body term, and no parametrization comes out.
pub proof fn law_unknown_method(
    scheme: DampingScheme,
    method: Seq<char>,
    atm: bool,
    ptr: Handle,
    message: Seq<char>,
)
    ensures
        (ParamRequestView::Load { scheme, method, atm }).outcome(ptr, Some(message)) == Err::<
            ParamView,
            DFTD3ErrorView,
        >(DFTD3ErrorView::UnknownMethod { name: method, message }),
{
}

impl ParamRequest {
    /// The damping function that the request is for.
    pub fn scheme(&self) -> (scheme: DampingScheme)
        ensures
            scheme == self@.scheme(),
    {
        match self {
            ParamRequest::Rational(_) => DampingScheme::Rational,
            ParamRequest::Zero(_) => DampingScheme::Zero,
            ParamRequest::ModifiedRational(_) => DampingScheme::ModifiedRational,
            ParamRequest::ModifiedZero(_) => DampingScheme::ModifiedZero,
            ParamRequest::OptimizedPower(_) => DampingScheme::OptimizedPower,
            ParamRequest::Load { scheme, .. } => *scheme,
        }
    }

    /// Takes the engine's answer. With the channel set no parametrization
    /// comes out; otherwise `ptr` is its handle.
    pub fn complete(self, ptr: Handle, error: &ErrorChannel) -> (result: Result<
        DFTD3Param,
        DFTD3Error,
    >)
        ensures
            viewed(result) == self@.outcome(ptr, error@),
    {
        if error.is_set() {
            match self {
                ParamRequest::Load { method, .. } => Err(
                    DFTD3Error::UnknownMethod { name: method, message: error.message() },
                ),
                _ => Err(DFTD3Error::EngineError { message: error.message() }),
            }
        } else {
            Ok(DFTD3Param { ptr, origin: self })
        }
    }
}

/// A damping function with all its coefficients, held by the engine. It never
/// changes once it is made.
#[derive(Debug)]
pub struct DFTD3Param {
    ptr: Handle,
    origin: ParamRequest,
}

/// The mathematical content of a [`DFTD3Param`].
pub struct ParamView {
    pub handle: Handle,
    /// The request that the engine answered with the handle.
    pub origin: ParamRequestView,
}

impl View for DFTD3Param {
    type V = ParamView;

    closed spec fn view(&self) -> ParamView {
        ParamView { handle: self.ptr, origin: self.origin@ }
    }
}

impl DFTD3Param {
    /// The handle under which the engine knows this parametrization.
    pub fn handle(&self) -> (ptr: Handle)
        ensures
            ptr == self@.handle,
    {
        self.ptr
    }

    /// The request from which this parametrization was made.
    pub fn origin(&self) -> (request: &ParamRequest)
        ensures
            request@ == self@.origin,
    {
        &self.origin
    }

    /// The damping function.
    pub fn scheme(&self) -> (scheme: DampingScheme)
        ensures
            scheme == self@.origin.scheme(),
    {
        self.origin.scheme()
    }
}

/// Coefficients from which a parametrization can be made.
pub trait DFTD3ParamAPI: Sized {
    /// The request that hands these coefficients to the engine.
    spec fn request(self) -> ParamRequestView;

    /// The request that hands these coefficients to the engine.
    fn new_param_f(self) -> (request: ParamRequest)
        ensures
            request@ == self.request(),
    ;

    /// The parametrization that `ptr` stands for, where the engine made it
    /// from these coefficients without complaint.
    fn new_param(self, ptr: Handle, error: &ErrorChannel) -> (param: DFTD3Param)
        requires
            error@ is None,
        ensures
            param@ == (ParamView { handle: ptr, origin: self.request() }),
    ;
}

/// A damping function whose coefficients the engine's table holds.
pub trait DFTD3LoadParamAPI {
    /// The damping function.
    spec fn scheme() -> DampingScheme;

    /// The request for the entry of the table for `method`.
    fn load_param_f(method: &str, atm: bool) -> (request: ParamRequest)
        ensures
            request@ == (ParamRequestView::Load { scheme: Self::scheme(), method: method@, atm }),
    ;

    /// The parametrization that `ptr` stands for, where the engine found
    /// `method` in its table.
    fn load_param(method: &str, atm: bool, ptr: Handle, error: &ErrorChannel) -> (param:
        DFTD3Param)
        requires
            error@ is None,
        ensures
            param@ == (ParamView {
                handle: ptr,
                origin: ParamRequestView::Load { scheme: Self::scheme(), method: method@, atm },
            }),
    ;
}

/// A builder of coefficients that can go on to the engine.
pub trait DampingParamBuilder: Sized {
    /// The first coefficient without a default that was not given.
    spec fn missing_field(self) -> Option<ParamField>;

    /// The request that hands the finished coefficients to the engine.
    spec fn request(self) -> ParamRequestView;

    /// Finishes the coefficients and gives the request for them, or names the
    /// first coefficient that is missing.
    fn init_f(self) -> (result: Result<ParamRequest, DFTD3Error>)
        ensures
            match self.missing_field() {
                Some(field) => fails_with(
                    result,
                    DFTD3ErrorView::IncompleteParametrization { missing_field: field },
                ),
                None => result is Ok && result->Ok_0@ == self.request(),
            },
    ;

    /// The parametrization that `ptr` stands for, where nothing is missing
    /// and the engine made it without complaint.
    fn init(self, ptr: Handle, error: &ErrorChannel) -> (param: DFTD3Param)
        requires
            self.missing_field() is None,
            error@ is None,
        ensures
            param@ == (ParamView { handle: ptr, origin: self.request() }),
    ;
}

impl DFTD3Param {
    /// The request for zero damping with the given coefficients.
    pub fn new_zero_damping_f(
        s6: Scalar,
        s8: Scalar,
        s9: Scalar,
        rs6: Scalar,
        rs8: Scalar,
        alp: Scalar,
    ) -> (request: ParamRequest)
        ensures
            request@ == ParamRequestView::Zero(
                DFTD3ZeroDampingParam { s6, s8, s9, rs6, rs8, alp },
            ),
    {
        ParamRequest::Zero(DFTD3ZeroDampingParam { s6, s8, s9, rs6, rs8, alp })
    }

    /// The parametrization that `ptr` stands for, where the engine made it
    /// from these coefficients without complaint.
    pub fn new_zero_damping(
        s6: Scalar,
        s8: Scalar,
        s9: Scalar,
        rs6: Scalar,
        rs8: Scalar,
        alp: Scalar,
        ptr: Handle,
        error: &ErrorChannel,
    ) -> (param: Self)
        requires
            error@ is None,
        ensures
            param@ == (ParamView {
                handle: ptr,
                origin: ParamRequestView::Zero(
                    DFTD3ZeroDampingParam { s6, s8, s9, rs6, rs8, alp },
                ),
            }),
    {
        Self::new_zero_damping_f(s6, s8, s9, rs6, rs8, alp).complete(ptr, error).unwrap()
    }

    /// The request for the zero damping that the engine's table holds for
    /// `method`, with the three-body term if `atm` is set.
    pub fn load_zero_damping_f(method: &str, atm: bool) -> (request: ParamRequest)
        ensures
            request@ == (ParamRequestView::Load {
                scheme: DampingScheme::Zero,
                method: method@,
                atm,
            }),
    {
        ParamRequest::Load { scheme: DampingScheme::Zero, method: method.to_owned(), atm }
    }

    /// The parametrization that `ptr` stands for, where the engine found
    /// `method` in its table.
    pub fn load_zero_damping(
        method: &str,
        atm: bool,
        ptr: Handle,
        error: &ErrorChannel,
    ) -> (param: Self)
        requires
            error@ is None,
        ensures
            param@ == (ParamView {
                handle: ptr,
                origin: ParamRequestView::Load {
                    scheme: DampingScheme::Zero,
                    method: method@,
                    atm,
                },
            }),
    {
        Self::load_zero_damping_f(method, atm).complete(ptr, error).unwrap()
    }

    /// The request for rational damping with the given coefficients.
    pub fn new_rational_damping_f(
        s6: Scalar,
        s8: Scalar,
        s9: Scalar,
        a1: Scalar,
        a2: Scalar,
        alp: Scalar,
    ) -> (request: ParamRequest)
        ensures
            request@ == ParamRequestView::Rational(
                DFTD3RationalDampingParam { s6, s8, s9, a1, a2, alp },
            ),
    {
        ParamRequest::Rational(DFTD3RationalDampingParam { s6, s8, s9, a1, a2, alp })
    }

    /// The parametrization that `ptr` stands for, where the engine made it
    /// from these coefficients without complaint.
    pub fn new_rational_damping(
        s6: Scalar,
        s8: Scalar,
        s9: Scalar,
        a1: Scalar,
        a2: Scalar,
        alp: Scalar,
        ptr: Handle,
        error: &ErrorChannel,
    ) -> (param: Self)
        requires
            error@ is None,
        ensures
            param@ == (ParamView {
                handle: ptr,
                origin: ParamRequestView::Rational(
                    DFTD3RationalDampingParam { s6, s8, s9, a1, a2, alp },
                ),
            }),
    {
        Self::new_rational_damping_f(s6, s8, s9, a1, a2, alp).complete(ptr, error).unwrap()
    }

    /// The request for the rational damping that the engine's table holds for
    /// `method`, with the three-body term if `atm` is set.
    pub fn load_rational_damping_f(method: &str, atm: bool) -> (request: ParamRequest)
        ensures
            request@ == (ParamRequestView::Load {
                scheme: DampingScheme::Rational,
                method: method@,
                atm,
            }),
    {
        ParamRequest::Load { scheme: DampingScheme::Rational, method: method.to_owned(), atm }
    }

    /// The parametrization that `ptr` stands for, where the engine found
    /// `method` in its table.
    pub fn load_rational_damping(
        method: &str,
        atm: bool,
        ptr: Handle,
        error: &ErrorChannel,
    ) -> (param: Self)
        requires
            error@ is None,
        ensures
            param@ == (ParamView {
                handle: ptr,
                origin: ParamRequestView::Load {
                    scheme: DampingScheme::Rational,
                    method: method@,
                    atm,
                },
            }),
    {
        Self::load_rational_damping_f(method, atm).complete(ptr, error).unwrap()
    }

    /// The request for modified zero damping with the given coefficients.
    pub fn new_mzero_damping_f(
        s6: Scalar,
        s8: Scalar,
        s9: Scalar,
        rs6: Scalar,
        rs8: Scalar,
        alp: Scalar,
        bet: Scalar,
    ) -> (request: ParamRequest)
        ensures
            request@ == ParamRequestView::ModifiedZero(
                DFTD3ModifiedZeroDampingParam { s6, s8, s9, rs6, rs8, alp, bet },
            ),
    {
        ParamRequest::ModifiedZero(DFTD3ModifiedZeroDampingParam { s6, s8, s9, rs6, rs8, alp, bet })
    }

    /// The parametrization that `ptr` stands for, where the engine made it
    /// from these coefficients without complaint.
    pub fn new_mzero_damping(
        s6: Scalar,
        s8: Scalar,
        s9: Scalar,
        rs6: Scalar,
        rs8: Scalar,
        alp: Scalar,
        bet: Scalar,
        ptr: Handle,
        error: &ErrorChannel,
    ) -> (param: Self)
        requires
            error@ is None,
        ensures
            param@ == (ParamView {
                handle: ptr,
                origin: ParamRequestView::ModifiedZero(
                    DFTD3ModifiedZeroDampingParam { s6, s8, s9, rs6, rs8, alp, bet },
                ),
            }),
    {
        Self::new_mzero_damping_f(s6, s8, s9, rs6, rs8, alp, bet).complete(ptr, error).unwrap()
    }

    /// The request for the modified zero damping that the engine's table holds for
    /// `method`, with the three-body term if `atm` is set.
    pub fn load_mzero_damping_f(method: &str, atm: bool) -> (request: ParamRequest)
        ensures
            request@ == (ParamRequestView::Load {
                scheme: DampingScheme::ModifiedZero,
                method: method@,
                atm,
            }),
    {
        ParamRequest::Load { scheme: DampingScheme::ModifiedZero, method: method.to_owned(), atm }
    }

    /// The parametrization that `ptr` stands for, where the engine found
    /// `method` in its table.
    pub fn load_mzero_damping(
        method: &str,
        atm: bool,
        ptr: Handle,
        error: &ErrorChannel,
    ) -> (param: Self)
        requires
            error@ is None,
        ensures
            param@ == (ParamView {
                handle: ptr,
                origin: ParamRequestView::Load {
                    scheme: DampingScheme::ModifiedZero,
                    method: method@,
                    atm,
                },
            }),
    {
        Self::load_mzero_damping_f(method, atm).complete(ptr, error).unwrap()
    }

    /// The request for modified rational damping with the given coefficients.
    pub fn new_mrational_damping_f(
        s6: Scalar,
        s8: Scalar,
        s9: Scalar,
        a1: Scalar,
        a2: Scalar,
        alp: Scalar,
    ) -> (request: ParamRequest)
        ensures
            request@ == ParamRequestView::ModifiedRational(
                DFTD3ModifiedRationalDampingParam { s6, s8, s9, a1, a2, alp },
            ),
    {
        ParamRequest::ModifiedRational(
            DFTD3ModifiedRationalDampingParam { s6, s8, s9, a1, a2, alp },
        )
    }

    /// The parametrization that `ptr` stands for, where the engine made it
    /// from these coefficients without complaint.
    pub fn new_mrational_damping(
        s6: Scalar,
        s8: Scalar,
        s9: Scalar,
        a1: Scalar,
        a2: Scalar,
        alp: Scalar,
        ptr: Handle,
        error: &ErrorChannel,
    ) -> (param: Self)
        requires
            error@ is None,
        ensures
            param@ == (ParamView {
                handle: ptr,
                origin: ParamRequestView::ModifiedRational(
                    DFTD3ModifiedRationalDampingParam { s6, s8, s9, a1, a2, alp },
                ),
            }),
    {
        Self::new_mrational_damping_f(s6, s8, s9, a1, a2, alp).complete(ptr, error).unwrap()
    }

    /// The request for the modified rational damping that the engine's table holds for
    /// `method`, with the three-body term if `atm` is set.
    pub fn load_mrational_damping_f(method: &str, atm: bool) -> (request: ParamRequest)
        ensures
            request@ == (ParamRequestView::Load {
                scheme: DampingScheme::ModifiedRational,
                method: method@,
                atm,
            }),
    {
        ParamRequest::Load {
            scheme: DampingScheme::ModifiedRational,
            method: method.to_owned(),
            atm,
        }
    }

    /// The parametrization that `ptr` stands for, where the engine found
    /// `method` in its table.
    pub fn load_mrational_damping(
        method: &str,
        atm: bool,
        ptr: Handle,
        error: &ErrorChannel,
    ) -> (param: Self)
        requires
            error@ is None,
        ensures
            param@ == (ParamView {
                handle: ptr,
                origin: ParamRequestView::Load {
                    scheme: DampingScheme::ModifiedRational,
                    method: method@,
                    atm,
                },
            }),
    {
        Self::load_mrational_damping_f(method, atm).complete(ptr, error).unwrap()
    }

    /// The request for optimized power damping with the given coefficients.
    pub fn new_optimizedpower_damping_f(
        s6: Scalar,
        s8: Scalar,
        s9: Scalar,
        a1: Scalar,
        a2: Scalar,
        alp: Scalar,
        bet: Scalar,
    ) -> (request: ParamRequest)
        ensures
            request@ == ParamRequestView::OptimizedPower(
                DFTD3OptimizedPowerDampingParam { s6, s8, s9, a1, a2, alp, bet },
            ),
    {
        ParamRequest::OptimizedPower(
            DFTD3OptimizedPowerDampingParam { s6, s8, s9, a1, a2, alp, bet },
        )
    }

    /// The parametrization that `ptr` stands for, where the engine made it
    /// from these coefficients without complaint.
    pub fn new_optimizedpower_damping(
        s6: Scalar,
        s8: Scalar,
        s9: Scalar,
        a1: Scalar,
        a2: Scalar,
        alp: Scalar,
        bet: Scalar,
        ptr: Handle,
        error: &ErrorChannel,
    ) -> (param: Self)
        requires
            error@ is None,
        ensures
            param@ == (ParamView {
                handle: ptr,
                origin: ParamRequestView::OptimizedPower(
                    DFTD3OptimizedPowerDampingParam { s6, s8, s9, a1, a2, alp, bet },
                ),
            }),
    {
        Self::new_optimizedpower_damping_f(s6, s8, s9, a1, a2, alp, bet).complete(
            ptr,
            error,
        ).unwrap()
    }

    /// The request for the optimized power damping that the engine's table holds for
    /// `method`, with the three-body term if `atm` is set.
    pub fn load_optimizedpower_damping_f(method: &str, atm: bool) -> (request: ParamRequest)
        ensures
            request@ == (ParamRequestView::Load {
                scheme: DampingScheme::OptimizedPower,
                method: method@,
                atm,
            }),
    {
        ParamRequest::Load { scheme: DampingScheme::OptimizedPower, method: method.to_owned(), atm }
    }

    /// The parametrization that `ptr` stands for, where the engine found
    /// `method` in its table.
    pub fn load_optimizedpower_damping(
        method: &str,
        atm: bool,
        ptr: Handle,
        error: &ErrorChannel,
    ) -> (param: Self)
        requires
            error@ is None,
        ensures
            param@ == (ParamView {
                handle: ptr,
                origin: ParamRequestView::Load {
                    scheme: DampingScheme::OptimizedPower,
                    method: method@,
                    atm,
                },
            }),
    {
        Self::load_optimizedpower_damping_f(method, atm).complete(ptr, error).unwrap()
    }
}

impl DFTD3ParamAPI for DFTD3RationalDampingParam {
    open spec fn request(self) -> ParamRequestView {
        ParamRequestView::Rational(self)
    }

    fn new_param_f(self) -> (request: ParamRequest) {
        let Self { s6, s8, s9, a1, a2, alp } = self;
        DFTD3Param::new_rational_damping_f(s6, s8, s9, a1, a2, alp)
    }

    fn new_param(self, ptr: Handle, error: &ErrorChannel) -> (param: DFTD3Param) {
        self.new_param_f().complete(ptr, error).unwrap()
    }
}

impl DFTD3ParamAPI for DFTD3ZeroDampingParam {
    open spec fn request(self) -> ParamRequestView {
        ParamRequestView::Zero(self)
    }

    fn new_param_f(self) -> (request: ParamRequest) {
        let Self { s6, s8, s9, rs6, rs8, alp } = self;
        DFTD3Param::new_zero_damping_f(s6, s8, s9, rs6, rs8, alp)
    }

    fn new_param(self, ptr: Handle, error: &ErrorChannel) -> (param: DFTD3Param) {
        self.new_param_f().complete(ptr, error).unwrap()
    }
}

impl DFTD3ParamAPI for DFTD3ModifiedRationalDampingParam {
    open spec fn request(self) -> ParamRequestView {
        ParamRequestView::ModifiedRational(self)
    }

    fn new_param_f(self) -> (request: ParamRequest) {
        let Self { s6, s8, s9, a1, a2, alp } = self;
        DFTD3Param::new_mrational_damping_f(s6, s8, s9, a1, a2, alp)
    }

    fn new_param(self, ptr: Handle, error: &ErrorChannel) -> (param: DFTD3Param) {
        self.new_param_f().complete(ptr, error).unwrap()
    }
}

impl DFTD3ParamAPI for DFTD3ModifiedZeroDampingParam {
    open spec fn request(self) -> ParamRequestView {
        ParamRequestView::ModifiedZero(self)
    }

    fn new_param_f(self) -> (request: ParamRequest) {
        let Self { s6, s8, s9, rs6, rs8, alp, bet } = self;
        DFTD3Param::new_mzero_damping_f(s6, s8, s9, rs6, rs8, alp, bet)
    }

    fn new_param(self, ptr: Handle, error: &ErrorChannel) -> (param: DFTD3Param) {
        self.new_param_f().complete(ptr, error).unwrap()
    }
}

impl DFTD3ParamAPI for DFTD3OptimizedPowerDampingParam {
    open spec fn request(self) -> ParamRequestView {
        ParamRequestView::OptimizedPower(self)
    }

    fn new_param_f(self) -> (request: ParamRequest) {
        let Self { s6, s8, s9, a1, a2, alp, bet } = self;
        DFTD3Param::new_optimizedpower_damping_f(s6, s8, s9, a1, a2, alp, bet)
    }

    fn new_param(self, ptr: Handle, error: &ErrorChannel) -> (param: DFTD3Param) {
        self.new_param_f().complete(ptr, error).unwrap()
    }
}

impl DFTD3LoadParamAPI for DFTD3RationalDampingParam {
    open spec fn scheme() -> DampingScheme {
        DampingScheme::Rational
    }

    fn load_param_f(method: &str, atm: bool) -> (request: ParamRequest) {
        DFTD3Param::load_rational_damping_f(method, atm)
    }

    fn load_param(method: &str, atm: bool, ptr: Handle, error: &ErrorChannel) -> (param:
        DFTD3Param) {
        Self::load_param_f(method, atm).complete(ptr, error).unwrap()
    }
}

impl DFTD3LoadParamAPI for DFTD3ZeroDampingParam {
    open spec fn scheme() -> DampingScheme {
        DampingScheme::Zero
    }

    fn load_param_f(method: &str, atm: bool) -> (request: ParamRequest) {
        DFTD3Param::load_zero_damping_f(method, atm)
    }

    fn load_param(method: &str, atm: bool, ptr: Handle, error: &ErrorChannel) -> (param:
        DFTD3Param) {
        Self::load_param_f(method, atm).complete(ptr, error).unwrap()
    }
}

impl DFTD3LoadParamAPI for DFTD3ModifiedRationalDampingParam {
    open spec fn scheme() -> DampingScheme {
        DampingScheme::ModifiedRational
    }

    fn load_param_f(method: &str, atm: bool) -> (request: ParamRequest) {
        DFTD3Param::load_mrational_damping_f(method, atm)
    }

    fn load_param(method: &str, atm: bool, ptr: Handle, error: &ErrorChannel) -> (param:
        DFTD3Param) {
        Self::load_param_f(method, atm).complete(ptr, error).unwrap()
    }
}

impl DFTD3LoadParamAPI for DFTD3ModifiedZeroDampingParam {
    open spec fn scheme() -> DampingScheme {
        DampingScheme::ModifiedZero
    }

    fn load_param_f(method: &str, atm: bool) -> (request: ParamRequest) {
        DFTD3Param::load_mzero_damping_f(method, atm)
    }

    fn load_param(method: &str, atm: bool, ptr: Handle, error: &ErrorChannel) -> (param:
        DFTD3Param) {
        Self::load_param_f(method, atm).complete(ptr, error).unwrap()
    }
}

impl DFTD3LoadParamAPI for DFTD3OptimizedPowerDampingParam {
    open spec fn scheme() -> DampingScheme {
        DampingScheme::OptimizedPower
    }

    fn load_param_f(method: &str, atm: bool) -> (request: ParamRequest) {
        DFTD3Param::load_optimizedpower_damping_f(method, atm)
    }

    fn load_param(method: &str, atm: bool, ptr: Handle, error: &ErrorChannel) -> (param:
        DFTD3Param) {
        Self::load_param_f(method, atm).complete(ptr, error).unwrap()
    }
}

impl DampingParamBuilder for DFTD3RationalDampingParamBuilder {
    open spec fn missing_field(self) -> Option<ParamField> {
        self.missing()
    }

    open spec fn request(self) -> ParamRequestView {
        ParamRequestView::Rational(self.record())
    }

    fn init_f(self) -> (result: Result<ParamRequest, DFTD3Error>) {
        Ok(self.build()?.new_param_f())
    }

    fn init(self, ptr: Handle, error: &ErrorChannel) -> (param: DFTD3Param) {
        self.init_f().unwrap().complete(ptr, error).unwrap()
    }
}

impl DampingParamBuilder for DFTD3ZeroDampingParamBuilder {
    open spec fn missing_field(self) -> Option<ParamField> {
        self.missing()
    }

    open spec fn request(self) -> ParamRequestView {
        ParamRequestView::Zero(self.record())
    }

    fn init_f(self) -> (result: Result<ParamRequest, DFTD3Error>) {
        Ok(self.build()?.new_param_f())
    }

    fn init(self, ptr: Handle, error: &ErrorChannel) -> (param: DFTD3Param) {
        self.init_f().unwrap().complete(ptr, error).unwrap()
    }
}

impl DampingParamBuilder for DFTD3ModifiedRationalDampingParamBuilder {
    open spec fn missing_field(self) -> Option<ParamField> {
        self.missing()
    }

    open spec fn request(self) -> ParamRequestView {
        ParamRequestView::ModifiedRational(self.record())
    }

    fn init_f(self) -> (result: Result<ParamRequest, DFTD3Error>) {
        Ok(self.build()?.new_param_f())
    }

    fn init(self, ptr: Handle, error: &ErrorChannel) -> (param: DFTD3Param) {
        self.init_f().unwrap().complete(ptr, error).unwrap()
    }
}

impl DampingParamBuilder for DFTD3ModifiedZeroDampingParamBuilder {
    open spec fn missing_field(self) -> Option<ParamField> {
        self.missing()
    }

    open spec fn request(self) -> ParamRequestView {
        ParamRequestView::ModifiedZero(self.record())
    }

    fn init_f(self) -> (result: Result<ParamRequest, DFTD3Error>) {
        Ok(self.build()?.new_param_f())
    }

    fn init(self, ptr: Handle, error: &ErrorChannel) -> (param: DFTD3Param) {
        self.init_f().unwrap().complete(ptr, error).unwrap()
    }
}

impl DampingParamBuilder for DFTD3OptimizedPowerDampingParamBuilder {
    open spec fn missing_field(self) -> Option<ParamField> {
        self.missing()
    }

    open spec fn request(self) -> ParamRequestView {
        ParamRequestView::OptimizedPower(self.record())
    }

    fn init_f(self) -> (result: Result<ParamRequest, DFTD3Error>) {
        Ok(self.build()?.new_param_f())
    }

    fn init(self, ptr: Handle, error: &ErrorChannel) -> (param: DFTD3Param) {
        self.init_f().unwrap().complete(ptr, error).unwrap()
    }
}


/// The request for the parameters of `method` under the damping function that
/// `version` names. The name is compared in lower case and without `-`, `_`
/// and spaces; the method goes to the engine as it is.
pub fn dftd3_load_param_f(version: &str, method: &str, atm: bool) -> (result: Result<
    ParamRequest,
    DFTD3Error,
>)
    ensures
        match DampingScheme::selected_by(normalized(version@)) {
            Some(scheme) => result is Ok && result->Ok_0@ == (ParamRequestView::Load {
                scheme,
                method: method@,
                atm,
            }),
            None => fails_with(
                result,
                DFTD3ErrorView::UnknownDampingVersion { name: normalized(version@) },
            ),
        },
{
    let name = normalize(version);
    match DampingScheme::from_selector(name.as_str()) {
        Some(scheme) => Ok(ParamRequest::Load { scheme, method: method.to_owned(), atm }),
        None => Err(DFTD3Error::UnknownDampingVersion { name }),
    }
}

/// The parametrization that `ptr` stands for, where `version` names a damping
/// function and the engine found `method` in its table.
pub fn dftd3_load_param(
    version: &str,
    method: &str,
    atm: bool,
    ptr: Handle,
    error: &ErrorChannel,
) -> (param: DFTD3Param)
    requires
        DampingScheme::selected_by(normalized(version@)) is Some,
        error@ is None,
    ensures
        param@ == (ParamView {
            handle: ptr,
            origin: ParamRequestView::Load {
                scheme: DampingScheme::selected_by(normalized(version@))->0,
                method: method@,
                atm,
            },
        }),
{
    dftd3_load_param_f(version, method, atm).unwrap().complete(ptr, error).unwrap()
}

/// The parametrization that `ptr` stands for, if `version` names a damping
/// function and the engine found `method` in its table; otherwise nothing.
pub fn dftd3_find_param(
    version: &str,
    method: &str,
    atm: bool,
    ptr: Handle,
    error: &ErrorChannel,
) -> (found: Option<DFTD3Param>)
    ensures
        match DampingScheme::selected_by(normalized(version@)) {
            Some(scheme) if error@ is None => found is Some && found->0@ == (ParamView {
                handle: ptr,
                origin: ParamRequestView::Load { scheme, method: method@, atm },
            }),
            _ => found is None,
        },
{
    if error.is_set() {
        return None;
    }
    let name = normalize(version);
    if DampingScheme::from_selector(name.as_str()).is_some() {
        Some(dftd3_load_param(version, method, atm, ptr, error))
    } else {
        None
    }
}

} // verus!
