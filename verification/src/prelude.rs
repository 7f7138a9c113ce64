//! The names that a user of this crate is likely to want, in one place.

pub use crate::damping::{
    DFTD3ModifiedRationalDampingParam, DFTD3ModifiedRationalDampingParamBuilder,
    DFTD3ModifiedZeroDampingParam, DFTD3ModifiedZeroDampingParamBuilder,
    DFTD3OptimizedPowerDampingParam, DFTD3OptimizedPowerDampingParamBuilder,
    DFTD3RationalDampingParam, DFTD3RationalDampingParamBuilder, DFTD3ZeroDampingParam,
    DFTD3ZeroDampingParamBuilder, DampingScheme,
};
pub use crate::engine::{ErrorChannel, Handle};
pub use crate::error::{DFTD3Error, Dimension, ParamField};
pub use crate::gcp::{
    CounterpoiseCall, CounterpoiseGradientRequest, CounterpoiseRequest, DFTD3GCP,
    GcpCutoffRequest, GcpRequest, get_counterpoise, get_counterpoise_f,
};
pub use crate::model::{
    CutoffRequest, DFTD3Model, DFTD3Output, DFTD3PairwiseOutput, DispersionCall,
    DispersionRequest, ModelRequest, PairwiseRequest,
};
pub use crate::param::{
    DFTD3LoadParamAPI, DFTD3Param, DFTD3ParamAPI, DampingParamBuilder, ParamRequest,
    dftd3_find_param, dftd3_load_param, dftd3_load_param_f,
};
pub use crate::scalar::{Scalar, FOURTEEN, ONE};
pub use crate::structure::{DFTD3Structure, StructureRequest, UpdateRequest};
pub use crate::version::{get_api_version, get_api_version_compact};
