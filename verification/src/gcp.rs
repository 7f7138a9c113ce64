//! The geometric counterpoise correction of a structure.

use vstd::prelude::*;
use crate::engine::{ErrorChannel, Handle};
use crate::error::{DFTD3Error, DFTD3ErrorView, fails_with, viewed};
use crate::model::{DFTD3Output, blank_output, filled};
use crate::scalar::Scalar;
use crate::structure::{
    DFTD3Structure, StructureRequest, StructureView, UpdateRequest, creation, length_of,
    shape_error,
};

verus! {

/// A structure together with the engine's counterpoise parameters for it.
/// Like a dispersion model it owns the structure.
#[derive(Debug)]
pub struct DFTD3GCP {
    ptr: Handle,
    structure: DFTD3Structure,
    method: String,
    basis: String,
}

/// The mathematical content of a [`DFTD3GCP`].
pub struct GcpView {
    pub handle: Handle,
    pub structure: StructureView,
    /// The method that the parameters were looked up for.
    pub method: Seq<char>,
    /// The basis set that the parameters were looked up for.
    pub basis: Seq<char>,
}

impl View for DFTD3GCP {
    type V = GcpView;

    closed spec fn view(&self) -> GcpView {
        GcpView {
            handle: self.ptr,
            structure: self.structure@,
            method: self.method@,
            basis: self.basis@,
        }
    }
}

/// A structure for which the engine is to look counterpoise parameters up.
#[derive(Debug)]
pub struct GcpRequest {
    structure: DFTD3Structure,
    method: String,
    basis: String,
}

/// The mathematical content of a [`GcpRequest`].
pub struct GcpRequestView {
    pub structure: StructureView,
    pub method: Seq<char>,
    pub basis: Seq<char>,
}

impl View for GcpRequest {
    type V = GcpRequestView;

    closed spec fn view(&self) -> GcpRequestView {
        GcpRequestView { structure: self.structure@, method: self.method@, basis: self.basis@ }
    }
}

impl GcpRequest {
    /// The structure to hand to the engine.
    pub fn structure(&self) -> (structure: &DFTD3Structure)
        ensures
            structure@ == self@.structure,
    {
        &self.structure
    }

    /// The method name to hand to the engine.
    pub fn method(&self) -> (method: &str)
        ensures
            method@ == self@.method,
    {
        self.method.as_str()
    }

    /// The name of the basis set to hand to the engine.
    pub fn basis(&self) -> (basis: &str)
        ensures
            basis@ == self@.basis,
    {
        self.basis.as_str()
    }

    /// Takes the engine's answer. With the channel set the engine found no
    /// parameters, and the structure is given up with the request.
    pub fn complete(self, ptr: Handle, error: &ErrorChannel) -> (result: Result<
        DFTD3GCP,
        DFTD3Error,
    >)
        ensures
            match error@ {
                Some(message) => fails_with(
                    result,
                    DFTD3ErrorView::UnknownMethod { name: self@.method, message },
                ),
                None => result is Ok && result->Ok_0@ == (GcpView {
                    handle: ptr,
                    structure: self@.structure,
                    method: self@.method,
                    basis: self@.basis,
                }),
            },
    {
        if error.is_set() {
            Err(DFTD3Error::UnknownMethod { name: self.method, message: error.message() })
        } else {
            Ok(
                DFTD3GCP {
                    ptr,
                    structure: self.structure,
                    method: self.method,
                    basis: self.basis,
                },
            )
        }
    }
}

/// The handles that an evaluation of the counterpoise correction names.
#[derive(Clone, Copy, Debug, PartialEq, Eq, Structural)]
pub struct CounterpoiseCall {
    pub structure: Handle,
    pub gcp: Handle,
}

/// An evaluation of the counterpoise correction that waits for the engine.
#[derive(Debug)]
pub struct CounterpoiseRequest<T> {
    /// The handles to name in the call.
    pub call: CounterpoiseCall,
    /// The buffers. They hold the result once the engine has written to them
    /// and its channel was found empty.
    pub output: DFTD3Output<T>,
}

impl<T> CounterpoiseRequest<T> {
    /// Takes the engine's answer. With the channel set, whatever the buffers
    /// hold is dropped; otherwise they are the result.
    pub fn complete(self, error: &ErrorChannel) -> (result: Result<DFTD3Output<T>, DFTD3Error>)
        ensures
            match error@ {
                Some(message) => fails_with(result, DFTD3ErrorView::EngineError { message }),
                None => result == Ok::<DFTD3Output<T>, DFTD3Error>(self.output),
            },
    {
        if error.is_set() {
            Err(DFTD3Error::EngineError { message: error.message() })
        } else {
            Ok(self.output)
        }
    }
}

/// An evaluation of the counterpoise correction with all its derivatives
/// that waits for the engine.
#[derive(Debug)]
pub struct CounterpoiseGradientRequest<T> {
    /// The handles to name in the call.
    pub call: CounterpoiseCall,
    /// The place for the energy.
    pub energy: T,
    /// The place for the gradient, three numbers per atom.
    pub grad: Vec<T>,
    /// The place for the strain derivatives, nine numbers.
    pub sigma: Vec<T>,
}

impl<T> CounterpoiseGradientRequest<T> {
    /// Takes the engine's answer. With the channel set, whatever the buffers
    /// hold is dropped; otherwise they are the result: energy, gradient and
    /// strain derivatives.
    pub fn complete(self, error: &ErrorChannel) -> (result: Result<
        (T, Vec<T>, Vec<T>),
        DFTD3Error,
    >)
        ensures
            match error@ {
                Some(message) => fails_with(result, DFTD3ErrorView::EngineError { message }),
                None => result == Ok::<(T, Vec<T>, Vec<T>), DFTD3Error>(
                    (self.energy, self.grad, self.sigma),
                ),
            },
    {
        if error.is_set() {
            Err(DFTD3Error::EngineError { message: error.message() })
        } else {
            Ok((self.energy, self.grad, self.sigma))
        }
    }
}

/// New cutoff radii for a counterpoise correction, in the length unit of the
/// coordinates.
#[derive(Clone, Copy, Debug, PartialEq, Eq, Structural)]
pub struct GcpCutoffRequest {
    pub gcp: Handle,
    /// The radius of the basis set superposition term.
    pub bas: Scalar,
    /// The radius of the short-range bond correction.
    pub srb: Scalar,
}

impl GcpCutoffRequest {
    /// Takes the engine's answer.
    pub fn complete(self, error: &ErrorChannel) -> (result: Result<(), DFTD3Error>)
        ensures
            match error@ {
                Some(message) => fails_with(result, DFTD3ErrorView::EngineError { message }),
                None => result is Ok,
            },
    {
        if error.is_set() {
            Err(DFTD3Error::EngineError { message: error.message() })
        } else {
            Ok(())
        }
    }
}

impl DFTD3GCP {
    /// Checks the lengths of the arrays of a new structure. The parameters
    /// are looked up for the structure, once the engine has built it.
    pub fn new_f<T>(
        numbers: &[usize],
        positions: &[T],
        lattice: Option<&[T]>,
        periodic: Option<&[bool]>,
    ) -> (result: Result<StructureRequest, DFTD3Error>)
        requires
            3 * numbers@.len() <= usize::MAX,
        ensures
            viewed(result) == creation(
                numbers@.len(),
                positions@.len(),
                length_of(lattice),
                length_of(periodic),
            ),
    {
        DFTD3Structure::new_f(numbers, positions, lattice, periodic)
    }

    /// Builds the correction from arrays whose lengths fit and from the
    /// answers of an engine that accepted them: first for the structure, then
    /// for the parameters.
    pub fn new<T>(
        numbers: &[usize],
        positions: &[T],
        lattice: Option<&[T]>,
        periodic: Option<&[bool]>,
        method: &str,
        basis: &str,
        structure_ptr: Handle,
        structure_error: &ErrorChannel,
        ptr: Handle,
        error: &ErrorChannel,
    ) -> (gcp: Self)
        requires
            shape_error(
                numbers@.len(),
                positions@.len(),
                length_of(lattice),
                length_of(periodic),
            ) is None,
            structure_error@ is None,
            error@ is None,
        ensures
            gcp@ == (GcpView {
                handle: ptr,
                structure: StructureView { handle: structure_ptr, natoms: numbers@.len() },
                method: method@,
                basis: basis@,
            }),
    {
        // the positions are held in memory, so their length fits a machine word
        let held: usize = positions.len();
        assert(3 * numbers@.len() == held);
        let structure = Self::new_f(numbers, positions, lattice, periodic).unwrap().complete(
            structure_ptr,
            structure_error,
        ).unwrap();
        Self::load_gcp_param(structure, method, basis, ptr, error)
    }

    /// The request to look the parameters of `method` and `basis` up for
    /// `structure`. Empty names are names like any other here: the engine
    /// answers them with a correction of zero. The structure moves into the
    /// request.
    pub fn load_gcp_param_f(structure: DFTD3Structure, method: &str, basis: &str) -> (request:
        GcpRequest)
        ensures
            request@ == (GcpRequestView {
                structure: structure@,
                method: method@,
                basis: basis@,
            }),
    {
        GcpRequest { structure, method: method.to_owned(), basis: basis.to_owned() }
    }

    /// The correction for `structure` that `ptr` stands for, where the engine
    /// found the parameters.
    pub fn load_gcp_param(
        structure: DFTD3Structure,
        method: &str,
        basis: &str,
        ptr: Handle,
        error: &ErrorChannel,
    ) -> (gcp: Self)
        requires
            error@ is None,
        ensures
            gcp@ == (GcpView {
                handle: ptr,
                structure: structure@,
                method: method@,
                basis: basis@,
            }),
    {
        Self::load_gcp_param_f(structure, method, basis).complete(ptr, error).unwrap()
    }

    /// The number of atoms.
    pub fn get_natoms(&self) -> (natoms: usize)
        ensures
            natoms == self@.structure.natoms,
    {
        self.structure.get_natoms()
    }

    /// The handle under which the engine knows these parameters.
    pub fn handle(&self) -> (ptr: Handle)
        ensures
            ptr == self@.handle,
    {
        self.ptr
    }

    /// The structure that the correction is for.
    pub fn structure(&self) -> (structure: &DFTD3Structure)
        ensures
            structure@ == self@.structure,
    {
        &self.structure
    }

    /// The handles to give back to the engine when the correction is done
    /// with, in the order in which to give them back: the parameters first,
    /// then the structure that they were looked up for.
    pub fn release_order(&self) -> (handles: [Handle; 2])
        ensures
            handles[0] == self@.handle,
            handles[1] == self@.structure.handle,
    {
        [self.ptr, self.structure.handle()]
    }

    /// Prepares an evaluation of the correction, with buffers as an
    /// evaluation of the dispersion energy has them.
    pub fn get_counterpoise_f<T: Copy>(&self, eval_grad: bool, zero: T) -> (request:
        CounterpoiseRequest<T>)
        ensures
            request.call == (CounterpoiseCall {
                structure: self@.structure.handle,
                gcp: self@.handle,
            }),
            request.output@ == blank_output(zero, self@.structure.natoms, eval_grad),
    {
        let natoms: usize = self.structure.get_natoms();
        let grad = if eval_grad {
            Some(filled(zero, 3 * natoms))
        } else {
            None
        };
        let sigma = if eval_grad {
            Some(filled(zero, 9))
        } else {
            None
        };
        CounterpoiseRequest {
            call: CounterpoiseCall { structure: self.structure.handle(), gcp: self.ptr },
            output: DFTD3Output { energy: zero, grad, sigma },
        }
    }

    /// The result of an evaluation, from buffers to which the engine wrote
    /// without complaint.
    pub fn get_counterpoise<T>(
        &self,
        eval_grad: bool,
        output: DFTD3Output<T>,
        error: &ErrorChannel,
    ) -> (result: DFTD3Output<T>)
        requires
            error@ is None,
            output@.grad is Some == eval_grad,
            output@.sigma is Some == eval_grad,
            eval_grad ==> output@.grad->0.len() == 3 * self@.structure.natoms,
            eval_grad ==> output@.sigma->0.len() == 9,
        ensures
            result == output,
    {
        let request = CounterpoiseRequest {
            call: CounterpoiseCall { structure: self.structure.handle(), gcp: self.ptr },
            output,
        };
        request.complete(error).unwrap()
    }

    /// The request for new cutoff radii.
    pub fn set_realspace_cutoff_f(&self, bas: Scalar, srb: Scalar) -> (request: GcpCutoffRequest)
        ensures
            request == (GcpCutoffRequest { gcp: self@.handle, bas, srb }),
    {
        GcpCutoffRequest { gcp: self.ptr, bas, srb }
    }

    /// Notes that the engine took new cutoff radii without complaint.
    pub fn set_realspace_cutoff(&self, bas: Scalar, srb: Scalar, error: &ErrorChannel)
        requires
            error@ is None,
    {
        self.set_realspace_cutoff_f(bas, srb).complete(error).unwrap()
    }

    /// Checks the lengths of new coordinates against the atoms of the
    /// structure. The correction itself stays as it is.
    pub fn update_f<T>(&mut self, positions: &[T], lattice: Option<&[T]>) -> (result: Result<
        UpdateRequest,
        DFTD3Error,
    >)
        ensures
            *final(self) == *old(self),
            viewed(result) == old(self)@.structure.update(positions@.len(), length_of(lattice)),
    {
        self.structure.update_f(positions, lattice)
    }

    /// Takes note that the engine moved the atoms to coordinates of fitting
    /// lengths. The coordinates are the engine's: nothing changes here.
    pub fn update<T>(&mut self, positions: &[T], lattice: Option<&[T]>, error: &ErrorChannel)
        requires
            shape_error(
                old(self)@.structure.natoms,
                positions@.len(),
                length_of(lattice),
                None,
            ) is None,
            error@ is None,
        ensures
            *final(self) == *old(self),
    {
        self.structure.update(positions, lattice, error)
    }
}

/// Prepares an evaluation of the correction `gcp` on `structure`, with the
/// gradient and the strain derivatives.
pub fn get_counterpoise_f<T: Copy>(structure: &DFTD3Structure, gcp: &DFTD3GCP, zero: T) -> (request:
    CounterpoiseGradientRequest<T>)
    ensures
        request.call == (CounterpoiseCall { structure: structure@.handle, gcp: gcp@.handle }),
        request.energy == zero,
        request.grad@ == Seq::new(3 * structure@.natoms, |i: int| zero),
        request.sigma@ == Seq::new(9, |i: int| zero),
{
    let natoms: usize = structure.get_natoms();
    CounterpoiseGradientRequest {
        call: CounterpoiseCall { structure: structure.handle(), gcp: gcp.handle() },
        energy: zero,
        grad: filled(zero, 3 * natoms),
        sigma: filled(zero, 9),
    }
}

/// The result of an evaluation with all its derivatives, from buffers to
/// which the engine wrote without complaint.
pub fn get_counterpoise<T>(
    structure: &DFTD3Structure,
    gcp: &DFTD3GCP,
    energy: T,
    grad: Vec<T>,
    sigma: Vec<T>,
    error: &ErrorChannel,
) -> (result: (T, Vec<T>, Vec<T>))
    requires
        error@ is None,
        grad@.len() == 3 * structure@.natoms,
        sigma@.len() == 9,
    ensures
        result == (energy, grad, sigma),
{
    let request = CounterpoiseGradientRequest {
        call: CounterpoiseCall { structure: structure.handle(), gcp: gcp.handle() },
        energy,
        grad,
        sigma,
    };
    request.complete(error).unwrap()
}

} // verus!
