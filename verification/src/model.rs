//! The dispersion model of a structure, and what it evaluates.

use vstd::prelude::*;
use crate::engine::{ErrorChannel, Handle};
use crate::error::{DFTD3Error, DFTD3ErrorView, fails_with, viewed};
use crate::param::DFTD3Param;
use crate::scalar::Scalar;
use crate::structure::{
    DFTD3Structure, StructureRequest, StructureView, UpdateRequest, creation, length_of,
    shape_error,
};

verus! {

/// A vector that holds `value` in each of its `len` places.
pub fn filled<T: Copy>(value: T, len: usize) -> (buffer: Vec<T>)
    ensures
        buffer@ == Seq::new(len as nat, |i: int| value),
{
    let mut buffer: Vec<T> = Vec::with_capacity(len);
    let mut i: usize = 0;
    while i < len
        invariant
            i <= len,
            buffer@ == Seq::new(i as nat, |i: int| value),
        decreases len - i,
    {
        buffer.push(value);
        i = i + 1;
        assert(buffer@ =~= Seq::new(i as nat, |i: int| value));
    }
    buffer
}

/// An energy with, where they were asked for, its derivatives.
#[derive(Debug, Clone, PartialEq)]
pub struct DFTD3Output<T> {
    /// The energy.
    pub energy: T,
    /// The derivative of the energy by each coordinate, three per atom.
    pub grad: Option<Vec<T>>,
    /// The derivative of the energy by strain, three by three.
    pub sigma: Option<Vec<T>>,
}

/// The mathematical content of a [`DFTD3Output`].
pub struct DFTD3OutputView<T> {
    pub energy: T,
    pub grad: Option<Seq<T>>,
    pub sigma: Option<Seq<T>>,
}

impl<T> View for DFTD3Output<T> {
    type V = DFTD3OutputView<T>;

    open spec fn view(&self) -> DFTD3OutputView<T> {
        DFTD3OutputView {
            energy: self.energy,
            grad: match self.grad {
                Some(grad) => Some(grad@),
                None => None,
            },
            sigma: match self.sigma {
                Some(sigma) => Some(sigma@),
                None => None,
            },
        }
    }
}

impl<T> From<DFTD3Output<T>> for (T, Option<Vec<T>>, Option<Vec<T>>) {
    /// Energy, gradient and strain derivatives, in this order.
    fn from(output: DFTD3Output<T>) -> (parts: Self) {
        (output.energy, output.grad, output.sigma)
    }
}

impl<T> vstd::std_specs::convert::FromSpecImpl<DFTD3Output<T>> for (T, Option<Vec<T>>, Option<Vec<T>>) {
    open spec fn obeys_from_spec() -> bool {
        true
    }

    open spec fn from_spec(output: DFTD3Output<T>) -> Self {
        (output.energy, output.grad, output.sigma)
    }
}

/// The buffers of an evaluation before the engine has written to them: each
/// place holds `zero`. The derivatives are there only if they are wanted,
/// three numbers per atom for the gradient and nine for the strain.
pub open spec fn blank_output<T>(zero: T, natoms: nat, eval_grad: bool) -> DFTD3OutputView<T> {
    DFTD3OutputView {
        energy: zero,
        grad: if eval_grad {
            Some(Seq::new(3 * natoms, |i: int| zero))
        } else {
            None
        },
        sigma: if eval_grad {
            Some(Seq::new(9, |i: int| zero))
        } else {
            None
        },
    }
}

/// The energy split over pairs of atoms.
#[derive(Debug, Clone, PartialEq)]
pub struct DFTD3PairwiseOutput<T> {
    /// The additive part, one row per atom.
    pub pair_energy2: Vec<T>,
    /// The part of the three-body term, one row per atom.
    pub pair_energy3: Vec<T>,
}

/// The mathematical content of a [`DFTD3PairwiseOutput`].
pub struct DFTD3PairwiseOutputView<T> {
    pub pair_energy2: Seq<T>,
    pub pair_energy3: Seq<T>,
}

impl<T> View for DFTD3PairwiseOutput<T> {
    type V = DFTD3PairwiseOutputView<T>;

    open spec fn view(&self) -> DFTD3PairwiseOutputView<T> {
        DFTD3PairwiseOutputView {
            pair_energy2: self.pair_energy2@,
            pair_energy3: self.pair_energy3@,
        }
    }
}

impl<T> From<DFTD3PairwiseOutput<T>> for (Vec<T>, Vec<T>) {
    /// The additive part, then the part of the three-body term.
    fn from(output: DFTD3PairwiseOutput<T>) -> (parts: Self) {
        (output.pair_energy2, output.pair_energy3)
    }
}

impl<T> vstd::std_specs::convert::FromSpecImpl<DFTD3PairwiseOutput<T>> for (Vec<T>, Vec<T>) {
    open spec fn obeys_from_spec() -> bool {
        true
    }

    open spec fn from_spec(output: DFTD3PairwiseOutput<T>) -> Self {
        (output.pair_energy2, output.pair_energy3)
    }
}

/// The two matrices of a pairwise evaluation before the engine has written
/// to them: a square of `natoms` rows each, `zero` in every place.
pub open spec fn blank_pairwise<T>(zero: T, natoms: nat) -> DFTD3PairwiseOutputView<T> {
    DFTD3PairwiseOutputView {
        pair_energy2: Seq::new(natoms * natoms, |i: int| zero),
        pair_energy3: Seq::new(natoms * natoms, |i: int| zero),
    }
}

/// A structure together with the engine's dispersion model of it. The model
/// owns the structure: nothing else can move its atoms.
#[derive(Debug)]
pub struct DFTD3Model {
    ptr: Handle,
    structure: DFTD3Structure,
}

/// The mathematical content of a [`DFTD3Model`].
pub struct ModelView {
    pub handle: Handle,
    pub structure: StructureView,
}

impl View for DFTD3Model {
    type V = ModelView;

    closed spec fn view(&self) -> ModelView {
        ModelView { handle: self.ptr, structure: self.structure@ }
    }
}

/// A structure for which the engine is to make the dispersion model.
#[derive(Debug)]
pub struct ModelRequest {
    structure: DFTD3Structure,
}

impl View for ModelRequest {
    /// The structure.
    type V = StructureView;

    closed spec fn view(&self) -> StructureView {
        self.structure@
    }
}

impl ModelRequest {
    /// The structure to hand to the engine.
    pub fn structure(&self) -> (structure: &DFTD3Structure)
        ensures
            structure@ == self@,
    {
        &self.structure
    }

    /// Takes the engine's answer. With the channel set there is no model, and
    /// the structure is given up with the request.
    pub fn complete(self, ptr: Handle, error: &ErrorChannel) -> (result: Result<
        DFTD3Model,
        DFTD3Error,
    >)
        ensures
            match error@ {
                Some(message) => fails_with(result, DFTD3ErrorView::EngineError { message }),
                None => result is Ok && result->Ok_0@ == (ModelView {
                    handle: ptr,
                    structure: self@,
                }),
            },
    {
        if error.is_set() {
            Err(DFTD3Error::EngineError { message: error.message() })
        } else {
            Ok(DFTD3Model { ptr, structure: self.structure })
        }
    }
}

/// The handles that an evaluation of the dispersion energy names.
#[derive(Clone, Copy, Debug, PartialEq, Eq, Structural)]
pub struct DispersionCall {
    pub structure: Handle,
    pub model: Handle,
    pub param: Handle,
}

/// An evaluation of the dispersion energy that waits for the engine: whom to
/// ask, and the buffers for the engine to write to.
#[derive(Debug)]
pub struct DispersionRequest<T> {
    /// The handles to name in the call.
    pub call: DispersionCall,
    /// The buffers. They hold the result once the engine has written to them
    /// and its channel was found empty.
    pub output: DFTD3Output<T>,
}

impl<T> DispersionRequest<T> {
    /// Takes the engine's answer. With the channel set, whatever the buffers
    /// hold is dropped; otherwise they are the result.
    pub fn complete(self, error: &ErrorChannel) -> (result: Result<DFTD3Output<T>, DFTD3Error>)
        ensures
            match error@ {
                Some(message) => fails_with(result, DFTD3ErrorView::EngineError { message }),
                None => result == Ok::<DFTD3Output<T>, DFTD3Error>(self.output),
            },
    {
        if error.is_set() {
            Err(DFTD3Error::EngineError { message: error.message() })
        } else {
            Ok(self.output)
        }
    }
}

/// A pairwise evaluation that waits for the engine.
#[derive(Debug)]
pub struct PairwiseRequest<T> {
    /// The handles to name in the call.
    pub call: DispersionCall,
    /// The two matrices. They hold the result once the engine has written to
    /// them and its channel was found empty.
    pub output: DFTD3PairwiseOutput<T>,
}

impl<T> PairwiseRequest<T> {
    /// Takes the engine's answer. With the channel set, whatever the matrices
    /// hold is dropped; otherwise they are the result.
    pub fn complete(self, error: &ErrorChannel) -> (result: Result<
        DFTD3PairwiseOutput<T>,
        DFTD3Error,
    >)
        ensures
            match error@ {
                Some(message) => fails_with(result, DFTD3ErrorView::EngineError { message }),
                None => result == Ok::<DFTD3PairwiseOutput<T>, DFTD3Error>(self.output),
            },
    {
        if error.is_set() {
            Err(DFTD3Error::EngineError { message: error.message() })
        } else {
            Ok(self.output)
        }
    }
}

/// New cutoff radii for a model, in the length unit of the coordinates.
#[derive(Clone, Copy, Debug, PartialEq, Eq, Structural)]
pub struct CutoffRequest {
    pub model: Handle,
    /// The radius within which pairs of atoms count.
    pub disp2: Scalar,
    /// The radius within which triples of atoms count.
    pub disp3: Scalar,
    /// The radius within which neighbours count towards the coordination
    /// number.
    pub cn: Scalar,
}

impl CutoffRequest {
    /// Takes the engine's answer.
    pub fn complete(self, error: &ErrorChannel) -> (result: Result<(), DFTD3Error>)
        ensures
            match error@ {
                Some(message) => fails_with(result, DFTD3ErrorView::EngineError { message }),
                None => result is Ok,
            },
    {
        if error.is_set() {
            Err(DFTD3Error::EngineError { message: error.message() })
        } else {
            Ok(())
        }
    }
}

impl DFTD3Model {
    /// Checks the lengths of the arrays of a new structure. The model is made
    /// from the structure, once the engine has built it.
    pub fn new_f<T>(
        numbers: &[usize],
        positions: &[T],
        lattice: Option<&[T]>,
        periodic: Option<&[bool]>,
    ) -> (result: Result<StructureRequest, DFTD3Error>)
        requires
            3 * numbers@.len() <= usize::MAX,
        ensures
            viewed(result) == creation(
                numbers@.len(),
                positions@.len(),
                length_of(lattice),
                length_of(periodic),
            ),
    {
        DFTD3Structure::new_f(numbers, positions, lattice, periodic)
    }

    /// Builds the model from arrays whose lengths fit and from the answers of
    /// an engine that accepted them: first for the structure, then for the
    /// model of it.
    pub fn new<T>(
        numbers: &[usize],
        positions: &[T],
        lattice: Option<&[T]>,
        periodic: Option<&[bool]>,
        structure_ptr: Handle,
        structure_error: &ErrorChannel,
        ptr: Handle,
        error: &ErrorChannel,
    ) -> (model: Self)
        requires
            shape_error(
                numbers@.len(),
                positions@.len(),
                length_of(lattice),
                length_of(periodic),
            ) is None,
            structure_error@ is None,
            error@ is None,
        ensures
            model@ == (ModelView {
                handle: ptr,
                structure: StructureView { handle: structure_ptr, natoms: numbers@.len() },
            }),
    {
        // the positions are held in memory, so their length fits a machine word
        let held: usize = positions.len();
        assert(3 * numbers@.len() == held);
        let structure = Self::new_f(numbers, positions, lattice, periodic).unwrap().complete(
            structure_ptr,
            structure_error,
        ).unwrap();
        Self::from_structure(structure, ptr, error)
    }

    /// The request for the model of `structure`. The structure moves into the
    /// request, and from there into the model.
    pub fn from_structure_f(structure: DFTD3Structure) -> (request: ModelRequest)
        ensures
            request@ == structure@,
    {
        ModelRequest { structure }
    }

    /// The model of `structure` that `ptr` stands for, where the engine made
    /// it without complaint.
    pub fn from_structure(structure: DFTD3Structure, ptr: Handle, error: &ErrorChannel) -> (model:
        Self)
        requires
            error@ is None,
        ensures
            model@ == (ModelView { handle: ptr, structure: structure@ }),
    {
        Self::from_structure_f(structure).complete(ptr, error).unwrap()
    }

    /// The number of atoms.
    pub fn get_natoms(&self) -> (natoms: usize)
        ensures
            natoms == self@.structure.natoms,
    {
        self.structure.get_natoms()
    }

    /// The handle under which the engine knows this model.
    pub fn handle(&self) -> (ptr: Handle)
        ensures
            ptr == self@.handle,
    {
        self.ptr
    }

    /// The structure that this model is of.
    pub fn structure(&self) -> (structure: &DFTD3Structure)
        ensures
            structure@ == self@.structure,
    {
        &self.structure
    }

    /// The handles to give back to the engine when the model is done with,
    /// in the order in which to give them back: the model first, then the
    /// structure that it was derived from.
    pub fn release_order(&self) -> (handles: [Handle; 2])
        ensures
            handles[0] == self@.handle,
            handles[1] == self@.structure.handle,
    {
        [self.ptr, self.structure.handle()]
    }

    /// Prepares an evaluation of the energy under `param`: one number for
    /// the energy and, where `eval_grad` is set, three numbers per atom for
    /// the gradient and nine for the strain derivatives. Without `eval_grad`
    /// the derivatives are left out, not filled with zeros.
    pub fn get_dispersion_f<T: Copy>(
        &self,
        param: &DFTD3Param,
        eval_grad: bool,
        zero: T,
    ) -> (request: DispersionRequest<T>)
        ensures
            request.call == (DispersionCall {
                structure: self@.structure.handle,
                model: self@.handle,
                param: param@.handle,
            }),
            request.output@ == blank_output(zero, self@.structure.natoms, eval_grad),
    {
        let natoms: usize = self.structure.get_natoms();
        let grad = if eval_grad {
            Some(filled(zero, 3 * natoms))
        } else {
            None
        };
        let sigma = if eval_grad {
            Some(filled(zero, 9))
        } else {
            None
        };
        DispersionRequest {
            call: DispersionCall {
                structure: self.structure.handle(),
                model: self.ptr,
                param: param.handle(),
            },
            output: DFTD3Output { energy: zero, grad, sigma },
        }
    }

    /// The result of an evaluation, from buffers to which the engine wrote
    /// without complaint.
    pub fn get_dispersion<T>(
        &self,
        param: &DFTD3Param,
        eval_grad: bool,
        output: DFTD3Output<T>,
        error: &ErrorChannel,
    ) -> (result: DFTD3Output<T>)
        requires
            error@ is None,
            output@.grad is Some == eval_grad,
            output@.sigma is Some == eval_grad,
            eval_grad ==> output@.grad->0.len() == 3 * self@.structure.natoms,
            eval_grad ==> output@.sigma->0.len() == 9,
        ensures
            result == output,
    {
        let request = DispersionRequest {
            call: DispersionCall {
                structure: self.structure.handle(),
                model: self.ptr,
                param: param.handle(),
            },
            output,
        };
        request.complete(error).unwrap()
    }

    /// Prepares the split of the energy under `param` over pairs of atoms:
    /// two square matrices with a row for each atom.
    pub fn get_pairwise_dispersion_f<T: Copy>(&self, param: &DFTD3Param, zero: T) -> (request:
        PairwiseRequest<T>)
        requires
            self@.structure.natoms * self@.structure.natoms <= usize::MAX,
        ensures
            request.call == (DispersionCall {
                structure: self@.structure.handle,
                model: self@.handle,
                param: param@.handle,
            }),
            request.output@ == blank_pairwise(zero, self@.structure.natoms),
    {
        let natoms: usize = self.structure.get_natoms();
        let pair_energy2 = filled(zero, natoms * natoms);
        let pair_energy3 = filled(zero, natoms * natoms);
        PairwiseRequest {
            call: DispersionCall {
                structure: self.structure.handle(),
                model: self.ptr,
                param: param.handle(),
            },
            output: DFTD3PairwiseOutput { pair_energy2, pair_energy3 },
        }
    }

    /// The result of a pairwise evaluation, from matrices to which the engine
    /// wrote without complaint.
    pub fn get_pairwise_dispersion<T>(
        &self,
        param: &DFTD3Param,
        output: DFTD3PairwiseOutput<T>,
        error: &ErrorChannel,
    ) -> (result: DFTD3PairwiseOutput<T>)
        requires
            error@ is None,
            output@.pair_energy2.len() == self@.structure.natoms * self@.structure.natoms,
            output@.pair_energy3.len() == self@.structure.natoms * self@.structure.natoms,
        ensures
            result == output,
    {
        let request = PairwiseRequest {
            call: DispersionCall {
                structure: self.structure.handle(),
                model: self.ptr,
                param: param.handle(),
            },
            output,
        };
        request.complete(error).unwrap()
    }

    /// The request for new cutoff radii. They hold for the evaluations that
    /// come after.
    pub fn set_realspace_cutoff_f(&self, disp2: Scalar, disp3: Scalar, cn: Scalar) -> (request:
        CutoffRequest)
        ensures
            request == (CutoffRequest { model: self@.handle, disp2, disp3, cn }),
    {
        CutoffRequest { model: self.ptr, disp2, disp3, cn }
    }

    /// Notes that the engine took new cutoff radii without complaint.
    pub fn set_realspace_cutoff(&self, r0: Scalar, r1: Scalar, r2: Scalar, error: &ErrorChannel)
        requires
            error@ is None,
    {
        self.set_realspace_cutoff_f(r0, r1, r2).complete(error).unwrap()
    }

    /// Checks the lengths of new coordinates against the atoms of the
    /// structure. The model itself stays as it is.
    pub fn update_f<T>(&mut self, positions: &[T], lattice: Option<&[T]>) -> (result: Result<
        UpdateRequest,
        DFTD3Error,
    >)
        ensures
            *final(self) == *old(self),
            viewed(result) == old(self)@.structure.update(positions@.len(), length_of(lattice)),
    {
        self.structure.update_f(positions, lattice)
    }

    /// Takes note that the engine moved the atoms to coordinates of fitting
    /// lengths. The coordinates are the engine's: nothing changes here.
    pub fn update<T>(&mut self, positions: &[T], lattice: Option<&[T]>, error: &ErrorChannel)
        requires
            shape_error(
                old(self)@.structure.natoms,
                positions@.len(),
                length_of(lattice),
                None,
            ) is None,
            error@ is None,
        ensures
            *final(self) == *old(self),
    {
        self.structure.update(positions, lattice, error)
    }
}

} // verus!
