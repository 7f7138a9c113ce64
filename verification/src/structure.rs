//! Molecular structures: a fixed set of atoms whose coordinates may move.

use vstd::prelude::*;
use crate::engine::{ErrorChannel, Handle};
use crate::error::{DFTD3Error, DFTD3ErrorView, Dimension, viewed};

verus! {

/// The first length that does not fit a structure of `natoms` atoms, as the
/// error that reports it. Positions are looked at first, then the lattice,
/// then the periodicity flags; an array that is absent fits.
pub open spec fn shape_error(
    natoms: nat,
    positions: nat,
    lattice: Option<nat>,
    periodic: Option<nat>,
) -> Option<DFTD3ErrorView> {
    if positions != 3 * natoms {
        Some(
            DFTD3ErrorView::DimensionMismatch {
                field: Dimension::Positions,
                expected: 3 * natoms,
                got: positions,
            },
        )
    } else if lattice is Some && lattice->0 != 9 {
        Some(
            DFTD3ErrorView::DimensionMismatch {
                field: Dimension::Lattice,
                expected: 9,
                got: lattice->0,
            },
        )
    } else if periodic is Some && periodic->0 != 3 {
        Some(
            DFTD3ErrorView::DimensionMismatch {
                field: Dimension::Periodic,
                expected: 3,
                got: periodic->0,
            },
        )
    } else {
        None
    }
}

/// The length of an optional array.
pub open spec fn length_of<T>(array: Option<&[T]>) -> Option<nat> {
    match array {
        Some(values) => Some(values@.len()),
        None => None,
    }
}

/// The mathematical content of a [`StructureRequest`].
pub struct StructureRequestView {
    pub natoms: nat,
    pub lattice: bool,
    pub periodic: bool,
}

/// The mathematical content of a [`DFTD3Structure`].
pub struct StructureView {
    pub handle: Handle,
    pub natoms: nat,
}

/// The mathematical content of an [`UpdateRequest`].
pub struct UpdateRequestView {
    pub structure: Handle,
    pub lattice: bool,
}

/// What comes of arrays with these lengths that are to make a structure of
/// `natoms` atoms: the request to build it, or the first length that is off.
pub open spec fn creation(
    natoms: nat,
    positions: nat,
    lattice: Option<nat>,
    periodic: Option<nat>,
) -> Result<StructureRequestView, DFTD3ErrorView> {
    match shape_error(natoms, positions, lattice, periodic) {
        Some(error) => Err(error),
        None => Ok(
            StructureRequestView { natoms, lattice: lattice is Some, periodic: periodic is Some },
        ),
    }
}

impl StructureRequestView {
    /// What the engine's answer makes of the request: a set channel means
    /// that it refused the coordinates, otherwise `ptr` is the structure.
    pub open spec fn outcome(self, ptr: Handle, error: Option<Seq<char>>) -> Result<
        StructureView,
        DFTD3ErrorView,
    > {
        match error {
            Some(message) => Err(DFTD3ErrorView::DegenerateGeometry { message }),
            None => Ok(StructureView { handle: ptr, natoms: self.natoms }),
        }
    }
}

impl StructureView {
    /// What comes of new arrays with these lengths for this structure: the
    /// request to take them, or the first length that is off.
    pub open spec fn update(self, positions: nat, lattice: Option<nat>) -> Result<
        UpdateRequestView,
        DFTD3ErrorView,
    > {
        match shape_error(self.natoms, positions, lattice, None) {
            Some(error) => Err(error),
            None => Ok(UpdateRequestView { structure: self.handle, lattice: lattice is Some }),
        }
    }
}

impl UpdateRequestView {
    /// What the engine's answer makes of the request: a set channel means
    /// that it refused the new coordinates.
    pub open spec fn outcome(self, error: Option<Seq<char>>) -> Result<(), DFTD3ErrorView> {
        match error {
            Some(message) => Err(DFTD3ErrorView::DegenerateGeometry { message }),
            None => Ok(()),
        }
    }
}

/// Arrays of fitting lengths are accepted, whether or not lattice and
/// periodicity flags come with them. Once the engine has taken them without
/// complaint, the structure has one atom for each atomic number.
pub proof fn law_creation_succeeds(
    natoms: nat,
    positions: nat,
    lattice: Option<nat>,
    periodic: Option<nat>,
    ptr: Handle,
)
    requires
        positions == 3 * natoms,
        lattice is Some ==> lattice->0 == 9,
        periodic is Some ==> periodic->0 == 3,
    ensures
        creation(natoms, positions, lattice, periodic) is Ok,
        creation(natoms, positions, lattice, periodic)->Ok_0.outcome(ptr, None) == Ok::<
            StructureView,
            DFTD3ErrorView,
        >(StructureView { handle: ptr, natoms }),
{
}

/// Positions that are not three per atom are refused for their length,
/// whatever else is given. No request comes out, so there is nothing to ask
/// the engine and no handle to receive.
pub proof fn law_creation_rejects_positions(
    natoms: nat,
    positions: nat,
    lattice: Option<nat>,
    periodic: Option<nat>,
)
    requires
        positions != 3 * natoms,
    ensures
        creation(natoms, positions, lattice, periodic) == Err::<
            StructureRequestView,
            DFTD3ErrorView,
        >(
            DFTD3ErrorView::DimensionMismatch {
                field: Dimension::Positions,
                expected: 3 * natoms,
                got: positions,
            },
        ),
{
}

/// Whenever the engine refuses the coordinates of a new structure, the
/// failure is a degenerate geometry with the engine's message, and no
/// structure comes out.
pub proof fn law_refused_coordinates(request: StructureRequestView, ptr: Handle, message: Seq<char>)
    ensures
        request.outcome(ptr, Some(message)) == Err::<StructureView, DFTD3ErrorView>(
            DFTD3ErrorView::DegenerateGeometry { message },
        ),
{
}

/// New positions or lattice vectors of the wrong length are refused for
/// their length: no request to move the atoms comes out.
pub proof fn law_update_rejects_lengths(
    structure: StructureView,
    positions: nat,
    lattice: Option<nat>,
)
    requires
        positions != 3 * structure.natoms || (lattice is Some && lattice->0 != 9),
    ensures
        structure.update(positions, lattice) matches Err(error)
            && error is DimensionMismatch,
{
}

/// A structure that the engine holds: its handle, and the number of atoms,
/// which never changes.
#[derive(Debug)]
pub struct DFTD3Structure {
    ptr: Handle,
    natoms: usize,
}

impl View for DFTD3Structure {
    type V = StructureView;

    closed spec fn view(&self) -> StructureView {
        StructureView { handle: self.ptr, natoms: self.natoms as nat }
    }
}

/// Arrays whose lengths fit, waiting for the engine to build the structure.
#[derive(Debug)]
pub struct StructureRequest {
    natoms: usize,
    lattice: bool,
    periodic: bool,
}

impl View for StructureRequest {
    type V = StructureRequestView;

    closed spec fn view(&self) -> StructureRequestView {
        StructureRequestView {
            natoms: self.natoms as nat,
            lattice: self.lattice,
            periodic: self.periodic,
        }
    }
}

impl StructureRequest {
    #[verifier::type_invariant]
    spec fn fits(&self) -> bool {
        3 * self.natoms <= usize::MAX
    }

    /// The number of atoms to hand to the engine.
    pub fn natoms(&self) -> (n: usize)
        ensures
            n == self@.natoms,
    {
        self.natoms
    }

    /// Whether lattice vectors go to the engine.
    pub fn has_lattice(&self) -> (present: bool)
        ensures
            present == self@.lattice,
    {
        self.lattice
    }

    /// Whether periodicity flags go to the engine.
    pub fn has_periodic(&self) -> (present: bool)
        ensures
            present == self@.periodic,
    {
        self.periodic
    }

    /// Takes the engine's answer. A set channel means that the engine refused
    /// the coordinates; otherwise `ptr` is the handle of the new structure.
    pub fn complete(self, ptr: Handle, error: &ErrorChannel) -> (result: Result<
        DFTD3Structure,
        DFTD3Error,
    >)
        ensures
            viewed(result) == self@.outcome(ptr, error@),
    {
        proof {
            use_type_invariant(&self);
        }
        if error.is_set() {
            Err(DFTD3Error::DegenerateGeometry { message: error.message() })
        } else {
            Ok(DFTD3Structure { ptr, natoms: self.natoms })
        }
    }
}

impl DFTD3Structure {
    #[verifier::type_invariant]
    spec fn fits(&self) -> bool {
        3 * self.natoms <= usize::MAX
    }

    /// Checks the lengths of the arrays of a new structure: three positions
    /// for each atomic number, nine lattice entries and three periodicity
    /// flags where these are given.
    pub fn new_f<T>(
        numbers: &[usize],
        positions: &[T],
        lattice: Option<&[T]>,
        periodic: Option<&[bool]>,
    ) -> (result: Result<StructureRequest, DFTD3Error>)
        requires
            3 * numbers@.len() <= usize::MAX,
        ensures
            viewed(result) == creation(
                numbers@.len(),
                positions@.len(),
                length_of(lattice),
                length_of(periodic),
            ),
    {
        let natoms: usize = numbers.len();
        if positions.len() != 3 * natoms {
            return Err(
                DFTD3Error::DimensionMismatch {
                    field: Dimension::Positions,
                    expected: 3 * natoms,
                    got: positions.len(),
                },
            );
        }
        if let Some(lattice) = lattice {
            if lattice.len() != 9 {
                return Err(
                    DFTD3Error::DimensionMismatch {
                        field: Dimension::Lattice,
                        expected: 9,
                        got: lattice.len(),
                    },
                );
            }
        }
        if let Some(periodic) = periodic {
            if periodic.len() != 3 {
                return Err(
                    DFTD3Error::DimensionMismatch {
                        field: Dimension::Periodic,
                        expected: 3,
                        got: periodic.len(),
                    },
                );
            }
        }
        Ok(StructureRequest { natoms, lattice: lattice.is_some(), periodic: periodic.is_some() })
    }

    /// Builds the structure from arrays whose lengths fit and from the answer
    /// of an engine that accepted them.
    pub fn new<T>(
        numbers: &[usize],
        positions: &[T],
        lattice: Option<&[T]>,
        periodic: Option<&[bool]>,
        ptr: Handle,
        error: &ErrorChannel,
    ) -> (structure: Self)
        requires
            shape_error(
                numbers@.len(),
                positions@.len(),
                length_of(lattice),
                length_of(periodic),
            ) is None,
            error@ is None,
        ensures
            structure@ == (StructureView { handle: ptr, natoms: numbers@.len() }),
    {
        // the positions are held in memory, so their length fits a machine word
        let held: usize = positions.len();
        assert(3 * numbers@.len() == held);
        Self::new_f(numbers, positions, lattice, periodic).unwrap().complete(ptr, error).unwrap()
    }

    /// Checks the lengths of new coordinates, and of new lattice vectors if
    /// there are any, against the atoms of this structure. The structure
    /// itself stays as it is, whatever the lengths are.
    pub fn update_f<T>(&mut self, positions: &[T], lattice: Option<&[T]>) -> (result: Result<
        UpdateRequest,
        DFTD3Error,
    >)
        ensures
            *final(self) == *old(self),
            viewed(result) == old(self)@.update(positions@.len(), length_of(lattice)),
    {
        proof {
            use_type_invariant(&*self);
        }
        if positions.len() != 3 * self.natoms {
            return Err(
                DFTD3Error::DimensionMismatch {
                    field: Dimension::Positions,
                    expected: 3 * self.natoms,
                    got: positions.len(),
                },
            );
        }
        if let Some(lattice) = lattice {
            if lattice.len() != 9 {
                return Err(
                    DFTD3Error::DimensionMismatch {
                        field: Dimension::Lattice,
                        expected: 9,
                        got: lattice.len(),
                    },
                );
            }
        }
        Ok(UpdateRequest { structure: self.ptr, lattice: lattice.is_some() })
    }

    /// Takes note that the engine moved the atoms to coordinates of fitting
    /// lengths. The coordinates are the engine's: nothing changes here.
    pub fn update<T>(&mut self, positions: &[T], lattice: Option<&[T]>, error: &ErrorChannel)
        requires
            shape_error(old(self)@.natoms, positions@.len(), length_of(lattice), None) is None,
            error@ is None,
        ensures
            *final(self) == *old(self),
    {
        self.update_f(positions, lattice).unwrap().complete(error).unwrap()
    }

    /// The number of atoms. Three times that number fits a machine word: the
    /// coordinates that the structure was made from had that length.
    pub fn get_natoms(&self) -> (natoms: usize)
        ensures
            natoms == self@.natoms,
            3 * natoms <= usize::MAX,
    {
        proof {
            use_type_invariant(self);
        }
        self.natoms
    }

    /// The handle under which the engine knows this structure.
    pub fn handle(&self) -> (ptr: Handle)
        ensures
            ptr == self@.handle,
    {
        self.ptr
    }
}

/// New coordinates whose lengths fit, waiting for the engine to take them.
#[derive(Debug)]
pub struct UpdateRequest {
    structure: Handle,
    lattice: bool,
}

impl View for UpdateRequest {
    type V = UpdateRequestView;

    closed spec fn view(&self) -> UpdateRequestView {
        UpdateRequestView { structure: self.structure, lattice: self.lattice }
    }
}

impl UpdateRequest {
    /// The structure whose atoms move.
    pub fn structure(&self) -> (ptr: Handle)
        ensures
            ptr == self@.structure,
    {
        self.structure
    }

    /// Whether lattice vectors go to the engine.
    pub fn has_lattice(&self) -> (present: bool)
        ensures
            present == self@.lattice,
    {
        self.lattice
    }

    /// Takes the engine's answer. A set channel means that the engine refused
    /// the new coordinates.
    pub fn complete(self, error: &ErrorChannel) -> (result: Result<(), DFTD3Error>)
        ensures
            viewed(result) == self@.outcome(error@),
    {
        if error.is_set() {
            Err(DFTD3Error::DegenerateGeometry { message: error.message() })
        } else {
            Ok(())
        }
    }
}

} // verus!
