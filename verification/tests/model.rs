use dftd3::prelude::{
    CutoffRequest, DFTD3Error, DFTD3Model, DFTD3Output, DFTD3PairwiseOutput, DFTD3Param,
    DFTD3ParamAPI, DFTD3RationalDampingParamBuilder, DFTD3Structure, Dimension, DispersionCall,
    ErrorChannel, Handle, Scalar,
};

fn scalar(x: f64) -> Scalar {
    Scalar { bits: x.to_bits() }
}

fn refused(message: &str) -> ErrorChannel {
    let mut channel = ErrorChannel::new();
    channel.set(message.to_string());
    channel
}

fn hydrogen() -> DFTD3Model {
    let numbers = vec![1, 1];
    let positions = vec![0.0, 0.0, 0.0, 0.0, 0.0, 1.0];
    DFTD3Model::new(
        &numbers,
        &positions,
        None,
        None,
        Handle { address: 0x100 },
        &ErrorChannel::new(),
        Handle { address: 0x200 },
        &ErrorChannel::new(),
    )
}

fn ring() -> DFTD3Model {
    let numbers = vec![16, 16, 16, 16, 16, 16, 16, 16];
    let positions = vec![
        -4.15128787379191,  1.71951973863958, -0.93066267097296,
        -4.15128787379191, -1.71951973863958,  0.93066267097296,
        -1.71951973863958, -4.15128787379191, -0.93066267097296,
         1.71951973863958, -4.15128787379191,  0.93066267097296,
         4.15128787379191, -1.71951973863958, -0.93066267097296,
         4.15128787379191,  1.71951973863958,  0.93066267097296,
         1.71951973863958,  4.15128787379191, -0.93066267097296,
        -1.71951973863958,  4.15128787379191,  0.93066267097296,
    ];
    let structure = DFTD3Structure::new_f(&numbers, &positions, None, None)
        .unwrap()
        .complete(Handle { address: 0x100 }, &ErrorChannel::new())
        .unwrap();
    DFTD3Model::from_structure_f(structure)
        .complete(Handle { address: 0x200 }, &ErrorChannel::new())
        .unwrap()
}

#[test]
fn test_get_dispersion() {
    let numbers = vec![1, 1];
    let positions = vec![0.0, 0.0, 0.0, 0.0, 0.0, 1.0];
    let structure = DFTD3Model::new_f(&numbers, &positions, None, None)
        .unwrap()
        .complete(Handle { address: 0x100 }, &ErrorChannel::new())
        .unwrap();
    let model = DFTD3Model::from_structure_f(structure)
        .complete(Handle { address: 0x200 }, &ErrorChannel::new())
        .unwrap();
    let param = DFTD3Param::load_mrational_damping_f("B3LYP", false)
        .complete(Handle { address: 0x300 }, &ErrorChannel::new())
        .unwrap();

    let mut request = model.get_dispersion_f(&param, true, 0.0f64);
    assert_eq!(
        request.call,
        DispersionCall {
            structure: Handle { address: 0x100 },
            model: Handle { address: 0x200 },
            param: Handle { address: 0x300 },
        }
    );
    assert_eq!(request.output.energy, 0.0);
    assert_eq!(request.output.grad, Some(vec![0.0; 6]));
    assert_eq!(request.output.sigma, Some(vec![0.0; 9]));

    // what an engine would write
    request.output.energy = -1.5e-4;
    request.output.grad.as_mut().unwrap()[5] = 2.5e-5;
    request.output.grad.as_mut().unwrap()[2] = -2.5e-5;
    request.output.sigma.as_mut().unwrap()[8] = 2.5e-5;
    let error = ErrorChannel::new();

    let (energy, grad, sigma) = request.complete(&error).unwrap().into();
    println!("Dispersion energy: {}", energy);
    println!("Dispersion gradient: {:?}", grad);
    println!("Dispersion sigma: {:?}", sigma);
    assert!(!error.is_set());
    assert!(energy.is_finite());
    assert_eq!(energy, -1.5e-4);
    assert_eq!(grad, Some(vec![0.0, 0.0, -2.5e-5, 0.0, 0.0, 2.5e-5]));
    assert_eq!(sigma.unwrap().len(), 9);
}

#[test]
fn without_gradient_the_derivatives_are_left_out() {
    let model = hydrogen();
    let param = DFTD3Param::load_rational_damping(
        "pbe0",
        true,
        Handle { address: 0x300 },
        &ErrorChannel::new(),
    );
    let mut request = model.get_dispersion_f(&param, false, 0.0);
    assert_eq!(request.output, DFTD3Output { energy: 0.0, grad: None, sigma: None });
    request.output.energy = -0.029489232932494884;
    let result = request.complete(&ErrorChannel::new()).unwrap();
    assert_eq!(result.energy, -0.029489232932494884);
    assert_eq!(result.grad, None);
    assert_eq!(result.sigma, None);
}

#[test]
fn a_failed_evaluation_gives_no_numbers() {
    let model = hydrogen();
    let param = DFTD3Param::load_rational_damping(
        "pbe0",
        true,
        Handle { address: 0x300 },
        &ErrorChannel::new(),
    );
    let mut request = model.get_dispersion_f(&param, true, 0.0);
    request.output.energy = 1.0;
    assert_eq!(
        request.complete(&refused("Damping parameters are not set")),
        Err(DFTD3Error::EngineError { message: "Damping parameters are not set".to_string() })
    );
    let request = model.get_pairwise_dispersion_f(&param, 0.0);
    assert_eq!(
        request.complete(&refused("Damping parameters are not set")),
        Err(DFTD3Error::EngineError { message: "Damping parameters are not set".to_string() })
    );
}

#[test]
fn pairwise_matrices_have_a_row_for_each_atom() {
    let model = ring();
    assert_eq!(model.get_natoms(), 8);
    let param = DFTD3RationalDampingParamBuilder::default()
        .a1(scalar(0.5545))
        .s8(scalar(2.2609))
        .a2(scalar(3.2297))
        .build()
        .unwrap()
        .new_param(Handle { address: 0x300 }, &ErrorChannel::new());

    let mut request = model.get_pairwise_dispersion_f(&param, 0.0f64);
    assert_eq!(
        request.call,
        DispersionCall {
            structure: Handle { address: 0x100 },
            model: Handle { address: 0x200 },
            param: Handle { address: 0x300 },
        }
    );
    assert_eq!(request.output.pair_energy2, vec![0.0; 64]);
    assert_eq!(request.output.pair_energy3, vec![0.0; 64]);

    // what an engine would write for the first pair
    request.output.pair_energy2[1] = -0.00153111;
    request.output.pair_energy2[8] = -0.00153111;
    request.output.pair_energy3[1] = 1.08616452e-07;
    request.output.pair_energy3[8] = 1.08616452e-07;
    let (pair2, pair3) = request.complete(&ErrorChannel::new()).unwrap().into();
    assert_eq!(pair2.len(), 8 * 8);
    assert_eq!(pair3.len(), 8 * 8);
    for i in 0..8 {
        assert_eq!(pair2[i * 8 + i], 0.0);
        assert_eq!(pair3[i * 8 + i], 0.0);
        for j in 0..8 {
            assert!((pair2[i * 8 + j] - pair2[j * 8 + i]).abs() < 1e-8);
        }
    }
    assert_eq!(pair2[1], -0.00153111);
}

#[test]
fn a_model_of_no_atoms() {
    let none: Vec<usize> = vec![];
    let nowhere: Vec<f64> = vec![];
    let model = DFTD3Model::new(
        &none,
        &nowhere,
        None,
        None,
        Handle { address: 0x100 },
        &ErrorChannel::new(),
        Handle { address: 0x200 },
        &ErrorChannel::new(),
    );
    let param = DFTD3Param::load_zero_damping(
        "b3lyp",
        false,
        Handle { address: 0x300 },
        &ErrorChannel::new(),
    );
    assert_eq!(model.get_natoms(), 0);
    let request = model.get_dispersion_f(&param, true, 0.0);
    assert_eq!(request.output.grad, Some(vec![]));
    assert_eq!(request.output.sigma, Some(vec![0.0; 9]));
    let request = model.get_pairwise_dispersion_f(&param, 0.0);
    assert_eq!(
        request.output,
        DFTD3PairwiseOutput { pair_energy2: vec![], pair_energy3: vec![] }
    );
}

#[test]
fn buffers_hold_the_value_that_was_given() {
    let model = hydrogen();
    let param = DFTD3Param::load_zero_damping(
        "b3lyp",
        false,
        Handle { address: 0x300 },
        &ErrorChannel::new(),
    );
    let request = model.get_dispersion_f(&param, true, 7u8);
    assert_eq!(request.output.energy, 7);
    assert_eq!(request.output.grad, Some(vec![7u8; 6]));
    assert_eq!(request.output.sigma, Some(vec![7u8; 9]));
    let request = model.get_pairwise_dispersion_f(&param, 7u8);
    assert_eq!(request.output.pair_energy2, vec![7u8; 4]);
    assert_eq!(request.output.pair_energy3, vec![7u8; 4]);
}

#[test]
fn a_model_owns_its_structure() {
    let model = hydrogen();
    assert_eq!(model.get_natoms(), 2);
    assert_eq!(model.handle(), Handle { address: 0x200 });
    assert_eq!(model.structure().handle(), Handle { address: 0x100 });
    assert_eq!(model.structure().get_natoms(), 2);
}

#[test]
fn the_model_is_released_before_its_structure() {
    let model = hydrogen();
    assert_eq!(model.release_order(), [Handle { address: 0x200 }, Handle { address: 0x100 }]);
}

#[test]
fn a_model_that_the_engine_cannot_make() {
    let structure = DFTD3Structure::new(
        &[1usize, 1],
        &[0.0, 0.0, 0.0, 0.0, 0.0, 1.0],
        None,
        None,
        Handle { address: 0x100 },
        &ErrorChannel::new(),
    );
    let request = DFTD3Model::from_structure_f(structure);
    assert_eq!(request.structure().handle(), Handle { address: 0x100 });
    let error = request.complete(Handle { address: 0 }, &refused("No model")).unwrap_err();
    assert_eq!(error, DFTD3Error::EngineError { message: "No model".to_string() });
}

#[test]
fn from_structure_with_a_clean_answer() {
    let structure = DFTD3Structure::new(
        &[1usize, 1],
        &[0.0, 0.0, 0.0, 0.0, 0.0, 1.0],
        None,
        None,
        Handle { address: 0x100 },
        &ErrorChannel::new(),
    );
    let model =
        DFTD3Model::from_structure(structure, Handle { address: 0x200 }, &ErrorChannel::new());
    assert_eq!(model.get_natoms(), 2);
    assert_eq!(model.handle(), Handle { address: 0x200 });
    assert_eq!(model.structure().handle(), Handle { address: 0x100 });
}

#[test]
fn cutoffs_go_to_the_engine_as_given() {
    let model = hydrogen();
    let request = model.set_realspace_cutoff_f(scalar(60.0), scalar(40.0), scalar(40.0));
    assert_eq!(
        request,
        CutoffRequest {
            model: Handle { address: 0x200 },
            disp2: scalar(60.0),
            disp3: scalar(40.0),
            cn: scalar(40.0),
        }
    );
    assert_eq!(request.complete(&ErrorChannel::new()), Ok(()));
    assert_eq!(
        request.complete(&refused("Cutoff must be positive")),
        Err(DFTD3Error::EngineError { message: "Cutoff must be positive".to_string() })
    );
    model.set_realspace_cutoff(scalar(60.0), scalar(40.0), scalar(40.0), &ErrorChannel::new());
}

#[test]
fn a_model_updates_its_structure() {
    let mut model = hydrogen();
    let moved = vec![0.0, 0.0, 0.0, 0.0, 0.0, 1.4];
    let request = model.update_f(&moved, None).unwrap();
    assert_eq!(request.structure(), Handle { address: 0x100 });
    assert_eq!(request.complete(&ErrorChannel::new()), Ok(()));

    let bad = vec![0.0; 7];
    assert_eq!(
        model.update_f(&bad, None).unwrap_err(),
        DFTD3Error::DimensionMismatch { field: Dimension::Positions, expected: 6, got: 7 }
    );
    assert_eq!(
        model.update_f(&moved, Some(&bad)).unwrap_err(),
        DFTD3Error::DimensionMismatch { field: Dimension::Lattice, expected: 9, got: 7 }
    );
    assert_eq!(model.get_natoms(), 2);
    assert_eq!(model.handle(), Handle { address: 0x200 });
    assert_eq!(model.structure().handle(), Handle { address: 0x100 });

    let zero = vec![0.0; 6];
    assert_eq!(
        model.update_f(&zero, None).unwrap().complete(&refused("Too close")),
        Err(DFTD3Error::DegenerateGeometry { message: "Too close".to_string() })
    );
    model.update(&moved, None, &ErrorChannel::new());
    assert_eq!(model.get_natoms(), 2);
}

#[test]
fn results_from_buffers_that_the_engine_filled() {
    let model = hydrogen();
    let param = DFTD3Param::load_zero_damping(
        "b3lyp",
        false,
        Handle { address: 0x300 },
        &ErrorChannel::new(),
    );
    let filled =
        DFTD3Output { energy: -1.0, grad: Some(vec![0.5; 6]), sigma: Some(vec![0.25; 9]) };
    let result = model.get_dispersion(&param, true, filled.clone(), &ErrorChannel::new());
    assert_eq!(result, filled);
    let filled = DFTD3PairwiseOutput { pair_energy2: vec![0.5; 4], pair_energy3: vec![0.25; 4] };
    let result = model.get_pairwise_dispersion(&param, filled.clone(), &ErrorChannel::new());
    assert_eq!(result, filled);
}

#[test]
fn outputs_come_apart_in_order() {
    let output = DFTD3Output { energy: 1.0, grad: Some(vec![2.0]), sigma: None };
    let (energy, grad, sigma): (f64, Option<Vec<f64>>, Option<Vec<f64>>) = output.into();
    assert_eq!(energy, 1.0);
    assert_eq!(grad, Some(vec![2.0]));
    assert_eq!(sigma, None);
    let output = DFTD3PairwiseOutput { pair_energy2: vec![1.0], pair_energy3: vec![2.0] };
    let (pair2, pair3): (Vec<f64>, Vec<f64>) = output.into();
    assert_eq!(pair2, vec![1.0]);
    assert_eq!(pair3, vec![2.0]);
}
