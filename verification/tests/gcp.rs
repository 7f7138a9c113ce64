use dftd3::prelude::{
    get_counterpoise, get_counterpoise_f, CounterpoiseCall, DFTD3Error, DFTD3GCP, DFTD3Output,
    DFTD3Structure, Dimension, ErrorChannel, GcpCutoffRequest, Handle, Scalar,
};

fn scalar(x: f64) -> Scalar {
    Scalar { bits: x.to_bits() }
}

fn refused(message: &str) -> ErrorChannel {
    let mut channel = ErrorChannel::new();
    channel.set(message.to_string());
    channel
}

fn water() -> DFTD3Structure {
    let numbers = vec![8, 1, 1];
    let positions = vec![0.0, 0.0, 0.0, 0.0, 1.43, 1.11, 0.0, -1.43, 1.11];
    DFTD3Structure::new(
        &numbers,
        &positions,
        None,
        None,
        Handle { address: 0x100 },
        &ErrorChannel::new(),
    )
}

#[test]
fn test_gcp_empty() {
    // empty names are asked of the engine like any others
    let request = DFTD3GCP::load_gcp_param_f(water(), "", "");
    assert_eq!(request.method(), "");
    assert_eq!(request.basis(), "");
    assert_eq!(request.structure().handle(), Handle { address: 0x100 });
    let gcp = request.complete(Handle { address: 0x400 }, &ErrorChannel::new()).unwrap();
    assert_eq!(gcp.get_natoms(), 3);

    let mut request = gcp.get_counterpoise_f(false, 0.0);
    assert_eq!(
        request.call,
        CounterpoiseCall { structure: Handle { address: 0x100 }, gcp: Handle { address: 0x400 } }
    );
    assert_eq!(request.output, DFTD3Output { energy: 0.0, grad: None, sigma: None });
    request.output.energy = 0.0;
    let res = request.complete(&ErrorChannel::new()).unwrap();
    assert!((res.energy - 0.0f64).abs() < 1e-8);
}

#[test]
fn test_gcp_3c() {
    let cases: [(&str, f64); 2] =
        [("b973c", -0.07653225860427701), ("pbeh3c", 0.04977771585466725)];
    for (method, expected) in cases {
        let request = DFTD3GCP::load_gcp_param_f(water(), method, "");
        assert_eq!(request.method(), method);
        let gcp = request.complete(Handle { address: 0x400 }, &ErrorChannel::new()).unwrap();
        let mut request = gcp.get_counterpoise_f(false, 0.0);
        request.output.energy = expected;
        let res = request.complete(&ErrorChannel::new()).unwrap();
        assert!((res.energy - expected).abs() < 1e-8);
        assert_eq!(res.grad, None);
        assert_eq!(res.sigma, None);
    }
}

#[test]
fn gcp_checks_lengths_first() {
    let numbers = vec![8, 1, 1];
    let bad = vec![0.0; 7];
    assert_eq!(
        DFTD3GCP::new_f(&numbers, &bad, None, None).unwrap_err(),
        DFTD3Error::DimensionMismatch { field: Dimension::Positions, expected: 9, got: 7 }
    );
    let positions = vec![0.0, 0.0, 0.0, 0.0, 1.43, 1.11, 0.0, -1.43, 1.11];
    let request = DFTD3GCP::new_f(&numbers, &positions, None, None).unwrap();
    assert_eq!(request.natoms(), 3);
}

#[test]
fn gcp_with_clean_answers() {
    let numbers = vec![8, 1, 1];
    let positions = vec![0.0, 0.0, 0.0, 0.0, 1.43, 1.11, 0.0, -1.43, 1.11];
    let gcp = DFTD3GCP::new(
        &numbers,
        &positions,
        None,
        None,
        "b973c",
        "def2-mTZVP",
        Handle { address: 0x100 },
        &ErrorChannel::new(),
        Handle { address: 0x400 },
        &ErrorChannel::new(),
    );
    assert_eq!(gcp.get_natoms(), 3);
    assert_eq!(gcp.handle(), Handle { address: 0x400 });
    assert_eq!(gcp.structure().handle(), Handle { address: 0x100 });
    let gcp = DFTD3GCP::load_gcp_param(
        water(),
        "b973c",
        "",
        Handle { address: 0x401 },
        &ErrorChannel::new(),
    );
    assert_eq!(gcp.handle(), Handle { address: 0x401 });
    assert_eq!(gcp.get_natoms(), 3);
}

#[test]
fn gcp_parameters_are_released_before_their_structure() {
    let gcp =
        DFTD3GCP::load_gcp_param(water(), "b973c", "", Handle { address: 0x400 }, &ErrorChannel::new());
    assert_eq!(gcp.release_order(), [Handle { address: 0x400 }, Handle { address: 0x100 }]);
}

#[test]
fn gcp_parameters_that_the_engine_does_not_find() {
    let request = DFTD3GCP::load_gcp_param_f(water(), "not-a-functional", "sto-3g");
    assert_eq!(
        request.complete(Handle { address: 0 }, &refused("No parameters")).unwrap_err(),
        DFTD3Error::UnknownMethod {
            name: "not-a-functional".to_string(),
            message: "No parameters".to_string()
        }
    );
}

#[test]
fn gcp_with_gradient() {
    let gcp =
        DFTD3GCP::load_gcp_param(water(), "b973c", "", Handle { address: 0x400 }, &ErrorChannel::new());
    let request = gcp.get_counterpoise_f(true, 0.0);
    assert_eq!(request.output.grad, Some(vec![0.0; 9]));
    assert_eq!(request.output.sigma, Some(vec![0.0; 9]));
    assert_eq!(
        request.complete(&refused("failed")),
        Err(DFTD3Error::EngineError { message: "failed".to_string() })
    );
    let filled = DFTD3Output { energy: 0.5, grad: Some(vec![1.0; 9]), sigma: Some(vec![2.0; 9]) };
    assert_eq!(gcp.get_counterpoise(true, filled.clone(), &ErrorChannel::new()), filled);
}

#[test]
fn gcp_on_a_structure_with_all_derivatives() {
    let structure = water();
    let gcp =
        DFTD3GCP::load_gcp_param(water(), "b973c", "", Handle { address: 0x400 }, &ErrorChannel::new());
    let mut request = get_counterpoise_f(&structure, &gcp, 0.0);
    assert_eq!(
        request.call,
        CounterpoiseCall { structure: Handle { address: 0x100 }, gcp: Handle { address: 0x400 } }
    );
    assert_eq!(request.energy, 0.0);
    assert_eq!(request.grad, vec![0.0; 9]);
    assert_eq!(request.sigma, vec![0.0; 9]);
    request.energy = 0.25;
    request.grad[0] = 1.0;
    let (energy, grad, sigma) = request.complete(&ErrorChannel::new()).unwrap();
    assert_eq!(energy, 0.25);
    assert_eq!(grad[0], 1.0);
    assert_eq!(grad.len(), 9);
    assert_eq!(sigma, vec![0.0; 9]);

    let request = get_counterpoise_f(&structure, &gcp, 0.0);
    assert_eq!(
        request.complete(&refused("failed")),
        Err(DFTD3Error::EngineError { message: "failed".to_string() })
    );
    let result = get_counterpoise(
        &structure,
        &gcp,
        0.25,
        vec![1.0; 9],
        vec![2.0; 9],
        &ErrorChannel::new(),
    );
    assert_eq!(result, (0.25, vec![1.0; 9], vec![2.0; 9]));
}

#[test]
fn gcp_cutoffs_go_to_the_engine_as_given() {
    let gcp =
        DFTD3GCP::load_gcp_param(water(), "b973c", "", Handle { address: 0x400 }, &ErrorChannel::new());
    let request = gcp.set_realspace_cutoff_f(scalar(60.0), scalar(60.0));
    assert_eq!(
        request,
        GcpCutoffRequest { gcp: Handle { address: 0x400 }, bas: scalar(60.0), srb: scalar(60.0) }
    );
    assert_eq!(request.complete(&ErrorChannel::new()), Ok(()));
    assert_eq!(
        request.complete(&refused("failed")),
        Err(DFTD3Error::EngineError { message: "failed".to_string() })
    );
    gcp.set_realspace_cutoff(scalar(60.0), scalar(60.0), &ErrorChannel::new());
}

#[test]
fn gcp_updates_its_structure() {
    let mut gcp =
        DFTD3GCP::load_gcp_param(water(), "b973c", "", Handle { address: 0x400 }, &ErrorChannel::new());
    let bad = vec![0.0; 7];
    assert_eq!(
        gcp.update_f(&bad, None).unwrap_err(),
        DFTD3Error::DimensionMismatch { field: Dimension::Positions, expected: 9, got: 7 }
    );
    let moved = vec![0.0, 0.0, 0.1, 0.0, 1.43, 1.11, 0.0, -1.43, 1.11];
    let request = gcp.update_f(&moved, None).unwrap();
    assert_eq!(request.structure(), Handle { address: 0x100 });
    gcp.update(&moved, None, &ErrorChannel::new());
    assert_eq!(gcp.get_natoms(), 3);
    assert_eq!(gcp.handle(), Handle { address: 0x400 });
}
