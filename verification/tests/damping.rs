use dftd3::prelude::{
    DFTD3Error, DFTD3ModifiedRationalDampingParam, DFTD3ModifiedRationalDampingParamBuilder,
    DFTD3ModifiedZeroDampingParam, DFTD3ModifiedZeroDampingParamBuilder,
    DFTD3OptimizedPowerDampingParam, DFTD3OptimizedPowerDampingParamBuilder,
    DFTD3RationalDampingParam, DFTD3RationalDampingParamBuilder, DFTD3ZeroDampingParam,
    DFTD3ZeroDampingParamBuilder, DampingParamBuilder, DampingScheme, ErrorChannel, Handle,
    ParamField, ParamRequest, Scalar, FOURTEEN, ONE,
};

fn scalar(x: f64) -> Scalar {
    Scalar { bits: x.to_bits() }
}

fn missing(field: ParamField) -> DFTD3Error {
    DFTD3Error::IncompleteParametrization { missing_field: field }
}

#[test]
fn the_defaults_are_one_and_fourteen() {
    assert_eq!(f64::from_bits(ONE), 1.0);
    assert_eq!(f64::from_bits(FOURTEEN), 14.0);
}

#[test]
fn test_rational_damping_noargs() {
    assert!(DFTD3RationalDampingParamBuilder::default().build().is_err());

    let builder = DFTD3RationalDampingParamBuilder::default().a1(scalar(0.4)).a2(scalar(5.0));
    assert_eq!(builder.build(), Err(missing(ParamField::S8)));

    let builder = DFTD3RationalDampingParamBuilder::default().s8(scalar(1.0)).a2(scalar(5.0));
    assert_eq!(builder.build(), Err(missing(ParamField::A1)));

    let builder = DFTD3RationalDampingParamBuilder::default().s8(scalar(1.0)).a1(scalar(0.4));
    assert_eq!(builder.build(), Err(missing(ParamField::A2)));
}

#[test]
fn test_zero_damping_noargs() {
    assert!(DFTD3ZeroDampingParamBuilder::default().build().is_err());

    let builder = DFTD3ZeroDampingParamBuilder::default().rs6(scalar(1.2));
    assert_eq!(builder.build(), Err(missing(ParamField::S8)));

    let builder = DFTD3ZeroDampingParamBuilder::default().s8(scalar(1.0));
    assert_eq!(builder.build(), Err(missing(ParamField::Rs6)));
}

#[test]
fn test_modified_rational_damping_noargs() {
    assert!(DFTD3ModifiedRationalDampingParamBuilder::default().build().is_err());

    let builder = DFTD3ModifiedRationalDampingParamBuilder::default().a1(scalar(0.4)).a2(scalar(5.0));
    assert_eq!(builder.build(), Err(missing(ParamField::S8)));

    let builder = DFTD3ModifiedRationalDampingParamBuilder::default().s8(scalar(1.0)).a2(scalar(5.0));
    assert_eq!(builder.build(), Err(missing(ParamField::A1)));

    let builder = DFTD3ModifiedRationalDampingParamBuilder::default().s8(scalar(1.0)).a1(scalar(0.4));
    assert_eq!(builder.build(), Err(missing(ParamField::A2)));
}

#[test]
fn test_modified_zero_damping_noargs() {
    assert!(DFTD3ModifiedZeroDampingParamBuilder::default().build().is_err());

    let builder = DFTD3ModifiedZeroDampingParamBuilder::default().rs6(scalar(1.2)).bet(scalar(1.0));
    assert_eq!(builder.build(), Err(missing(ParamField::S8)));

    let builder = DFTD3ModifiedZeroDampingParamBuilder::default().s8(scalar(1.0)).bet(scalar(1.0));
    assert_eq!(builder.build(), Err(missing(ParamField::Rs6)));

    let builder = DFTD3ModifiedZeroDampingParamBuilder::default().s8(scalar(1.0)).rs6(scalar(1.2));
    assert_eq!(builder.build(), Err(missing(ParamField::Bet)));
}

#[test]
fn test_optimized_power_damping_noargs() {
    assert!(DFTD3OptimizedPowerDampingParamBuilder::default().build().is_err());

    let builder = DFTD3OptimizedPowerDampingParamBuilder::default()
        .a1(scalar(0.3))
        .a2(scalar(4.2))
        .bet(scalar(1.0));
    assert_eq!(builder.build(), Err(missing(ParamField::S8)));

    let builder = DFTD3OptimizedPowerDampingParamBuilder::default()
        .s8(scalar(1.0))
        .a2(scalar(4.2))
        .bet(scalar(1.0));
    assert_eq!(builder.build(), Err(missing(ParamField::A1)));

    let builder = DFTD3OptimizedPowerDampingParamBuilder::default()
        .s8(scalar(1.0))
        .a1(scalar(0.3))
        .bet(scalar(1.0));
    assert_eq!(builder.build(), Err(missing(ParamField::A2)));

    let builder = DFTD3OptimizedPowerDampingParamBuilder::default()
        .s8(scalar(1.0))
        .a1(scalar(0.3))
        .a2(scalar(4.2));
    assert_eq!(builder.build(), Err(missing(ParamField::Bet)));
}

#[test]
fn the_first_missing_coefficient_is_named() {
    assert_eq!(
        DFTD3RationalDampingParamBuilder::default().build(),
        Err(missing(ParamField::S8))
    );
    assert_eq!(DFTD3ZeroDampingParamBuilder::default().build(), Err(missing(ParamField::S8)));
    assert_eq!(
        DFTD3ModifiedZeroDampingParamBuilder::default().bet(scalar(0.0)).build(),
        Err(missing(ParamField::S8))
    );
    assert_eq!(
        DFTD3OptimizedPowerDampingParamBuilder::default().s8(scalar(1.0)).build(),
        Err(missing(ParamField::A1))
    );
    // coefficients with a default never count as missing
    assert_eq!(
        DFTD3RationalDampingParamBuilder::default()
            .s6(scalar(1.0))
            .s9(scalar(1.0))
            .alp(scalar(14.0))
            .build(),
        Err(missing(ParamField::S8))
    );
}

#[test]
fn rational_damping_with_defaults() {
    let built = DFTD3RationalDampingParamBuilder::default()
        .a1(scalar(0.5545))
        .s8(scalar(2.2609))
        .a2(scalar(3.2297))
        .build()
        .unwrap();
    assert_eq!(
        built,
        DFTD3RationalDampingParam {
            s6: scalar(1.0),
            s8: scalar(2.2609),
            s9: scalar(1.0),
            a1: scalar(0.5545),
            a2: scalar(3.2297),
            alp: scalar(14.0),
        }
    );
}

#[test]
fn zero_damping_with_defaults() {
    let built =
        DFTD3ZeroDampingParamBuilder::default().s8(scalar(1.683)).rs6(scalar(1.139)).build().unwrap();
    assert_eq!(
        built,
        DFTD3ZeroDampingParam {
            s6: scalar(1.0),
            s8: scalar(1.683),
            s9: scalar(1.0),
            rs6: scalar(1.139),
            rs8: scalar(1.0),
            alp: scalar(14.0),
        }
    );
}

#[test]
fn zero_damping_without_the_three_body_term() {
    let built = DFTD3ZeroDampingParamBuilder::default()
        .s8(scalar(1.683))
        .rs6(scalar(1.139))
        .s9(scalar(0.0))
        .build()
        .unwrap();
    assert_eq!(built.s9, scalar(0.0));
    assert_eq!(built.s6, scalar(1.0));
}

#[test]
fn modified_rational_damping_with_defaults() {
    let built = DFTD3ModifiedRationalDampingParamBuilder::default()
        .s8(scalar(0.3908))
        .a1(scalar(0.5660))
        .a2(scalar(3.1280))
        .build()
        .unwrap();
    assert_eq!(
        built,
        DFTD3ModifiedRationalDampingParam {
            s6: scalar(1.0),
            s8: scalar(0.3908),
            s9: scalar(1.0),
            a1: scalar(0.5660),
            a2: scalar(3.1280),
            alp: scalar(14.0),
        }
    );
}

#[test]
fn modified_zero_damping_with_defaults() {
    let built = DFTD3ModifiedZeroDampingParamBuilder::default()
        .s8(scalar(1.0))
        .rs6(scalar(1.2))
        .bet(scalar(0.5))
        .build()
        .unwrap();
    assert_eq!(
        built,
        DFTD3ModifiedZeroDampingParam {
            s6: scalar(1.0),
            s8: scalar(1.0),
            s9: scalar(1.0),
            rs6: scalar(1.2),
            rs8: scalar(1.0),
            alp: scalar(14.0),
            bet: scalar(0.5),
        }
    );
}

#[test]
fn optimized_power_damping_with_defaults() {
    let built = DFTD3OptimizedPowerDampingParamBuilder::default()
        .s8(scalar(1.0))
        .a1(scalar(0.3))
        .a2(scalar(4.2))
        .bet(scalar(2.0))
        .build()
        .unwrap();
    assert_eq!(
        built,
        DFTD3OptimizedPowerDampingParam {
            s6: scalar(1.0),
            s8: scalar(1.0),
            s9: scalar(1.0),
            a1: scalar(0.3),
            a2: scalar(4.2),
            alp: scalar(14.0),
            bet: scalar(2.0),
        }
    );
}

#[test]
fn given_values_replace_the_defaults() {
    let built = DFTD3ModifiedZeroDampingParamBuilder::default()
        .s6(scalar(0.5))
        .s8(scalar(1.0))
        .s9(scalar(0.0))
        .rs6(scalar(1.2))
        .rs8(scalar(1.1))
        .alp(scalar(16.0))
        .bet(scalar(0.5))
        .build()
        .unwrap();
    assert_eq!(
        built,
        DFTD3ModifiedZeroDampingParam {
            s6: scalar(0.5),
            s8: scalar(1.0),
            s9: scalar(0.0),
            rs6: scalar(1.2),
            rs8: scalar(1.1),
            alp: scalar(16.0),
            bet: scalar(0.5),
        }
    );
}

#[test]
fn a_builder_can_be_finished_twice() {
    let builder = DFTD3RationalDampingParamBuilder::default().s8(scalar(1.0)).a1(scalar(0.4));
    assert_eq!(builder.build(), Err(missing(ParamField::A2)));
    assert_eq!(builder.build(), Err(missing(ParamField::A2)));
    let builder = builder.a2(scalar(5.0));
    assert_eq!(builder.build(), builder.build());
    assert!(builder.build().is_ok());
}

#[test]
fn init_gives_the_request_for_the_finished_coefficients() {
    let request = DFTD3ZeroDampingParamBuilder::default()
        .s8(scalar(1.683))
        .rs6(scalar(1.139))
        .init_f()
        .unwrap();
    assert_eq!(
        request,
        ParamRequest::Zero(DFTD3ZeroDampingParam {
            s6: scalar(1.0),
            s8: scalar(1.683),
            s9: scalar(1.0),
            rs6: scalar(1.139),
            rs8: scalar(1.0),
            alp: scalar(14.0),
        })
    );
    assert_eq!(request.scheme(), DampingScheme::Zero);
}

#[test]
fn init_names_the_missing_coefficient() {
    assert_eq!(
        DFTD3ZeroDampingParamBuilder::default().s8(scalar(1.683)).init_f(),
        Err(missing(ParamField::Rs6))
    );
    assert_eq!(
        DFTD3OptimizedPowerDampingParamBuilder::default().init_f(),
        Err(missing(ParamField::S8))
    );
}

#[test]
fn init_with_a_clean_answer() {
    let param = DFTD3RationalDampingParamBuilder::default()
        .a1(scalar(0.5545))
        .s8(scalar(2.2609))
        .a2(scalar(3.2297))
        .init(Handle { address: 0x40 }, &ErrorChannel::new());
    assert_eq!(param.handle(), Handle { address: 0x40 });
    assert_eq!(param.scheme(), DampingScheme::Rational);
    assert_eq!(
        *param.origin(),
        ParamRequest::Rational(DFTD3RationalDampingParam {
            s6: scalar(1.0),
            s8: scalar(2.2609),
            s9: scalar(1.0),
            a1: scalar(0.5545),
            a2: scalar(3.2297),
            alp: scalar(14.0),
        })
    );
}
