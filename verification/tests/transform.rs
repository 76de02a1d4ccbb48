use input_rs::{
    formula_x, formula_y, AxisFormula, InputError, Ratio, RawSample, ScreenRotation, TouchEvent,
    Transform, ABSOLUTE, ABS_X, ABS_Y, X_RES, Y_RES,
};

fn position(x: (i64, i64), y: (i64, i64)) -> TouchEvent {
    TouchEvent { pos_x: Ratio { num: x.0, den: x.1 }, pos_y: Ratio { num: y.0, den: y.1 } }
}

#[test]
fn resolutions_are_those_of_the_device() {
    assert_eq!(X_RES, 8640);
    assert_eq!(Y_RES, 15360);
}

#[test]
fn axis_codes_are_those_of_the_device() {
    assert_eq!(ABSOLUTE, 3);
    assert_eq!(ABS_X, 53);
    assert_eq!(ABS_Y, 54);
}

#[test]
fn horizontal_formula_by_rotation() {
    assert_eq!(formula_x(ScreenRotation::Deg_0), Ok(AxisFormula::OverXRes));
    assert_eq!(formula_x(ScreenRotation::Deg_CW90), Ok(AxisFormula::OverYRes));
    assert_eq!(
        formula_x(ScreenRotation::Deg_CW180),
        Err(InputError::UnsupportedRotation { rotation: ScreenRotation::Deg_CW180 })
    );
    assert_eq!(
        formula_x(ScreenRotation::Deg_CCW90),
        Err(InputError::UnsupportedRotation { rotation: ScreenRotation::Deg_CCW90 })
    );
}

#[test]
fn vertical_formula_by_rotation() {
    assert_eq!(formula_y(ScreenRotation::Deg_0), Ok(AxisFormula::OverYRes));
    assert_eq!(formula_y(ScreenRotation::Deg_CW90), Ok(AxisFormula::MirroredOverXRes));
    assert_eq!(
        formula_y(ScreenRotation::Deg_CW180),
        Err(InputError::UnsupportedRotation { rotation: ScreenRotation::Deg_CW180 })
    );
    assert_eq!(
        formula_y(ScreenRotation::Deg_CCW90),
        Err(InputError::UnsupportedRotation { rotation: ScreenRotation::Deg_CCW90 })
    );
}

#[test]
fn formulas_give_exact_ratios() {
    assert_eq!(AxisFormula::OverXRes.apply(4320), Ratio { num: 4320, den: 8640 });
    assert_eq!(AxisFormula::OverYRes.apply(7680), Ratio { num: 7680, den: 15360 });
    assert_eq!(AxisFormula::MirroredOverXRes.apply(2160), Ratio { num: 6480, den: 8640 });
    assert_eq!(AxisFormula::MirroredOverXRes.apply(0), Ratio { num: 8640, den: 8640 });
    assert_eq!(AxisFormula::MirroredOverXRes.apply(8640), Ratio { num: 0, den: 8640 });
}

#[test]
fn formulas_take_every_raw_value() {
    assert_eq!(
        AxisFormula::OverXRes.apply(i32::MIN),
        Ratio { num: -2147483648, den: 8640 }
    );
    assert_eq!(
        AxisFormula::OverYRes.apply(i32::MAX),
        Ratio { num: 2147483647, den: 15360 }
    );
    assert_eq!(
        AxisFormula::MirroredOverXRes.apply(i32::MIN),
        Ratio { num: 2147492288, den: 8640 }
    );
    assert_eq!(
        AxisFormula::MirroredOverXRes.apply(i32::MAX),
        Ratio { num: -2147475007, den: 8640 }
    );
    assert_eq!(AxisFormula::MirroredOverXRes.apply(-1), Ratio { num: 8641, den: 8640 });
}

#[test]
fn formulas_as_floating_point() {
    let x = AxisFormula::OverXRes.apply(2160);
    assert_eq!(x.num as f32 / x.den as f32, 0.25f32);
    let y = AxisFormula::MirroredOverXRes.apply(2160);
    assert_eq!(y.num as f32 / y.den as f32, 0.75f32);
}

#[test]
fn transform_of_each_rotation() {
    assert_eq!(
        Transform::for_rotation(ScreenRotation::Deg_0),
        Ok(Transform {
            fx: AxisFormula::OverXRes,
            fy: AxisFormula::OverYRes,
            swap_axes: false,
        })
    );
    assert_eq!(
        Transform::for_rotation(ScreenRotation::Deg_CW90),
        Ok(Transform {
            fx: AxisFormula::OverYRes,
            fy: AxisFormula::MirroredOverXRes,
            swap_axes: true,
        })
    );
    assert_eq!(
        Transform::for_rotation(ScreenRotation::Deg_CW180),
        Err(InputError::UnsupportedRotation { rotation: ScreenRotation::Deg_CW180 })
    );
    assert_eq!(
        Transform::for_rotation(ScreenRotation::Deg_CCW90),
        Err(InputError::UnsupportedRotation { rotation: ScreenRotation::Deg_CCW90 })
    );
}

#[test]
fn unrotated_transform_keeps_the_axes() {
    let transform = Transform::for_rotation(ScreenRotation::Deg_0).unwrap();
    let start = position((0, 1), (0, 1));
    let after_x =
        transform.apply(start, RawSample { kind: ABSOLUTE, code: ABS_X, value: 864 });
    assert_eq!(after_x, position((864, 8640), (0, 1)));
    let after_y =
        transform.apply(after_x, RawSample { kind: ABSOLUTE, code: ABS_Y, value: 1536 });
    assert_eq!(after_y, position((864, 8640), (1536, 15360)));
}

#[test]
fn clockwise_transform_swaps_and_mirrors() {
    let transform = Transform::for_rotation(ScreenRotation::Deg_CW90).unwrap();
    let start = position((0, 1), (0, 1));
    let after_x =
        transform.apply(start, RawSample { kind: ABSOLUTE, code: ABS_X, value: 864 });
    assert_eq!(after_x, position((0, 1), (864, 15360)));
    let after_y =
        transform.apply(after_x, RawSample { kind: ABSOLUTE, code: ABS_Y, value: 1536 });
    assert_eq!(after_y, position((8640 - 1536, 8640), (864, 15360)));
}

#[test]
fn transform_passes_over_other_records() {
    let start = position((1, 8640), (2, 15360));
    for rotation in [ScreenRotation::Deg_0, ScreenRotation::Deg_CW90] {
        let transform = Transform::for_rotation(rotation).unwrap();
        for sample in [
            RawSample { kind: 0, code: 0, value: 0 },
            RawSample { kind: 1, code: ABS_X, value: 77 },
            RawSample { kind: ABSOLUTE, code: 0, value: 77 },
            RawSample { kind: ABSOLUTE, code: 57, value: 77 },
            RawSample { kind: ABS_X, code: ABSOLUTE, value: 77 },
        ] {
            assert_eq!(transform.apply(start, sample), start);
        }
    }
}
