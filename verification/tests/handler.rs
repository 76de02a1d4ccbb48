use input_rs::{
    AxisFormula, DeviceId, InputError, InputHandler, PollingStart, Ratio, ScreenRotation,
    TouchEvent, Transform,
};

fn id(vendor: u16, product: u16) -> DeviceId {
    DeviceId { vendor, product }
}

fn all_rotations() -> [ScreenRotation; 4] {
    [
        ScreenRotation::Deg_0,
        ScreenRotation::Deg_CW90,
        ScreenRotation::Deg_CW180,
        ScreenRotation::Deg_CCW90,
    ]
}

#[test]
fn construction_fails_without_a_matching_device() {
    let devices = vec![id(1, 2), id(3, 4)];
    for rotation in all_rotations() {
        let res = InputHandler::new(0x00ee, 0xcafe, &devices, rotation);
        match res {
            Err(error) => assert_eq!(
                error,
                InputError::DeviceNotFound { vendor: 0x00ee, product: 0xcafe }
            ),
            Ok(_) => panic!("a handler was built without a device"),
        }
    }
}

#[test]
fn construction_fails_on_an_empty_enumeration() {
    let devices: Vec<DeviceId> = Vec::new();
    let res = InputHandler::new(5, 6, &devices, ScreenRotation::Deg_0);
    assert_eq!(res.err(), Some(InputError::DeviceNotFound { vendor: 5, product: 6 }));
}

#[test]
fn construction_binds_the_first_match() {
    let devices = vec![id(1, 2), id(0x00ee, 0xcafe), id(0x00ee, 0xcafe)];
    let handler = InputHandler::new(0x00ee, 0xcafe, &devices, ScreenRotation::Deg_CW90).unwrap();
    assert_eq!(handler.device(), 1);
    assert_eq!(handler.screen_rotation(), ScreenRotation::Deg_CW90);
}

#[test]
fn construction_is_repeatable() {
    let devices = vec![id(7, 7), id(8, 8), id(7, 7)];
    let first = InputHandler::new(7, 7, &devices, ScreenRotation::Deg_0).unwrap();
    let second = InputHandler::new(7, 7, &devices, ScreenRotation::Deg_0).unwrap();
    assert_eq!(first.device(), 0);
    assert_eq!(first.device(), second.device());
}

#[test]
fn construction_accepts_every_rotation() {
    let devices = vec![id(1, 2)];
    for rotation in all_rotations() {
        let handler = InputHandler::new(1, 2, &devices, rotation).unwrap();
        assert_eq!(handler.screen_rotation(), rotation);
        assert_eq!(handler.device(), 0);
    }
}

#[test]
fn construction_does_not_start_polling() {
    let devices = vec![id(1, 2)];
    let handler = InputHandler::new(1, 2, &devices, ScreenRotation::Deg_0).unwrap();
    assert!(!handler.is_polling_events());
}

#[test]
fn first_start_hands_out_a_poller_at_the_origin() {
    let devices = vec![id(1, 2)];
    let mut handler = InputHandler::new(1, 2, &devices, ScreenRotation::Deg_0).unwrap();
    match handler.start_polling_events() {
        Ok(PollingStart::Spawn(poller)) => {
            assert_eq!(
                poller.cached_position(),
                TouchEvent {
                    pos_x: Ratio { num: 0, den: 1 },
                    pos_y: Ratio { num: 0, den: 1 },
                }
            );
            assert_eq!(
                poller.transform(),
                Transform {
                    fx: AxisFormula::OverXRes,
                    fy: AxisFormula::OverYRes,
                    swap_axes: false,
                }
            );
        }
        other => panic!("unexpected answer {:?}", other),
    }
    assert!(handler.is_polling_events());
}

#[test]
fn clockwise_start_hands_out_the_clockwise_transform() {
    let devices = vec![id(1, 2)];
    let mut handler = InputHandler::new(1, 2, &devices, ScreenRotation::Deg_CW90).unwrap();
    match handler.start_polling_events() {
        Ok(PollingStart::Spawn(poller)) => {
            assert_eq!(
                poller.transform(),
                Transform {
                    fx: AxisFormula::OverYRes,
                    fy: AxisFormula::MirroredOverXRes,
                    swap_axes: true,
                }
            );
        }
        other => panic!("unexpected answer {:?}", other),
    }
    assert!(handler.is_polling_events());
}

#[test]
fn second_start_hands_out_nothing() {
    let devices = vec![id(1, 2)];
    let mut handler = InputHandler::new(1, 2, &devices, ScreenRotation::Deg_0).unwrap();
    assert!(matches!(handler.start_polling_events(), Ok(PollingStart::Spawn(_))));
    assert!(matches!(handler.start_polling_events(), Ok(PollingStart::AlreadyPolling)));
    assert!(handler.is_polling_events());
}

#[test]
fn many_starts_hand_out_one_poller() {
    let devices = vec![id(1, 2)];
    for rotation in [ScreenRotation::Deg_0, ScreenRotation::Deg_CW90] {
        let mut handler = InputHandler::new(1, 2, &devices, rotation).unwrap();
        let mut spawned = 0;
        for _ in 0..10 {
            if let Ok(PollingStart::Spawn(_)) = handler.start_polling_events() {
                spawned += 1;
            }
            assert!(handler.is_polling_events());
        }
        assert_eq!(spawned, 1);
    }
}

#[test]
fn start_refuses_half_turn() {
    let devices = vec![id(1, 2)];
    let mut handler = InputHandler::new(1, 2, &devices, ScreenRotation::Deg_CW180).unwrap();
    match handler.start_polling_events() {
        Err(error) => assert_eq!(
            error,
            InputError::UnsupportedRotation { rotation: ScreenRotation::Deg_CW180 }
        ),
        Ok(answer) => panic!("unexpected answer {:?}", answer),
    }
    assert!(!handler.is_polling_events());
}

#[test]
fn start_refuses_counter_clockwise_quarter() {
    let devices = vec![id(1, 2)];
    let mut handler = InputHandler::new(1, 2, &devices, ScreenRotation::Deg_CCW90).unwrap();
    match handler.start_polling_events() {
        Err(error) => assert_eq!(
            error,
            InputError::UnsupportedRotation { rotation: ScreenRotation::Deg_CCW90 }
        ),
        Ok(answer) => panic!("unexpected answer {:?}", answer),
    }
    assert!(!handler.is_polling_events());
}

#[test]
fn refused_start_stays_refused() {
    let devices = vec![id(1, 2)];
    let mut handler = InputHandler::new(1, 2, &devices, ScreenRotation::Deg_CW180).unwrap();
    for _ in 0..3 {
        assert!(handler.start_polling_events().is_err());
        assert!(!handler.is_polling_events());
        assert_eq!(handler.device(), 0);
        assert_eq!(handler.screen_rotation(), ScreenRotation::Deg_CW180);
    }
}

#[test]
fn start_keeps_device_and_rotation() {
    let devices = vec![id(9, 9), id(1, 2)];
    let mut handler = InputHandler::new(1, 2, &devices, ScreenRotation::Deg_CW90).unwrap();
    let _ = handler.start_polling_events();
    let _ = handler.start_polling_events();
    assert_eq!(handler.device(), 1);
    assert_eq!(handler.screen_rotation(), ScreenRotation::Deg_CW90);
}
