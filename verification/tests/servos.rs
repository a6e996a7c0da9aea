use controller::communication::MESSAGE_LEN;
use controller::robot::{Servos, MAX_SERVO, MIN_SERVO};

#[test]
fn robot_servos_to_message() {
    let servos = Servos {
        base: 100,
        shoulder: 200,
        elbow: 50,
        claw: 1,
    };

    let actual = servos.to_message();
    let expected: Vec<u8> = vec![100, 0, 200, 0, 50, 0, 1, 0];

    assert_eq!(actual, expected);
}

#[test]
fn mod_servos_to_message() {
    let servos = Servos {
        base: 100,
        shoulder: 200,
        elbow: 50,
        claw: 1,
    };

    let actual = servos.to_message();
    let expected: Vec<u8> = vec![100, 0, 200, 0, 50, 0, 1, 0];

    assert_eq!(actual, expected);
}

#[test]
fn message_has_eight_bytes() {
    let servos = Servos {
        base: 0,
        shoulder: 0,
        elbow: 0,
        claw: 0,
    };
    assert_eq!(servos.to_message().len(), MESSAGE_LEN);
    assert_eq!(servos.to_message(), vec![0u8; 8]);
}

#[test]
fn words_are_little_endian() {
    let servos = Servos {
        base: 0x1234,
        shoulder: 0x00ff,
        elbow: 0xff00,
        claw: 0x0100,
    };
    assert_eq!(
        servos.to_message(),
        vec![0x34, 0x12, 0xff, 0x00, 0x00, 0xff, 0x00, 0x01]
    );
}

#[test]
fn words_keep_their_order() {
    let servos = Servos {
        base: 1,
        shoulder: 2,
        elbow: 3,
        claw: 4,
    };
    assert_eq!(servos.to_message(), vec![1, 0, 2, 0, 3, 0, 4, 0]);
}

#[test]
fn pulse_limits_encode() {
    assert_eq!(MIN_SERVO, 250);
    assert_eq!(MAX_SERVO, 2400);
    let servos = Servos {
        base: MIN_SERVO,
        shoulder: MAX_SERVO,
        elbow: MIN_SERVO,
        claw: MAX_SERVO,
    };
    assert_eq!(servos.to_message(), vec![250, 0, 96, 9, 250, 0, 96, 9]);
}

#[test]
fn largest_words_encode() {
    let servos = Servos {
        base: u16::MAX,
        shoulder: 255,
        elbow: 256,
        claw: 65534,
    };
    assert_eq!(
        servos.to_message(),
        vec![255, 255, 255, 0, 0, 1, 254, 255]
    );
}

#[test]
fn message_agrees_with_std_encoding() {
    let words: [u16; 9] = [0, 1, 13, 250, 255, 256, 2400, 32768, 65535];
    for &a in words.iter() {
        for &b in words.iter() {
            let servos = Servos {
                base: a,
                shoulder: b,
                elbow: b,
                claw: a,
            };
            let mut expected: Vec<u8> = Vec::new();
            expected.extend_from_slice(&a.to_le_bytes());
            expected.extend_from_slice(&b.to_le_bytes());
            expected.extend_from_slice(&b.to_le_bytes());
            expected.extend_from_slice(&a.to_le_bytes());
            assert_eq!(servos.to_message(), expected);
        }
    }
}

#[test]
fn message_decodes_to_its_words() {
    let servos = Servos {
        base: 1500,
        shoulder: 777,
        elbow: 2399,
        claw: 251,
    };
    let message = servos.to_message();
    assert_eq!(u16::from_le_bytes([message[0], message[1]]), servos.base);
    assert_eq!(u16::from_le_bytes([message[2], message[3]]), servos.shoulder);
    assert_eq!(u16::from_le_bytes([message[4], message[5]]), servos.elbow);
    assert_eq!(u16::from_le_bytes([message[6], message[7]]), servos.claw);
}

#[test]
fn different_commands_give_different_messages() {
    let a = Servos {
        base: 256,
        shoulder: 0,
        elbow: 0,
        claw: 0,
    };
    let b = Servos {
        base: 1,
        shoulder: 0,
        elbow: 0,
        claw: 0,
    };
    let c = Servos {
        base: 0,
        shoulder: 1,
        elbow: 0,
        claw: 0,
    };
    assert_ne!(a.to_message(), b.to_message());
    assert_ne!(b.to_message(), c.to_message());
    assert_ne!(a.to_message(), c.to_message());
}

#[test]
fn command_is_copied_not_consumed() {
    let servos = Servos {
        base: 300,
        shoulder: 400,
        elbow: 500,
        claw: 600,
    };
    let copy = servos;
    assert_eq!(servos.to_message(), copy.to_message());
    assert_eq!(servos.to_message(), servos.to_message());
}
