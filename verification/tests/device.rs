use stellarium_bridge::serial::{
    acknowledged, after_open, after_write, exit_status, ACKNOWLEDGEMENT_LEN, BAUD_RATE,
    TIMEOUT_SECS,
};
use stellarium_bridge::tracker::FAILURE_STATUS;

#[test]
fn connection_settings() {
    assert_eq!(BAUD_RATE, 9600);
    assert_eq!(TIMEOUT_SECS, 2);
    assert_eq!(ACKNOWLEDGEMENT_LEN, 7);
    assert_eq!(ACKNOWLEDGEMENT_LEN, "msg_rec".len());
}

#[test]
fn exact_text_is_an_acknowledgement() {
    assert!(acknowledged(true, b"msg_rec"));
    let buffer: Vec<u8> = "msg_rec".bytes().collect();
    assert!(acknowledged(true, buffer.as_slice()));
}

#[test]
fn other_text_is_no_acknowledgement() {
    assert!(!acknowledged(true, b"unknown"));
    assert!(!acknowledged(true, b"msg_reC"));
    assert!(!acknowledged(true, b"Msg_rec"));
    assert!(!acknowledged(true, b"msg rec"));
    assert!(!acknowledged(true, &[0u8; 7]));
    assert!(!acknowledged(true, &[0xffu8; 7]));
}

#[test]
fn partial_read_is_no_acknowledgement() {
    assert!(!acknowledged(true, b"msg\0\0\0\0"));
    assert!(!acknowledged(true, b"msg_re\0"));
    assert!(!acknowledged(true, b"msg_re"));
    assert!(!acknowledged(true, b""));
    assert!(!acknowledged(true, b"msg_rec\n"));
    assert!(!acknowledged(true, b"msg_recmsg_rec"));
}

#[test]
fn failed_read_is_no_acknowledgement() {
    assert!(!acknowledged(false, &[0u8; 7]));
    assert!(!acknowledged(false, b"msg_rec"));
    assert!(!acknowledged(false, b""));
}

#[test]
fn acknowledgement_agrees_with_lossy_text() {
    let samples: [&[u8]; 6] =
        [b"msg_rec", b"unknown", b"msg\0\0\0\0", &[0xff; 7], &[0xc3, 0xa9, b'm', b's', b'g', b'_', b'r'], b"msg_re"];
    for sample in samples {
        assert_eq!(acknowledged(true, sample), String::from_utf8_lossy(sample) == "msg_rec");
    }
}

#[test]
fn failed_write_is_fatal() {
    assert_eq!(after_write(true, "/dev/ttyUSB0"), Ok(()));
    assert_eq!(
        after_write(false, "/dev/ttyUSB0"),
        Err("Could not write data to serial port /dev/ttyUSB0".to_string())
    );
    assert_eq!(after_write(false, ""), Err("Could not write data to serial port ".to_string()));
}

#[test]
fn failed_open_is_fatal() {
    assert_eq!(after_open(true, "COM3"), Ok(()));
    assert_eq!(after_open(false, "COM3"), Err("Could not open serial port COM3".to_string()));
}

#[test]
fn failed_write_leaves_with_the_failure_status() {
    assert_eq!(exit_status(&after_write(false, "/dev/ttyUSB0")), Some(1));
    assert_eq!(exit_status(&after_write(false, "/dev/ttyUSB0")), Some(FAILURE_STATUS));
    assert_eq!(exit_status(&after_write(true, "/dev/ttyUSB0")), None);
}

#[test]
fn failed_open_leaves_with_the_failure_status() {
    assert_eq!(exit_status(&after_open(false, "COM3")), Some(1));
    assert_eq!(exit_status(&after_open(true, "COM3")), None);
}
