use pyrunner::codec::{decode_message, encode_message};
use pyrunner::error::PyRunnerError;
use pyrunner::message::{ErrorMessage, Message, ProgressMessage, ResultMessage};

#[test]
fn test_message() {
    let message = Message::Error(ErrorMessage::new(1001, "测试错误".to_string()));
    let serialized = encode_message(&message);
    println!("Message(Error(ErrorMessage)) serialized: {serialized:?}");
    let deserialized: Message = decode_message(&serialized).unwrap();
    assert_eq!(deserialized, message);

    let message = Message::Progress(ProgressMessage::new(0, 100));
    let serialized = encode_message(&message);
    println!("Message(Progress(ProgressMessage)) serialized: {serialized:?}");
    let deserialized: Message = decode_message(&serialized).unwrap();
    assert_eq!(deserialized, message);

    let message = Message::Result(ResultMessage::new(10, 5000));
    let serialized = encode_message(&message);
    println!("Message(Result(ResultMessage)) serialized: {serialized:?}");
    let deserialized: Message = decode_message(&serialized).unwrap();
    assert_eq!(deserialized, message);
}

#[test]
fn message_test_progress_info() {
    let progress = ProgressMessage::new(0, 100);
    assert_eq!(progress.done, 0);
    assert_eq!(progress.size, 100);

    let serialized = encode_message(&Message::Progress(progress));
    println!("ProgressMessage serialized: {serialized:?}");
    let deserialized = decode_message(&serialized).unwrap();
    match deserialized {
        Message::Progress(p) => {
            assert_eq!(p.done, 0);
            assert_eq!(p.size, 100);
        }
        _ => panic!("expected a Progress message"),
    }
}

#[test]
fn test_error_info() {
    let error = PyRunnerError::task_execution_failed("测试错误".to_string());
    let code = error.error_code();
    let message = error.message_text();

    let error_info = ErrorMessage::new(code, message.clone());
    assert_eq!(error_info.error_code, code);
    assert_eq!(error_info.error_message, message);

    let serialized = encode_message(&Message::Error(error_info));
    println!("ErrorMessage serialized: {serialized:?}");
    let deserialized = decode_message(&serialized).unwrap();
    match deserialized {
        Message::Error(e) => {
            assert_eq!(e.error_code, code);
            assert_eq!(e.error_message, message);
        }
        _ => panic!("expected an Error message"),
    }
}

#[test]
fn test_result_info() {
    let result_info = ResultMessage::new(10, 5000);
    assert_eq!(result_info.pages, 10);
    assert_eq!(result_info.words, 5000);

    let serialized = encode_message(&Message::Result(result_info));
    println!("ResultMessage serialized: {serialized:?}");
    let deserialized = decode_message(&serialized).unwrap();
    match deserialized {
        Message::Result(r) => {
            assert_eq!(r.pages, 10);
            assert_eq!(r.words, 5000);
        }
        _ => panic!("expected a Result message"),
    }
}

#[test]
fn test_encode_progress_exact_bytes() {
    let frame = encode_message(&Message::Progress(ProgressMessage::new(1, 5)));
    let expected = vec![
        1u8, 1, 0, 0, 0, 0, 0, 0, 0, 5, 0, 0, 0, 0, 0, 0, 0,
    ];
    assert_eq!(frame, expected);
}

#[test]
fn test_encode_error_exact_bytes() {
    let frame = encode_message(&Message::Error(ErrorMessage::new(1001, "x".to_string())));
    let expected = vec![
        2u8, 233, 3, 0, 0, 1, 0, 0, 0, 0, 0, 0, 0, b'x',
    ];
    assert_eq!(frame, expected);
}

#[test]
fn test_encode_error_multibyte_text() {
    // Each of the two Chinese characters takes three UTF-8 bytes, so the
    // length prefix counts bytes, not characters.
    let frame = encode_message(&Message::Error(ErrorMessage::new(7, "测试".to_string())));
    assert_eq!(frame.len(), 1 + 4 + 8 + 6);
    assert_eq!(frame[5], 6);
}

#[test]
fn test_decode_rejects_malformed_frames() {
    // Empty frame.
    assert!(decode_message(&vec![]).is_none());
    // Unknown tag.
    assert!(decode_message(&vec![9u8, 0, 0, 0, 0, 0, 0, 0, 0]).is_none());
    // Progress frame of the wrong length.
    assert!(decode_message(&vec![1u8, 1, 0, 0]).is_none());
    // Error frame whose length prefix disagrees with the payload.
    let mut frame = encode_message(&Message::Error(ErrorMessage::new(1, "ab".to_string())));
    frame.pop();
    assert!(decode_message(&frame).is_none());
    // Error frame whose payload is not valid UTF-8.
    let mut bad = vec![2u8, 0, 0, 0, 0, 1, 0, 0, 0, 0, 0, 0, 0];
    bad.push(0xFF);
    assert!(decode_message(&bad).is_none());
}

#[test]
fn test_progress_is_never_terminal() {
    // A progress message whose done equals its size — including the
    // indeterminate 0-of-0 — is still not a terminal message.
    assert!(!Message::Progress(ProgressMessage::new(0, 0)).terminal());
    assert!(!Message::Progress(ProgressMessage::new(5, 5)).terminal());
    assert!(Message::Error(ErrorMessage::new(1, "e".to_string())).terminal());
    assert!(Message::Result(ResultMessage::new(0, 0)).terminal());
}
