use ocr_boundary::{get_last_error, get_ocr, set_error, EngineAccess, EngineSlot, ErrorSlot};

#[test]
fn new_error_slot_is_empty() {
    let errors = ErrorSlot::new();
    assert_eq!(get_last_error(&errors), Some(String::new()));
}

#[test]
fn set_error_records_the_message() {
    let mut errors = ErrorSlot::new();
    set_error(&mut errors, String::from("image length is 0"));
    assert_eq!(get_last_error(&errors), Some(String::from("image length is 0")));
}

#[test]
fn set_error_keeps_only_the_latest_message() {
    let mut errors = ErrorSlot::new();
    set_error(&mut errors, String::from("first"));
    set_error(&mut errors, String::from("second"));
    set_error(&mut errors, String::from("third"));
    assert_eq!(get_last_error(&errors), Some(String::from("third")));
}

#[test]
fn set_error_can_record_an_empty_message() {
    let mut errors = ErrorSlot::new();
    set_error(&mut errors, String::from("something"));
    set_error(&mut errors, String::new());
    assert_eq!(get_last_error(&errors), Some(String::new()));
}

#[test]
fn get_last_error_does_not_clear_the_slot() {
    let mut errors = ErrorSlot::new();
    set_error(&mut errors, String::from("kept"));
    for _ in 0..5 {
        assert_eq!(get_last_error(&errors), Some(String::from("kept")));
    }
}

#[test]
fn get_last_error_hands_out_non_ascii_messages() {
    let mut errors = ErrorSlot::new();
    set_error(&mut errors, String::from("classification error: 消息"));
    assert_eq!(get_last_error(&errors), Some(String::from("classification error: 消息")));
}

#[test]
fn get_last_error_gives_the_null_signal_for_a_message_with_terminator() {
    let mut errors = ErrorSlot::new();
    set_error(&mut errors, String::from("internal fault: bad\0byte"));
    assert_eq!(get_last_error(&errors), None);
    set_error(&mut errors, String::from("internal fault: fine"));
    assert_eq!(get_last_error(&errors), Some(String::from("internal fault: fine")));
}

#[test]
fn new_engine_slot_is_uninitialized() {
    let engine: EngineSlot<u32> = EngineSlot::new();
    assert_eq!(get_ocr(&engine), None);
}

#[test]
fn settle_keeps_the_handle() {
    let mut engine: EngineSlot<u32> = EngineSlot::new();
    engine.settle(Ok(11));
    assert_eq!(get_ocr(&engine), Some(Ok(&11)));
    assert_eq!(get_ocr(&engine), Some(Ok(&11)));
}

#[test]
fn settle_keeps_the_failure_as_a_message() {
    let mut engine: EngineSlot<u32> = EngineSlot::new();
    engine.settle(Err(String::from("Ort(SessionBuild)")));
    assert_eq!(get_ocr(&engine), Some(Err(String::from("OCR init failed: Ort(SessionBuild)"))));
    assert_eq!(get_ocr(&engine), Some(Err(String::from("OCR init failed: Ort(SessionBuild)"))));
}

#[test]
fn settle_with_an_empty_account_still_gives_a_message() {
    let mut engine: EngineSlot<u32> = EngineSlot::new();
    engine.settle(Err(String::new()));
    assert_eq!(get_ocr(&engine), Some(Err(String::from("OCR init failed: "))));
}

#[test]
fn settle_keeps_the_first_handle() {
    let mut engine: EngineSlot<u32> = EngineSlot::new();
    engine.settle(Ok(1));
    engine.settle(Ok(2));
    engine.settle(Err(String::from("late")));
    assert_eq!(get_ocr(&engine), Some(Ok(&1)));
}

#[test]
fn settle_keeps_the_first_failure() {
    let mut engine: EngineSlot<u32> = EngineSlot::new();
    engine.settle(Err(String::from("early")));
    engine.settle(Ok(2));
    engine.settle(Err(String::from("late")));
    assert_eq!(get_ocr(&engine), Some(Err(String::from("OCR init failed: early"))));
}

#[test]
fn first_request_is_told_to_build() {
    let mut engine: EngineSlot<u32> = EngineSlot::new();
    assert_eq!(engine.request(), EngineAccess::Build);
    assert_eq!(get_ocr(&engine), None);
}

#[test]
fn requests_wait_while_the_engine_is_built() {
    let mut engine: EngineSlot<u32> = EngineSlot::new();
    assert_eq!(engine.request(), EngineAccess::Build);
    assert_eq!(engine.request(), EngineAccess::Wait);
    assert_eq!(engine.request(), EngineAccess::Wait);
    assert_eq!(get_ocr(&engine), None);
}

#[test]
fn requests_find_the_engine_once_it_is_built() {
    let mut engine: EngineSlot<u32> = EngineSlot::new();
    assert_eq!(engine.request(), EngineAccess::Build);
    engine.settle(Ok(5));
    assert_eq!(engine.request(), EngineAccess::Ready);
    assert_eq!(engine.request(), EngineAccess::Ready);
    assert_eq!(get_ocr(&engine), Some(Ok(&5)));
}

#[test]
fn requests_find_the_failure_once_the_attempt_has_failed() {
    let mut engine: EngineSlot<u32> = EngineSlot::new();
    assert_eq!(engine.request(), EngineAccess::Build);
    engine.settle(Err(String::from("no model")));
    for _ in 0..3 {
        assert_eq!(
            engine.request(),
            EngineAccess::Failed(String::from("OCR init failed: no model"))
        );
    }
}

#[test]
fn abandon_hands_the_build_to_the_next_request() {
    let mut engine: EngineSlot<u32> = EngineSlot::new();
    assert_eq!(engine.request(), EngineAccess::Build);
    engine.abandon();
    assert_eq!(engine.request(), EngineAccess::Build);
    assert_eq!(engine.request(), EngineAccess::Wait);
}

#[test]
fn abandon_leaves_other_slots_alone() {
    let mut fresh: EngineSlot<u32> = EngineSlot::new();
    fresh.abandon();
    assert_eq!(fresh.request(), EngineAccess::Build);

    let mut ready: EngineSlot<u32> = EngineSlot::new();
    ready.settle(Ok(4));
    ready.abandon();
    assert_eq!(get_ocr(&ready), Some(Ok(&4)));

    let mut failed: EngineSlot<u32> = EngineSlot::new();
    failed.settle(Err(String::from("x")));
    failed.abandon();
    assert_eq!(get_ocr(&failed), Some(Err(String::from("OCR init failed: x"))));
}

#[test]
fn settle_without_request_is_kept() {
    let mut engine: EngineSlot<u32> = EngineSlot::new();
    engine.settle(Ok(8));
    assert_eq!(engine.request(), EngineAccess::Ready);
}
