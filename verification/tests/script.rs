use bl602_app::console::null_terminated;
use bl602_app::script::{
    blink, run_script, script_report, BlinkStage, BLINK_DELAY_MS, BLINK_TOGGLES, LED_GPIO,
    SCRIPT, SCRIPT_GREETING,
};
use bl602_app::{replay, Fatal, HalCall, HalReply, Machine};

fn answer(call: HalCall) -> HalReply {
    match call {
        HalCall::Delay { .. } => HalReply::Done,
        _ => HalReply::Status(0),
    }
}

#[test]
fn script_adds_forty_and_two() {
    assert!(SCRIPT.contains("let a = 40;"));
    assert!(SCRIPT.contains("let b = 2;"));
    assert!(SCRIPT.contains("a + b"));
    assert_eq!(run_script().unwrap().as_str(), "Result of Rhai Script: 42");
}

#[test]
fn script_gives_the_same_result_each_time() {
    let first = run_script().unwrap();
    let second = run_script().unwrap();
    assert_eq!(first.as_str(), second.as_str());
}

#[test]
fn script_report_is_the_labelled_value() {
    assert_eq!(script_report(Some(42)).unwrap().as_str(), "Result of Rhai Script: 42");
    assert_eq!(script_report(Some(0)).unwrap().as_str(), "Result of Rhai Script: 0");
    assert_eq!(script_report(Some(-7)).unwrap().as_str(), "Result of Rhai Script: -7");
    assert_eq!(
        script_report(Some(i64::MIN)).unwrap().as_str(),
        "Result of Rhai Script: -9223372036854775808"
    );
    assert_eq!(
        script_report(Some(i64::MAX)).unwrap().as_str(),
        "Result of Rhai Script: 9223372036854775807"
    );
}

#[test]
fn script_without_a_value_is_fatal() {
    assert_eq!(script_report(None).unwrap_err(), Fatal::Script);
}

#[test]
fn console_takes_the_script_report_and_the_greeting() {
    let line = script_report(Some(i64::MIN)).unwrap();
    assert_eq!(line.len(), 43);
    assert_eq!(null_terminated(line.as_str()).unwrap().len(), 44);
    assert_eq!(SCRIPT_GREETING, "Hello from Rust!\r\n");
    assert_eq!(null_terminated(SCRIPT_GREETING).unwrap().as_str(), "Hello from Rust!\r\n\0");
}

#[test]
fn blink_toggles_the_led_ten_times() {
    assert_eq!(LED_GPIO, 11);
    assert_eq!(BLINK_TOGGLES, 10);
    assert_eq!(BLINK_DELAY_MS, 1000);
    let mut machine = blink();
    let mut calls = Vec::new();
    while let Some(call) = machine.pending() {
        calls.push(call);
        machine = machine.reply(&answer(call)).unwrap();
    }
    let mut expected = vec![HalCall::GpioEnableOutput { led: 11, pullup: 0, pulldown: 0 }];
    for i in 0..10u8 {
        expected.push(HalCall::GpioOutputSet { led: 11, value: i % 2 });
        expected.push(HalCall::Delay { milliseconds: 1000 });
    }
    assert_eq!(calls, expected);
    assert_eq!(calls.len(), 21);
    assert_eq!(machine.state().stage, BlinkStage::Finished);
    assert_eq!(machine.state().toggles, 10);
}

#[test]
fn blink_starts_with_the_led_low() {
    let machine = blink();
    assert_eq!(machine.state().stage, BlinkStage::Enable);
    let machine = machine.reply(&HalReply::Status(0)).unwrap();
    assert_eq!(machine.pending(), Some(HalCall::GpioOutputSet { led: 11, value: 0 }));
    let machine = machine.reply(&HalReply::Status(0)).unwrap();
    assert_eq!(machine.pending(), Some(HalCall::Delay { milliseconds: 1000 }));
    let machine = machine.reply(&HalReply::Done).unwrap();
    assert_eq!(machine.pending(), Some(HalCall::GpioOutputSet { led: 11, value: 1 }));
    assert_eq!(machine.state().toggles, 1);
}

#[test]
fn blink_fails_where_the_pin_cannot_be_enabled() {
    assert_eq!(blink().reply(&HalReply::Status(-1)).unwrap_err(), Fatal::GpioEnableOutput);
}

#[test]
fn blink_fails_where_the_level_cannot_be_set() {
    let mut machine = blink().reply(&HalReply::Status(0)).unwrap();
    for _ in 0..3 {
        machine = machine.reply(&HalReply::Status(0)).unwrap();
        machine = machine.reply(&HalReply::Done).unwrap();
    }
    assert_eq!(machine.state().toggles, 3);
    assert_eq!(machine.reply(&HalReply::Status(1)).unwrap_err(), Fatal::GpioOutput);
}

#[test]
fn blink_refuses_a_reply_that_does_not_answer_its_call() {
    assert_eq!(blink().reply(&HalReply::Done).unwrap_err(), Fatal::UnexpectedReply);
    let machine = blink().reply(&HalReply::Status(0)).unwrap();
    let machine = machine.reply(&HalReply::Status(0)).unwrap();
    assert_eq!(machine.reply(&HalReply::Status(0)).unwrap_err(), Fatal::UnexpectedReply);
    let mut machine = blink();
    while let Some(call) = machine.pending() {
        machine = machine.reply(&answer(call)).unwrap();
    }
    assert_eq!(machine.reply(&HalReply::Done).unwrap_err(), Fatal::UnexpectedReply);
}

#[test]
fn replay_of_a_recorded_blinking_ends_after_ten_toggles() {
    let mut replies = vec![HalReply::Status(0)];
    for _ in 0..10 {
        replies.push(HalReply::Status(0));
        replies.push(HalReply::Done);
    }
    let machine = replay(blink(), &replies).unwrap();
    assert_eq!(machine.state().stage, BlinkStage::Finished);
    assert_eq!(machine.pending(), None);
    let early = replay(blink(), &replies[..5]).unwrap();
    assert_eq!(early.state().toggles, 2);
    assert_eq!(early.pending(), Some(HalCall::GpioOutputSet { led: 11, value: 0 }));
}
