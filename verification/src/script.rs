//! The script demo: it evaluates a script with a raw rhai engine, reports
//! the result on the console, and blinks an LED.

use crate::console::{byte_len, labelled, labelled_text, signed_decimal, terminated, written};
use crate::console::{lemma_byte_len_ascii, lemma_labelled_fits, lemma_short_ascii_fits};
use crate::console::{Line, CAPACITY};
use crate::fatal::Fatal;
use crate::hal::{HalCall, HalReply};
use crate::machine::{calls_from, run_from, Machine};
use vstd::prelude::*;
use vstd::utf8::is_ascii_chars;

verus! {

/// The greeting that the demo opens with.
pub const SCRIPT_GREETING: &'static str = "Hello from Rust!\r\n";

/// The script that the demo evaluates.
pub const SCRIPT: &'static str =
    " \n            let a = 40; \n            let b = 2;\n            a + b \n        ";

/// The label that the console shows before the result of the script.
pub const SCRIPT_LABEL: &'static str = "Result of Rhai Script: ";

/// The pin that the LED is connected to.
pub const LED_GPIO: u8 = 11;

/// How often the LED changes its level: five times on, five times off.
pub const BLINK_TOGGLES: u8 = 10;

/// How long the LED keeps a level, in milliseconds.
pub const BLINK_DELAY_MS: u32 = 1000;

/// `rhai::EvalAltResult`, the error of an evaluation. It is carried
/// through; nothing is read of it.
#[verifier::external_type_specification]
#[verifier::external_body]
pub struct ExEvalAltResult(rhai::EvalAltResult);

/// The integer that a raw rhai engine evaluates a script to, or none where
/// the script does not evaluate to an integer.
pub uninterp spec fn script_value(script: Seq<char>) -> Option<i64>;

/// `rhai::Engine::eval` on a fresh `rhai::Engine::new_raw()`: the integer
/// that the script evaluates to, or rhai's error. Such an engine has no
/// state and no package, so the outcome depends on the script alone. It is
/// called on [`SCRIPT`] only, which declares two variables and adds them.
#[verifier::external_body]
fn eval_integer(script: &str) -> (r: Result<i64, Box<rhai::EvalAltResult>>)
    requires
        script@ == SCRIPT@,
    ensures
        r matches Ok(value) ==> script_value(script@) == Some(value),
        r is Err ==> script_value(script@) is None,
{
    rhai::Engine::new_raw().eval::<rhai::INT>(script)
}

/// What the console shows for a result of the script.
pub open spec fn script_report_text(value: i64) -> Seq<char> {
    SCRIPT_LABEL@ + signed_decimal(value as int)
}

/// What the demo makes of the outcome of the evaluation: the report of the
/// value, and a failure where there is none.
pub open spec fn script_outcome(value: Option<i64>) -> Result<Seq<char>, Fatal> {
    match value {
        Some(v) => Ok(script_report_text(v)),
        None => Err(Fatal::Script),
    }
}

/// Writes the line that reports the outcome of the evaluation. A value
/// always fits into the line; an evaluation without a value is fatal.
pub fn script_report(outcome: Option<i64>) -> (r: Result<Line, Fatal>)
    ensures
        written(r) == script_outcome(outcome),
{
    match outcome {
        Some(value) => {
            proof {
                lemma_script_report_fits(value);
            }
            labelled(SCRIPT_LABEL, value)
        },
        None => Err(Fatal::Script),
    }
}

/// The line that reports a result of the script is ASCII text of fewer
/// bytes than a line holds, so that the console takes it with the
/// terminator after it. The same holds of the greeting.
pub proof fn lemma_script_report_fits(value: i64)
    ensures
        is_ascii_chars(script_report_text(value)),
        byte_len(script_report_text(value)) == script_report_text(value).len() < CAPACITY,
        labelled_text(SCRIPT_LABEL@, value as int) == Ok::<Seq<char>, Fatal>(
            script_report_text(value),
        ),
        terminated(script_report_text(value)) == Ok::<Seq<char>, Fatal>(
            script_report_text(value).push('\0'),
        ),
        terminated(SCRIPT_GREETING@) == Ok::<Seq<char>, Fatal>(SCRIPT_GREETING@.push('\0')),
{
    reveal_strlit("Result of Rhai Script: ");
    reveal_strlit("Hello from Rust!\r\n");
    lemma_short_ascii_fits(SCRIPT_GREETING@);
    lemma_labelled_fits(SCRIPT_LABEL@, value as int);
    lemma_byte_len_ascii(script_report_text(value));
}

/// Evaluates [`SCRIPT`] and reports its value. A script that does not
/// evaluate to an integer is fatal.
pub fn run_script() -> (r: Result<Line, Fatal>)
    ensures
        written(r) == script_outcome(script_value(SCRIPT@)),
{
    match eval_integer(SCRIPT) {
        Ok(value) => script_report(Some(value)),
        Err(_) => script_report(None),
    }
}

/// The step of the blinking that is next.
#[derive(Clone, Copy, Debug, PartialEq, Eq, Structural)]
pub enum BlinkStage {
    /// Switch the pin of the LED to output.
    Enable,
    /// Set the level of the LED.
    Level,
    /// Keep the level for a while.
    Hold,
    /// Nothing is left to do.
    Finished,
}

/// How far the blinking has come.
#[derive(Clone, Copy, Debug, PartialEq, Eq, Structural)]
pub struct BlinkState {
    /// The step that is next.
    pub stage: BlinkStage,
    /// How often the LED has changed its level and kept it.
    pub toggles: u8,
}

/// The level of the LED for a toggle: low first, then high, in turn.
pub open spec fn blink_level(toggle: u8) -> u8 {
    toggle % 2
}

/// Where the blinking starts.
pub open spec fn blink_start() -> BlinkState {
    BlinkState { stage: BlinkStage::Enable, toggles: 0 }
}

/// The call that the blinking is waiting for, if any.
pub open spec fn blink_call(s: BlinkState) -> Option<HalCall> {
    match s.stage {
        BlinkStage::Enable => Some(
            HalCall::GpioEnableOutput { led: LED_GPIO, pullup: 0, pulldown: 0 },
        ),
        BlinkStage::Level => Some(
            HalCall::GpioOutputSet { led: LED_GPIO, value: blink_level(s.toggles) },
        ),
        BlinkStage::Hold => Some(HalCall::Delay { milliseconds: BLINK_DELAY_MS }),
        BlinkStage::Finished => None,
    }
}

/// The state after a level has been kept: the next toggle, or the end.
pub open spec fn blink_after_sleep(s: BlinkState) -> BlinkState {
    if s.toggles + 1 < BLINK_TOGGLES {
        BlinkState { stage: BlinkStage::Level, toggles: (s.toggles + 1) as u8 }
    } else {
        BlinkState { stage: BlinkStage::Finished, toggles: BLINK_TOGGLES }
    }
}

/// What the blinking makes of a reply: the state it goes on in, or the
/// failure that ends it.
pub open spec fn blink_step(s: BlinkState, reply: HalReply) -> Result<BlinkState, Fatal> {
    match (s.stage, reply) {
        (BlinkStage::Enable, HalReply::Status(code)) => if code == 0 {
            Ok(BlinkState { stage: BlinkStage::Level, ..s })
        } else {
            Err(Fatal::GpioEnableOutput)
        },
        (BlinkStage::Level, HalReply::Status(code)) => if code == 0 {
            Ok(BlinkState { stage: BlinkStage::Hold, ..s })
        } else {
            Err(Fatal::GpioOutput)
        },
        (BlinkStage::Hold, HalReply::Done) => Ok(blink_after_sleep(s)),
        _ => Err(Fatal::UnexpectedReply),
    }
}

/// The blinking under way.
#[derive(Debug)]
pub struct Blinker {
    state: BlinkState,
}

/// Starts to blink the LED.
pub fn blink() -> (blinker: Blinker)
    ensures
        blinker.model() == blink_start(),
{
    Blinker { state: BlinkState { stage: BlinkStage::Enable, toggles: 0 } }
}

impl Blinker {
    #[verifier::type_invariant]
    spec fn well_formed(self) -> bool {
        self.state.toggles <= BLINK_TOGGLES
    }

    /// How far the blinking has come.
    pub fn state(&self) -> (s: BlinkState)
        ensures
            s == self.model(),
            s.toggles <= BLINK_TOGGLES,
    {
        proof {
            use_type_invariant(self);
        }
        self.state
    }
}

impl Machine for Blinker {
    type State = BlinkState;

    closed spec fn model(&self) -> BlinkState {
        self.state
    }

    open spec fn call_in(state: BlinkState) -> Option<HalCall> {
        blink_call(state)
    }

    open spec fn step(state: BlinkState, reply: HalReply) -> Result<BlinkState, Fatal> {
        blink_step(state, reply)
    }

    fn pending(&self) -> (call: Option<HalCall>) {
        match self.state.stage {
            BlinkStage::Enable => Some(
                HalCall::GpioEnableOutput { led: LED_GPIO, pullup: 0, pulldown: 0 },
            ),
            BlinkStage::Level => Some(
                HalCall::GpioOutputSet { led: LED_GPIO, value: self.state.toggles % 2 },
            ),
            BlinkStage::Hold => Some(HalCall::Delay { milliseconds: BLINK_DELAY_MS }),
            BlinkStage::Finished => None,
        }
    }

    fn reply(self, reply: &HalReply) -> (r: Result<Blinker, Fatal>) {
        proof {
            use_type_invariant(&self);
        }
        let s = self.state;
        match (s.stage, reply) {
            (BlinkStage::Enable, HalReply::Status(code)) => if *code == 0 {
                Ok(Blinker { state: BlinkState { stage: BlinkStage::Level, ..s } })
            } else {
                Err(Fatal::GpioEnableOutput)
            },
            (BlinkStage::Level, HalReply::Status(code)) => if *code == 0 {
                Ok(Blinker { state: BlinkState { stage: BlinkStage::Hold, ..s } })
            } else {
                Err(Fatal::GpioOutput)
            },
            (BlinkStage::Hold, HalReply::Done) => if s.toggles < BLINK_TOGGLES - 1 {
                Ok(
                    Blinker {
                        state: BlinkState { stage: BlinkStage::Level, toggles: s.toggles + 1 },
                    },
                )
            } else {
                Ok(
                    Blinker {
                        state: BlinkState { stage: BlinkStage::Finished, toggles: BLINK_TOGGLES },
                    },
                )
            },
            _ => Err(Fatal::UnexpectedReply),
        }
    }
}

/// The replies of a hardware abstraction layer on which every call of the
/// blinking succeeds.
pub open spec fn blink_replies() -> Seq<HalReply> {
    Seq::new(
        1 + 2 * BLINK_TOGGLES as nat,
        |i: int|
            if i == 0 || i % 2 == 1 {
                HalReply::Status(0)
            } else {
                HalReply::Done
            },
    )
}

/// The calls of the blinking where every one succeeds: the pin is switched
/// to output once; then, ten times, the level is set and kept, low first
/// and high and low in turn after that.
pub open spec fn blink_plan() -> Seq<HalCall> {
    Seq::new(
        1 + 2 * BLINK_TOGGLES as nat,
        |i: int|
            if i == 0 {
                HalCall::GpioEnableOutput { led: LED_GPIO, pullup: 0, pulldown: 0 }
            } else if i % 2 == 1 {
                HalCall::GpioOutputSet { led: LED_GPIO, value: (((i - 1) / 2) % 2) as u8 }
            } else {
                HalCall::Delay { milliseconds: BLINK_DELAY_MS }
            },
    )
}

/// Where every call succeeds, the blinking ends after ten toggles, and the
/// calls it has made are those of [`blink_plan`].
pub proof fn lemma_blink_completes()
    ensures
        run_from::<Blinker>(blink_start(), blink_replies(), 0) == Ok::<BlinkState, Fatal>(
            BlinkState { stage: BlinkStage::Finished, toggles: BLINK_TOGGLES },
        ),
        calls_from::<Blinker>(blink_start(), blink_replies(), 0) == blink_plan(),
{
    lemma_blink_from(0);
    reveal_with_fuel(run_from, 2);
    reveal_with_fuel(calls_from, 2);
    let first = BlinkState { stage: BlinkStage::Level, toggles: 0 };
    assert(blink_step(blink_start(), blink_replies()[0]) == Ok::<BlinkState, Fatal>(first));
    assert(calls_from::<Blinker>(blink_start(), blink_replies(), 0) =~= blink_plan());
}

proof fn lemma_blink_from(toggles: u8)
    requires
        toggles < BLINK_TOGGLES,
    ensures
        run_from::<Blinker>(
            BlinkState { stage: BlinkStage::Level, toggles },
            blink_replies(),
            1 + 2 * toggles,
        ) == Ok::<BlinkState, Fatal>(
            BlinkState { stage: BlinkStage::Finished, toggles: BLINK_TOGGLES },
        ),
        calls_from::<Blinker>(
            BlinkState { stage: BlinkStage::Level, toggles },
            blink_replies(),
            1 + 2 * toggles,
        ) == blink_plan().subrange(1 + 2 * toggles, 1 + 2 * BLINK_TOGGLES),
    decreases BLINK_TOGGLES - toggles,
{
    let replies = blink_replies();
    let at = 1 + 2 * toggles;
    let level = BlinkState { stage: BlinkStage::Level, toggles };
    let hold = BlinkState { stage: BlinkStage::Hold, toggles };
    let after = blink_after_sleep(hold);
    reveal_with_fuel(run_from, 3);
    reveal_with_fuel(calls_from, 3);
    assert(blink_step(level, replies[at]) == Ok::<BlinkState, Fatal>(hold));
    assert(blink_step(hold, replies[at + 1]) == Ok::<BlinkState, Fatal>(after));
    if toggles + 1 < BLINK_TOGGLES {
        lemma_blink_from((toggles + 1) as u8);
    }
    assert(calls_from::<Blinker>(level, replies, at) =~= blink_plan().subrange(
        at,
        1 + 2 * BLINK_TOGGLES,
    ));
}

} // verus!
