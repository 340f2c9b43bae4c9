//! The execution supervisor: the engine's lifecycle, the watchdog's decision,
//! and the synthesis of function calls.
use vstd::prelude::*;
use crate::conversion::{
    convert_py_value_to_json, convert_v8_value_to_py_value, convertible, converts_to,
    serializable, wire_of,
};
use crate::value::{GuestValue, HostValue, RuntimeError, WireValue};

verus! {

/// Whether the supervisor holds a live engine.
#[derive(PartialEq, Eq, Structural, Clone, Copy, Debug)]
pub enum EngineState {
    /// No engine: the next evaluation creates one and replays the preload script.
    Uninitialized,
    /// A live engine on which the preload script, if any, has run.
    Ready,
}

/// What the watchdog's timed wait on the cancellation channel returned.
#[derive(PartialEq, Eq, Structural, Clone, Copy, Debug)]
pub enum WaitOutcome {
    /// The evaluating thread signalled completion.
    Signalled,
    /// The deadline passed first.
    TimedOut,
    /// The sending side went away without a signal.
    Disconnected,
}

/// The watchdog terminates the guest exactly when its wait timed out.
pub fn watchdog_should_terminate(outcome: WaitOutcome) -> (r: bool)
    ensures
        r == (outcome == WaitOutcome::TimedOut),
{
    match outcome {
        WaitOutcome::TimedOut => true,
        _ => false,
    }
}

/// Whether an evaluation runs under a watchdog: a timeout of zero means no bound.
pub fn needs_watchdog(timeout_ms: u64) -> (r: bool)
    ensures
        r == (timeout_ms > 0),
{
    timeout_ms > 0
}

/// The state after an evaluation on a live engine: only a bounded evaluation
/// whose watchdog fired discards the engine.
pub open spec fn state_after_eval(timeout_ms: u64, timed_out: bool) -> EngineState {
    if timeout_ms > 0 && timed_out {
        EngineState::Uninitialized
    } else {
        EngineState::Ready
    }
}

/// What an evaluation reports, given what the run returned and whether the
/// watchdog fired.
pub open spec fn eval_result(
    timeout_ms: u64,
    result: Result<HostValue, RuntimeError>,
    timed_out: bool,
) -> Result<HostValue, RuntimeError> {
    if timeout_ms > 0 && timed_out {
        Err(RuntimeError::Timeout)
    } else {
        result
    }
}

/// The state after initialization: ready exactly when the preload script, if
/// any, ran without error.
pub open spec fn state_after_init(preload_result: Result<HostValue, RuntimeError>) -> EngineState {
    if preload_result is Ok {
        EngineState::Ready
    } else {
        EngineState::Uninitialized
    }
}

/// Turns what the engine returned for a run into the host result: a diagnostic
/// becomes `GuestExecution`, a value is converted to a host value.
pub fn complete_run(outcome: Result<GuestValue, String>) -> (r: Result<HostValue, RuntimeError>)
    ensures
        outcome matches Err(d) ==> r matches Err(RuntimeError::GuestExecution(m)) && m@ == d@,
        outcome matches Ok(g) ==> (r is Ok <==> convertible(g)),
        outcome matches Ok(g) ==> (r matches Ok(h) ==> converts_to(g, h)),
        outcome matches Ok(g) ==> (r matches Err(e) ==> e is Conversion),
{
    match outcome {
        Err(diagnostic) => Err(RuntimeError::GuestExecution(diagnostic)),
        Ok(value) => convert_v8_value_to_py_value(&value),
    }
}

/// The supervisor of one guest engine: its preload script and whether the
/// engine is live.
pub struct DenoRuntime {
    preload_script: Option<String>,
    state: EngineState,
}

impl DenoRuntime {
    pub closed spec fn preload(&self) -> Option<Seq<char>> {
        match self.preload_script {
            Some(s) => Some(s@),
            None => None,
        }
    }

    pub closed spec fn engine_state(&self) -> EngineState {
        self.state
    }

    /// A supervisor with no engine yet.
    pub fn new(preload_script: Option<String>) -> (r: Self)
        ensures
            r.engine_state() == EngineState::Uninitialized,
            r.preload() == (match preload_script {
                Some(s) => Some(s@),
                None => None,
            }),
    {
        DenoRuntime { preload_script, state: EngineState::Uninitialized }
    }

    /// Whether the next evaluation must first create an engine and replay the
    /// preload script.
    pub fn needs_init(&self) -> (r: bool)
        ensures
            r == (self.engine_state() == EngineState::Uninitialized),
    {
        match self.state {
            EngineState::Uninitialized => true,
            EngineState::Ready => false,
        }
    }

    /// The script to run on each freshly created engine.
    pub fn preload_script(&self) -> (r: &Option<String>)
        ensures
            self.preload() == (match *r {
                Some(s) => Some(s@),
                None => None,
            }),
    {
        &self.preload_script
    }

    /// Records the outcome of creating an engine and running the preload script
    /// on it (with no time bound). A preload failure leaves no engine and is
    /// passed on.
    pub fn finish_init(&mut self, preload_result: Result<HostValue, RuntimeError>) -> (r: Result<
        (),
        RuntimeError,
    >)
        requires
            old(self).engine_state() == EngineState::Uninitialized,
        ensures
            final(self).engine_state() == state_after_init(preload_result),
            final(self).preload() == old(self).preload(),
            preload_result is Ok ==> r is Ok,
            preload_result matches Err(e) ==> r == Err::<(), RuntimeError>(e),
    {
        match preload_result {
            Ok(_) => {
                self.state = EngineState::Ready;
                Ok(())
            },
            Err(e) => Err(e),
        }
    }

    /// Records the end of an evaluation on the live engine. With a time bound
    /// (`timeout_ms > 0`) and a watchdog that fired, the engine is discarded and
    /// the evaluation fails with `Timeout`, whatever the run returned; otherwise
    /// the engine stays and the run's own result is reported.
    pub fn finish_eval(
        &mut self,
        timeout_ms: u64,
        result: Result<HostValue, RuntimeError>,
        timed_out: bool,
    ) -> (r: Result<HostValue, RuntimeError>)
        requires
            old(self).engine_state() == EngineState::Ready,
        ensures
            final(self).engine_state() == state_after_eval(timeout_ms, timed_out),
            final(self).preload() == old(self).preload(),
            r == eval_result(timeout_ms, result, timed_out),
    {
        if timeout_ms > 0 && timed_out {
            self.state = EngineState::Uninitialized;
            Err(RuntimeError::Timeout)
        } else {
            result
        }
    }
}

/// Serializes call arguments, in order, to JSON values; fails with
/// `Serialization` as soon as one has no JSON counterpart.
pub fn serialize_call_args(args: &Vec<HostValue>) -> (r: Result<Vec<WireValue>, RuntimeError>)
    ensures
        r is Ok <==> forall|i: int| 0 <= i < args.len() ==> serializable(#[trigger] args[i]),
        r matches Ok(ws) ==> ws.len() == args.len() && forall|i: int|
            0 <= i < args.len() ==> wire_of(args[i], #[trigger] ws[i]),
        r matches Err(e) ==> e is Serialization,
{
    let mut ws: Vec<WireValue> = Vec::new();
    let mut index: usize = 0;
    while index < args.len()
        invariant
            index <= args.len(),
            ws.len() == index,
            forall|i: int| 0 <= i < index ==> wire_of(args[i], #[trigger] ws[i]),
            forall|i: int| 0 <= i < index ==> serializable(#[trigger] args[i]),
        decreases args.len() - index,
    {
        match convert_py_value_to_json(&args[index]) {
            Ok(w) => ws.push(w),
            Err(e) => return Err(e),
        }
        index = index + 1;
    }
    Ok(ws)
}

/// The text of the expression that calls `function_name` with the serialized
/// argument array: `<function_name>.apply(this, <serialized_args>)`. The name is
/// inserted as it is.
pub open spec fn call_code(function_name: Seq<char>, serialized_args: Seq<char>) -> Seq<char> {
    function_name + ".apply(this, "@ + serialized_args + ")"@
}

/// Builds the expression that calls `function_name` with the serialized
/// argument array.
pub fn call_expression(function_name: &str, serialized_args: &str) -> (r: String)
    ensures
        r@ == call_code(function_name@, serialized_args@),
{
    let mut code = String::from_str(function_name);
    code.append(".apply(this, ");
    code.append(serialized_args);
    code.append(")");
    code
}

/// A bounded evaluation whose watchdog fired fails with `Timeout` and discards
/// the engine, whatever the run returned; the next evaluation reinitializes,
/// and once the preload script has run again, evaluations that are not cut
/// short report their own results on a live engine.
pub proof fn lemma_timeout_then_recovery(
    timeout_ms: u64,
    run: Result<HostValue, RuntimeError>,
    preload_result: Result<HostValue, RuntimeError>,
    next_timeout_ms: u64,
    next: Result<HostValue, RuntimeError>,
    next_timed_out: bool,
)
    requires
        timeout_ms > 0,
        preload_result is Ok,
        next_timeout_ms == 0 || !next_timed_out,
    ensures
        eval_result(timeout_ms, run, true) == Err::<HostValue, RuntimeError>(RuntimeError::Timeout),
        state_after_eval(timeout_ms, true) == EngineState::Uninitialized,
        state_after_init(preload_result) == EngineState::Ready,
        eval_result(next_timeout_ms, next, next_timed_out) == next,
        state_after_eval(next_timeout_ms, next_timed_out) == EngineState::Ready,
{
}

} // verus!
