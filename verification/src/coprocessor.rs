//! Decisions of the driver co-processor, which serves radio tasks (transmit
//! a frame, receive a frame) that the MAC sends it one at a time.

use vstd::prelude::*;

verus! {

/// Errors of a transmission task.
#[derive(Debug, PartialEq, Eq, Clone, Copy)]
pub enum TxError {
    /// Ack failed, after too many retransmissions.
    AckFailed,
    /// The buffer did not follow the correct device structure.
    InvalidDeviceStructure,
    /// Something went wrong in the radio.
    RadioError,
}

/// Errors of a reception task.
#[derive(Debug, PartialEq, Eq, Clone, Copy)]
pub enum RxError {
    /// Rx was cancelled by another incoming radio task.
    Cancelled,
}

/// A radio task.
#[derive(Debug, PartialEq, Eq, Clone, Copy)]
pub enum RadioTaskKind {
    Tx,
    Rx,
}

/// What the co-processor is doing.
#[derive(Debug, PartialEq, Eq, Clone, Copy)]
pub enum CoprocessorState {
    /// Waiting for the next radio task.
    AwaitingRequest,
    /// Transmitting a frame; transmission cannot be cancelled.
    Transmitting,
    /// Receiving a frame, while also waiting for the next radio task.
    Receiving,
}

/// What happens to the co-processor.
#[derive(Debug, PartialEq, Eq, Clone, Copy)]
pub enum CoprocessorEvent {
    /// A radio task arrived.
    Request(RadioTaskKind),
    /// The transmission completed, successfully or not.
    TxDone { success: bool },
    /// A frame was received.
    RxDone,
}

/// The response to a radio task.
#[derive(Debug, PartialEq, Eq, Clone, Copy)]
pub enum RadioTaskResponse {
    /// Transmission result; the frame is returned either way.
    Tx(Result<(), TxError>),
    /// Reception result: a frame, or the empty frame returned on error.
    Rx(Result<(), RxError>),
}

/// What the co-processor does in response to an event.
#[derive(Debug, PartialEq, Eq, Clone, Copy)]
pub struct CoprocessorAction {
    /// The response to send to the task that finished, if any.
    pub respond: Option<RadioTaskResponse>,
    /// The radio task to start, if any.
    pub start: Option<RadioTaskKind>,
}

/// Whether the event can happen in the state: tasks arrive while waiting or
/// receiving; a transmission completes while transmitting; a frame arrives
/// while receiving.
pub open spec fn event_possible(state: CoprocessorState, event: CoprocessorEvent) -> bool {
    match event {
        CoprocessorEvent::Request(_) => state != CoprocessorState::Transmitting,
        CoprocessorEvent::TxDone { .. } => state == CoprocessorState::Transmitting,
        CoprocessorEvent::RxDone => state == CoprocessorState::Receiving,
    }
}

/// The state in which a task runs.
pub open spec fn running(task: RadioTaskKind) -> CoprocessorState {
    match task {
        RadioTaskKind::Tx => CoprocessorState::Transmitting,
        RadioTaskKind::Rx => CoprocessorState::Receiving,
    }
}

/// The next state and the action of one step of the co-processor.
pub open spec fn step_spec(state: CoprocessorState, event: CoprocessorEvent) -> (
    CoprocessorState,
    CoprocessorAction,
) {
    match event {
        CoprocessorEvent::Request(task) => (
            running(task),
            CoprocessorAction {
                respond: if state == CoprocessorState::Receiving {
                    Some(RadioTaskResponse::Rx(Err(RxError::Cancelled)))
                } else {
                    None
                },
                start: Some(task),
            },
        ),
        CoprocessorEvent::TxDone { success } => (
            CoprocessorState::AwaitingRequest,
            CoprocessorAction {
                respond: Some(
                    RadioTaskResponse::Tx(
                        if success {
                            Ok(())
                        } else {
                            Err(TxError::RadioError)
                        },
                    ),
                ),
                start: None,
            },
        ),
        CoprocessorEvent::RxDone => (
            CoprocessorState::AwaitingRequest,
            CoprocessorAction { respond: Some(RadioTaskResponse::Rx(Ok(()))), start: None },
        ),
    }
}

/// One step of the co-processor's event loop.
///
/// A task that arrives while waiting starts. A transmission that completes
/// is answered with success or a radio error. A received frame is answered
/// with the frame. A task that arrives while receiving cancels the
/// reception, which is answered as cancelled, and starts.
pub fn coprocessor_step(state: CoprocessorState, event: CoprocessorEvent) -> (r: (
    CoprocessorState,
    CoprocessorAction,
))
    requires
        event_possible(state, event),
    ensures
        r == step_spec(state, event),
        event matches CoprocessorEvent::TxDone { success } ==> (r.1.respond matches Some(
            RadioTaskResponse::Tx(result),
        ) && (result is Ok <==> success)),
{
    match event {
        CoprocessorEvent::Request(task) => {
            let respond = match state {
                CoprocessorState::Receiving => Some(RadioTaskResponse::Rx(Err(RxError::Cancelled))),
                _ => None,
            };
            let next = match task {
                RadioTaskKind::Tx => CoprocessorState::Transmitting,
                RadioTaskKind::Rx => CoprocessorState::Receiving,
            };
            (next, CoprocessorAction { respond, start: Some(task) })
        },
        CoprocessorEvent::TxDone { success } => {
            let result = if success {
                Ok(())
            } else {
                Err(TxError::RadioError)
            };
            (
                CoprocessorState::AwaitingRequest,
                CoprocessorAction { respond: Some(RadioTaskResponse::Tx(result)), start: None },
            )
        },
        CoprocessorEvent::RxDone => (
            CoprocessorState::AwaitingRequest,
            CoprocessorAction { respond: Some(RadioTaskResponse::Rx(Ok(()))), start: None },
        ),
    }
}

/// Every task that starts is answered exactly once: a step answers at most
/// one task, and it answers only when a running task ends (a transmission
/// completes, a reception completes or is cancelled); every step that starts
/// a task leaves the co-processor running it.
pub proof fn law_each_task_answered(state: CoprocessorState, event: CoprocessorEvent)
    requires
        event_possible(state, event),
    ensures
        ({
            let (next, action) = step_spec(state, event);
            &&& (action.respond is Some <==> state != CoprocessorState::AwaitingRequest)
            &&& (action.start matches Some(t) ==> next == running(t))
            &&& (action.start is None ==> next == CoprocessorState::AwaitingRequest)
        }),
{
}

/// A completed transmission is answered exactly once, with success where
/// it succeeded and with an error where it failed; the co-processor then
/// waits for the next task.
pub proof fn law_tx_result(success: bool)
    ensures
        ({
            let (next, action) = step_spec(
                CoprocessorState::Transmitting,
                CoprocessorEvent::TxDone { success },
            );
            &&& next == CoprocessorState::AwaitingRequest
            &&& action.start is None
            &&& action.respond matches Some(RadioTaskResponse::Tx(result))
            &&& result is Ok <==> success
            &&& !success ==> result == Err::<(), TxError>(TxError::RadioError)
        }),
{
}

/// A task that arrives while receiving cancels the reception, which is
/// answered as cancelled, and starts; one that arrives while waiting starts
/// with nothing to answer; a received frame is answered with success.
pub proof fn law_rx_answers(task: RadioTaskKind)
    ensures
        ({
            let (next, action) = step_spec(
                CoprocessorState::Receiving,
                CoprocessorEvent::Request(task),
            );
            &&& action.respond == Some(RadioTaskResponse::Rx(Err(RxError::Cancelled)))
            &&& action.start == Some(task)
            &&& next != CoprocessorState::AwaitingRequest
        }),
        ({
            let (next, action) = step_spec(
                CoprocessorState::AwaitingRequest,
                CoprocessorEvent::Request(task),
            );
            &&& action.respond is None
            &&& action.start == Some(task)
            &&& (task == RadioTaskKind::Tx <==> next == CoprocessorState::Transmitting)
        }),
        ({
            let (next, action) = step_spec(CoprocessorState::Receiving, CoprocessorEvent::RxDone);
            &&& action.respond == Some(RadioTaskResponse::Rx(Ok(())))
            &&& action.start is None
            &&& next == CoprocessorState::AwaitingRequest
        }),
{
}

} // verus!
