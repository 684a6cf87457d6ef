use std::time::Duration;
use vstd::prelude::*;

use crate::operations::CollectionMetaOperation;
use crate::requests::IntoMetaOperation;
use crate::status::{error_to_status, status_of, Code, Status, StorageError};
use crate::timeout::{timeout_duration, WithTimeout};

verus! {

/// What is handed to the coordinator for one mutating request.
#[derive(Debug)]
pub struct Submission {
    pub operation: CollectionMetaOperation,
    pub wait_timeout: Option<Duration>,
}

/// Outcome of a mutating request, with the time the coordinator took.
#[derive(Debug)]
pub struct CollectionOperationResponse {
    pub result: bool,
    pub time: Duration,
}

/// First half of a mutating call: reads the request's wait timeout and converts
/// it into an internal operation. A request that does not convert yields an
/// invalid-argument status and no submission, so the coordinator is never
/// reached for it.
pub fn prepare_operation<O: WithTimeout + IntoMetaOperation>(request: O) -> (r: Result<
    Submission,
    Status,
>)
    ensures
        match request.spec_operation() {
            Ok(model) => r is Ok && r->Ok_0.operation@ == model && r->Ok_0.wait_timeout
                == timeout_duration(request.timeout_secs()),
            Err(e) => r is Err && r->Err_0.code == Code::InvalidArgument && r->Err_0.message@
                == e.spec_message(),
        },
{
    let wait_timeout = request.wait_timeout();
    match request.into_operation() {
        Ok(operation) => Ok(Submission { operation, wait_timeout }),
        Err(e) => Err(e.to_status()),
    }
}

/// Second half of a mutating call: wraps the coordinator's outcome with the time
/// it took, or classifies its failure.
pub fn operation_response(elapsed: Duration, outcome: Result<bool, StorageError>) -> (r: Result<
    CollectionOperationResponse,
    Status,
>)
    ensures
        match outcome {
            Ok(result) => r == Ok::<CollectionOperationResponse, Status>(
                CollectionOperationResponse { result, time: elapsed },
            ),
            Err(e) => r == Err::<CollectionOperationResponse, Status>(status_of(e)),
        },
{
    match outcome {
        Ok(result) => Ok(CollectionOperationResponse { result, time: elapsed }),
        Err(e) => Err(error_to_status(e)),
    }
}

} // verus!
