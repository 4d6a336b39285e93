//! The lifecycle command set: the fixed parameters of each runtime request
//! and the outcome of each command as a function of what the runtime
//! returned.
//!
//! The surrounding process issues the actual runtime calls; every decision —
//! which request to send, how to normalize a success, which error to report —
//! stands here, as a pure function of plain values.

use vstd::prelude::*;
use vstd::string::*;
use crate::error::{CommandError, ErrorSpec, prefixed};
use crate::payload::{Container, ContainerRecord, Image, ImageRecord, is_container_summary,
    is_image_summary, summarize_containers, summarize_images};

verus! {

/// The parameters of a list-containers request: stopped containers are
/// always included.
pub struct ListContainersRequest {
    pub all: bool,
}

/// The parameters of a list-images request: intermediate layers are always
/// included.
pub struct ListImagesRequest {
    pub all: bool,
}

/// The configuration of a create request: only the image reference; every
/// other setting is left to the runtime's defaults.
pub struct CreateRequest {
    pub image: String,
}

/// The parameters of a stop request: the target and the grace period, in
/// seconds, before the runtime terminates the container forcibly.
pub struct StopRequest {
    pub name: String,
    pub grace_seconds: i64,
}

/// The parameters of a kill request: the target and the signal delivered to
/// it at once. A kill carries no grace period at all.
pub struct KillRequest {
    pub name: String,
    pub signal: String,
}

/// The parameters of a remove-image request: the target and the forced flag.
pub struct RemoveImageRequest {
    pub image: String,
    pub force: bool,
}

/// The list-containers request: always every container, running or not.
pub fn list_containers_request() -> (r: ListContainersRequest)
    ensures
        r.all,
{
    ListContainersRequest { all: true }
}

/// The list-images request: always every image, intermediate layers too.
pub fn list_images_request() -> (r: ListImagesRequest)
    ensures
        r.all,
{
    ListImagesRequest { all: true }
}

/// The create request for the given image reference, with runtime defaults
/// for everything else.
pub fn create_request(image: String) -> (r: CreateRequest)
    ensures
        r.image == image,
{
    CreateRequest { image }
}

/// The stop request for the named container. The grace period is fixed at
/// ten seconds, whatever the target.
pub fn stop_request(name: String) -> (r: StopRequest)
    ensures
        r.name == name,
        r.grace_seconds == 10,
{
    StopRequest { name, grace_seconds: 10 }
}

/// The kill request for the named container: an immediate forced
/// termination, with no grace period, whatever the target.
pub fn kill_request(name: String) -> (r: KillRequest)
    ensures
        r.name == name,
        r.signal@ == "SIGKILL"@,
{
    KillRequest { name, signal: String::from_str("SIGKILL") }
}

/// The remove-image request for the given reference: removal is always
/// forced, whatever the target.
pub fn remove_image_request(image: String) -> (r: RemoveImageRequest)
    ensures
        r.image == image,
        r.force,
{
    RemoveImageRequest { image, force: true }
}

/// The message reported when the create phase fails with the given cause.
pub open spec fn create_failure_message(cause: Seq<char>) -> Seq<char> {
    "Failed to create container:"@ + cause
}

/// The message reported when the start phase fails with the given cause.
pub open spec fn start_failure_message(cause: Seq<char>) -> Seq<char> {
    "Failed to start container:"@ + cause
}

/// The message reported when stopping the named container fails with the
/// given cause.
pub open spec fn stop_failure_message(name: Seq<char>, cause: Seq<char>) -> Seq<char> {
    "Failed to stop container:"@ + name + " :"@ + cause
}

/// The message reported when killing the named container fails with the
/// given cause.
pub open spec fn kill_failure_message(name: Seq<char>, cause: Seq<char>) -> Seq<char> {
    "Failed to kill container:"@ + name + " :"@ + cause
}

/// The message reported when removing an image fails with the given cause.
pub open spec fn remove_failure_message(cause: Seq<char>) -> Seq<char> {
    "Failed to remove image:"@ + cause
}

/// The outcome of a list-containers command, given what the runtime's list
/// call returned: on success, every record normalized, in the runtime's
/// order; on failure, a runtime error carrying the cause verbatim.
pub fn list_containers_outcome(res: Result<Vec<ContainerRecord>, String>) -> (out: Result<
    Vec<Container>,
    CommandError,
>)
    ensures
        res matches Ok(recs) ==> out matches Ok(cs) && cs@.len() == recs@.len() && (forall|i: int|
            0 <= i < recs@.len() ==> is_container_summary(recs@[i], #[trigger] cs@[i])),
        res matches Err(c) ==> out matches Err(e) && e@ == ErrorSpec::Docker(c@),
{
    match res {
        Ok(recs) => Ok(summarize_containers(&recs)),
        Err(cause) => Err(CommandError::DockerError(cause)),
    }
}

/// The outcome of a list-images command, given what the runtime's list call
/// returned.
pub fn list_images_outcome(res: Result<Vec<ImageRecord>, String>) -> (out: Result<
    Vec<Image>,
    CommandError,
>)
    ensures
        res matches Ok(recs) ==> out matches Ok(ims) && ims@.len() == recs@.len() && (forall|i: int|
            0 <= i < recs@.len() ==> is_image_summary(recs@[i], #[trigger] ims@[i])),
        res matches Err(c) ==> out matches Err(e) && e@ == ErrorSpec::Docker(c@),
{
    match res {
        Ok(recs) => Ok(summarize_images(&recs)),
        Err(cause) => Err(CommandError::DockerError(cause)),
    }
}

/// Decides what follows the create phase: on success, the identifier the
/// runtime assigned, to be started next; on failure, the command's error,
/// naming the create phase. No start is issued after a failed create.
pub fn after_create(res: Result<String, String>) -> (step: Result<String, CommandError>)
    ensures
        res matches Ok(id) ==> step matches Ok(sid) && sid == id,
        res matches Err(c) ==> step matches Err(e) && e@ == ErrorSpec::Docker(
            create_failure_message(c@),
        ),
{
    match res {
        Ok(id) => Ok(id),
        Err(cause) => Err(
            CommandError::DockerError(prefixed("Failed to create container:", cause.as_str())),
        ),
    }
}

/// Decides the command's result from what the start phase returned: a
/// failure names the start phase.
pub fn after_start(res: Result<(), String>) -> (out: Result<(), CommandError>)
    ensures
        res is Ok ==> out is Ok,
        res matches Err(c) ==> out matches Err(e) && e@ == ErrorSpec::Docker(
            start_failure_message(c@),
        ),
{
    match res {
        Ok(()) => Ok(()),
        Err(cause) => Err(
            CommandError::DockerError(prefixed("Failed to start container:", cause.as_str())),
        ),
    }
}

/// The whole two-phase create-then-start decision, as a function of what
/// each phase returned. `start_res` is what the start phase returns once
/// issued; it is consulted only when the create phase succeeded, since no
/// start is issued otherwise. The command succeeds exactly when both phases
/// succeed; a create whose start failed is not compensated — the container
/// remains created, and the reported error names the start phase.
pub fn create_start_outcome(create_res: Result<String, String>, start_res: Result<(), String>) -> (out:
    Result<(), CommandError>)
    ensures
        out is Ok <==> (create_res is Ok && start_res is Ok),
        create_res matches Err(c) ==> out matches Err(e) && e@ == ErrorSpec::Docker(
            create_failure_message(c@),
        ),
        create_res is Ok ==> (start_res matches Err(c) ==> out matches Err(e) && e@
            == ErrorSpec::Docker(start_failure_message(c@))),
{
    match after_create(create_res) {
        Ok(_id) => after_start(start_res),
        Err(e) => Err(e),
    }
}

/// The outcome of a stop command, given what the runtime returned.
pub fn stop_outcome(name: &str, res: Result<(), String>) -> (out: Result<(), CommandError>)
    ensures
        res is Ok ==> out is Ok,
        res matches Err(c) ==> out matches Err(e) && e@ == ErrorSpec::Docker(
            stop_failure_message(name@, c@),
        ),
{
    match res {
        Ok(()) => Ok(()),
        Err(cause) => Err(
            CommandError::DockerError(
                String::from_str("Failed to stop container:").concat(name).concat(" :").concat(
                    cause.as_str(),
                ),
            ),
        ),
    }
}

/// The outcome of a kill command, given what the runtime returned.
pub fn kill_outcome(name: &str, res: Result<(), String>) -> (out: Result<(), CommandError>)
    ensures
        res is Ok ==> out is Ok,
        res matches Err(c) ==> out matches Err(e) && e@ == ErrorSpec::Docker(
            kill_failure_message(name@, c@),
        ),
{
    match res {
        Ok(()) => Ok(()),
        Err(cause) => Err(
            CommandError::DockerError(
                String::from_str("Failed to kill container:").concat(name).concat(" :").concat(
                    cause.as_str(),
                ),
            ),
        ),
    }
}

/// The outcome of a remove-image command, given what the runtime returned.
pub fn remove_image_outcome(res: Result<(), String>) -> (out: Result<(), CommandError>)
    ensures
        res is Ok ==> out is Ok,
        res matches Err(c) ==> out matches Err(e) && e@ == ErrorSpec::Docker(
            remove_failure_message(c@),
        ),
{
    match res {
        Ok(()) => Ok(()),
        Err(cause) => Err(
            CommandError::DockerError(prefixed("Failed to remove image:", cause.as_str())),
        ),
    }
}

} // verus!
