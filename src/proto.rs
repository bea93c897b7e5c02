use vstd::prelude::*;

verus! {

/// Identifies the task on whose behalf a process sends a request.
#[derive(PartialEq, Eq, Structural, Clone, Copy, Debug)]
pub struct FnTaskId {
    pub call_node_id: u32,
    pub task_id: u32,
}

/// Sent by a process at startup to verify itself.
#[derive(Clone, Debug)]
pub struct AppStarted {
    pub appid: String,
    pub http_port: Option<u32>,
}

/// A function call from the host to a process.
#[derive(Clone, Debug)]
pub struct FuncCallReq {
    pub src_task_id: Option<FnTaskId>,
    pub func: String,
    pub arg_str: String,
}

/// The answer to a `FuncCallReq`.
#[derive(Clone, Debug)]
pub struct FuncCallResp {
    pub ret_str: String,
}

/// A checkpoint notice from a process.
#[derive(Clone, Debug)]
pub struct UpdateCheckpoint {}

/// Key-value operations asked for by a process, each one still encoded.
#[derive(Clone, Debug)]
pub struct KvRequest {
    pub fn_taskid: FnTaskId,
    pub requests: Vec<Vec<u8>>,
}

/// The encoded result of a key-value operation.
#[derive(Clone, Debug)]
pub struct KvResponse {
    pub response: Vec<u8>,
}

/// The message-type id that both ends of a connection put on a message.
pub trait MsgIdBind {
    spec fn spec_id() -> u16;

    fn id() -> (r: u16)
        ensures
            r == Self::spec_id(),
    ;
}

impl MsgIdBind for AppStarted {
    open spec fn spec_id() -> u16 {
        1
    }

    fn id() -> (r: u16) {
        1
    }
}

impl MsgIdBind for FuncCallReq {
    open spec fn spec_id() -> u16 {
        2
    }

    fn id() -> (r: u16) {
        2
    }
}

impl MsgIdBind for FuncCallResp {
    open spec fn spec_id() -> u16 {
        3
    }

    fn id() -> (r: u16) {
        3
    }
}

impl MsgIdBind for UpdateCheckpoint {
    open spec fn spec_id() -> u16 {
        4
    }

    fn id() -> (r: u16) {
        4
    }
}

impl MsgIdBind for KvRequest {
    open spec fn spec_id() -> u16 {
        5
    }

    fn id() -> (r: u16) {
        5
    }
}

impl MsgIdBind for KvResponse {
    open spec fn spec_id() -> u16 {
        6
    }

    fn id() -> (r: u16) {
        6
    }
}

} // verus!
