use vstd::prelude::*;
use crate::manager::{InstanceManager, VerifyError, WsFuncError};
use crate::proto::{AppStarted, FnTaskId, FuncCallReq, FuncCallResp, KvResponse};

verus! {

/// Seconds that an outbound function call waits for its answer.
pub const CALL_TIMEOUT_SECS: u64 = 120;

/// Message-type id of a checkpoint notice.
pub const MSG_UPDATE_CHECKPOINT: u8 = 4;

/// Message-type id of a key-value request.
pub const MSG_KV_REQUEST: u8 = 5;

/// What the connection's reader does with one inbound message after
/// verification. No outcome closes the connection.
#[derive(Clone, Debug)]
pub enum RemoteCall {
    /// A checkpoint notice, acknowledged and otherwise ignored.
    CheckpointIgnored,
    /// A key-value request, to be run for the task `taskid` of the process
    /// behind `conn`, whose answer goes back tagged with `taskid`.
    ForwardKv { conn: String, taskid: u64 },
    /// A payload that did not decode as its id says; it is logged and dropped.
    DecodeFailed(u8),
    /// An id that no handler is registered for.
    Unsupported(u8),
}

impl RemoteCall {
    /// Whether a handler took the message.
    pub fn handled(&self) -> (r: bool)
        ensures
            r == !(self is Unsupported),
    {
        match self {
            RemoteCall::Unsupported(_) => false,
            _ => true,
        }
    }
}

/// An outbound function call, ready for the transport.
#[derive(Clone, Debug)]
pub struct FuncCall {
    pub req: FuncCallReq,
    /// Routing key of the process that is called: its app id.
    pub dest: String,
    pub timeout_secs: u64,
}

/// The protocol run with external processes: it verifies each connection
/// and keeps the routing keys of those that verified.
pub struct ProcessRpc {
    verified_conns: Vec<String>,
}

impl ProcessRpc {
    /// Routing keys of the verified connections, in the order they verified.
    pub closed spec fn conns(&self) -> Seq<Seq<char>> {
        self.verified_conns@.map_values(|c: String| c@)
    }

    pub fn new() -> (r: Self)
        ensures
            r.conns().len() == 0,
    {
        let r = ProcessRpc { verified_conns: Vec::new() };
        assert(r.conns().len() == 0);
        r
    }

    pub fn conn_count(&self) -> (r: usize)
        ensures
            r == self.conns().len(),
    {
        self.verified_conns.len()
    }

    /// Runs the handshake on the first message of a connection, decoded by
    /// the caller (`None`: it did not decode). On success the app id is the
    /// connection's routing key from then on.
    pub fn verify(&mut self, manager: &mut InstanceManager, decoded: Option<AppStarted>) -> (r: Result<
        String,
        VerifyError,
    >)
        requires
            old(manager).wf(),
        ensures
            final(manager).wf(),
            decoded is None ==> r == Err::<String, VerifyError>(VerifyError::Decode) && *final(manager)
                == *old(manager) && final(self).conns() == old(self).conns(),
            decoded is Some ==> exists|vr: Result<(), VerifyError>|
                #[trigger] InstanceManager::verify_post(*old(manager), *final(manager), decoded->0, vr)
                    && match vr {
                    Ok(_) => r is Ok && r->Ok_0@ == decoded->0.appid@ && final(self).conns()
                        == old(self).conns().push(decoded->0.appid@),
                    Err(e) => r == Err::<String, VerifyError>(e) && final(self).conns()
                        == old(self).conns(),
                },
    {
        match decoded {
            None => Err(VerifyError::Decode),
            Some(record) => {
                let appid = record.appid.clone();
                let vr = manager.verify_app(record);
                match vr {
                    Ok(()) => {
                        let ghost before = self.conns();
                        self.verified_conns.push(appid.clone());
                        assert(self.conns() =~= before.push(appid@));
                        Ok(appid)
                    },
                    Err(e) => Err(e),
                }
            },
        }
    }

    /// Dispatches one inbound message of a verified connection by its id.
    /// `decoded` tells whether its payload decoded as the id says.
    pub fn handle_remote_call(&self, conn: &str, msgid: u8, taskid: u64, decoded: bool) -> (r:
        RemoteCall)
        ensures
            msgid == MSG_UPDATE_CHECKPOINT && decoded ==> r == RemoteCall::CheckpointIgnored,
            msgid == MSG_KV_REQUEST && decoded ==> r is ForwardKv && r->conn@ == conn@ && r->taskid
                == taskid,
            (msgid == MSG_UPDATE_CHECKPOINT || msgid == MSG_KV_REQUEST) && !decoded ==> r
                == RemoteCall::DecodeFailed(msgid),
            msgid != MSG_UPDATE_CHECKPOINT && msgid != MSG_KV_REQUEST ==> r == RemoteCall::Unsupported(
                msgid,
            ),
    {
        if msgid == MSG_UPDATE_CHECKPOINT {
            if decoded {
                RemoteCall::CheckpointIgnored
            } else {
                RemoteCall::DecodeFailed(msgid)
            }
        } else if msgid == MSG_KV_REQUEST {
            if decoded {
                RemoteCall::ForwardKv { conn: conn.to_owned(), taskid }
            } else {
                RemoteCall::DecodeFailed(msgid)
            }
        } else {
            RemoteCall::Unsupported(msgid)
        }
    }
}

/// The reply to a forwarded key-value request, given what the key-value
/// client returned: the one result, tagged with the request's correlation
/// id. A failure, or any other number of results, gets no reply.
pub fn kv_reply(taskid: u64, outcome: Result<Vec<KvResponse>, String>) -> (r: Option<(u64, KvResponse)>)
    ensures
        outcome is Err ==> r is None,
        outcome is Ok && outcome->Ok_0@.len() != 1 ==> r is None,
        outcome is Ok && outcome->Ok_0@.len() == 1 ==> r == Some((taskid, outcome->Ok_0@[0])),
{
    match outcome {
        Ok(mut responses) => {
            if responses.len() == 1 {
                match responses.pop() {
                    Some(resp) => Some((taskid, resp)),
                    None => None,
                }
            } else {
                None
            }
        },
        Err(_) => None,
    }
}

/// Builds the call of `func` with `arg` in the process of `app`, on behalf of
/// the task `srcfnid`, with the fixed deadline.
pub fn call_func(srcfnid: FnTaskId, app: &str, func: &str, arg: String) -> (r: FuncCall)
    ensures
        r.req.src_task_id == Some(srcfnid),
        r.req.func@ == func@,
        r.req.arg_str@ == arg@,
        r.dest@ == app@,
        r.timeout_secs == CALL_TIMEOUT_SECS,
{
    FuncCall {
        req: FuncCallReq { src_task_id: Some(srcfnid), func: func.to_owned(), arg_str: arg },
        dest: app.to_owned(),
        timeout_secs: CALL_TIMEOUT_SECS,
    }
}

/// What the caller of a function call observes, given the correlated answer
/// if one came before the deadline.
pub fn call_outcome(answer: Option<FuncCallResp>) -> (r: Result<FuncCallResp, WsFuncError>)
    ensures
        answer is Some ==> r == Ok::<FuncCallResp, WsFuncError>(answer->0),
        answer is None ==> r == Err::<FuncCallResp, WsFuncError>(WsFuncError::Timeout),
{
    match answer {
        Some(resp) => Ok(resp),
        None => Err(WsFuncError::Timeout),
    }
}

} // verus!
