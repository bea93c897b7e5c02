use serverless_host::instance::AppType;
use serverless_host::manager::{InstanceManager, VerifyError, WsFuncError};
use serverless_host::master::{AppMeta, MasterAppMgmt};
use serverless_host::proto::{
    AppStarted, FnTaskId, FuncCallReq, FuncCallResp, KvRequest, KvResponse, MsgIdBind, UpdateCheckpoint,
};
use serverless_host::rpc::{call_func, call_outcome, kv_reply, ProcessRpc, RemoteCall, CALL_TIMEOUT_SECS};

#[test]
fn message_ids_fixed() {
    assert_eq!(AppStarted::id(), 1);
    assert_eq!(FuncCallReq::id(), 2);
    assert_eq!(FuncCallResp::id(), 3);
    assert_eq!(UpdateCheckpoint::id(), 4);
    assert_eq!(KvRequest::id(), 5);
    assert_eq!(KvResponse::id(), 6);
}

#[test]
fn verify_handshake_through_protocol() {
    let mut m = InstanceManager::inner_new("/apps");
    let mut rpc = ProcessRpc::new();
    assert!(matches!(rpc.verify(&mut m, None), Err(VerifyError::Decode)));
    assert!(m.load_instance(&AppType::Jar, "calc", 10).is_some());
    let rec = AppStarted { appid: "calc".to_string(), http_port: Some(8080) };
    assert_eq!(rpc.verify(&mut m, Some(rec.clone())), Ok("calc".to_string()));
    assert_eq!(rpc.conn_count(), 1);
    assert_eq!(rpc.verify(&mut m, Some(rec)), Err(VerifyError::AlreadyVerified));
    assert_eq!(rpc.conn_count(), 1);
}

#[test]
fn dispatch_unknown_id_not_handled() {
    let rpc = ProcessRpc::new();
    let r = rpc.handle_remote_call("calc", 9, 1, true);
    assert!(matches!(r, RemoteCall::Unsupported(9)));
    assert!(!r.handled());
}

#[test]
fn dispatch_checkpoint_and_kv() {
    let rpc = ProcessRpc::new();
    let r = rpc.handle_remote_call("calc", 4, 1, true);
    assert!(matches!(r, RemoteCall::CheckpointIgnored));
    assert!(r.handled());
    match rpc.handle_remote_call("calc", 5, 77, true) {
        RemoteCall::ForwardKv { conn, taskid } => {
            assert_eq!(conn, "calc");
            assert_eq!(taskid, 77);
        }
        _ => panic!("expected a kv forward"),
    }
    let bad = rpc.handle_remote_call("calc", 5, 77, false);
    assert!(matches!(bad, RemoteCall::DecodeFailed(5)));
    assert!(bad.handled());
}

#[test]
fn kv_failure_sends_no_reply() {
    assert!(kv_reply(3, Err("store down".to_string())).is_none());
    assert!(kv_reply(3, Ok(vec![])).is_none());
}

#[test]
fn kv_success_replies_with_correlation_id() {
    let r = kv_reply(3, Ok(vec![KvResponse { response: vec![1, 2] }])).unwrap();
    assert_eq!(r.0, 3);
    assert_eq!(r.1.response, vec![1, 2]);
}

#[test]
fn call_func_end_to_end() {
    let src = FnTaskId { call_node_id: 1, task_id: 9 };
    let call = call_func(src, "calc", "add", "{a:1,b:2}".to_string());
    assert_eq!(call.dest, "calc");
    assert_eq!(call.req.func, "add");
    assert_eq!(call.req.arg_str, "{a:1,b:2}");
    assert_eq!(call.req.src_task_id, Some(src));
    assert_eq!(call.timeout_secs, 120);
    assert_eq!(CALL_TIMEOUT_SECS, 120);
    let got = call_outcome(Some(FuncCallResp { ret_str: "3".to_string() })).unwrap();
    assert_eq!(got.ret_str, "3");
}

#[test]
fn call_without_answer_times_out() {
    assert!(matches!(call_outcome(None), Err(WsFuncError::Timeout)));
}

#[test]
fn update_app_registers_each_function() {
    let mut m = MasterAppMgmt::inner_new();
    let meta = AppMeta { app_type: AppType::Wasm, fns: vec!["f".to_string(), "g".to_string()] };
    m.update_app("img", &meta);
    assert_eq!(m.trigger_count(), 2);
    m.update_app("calc", &AppMeta { app_type: AppType::Jar, fns: vec![] });
    assert_eq!(m.trigger_count(), 2);
}
