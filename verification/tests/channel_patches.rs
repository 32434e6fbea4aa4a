use wecode::channel_patch::{
    patch_feishu_monitor_account_source, patch_weixin_lane_key_source,
    patch_weixin_monitor_source, patch_weixin_process_message_source, CONTROL_HELPER,
    WX_CONFIG_MANAGER, WX_CONTEXT_TOKEN_BLOCK, WX_FS_IMPORT, WX_HELPER_ANCHOR,
    WX_LANE_HELPER_ANCHOR, WX_LANE_ORIGINAL, WX_LANE_PATCHED, WX_ORIGINAL_PROCESS,
    WX_PATCHED_CONFIG_MANAGER, WX_PATCHED_IMPORTS, WX_PATCHED_PROCESS, WX_PATH_IMPORT,
    WX_PROCESS_IMPORT, WX_REPLY_OPTIONS, WX_REPLY_OPTIONS_PATCHED,
};

#[test]
fn weixin_monitor_gets_lane_scheduler_and_stays_patched() {
    let source = format!("{WX_PROCESS_IMPORT}\n{WX_CONFIG_MANAGER}\n{WX_ORIGINAL_PROCESS}\n");
    let patched = patch_weixin_monitor_source(&source, "monitor.js").expect("patched");
    assert_eq!(
        patched,
        format!("{WX_PATCHED_IMPORTS}\n{WX_PATCHED_CONFIG_MANAGER}\n{WX_PATCHED_PROCESS}\n")
    );
    assert_eq!(patch_weixin_monitor_source(&patched, "monitor.js"), Ok(patched.clone()));
    assert_eq!(
        patch_weixin_monitor_source("export {};", "monitor.js"),
        Err("unsupported Weixin monitor format; processOneMessage import not found in monitor.js".to_string())
    );
}

#[test]
fn weixin_lane_key_routes_approval_answers_to_the_control_lane() {
    let source = format!("{WX_LANE_HELPER_ANCHOR}\n{WX_LANE_ORIGINAL}\n");
    let patched = patch_weixin_lane_key_source(&source, "lane-key.js").expect("patched");
    assert_eq!(patched, format!("{CONTROL_HELPER}{WX_LANE_HELPER_ANCHOR}\n{WX_LANE_PATCHED}\n"));
    assert_eq!(patch_weixin_lane_key_source(&patched, "lane-key.js"), Ok(patched.clone()));
    assert_eq!(
        patch_weixin_lane_key_source("export {};", "lane-key.js"),
        Err("unsupported Weixin lane-key format; control lane branch not found in lane-key.js".to_string())
    );
}

#[test]
fn weixin_process_message_streams_blocks_and_handles_approvals() {
    let source = format!(
        "const opts = {{ disableBlockStreaming: true }};\n{WX_PATH_IMPORT}\n{WX_HELPER_ANCHOR}\n{WX_CONTEXT_TOKEN_BLOCK}\n{WX_REPLY_OPTIONS}\n"
    );
    let patched = patch_weixin_process_message_source(&source, "process-message.js").expect("patched");
    assert!(patched.contains("disableBlockStreaming: false"));
    assert!(patched.contains(WX_FS_IMPORT));
    assert!(patched.contains("function parseWecodeApprovalControlText"));
    assert!(patched.contains("if (await handleWecodeNativeApprovalControl({"));
    assert!(patched.contains(WX_REPLY_OPTIONS_PATCHED));
    assert_eq!(
        patch_weixin_process_message_source("export {};", "process-message.js"),
        Err("unsupported Weixin process-message format; disableBlockStreaming flag not found in process-message.js"
            .to_string())
    );
}

#[test]
fn feishu_files_without_the_sequential_key_are_left_alone() {
    assert_eq!(
        patch_feishu_monitor_account_source("export const x = 1;", "monitor.account-a.js"),
        Ok("export const x = 1;".to_string())
    );
    assert_eq!(
        patch_feishu_monitor_account_source(
            "function getFeishuSequentialKey() {}\nfunction createFeishuMessageReceiveHandler() {}",
            "monitor.account-a.js"
        ),
        Err("unsupported Feishu monitor.account format; message queue timeout block not found in monitor.account-a.js"
            .to_string())
    );
}
