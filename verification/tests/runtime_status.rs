use wecode::openclaw::{launch_agent_update, missing_launch_agent_result};
use wecode::{default_config, gateway_launch_agent_path, prevent_sleep_program_arguments, PreventSleepMode};

fn strings(items: &[&str]) -> Vec<String> {
    items.iter().map(|item| item.to_string()).collect()
}

#[test]
fn sleep_guard_wraps_the_gateway_in_caffeinate() {
    let args = strings(&["/tmp/openclaw/dist/index.js", "gateway"]);

    assert_eq!(
        prevent_sleep_program_arguments(&args, PreventSleepMode::Always),
        strings(&["/usr/bin/caffeinate", "-i", "/tmp/openclaw/dist/index.js", "gateway"])
    );
    assert_eq!(
        prevent_sleep_program_arguments(&args, PreventSleepMode::Ac),
        strings(&["/usr/bin/caffeinate", "-s", "/tmp/openclaw/dist/index.js", "gateway"])
    );
    assert_eq!(prevent_sleep_program_arguments(&args, PreventSleepMode::Off), args);
}

#[test]
fn sleep_guard_replaces_an_earlier_wrapper() {
    let wrapped = strings(&["/usr/bin/caffeinate", "-i", "/tmp/openclaw/dist/index.js", "gateway"]);

    assert_eq!(
        prevent_sleep_program_arguments(&wrapped, PreventSleepMode::Ac),
        strings(&["/usr/bin/caffeinate", "-s", "/tmp/openclaw/dist/index.js", "gateway"])
    );
    assert_eq!(
        prevent_sleep_program_arguments(&wrapped, PreventSleepMode::Off),
        strings(&["/tmp/openclaw/dist/index.js", "gateway"])
    );
    assert_eq!(launch_agent_update(&wrapped, PreventSleepMode::Always), None);
    assert_eq!(
        launch_agent_update(&wrapped, PreventSleepMode::Off),
        Some(strings(&["/tmp/openclaw/dist/index.js", "gateway"]))
    );
}

#[test]
fn runtime_status_reports_launch_agent_sleep_guard() {
    let config = default_config();

    assert_eq!(
        gateway_launch_agent_path(&config, Some("/home/me")),
        "/home/me/Library/LaunchAgents/ai.openclaw.wecode.plist"
    );
    assert_eq!(missing_launch_agent_result("/x.plist", PreventSleepMode::Off), Ok(()));
    assert_eq!(
        missing_launch_agent_result("/x.plist", PreventSleepMode::Always),
        Err("OpenClaw LaunchAgent plist not found at /x.plist; cannot apply openclaw.preventSleep".to_string())
    );
}
