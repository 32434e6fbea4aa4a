use wecode::{diagnose_tools, parse_node_version, ToolSnapshot};

#[test]
fn parses_node_versions_from_common_outputs() {
    assert_eq!(parse_node_version("v24.1.0"), Some((24, 1, 0)));
    assert_eq!(parse_node_version("node v22.19.1\n"), Some((22, 19, 1)));
    assert_eq!(parse_node_version("not installed"), None);
}

#[test]
fn doctor_requires_node_22_19_openclaw_codex_and_npm() {
    let report = diagnose_tools(&ToolSnapshot {
        node_version: Some("v20.18.1".to_string()),
        npm_found: true,
        npx_found: true,
        openclaw_version: None,
        codex_version: Some("codex-cli 0.134.0".to_string()),
    });

    assert!(!report.ok);
    assert!(report
        .items
        .iter()
        .any(|item| item.name == "node" && !item.ok && item.message.contains(">=22.19.0")));
    assert!(report
        .items
        .iter()
        .any(|item| item.name == "openclaw" && !item.ok));
}

#[test]
fn doctor_does_not_require_npx_for_bootstrap() {
    let report = diagnose_tools(&ToolSnapshot {
        node_version: Some("v24.14.1".to_string()),
        npm_found: true,
        npx_found: false,
        openclaw_version: Some("OpenClaw 2026.5.28".to_string()),
        codex_version: Some("codex-cli 0.134.0".to_string()),
    });

    assert!(
        report.ok,
        "npx is not needed after Weixin install stopped shelling out to the installer CLI: {report:?}"
    );
    assert!(
        !report.items.iter().any(|item| item.name == "npx"),
        "doctor should not report npx as a required tool: {report:?}"
    );
}

#[test]
fn node_version_scan_edge_cases() {
    assert_eq!(parse_node_version("v.1.2"), None);
    assert_eq!(parse_node_version("v22.19"), None);
    assert_eq!(parse_node_version("22.19.0.7"), Some((22, 19, 0)));
    assert_eq!(parse_node_version("v99999999999999999999.1.0"), None);
    assert_eq!(parse_node_version("v1.2.3-beta"), Some((1, 2, 3)));
    // After a number ends, the pending digits count once more while fewer
    // than three numbers were read.
    assert_eq!(parse_node_version("v22.19 x"), Some((22, 19, 19)));
}

#[test]
fn doctor_reports_each_tool_with_exact_messages() {
    let report = diagnose_tools(&ToolSnapshot {
        node_version: Some("v20.18.1".to_string()),
        npm_found: false,
        npx_found: false,
        openclaw_version: None,
        codex_version: None,
    });
    let summary: Vec<(String, bool, String)> = report
        .items
        .iter()
        .map(|c| (c.name.clone(), c.ok, c.message.clone()))
        .collect();
    assert_eq!(
        summary,
        vec![
            (
                "node".to_string(),
                false,
                "found v20.18.1. wecode requires Node >=22.19.0 for OpenClaw/latest".to_string()
            ),
            ("npm".to_string(), false, "not found. Install Node with npm".to_string()),
            (
                "openclaw".to_string(),
                false,
                "not found in wecode private runtime. Run `wecode bootstrap`".to_string()
            ),
            (
                "codex".to_string(),
                false,
                "not found. Install and log in to Codex CLI before using local smoke tests"
                    .to_string()
            ),
        ]
    );
    let ok = diagnose_tools(&ToolSnapshot {
        node_version: Some("node v22.19.0".to_string()),
        npm_found: true,
        npx_found: true,
        openclaw_version: Some("1.0".to_string()),
        codex_version: Some("2.0".to_string()),
    });
    assert!(ok.ok);
    assert_eq!(ok.items[0].message, "found node v22.19.0");
    assert_eq!(ok.items[2].message, "found 1.0");
    let missing = diagnose_tools(&ToolSnapshot {
        node_version: None,
        npm_found: true,
        npx_found: true,
        openclaw_version: Some("1.0".to_string()),
        codex_version: Some("2.0".to_string()),
    });
    assert!(!missing.ok);
    assert_eq!(missing.items[0].message, "not found. Install Node 24 or Node >=22.19.0");
}
