//! The OpenClaw channel plugins as wecode patches them: the Weixin plugin
//! and the Feishu plugin learn to answer Codex approvals (`yes`/`no`,
//! `:approve`/`:deny`, `:stop`) from the chat, to send approval prompts as
//! soon as Codex shows them, and to keep each chat on its own lane.  Each
//! patch is a function from a file's text to its new text, or to the part
//! of the expected code that was not found; the program reads and writes
//! the files.
use crate::text::{
    chars_to_string, concat2, concat3, contains, find, find_slice, lemma_find_from_props,
    lit_contains, lit_then, matches_at, opt_seq, replace, replace_slice, rfind, rfind_slice,
    rfind_upto, str_chars, with_lit,
};
use vstd::prelude::*;

verus! {

/// Anchors before which the `:stop` helpers go, tried in order.
pub const STOP_ANCHOR_DIR: &'static str = r#"function wecodeNativeApprovalsDir()"#;

pub const STOP_ANCHOR_SEND: &'static str = r#"async function sendWecodeApprovalControlMessage"#;

pub const STOP_ANCHOR_HANDLE: &'static str = r#"async function handleWecodeNativeApprovalControl"#;

/// The start of the approval handler.
pub const STOP_ANCHOR_HANDLE_START: &'static str = r#"async function handleWecodeNativeApprovalControl(params) {"#;

/// The lane scheduler import, present once monitor.js is patched.
pub const WX_LANE_SCHEDULER_IMPORT: &'static str = r#"import { createLaneScheduler } from "./lane-scheduler.js";"#;

/// The `path` import of Weixin's process-message.js.
pub const WX_PATH_IMPORT: &'static str = r#"import path from "node:path";"#;

/// The `fs` import that approval control needs.
pub const WX_FS_IMPORT: &'static str = r#"import fs from "node:fs";"#;

/// Where the approval-control helpers go in Weixin's process-message.js.
pub const WX_HELPER_ANCHOR: &'static str = r#"/** Extract text body from item_list (for slash command detection). */"#;

/// Approval control for the Weixin plugin: reading `yes`/`no` answers and writing the decision file.
pub const WX_APPROVAL_HELPERS: &'static str = r#"function parseWecodeApprovalControlText(text) {
    const match = String(text ?? "").trim().match(/^(?::?(yes|approve|no|deny))(?:\s+([\w-]+))?$/i);
    if (!match) return null;
    const action = match[1].toLowerCase();
    return {
        decision: action === "yes" || action === "approve" ? "approve" : "deny",
        approvalId: match[2],
    };
}
function resolveWecodeOpenClawStateDir() {
    const configured = process.env.OPENCLAW_STATE_DIR?.trim();
    const stateDir = configured && configured.length > 0 ? configured : "~/.wecode/openclaw-state";
    if (stateDir === "~") return process.env.HOME || ".";
    if (stateDir.startsWith("~/")) return path.join(process.env.HOME || ".", stateDir.slice(2));
    return path.resolve(stateDir);
}
function wecodeNativeApprovalsDir() {
    return path.join(resolveWecodeOpenClawStateDir(), "approvals", "native");
}
function readWecodeNativeApproval(approvalId) {
    const approvalPath = path.join(wecodeNativeApprovalsDir(), `${approvalId}.json`);
    try {
        const record = JSON.parse(fs.readFileSync(approvalPath, "utf8"));
        const expiresAt = Number(record?.expires_at_millis ?? 0);
        if (expiresAt > 0 && expiresAt < Date.now()) return null;
        return { approvalId, approvalPath, record };
    }
    catch (err) {
        if (err?.code !== "ENOENT") {
            logger.warn(`wecode approval control read failed approvalId=${approvalId} err=${String(err)}`);
        }
        return null;
    }
}
function listWecodePendingNativeApprovalIds() {
    const dir = wecodeNativeApprovalsDir();
    try {
        return fs.readdirSync(dir, { withFileTypes: true })
            .filter((entry) => entry.isFile() && entry.name.endsWith(".json") && !entry.name.endsWith(".decision.json"))
            .map((entry) => entry.name.slice(0, -".json".length))
            .filter((approvalId) => Boolean(readWecodeNativeApproval(approvalId)))
            .sort();
    }
    catch (err) {
        if (err?.code !== "ENOENT") {
            logger.warn(`wecode approval control list failed dir=${dir} err=${String(err)}`);
        }
        return [];
    }
}
function resolveWecodeNativeApprovalId(requestedApprovalId) {
    const approvalId = requestedApprovalId?.trim();
    if (approvalId) {
        return readWecodeNativeApproval(approvalId)
            ? { status: "ok", approvalId }
            : { status: "not_found", approvalId };
    }
    const ids = listWecodePendingNativeApprovalIds();
    if (ids.length === 1) return { status: "ok", approvalId: ids[0] };
    if (ids.length === 0) return { status: "none" };
    return { status: "multiple", ids };
}
async function sendWecodeApprovalControlMessage(params, text) {
    try {
        await sendMessageWeixin({
            to: params.to,
            text,
            opts: {
                baseUrl: params.baseUrl,
                token: params.token,
                contextToken: params.contextToken,
                runId: params.runId,
            },
        });
    }
    catch (err) {
        logger.error(`wecode approval control ack failed err=${String(err)}`);
    }
}
async function handleWecodeNativeApprovalControl(params) {
    const approval = parseWecodeApprovalControlText(params.text);
    if (!approval) return false;
    const resolved = resolveWecodeNativeApprovalId(approval.approvalId);
    if (resolved.status === "none") return false;
    if (resolved.status === "not_found") {
        await sendWecodeApprovalControlMessage(params, `Approval ${resolved.approvalId} was not found.`);
        return true;
    }
    if (resolved.status === "multiple") {
        await sendWecodeApprovalControlMessage(params, `Multiple pending approvals: ${resolved.ids.join(", ")}. Reply :yes <id> or :no <id>.`);
        return true;
    }
    const approvalId = resolved.approvalId;
    const decisionPath = path.join(wecodeNativeApprovalsDir(), `${approvalId}.decision.json`);
    try {
        fs.mkdirSync(wecodeNativeApprovalsDir(), { recursive: true });
        fs.writeFileSync(decisionPath, JSON.stringify({
            approval_id: approvalId,
            decision: approval.decision,
            decided_at_millis: Date.now(),
        }, null, 2));
        logger.info(`wecode approval control wrote decision approvalId=${approvalId} decision=${approval.decision}`);
    }
    catch (err) {
        logger.error(`wecode approval control write failed approvalId=${approvalId} err=${String(err)}`);
        await sendWecodeApprovalControlMessage(params, `Failed to update Codex approval ${approvalId}: ${String(err)}`);
        return true;
    }
    return true;
}

"#;

/// The context-token block of Weixin's message processing.
pub const WX_CONTEXT_TOKEN_BLOCK: &'static str = r#"    const contextToken = getContextTokenFromMsgContext(ctx);
    if (contextToken) {
        setContextToken(deps.accountId, full.from_user_id ?? "", contextToken);
    }"#;

/// The same block followed by the approval-control call.
pub const WX_CONTEXT_TOKEN_BLOCK_WITH_APPROVAL: &'static str = r#"    const contextToken = getContextTokenFromMsgContext(ctx);
    if (contextToken) {
        setContextToken(deps.accountId, full.from_user_id ?? "", contextToken);
    }
    if (await handleWecodeNativeApprovalControl({
        text: finalized.Body ?? textBody,
        to: ctx.To,
        contextToken,
        baseUrl: deps.baseUrl,
        token: deps.token,
        runId: randomUUID(),
    })) {
        return;
    }"#;

/// How an earlier patch recognised an approval prompt.
pub const WX_LEGACY_PROMPT_DETECTION: &'static str = r#"                            const text = String(payload?.text ?? "");
                            if (!text.includes("Codex requests permission") || !text.includes("Approval: appr-")) return;
                            const match = text.match(/Approval:\s*(appr-[\w-]+)/);
                            const approvalId = match?.[1];"#;

/// How an approval prompt is recognised in the reply text.
pub const WX_PROMPT_DETECTION: &'static str = r#"                            const text = String(payload?.text ?? "");
                            const approvalId = text.match(/审批 ID\**:\s*`?(appr-[\w-]+)`?/)?.[1]
                                ?? text.match(/Approval:\s*(appr-[\w-]+)/)?.[1];"#;

/// Weixin's reply options.
pub const WX_REPLY_OPTIONS: &'static str = r#"...(replyProgressSender?.replyOptions ?? {}),
                    disableBlockStreaming: false,"#;

/// The reply options as an earlier patch left them.
pub const WX_REPLY_OPTIONS_OLD_PATCHED: &'static str = r#"...(replyProgressSender?.replyOptions ?? {}),
                    onPartialReply: (() => {
                        const sentApprovalIds = new Set();
                        return async (payload) => {
                            const text = String(payload?.text ?? "");
                            if (!text.includes("Codex requests permission") || !text.includes("Approval: appr-")) return;
                            const match = text.match(/Approval:\s*(appr-[\w-]+)/);
                            const approvalId = match?.[1];
                            if (!approvalId || sentApprovalIds.has(approvalId)) return;
                            sentApprovalIds.add(approvalId);
                            await sendMessageWeixin({
                                to: ctx.To,
                                text,
                                opts: { baseUrl: deps.baseUrl, token: deps.token, contextToken, runId },
                            });
                        };
                    })(),
                    disableBlockStreaming: false,"#;

/// The reply options with the approval-prompt sender.
pub const WX_REPLY_OPTIONS_PATCHED: &'static str = r#"...(replyProgressSender?.replyOptions ?? {}),
                    ...(() => {
                        const wecodeBaseReplyOptions = {
                            ...replyOptions,
                            ...(replyProgressSender?.replyOptions ?? {}),
                        };
                        const wecodeSentApprovalIds = new Set();
                        const sendWecodeApprovalPromptFromReplyPayload = async (payload) => {
                            const text = String(payload?.text ?? "");
                            const approvalId = text.match(/审批 ID\**:\s*`?(appr-[\w-]+)`?/)?.[1]
                                ?? text.match(/Approval:\s*(appr-[\w-]+)/)?.[1];
                            if (!approvalId || wecodeSentApprovalIds.has(approvalId)) return;
                            wecodeSentApprovalIds.add(approvalId);
                            logger.info(`wecode approval prompt detected approvalId=${approvalId} textLen=${text.length}`);
                            try {
                                await sendMessageWeixin({
                                    to: ctx.To,
                                    text,
                                    opts: { baseUrl: deps.baseUrl, token: deps.token, contextToken, runId },
                                });
                                logger.info(`wecode approval prompt sent approvalId=${approvalId}`);
                            }
                            catch (err) {
                                wecodeSentApprovalIds.delete(approvalId);
                                logger.error(`wecode approval prompt send failed approvalId=${approvalId} err=${String(err)}`);
                            }
                        };
                        const callWecodePreviousReplyOption = async (name, payload, context) => {
                            const previous = wecodeBaseReplyOptions?.[name];
                            if (typeof previous !== "function") return;
                            try {
                                await previous(payload, context);
                            }
                            catch (err) {
                                logger.warn(`wecode approval prompt previous ${name} failed err=${String(err)}`);
                            }
                        };
                        return {
                            onPartialReply: async (payload) => {
                                await callWecodePreviousReplyOption("onPartialReply", payload);
                                await sendWecodeApprovalPromptFromReplyPayload(payload);
                            },
                            onBlockReplyQueued: async (payload, context) => {
                                await callWecodePreviousReplyOption("onBlockReplyQueued", payload, context);
                                await sendWecodeApprovalPromptFromReplyPayload(payload);
                            },
                        };
                    })(),
                    disableBlockStreaming: false,"#;

/// The import of `processOneMessage` in Weixin's monitor.js.
pub const WX_PROCESS_IMPORT: &'static str = r#"import { processOneMessage } from "../messaging/process-message.js";"#;

/// The imports with the lane key and the lane scheduler.
pub const WX_PATCHED_IMPORTS: &'static str = r#"import { getWeixinLaneKey } from "../messaging/lane-key.js";
import { processOneMessage } from "../messaging/process-message.js";
import { createLaneScheduler } from "./lane-scheduler.js";"#;

/// The config manager set-up of Weixin's monitor.js.
pub const WX_CONFIG_MANAGER: &'static str = r#"    const configManager = new WeixinConfigManager({ baseUrl, token }, log);"#;

/// The same with a lane scheduler.
pub const WX_PATCHED_CONFIG_MANAGER: &'static str = r#"    const configManager = new WeixinConfigManager({ baseUrl, token }, log);
    const wecodeLaneScheduler = createLaneScheduler();"#;

/// Processing a message directly.
pub const WX_ORIGINAL_PROCESS: &'static str = r#"                const fromUserId = full.from_user_id ?? "";
                const cachedConfig = await configManager.getForUser(fromUserId, full.context_token);
                await processOneMessage(full, {
                    accountId,
                    config,
                    channelRuntime,
                    baseUrl,
                    cdnBaseUrl,
                    token,
                    typingTicket: cachedConfig.typingTicket,
                    log: opts.runtime?.log ?? (() => { }),
                    errLog,
                });"#;

/// Processing a message on its chat's lane.
pub const WX_PATCHED_PROCESS: &'static str = r#"                const laneKey = getWeixinLaneKey({ accountId, msg: full });
                void wecodeLaneScheduler.enqueue(laneKey, async () => {
                    const fromUserId = full.from_user_id ?? "";
                    const cachedConfig = await configManager.getForUser(fromUserId, full.context_token);
                    await processOneMessage(full, {
                        accountId,
                        config,
                        channelRuntime,
                        baseUrl,
                        cdnBaseUrl,
                        token,
                        typingTicket: cachedConfig.typingTicket,
                        log: opts.runtime?.log ?? (() => { }),
                        errLog,
                    });
                }).catch((err) => {
                    errLog(`weixin processOneMessage error lane=${laneKey}: ${String(err)}`);
                    aLog.error(`processOneMessage lane=${laneKey} error: ${String(err)}, stack=${err?.stack ?? ""}`);
                });"#;

/// The control-lane branch of Weixin's lane-key.js.
pub const WX_LANE_ORIGINAL: &'static str = r#"const baseKey = `wx:${ctx.accountId}:${userId}`;
    if (isWeixinAbortMessage(ctx.msg)) {
        return `${baseKey}:control`;
    }
    return baseKey;"#;

/// The same branch that also sends approval answers to the control lane.
pub const WX_LANE_PATCHED: &'static str = r#"const baseKey = `wx:${ctx.accountId}:${userId}`;
    const textBody = extractTextBodyForLane(ctx.msg).trim();
    if (isWeixinAbortMessage(ctx.msg) || isWecodeApprovalControlText(textBody)) {
        return `${baseKey}:control`;
    }
    return baseKey;"#;

/// Where the control-lane test goes in lane-key.js.
pub const WX_LANE_HELPER_ANCHOR: &'static str = r#"/**
 * Compute the lane key used by the per-key scheduler. Abort requests get the
 * `:control` suffix to bypass the main lane.
 *
 * Note: the fallback `unknown` user happens for malformed payloads. Keep them
 * on a shared lane so they cannot fan out and exhaust resources.
 */"#;

/// The control branch of Feishu's sequential key.
pub const FS_SEQUENTIAL_ORIGINAL: &'static str = r#"if (isAbortRequestText(text)) return `${baseKey}:control`;"#;

/// The same branch that also sends approval answers to the control lane.
pub const FS_SEQUENTIAL_PATCHED: &'static str = r#"if (isAbortRequestText(text) || isWecodeApprovalControlText(text)) return `${baseKey}:control`;"#;

/// Where the control-lane test goes in Feishu's monitor.
pub const FS_SEQUENTIAL_HELPER_ANCHOR: &'static str = r#"//#region extensions/feishu/src/sequential-key.ts"#;

/// Feishu's per-chat queue with its default task timeout.
pub const FS_QUEUE_ORIGINAL: &'static str = r#"	const log = runtime?.log ?? console.log;
	const error = runtime?.error ?? console.error;
	const enqueue = createSequentialQueue({ onTaskTimeout: (key, timeoutMs) => {
		log(`feishu[${accountId}]: per-chat task exceeded ${timeoutMs}ms cap (key=${key}); evicting from queue so later same-key messages can proceed (#70133)`);
	} });"#;

/// The queue with the agent's timeout plus a minute.
pub const FS_QUEUE_PATCHED: &'static str = r#"	const log = runtime?.log ?? console.log;
	const error = runtime?.error ?? console.error;
	const wecodeFeishuAgentTimeoutSeconds = Number(cfg?.agents?.defaults?.timeoutSeconds);
	const wecodeFeishuTaskTimeoutMs = Number.isFinite(wecodeFeishuAgentTimeoutSeconds) && wecodeFeishuAgentTimeoutSeconds > 0
		? Math.max(DEFAULT_TASK_TIMEOUT_MS, Math.ceil(wecodeFeishuAgentTimeoutSeconds * 1e3) + 60 * 1e3)
		: DEFAULT_TASK_TIMEOUT_MS;
	const enqueue = createSequentialQueue({ taskTimeoutMs: wecodeFeishuTaskTimeoutMs, onTaskTimeout: (key, timeoutMs) => {
		log(`feishu[${accountId}]: per-chat task exceeded ${timeoutMs}ms cap (key=${key}); evicting from queue so later same-key messages can proceed (#70133)`);
	} });"#;

/// The start of Feishu's message handler.
pub const FS_HANDLE_MESSAGE: &'static str = r#"async function handleFeishuMessage(params) {"#;

/// Approval control for the Feishu plugin.
pub const FS_APPROVAL_HELPERS: &'static str = r#"function parseWecodeApprovalControlText(text) {
	const match = String(text ?? "").trim().match(/^(?::?(yes|approve|no|deny))(?:\s+([\w-]+))?$/i);
	if (!match) return null;
	const action = match[1].toLowerCase();
	return {
		decision: action === "yes" || action === "approve" ? "approve" : "deny",
		approvalId: match[2],
	};
}
function resolveWecodeOpenClawStateDir() {
	const configured = process.env.OPENCLAW_STATE_DIR?.trim();
	const stateDir = configured && configured.length > 0 ? configured : "~/.wecode/openclaw-state";
	if (stateDir === "~") return process.env.HOME || ".";
	if (stateDir.startsWith("~/")) return path.join(process.env.HOME || ".", stateDir.slice(2));
	return path.resolve(stateDir);
}
function wecodeNativeApprovalsDir() {
	return path.join(resolveWecodeOpenClawStateDir(), "approvals", "native");
}
function readWecodeNativeApproval(approvalId, log) {
	const approvalPath = path.join(wecodeNativeApprovalsDir(), `${approvalId}.json`);
	try {
		const record = JSON.parse(fs.readFileSync(approvalPath, "utf8"));
		const expiresAt = Number(record?.expires_at_millis ?? 0);
		if (expiresAt > 0 && expiresAt < Date.now()) return null;
		return { approvalId, approvalPath, record };
	}
	catch (err) {
		if (err?.code !== "ENOENT") {
			log(`wecode approval control read failed approvalId=${approvalId} err=${String(err)}`);
		}
		return null;
	}
}
function listWecodePendingNativeApprovalIds(log) {
	const dir = wecodeNativeApprovalsDir();
	try {
		return fs.readdirSync(dir, { withFileTypes: true })
			.filter((entry) => entry.isFile() && entry.name.endsWith(".json") && !entry.name.endsWith(".decision.json"))
			.map((entry) => entry.name.slice(0, -".json".length))
			.filter((approvalId) => Boolean(readWecodeNativeApproval(approvalId, log)))
			.sort();
	}
	catch (err) {
		if (err?.code !== "ENOENT") {
			log(`wecode approval control list failed dir=${dir} err=${String(err)}`);
		}
		return [];
	}
}
function resolveWecodeNativeApprovalId(requestedApprovalId, log) {
	const approvalId = requestedApprovalId?.trim();
	if (approvalId) {
		return readWecodeNativeApproval(approvalId, log)
			? { status: "ok", approvalId }
			: { status: "not_found", approvalId };
	}
	const ids = listWecodePendingNativeApprovalIds(log);
	if (ids.length === 1) return { status: "ok", approvalId: ids[0] };
	if (ids.length === 0) return { status: "none" };
	return { status: "multiple", ids };
}
async function sendWecodeApprovalControlMessage(params, text) {
	try {
		await sendMessageFeishu({
			cfg: params.cfg,
			to: `chat:${params.chatId}`,
			text,
			accountId: params.accountId,
		});
	}
	catch (err) {
		params.error(`wecode approval control ack failed err=${String(err)}`);
	}
}
async function handleWecodeNativeApprovalControl(params) {
	const log = typeof params.log === "function" ? params.log : console.log;
	const error = typeof params.error === "function" ? params.error : console.error;
	const approval = parseWecodeApprovalControlText(params.text);
	if (!approval) return false;
	const resolved = resolveWecodeNativeApprovalId(approval.approvalId, log);
	if (resolved.status === "none") return false;
	if (resolved.status === "not_found") {
		await sendWecodeApprovalControlMessage({ ...params, error }, `Approval ${resolved.approvalId} was not found.`);
		return true;
	}
	if (resolved.status === "multiple") {
		await sendWecodeApprovalControlMessage({ ...params, error }, `Multiple pending approvals: ${resolved.ids.join(", ")}. Reply :yes <id> or :no <id>.`);
		return true;
	}
	const approvalId = resolved.approvalId;
	const decisionPath = path.join(wecodeNativeApprovalsDir(), `${approvalId}.decision.json`);
	try {
		fs.mkdirSync(wecodeNativeApprovalsDir(), { recursive: true });
		fs.writeFileSync(decisionPath, JSON.stringify({
			approval_id: approvalId,
			decision: approval.decision,
			decided_at_millis: Date.now(),
		}, null, 2));
		log(`wecode approval control wrote decision approvalId=${approvalId} decision=${approval.decision}`);
	}
	catch (err) {
		error(`wecode approval control write failed approvalId=${approvalId} err=${String(err)}`);
		await sendWecodeApprovalControlMessage({ ...params, error }, `Failed to update Codex approval ${approvalId}: ${String(err)}`);
		return true;
	}
	return true;
}

"#;

/// The line of Feishu's handler that names the sender.
pub const FS_FROM_LINE: &'static str = r#"const feishuFrom = `feishu:${ctx.senderOpenId}`;"#;

/// The `:stop` helpers: stopping running Codex turns and clearing pending approvals.
pub const STOP_HELPERS: &'static str = r#"function parseWecodeStopControlText(text) {
    return String(text ?? "").trim().toLowerCase() === ":stop";
}
function wecodeRunLocksDir() {
    return path.join(resolveWecodeOpenClawStateDir(), "locks");
}
function listWecodeRunLockPaths(log = () => {}) {
    const dir = wecodeRunLocksDir();
    try {
        return fs.readdirSync(dir, { withFileTypes: true })
            .filter((entry) => entry.isFile() && entry.name.startsWith("codex-run-") && entry.name.endsWith(".lock"))
            .map((entry) => path.join(dir, entry.name))
            .sort();
    }
    catch (err) {
        if (err?.code !== "ENOENT") log(`wecode stop lock list failed dir=${dir} err=${String(err)}`);
        return [];
    }
}
function readWecodeRunLockPid(lockPath, log = () => {}) {
    try {
        const content = fs.readFileSync(lockPath, "utf8");
        const line = content.split(/\r?\n/).find((item) => item.startsWith("pid="));
        const pid = Number(line?.slice("pid=".length).trim());
        return Number.isInteger(pid) && pid > 0 ? pid : null;
    }
    catch (err) {
        if (err?.code !== "ENOENT") log(`wecode stop lock read failed path=${lockPath} err=${String(err)}`);
        return null;
    }
}
function wecodeProcessIsAlive(pid) {
    if (!Number.isInteger(pid) || pid <= 0 || pid === process.pid) return false;
    try {
        process.kill(pid, 0);
        return true;
    }
    catch (err) {
        return err?.code === "EPERM";
    }
}
async function wecodeChildPids(pid, log = () => {}) {
    try {
        const { execFileSync } = await import("node:child_process");
        const output = execFileSync("/usr/bin/pgrep", ["-P", String(pid)], {
            encoding: "utf8",
            stdio: ["ignore", "pipe", "ignore"],
        });
        return output.split(/\r?\n/)
            .map((line) => Number(line.trim()))
            .filter((child) => Number.isInteger(child) && child > 0 && child !== process.pid);
    }
    catch (err) {
        if (err?.status !== 1) log(`wecode stop child pid lookup failed pid=${pid} err=${String(err)}`);
        return [];
    }
}
async function wecodeDescendantPids(pid, log = () => {}, seen = new Set()) {
    if (seen.has(pid)) return [];
    seen.add(pid);
    const result = [];
    for (const child of await wecodeChildPids(pid, log)) {
        result.push(...await wecodeDescendantPids(child, log, seen), child);
    }
    return result;
}
function signalWecodeProcess(pid, signal, log = () => {}) {
    if (!Number.isInteger(pid) || pid <= 0 || pid === process.pid) return;
    try {
        process.kill(pid, signal);
    }
    catch (err) {
        if (err?.code !== "ESRCH") log(`wecode stop signal failed pid=${pid} signal=${signal} err=${String(err)}`);
    }
}
async function stopWecodeProcessTree(pid, log = () => {}) {
    const descendants = await wecodeDescendantPids(pid, log);
    for (const child of descendants.slice().reverse()) signalWecodeProcess(child, "SIGTERM", log);
    signalWecodeProcess(pid, "SIGTERM", log);
    await new Promise((resolve) => setTimeout(resolve, 500));
    if (wecodeProcessIsAlive(pid)) {
        for (const child of descendants.slice().reverse()) signalWecodeProcess(child, "SIGKILL", log);
        signalWecodeProcess(pid, "SIGKILL", log);
    }
}
function removeWecodeFileIfExists(filePath, log = () => {}) {
    try {
        fs.unlinkSync(filePath);
    }
    catch (err) {
        if (err?.code !== "ENOENT") log(`wecode stop file cleanup failed path=${filePath} err=${String(err)}`);
    }
}
function clearWecodeJsonFiles(dir, log = () => {}) {
    try {
        for (const entry of fs.readdirSync(dir, { withFileTypes: true })) {
            if (entry.isFile() && entry.name.endsWith(".json")) {
                removeWecodeFileIfExists(path.join(dir, entry.name), log);
            }
        }
    }
    catch (err) {
        if (err?.code !== "ENOENT") log(`wecode stop approval cleanup failed dir=${dir} err=${String(err)}`);
    }
}
function clearWecodePendingApprovals(log = () => {}) {
    const approvalsDir = path.join(resolveWecodeOpenClawStateDir(), "approvals");
    clearWecodeJsonFiles(approvalsDir, log);
    clearWecodeJsonFiles(path.join(approvalsDir, "native"), log);
}
async function stopWecodeCodexRuns(log = () => {}) {
    let stopped = false;
    for (const lockPath of listWecodeRunLockPaths(log)) {
        const pid = readWecodeRunLockPid(lockPath, log);
        if (pid && wecodeProcessIsAlive(pid)) {
            await stopWecodeProcessTree(pid, log);
            stopped = true;
        }
        removeWecodeFileIfExists(lockPath, log);
    }
    return stopped;
}
"#;

/// The Weixin approval handler answering `:stop` first.
pub const WX_STOP_BRANCH: &'static str = r#"async function handleWecodeNativeApprovalControl(params) {
    if (parseWecodeStopControlText(params.text)) {
        const stopped = await stopWecodeCodexRuns();
        clearWecodePendingApprovals();
        await sendWecodeApprovalControlMessage(params, stopped ? "已停止当前任务。" : "没有正在运行的任务。");
        return true;
    }"#;

/// The logger set-up at the start of the Feishu approval handler.
pub const FS_LOG_BLOCK: &'static str = r#"	const log = typeof params.log === "function" ? params.log : console.log;
	const error = typeof params.error === "function" ? params.error : console.error;"#;

/// The same followed by the `:stop` branch.
pub const FS_LOG_BLOCK_WITH_STOP: &'static str = r#"	const log = typeof params.log === "function" ? params.log : console.log;
	const error = typeof params.error === "function" ? params.error : console.error;
	if (parseWecodeStopControlText(params.text)) {
		const stopped = await stopWecodeCodexRuns(log);
		clearWecodePendingApprovals(log);
		await sendWecodeApprovalControlMessage({ ...params, error }, stopped ? "已停止当前任务。" : "没有正在运行的任务。");
		return true;
	}"#;

/// The Feishu approval handler answering `:stop` first.
pub const FS_STOP_BRANCH: &'static str = r#"async function handleWecodeNativeApprovalControl(params) {
	const log = typeof params.log === "function" ? params.log : console.log;
	const error = typeof params.error === "function" ? params.error : console.error;
	if (parseWecodeStopControlText(params.text)) {
		const stopped = await stopWecodeCodexRuns(log);
		clearWecodePendingApprovals(log);
		await sendWecodeApprovalControlMessage({ ...params, error }, stopped ? "已停止当前任务。" : "没有正在运行的任务。");
		return true;
	}"#;

/// The acknowledgement that an earlier Weixin patch sent after a decision.
pub const WX_LEGACY_ACK: &'static str = r#"    const action = approval.decision === "approve" ? "Approved" : "Denied";
    await sendWecodeApprovalControlMessage(params, `${action} Codex approval ${approvalId}. Codex will continue in the original turn.`);
"#;

/// The acknowledgement that an earlier Feishu patch sent after a decision.
pub const FS_LEGACY_ACK: &'static str = r#"	const action = approval.decision === "approve" ? "Approved" : "Denied";
	await sendWecodeApprovalControlMessage({ ...params, error }, `${action} Codex approval ${approvalId}. Codex will continue in the original turn.`);
"#;

/// How an earlier Feishu patch recognised an approval prompt.
pub const FS_LEGACY_PROMPT_DETECTION: &'static str = r#"					const text = String(payload?.text ?? "");
					if (!text.includes("Codex requests permission") || !text.includes("Approval: appr-")) return;
					const match = text.match(/Approval:\s*(appr-[\w-]+)/);
					const approvalId = match?.[1];"#;

/// How the Feishu hooks recognise an approval prompt.
pub const FS_PROMPT_DETECTION: &'static str = r#"					const text = String(payload?.text ?? "");
					const approvalId = text.match(/审批 ID\**:\s*`?(appr-[\w-]+)`?/)?.[1]
						?? text.match(/Approval:\s*(appr-[\w-]+)/)?.[1];"#;

/// Feishu's streaming partial-reply hook.
pub const FS_PARTIAL_ORIGINAL: &'static str = r#"			onPartialReply: streamingEnabled ? (payload) => {
				if (!payload.text) return;
				const cleaned = stripReasoningTagsFromText(payload.text, {
					mode: "strict",
					trim: "both"
				});
				if (!cleaned) return;
				queueStreamingUpdate(cleaned, {
					dedupeWithLastPartial: true,
					mode: "snapshot"
				});
			} : void 0,"#;

/// The hooks with the approval-prompt sender.
pub const FS_PARTIAL_PATCHED: &'static str = r#"			...(() => {
				const wecodeFeishuBaseReplyOptions = {
					...replyOptions,
				};
				const wecodeFeishuSentApprovalIds = new Set();
				const sendWecodeApprovalPromptFromReplyPayload = async (payload) => {
					const text = String(payload?.text ?? "");
					const approvalId = text.match(/审批 ID\**:\s*`?(appr-[\w-]+)`?/)?.[1]
						?? text.match(/Approval:\s*(appr-[\w-]+)/)?.[1];
					if (!approvalId || wecodeFeishuSentApprovalIds.has(approvalId)) return;
					wecodeFeishuSentApprovalIds.add(approvalId);
					params.runtime.log?.(`wecode feishu approval prompt detected approvalId=${approvalId} textLen=${text.length}`);
					try {
						await sendMessageFeishu({
							cfg,
							to: chatId,
							text,
							replyToMessageId: sendReplyToMessageId,
							replyInThread: effectiveReplyInThread,
							allowTopLevelReplyFallback,
							accountId,
						});
						params.runtime.log?.(`wecode feishu approval prompt sent approvalId=${approvalId}`);
					}
					catch (err) {
						wecodeFeishuSentApprovalIds.delete(approvalId);
						params.runtime.error?.(`wecode feishu approval prompt send failed approvalId=${approvalId} err=${String(err)}`);
					}
				};
				const callWecodeFeishuPreviousReplyOption = async (name, payload, context) => {
					const previous = wecodeFeishuBaseReplyOptions?.[name];
					if (typeof previous !== "function") return;
					try {
						await previous(payload, context);
					}
					catch (err) {
						params.runtime.log?.(`wecode feishu approval prompt previous ${name} failed err=${String(err)}`);
					}
				};
				return {
					onPartialReply: async (payload) => {
						await callWecodeFeishuPreviousReplyOption("onPartialReply", payload);
						if (streamingEnabled) {
							if (payload.text) {
								const cleaned = stripReasoningTagsFromText(payload.text, {
									mode: "strict",
									trim: "both"
								});
								if (cleaned) {
									queueStreamingUpdate(cleaned, {
										dedupeWithLastPartial: true,
										mode: "snapshot"
									});
								}
							}
						}
						await sendWecodeApprovalPromptFromReplyPayload(payload);
					},
					onBlockReplyQueued: async (payload, context) => {
						await callWecodeFeishuPreviousReplyOption("onBlockReplyQueued", payload, context);
						await sendWecodeApprovalPromptFromReplyPayload(payload);
					},
				};
			})(),"#;

/// The control-lane test before it knew `:stop`.
pub const CONTROL_TEST_ORIGINAL: &'static str = r#"	const normalized = String(text ?? "").trim().toLowerCase();
	return /^(?::?(?:yes|no|approve|deny))(?:\s+[\w-]+)?$/.test(normalized);"#;

/// The control-lane test with `:stop`.
pub const CONTROL_TEST_PATCHED: &'static str = r#"	const normalized = String(text ?? "").trim().toLowerCase();
	if (normalized === ":stop") return true;
	return /^(?::?(?:yes|no|approve|deny))(?:\s+[\w-]+)?$/.test(normalized);"#;

/// The control-lane test.
pub const CONTROL_HELPER: &'static str = r#"function isWecodeApprovalControlText(text) {
	const normalized = String(text ?? "").trim().toLowerCase();
	if (normalized === ":stop") return true;
	return /^(?::?(?:yes|no|approve|deny))(?:\s+[\w-]+)?$/.test(normalized);
}

"#;

// ---------------------------------------------------------------------------
// Text substitution
// ---------------------------------------------------------------------------

/// `s` with every `from` written as `to`, scanning left to right (what
/// `str::replace` does for the non-empty patterns used here).
pub open spec fn subst(s: Seq<char>, from: Seq<char>, to: Seq<char>) -> Seq<char> {
    if from.len() > 0 {
        replace(s, from, to)
    } else {
        s
    }
}

fn subst_exec(s: &[char], from: &str, to: &[char]) -> (r: Vec<char>)
    ensures
        r@ == subst(s@, from@, to@),
{
    let f = str_chars(from);
    if f.len() > 0 {
        replace_slice(s, f.as_slice(), to)
    } else {
        concat2(s, &[])
    }
}

fn subst_lit(s: &[char], from: &str, to: &str) -> (r: Vec<char>)
    ensures
        r@ == subst(s@, from@, to@),
{
    let t = str_chars(to);
    subst_exec(s, from, t.as_slice())
}

/// Puts `text` before every `anchor`.
fn insert_before(s: &[char], anchor: &str, text: &str) -> (r: Vec<char>)
    ensures
        r@ == subst(s@, anchor@, text@ + anchor@),
{
    let t = str_chars(text);
    let a = str_chars(anchor);
    let ta = concat2(t.as_slice(), a.as_slice());
    subst_exec(s, anchor, ta.as_slice())
}

/// The refusal when a file does not have the code a patch expects.
pub open spec fn unsupported(kind: Seq<char>, what: Seq<char>, path: Seq<char>) -> Seq<char> {
    "unsupported "@ + kind + " format; "@ + what + " not found in "@ + path
}

fn unsupported_exec(kind: &str, what: &str, path: &str) -> (r: String)
    ensures
        r@ == unsupported(kind@, what@, path@),
{
    let k = str_chars(kind);
    let w = str_chars(what);
    let p = str_chars(path);
    let a = with_lit(lit_then("unsupported ", k.as_slice()).as_slice(), " format; ");
    let b = with_lit(concat2(a.as_slice(), w.as_slice()).as_slice(), " not found in ");
    chars_to_string(concat2(b.as_slice(), p.as_slice()).as_slice())
}

pub open spec fn result_view(r: Result<Vec<char>, String>) -> Result<Seq<char>, Seq<char>> {
    match r {
        Ok(v) => Ok(v@),
        Err(e) => Err(e@),
    }
}

pub open spec fn string_result_view(r: Result<String, String>) -> Result<Seq<char>, Seq<char>> {
    match r {
        Ok(v) => Ok(v@),
        Err(e) => Err(e@),
    }
}

fn to_string_result(r: Result<Vec<char>, String>) -> (out: Result<String, String>)
    ensures
        string_result_view(out) == result_view(r),
{
    match r {
        Ok(v) => Ok(chars_to_string(v.as_slice())),
        Err(e) => Err(e),
    }
}

pub open spec fn wx_process_message_kind() -> Seq<char> {
    "Weixin process-message"@
}

pub open spec fn fs_monitor_kind() -> Seq<char> {
    "Feishu monitor.account"@
}

// ---------------------------------------------------------------------------
// Shared pieces: `:stop`, legacy acknowledgements, the control-lane test
// ---------------------------------------------------------------------------

/// The `:stop` helpers, added once before the first approval-control anchor
/// that the file has.
pub open spec fn with_stop_helpers(s: Seq<char>) -> Seq<char> {
    if contains(s, "function parseWecodeStopControlText"@) {
        s
    } else if contains(s, STOP_ANCHOR_DIR@) {
        subst(s, STOP_ANCHOR_DIR@, STOP_HELPERS@ + STOP_ANCHOR_DIR@)
    } else if contains(s, STOP_ANCHOR_SEND@) {
        subst(s, STOP_ANCHOR_SEND@, STOP_HELPERS@ + STOP_ANCHOR_SEND@)
    } else if contains(s, STOP_ANCHOR_HANDLE@) {
        subst(s, STOP_ANCHOR_HANDLE@, STOP_HELPERS@ + STOP_ANCHOR_HANDLE@)
    } else {
        s
    }
}

fn with_stop_helpers_exec(s: &[char]) -> (r: Vec<char>)
    ensures
        r@ == with_stop_helpers(s@),
{
    if lit_contains(s, "function parseWecodeStopControlText") {
        concat2(s, &[])
    } else if lit_contains(s, STOP_ANCHOR_DIR) {
        insert_before(s, STOP_ANCHOR_DIR, STOP_HELPERS)
    } else if lit_contains(s, STOP_ANCHOR_SEND) {
        insert_before(s, STOP_ANCHOR_SEND, STOP_HELPERS)
    } else if lit_contains(s, STOP_ANCHOR_HANDLE) {
        insert_before(s, STOP_ANCHOR_HANDLE, STOP_HELPERS)
    } else {
        concat2(s, &[])
    }
}

/// The Weixin approval handler answering `:stop` first.
pub open spec fn with_stop_branch_weixin(s: Seq<char>) -> Seq<char> {
    if contains(s, "parseWecodeStopControlText(params.text)"@) {
        s
    } else {
        subst(s, STOP_ANCHOR_HANDLE_START@, WX_STOP_BRANCH@)
    }
}

fn with_stop_branch_weixin_exec(s: &[char]) -> (r: Vec<char>)
    ensures
        r@ == with_stop_branch_weixin(s@),
{
    if lit_contains(s, "parseWecodeStopControlText(params.text)") {
        concat2(s, &[])
    } else {
        subst_lit(s, STOP_ANCHOR_HANDLE_START, WX_STOP_BRANCH)
    }
}

/// The Feishu approval handler answering `:stop` first.
pub open spec fn with_stop_branch_feishu(s: Seq<char>) -> Seq<char> {
    if contains(s, "parseWecodeStopControlText(params.text)"@) {
        s
    } else if contains(s, FS_LOG_BLOCK@) {
        subst(s, FS_LOG_BLOCK@, FS_LOG_BLOCK_WITH_STOP@)
    } else {
        subst(s, STOP_ANCHOR_HANDLE_START@, FS_STOP_BRANCH@)
    }
}

fn with_stop_branch_feishu_exec(s: &[char]) -> (r: Vec<char>)
    ensures
        r@ == with_stop_branch_feishu(s@),
{
    if lit_contains(s, "parseWecodeStopControlText(params.text)") {
        concat2(s, &[])
    } else if lit_contains(s, FS_LOG_BLOCK) {
        subst_lit(s, FS_LOG_BLOCK, FS_LOG_BLOCK_WITH_STOP)
    } else {
        subst_lit(s, STOP_ANCHOR_HANDLE_START, FS_STOP_BRANCH)
    }
}

/// Without the acknowledgement that earlier patches sent after writing a
/// decision.
pub open spec fn without_legacy_acks(s: Seq<char>) -> Seq<char> {
    subst(subst(s, WX_LEGACY_ACK@, Seq::empty()), FS_LEGACY_ACK@, Seq::empty())
}

fn without_legacy_acks_exec(s: &[char]) -> (r: Vec<char>)
    ensures
        r@ == without_legacy_acks(s@),
{
    let empty: [char; 0] = [];
    assert(empty@ =~= Seq::<char>::empty());
    let a = subst_exec(s, WX_LEGACY_ACK, &empty);
    subst_exec(a.as_slice(), FS_LEGACY_ACK, &empty)
}

/// The control-lane test (`yes`/`no`/`approve`/`deny`, with an optional id,
/// and `:stop`), added before `anchor` (or at the top when the anchor is
/// missing); an older test learns `:stop`.
pub open spec fn with_control_helper(s: Seq<char>, anchor: Seq<char>) -> Seq<char> {
    if contains(s, "function isWecodeApprovalControlText"@) {
        if contains(s, "normalized === \":stop\""@) {
            s
        } else if contains(s, CONTROL_TEST_ORIGINAL@) {
            subst(s, CONTROL_TEST_ORIGINAL@, CONTROL_TEST_PATCHED@)
        } else {
            s
        }
    } else if contains(s, anchor) {
        subst(s, anchor, CONTROL_HELPER@ + anchor)
    } else {
        CONTROL_HELPER@ + s
    }
}

fn with_control_helper_exec(s: &[char], anchor: &str) -> (r: Vec<char>)
    ensures
        r@ == with_control_helper(s@, anchor@),
{
    if lit_contains(s, "function isWecodeApprovalControlText") {
        if lit_contains(s, "normalized === \":stop\"") {
            concat2(s, &[])
        } else if lit_contains(s, CONTROL_TEST_ORIGINAL) {
            subst_lit(s, CONTROL_TEST_ORIGINAL, CONTROL_TEST_PATCHED)
        } else {
            concat2(s, &[])
        }
    } else if lit_contains(s, anchor) {
        insert_before(s, anchor, CONTROL_HELPER)
    } else {
        lit_then(CONTROL_HELPER, s)
    }
}

// ---------------------------------------------------------------------------
// Weixin: process-message.js
// ---------------------------------------------------------------------------

/// The approval-control handler of the Weixin plugin: the `fs` import, the
/// helpers, `:stop`, and the call before a message is processed.
pub open spec fn weixin_approval_control(s: Seq<char>, path: Seq<char>) -> Result<Seq<char>, Seq<char>> {
    let with_fs = if contains(s, WX_FS_IMPORT@) {
        Some(s)
    } else if contains(s, WX_PATH_IMPORT@) {
        Some(subst(s, WX_PATH_IMPORT@, WX_FS_IMPORT@ + "\n"@ + WX_PATH_IMPORT@))
    } else {
        None
    };
    match with_fs {
        None => Err(unsupported(wx_process_message_kind(), "path import"@, path)),
        Some(t) => {
            let with_helpers = if contains(t, "function parseWecodeApprovalControlText"@) {
                Some(t)
            } else if contains(t, WX_HELPER_ANCHOR@) {
                Some(subst(t, WX_HELPER_ANCHOR@, WX_APPROVAL_HELPERS@ + WX_HELPER_ANCHOR@))
            } else if contains(t, "function extractTextBody"@) {
                Some(
                    subst(
                        t,
                        "function extractTextBody"@,
                        WX_APPROVAL_HELPERS@ + "function extractTextBody"@,
                    ),
                )
            } else {
                None
            };
            match with_helpers {
                None => Err(unsupported(wx_process_message_kind(), "text body helper anchor"@, path)),
                Some(u) => {
                    let v = without_legacy_acks(with_stop_branch_weixin(with_stop_helpers(u)));
                    if contains(v, "if (await handleWecodeNativeApprovalControl({"@) {
                        Ok(v)
                    } else if contains(v, WX_CONTEXT_TOKEN_BLOCK@) {
                        Ok(subst(v, WX_CONTEXT_TOKEN_BLOCK@, WX_CONTEXT_TOKEN_BLOCK_WITH_APPROVAL@))
                    } else {
                        Err(unsupported(wx_process_message_kind(), "context token block"@, path))
                    }
                },
            }
        },
    }
}

fn weixin_approval_control_exec(s: &[char], path: &str) -> (r: Result<Vec<char>, String>)
    ensures
        result_view(r) == weixin_approval_control(s@, path@),
{
    let t = if lit_contains(s, WX_FS_IMPORT) {
        concat2(s, &[])
    } else if lit_contains(s, WX_PATH_IMPORT) {
        let fs = str_chars(WX_FS_IMPORT);
        let both = with_lit(with_lit(fs.as_slice(), "\n").as_slice(), WX_PATH_IMPORT);
        subst_exec(s, WX_PATH_IMPORT, both.as_slice())
    } else {
        return Err(unsupported_exec("Weixin process-message", "path import", path));
    };
    let u = if lit_contains(t.as_slice(), "function parseWecodeApprovalControlText") {
        t
    } else if lit_contains(t.as_slice(), WX_HELPER_ANCHOR) {
        insert_before(t.as_slice(), WX_HELPER_ANCHOR, WX_APPROVAL_HELPERS)
    } else if lit_contains(t.as_slice(), "function extractTextBody") {
        insert_before(t.as_slice(), "function extractTextBody", WX_APPROVAL_HELPERS)
    } else {
        return Err(unsupported_exec("Weixin process-message", "text body helper anchor", path));
    };
    let a = with_stop_helpers_exec(u.as_slice());
    let b = with_stop_branch_weixin_exec(a.as_slice());
    let v = without_legacy_acks_exec(b.as_slice());
    if lit_contains(v.as_slice(), "if (await handleWecodeNativeApprovalControl({") {
        Ok(v)
    } else if lit_contains(v.as_slice(), WX_CONTEXT_TOKEN_BLOCK) {
        Ok(subst_lit(v.as_slice(), WX_CONTEXT_TOKEN_BLOCK, WX_CONTEXT_TOKEN_BLOCK_WITH_APPROVAL))
    } else {
        Err(unsupported_exec("Weixin process-message", "context token block", path))
    }
}

/// The reply hooks that send an approval prompt to the chat as soon as
/// Codex's output shows one.
pub open spec fn weixin_partial_sender(s: Seq<char>, path: Seq<char>) -> Result<Seq<char>, Seq<char>> {
    if contains(s, "sendWecodeApprovalPromptFromReplyPayload"@) {
        if contains(s, WX_PROMPT_DETECTION@) {
            Ok(s)
        } else if contains(s, WX_LEGACY_PROMPT_DETECTION@) {
            Ok(subst(s, WX_LEGACY_PROMPT_DETECTION@, WX_PROMPT_DETECTION@))
        } else {
            Ok(s)
        }
    } else if contains(s, WX_REPLY_OPTIONS@) {
        Ok(subst(s, WX_REPLY_OPTIONS@, WX_REPLY_OPTIONS_PATCHED@))
    } else if contains(s, WX_REPLY_OPTIONS_OLD_PATCHED@) {
        Ok(subst(s, WX_REPLY_OPTIONS_OLD_PATCHED@, WX_REPLY_OPTIONS_PATCHED@))
    } else {
        Err(unsupported(wx_process_message_kind(), "replyOptions block"@, path))
    }
}

fn weixin_partial_sender_exec(s: &[char], path: &str) -> (r: Result<Vec<char>, String>)
    ensures
        result_view(r) == weixin_partial_sender(s@, path@),
{
    if lit_contains(s, "sendWecodeApprovalPromptFromReplyPayload") {
        if lit_contains(s, WX_PROMPT_DETECTION) {
            Ok(concat2(s, &[]))
        } else if lit_contains(s, WX_LEGACY_PROMPT_DETECTION) {
            Ok(subst_lit(s, WX_LEGACY_PROMPT_DETECTION, WX_PROMPT_DETECTION))
        } else {
            Ok(concat2(s, &[]))
        }
    } else if lit_contains(s, WX_REPLY_OPTIONS) {
        Ok(subst_lit(s, WX_REPLY_OPTIONS, WX_REPLY_OPTIONS_PATCHED))
    } else if lit_contains(s, WX_REPLY_OPTIONS_OLD_PATCHED) {
        Ok(subst_lit(s, WX_REPLY_OPTIONS_OLD_PATCHED, WX_REPLY_OPTIONS_PATCHED))
    } else {
        Err(unsupported_exec("Weixin process-message", "replyOptions block", path))
    }
}

/// Weixin's `process-message.js` with block streaming on, approval control
/// and the approval-prompt sender.
pub open spec fn weixin_process_message_patch(s: Seq<char>, path: Seq<char>) -> Result<Seq<char>, Seq<char>> {
    let streaming = if contains(s, "disableBlockStreaming: true"@) {
        Some(subst(s, "disableBlockStreaming: true"@, "disableBlockStreaming: false"@))
    } else if contains(s, "disableBlockStreaming: false"@) {
        Some(s)
    } else {
        None
    };
    match streaming {
        None => Err(unsupported(wx_process_message_kind(), "disableBlockStreaming flag"@, path)),
        Some(t) => match weixin_approval_control(t, path) {
            Err(e) => Err(e),
            Ok(u) => weixin_partial_sender(u, path),
        },
    }
}

/// Patches the text of Weixin's `process-message.js` (at `path`, named in
/// errors).
pub fn patch_weixin_process_message_source(source: &str, path: &str) -> (r: Result<String, String>)
    ensures
        string_result_view(r) == weixin_process_message_patch(source@, path@),
{
    let s = str_chars(source);
    let t = if lit_contains(s.as_slice(), "disableBlockStreaming: true") {
        subst_lit(s.as_slice(), "disableBlockStreaming: true", "disableBlockStreaming: false")
    } else if lit_contains(s.as_slice(), "disableBlockStreaming: false") {
        s
    } else {
        return Err(unsupported_exec("Weixin process-message", "disableBlockStreaming flag", path));
    };
    let u = match weixin_approval_control_exec(t.as_slice(), path) {
        Ok(u) => u,
        Err(e) => return Err(e),
    };
    to_string_result(weixin_partial_sender_exec(u.as_slice(), path))
}

// ---------------------------------------------------------------------------
// Weixin: monitor.js and lane-key.js
// ---------------------------------------------------------------------------

/// Weixin's `monitor.js` processing each chat's messages on its own lane.
pub open spec fn weixin_monitor_patch(s: Seq<char>, path: Seq<char>) -> Result<Seq<char>, Seq<char>> {
    let t1 = if contains(s, WX_LANE_SCHEDULER_IMPORT@) {
        Some(s)
    } else if contains(s, WX_PROCESS_IMPORT@) {
        Some(subst(s, WX_PROCESS_IMPORT@, WX_PATCHED_IMPORTS@))
    } else {
        None
    };
    match t1 {
        None => Err(unsupported("Weixin monitor"@, "processOneMessage import"@, path)),
        Some(a) => {
            let t2 = if contains(a, "const wecodeLaneScheduler = createLaneScheduler();"@) {
                Some(a)
            } else if contains(a, WX_CONFIG_MANAGER@) {
                Some(subst(a, WX_CONFIG_MANAGER@, WX_PATCHED_CONFIG_MANAGER@))
            } else {
                None
            };
            match t2 {
                None => Err(unsupported("Weixin monitor"@, "config manager initialization"@, path)),
                Some(b) => if contains(b, "wecodeLaneScheduler.enqueue"@) {
                    Ok(b)
                } else if contains(b, WX_ORIGINAL_PROCESS@) {
                    Ok(subst(b, WX_ORIGINAL_PROCESS@, WX_PATCHED_PROCESS@))
                } else {
                    Err(unsupported("Weixin monitor"@, "processOneMessage call"@, path))
                },
            }
        },
    }
}

pub fn patch_weixin_monitor_source(source: &str, path: &str) -> (r: Result<String, String>)
    ensures
        string_result_view(r) == weixin_monitor_patch(source@, path@),
{
    let s = str_chars(source);
    let a = if lit_contains(s.as_slice(), WX_LANE_SCHEDULER_IMPORT) {
        s
    } else if lit_contains(s.as_slice(), WX_PROCESS_IMPORT) {
        subst_lit(s.as_slice(), WX_PROCESS_IMPORT, WX_PATCHED_IMPORTS)
    } else {
        return Err(unsupported_exec("Weixin monitor", "processOneMessage import", path));
    };
    let b = if lit_contains(a.as_slice(), "const wecodeLaneScheduler = createLaneScheduler();") {
        a
    } else if lit_contains(a.as_slice(), WX_CONFIG_MANAGER) {
        subst_lit(a.as_slice(), WX_CONFIG_MANAGER, WX_PATCHED_CONFIG_MANAGER)
    } else {
        return Err(unsupported_exec("Weixin monitor", "config manager initialization", path));
    };
    if lit_contains(b.as_slice(), "wecodeLaneScheduler.enqueue") {
        Ok(chars_to_string(b.as_slice()))
    } else if lit_contains(b.as_slice(), WX_ORIGINAL_PROCESS) {
        Ok(chars_to_string(subst_lit(b.as_slice(), WX_ORIGINAL_PROCESS, WX_PATCHED_PROCESS).as_slice()))
    } else {
        Err(unsupported_exec("Weixin monitor", "processOneMessage call", path))
    }
}

/// Weixin's `lane-key.js` putting approval answers on the control lane.
pub open spec fn weixin_lane_key_patch(s: Seq<char>, path: Seq<char>) -> Result<Seq<char>, Seq<char>> {
    let t = with_control_helper(s, WX_LANE_HELPER_ANCHOR@);
    if contains(t, WX_LANE_PATCHED@) {
        Ok(t)
    } else if contains(t, WX_LANE_ORIGINAL@) {
        Ok(subst(t, WX_LANE_ORIGINAL@, WX_LANE_PATCHED@))
    } else {
        Err(unsupported("Weixin lane-key"@, "control lane branch"@, path))
    }
}

pub fn patch_weixin_lane_key_source(source: &str, path: &str) -> (r: Result<String, String>)
    ensures
        string_result_view(r) == weixin_lane_key_patch(source@, path@),
{
    let s = str_chars(source);
    let t = with_control_helper_exec(s.as_slice(), WX_LANE_HELPER_ANCHOR);
    if lit_contains(t.as_slice(), WX_LANE_PATCHED) {
        Ok(chars_to_string(t.as_slice()))
    } else if lit_contains(t.as_slice(), WX_LANE_ORIGINAL) {
        Ok(chars_to_string(subst_lit(t.as_slice(), WX_LANE_ORIGINAL, WX_LANE_PATCHED).as_slice()))
    } else {
        Err(unsupported_exec("Weixin lane-key", "control lane branch", path))
    }
}

// ---------------------------------------------------------------------------
// Feishu: monitor.account-*.js
// ---------------------------------------------------------------------------

/// The per-chat queue given the agent's timeout plus a minute.
pub open spec fn feishu_queue_timeout(s: Seq<char>, path: Seq<char>) -> Result<Seq<char>, Seq<char>> {
    if contains(s, "wecodeFeishuTaskTimeoutMs"@) {
        Ok(s)
    } else if !contains(s, "function createFeishuMessageReceiveHandler"@) {
        Ok(s)
    } else if contains(s, FS_QUEUE_ORIGINAL@) {
        Ok(subst(s, FS_QUEUE_ORIGINAL@, FS_QUEUE_PATCHED@))
    } else {
        Err(unsupported(fs_monitor_kind(), "message queue timeout block"@, path))
    }
}

fn feishu_queue_timeout_exec(s: &[char], path: &str) -> (r: Result<Vec<char>, String>)
    ensures
        result_view(r) == feishu_queue_timeout(s@, path@),
{
    if lit_contains(s, "wecodeFeishuTaskTimeoutMs") {
        Ok(concat2(s, &[]))
    } else if !lit_contains(s, "function createFeishuMessageReceiveHandler") {
        Ok(concat2(s, &[]))
    } else if lit_contains(s, FS_QUEUE_ORIGINAL) {
        Ok(subst_lit(s, FS_QUEUE_ORIGINAL, FS_QUEUE_PATCHED))
    } else {
        Err(unsupported_exec("Feishu monitor.account", "message queue timeout block", path))
    }
}

/// The approval-control call put before the line that names the sender,
/// indented as that line is.
pub open spec fn feishu_control_call(indent: Seq<char>) -> Seq<char> {
    indent + "if (await handleWecodeNativeApprovalControl({\n"@ + indent + "\ttext: ctx.content,\n"@
        + indent + "\tcfg,\n"@ + indent + "\tchatId: ctx.chatId,\n"@ + indent
        + "\taccountId: account.accountId,\n"@ + indent + "\tlog,\n"@ + indent + "\terror,\n"@
        + indent + "})) {\n"@ + indent + "\treturn;\n"@ + indent + "}\n"@ + indent + FS_FROM_LINE@
}

/// The start of the line holding position `k`.
pub open spec fn line_start(t: Seq<char>, k: int) -> int {
    match rfind(t.take(k), seq!['\n']) {
        Some(j) => j + 1,
        None => 0,
    }
}

pub open spec fn feishu_dispatch(t: Seq<char>) -> Option<Seq<char>> {
    match find(t, FS_FROM_LINE@) {
        None => None,
        Some(k) => {
            let ls = line_start(t, k);
            Some(t.take(ls) + feishu_control_call(t.subrange(ls, k)) + t.skip(k + FS_FROM_LINE@.len()))
        },
    }
}

/// The approval-control handler of the Feishu plugin.
pub open spec fn feishu_approval_control(s: Seq<char>, path: Seq<char>) -> Result<Seq<char>, Seq<char>> {
    if !contains(s, FS_HANDLE_MESSAGE@) {
        Ok(s)
    } else {
        let with_helpers = if contains(s, "async function handleWecodeNativeApprovalControl"@) {
            Some(s)
        } else if contains(s, FS_HANDLE_MESSAGE@) {
            Some(subst(s, FS_HANDLE_MESSAGE@, FS_APPROVAL_HELPERS@ + FS_HANDLE_MESSAGE@))
        } else {
            None
        };
        match with_helpers {
            None => Err(unsupported(fs_monitor_kind(), "handleFeishuMessage anchor"@, path)),
            Some(u) => {
                let v = without_legacy_acks(with_stop_branch_feishu(with_stop_helpers(u)));
                if contains(v, "if (await handleWecodeNativeApprovalControl({"@) {
                    Ok(v)
                } else {
                    match feishu_dispatch(v) {
                        Some(w) => Ok(w),
                        None => Err(unsupported(fs_monitor_kind(), "agent dispatch prelude"@, path)),
                    }
                }
            },
        }
    }
}

proof fn lemma_rfind_upto_props(s: Seq<char>, p: Seq<char>, i: int)
    ensures
        rfind_upto(s, p, i) matches Some(j) ==> 0 <= j <= i && matches_at(s, p, j),
    decreases i + 1,
{
    if i >= 0 && !matches_at(s, p, i) {
        lemma_rfind_upto_props(s, p, i - 1);
    }
}

fn feishu_control_call_exec(indent: &[char]) -> (r: Vec<char>)
    ensures
        r@ == feishu_control_call(indent@),
{
    let mut out = with_lit(indent, "if (await handleWecodeNativeApprovalControl({\n");
    out = with_lit(concat2(out.as_slice(), indent).as_slice(), "\ttext: ctx.content,\n");
    out = with_lit(concat2(out.as_slice(), indent).as_slice(), "\tcfg,\n");
    out = with_lit(concat2(out.as_slice(), indent).as_slice(), "\tchatId: ctx.chatId,\n");
    out = with_lit(concat2(out.as_slice(), indent).as_slice(), "\taccountId: account.accountId,\n");
    out = with_lit(concat2(out.as_slice(), indent).as_slice(), "\tlog,\n");
    out = with_lit(concat2(out.as_slice(), indent).as_slice(), "\terror,\n");
    out = with_lit(concat2(out.as_slice(), indent).as_slice(), "})) {\n");
    out = with_lit(concat2(out.as_slice(), indent).as_slice(), "\treturn;\n");
    out = with_lit(concat2(out.as_slice(), indent).as_slice(), "}\n");
    with_lit(concat2(out.as_slice(), indent).as_slice(), FS_FROM_LINE)
}

fn feishu_dispatch_exec(t: &[char]) -> (r: Option<Vec<char>>)
    ensures
        opt_seq(r) == feishu_dispatch(t@),
{
    let from = str_chars(FS_FROM_LINE);
    match find_slice(t, from.as_slice()) {
        None => None,
        Some(k) => {
            proof {
                lemma_find_from_props(t@, from@, 0);
            }
            assert(matches_at(t@, from@, k as int));
            let head = &t[0..k];
            assert(head@ =~= t@.take(k as int));
            let nl = ['\n'];
            assert(nl@ =~= seq!['\n']);
            let ls = match rfind_slice(head, &nl) {
                Some(j) => {
                    proof {
                        lemma_rfind_upto_props(head@, nl@, head@.len() - nl@.len());
                    }
                    j + 1
                },
                None => 0,
            };
            let before = &t[0..ls];
            let indent = &t[ls..k];
            let n = from.len();
            assert(n == from@.len());
            assert(t@.len() == t.len());
            assert(k + n <= t.len());
            let end = k + n;
            let after = &t[end..t.len()];
            assert(before@ =~= t@.take(ls as int));
            assert(indent@ =~= t@.subrange(ls as int, k as int));
            assert(after@ =~= t@.skip(k + from@.len()));
            let call = feishu_control_call_exec(indent);
            Some(concat3(before, call.as_slice(), after))
        },
    }
}

fn feishu_approval_control_exec(s: &[char], path: &str) -> (r: Result<Vec<char>, String>)
    ensures
        result_view(r) == feishu_approval_control(s@, path@),
{
    if !lit_contains(s, FS_HANDLE_MESSAGE) {
        return Ok(concat2(s, &[]));
    }
    let u = if lit_contains(s, "async function handleWecodeNativeApprovalControl") {
        concat2(s, &[])
    } else if lit_contains(s, FS_HANDLE_MESSAGE) {
        insert_before(s, FS_HANDLE_MESSAGE, FS_APPROVAL_HELPERS)
    } else {
        return Err(unsupported_exec("Feishu monitor.account", "handleFeishuMessage anchor", path));
    };
    let a = with_stop_helpers_exec(u.as_slice());
    let b = with_stop_branch_feishu_exec(a.as_slice());
    let v = without_legacy_acks_exec(b.as_slice());
    if lit_contains(v.as_slice(), "if (await handleWecodeNativeApprovalControl({") {
        Ok(v)
    } else {
        match feishu_dispatch_exec(v.as_slice()) {
            Some(w) => Ok(w),
            None => Err(unsupported_exec("Feishu monitor.account", "agent dispatch prelude", path)),
        }
    }
}

/// The Feishu reply hooks that send an approval prompt as soon as Codex's
/// output shows one.
pub open spec fn feishu_partial_sender(s: Seq<char>, path: Seq<char>) -> Result<Seq<char>, Seq<char>> {
    if !contains(s, "function createFeishuReplyDispatcher"@) {
        Ok(s)
    } else if contains(s, "sendWecodeApprovalPromptFromReplyPayload"@) {
        if contains(s, FS_PROMPT_DETECTION@) {
            Ok(s)
        } else if contains(s, FS_LEGACY_PROMPT_DETECTION@) {
            Ok(subst(s, FS_LEGACY_PROMPT_DETECTION@, FS_PROMPT_DETECTION@))
        } else {
            Ok(s)
        }
    } else if contains(s, FS_PARTIAL_ORIGINAL@) {
        Ok(subst(s, FS_PARTIAL_ORIGINAL@, FS_PARTIAL_PATCHED@))
    } else {
        Err(unsupported(fs_monitor_kind(), "replyOptions partial hook"@, path))
    }
}

fn feishu_partial_sender_exec(s: &[char], path: &str) -> (r: Result<Vec<char>, String>)
    ensures
        result_view(r) == feishu_partial_sender(s@, path@),
{
    if !lit_contains(s, "function createFeishuReplyDispatcher") {
        Ok(concat2(s, &[]))
    } else if lit_contains(s, "sendWecodeApprovalPromptFromReplyPayload") {
        if lit_contains(s, FS_PROMPT_DETECTION) {
            Ok(concat2(s, &[]))
        } else if lit_contains(s, FS_LEGACY_PROMPT_DETECTION) {
            Ok(subst_lit(s, FS_LEGACY_PROMPT_DETECTION, FS_PROMPT_DETECTION))
        } else {
            Ok(concat2(s, &[]))
        }
    } else if lit_contains(s, FS_PARTIAL_ORIGINAL) {
        Ok(subst_lit(s, FS_PARTIAL_ORIGINAL, FS_PARTIAL_PATCHED))
    } else {
        Err(unsupported_exec("Feishu monitor.account", "replyOptions partial hook", path))
    }
}

/// Feishu's `monitor.account-*.js`: the queue timeout, approval answers on
/// the control lane, approval control and the approval-prompt sender.  A
/// file without the sequential key function is left as it is.
pub open spec fn feishu_monitor_account_patch(s: Seq<char>, path: Seq<char>) -> Result<Seq<char>, Seq<char>> {
    if !contains(s, "function getFeishuSequentialKey"@) {
        Ok(s)
    } else {
        match feishu_queue_timeout(s, path) {
            Err(e) => Err(e),
            Ok(a) => {
                let b = with_control_helper(a, FS_SEQUENTIAL_HELPER_ANCHOR@);
                let c = if contains(b, FS_SEQUENTIAL_PATCHED@) {
                    Some(b)
                } else if contains(b, FS_SEQUENTIAL_ORIGINAL@) {
                    Some(subst(b, FS_SEQUENTIAL_ORIGINAL@, FS_SEQUENTIAL_PATCHED@))
                } else {
                    None
                };
                match c {
                    None => Err(unsupported(fs_monitor_kind(), "sequential control branch"@, path)),
                    Some(d) => match feishu_approval_control(d, path) {
                        Err(e) => Err(e),
                        Ok(f) => feishu_partial_sender(f, path),
                    },
                }
            },
        }
    }
}

pub fn patch_feishu_monitor_account_source(source: &str, path: &str) -> (r: Result<String, String>)
    ensures
        string_result_view(r) == feishu_monitor_account_patch(source@, path@),
{
    let s = str_chars(source);
    if !lit_contains(s.as_slice(), "function getFeishuSequentialKey") {
        return Ok(chars_to_string(s.as_slice()));
    }
    let a = match feishu_queue_timeout_exec(s.as_slice(), path) {
        Ok(a) => a,
        Err(e) => return Err(e),
    };
    let b = with_control_helper_exec(a.as_slice(), FS_SEQUENTIAL_HELPER_ANCHOR);
    let d = if lit_contains(b.as_slice(), FS_SEQUENTIAL_PATCHED) {
        b
    } else if lit_contains(b.as_slice(), FS_SEQUENTIAL_ORIGINAL) {
        subst_lit(b.as_slice(), FS_SEQUENTIAL_ORIGINAL, FS_SEQUENTIAL_PATCHED)
    } else {
        return Err(unsupported_exec("Feishu monitor.account", "sequential control branch", path));
    };
    let f = match feishu_approval_control_exec(d.as_slice(), path) {
        Ok(f) => f,
        Err(e) => return Err(e),
    };
    to_string_result(feishu_partial_sender_exec(f.as_slice(), path))
}

} // verus!
