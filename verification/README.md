# wecode

A personal bridge between chat channels (Weixin, Feishu) and a local Codex CLI,
with its core written in Verus and proved against its contracts.

OpenClaw receives the chat messages and calls `wecode codex-backend`; wecode
decides what the message asks for (a prompt for Codex, a local command such as
`:cd`, `:ls`, `:model`, `:status`, `:yolo`, an answer to a pending approval) and
runs Codex either over its app-server (JSON-RPC) or with `codex exec`. A
prompt goes to the app-server first, trying each configured proxy in turn
(`next_proxy_attempt`); under the `remote` transport a failed remote turn falls
back to `codex exec` (`next_prompt_run_action` decides each step, and the law
`law_remote_failure_falls_back_only_under_remote` states the fallback).

## Layout

- `src/` — the verified library.
  - `cli`, `config`, `commands`: command-line parsing, the configuration model,
    and how a chat message becomes a `BackendInput`.
  - `backend`, `codex_remote`: the `codex exec` command line and the
    app-server conversation (requests, replies, following a turn).
  - `native_approval`, `project`, `run_lock`, `yolo`: per-project state files,
    approvals shown to the chat user and their answers, the run lock.
  - `openclaw`, `bootstrap`, `runtime_patch`, `channel_patch`: installation
    plans and the patches applied to OpenClaw's JavaScript.
  - `messages`, `sessions`, `diagnostics`: the replies written into the chat,
    Codex's session files, and `wecode doctor`.
  - `text`, `json`, `paths`: the string, JSON and path models the contracts
    are stated over.
- `tests/` — tests of the library on concrete values.
- `app/` — the `wecode` program: file and process I/O, the JSON-RPC pipe, the
  configuration file (serde), and printing.

Verify with Verus; the laws of the library are the `law_*` proof functions.
