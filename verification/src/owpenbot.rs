//! Messaging-bot specifics: how its output stream is folded into the bot's
//! record (including the WhatsApp link marker and the exit notice), the QR
//! image pipeline, and the merge of command output into the bot's status.

use vstd::prelude::*;
use vstd::string::*;
use crate::manager::OwpenbotState;
use crate::text::{bounded_tail, contains_seq, int_digits};
use crate::worker::{EventModel, ProcessEvent, WorkerModel, OUTPUT_CAP};

verus! {

/// The line marker the bot prints once WhatsApp is linked.
pub open spec fn whatsapp_link_marker() -> Seq<char> {
    "WhatsApp linked"@
}

/// Whether an output line announces that WhatsApp is linked.
pub fn detect_whatsapp_link(line: &str) -> (r: bool)
    ensures
        r == contains_seq(line@, whatsapp_link_marker()),
{
    let hay = crate::text::str_to_chars(line);
    let needle = crate::text::str_to_chars("WhatsApp linked");
    crate::text::contains_chars(&hay, &needle)
}

/// The stderr notice kept when the bot exits with a code.
pub open spec fn bot_exit_notice(code: int) -> Seq<char> {
    "Owpenbot exited (code "@ + int_digits(code) + ")."@
}

/// How one stream event changes the bot's worker record and its linked flag:
/// like any worker, except that a stdout line may flip the linked flag and a
/// coded exit replaces the stderr tail with an exit notice.
pub open spec fn bot_apply(m: WorkerModel, linked: bool, e: EventModel) -> (WorkerModel, bool) {
    match e {
        EventModel::Stdout(c) => (
            crate::worker::worker_apply(m, e),
            linked || contains_seq(c, whatsapp_link_marker()),
        ),
        EventModel::Stderr(_) => (crate::worker::worker_apply(m, e), linked),
        EventModel::Terminated(code) => (
            match code {
                Some(c) => WorkerModel {
                    child_exited: true,
                    stderr: bounded_tail(bot_exit_notice(c as int), OUTPUT_CAP as nat),
                    ..m
                },
                None => WorkerModel { child_exited: true, ..m },
            },
            linked,
        ),
        EventModel::SpawnError(_) => (crate::worker::worker_apply(m, e), linked),
    }
}

/// Folds one stream event into the bot's record. The drain task calls this
/// under the bot manager's lock.
pub fn apply_bot_event(state: &mut OwpenbotState, event: &ProcessEvent)
    requires
        old(state).wf(),
    ensures
        (final(state).worker@, final(state).whatsapp_linked) == bot_apply(
            old(state).worker@,
            old(state).whatsapp_linked,
            event@,
        ),
        final(state).workspace_path == old(state).workspace_path,
        final(state).opencode_url == old(state).opencode_url,
        final(state).qr_data == old(state).qr_data,
        final(state).telegram_configured == old(state).telegram_configured,
        final(state).wf(),
{
    match event {
        ProcessEvent::Stdout(bytes) => {
            let decoded = crate::worker::decode_lossy(bytes);
            crate::worker::append_capped(&mut state.worker.stdout_buffer, decoded.as_str());
            if detect_whatsapp_link(decoded.as_str()) {
                state.whatsapp_linked = true;
            }
        },
        ProcessEvent::Stderr(_) => {
            state.worker.apply_event(event);
        },
        ProcessEvent::Terminated(code) => {
            state.worker.child_exited = true;
            if let Some(c) = code {
                let mut msg = String::from_str("Owpenbot exited (code ");
                let digits = crate::text::i32_to_string(*c);
                msg.append(digits.as_str());
                msg.append(").");
                state.worker.stderr_buffer = crate::text::truncate_output(
                    msg.as_str(),
                    OUTPUT_CAP,
                );
            }
        },
        ProcessEvent::SpawnError(_) => {
            state.worker.apply_event(event);
        },
    }
}

/// The uniform failure message for a bot helper command.
pub fn command_failure(context: &str, detail: &str) -> (r: String)
    ensures
        r@ == "Failed to "@ + context@ + ": "@ + detail@,
{
    let mut msg = String::from_str("Failed to ");
    msg.append(context);
    msg.append(": ");
    msg.append(detail);
    msg
}

/// What the QR pipeline produces for given data: the base64 of the PNG of its
/// QR code. A function of the data alone.
pub uninterp spec fn qr_png_b64(data: Seq<char>) -> Seq<char>;

/// Relies on `qrcode::QrCode::new`, its `image` renderer and base64's
/// standard engine: on success, the base64-encoded PNG rendering of the QR
/// code for the data, at least 256 pixels a side — a function of the data
/// alone. Encoding fails (with the library's error text) for data beyond QR
/// capacity.
#[verifier::external_body]
fn qr_png_base64_raw(data: &str) -> (r: Result<String, String>)
    ensures
        r matches Ok(png) ==> png@ == qr_png_b64(data@),
{
    let code = match qrcode::QrCode::new(data.as_bytes()) {
        Ok(code) => code,
        Err(e) => return Err(format!("Failed to encode QR: {e}")),
    };
    let image = code.render::<image::Luma<u8>>().min_dimensions(256, 256).build();
    let mut buffer = Vec::new();
    if let Err(e) = image::DynamicImage::ImageLuma8(image).write_to(
        &mut std::io::Cursor::new(&mut buffer),
        image::ImageFormat::Png,
    ) {
        return Err(format!("Failed to encode QR image: {e}"));
    }
    Ok(base64::Engine::encode(&base64::engine::general_purpose::STANDARD, buffer))
}

/// Turns the bot's QR command output into a displayable image: the JSON reply
/// either carries an error, or the QR data that is rendered to a PNG and
/// base64-encoded. What each reply shape yields is decided here, in verified
/// code, over the fields the decoder hands out.
pub fn qr_from_response(stdout: &str) -> (r: Result<String, String>) {
    let v = match crate::jsonval::parse_json(stdout) {
        Ok(v) => v,
        Err(e) => {
            let mut msg = String::from_str("Failed to parse QR response: ");
            msg.append(e.as_str());
            return Err(msg);
        },
    };
    if let Some(err) = crate::jsonval::json_get(&v, "error") {
        if let Some(text) = crate::jsonval::json_str(err) {
            return Err(text);
        }
    }
    let data = match crate::jsonval::json_get(&v, "qr") {
        Some(q) => match crate::jsonval::json_str(q) {
            Some(s) => s,
            None => {
                return Err(String::from_str("No QR code returned"));
            },
        },
        None => {
            return Err(String::from_str("No QR code returned"));
        },
    };
    qr_png_base64_raw(data.as_str())
}

/// The bot's aggregate status, merged from its three status commands.
pub struct OwpenbotStatusReport {
    pub running: bool,
    pub config_path: String,
    pub health_port: Option<u64>,
    pub whatsapp_linked: bool,
    pub whatsapp_dm_policy: String,
    pub whatsapp_allow_from: Vec<String>,
    pub telegram_configured: bool,
    pub telegram_enabled: bool,
    pub opencode_url: String,
}

fn bool_field(v: &serde_json::Value, key: &str, default: bool) -> (r: bool) {
    match crate::jsonval::json_get(v, key) {
        Some(b) => match crate::jsonval::json_bool(b) {
            Some(b) => b,
            None => default,
        },
        None => default,
    }
}

fn string_field(v: &serde_json::Value, key: &str) -> (r: Option<String>) {
    match crate::jsonval::json_get(v, key) {
        Some(s) => crate::jsonval::json_str(s),
        None => None,
    }
}

/// Assembles the bot's status report from the three command payloads, the
/// manager's own running verdict and its recorded health port (which wins
/// over the reported one).
pub fn owpenbot_status_report(
    status: &serde_json::Value,
    whatsapp: &serde_json::Value,
    telegram: &serde_json::Value,
    running: bool,
    manager_health_port: Option<u16>,
) -> (r: OwpenbotStatusReport)
    ensures
        r.running == running,
        manager_health_port matches Some(p) ==> r.health_port == Some(p as u64),
{
    let config_path = match string_field(status, "config") {
        Some(p) => p,
        None => String::new(),
    };
    let opencode_url = match crate::jsonval::json_get(status, "opencode") {
        Some(o) => match string_field(o, "url") {
            Some(u) => u,
            None => String::new(),
        },
        None => String::new(),
    };
    let reported_port = match crate::jsonval::json_get(status, "healthPort") {
        Some(p) => crate::jsonval::json_u64(p),
        None => None,
    };
    let health_port = match manager_health_port {
        Some(p) => Some(p as u64),
        None => reported_port,
    };
    let whatsapp_linked = bool_field(whatsapp, "linked", false);
    let whatsapp_dm_policy = match string_field(whatsapp, "dmPolicy") {
        Some(p) => p,
        None => String::from_str("pairing"),
    };
    let whatsapp_allow_from = match crate::jsonval::json_get(whatsapp, "allowFrom") {
        Some(arr) => match crate::jsonval::json_array(arr) {
            Some(items) => {
                let mut out: Vec<String> = Vec::new();
                let mut i: usize = 0;
                while i < items.len()
                    decreases items@.len() - i,
                {
                    if let Some(s) = crate::jsonval::json_str(&items[i]) {
                        out.push(s);
                    }
                    i = i + 1;
                }
                out
            },
            None => Vec::new(),
        },
        None => Vec::new(),
    };
    let telegram_configured = bool_field(telegram, "configured", false);
    let telegram_enabled = bool_field(telegram, "enabled", false);
    OwpenbotStatusReport {
        running,
        config_path,
        health_port,
        whatsapp_linked,
        whatsapp_dm_policy,
        whatsapp_allow_from,
        telegram_configured,
        telegram_enabled,
        opencode_url,
    }
}

/// Folds a live health payload into a bot snapshot taken while the manager
/// thought nothing ran: the endpoint answered, so the bot runs; the engine
/// URL and channel flags come along when the payload names them. Fields the
/// snapshot already had stay untouched.
pub fn apply_health_to_info(info: &mut crate::manager::OwpenbotInfo, health: &serde_json::Value)
    ensures
        final(info).running,
        final(info).workspace_path == old(info).workspace_path,
        final(info).qr_data == old(info).qr_data,
        final(info).pid == old(info).pid,
        final(info).last_stdout == old(info).last_stdout,
        final(info).last_stderr == old(info).last_stderr,
        old(info).opencode_url matches Some(u) ==> final(info).opencode_url == Some(u),
{
    info.running = true;
    if info.opencode_url.is_none() {
        if let Some(o) = crate::jsonval::json_get(health, "opencode") {
            if let Some(url) = string_field(o, "url") {
                info.opencode_url = Some(url);
            }
        }
    }
    if let Some(channels) = crate::jsonval::json_get(health, "channels") {
        if let Some(t) = crate::jsonval::json_get(channels, "telegram") {
            if let Some(b) = crate::jsonval::json_bool(t) {
                info.telegram_configured = b;
            }
        }
        if let Some(w) = crate::jsonval::json_get(channels, "whatsapp") {
            if let Some(b) = crate::jsonval::json_bool(w) {
                info.whatsapp_linked = b;
            }
        }
    }
}

/// Folds the bot's own status command into a snapshot: the engine URL and
/// workspace are filled only where the snapshot had none (trimmed, and blank
/// values ignored); the channel flags follow the report.
pub fn merge_status_into_info(info: &mut crate::manager::OwpenbotInfo, status: &serde_json::Value)
    ensures
        final(info).running == old(info).running,
        final(info).pid == old(info).pid,
        final(info).qr_data == old(info).qr_data,
        final(info).last_stdout == old(info).last_stdout,
        final(info).last_stderr == old(info).last_stderr,
        old(info).opencode_url matches Some(u) ==> final(info).opencode_url == Some(u),
        old(info).workspace_path matches Some(p) ==> final(info).workspace_path == Some(p),
{
    if let Some(o) = crate::jsonval::json_get(status, "opencode") {
        if info.opencode_url.is_none() {
            if let Some(url) = string_field(o, "url") {
                let t = crate::text::trim_str(url.as_str());
                if t.as_str().unicode_len() > 0 {
                    info.opencode_url = Some(t);
                }
            }
        }
        if info.workspace_path.is_none() {
            if let Some(dir) = string_field(o, "directory") {
                let t = crate::text::trim_str(dir.as_str());
                if t.as_str().unicode_len() > 0 {
                    info.workspace_path = Some(t);
                }
            }
        }
    }
    if let Some(w) = crate::jsonval::json_get(status, "whatsapp") {
        if let Some(linked) = crate::jsonval::json_get(w, "linked") {
            if let Some(b) = crate::jsonval::json_bool(linked) {
                info.whatsapp_linked = b;
            }
        }
    }
    if let Some(t) = crate::jsonval::json_get(status, "telegram") {
        if let Some(configured) = crate::jsonval::json_get(t, "configured") {
            if let Some(b) = crate::jsonval::json_bool(configured) {
                info.telegram_configured = b;
            }
        }
    }
}

} // verus!
