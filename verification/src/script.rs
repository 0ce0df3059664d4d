//! The JavaScript snippets the plugin evaluates in the webview: the one that
//! announces the platform, and the ones that hand worklet events to the
//! webview callbacks.
use vstd::prelude::*;

use crate::decimal::{decimal, push_decimal, push_signed_decimal, signed_decimal};

verus! {

/// `true` or `false`, as JavaScript writes them.
pub open spec fn bool_text(b: bool) -> Seq<char> {
    if b {
        "true"@
    } else {
        "false"@
    }
}

/// The call of webview callback `callback`, up to its first argument.
pub open spec fn callback_head(callback: u32) -> Seq<char> {
    "window.__TAURI_INTERNALS__.runCallback("@ + decimal(callback as nat)
}

/// The script that reports poll events.
pub open spec fn poll_script_text(callback: u32, readable: bool, writable: bool) -> Seq<char> {
    callback_head(callback) + ", { readable: "@ + bool_text(readable) + ", writable: "@ + bool_text(
        writable,
    ) + " })"@
}

/// The script that reports a suspension.
pub open spec fn suspend_script_text(callback: u32, linger: i32) -> Seq<char> {
    callback_head(callback) + ", { linger: "@ + signed_decimal(linger as int) + " })"@
}

/// The script that reports a wakeup.
pub open spec fn wakeup_script_text(callback: u32, deadline: i32) -> Seq<char> {
    callback_head(callback) + ", { deadline: "@ + signed_decimal(deadline as int) + " })"@
}

/// The script that reports an event without details (idle, resume).
pub open spec fn event_script_text(callback: u32) -> Seq<char> {
    callback_head(callback) + ")"@
}

/// The script that tells the webview which platform it runs on.
pub open spec fn init_script_text(platform: Seq<char>) -> Seq<char> {
    "Object.defineProperty(window, '__TAURI_BARE_KIT_PLUGIN_INTERNALS__', { value: { platform: '"@
        + platform + "' } })"@
}

fn push_bool(out: &mut String, b: bool)
    ensures
        final(out)@ == old(out)@ + bool_text(b),
{
    if b {
        out.append("true");
    } else {
        out.append("false");
    }
}

fn callback_start(callback: u32) -> (out: String)
    ensures
        out@ == callback_head(callback),
{
    let mut out = String::new();
    out.append("window.__TAURI_INTERNALS__.runCallback(");
    push_decimal(&mut out, callback as u64);
    assert(out@ =~= callback_head(callback));
    out
}

/// The script that hands poll events to webview callback `callback`.
pub fn poll_script(callback: u32, readable: bool, writable: bool) -> (script: String)
    ensures
        script@ == poll_script_text(callback, readable, writable),
{
    let mut out = callback_start(callback);
    out.append(", { readable: ");
    push_bool(&mut out, readable);
    out.append(", writable: ");
    push_bool(&mut out, writable);
    out.append(" })");
    assert(out@ =~= poll_script_text(callback, readable, writable));
    out
}

/// The script that hands a suspension, with its linger time, to webview
/// callback `callback`.
pub fn suspend_script(callback: u32, linger: i32) -> (script: String)
    ensures
        script@ == suspend_script_text(callback, linger),
{
    let mut out = callback_start(callback);
    out.append(", { linger: ");
    push_signed_decimal(&mut out, linger as i64);
    out.append(" })");
    assert(out@ =~= suspend_script_text(callback, linger));
    out
}

/// The script that hands a wakeup, with its deadline, to webview callback
/// `callback`.
pub fn wakeup_script(callback: u32, deadline: i32) -> (script: String)
    ensures
        script@ == wakeup_script_text(callback, deadline),
{
    let mut out = callback_start(callback);
    out.append(", { deadline: ");
    push_signed_decimal(&mut out, deadline as i64);
    out.append(" })");
    assert(out@ =~= wakeup_script_text(callback, deadline));
    out
}

/// The script that calls webview callback `callback` without arguments.
pub fn event_script(callback: u32) -> (script: String)
    ensures
        script@ == event_script_text(callback),
{
    let mut out = callback_start(callback);
    out.append(")");
    assert(out@ =~= event_script_text(callback));
    out
}

/// The script that records the platform name for the webview side of the
/// plugin.
pub fn init_script(platform: &str) -> (script: String)
    ensures
        script@ == init_script_text(platform@),
{
    let mut out = String::new();
    out.append(
        "Object.defineProperty(window, '__TAURI_BARE_KIT_PLUGIN_INTERNALS__', { value: { platform: '",
    );
    out.append(platform);
    out.append("' } })");
    assert(out@ =~= init_script_text(platform@));
    out
}

/// The poll script reports exactly the flags it is given, each on its own:
/// after the callback head come `readable: ` with `true` or `false` as the
/// readable flag says, then `writable: ` with `true` or `false` as the
/// writable flag says. Reading the character after each label gives the
/// flag back, so scripts for different flags differ.
pub proof fn lemma_poll_script_reports_flags(callback: u32, readable: bool, writable: bool)
    ensures
        poll_script_text(callback, readable, writable) == callback_head(callback)
            + ", { readable: "@ + (if readable {
            "true"@
        } else {
            "false"@
        }) + ", writable: "@ + (if writable {
            "true"@
        } else {
            "false"@
        }) + " })"@,
        poll_script_text(callback, readable, writable)[callback_head(callback).len() + 14int] == (
        if readable {
            't'
        } else {
            'f'
        }),
        poll_script_text(callback, readable, writable)[callback_head(callback).len() + 14int + (
        if readable {
            4int
        } else {
            5int
        }) + 12] == (if writable {
            't'
        } else {
            'f'
        }),
{
    reveal_strlit(", { readable: ");
    reveal_strlit(", writable: ");
    reveal_strlit("true");
    reveal_strlit("false");
    reveal_strlit(" })");
    let head = callback_head(callback);
    let r = if readable {
        "true"@
    } else {
        "false"@
    };
    let w = if writable {
        "true"@
    } else {
        "false"@
    };
    let text = poll_script_text(callback, readable, writable);
    assert(text =~= head + ", { readable: "@ + r + ", writable: "@ + w + " })"@);
    assert(text[head.len() + 14int] == r[0]);
    assert(text[head.len() + 14int + r.len() + 12int] == w[0]);
}

/// Poll scripts for different flags differ.
pub proof fn lemma_poll_scripts_distinguish_flags(
    callback: u32,
    readable: bool,
    writable: bool,
    readable2: bool,
    writable2: bool,
)
    requires
        readable != readable2 || writable != writable2,
    ensures
        poll_script_text(callback, readable, writable) != poll_script_text(
            callback,
            readable2,
            writable2,
        ),
{
    lemma_poll_script_reports_flags(callback, readable, writable);
    lemma_poll_script_reports_flags(callback, readable2, writable2);
    if poll_script_text(callback, readable, writable) == poll_script_text(
        callback,
        readable2,
        writable2,
    ) {
        let head = callback_head(callback);
        if readable != readable2 {
            assert(poll_script_text(callback, readable, writable)[head.len() + 14int]
                != poll_script_text(callback, readable2, writable2)[head.len() + 14int]);
        } else {
            let k = head.len() + 14int + (if readable {
                4int
            } else {
                5int
            }) + 12;
            assert(poll_script_text(callback, readable, writable)[k] != poll_script_text(
                callback,
                readable2,
                writable2,
            )[k]);
        }
    }
}

/// Every callback script calls `window.__TAURI_INTERNALS__.runCallback` with
/// the callback's number in decimal first; the suspend script then passes
/// the linger time under `linger`, the wakeup script the deadline under
/// `deadline` (both in signed decimal), and the idle and resume scripts
/// nothing more.
pub proof fn lemma_callback_scripts(callback: u32, value: i32)
    ensures
        suspend_script_text(callback, value) == "window.__TAURI_INTERNALS__.runCallback("@
            + decimal(callback as nat) + ", { linger: "@ + signed_decimal(value as int)
            + " })"@,
        wakeup_script_text(callback, value) == "window.__TAURI_INTERNALS__.runCallback("@
            + decimal(callback as nat) + ", { deadline: "@ + signed_decimal(value as int)
            + " })"@,
        event_script_text(callback) == "window.__TAURI_INTERNALS__.runCallback("@ + decimal(
            callback as nat,
        ) + ")"@,
{
}

} // verus!
