//! Decisions of the single cooperative event loop, and the batch script that
//! delivers queued responses into the UI surface.
//!
//! Producers push serialized responses to the queue and send `IpcFlush`; the
//! loop drains the queue and delivers everything in one script evaluation.
//! Each response is resolved inside its own `try`, so one malformed payload
//! cannot abort its siblings.

use std::borrow::Cow;

use vstd::prelude::*;

use crate::bus::ResponseQueue;
use crate::strs::text_eq;

verus! {

/// Events sent from background threads or the IPC path into the main loop.
#[derive(Debug, Clone, Copy, PartialEq, Eq, Structural)]
pub enum UserEvent {
    /// Wake to drain the response queue and deliver a batch.
    IpcFlush,
    /// Show the window (after the first load or the fallback timeout).
    ShowWindow,
    /// Hide the window (minimize to tray).
    HideWindow,
    /// Exit the application.
    Quit,
}

/// Whether `c` is rewritten when a JSON text is embedded in a JS string.
pub open spec fn needs_escape(c: char) -> bool {
    c == '\\' || c == '"' || c == '\n' || c == '\r'
}

/// What `c` becomes inside a JS string literal.
pub open spec fn escape_char(c: char) -> Seq<char> {
    if c == '\\' {
        "\\\\"@
    } else if c == '"' {
        "\\\""@
    } else if c == '\n' {
        "\\n"@
    } else if c == '\r' {
        "\\r"@
    } else {
        seq![c]
    }
}

/// `s` with each character escaped for a JS string literal.
pub open spec fn escaped(s: Seq<char>) -> Seq<char>
    decreases s.len(),
{
    if s.len() == 0 {
        Seq::empty()
    } else {
        escaped(s.drop_last()) + escape_char(s.last())
    }
}

fn is_escaped_char(c: char) -> (r: bool)
    ensures
        r == needs_escape(c),
{
    c == '\\' || c == '"' || c == '\n' || c == '\r'
}

proof fn lemma_escaped_identity(s: Seq<char>)
    requires
        forall|i: int| 0 <= i < s.len() ==> !needs_escape(#[trigger] s[i]),
    ensures
        escaped(s) == s,
    decreases s.len(),
{
    if s.len() > 0 {
        let t = s.drop_last();
        assert(forall|i: int| 0 <= i < t.len() ==> t[i] == s[i]);
        lemma_escaped_identity(t);
        assert(!needs_escape(s[s.len() - 1]));
        assert(escaped(s) =~= s);
    }
}

/// Escapes a JSON text for embedding inside a JS string literal: backslash,
/// double quote, newline and carriage return. Borrows when nothing needs it.
pub fn escape_json_for_js(s: &str) -> (r: Cow<'_, str>)
    ensures
        r@ == escaped(s@),
        (forall|i: int| 0 <= i < s@.len() ==> !needs_escape(#[trigger] s@[i])) ==> r is Borrowed,
{
    let n = s.unicode_len();
    let mut i: usize = 0;
    while i < n && !is_escaped_char(s.get_char(i))
        invariant
            n == s@.len(),
            i <= n,
            forall|k: int| 0 <= k < i ==> !needs_escape(#[trigger] s@[k]),
        decreases n - i,
    {
        i = i + 1;
    }
    if i == n {
        proof {
            lemma_escaped_identity(s@);
        }
        return Cow::Borrowed(s);
    }
    let mut out = String::new();
    let mut j: usize = 0;
    while j < n
        invariant
            n == s@.len(),
            j <= n,
            out@ == escaped(s@.subrange(0, j as int)),
        decreases n - j,
    {
        let c = s.get_char(j);
        if c == '\\' {
            out.append("\\\\");
        } else if c == '"' {
            out.append("\\\"");
        } else if c == '\n' {
            out.append("\\n");
        } else if c == '\r' {
            out.append("\\r");
        } else {
            out.append(s.substring_char(j, j + 1));
        }
        assert(s@.subrange(0, j + 1).drop_last() =~= s@.subrange(0, j as int));
        j = j + 1;
    }
    assert(s@.subrange(0, n as int) =~= s@);
    Cow::Owned(out)
}

/// Opening of a delivery script: resolution runs only when the page installed
/// its resolver.
pub const SCRIPT_OPEN: &'static str = "if (window.__resolveIpc) { ";

/// Closing of a delivery script.
pub const SCRIPT_CLOSE: &'static str = " }";

/// Text before the escaped response in one resolution call.
pub const RESOLVE_OPEN: &'static str = "try { var r = JSON.parse(\"";

/// Text after the escaped response in one resolution call.
pub const RESOLVE_CLOSE: &'static str = "\"); window.__resolveIpc(r.id, r); } catch(e) {}";

/// The guarded resolution call for one serialized response.
pub open spec fn resolve_call(response: Seq<char>) -> Seq<char> {
    RESOLVE_OPEN@ + escaped(response) + RESOLVE_CLOSE@
}

/// The resolution calls for a batch, in batch order.
pub open spec fn resolve_calls(batch: Seq<String>) -> Seq<char>
    decreases batch.len(),
{
    if batch.len() == 0 {
        Seq::empty()
    } else {
        resolve_calls(batch.drop_last()) + resolve_call(batch.last()@)
    }
}

/// The one script that delivers a whole batch.
pub open spec fn script_for(batch: Seq<String>) -> Seq<char> {
    SCRIPT_OPEN@ + resolve_calls(batch) + SCRIPT_CLOSE@
}

/// Builds the script that resolves every response of `batch`, in order,
/// each inside its own `try`.
pub fn delivery_script(batch: &Vec<String>) -> (r: String)
    ensures
        r@ == script_for(batch@),
{
    let mut calls = String::new();
    let n = batch.len();
    let mut i: usize = 0;
    while i < n
        invariant
            n == batch@.len(),
            i <= n,
            calls@ == resolve_calls(batch@.subrange(0, i as int)),
        decreases n - i,
    {
        let escaped = escape_json_for_js(batch[i].as_str());
        calls.append(RESOLVE_OPEN);
        match &escaped {
            Cow::Borrowed(b) => calls.append(b),
            Cow::Owned(o) => calls.append(o.as_str()),
        }
        calls.append(RESOLVE_CLOSE);
        assert(batch@.subrange(0, i + 1).drop_last() =~= batch@.subrange(0, i as int));
        i = i + 1;
    }
    assert(batch@.subrange(0, n as int) =~= batch@);
    let mut script = String::from_str(SCRIPT_OPEN);
    script.append(calls.as_str());
    script.append(SCRIPT_CLOSE);
    script
}

/// Drains the queue for one delivery. Returns the script for the drained
/// batch, or `None` when nothing was waiting (then nothing is to be flushed).
pub fn drain_for_delivery(queue: &mut ResponseQueue) -> (r: Option<String>)
    requires
        old(queue).wf(),
    ensures
        final(queue).wf(),
        final(queue)@.items == Seq::<String>::empty(),
        final(queue)@.pending == if old(queue)@.pending >= old(queue)@.items.len() {
            old(queue)@.pending - old(queue)@.items.len()
        } else {
            0
        },
        final(queue)@.capacity == old(queue)@.capacity,
        old(queue)@.items.len() == 0 ==> r is None,
        old(queue)@.items.len() > 0 ==> (r matches Some(s) && s@ == script_for(old(queue)@.items)),
{
    let batch = queue.drain_all();
    if batch.len() == 0 {
        None
    } else {
        Some(delivery_script(&batch))
    }
}

/// An event as the loop sees it.
#[derive(Debug, Clone, Copy, PartialEq, Eq, Structural)]
pub enum LoopEvent {
    /// An event sent into the loop by the host itself.
    User(UserEvent),
    /// The window's close button was used.
    CloseRequested,
    /// The platform's queue of events is empty for now.
    MainEventsCleared,
    /// Anything the loop does not react to.
    Other,
}

/// What the loop does for one event.
#[derive(Debug, Clone, Copy, PartialEq, Eq, Structural)]
pub enum LoopAction {
    Nothing,
    ShowWindow,
    HideWindow,
    /// Drain the response queue and deliver what it held.
    Drain,
    /// Persist the window geometry, then stop.
    SaveBoundsAndExit,
    Exit,
}

/// How the loop waits for its next event.
#[derive(Debug, Clone, Copy, PartialEq, Eq, Structural)]
pub enum Flow {
    /// Park until an event arrives.
    Wait,
    /// Run again at once: more work may be queued.
    Poll,
    /// Stop the loop.
    Exit,
}

/// The reaction that each event calls for while the loop runs. An idle tick
/// drains too, so a missed wake heals itself.
pub open spec fn action_for(event: LoopEvent) -> LoopAction {
    match event {
        LoopEvent::User(UserEvent::IpcFlush) => LoopAction::Drain,
        LoopEvent::User(UserEvent::ShowWindow) => LoopAction::ShowWindow,
        LoopEvent::User(UserEvent::HideWindow) => LoopAction::HideWindow,
        LoopEvent::User(UserEvent::Quit) => LoopAction::Exit,
        LoopEvent::CloseRequested => LoopAction::SaveBoundsAndExit,
        LoopEvent::MainEventsCleared => LoopAction::Drain,
        LoopEvent::Other => LoopAction::Nothing,
    }
}

/// Whether an action ends the loop.
pub open spec fn ends_loop(action: LoopAction) -> bool {
    action == LoopAction::Exit || action == LoopAction::SaveBoundsAndExit
}

/// State of the event loop: running until a terminal event, then done for
/// good.
pub struct Orchestrator {
    exited: bool,
}

impl Orchestrator {
    /// Whether a terminal event has been handled.
    pub closed spec fn has_exited(&self) -> bool {
        self.exited
    }

    /// A loop that has not yet handled any event.
    pub fn new() -> (r: Self)
        ensures
            !r.has_exited(),
    {
        Orchestrator { exited: false }
    }

    /// Whether a terminal event has been handled.
    pub fn is_exited(&self) -> (r: bool)
        ensures
            r == self.has_exited(),
    {
        self.exited
    }

    /// Decides the reaction to one event. Once the loop has exited, every
    /// event is ignored: no drain happens after exit.
    pub fn on_event(&mut self, event: LoopEvent) -> (action: LoopAction)
        ensures
            old(self).has_exited() ==> action == LoopAction::Nothing && final(self).has_exited(),
            !old(self).has_exited() ==> action == action_for(event) && final(self).has_exited()
                == ends_loop(action),
    {
        if self.exited {
            return LoopAction::Nothing;
        }
        let action = match event {
            LoopEvent::User(UserEvent::IpcFlush) => LoopAction::Drain,
            LoopEvent::User(UserEvent::ShowWindow) => LoopAction::ShowWindow,
            LoopEvent::User(UserEvent::HideWindow) => LoopAction::HideWindow,
            LoopEvent::User(UserEvent::Quit) => LoopAction::Exit,
            LoopEvent::CloseRequested => LoopAction::SaveBoundsAndExit,
            LoopEvent::MainEventsCleared => LoopAction::Drain,
            LoopEvent::Other => LoopAction::Nothing,
        };
        if action == LoopAction::Exit || action == LoopAction::SaveBoundsAndExit {
            self.exited = true;
        }
        action
    }

    /// How to wait after carrying out `action`; `delivered` says whether a
    /// drain delivered a non-empty batch. A delivery polls once more, since
    /// more work may already be queued; otherwise the loop parks.
    pub fn control_flow(&self, action: LoopAction, delivered: bool) -> (r: Flow)
        ensures
            r == if self.has_exited() {
                Flow::Exit
            } else if action == LoopAction::Drain && delivered {
                Flow::Poll
            } else {
                Flow::Wait
            },
    {
        if self.exited {
            Flow::Exit
        } else if action == LoopAction::Drain && delivered {
            Flow::Poll
        } else {
            Flow::Wait
        }
    }
}

/// Menu id of the tray's "Show" item.
pub const TRAY_SHOW_ID: &'static str = "show";

/// Menu id of the tray's "Quit" item.
pub const TRAY_QUIT_ID: &'static str = "quit";

/// The event that a tray menu item sends, by its id.
pub fn tray_menu_event(id: &str) -> (r: Option<UserEvent>)
    ensures
        id@ == TRAY_SHOW_ID@ ==> r == Some(UserEvent::ShowWindow),
        id@ == TRAY_QUIT_ID@ ==> r == Some(UserEvent::Quit),
        id@ != TRAY_SHOW_ID@ && id@ != TRAY_QUIT_ID@ ==> r is None,
{
    proof {
        reveal_strlit("show");
        reveal_strlit("quit");
        assert(TRAY_SHOW_ID@[0] != TRAY_QUIT_ID@[0]);
    }
    if text_eq(id, TRAY_SHOW_ID) {
        Some(UserEvent::ShowWindow)
    } else if text_eq(id, TRAY_QUIT_ID) {
        Some(UserEvent::Quit)
    } else {
        None
    }
}

} // verus!
