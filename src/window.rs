//! Script installed into every page before it runs.

use vstd::prelude::*;

verus! {

/// Disables the context menu, exposes `window.native.send`, and installs the
/// resolver that delivery scripts call with each response.
pub const INIT_SCRIPT: &'static str = r#"
        document.addEventListener('contextmenu', function(e) { e.preventDefault(); });
        window.native = {
            send: function(msg) {
                if (window.ipc && typeof window.ipc.postMessage === 'function') {
                    window.ipc.postMessage(msg);
                }
            }
        };
        window.__ipcResolve = window.__ipcResolve || {};
        window.__resolveIpc = function(id, json) {
            if (window.__ipcResolve[id]) {
                window.__ipcResolve[id](json);
                delete window.__ipcResolve[id];
            }
        };
    "#;

/// The initialization script for the UI surface.
pub fn init_script() -> (r: &'static str)
    ensures
        r@ == INIT_SCRIPT@,
{
    INIT_SCRIPT
}

} // verus!
