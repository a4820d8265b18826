use vstd::prelude::*;

verus! {

/// How long the page must have been quiet after its last network-idle event.
pub const WAIT_AFTER_LAST_IDLE_MS: u64 = 1000;

/// Tracks the rendering engine's lifecycle events for one page, by the
/// milliseconds elapsed since the page was opened.
pub struct EventHandler {
    /// When the last network-idle event came; 0 while none has come.
    pub last_network_idle_ms: u64,
}

impl EventHandler {
    pub fn new() -> (r: EventHandler)
        ensures
            r.last_network_idle_ms == 0,
    {
        EventHandler { last_network_idle_ms: 0 }
    }

    /// Records a lifecycle event named `event_name` that came `elapsed_ms`
    /// after the page was opened: a network-idle event moves the last idle
    /// time forward, any other event changes nothing.
    pub fn on_event(&mut self, event_name: &str, elapsed_ms: u64)
        ensures
            final(self).last_network_idle_ms == if event_name@ == "networkIdle"@ {
                if elapsed_ms > old(self).last_network_idle_ms {
                    elapsed_ms
                } else {
                    old(self).last_network_idle_ms
                }
            } else {
                old(self).last_network_idle_ms
            },
    {
        if String::from_str(event_name) == String::from_str("networkIdle") {
            if elapsed_ms > self.last_network_idle_ms {
                self.last_network_idle_ms = elapsed_ms;
            }
        }
    }

    /// Whether the page has settled at `elapsed_ms`: a network-idle event has
    /// come, and more than the quiet window has passed since the last one.
    pub fn is_idle(&self, elapsed_ms: u64) -> (r: bool)
        ensures
            r == (self.last_network_idle_ms != 0 && elapsed_ms - self.last_network_idle_ms
                > WAIT_AFTER_LAST_IDLE_MS),
    {
        self.last_network_idle_ms != 0 && elapsed_ms > self.last_network_idle_ms && elapsed_ms
            - self.last_network_idle_ms > WAIT_AFTER_LAST_IDLE_MS
    }
}

} // verus!
