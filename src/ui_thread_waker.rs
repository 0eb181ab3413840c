//! Waking the UI thread when there is something new to draw.
use vstd::prelude::*;

verus! {

/// Something that can wake the UI thread from sleep, so that it repaints.
/// How it does so is up to the implementer.
pub trait UiThreadWaker {
    /// Wake the UI thread.
    fn wake_ui_thread(&self);
}

} // verus!
