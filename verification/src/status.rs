//! Lifecycle status of one model: not loaded, loading, ready, or failed
//! with a message.

use vstd::prelude::*;

verus! {

/// Mathematical value of a [`ModelStatus`]: the error message is viewed
/// as its character sequence.
pub enum StatusView {
    NotLoaded,
    Loading,
    Ready,
    Error(Seq<char>),
}

/// Lifecycle status of one model. A model starts `NotLoaded`, turns
/// `Loading` when its first byte chunk arrives, and on an explicit load
/// attempt becomes `Ready` or `Error(message)`. Only an explicit clear
/// returns it to `NotLoaded`.
#[derive(Debug)]
pub enum ModelStatus {
    NotLoaded,
    Loading,
    Ready,
    Error(String),
}

impl View for ModelStatus {
    type V = StatusView;

    open spec fn view(&self) -> StatusView {
        match self {
            ModelStatus::NotLoaded => StatusView::NotLoaded,
            ModelStatus::Loading => StatusView::Loading,
            ModelStatus::Ready => StatusView::Ready,
            ModelStatus::Error(m) => StatusView::Error(m@),
        }
    }
}

impl Clone for ModelStatus {
    fn clone(&self) -> (r: Self)
        ensures
            r@ == self@,
    {
        match self {
            ModelStatus::NotLoaded => ModelStatus::NotLoaded,
            ModelStatus::Loading => ModelStatus::Loading,
            ModelStatus::Ready => ModelStatus::Ready,
            ModelStatus::Error(m) => ModelStatus::Error(m.clone()),
        }
    }
}

impl Default for ModelStatus {
    fn default() -> (r: Self)
        ensures
            r@ == StatusView::NotLoaded,
    {
        ModelStatus::NotLoaded
    }
}

impl PartialEq for ModelStatus {
    fn eq(&self, other: &Self) -> (r: bool) {
        match (self, other) {
            (ModelStatus::NotLoaded, ModelStatus::NotLoaded) => true,
            (ModelStatus::Loading, ModelStatus::Loading) => true,
            (ModelStatus::Ready, ModelStatus::Ready) => true,
            (ModelStatus::Error(a), ModelStatus::Error(b)) => *a == *b,
            _ => false,
        }
    }
}

impl vstd::std_specs::cmp::PartialEqSpecImpl for ModelStatus {
    open spec fn obeys_eq_spec() -> bool {
        true
    }

    open spec fn eq_spec(&self, other: &Self) -> bool {
        self@ == other@
    }
}

impl ModelStatus {
    /// True exactly when the status is `Ready`.
    pub fn is_ready(&self) -> (r: bool)
        ensures
            r == (self@ is Ready),
    {
        match self {
            ModelStatus::Ready => true,
            _ => false,
        }
    }
}

} // verus!
