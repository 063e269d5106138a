//! Monitor identifiers and the capability that resolves them.
//!
//! A [`MonitorIdent`] is a lightweight, serializable reference to a display
//! monitor. It can only be turned into a concrete [`MonitorHandle`] through a
//! [`MonitorsAccess`] capability supplied by the windowing environment at
//! conversion time; the configuration record itself stays free of any
//! environment coupling.

use vstd::prelude::*;

verus! {

/// A serializable reference to a display monitor: a position in the monitor
/// list together with the name the monitor had when the reference was made.
#[derive(Clone, Debug, PartialEq, Eq)]
pub struct MonitorIdent {
    /// Position of the monitor in the environment's monitor list.
    pub index: usize,
    /// Name the monitor had when the identifier was created.
    pub name: String,
}

/// Mathematical model of a [`MonitorIdent`].
pub struct MonitorIdentView {
    pub index: int,
    pub name: Seq<char>,
}

impl View for MonitorIdent {
    type V = MonitorIdentView;

    open spec fn view(&self) -> MonitorIdentView {
        MonitorIdentView { index: self.index as int, name: self.name@ }
    }
}

/// An opaque token for a concrete, currently attached monitor. The embedding
/// that owns the real monitor objects chooses the token values and maps a
/// token back to its monitor after conversion.
#[derive(Clone, Copy, Debug, PartialEq, Eq, Structural)]
pub struct MonitorHandle {
    pub id: u64,
}

/// Capability to resolve monitor identifiers against the live monitor
/// environment. It is supplied by the windowing environment and injected as
/// an explicit parameter of the conversion; resolution is a read-only query.
pub trait MonitorsAccess {
    /// The resolution this capability performs, as a mathematical function
    /// from identifier to handle.
    spec fn spec_resolve(&self, ident: MonitorIdentView) -> Option<MonitorHandle>;

    /// Resolves `ident` to the handle of a currently attached monitor, or
    /// `None` when the identifier is stale or out of range.
    fn resolve(&self, ident: &MonitorIdent) -> (r: Option<MonitorHandle>)
        ensures
            r == self.spec_resolve(ident@),
    ;
}

/// One attached monitor as a [`MonitorList`] capability sees it.
#[derive(Clone, Debug, PartialEq, Eq)]
pub struct MonitorEntry {
    /// Current name of the monitor.
    pub name: String,
    /// Token for the monitor, chosen by the embedding.
    pub handle: MonitorHandle,
}

/// A [`MonitorsAccess`] backed by a plain list of the attached monitors, in
/// the environment's order. An identifier resolves exactly when its index is
/// in range and the name at that position still matches; a renamed or
/// detached monitor makes the identifier stale.
#[derive(Clone, Debug, PartialEq, Eq)]
pub struct MonitorList {
    pub entries: Vec<MonitorEntry>,
}

impl MonitorsAccess for MonitorList {
    open spec fn spec_resolve(&self, ident: MonitorIdentView) -> Option<MonitorHandle> {
        if 0 <= ident.index < self.entries@.len() && self.entries@[ident.index].name@ == ident.name {
            Some(self.entries@[ident.index].handle)
        } else {
            None
        }
    }

    fn resolve(&self, ident: &MonitorIdent) -> (r: Option<MonitorHandle>) {
        if ident.index < self.entries.len() {
            let entry = &self.entries[ident.index];
            if entry.name == ident.name {
                Some(entry.handle)
            } else {
                None
            }
        } else {
            None
        }
    }
}

} // verus!
