//! Fanwaave's toolkit-neutral desktop boundary around the shared native
//! drag-and-drop bridge: the drop policy it applies. Definitive data is always
//! re-admitted at drop time against that same policy.
use crate::dnd::DndOperation;
use vstd::prelude::*;

verus! {

/// The kinds of dragged items.
#[derive(Clone, Copy, Debug, PartialEq, Eq, Hash, Structural)]
pub enum DndItemKind {
    Text,
    Uri,
    Json,
    Bytes,
}

/// The terms of a drop policy: the target it guards, the operations it allows
/// and the item kinds it accepts.
#[derive(Debug)]
pub struct DropPolicyTerms {
    pub target_id: String,
    pub operations: Vec<DndOperation>,
    pub item_kinds: Vec<DndItemKind>,
}

impl DropPolicyTerms {
    /// Fanwaave's default desktop policy for `target_id`: copy or move of text,
    /// URI, JSON or bytes items.
    pub fn fanwaave_default(target_id: String) -> (p: DropPolicyTerms)
        ensures
            p.target_id@ == target_id@,
            p.operations@ == seq![DndOperation::Copy, DndOperation::Move],
            p.item_kinds@ == seq![DndItemKind::Text, DndItemKind::Uri, DndItemKind::Json, DndItemKind::Bytes],
    {
        DropPolicyTerms {
            target_id,
            operations: vec![DndOperation::Copy, DndOperation::Move],
            item_kinds: vec![DndItemKind::Text, DndItemKind::Uri, DndItemKind::Json, DndItemKind::Bytes],
        }
    }
}

} // verus!
