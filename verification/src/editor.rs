//! Editor size constraints and the editor callback trait.

use vstd::prelude::*;
use crate::types::Size;

verus! {

/// Size constraints for the plugin editor.
#[derive(Debug, Clone, Copy, PartialEq, Eq, Structural)]
pub struct EditorConstraints {
    /// Minimum size.
    pub min: Size,
    /// Maximum size.
    pub max: Size,
    /// Whether the editor is resizable.
    pub resizable: bool,
}

impl Default for EditorConstraints {
    /// Resizable between 400x300 and 1600x1200.
    fn default() -> (c: Self)
        ensures
            c == (EditorConstraints {
                min: Size { width: 400, height: 300 },
                max: Size { width: 1600, height: 1200 },
                resizable: true,
            }),
    {
        EditorConstraints { min: Size::new(400, 300), max: Size::new(1600, 1200), resizable: true }
    }
}

/// Editor configuration and lifecycle callbacks, implemented by plugins.
pub trait EditorDelegate: Send {
    /// The initial editor size; 800x600 unless overridden.
    fn editor_size(&self) -> (r: Size)
        default_ensures
            r == (Size { width: 800, height: 600 }),
    {
        Size::new(800, 600)
    }

    /// The editor's size constraints; the defaults unless overridden.
    fn editor_constraints(&self) -> (r: EditorConstraints)
        default_ensures
            r == (EditorConstraints {
                min: Size { width: 400, height: 300 },
                max: Size { width: 1600, height: 1200 },
                resizable: true,
            }),
    {
        EditorConstraints::default()
    }

    /// Called when the editor is opened.
    fn editor_opened(&mut self) {
    }

    /// Called when the editor is closed.
    fn editor_closed(&mut self) {
    }

    /// Called when the editor is resized (to a size within the constraints).
    fn editor_resized(&mut self, new_size: Size) {
    }
}

/// Marker trait for plugins without an editor.
pub trait NoEditor {

}

} // verus!
