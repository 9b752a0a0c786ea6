use crate::shell::{Anchor, IcedMargin, IcedOutput, KeyboardInteractivity, Layer};
use crate::window::Id;
use vstd::prelude::*;

verus! {

/// What a layer surface is asked to be.
#[derive(Debug, Clone, PartialEq, Eq)]
pub struct SctkLayerSurfaceSettings {
    /// Unique id of the surface.
    pub id: Id,
    pub layer: Layer,
    pub keyboard_interactivity: KeyboardInteractivity,
    /// Whether the surface takes pointer input.
    pub pointer_interactivity: bool,
    pub anchor: Anchor,
    pub output: IcedOutput,
    pub namespace: String,
    pub margin: IcedMargin,
    /// The size asked for; a missing dimension is left to the anchors.
    pub size: Option<(Option<u32>, Option<u32>)>,
    pub exclusive_zone: i32,
}

impl SctkLayerSurfaceSettings {
    /// A surface on the top layer that is anchored nowhere, takes no
    /// keyboard focus and reserves no space.
    pub fn new(id: Id, namespace: String) -> (settings: SctkLayerSurfaceSettings)
        ensures
            settings == (SctkLayerSurfaceSettings {
                id,
                layer: Layer::Top,
                keyboard_interactivity: KeyboardInteractivity::Never,
                pointer_interactivity: true,
                anchor: Anchor { top: false, bottom: false, left: false, right: false },
                output: IcedOutput::Active,
                namespace,
                margin: IcedMargin { top: 0, right: 0, bottom: 0, left: 0 },
                size: None::<(Option<u32>, Option<u32>)>,
                exclusive_zone: 0,
            }),
    {
        SctkLayerSurfaceSettings {
            id,
            layer: Layer::Top,
            keyboard_interactivity: KeyboardInteractivity::Never,
            pointer_interactivity: true,
            anchor: Anchor::empty(),
            output: IcedOutput::Active,
            namespace,
            margin: IcedMargin { top: 0, right: 0, bottom: 0, left: 0 },
            size: None,
            exclusive_zone: 0,
        }
    }
}

/// Layer surface actions.
#[derive(Debug, Clone, PartialEq, Eq)]
pub enum Action {
    /// Create a layer surface.
    LayerSurface {
        /// What the surface is asked to be.
        builder: SctkLayerSurfaceSettings,
    },
    /// Set the size of the layer surface.
    Size {
        /// Id of the layer surface.
        id: Id,
        /// The new logical width.
        width: Option<u32>,
        /// The new logical height.
        height: Option<u32>,
    },
    /// Destroy the layer surface.
    Destroy(Id),
    /// The edges of the screen that the surface is anchored to.
    Anchor {
        /// Id of the layer surface.
        id: Id,
        /// Anchor of the layer surface.
        anchor: Anchor,
    },
    /// The space that the surface reserves.
    ExclusiveZone {
        /// Id of the layer surface.
        id: Id,
        /// Exclusive zone of the layer surface.
        exclusive_zone: i32,
    },
    /// The surface margin.
    Margin {
        /// Id of the layer surface.
        id: Id,
        /// Margins of the layer surface.
        margin: IcedMargin,
    },
    /// How the surface takes keyboard focus.
    KeyboardInteractivity {
        /// Id of the layer surface.
        id: Id,
        /// Keyboard interactivity of the layer surface.
        keyboard_interactivity: KeyboardInteractivity,
    },
    /// The layer of the surface.
    Layer {
        /// Id of the layer surface.
        id: Id,
        /// Layer of the layer surface.
        layer: Layer,
    },
}

} // verus!
