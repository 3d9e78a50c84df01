//! What an application shows: the models of the scene, the marker, and the
//! buttons that are selected by dwelling.

use vstd::prelude::*;
use crate::formula::{Scalar, Transform};
use crate::placement::scene_placement;

verus! {

/// What a button does when it is selected.
#[derive(Clone, Copy, Debug, PartialEq, Eq, Structural, Hash)]
pub enum Action {
    /// Step the displayed model index back by one, from the first model to
    /// the last.
    Retreat,
    /// Step the displayed model index on by one, from the last model to the
    /// first.
    Advance,
}

/// A button: where it is put and what it does.
#[derive(Debug, PartialEq, Eq)]
pub struct Button {
    pub placement: Transform,
    pub action: Action,
}

impl Clone for Button {
    fn clone(&self) -> (copy: Self)
        ensures
            copy == *self,
    {
        Button { placement: self.placement.clone(), action: self.action }
    }
}

/// A model of the scene: the bytes of its asset and the scale it is shown
/// at.
#[derive(Debug, PartialEq, Eq)]
pub struct SceneAsset {
    pub data: Vec<u8>,
    pub scale: Scalar,
}

/// A button with the bytes of its asset.
#[derive(Debug, PartialEq, Eq)]
pub struct ButtonAsset {
    pub data: Vec<u8>,
    pub button: Button,
}

/// Everything an application is made from.
#[derive(Debug, PartialEq, Eq)]
pub struct Showcase {
    /// The models of the scene, each shown by an entity of its own.
    pub scene: Vec<SceneAsset>,
    /// The asset of the marker that shows where the pointer ray ends.
    pub marker: Vec<u8>,
    pub buttons: Vec<ButtonAsset>,
    /// For how many nanoseconds a button must be pointed at to be selected.
    pub dwell: u128,
    /// Whether entities can be grabbed and dragged.
    pub grabbing: bool,
}

/// A showcase with its assets as sequences of bytes.
pub struct ShowcaseView {
    pub scene: Seq<(Seq<u8>, Scalar)>,
    pub marker: Seq<u8>,
    pub buttons: Seq<(Seq<u8>, Button)>,
    pub dwell: u128,
    pub grabbing: bool,
}

impl View for Showcase {
    type V = ShowcaseView;

    open spec fn view(&self) -> ShowcaseView {
        ShowcaseView {
            scene: Seq::new(self.scene@.len(), |i: int| (self.scene@[i].data@, self.scene@[i].scale)),
            marker: self.marker@,
            buttons: Seq::new(
                self.buttons@.len(),
                |i: int| (self.buttons@[i].data@, self.buttons@[i].button),
            ),
            dwell: self.dwell,
            grabbing: self.grabbing,
        }
    }
}

/// What of a showcase matters once its assets are on their way to the host.
pub struct LayoutView {
    /// The scale of each scene model.
    pub scales: Seq<Scalar>,
    pub buttons: Seq<Button>,
    pub dwell: u128,
    pub grabbing: bool,
}

impl LayoutView {
    /// The number of scene models, each with an entity of its own.
    pub open spec fn scene(self) -> int {
        self.scales.len() as int
    }

    /// The slot of the marker: the one behind the scene slots.
    pub open spec fn marker(self) -> int {
        self.scene()
    }

    /// The slot of button `j`: the buttons come behind the marker.
    pub open spec fn button(self, j: int) -> int {
        self.scene() + 1 + j
    }

    /// The number of slots: one for each scene model, one for the marker and
    /// one for each button. Models and entities have a slot array of this
    /// size each, and the same slot of both belongs to the same role.
    pub open spec fn slots(self) -> int {
        self.scene() + 1 + self.buttons.len()
    }

    /// Where the entity of slot `slot` starts out: a scene entity in its
    /// place along the z axis, the marker at the origin, a button where the
    /// showcase puts it.
    pub open spec fn placement(self, slot: int) -> Transform
        recommends
            0 <= slot < self.slots(),
    {
        if slot < self.scene() {
            scene_placement(slot, self.scales[slot])
        } else if slot == self.marker() {
            Transform::Identity
        } else {
            self.buttons[slot - self.scene() - 1].placement
        }
    }

    /// The displayed model index after an action: one step on or back,
    /// around the ends of the scene. Without scene models it stays.
    pub open spec fn stepped(self, displayed: int, action: Action) -> int {
        if self.scene() == 0 {
            displayed
        } else {
            match action {
                Action::Advance => if displayed + 1 >= self.scene() {
                    0
                } else {
                    displayed + 1
                },
                Action::Retreat => if displayed <= 0 {
                    self.scene() - 1
                } else {
                    displayed - 1
                },
            }
        }
    }
}

impl ShowcaseView {
    /// What is kept of the showcase.
    pub open spec fn layout(self) -> LayoutView {
        LayoutView {
            scales: Seq::new(self.scene.len(), |i: int| self.scene[i].1),
            buttons: Seq::new(self.buttons.len(), |i: int| self.buttons[i].1),
            dwell: self.dwell,
            grabbing: self.grabbing,
        }
    }
}

} // verus!
