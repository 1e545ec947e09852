//! Handles to what the engine owns, and the game's hold on its scene.

use vstd::prelude::*;

verus! {

/// A handle to something that the engine keeps in a pool: the place in
/// the pool and the generation of what is kept there.
#[derive(Clone, Copy, Debug, PartialEq, Eq, Structural)]
pub struct Handle {
    pub index: u32,
    pub generation: u32,
}

impl Handle {
    /// Whether the handle points at nothing.
    pub open spec fn is_none_spec(self) -> bool {
        self.index == 0 && self.generation == 0
    }

    /// The handle that points at nothing.
    pub fn none() -> (handle: Handle)
        ensures
            handle == (Handle { index: 0, generation: 0 }),
            handle.is_none_spec(),
    {
        Handle { index: 0, generation: 0 }
    }

    /// Whether the handle points at nothing.
    pub fn is_none(self) -> (none: bool)
        ensures
            none == self.is_none_spec(),
    {
        self.index == 0 && self.generation == 0
    }

    /// Whether the handle points at something.
    pub fn is_some(self) -> (some: bool)
        ensures
            some == !self.is_none_spec(),
    {
        !self.is_none()
    }
}

/// The game as the engine's plugin: it holds the scene that is played.
#[derive(Clone, Copy, Debug, PartialEq, Eq, Structural)]
pub struct Game {
    pub scene: Handle,
}

impl Game {
    /// The path of the scene that is loaded where none is asked for.
    pub open spec fn default_scene_spec() -> Seq<char> {
        "data/scene.rgs"@
    }

    /// A game that holds no scene yet, and the path of the scene to load
    /// for it: the one asked for, or else the default scene.
    pub fn new<'a>(scene_path: Option<&'a str>) -> (made: (Game, &'a str))
        ensures
            made.0.scene.is_none_spec(),
            made.1@ == (match scene_path {
                Some(path) => path@,
                None => Self::default_scene_spec(),
            }),
    {
        let path = match scene_path {
            Some(path) => path,
            None => Self::default_scene(),
        };
        (Game { scene: Handle::none() }, path)
    }

    /// A game that is handed a scene by the editor plays that scene. The
    /// game, with hold of the scene where it is one, and whether the
    /// default scene is still to be loaded for it.
    pub fn with_scene(override_scene: Handle) -> (made: (Game, bool))
        ensures
            made.0.scene == override_scene,
            made.1 == override_scene.is_none_spec(),
    {
        (Game { scene: override_scene }, override_scene.is_none())
    }

    /// The path of the scene that is loaded where none is asked for.
    pub fn default_scene() -> (path: &'static str)
        ensures
            path@ == Self::default_scene_spec(),
    {
        "data/scene.rgs"
    }

    /// Takes hold of a scene that was loaded. Returns the scene that the
    /// game held before, which is to be removed, if it held one.
    pub fn on_scene_loaded(&mut self, scene: Handle) -> (removed: Option<Handle>)
        ensures
            final(self).scene == scene,
            removed == (if old(self).scene.is_none_spec() {
                None
            } else {
                Some(old(self).scene)
            }),
    {
        let removed = if self.scene.is_some() {
            Some(self.scene)
        } else {
            None
        };
        self.scene = scene;
        removed
    }
}

} // verus!
