use vstd::prelude::*;

use crate::light::Light;

verus! {

/// Everything the render engine reads: the camera position, the ordered
/// primitive list, the ordered light list, and the output resolution.
///
/// The scene is filled before rendering begins and read-only afterwards.
/// Primitives `O` and the vector payload `V` are opaque to the library:
/// their geometry is floating point and lives outside the verified core.
pub struct Scene<O, V> {
    pub camera: V,
    pub objects: Vec<O>,
    pub lights: Vec<Light<V>>,
    pub width: usize,
    pub height: usize,
}

impl<O, V> Scene<O, V> {
    /// A scene holding exactly the given camera, primitives, lights and
    /// resolution, in the order they were given.
    pub fn new(
        camera: V,
        objects: Vec<O>,
        lights: Vec<Light<V>>,
        width: usize,
        height: usize,
    ) -> (s: Scene<O, V>)
        ensures
            s.camera == camera,
            s.objects@ == objects@,
            s.lights@ == lights@,
            s.width == width,
            s.height == height,
    {
        Scene { camera, objects, lights, width, height }
    }

    /// Append a primitive; everything else stays as it was.
    pub fn add_object(&mut self, object: O)
        ensures
            final(self).objects@ == old(self).objects@.push(object),
            final(self).camera == old(self).camera,
            final(self).lights@ == old(self).lights@,
            final(self).width == old(self).width,
            final(self).height == old(self).height,
    {
        self.objects.push(object);
    }

    /// Append a light; everything else stays as it was.
    pub fn add_light(&mut self, light: Light<V>)
        ensures
            final(self).lights@ == old(self).lights@.push(light),
            final(self).camera == old(self).camera,
            final(self).objects@ == old(self).objects@,
            final(self).width == old(self).width,
            final(self).height == old(self).height,
    {
        self.lights.push(light);
    }
}

/// Add a node of some kind to the scene.
pub trait SceneAdd<T>: Sized {
    /// How the container after an `add` relates to the container before
    /// it: each implementation fixes the whole new state.
    spec fn spec_add(pre: Self, post: Self, node: T) -> bool;

    /// Add an object or light to the scene.
    fn add(&mut self, node: T)
        ensures
            Self::spec_add(*old(self), *final(self), node),
    ;
}

impl<O, V> SceneAdd<Light<V>> for Scene<O, V> {
    /// Adding a light appends it to the light list; the primitives, the
    /// camera and the resolution stay as they were.
    open spec fn spec_add(pre: Self, post: Self, node: Light<V>) -> bool {
        &&& post.lights@ == pre.lights@.push(node)
        &&& post.objects@ == pre.objects@
        &&& post.camera == pre.camera
        &&& post.width == pre.width
        &&& post.height == pre.height
    }

    fn add(&mut self, node: Light<V>) {
        self.add_light(node);
    }
}

} // verus!
