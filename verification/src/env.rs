//! The resources that evaluation and layout draw on.
//!
//! Files are read and decoded before evaluation starts; the environment holds
//! what came of it, and looking a resource up is a search in that table.

use vstd::prelude::*;

verus! {

/// The place of a resource in the environment.
#[derive(Clone, Copy, Debug, PartialEq, Eq, Structural)]
pub struct ResourceId {
    pub index: usize,
}

/// The size of a decoded image in pixels; neither side is zero.
#[derive(Clone, Copy, Debug, PartialEq, Eq, Structural)]
pub struct PixelSize {
    width: u32,
    height: u32,
}

impl PixelSize {
    #[verifier::type_invariant]
    spec fn nonzero(self) -> bool {
        self.width > 0 && self.height > 0
    }

    /// The number of pixel columns.
    pub closed spec fn px_width(self) -> int {
        self.width as int
    }

    /// The number of pixel rows.
    pub closed spec fn px_height(self) -> int {
        self.height as int
    }

    /// The size of `width` by `height` pixels, if neither is zero.
    pub fn new(width: u32, height: u32) -> (r: Option<PixelSize>)
        ensures
            r is Some <==> width > 0 && height > 0,
            r matches Some(size) ==> size.px_width() == width && size.px_height() == height,
    {
        if width > 0 && height > 0 {
            Some(PixelSize { width, height })
        } else {
            None
        }
    }

    /// The number of pixel columns.
    pub fn width(self) -> (w: u32)
        ensures
            w == self.px_width(),
            w > 0,
    {
        proof {
            use_type_invariant(&self);
        }
        self.width
    }

    /// The number of pixel rows.
    pub fn height(self) -> (h: u32)
        ensures
            h == self.px_height(),
            h > 0,
    {
        proof {
            use_type_invariant(&self);
        }
        self.height
    }
}

/// A decoded image: where it came from and how large it is.
#[derive(Debug, PartialEq, Eq)]
pub struct ImageResource {
    pub path: String,
    pub size: PixelSize,
}

/// Position of the first image in `images` that came from `path`, or
/// `images.len()` if there is none.
pub open spec fn position_of(images: Seq<ImageResource>, path: Seq<char>) -> int
    decreases images.len(),
{
    if images.len() == 0 || images[0].path@ == path {
        0
    } else {
        1 + position_of(images.drop_first(), path)
    }
}

/// `position_of` names the first match and nothing before it matches.
pub proof fn lemma_position_of(images: Seq<ImageResource>, path: Seq<char>)
    ensures
        0 <= position_of(images, path) <= images.len(),
        position_of(images, path) < images.len() ==> images[position_of(images, path)].path@ == path,
        forall|i: int| 0 <= i < position_of(images, path) ==> (#[trigger] images[i]).path@ != path,
    decreases images.len(),
{
    if images.len() == 0 || images[0].path@ == path {
    } else {
        let rest = images.drop_first();
        lemma_position_of(rest, path);
        assert forall|i: int| 0 <= i < position_of(images, path) implies (#[trigger] images[i]).path@ != path by {
            if i > 0 {
                assert(images[i] == rest[i - 1]);
            }
        }
    }
}

/// The table of loaded resources.
#[derive(Debug, PartialEq, Eq)]
pub struct Env {
    pub images: Vec<ImageResource>,
}

impl Env {
    /// An environment without resources.
    pub fn new() -> (env: Env)
        ensures
            env.images@.len() == 0,
    {
        Env { images: Vec::new() }
    }

    /// Adds a decoded image and says where it went.
    pub fn insert(&mut self, path: String, size: PixelSize) -> (id: ResourceId)
        ensures
            final(self).images@ == old(self).images@.push(ImageResource { path, size }),
            id.index == old(self).images@.len(),
    {
        let index = self.images.len();
        self.images.push(ImageResource { path, size });
        ResourceId { index }
    }

    /// The first image that came from `path`, if one was loaded.
    pub fn load_resource(&self, path: &str) -> (r: Option<ResourceId>)
        ensures
            match r {
                Some(id) => id.index < self.images@.len() && id.index == position_of(self.images@, path@),
                None => position_of(self.images@, path@) == self.images@.len(),
            },
    {
        let key = String::from_str(path);
        let mut i: usize = 0;
        proof {
            lemma_position_of(self.images@, path@);
        }
        while i < self.images.len()
            invariant
                0 <= i <= self.images@.len(),
                key@ == path@,
                i <= position_of(self.images@, path@) <= self.images@.len(),
                forall|j: int| 0 <= j < position_of(self.images@, path@) ==> (#[trigger] self.images@[j]).path@ != path@,
                position_of(self.images@, path@) < self.images@.len() ==> self.images@[position_of(self.images@, path@)].path@ == path@,
            decreases self.images@.len() - i,
        {
            if self.images[i].path == key {
                return Some(ResourceId { index: i });
            }
            i += 1;
        }
        None
    }

    /// The resource at `id`.
    pub fn resource(&self, id: ResourceId) -> (r: &ImageResource)
        requires
            id.index < self.images@.len(),
        ensures
            *r == self.images@[id.index as int],
    {
        &self.images[id.index]
    }
}

} // verus!
