//! The avatar widget's model: a resource key, a static source that can be
//! drawn at once, and a render size.
use vstd::prelude::*;
use crate::engine::{AnimationEngine, after_classify, after_select, dispatches, engine_wf, selected};
use crate::playback::FrameChoice;

verus! {

/// Where the static image of an avatar comes from.
pub enum FallbackSource {
    /// A file on the local disk.
    LocalFile(String),
    /// A remote image, fetched by the renderer.
    Url(String),
}

/// An avatar that shows a static image at once and plays the resource's
/// animation once the engine has decoded it.
pub struct AnimatedAvatar {
    image_path: String,
    image_source: FallbackSource,
    size: u32,
}

impl AnimatedAvatar {
    pub closed spec fn key(&self) -> Seq<char> {
        self.image_path@
    }

    pub closed spec fn source_view(&self) -> (bool, Seq<char>) {
        match self.image_source {
            FallbackSource::LocalFile(p) => (true, p@),
            FallbackSource::Url(u) => (false, u@),
        }
    }

    pub closed spec fn size_view(&self) -> u32 {
        self.size
    }

    /// Creates an avatar for a path or URL drawn at `size` pixels, and
    /// classifies the resource with the engine. `file_exists` tells whether
    /// the path names an existing local file; the static source is that file
    /// if so and the URL otherwise. The flag returned with the avatar is true
    /// when the caller must start the resource's decode.
    pub fn new(path_or_url: &str, size: u32, file_exists: bool, engine: &mut AnimationEngine) -> (r: (
        AnimatedAvatar,
        bool,
    ))
        requires
            old(engine).wf(),
        ensures
            r.0.key() == path_or_url@,
            r.0.source_view() == (file_exists, path_or_url@),
            r.0.size_view() == size,
            r.1 == dispatches(old(engine)@, path_or_url@, file_exists),
            final(engine)@ == after_classify(old(engine)@, path_or_url@, file_exists),
            final(engine).wf(),
            engine_wf(final(engine)@),
    {
        let image_path = String::from_str(path_or_url);
        let image_source = if file_exists {
            FallbackSource::LocalFile(String::from_str(path_or_url))
        } else {
            FallbackSource::Url(String::from_str(path_or_url))
        };
        let dispatch = engine.classify_or_start(&image_path, file_exists);
        (AnimatedAvatar { image_path, image_source, size }, dispatch)
    }

    /// The same avatar drawn at another size.
    pub fn size(self, size: u32) -> (r: AnimatedAvatar)
        ensures
            r.key() == self.key(),
            r.source_view() == self.source_view(),
            r.size_view() == size,
    {
        AnimatedAvatar { size, ..self }
    }

    /// What to draw on this render pass at time `now`: the frame that the
    /// engine selects for an animated resource, else the static source.
    pub fn render(&self, engine: &mut AnimationEngine, now: u64) -> (r: FrameChoice)
        requires
            old(engine).wf(),
        ensures
            r == selected(old(engine)@, self.key(), now),
            final(engine)@ == after_select(old(engine)@, self.key(), now),
            final(engine).wf(),
            engine_wf(final(engine)@),
    {
        engine.select_frame(&self.image_path, now)
    }

    /// The resource key.
    pub fn image_path(&self) -> (r: &String)
        ensures
            r@ == self.key(),
    {
        &self.image_path
    }

    /// The static source.
    pub fn image_source(&self) -> (r: &FallbackSource)
        ensures
            (match *r {
                FallbackSource::LocalFile(p) => (true, p@),
                FallbackSource::Url(u) => (false, u@),
            }) == self.source_view(),
    {
        &self.image_source
    }

    /// The render size in pixels.
    pub fn render_size(&self) -> (r: u32)
        ensures
            r == self.size_view(),
    {
        self.size
    }
}

} // verus!
