use vstd::prelude::*;

verus! {

/// A texture uploaded to the GPU, with the sampler kind it serves
/// (`texture_diffuse`, `texture_specular`) and the file it came from.
#[derive(Clone, Debug)]
pub struct Texture {
    pub id: u32,
    pub tex_type: &'static str,
    pub path: String,
}

/// No two textures of `s` come from the same file.
pub open spec fn paths_unique(s: Seq<Texture>) -> bool {
    forall|i: int, j: int| 0 <= i < j < s.len() ==> s[i].path@ != s[j].path@
}

/// Some texture of `s` comes from the file `path`.
pub open spec fn has_path(s: Seq<Texture>, path: Seq<char>) -> bool {
    exists|i: int| 0 <= i < s.len() && s[i].path@ == path
}

/// The file of a texture named `file` in the directory `directory`.
pub open spec fn texture_path_spec(directory: Seq<char>, file: Seq<char>) -> Seq<char> {
    directory + seq!['/'] + file
}

/// Joins a model's directory and a texture file name with a `/`.
pub fn texture_path(directory: &str, file: &str) -> (r: String)
    ensures
        r@ == texture_path_spec(directory@, file@),
{
    let mut r = String::from_str(directory);
    r.append("/");
    r.append(file);
    proof {
        reveal_strlit("/");
    }
    r
}

fn copy_texture(t: &Texture) -> (r: Texture)
    ensures
        r == *t,
{
    Texture { id: t.id, tex_type: t.tex_type, path: t.path.clone() }
}

/// The textures a model has already loaded, at most one per file, in the
/// order they were loaded. A texture is read from disk and uploaded once and
/// shared by every mesh that names its file.
pub struct TextureCache {
    loaded_textures: Vec<Texture>,
}

impl View for TextureCache {
    type V = Seq<Texture>;

    closed spec fn view(&self) -> Seq<Texture> {
        self.loaded_textures@
    }
}

impl TextureCache {
    /// The cache holds each file at most once.
    pub open spec fn wf(&self) -> bool {
        paths_unique(self@)
    }

    /// An empty cache.
    pub fn new() -> (r: Self)
        ensures
            r.wf(),
            r@ == Seq::<Texture>::empty(),
    {
        TextureCache { loaded_textures: Vec::new() }
    }

    /// The number of textures loaded so far.
    pub fn len(&self) -> (r: usize)
        ensures
            r == self@.len(),
    {
        self.loaded_textures.len()
    }

    /// The texture loaded from `path`, if that file was loaded before.
    pub fn find(&self, path: &String) -> (r: Option<Texture>)
        ensures
            r.is_none() <==> !has_path(self@, path@),
            r matches Some(t) ==> exists|i: int|
                0 <= i < self@.len() && self@[i] == t && t.path@ == path@,
    {
        let mut i: usize = 0;
        while i < self.loaded_textures.len()
            invariant
                0 <= i <= self@.len(),
                self@ == self.loaded_textures@,
                forall|j: int| 0 <= j < i ==> self@[j].path@ != path@,
            decreases self@.len() - i,
        {
            if self.loaded_textures[i].path == *path {
                return Some(copy_texture(&self.loaded_textures[i]));
            }
            i = i + 1;
        }
        None
    }

    /// Records a freshly loaded texture and returns it. A texture whose file
    /// is already in the cache is not recorded twice: the cached one is
    /// returned and the cache stays as it was.
    pub fn insert(&mut self, texture: Texture) -> (r: Texture)
        requires
            old(self).wf(),
        ensures
            final(self).wf(),
            !has_path(old(self)@, texture.path@) ==> r == texture && final(self)@ == old(
                self,
            )@.push(texture),
            has_path(old(self)@, texture.path@) ==> final(self)@ == old(self)@ && exists|i: int|
                0 <= i < old(self)@.len() && old(self)@[i] == r && r.path@ == texture.path@,
    {
        match self.find(&texture.path) {
            Some(t) => t,
            None => {
                let r = copy_texture(&texture);
                self.loaded_textures.push(texture);
                r
            },
        }
    }
}

/// The pixel layouts a decoded image can have, as far as uploading cares.
#[derive(Clone, Copy, Debug, PartialEq, Eq, Structural)]
pub enum PixelLayout {
    Luma8,
    LumaA8,
    Rgb8,
    Rgba8,
    /// Any other layout (16-bit or floating-point channels).
    Other,
}

/// `GL_RED`
pub const GL_RED: u32 = 0x1903;

/// `GL_RG`
pub const GL_RG: u32 = 0x8227;

/// `GL_RGB`
pub const GL_RGB: u32 = 0x1907;

/// `GL_RGBA`
pub const GL_RGBA: u32 = 0x1908;

/// The GL pixel format of an image with 8-bit channels; none for other layouts.
pub open spec fn gl_format_spec(layout: PixelLayout) -> Option<u32> {
    match layout {
        PixelLayout::Luma8 => Some(GL_RED),
        PixelLayout::LumaA8 => Some(GL_RG),
        PixelLayout::Rgb8 => Some(GL_RGB),
        PixelLayout::Rgba8 => Some(GL_RGBA),
        PixelLayout::Other => None,
    }
}

/// The GL format in which an image of this layout is uploaded: one, two,
/// three or four 8-bit channels. Other layouts cannot be uploaded.
pub fn gl_format(layout: PixelLayout) -> (r: Option<u32>)
    ensures
        r == gl_format_spec(layout),
{
    match layout {
        PixelLayout::Luma8 => Some(GL_RED),
        PixelLayout::LumaA8 => Some(GL_RG),
        PixelLayout::Rgb8 => Some(GL_RGB),
        PixelLayout::Rgba8 => Some(GL_RGBA),
        PixelLayout::Other => None,
    }
}

} // verus!
