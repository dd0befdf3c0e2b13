use vstd::prelude::*;

verus! {

/// A host texture as the GUI sees it: its handle and its size in pixels.
#[derive(Clone, Copy, Debug, PartialEq, Eq, Structural)]
pub struct Texture {
    pub id: u32,
    pub width: i32,
    pub height: i32,
}

/// A host render target, drawn into and then shown through its colour texture.
#[derive(Clone, Copy, Debug, PartialEq, Eq, Structural)]
pub struct RenderTexture {
    pub id: u32,
    pub texture: Texture,
    pub depth: Texture,
}

/// Anything that can be shown as a GUI image: a texture handle with a size.
pub trait TextureLike {
    spec fn id_of(&self) -> u32;

    spec fn width_of(&self) -> u32;

    spec fn height_of(&self) -> u32;

    fn texture_id(&self) -> (r: u32)
        ensures
            r == self.id_of(),
    ;

    fn texture_width(&self) -> (r: u32)
        ensures
            r == self.width_of(),
    ;

    fn texture_height(&self) -> (r: u32)
        ensures
            r == self.height_of(),
    ;
}

impl TextureLike for Texture {
    open spec fn id_of(&self) -> u32 {
        self.id
    }

    open spec fn width_of(&self) -> u32 {
        self.width as u32
    }

    open spec fn height_of(&self) -> u32 {
        self.height as u32
    }

    fn texture_id(&self) -> (r: u32) {
        self.id
    }

    fn texture_width(&self) -> (r: u32) {
        self.width as u32
    }

    fn texture_height(&self) -> (r: u32) {
        self.height as u32
    }
}

impl TextureLike for RenderTexture {
    open spec fn id_of(&self) -> u32 {
        self.texture.id
    }

    open spec fn width_of(&self) -> u32 {
        self.texture.width as u32
    }

    open spec fn height_of(&self) -> u32 {
        self.texture.height as u32
    }

    fn texture_id(&self) -> (r: u32) {
        self.texture.id
    }

    fn texture_width(&self) -> (r: u32) {
        self.texture.width as u32
    }

    fn texture_height(&self) -> (r: u32) {
        self.texture.height as u32
    }
}

/// One image widget to build: which texture, and at what size.
#[derive(Clone, Copy, Debug, PartialEq, Eq, Structural)]
pub struct ImageRequest {
    pub texture_id: u32,
    pub width: u32,
    pub height: u32,
}

/// Image widgets requested while the GUI content of a frame is built, in order.
pub struct ImageList {
    pub requests: Vec<ImageRequest>,
}

impl ImageList {
    pub fn new() -> (r: ImageList)
        ensures
            r.requests@.len() == 0,
    {
        ImageList { requests: Vec::new() }
    }
}

/// Showing textures as GUI images.
pub trait ImageExt {
    spec fn images(&self) -> Seq<ImageRequest>;

    /// An image of the texture at the given size.
    fn image_scaled<T: TextureLike>(&mut self, texture: &T, width: u32, height: u32)
        ensures
            final(self).images() == old(self).images().push(
                ImageRequest { texture_id: texture.id_of(), width, height },
            ),
    ;

    /// An image of the texture at its own size.
    fn image<T: TextureLike>(&mut self, texture: &T)
        ensures
            final(self).images() == old(self).images().push(
                ImageRequest {
                    texture_id: texture.id_of(),
                    width: texture.width_of(),
                    height: texture.height_of(),
                },
            ),
    ;
}

impl ImageExt for ImageList {
    open spec fn images(&self) -> Seq<ImageRequest> {
        self.requests@
    }

    fn image_scaled<T: TextureLike>(&mut self, texture: &T, width: u32, height: u32) {
        let texture_id = texture.texture_id();
        self.requests.push(ImageRequest { texture_id, width, height });
    }

    fn image<T: TextureLike>(&mut self, texture: &T) {
        let width = texture.texture_width();
        let height = texture.texture_height();
        self.image_scaled(texture, width, height);
    }
}

/// A texture seen as a GUI image at its own size.
pub trait TextureExt {
    spec fn image_of(&self) -> ImageRequest;

    fn imgui_image(&self) -> (r: ImageRequest)
        ensures
            r == self.image_of(),
    ;
}

impl TextureExt for Texture {
    open spec fn image_of(&self) -> ImageRequest {
        ImageRequest { texture_id: self.id, width: self.width as u32, height: self.height as u32 }
    }

    fn imgui_image(&self) -> (r: ImageRequest) {
        ImageRequest { texture_id: self.id, width: self.width as u32, height: self.height as u32 }
    }
}

} // verus!
