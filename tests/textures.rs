use imgui_raylib::image::{
    ImageExt, ImageList, ImageRequest, RenderTexture, Texture, TextureExt, TextureLike,
};

fn texture() -> Texture {
    Texture { id: 3, width: 64, height: 32 }
}

#[test]
fn texture_reports_id_and_size() {
    let t = texture();
    assert_eq!(t.texture_id(), 3);
    assert_eq!(t.texture_width(), 64);
    assert_eq!(t.texture_height(), 32);
}

#[test]
fn render_texture_reports_its_colour_texture() {
    let rt = RenderTexture { id: 11, texture: texture(), depth: Texture { id: 12, width: 1, height: 1 } };
    assert_eq!(rt.texture_id(), 3);
    assert_eq!(rt.texture_width(), 64);
    assert_eq!(rt.texture_height(), 32);
}

#[test]
fn images_are_requested_in_order() {
    let mut list = ImageList::new();
    list.image(&texture());
    list.image_scaled(&texture(), 10, 20);
    assert_eq!(
        list.requests,
        vec![
            ImageRequest { texture_id: 3, width: 64, height: 32 },
            ImageRequest { texture_id: 3, width: 10, height: 20 },
        ]
    );
}

#[test]
fn texture_as_image() {
    assert_eq!(texture().imgui_image(), ImageRequest { texture_id: 3, width: 64, height: 32 });
}
