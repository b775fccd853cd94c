use vstd::prelude::*;

verus! {

/// The extent of a 2D texture: width, height and depth (or array layers).
pub type TextureExtent = (u32, u32, u32);

/// The output texture extent a camera needs, if any: a camera with a known,
/// non-empty physical viewport needs a single-layer texture of that size.
pub open spec fn wanted_output_extent(viewport: Option<(u32, u32)>) -> Option<TextureExtent> {
    match viewport {
        Some((width, height)) => if width != 0 && height != 0 {
            Some((width, height, 1u32))
        } else {
            None
        },
        None => None,
    }
}

/// Whether a camera's raytrace output texture must be (re)created, and at what
/// extent: `Some(extent)` when the camera wants an output texture and has none
/// of that extent yet; `None` when it wants none or already has it.
pub open spec fn spec_output_texture_to_create(
    viewport: Option<(u32, u32)>,
    current: Option<TextureExtent>,
) -> Option<TextureExtent> {
    match wanted_output_extent(viewport) {
        Some(extent) => if current == Some(extent) {
            None
        } else {
            Some(extent)
        },
        None => None,
    }
}

/// Decide whether a camera's raytrace output texture must be (re)created.
pub fn output_texture_to_create(
    viewport: Option<(u32, u32)>,
    current: Option<TextureExtent>,
) -> (create: Option<TextureExtent>)
    ensures
        create == spec_output_texture_to_create(viewport, current),
        viewport is Some && viewport->Some_0.0 != 0 && viewport->Some_0.1 != 0 ==> create == (
        if current == Some((viewport->Some_0.0, viewport->Some_0.1, 1u32)) {
            None
        } else {
            Some((viewport->Some_0.0, viewport->Some_0.1, 1u32))
        }),
        viewport is Some && (viewport->Some_0.0 == 0 || viewport->Some_0.1 == 0) ==> create is None,
        viewport is None ==> create is None,
{
    let (width, height) = match viewport {
        Some(size) => size,
        None => {
            return None;
        },
    };
    if width == 0 || height == 0 {
        return None;
    }
    let size: TextureExtent = (width, height, 1);
    match current {
        Some(existing) => {
            if existing.0 == size.0 && existing.1 == size.1 && existing.2 == size.2 {
                return None;
            }
        },
        None => {},
    }
    Some(size)
}

/// Output textures settle: once the texture that was asked for is in place, the
/// same viewport asks for nothing more, and a texture of the viewport's extent
/// is never recreated.
pub proof fn lemma_output_texture_settles(viewport: Option<(u32, u32)>, current: Option<TextureExtent>)
    ensures
        ({
            let created = spec_output_texture_to_create(viewport, current);
            let now = if created is Some { created } else { current };
            spec_output_texture_to_create(viewport, now) is None
        }),
        current == wanted_output_extent(viewport) ==> spec_output_texture_to_create(
            viewport,
            current,
        ) is None,
{
}


/// A texture is (re)created exactly when the camera has a non-empty viewport and
/// its current texture (if any) differs from that viewport's single-layer extent
/// in any of width, height or depth; the new texture has the viewport's size.
pub proof fn lemma_output_texture_follows_viewport(
    width: u32,
    height: u32,
    current: Option<TextureExtent>,
)
    ensures
        width != 0 && height != 0 ==> spec_output_texture_to_create(Some((width, height)), current)
            == if current == Some((width, height, 1u32)) {
            None
        } else {
            Some((width, height, 1u32))
        },
        width != 0 && height != 0 ==> forall|existing: TextureExtent|
            current == Some(existing) && (existing.0 != width || existing.1 != height || existing.2
                != 1) ==> spec_output_texture_to_create(Some((width, height)), current) == Some(
                (width, height, 1u32),
            ),
        width == 0 || height == 0 ==> spec_output_texture_to_create(Some((width, height)), current)
            is None,
        spec_output_texture_to_create(None, current) is None,
{
}

} // verus!
