//! Which auxiliary textures exist for a view, and at what size and format.
//!
//! A camera view opts into the prepass by carrying the zero-sized markers
//! `DepthPrepass` and `NormalPrepass`: their mere presence, not a payload,
//! toggles texture creation. Before the prepass runs, the provisioning step
//! computes one allocation request per enabled marker — never one for a
//! disabled marker — and assembles the handles the texture cache returned
//! into a `ViewPrepassTextures`, the per-view record downstream passes read.
//!
//! A view whose extent is zero in any dimension (a minimized window, say) is
//! a degenerate state, not an error: nothing is requested and both texture
//! fields stay absent.

use vstd::prelude::*;

use crate::handles::CachedTexture;

verus! {

/// Marker on a camera view: the prepass copies depth values into a separate
/// texture available to the main pass.
#[derive(Clone, Copy, PartialEq, Eq, Structural, Debug, Default)]
pub struct DepthPrepass;

/// Marker on a camera view: the prepass copies world-space normals into a
/// separate texture available to the main pass.
#[derive(Clone, Copy, PartialEq, Eq, Structural, Debug, Default)]
pub struct NormalPrepass;

/// Size of a texture: width, height, and depth or number of array layers.
#[derive(Clone, Copy, PartialEq, Eq, Structural, Debug)]
pub struct Extent3d {
    /// Width in texels.
    pub width: u32,
    /// Height in texels.
    pub height: u32,
    /// Depth in texels, or number of array layers.
    pub depth_or_array_layers: u32,
}

/// Texel format of a prepass texture.
#[derive(Clone, Copy, PartialEq, Eq, Structural, Debug)]
pub enum TextureFormat {
    /// 32-bit float depth.
    Depth32Float,
    /// 10-10-10-2 unsigned-normalized color, packing signed normals into
    /// 32 bits.
    Rgb10a2Unorm,
}

/// Format of every depth prepass texture.
pub const DEPTH_PREPASS_FORMAT: TextureFormat = TextureFormat::Depth32Float;

/// Format of every normal prepass texture.
pub const NORMAL_PREPASS_FORMAT: TextureFormat = TextureFormat::Rgb10a2Unorm;

/// One allocation the texture cache is asked to perform for a view.
#[derive(Clone, Copy, PartialEq, Eq, Structural, Debug)]
pub struct PrepassTextureRequest {
    /// Texel format of the texture to allocate.
    pub format: TextureFormat,
    /// Size of the texture to allocate: the view's render-target extent.
    pub size: Extent3d,
}

/// Textures that are written to by the prepass, shared by every consumer of
/// one view for one frame.
#[derive(Clone, Copy, PartialEq, Eq, Debug)]
pub struct ViewPrepassTextures {
    /// The depth texture generated by the prepass; present iff the view
    /// carries `DepthPrepass` and has a nonzero extent.
    pub depth: Option<CachedTexture>,
    /// The normals texture generated by the prepass; present iff the view
    /// carries `NormalPrepass` and has a nonzero extent.
    pub normal: Option<CachedTexture>,
    /// The size both textures share: the view's render-target extent.
    pub size: Extent3d,
}

/// The extent has texels in every dimension.
pub open spec fn nonzero_extent(size: Extent3d) -> bool {
    size.width > 0 && size.height > 0 && size.depth_or_array_layers > 0
}

/// A depth texture is owed: the view carries the marker and has texels.
pub open spec fn spec_depth_needed(depth_prepass: Option<DepthPrepass>, size: Extent3d) -> bool {
    depth_prepass.is_some() && nonzero_extent(size)
}

/// A normals texture is owed: the view carries the marker and has texels.
pub open spec fn spec_normal_needed(normal_prepass: Option<NormalPrepass>, size: Extent3d) -> bool {
    normal_prepass.is_some() && nonzero_extent(size)
}

/// Why a view's prepass texture record could not be assembled.
#[derive(Clone, Copy, PartialEq, Eq, Structural, Debug)]
pub enum PrepassTextureError {
    /// The view is owed a depth texture and the cache supplied none. The
    /// view cannot expose what the main pass and downstream effects bind.
    MissingDepthTexture,
    /// The view is owed a normals texture and the cache supplied none.
    MissingNormalTexture,
}

impl ViewPrepassTextures {
    /// The presence rule of the record: each texture is present exactly when
    /// the view carries the matching marker and the extent is nonzero, and
    /// both share the view's extent.
    pub open spec fn obeys_presence(
        self,
        depth_prepass: Option<DepthPrepass>,
        normal_prepass: Option<NormalPrepass>,
        size: Extent3d,
    ) -> bool {
        &&& self.depth.is_some() == spec_depth_needed(depth_prepass, size)
        &&& self.normal.is_some() == spec_normal_needed(normal_prepass, size)
        &&& self.size == size
    }
}

/// The allocation to request from the texture cache for the view's depth
/// prepass, if any: the fixed depth format at the view's extent, and only
/// when the marker is present and the extent nonzero.
pub fn depth_texture_request(
    depth_prepass: Option<DepthPrepass>,
    size: Extent3d,
) -> (r: Option<PrepassTextureRequest>)
    ensures
        r.is_some() == spec_depth_needed(depth_prepass, size),
        r.is_some() ==> r.unwrap() == (PrepassTextureRequest {
            format: DEPTH_PREPASS_FORMAT,
            size,
        }),
{
    if depth_prepass.is_some() && size.width > 0 && size.height > 0
        && size.depth_or_array_layers > 0 {
        Some(PrepassTextureRequest { format: DEPTH_PREPASS_FORMAT, size })
    } else {
        None
    }
}

/// The allocation to request from the texture cache for the view's normal
/// prepass, if any: the fixed normals format at the view's extent, and only
/// when the marker is present and the extent nonzero.
pub fn normal_texture_request(
    normal_prepass: Option<NormalPrepass>,
    size: Extent3d,
) -> (r: Option<PrepassTextureRequest>)
    ensures
        r.is_some() == spec_normal_needed(normal_prepass, size),
        r.is_some() ==> r.unwrap() == (PrepassTextureRequest {
            format: NORMAL_PREPASS_FORMAT,
            size,
        }),
{
    if normal_prepass.is_some() && size.width > 0 && size.height > 0
        && size.depth_or_array_layers > 0 {
        Some(PrepassTextureRequest { format: NORMAL_PREPASS_FORMAT, size })
    } else {
        None
    }
}

/// Assembles the per-view record from what the texture cache returned for
/// the two requests. A texture owed to the view but not supplied is a hard
/// error for the view's frame, the depth texture reported first; a texture
/// supplied for a disabled marker or a degenerate extent would break the
/// presence rule upstream and is excluded by contract.
pub fn prepare_view_prepass_textures(
    depth_prepass: Option<DepthPrepass>,
    normal_prepass: Option<NormalPrepass>,
    size: Extent3d,
    depth_texture: Option<CachedTexture>,
    normal_texture: Option<CachedTexture>,
) -> (r: Result<ViewPrepassTextures, PrepassTextureError>)
    requires
        depth_texture.is_some() ==> spec_depth_needed(depth_prepass, size),
        normal_texture.is_some() ==> spec_normal_needed(normal_prepass, size),
    ensures
        r == (if spec_depth_needed(depth_prepass, size) && depth_texture.is_none() {
            Result::<ViewPrepassTextures, PrepassTextureError>::Err(
                PrepassTextureError::MissingDepthTexture,
            )
        } else if spec_normal_needed(normal_prepass, size) && normal_texture.is_none() {
            Result::<ViewPrepassTextures, PrepassTextureError>::Err(
                PrepassTextureError::MissingNormalTexture,
            )
        } else {
            Result::<ViewPrepassTextures, PrepassTextureError>::Ok(
                ViewPrepassTextures { depth: depth_texture, normal: normal_texture, size },
            )
        }),
        r matches Ok(v) ==> v.obeys_presence(depth_prepass, normal_prepass, size),
{
    let depth_needed = depth_prepass.is_some() && size.width > 0 && size.height > 0
        && size.depth_or_array_layers > 0;
    let normal_needed = normal_prepass.is_some() && size.width > 0 && size.height > 0
        && size.depth_or_array_layers > 0;
    if depth_needed && depth_texture.is_none() {
        Err(PrepassTextureError::MissingDepthTexture)
    } else if normal_needed && normal_texture.is_none() {
        Err(PrepassTextureError::MissingNormalTexture)
    } else {
        Ok(ViewPrepassTextures { depth: depth_texture, normal: normal_texture, size })
    }
}

} // verus!
