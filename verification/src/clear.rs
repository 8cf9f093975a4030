//! Surface clears.

use vstd::prelude::*;
use crate::lowering_error::MaxwellThreeDLoweringError;
use crate::neutral::{ImageDescription, ImageExtent, ImageSubresourceRange, ResourceDependency};
use crate::neutral_refusals::{NeutralConstruction, NeutralRefusals};
use crate::register::MaxwellThreeDRectangle;
use crate::render_targets::MaxwellThreeDClearSurface;
use crate::resource::{find_role, MaxwellThreeDResolvedResources, MaxwellThreeDResourceRole, ResolvedModel};
use crate::state::MaxwellThreeDState;

verus! {

/// Rectangle of texels: columns `min_x..max_x` of rows `min_y..max_y`.
#[derive(Clone, Copy, Debug, PartialEq, Eq, Hash, Structural)]
pub struct MaxwellThreeDClearRegion {
    pub min_x: u32,
    pub max_x: u32,
    pub min_y: u32,
    pub max_y: u32,
}

impl MaxwellThreeDClearRegion {
    /// Whether a texel lies in the region.
    pub open spec fn contains(self, x: int, y: int) -> bool {
        self.min_x <= x < self.max_x && self.min_y <= y < self.max_y
    }

    pub open spec fn spec_attachment(width: u32, height: u32) -> MaxwellThreeDClearRegion {
        MaxwellThreeDClearRegion { min_x: 0, max_x: width, min_y: 0, max_y: height }
    }

    /// Every texel of an attachment.
    #[verifier::when_used_as_spec(spec_attachment)]
    pub fn attachment(width: u32, height: u32) -> (r: MaxwellThreeDClearRegion)
        ensures
            r == MaxwellThreeDClearRegion::spec_attachment(width, height),
    {
        MaxwellThreeDClearRegion { min_x: 0, max_x: width, min_y: 0, max_y: height }
    }

    /// Region narrowed to a rectangle.
    pub open spec fn intersected(
        self,
        horizontal: MaxwellThreeDRectangle,
        vertical: MaxwellThreeDRectangle,
    ) -> MaxwellThreeDClearRegion {
        MaxwellThreeDClearRegion {
            min_x: if self.min_x >= horizontal.min {
                self.min_x
            } else {
                horizontal.min as u32
            },
            max_x: if self.max_x <= horizontal.max {
                self.max_x
            } else {
                horizontal.max as u32
            },
            min_y: if self.min_y >= vertical.min {
                self.min_y
            } else {
                vertical.min as u32
            },
            max_y: if self.max_y <= vertical.max {
                self.max_y
            } else {
                vertical.max as u32
            },
        }
    }

    pub fn intersect(&mut self, horizontal: MaxwellThreeDRectangle, vertical: MaxwellThreeDRectangle)
        ensures
            *final(self) == old(self).intersected(horizontal, vertical),
    {
        if self.min_x < horizontal.min as u32 {
            self.min_x = horizontal.min as u32;
        }
        if self.max_x > horizontal.max as u32 {
            self.max_x = horizontal.max as u32;
        }
        if self.min_y < vertical.min as u32 {
            self.min_y = vertical.min as u32;
        }
        if self.max_y > vertical.max as u32 {
            self.max_y = vertical.max as u32;
        }
    }

    pub open spec fn spec_is_empty(self) -> bool {
        self.min_x >= self.max_x || self.min_y >= self.max_y
    }

    #[must_use]
    #[verifier::when_used_as_spec(spec_is_empty)]
    pub fn is_empty(self) -> (r: bool)
        ensures
            r == self.spec_is_empty(),
    {
        self.min_x >= self.max_x || self.min_y >= self.max_y
    }

    pub open spec fn spec_fully_covers(self, width: u32, height: u32) -> bool {
        self.min_x == 0 && self.max_x == width && self.min_y == 0 && self.max_y == height
    }

    #[must_use]
    #[verifier::when_used_as_spec(spec_fully_covers)]
    pub fn fully_covers(self, width: u32, height: u32) -> (r: bool)
        ensures
            r == self.spec_fully_covers(width, height),
    {
        self.min_x == 0 && self.max_x == width && self.min_y == 0 && self.max_y == height
    }

    /// A narrowed region holds exactly the texels that were in it and lie in the
    /// rectangle.
    pub proof fn law_intersection(
        self,
        horizontal: MaxwellThreeDRectangle,
        vertical: MaxwellThreeDRectangle,
        x: int,
        y: int,
    )
        ensures
            self.intersected(horizontal, vertical).contains(x, y) <==> self.contains(x, y)
                && horizontal.min <= x < horizontal.max && vertical.min <= y < vertical.max,
    {
    }

    /// An empty region holds no texel, and a region that holds none is empty.
    pub proof fn law_emptiness(self)
        ensures
            self.spec_is_empty() <==> forall|x: int, y: int| !self.contains(x, y),
    {
        if !self.spec_is_empty() {
            assert(self.contains(self.min_x as int, self.min_y as int));
        }
    }
}

/// Rectangles that bound a clear, as far as they apply: the clear rectangle, the first
/// scissor and the first viewport clip.
#[derive(Clone, Copy, Debug, PartialEq, Eq)]
pub struct MaxwellThreeDClearRegions {
    pub clear: Option<(MaxwellThreeDRectangle, MaxwellThreeDRectangle)>,
    pub scissor: Option<(MaxwellThreeDRectangle, MaxwellThreeDRectangle)>,
    pub viewport_clip: Option<(MaxwellThreeDRectangle, MaxwellThreeDRectangle)>,
}

/// A rectangle that applies must have both axes programmed.
pub open spec fn spec_bounding_rectangle(
    applies: bool,
    horizontal: Option<MaxwellThreeDRectangle>,
    vertical: Option<MaxwellThreeDRectangle>,
    missing_horizontal: &'static str,
    missing_vertical: &'static str,
) -> Result<Option<(MaxwellThreeDRectangle, MaxwellThreeDRectangle)>, MaxwellThreeDLoweringError> {
    if !applies {
        Ok(None)
    } else {
        match (horizontal, vertical) {
            (None, _) => Err(MaxwellThreeDLoweringError::IncompleteClear(missing_horizontal)),
            (_, None) => Err(MaxwellThreeDLoweringError::IncompleteClear(missing_vertical)),
            (Some(horizontal), Some(vertical)) => Ok(Some((horizontal, vertical))),
        }
    }
}

#[verifier::when_used_as_spec(spec_bounding_rectangle)]
pub fn bounding_rectangle(
    applies: bool,
    horizontal: Option<MaxwellThreeDRectangle>,
    vertical: Option<MaxwellThreeDRectangle>,
    missing_horizontal: &'static str,
    missing_vertical: &'static str,
) -> (r: Result<
    Option<(MaxwellThreeDRectangle, MaxwellThreeDRectangle)>,
    MaxwellThreeDLoweringError,
>)
    ensures
        r == spec_bounding_rectangle(
            applies,
            horizontal,
            vertical,
            missing_horizontal,
            missing_vertical,
        ),
{
    if !applies {
        Ok(None)
    } else {
        match (horizontal, vertical) {
            (None, _) => Err(MaxwellThreeDLoweringError::IncompleteClear(missing_horizontal)),
            (_, None) => Err(MaxwellThreeDLoweringError::IncompleteClear(missing_vertical)),
            (Some(horizontal), Some(vertical)) => Ok(Some((horizontal, vertical))),
        }
    }
}

impl MaxwellThreeDClearRegions {
    /// Rectangles that apply: without a control word the clear rectangle alone, else
    /// those that the control word selects.
    pub open spec fn spec_from_state(state: &MaxwellThreeDState) -> Result<
        MaxwellThreeDClearRegions,
        MaxwellThreeDLoweringError,
    > {
        let control = state.render_targets.clear_surface_control.value;
        let scissor = state.fixed_function.scissor[0];
        let viewport = state.fixed_function.viewport[0];
        match spec_bounding_rectangle(
            match control {
                Some(control) => control.use_clear_rect(),
                None => true,
            },
            state.render_targets.clear_horizontal.value,
            state.render_targets.clear_vertical.value,
            "horizontal rectangle",
            "vertical rectangle",
        ) {
            Err(error) => Err(error),
            Ok(clear) => match spec_bounding_rectangle(
                match control {
                    Some(control) => control.use_scissor_zero(),
                    None => false,
                },
                scissor.horizontal.value,
                scissor.vertical.value,
                "SET_SCISSOR_HORIZONTAL(0)",
                "SET_SCISSOR_VERTICAL(0)",
            ) {
                Err(error) => Err(error),
                Ok(scissor) => match spec_bounding_rectangle(
                    match control {
                        Some(control) => control.use_viewport_clip_zero(),
                        None => false,
                    },
                    viewport.clip_horizontal.value,
                    viewport.clip_vertical.value,
                    "SET_VIEWPORT_CLIP_HORIZONTAL(0)",
                    "SET_VIEWPORT_CLIP_VERTICAL(0)",
                ) {
                    Err(error) => Err(error),
                    Ok(viewport_clip) => Ok(
                        MaxwellThreeDClearRegions { clear, scissor, viewport_clip },
                    ),
                },
            },
        }
    }

    #[verifier::when_used_as_spec(spec_from_state)]
    pub fn from_state(state: &MaxwellThreeDState) -> (r: Result<
        MaxwellThreeDClearRegions,
        MaxwellThreeDLoweringError,
    >)
        ensures
            r == MaxwellThreeDClearRegions::spec_from_state(state),
    {
        let (use_clear, use_scissor, use_viewport): (bool, bool, bool) = match state.render_targets.clear_surface_control.value {
            Some(control) => (
                control.use_clear_rect(),
                control.use_scissor_zero(),
                control.use_viewport_clip_zero(),
            ),
            None => (true, false, false),
        };
        let clear = match bounding_rectangle(
            use_clear,
            state.render_targets.clear_horizontal.value,
            state.render_targets.clear_vertical.value,
            "horizontal rectangle",
            "vertical rectangle",
        ) {
            Ok(rectangle) => rectangle,
            Err(error) => {
                return Err(error);
            },
        };
        let scissor = match bounding_rectangle(
            use_scissor,
            state.fixed_function.scissor[0].horizontal.value,
            state.fixed_function.scissor[0].vertical.value,
            "SET_SCISSOR_HORIZONTAL(0)",
            "SET_SCISSOR_VERTICAL(0)",
        ) {
            Ok(rectangle) => rectangle,
            Err(error) => {
                return Err(error);
            },
        };
        let viewport_clip = match bounding_rectangle(
            use_viewport,
            state.fixed_function.viewport[0].clip_horizontal.value,
            state.fixed_function.viewport[0].clip_vertical.value,
            "SET_VIEWPORT_CLIP_HORIZONTAL(0)",
            "SET_VIEWPORT_CLIP_VERTICAL(0)",
        ) {
            Ok(rectangle) => rectangle,
            Err(error) => {
                return Err(error);
            },
        };
        Ok(MaxwellThreeDClearRegions { clear, scissor, viewport_clip })
    }

    /// Region narrowed to a rectangle, if there is one.
    pub open spec fn narrowed(
        region: MaxwellThreeDClearRegion,
        rectangle: Option<(MaxwellThreeDRectangle, MaxwellThreeDRectangle)>,
    ) -> MaxwellThreeDClearRegion {
        match rectangle {
            Some((horizontal, vertical)) => region.intersected(horizontal, vertical),
            None => region,
        }
    }

    pub open spec fn spec_for_attachment(self, width: u32, height: u32) -> MaxwellThreeDClearRegion {
        MaxwellThreeDClearRegions::narrowed(
            MaxwellThreeDClearRegions::narrowed(
                MaxwellThreeDClearRegions::narrowed(
                    MaxwellThreeDClearRegion::attachment(width, height),
                    self.clear,
                ),
                self.scissor,
            ),
            self.viewport_clip,
        )
    }

    /// Texels of an attachment that a clear reaches.
    #[must_use]
    #[verifier::when_used_as_spec(spec_for_attachment)]
    pub fn for_attachment(self, width: u32, height: u32) -> (r: MaxwellThreeDClearRegion)
        ensures
            r == self.spec_for_attachment(width, height),
    {
        let mut region = MaxwellThreeDClearRegion::attachment(width, height);
        if let Some((horizontal, vertical)) = self.clear {
            region.intersect(horizontal, vertical);
        }
        if let Some((horizontal, vertical)) = self.scissor {
            region.intersect(horizontal, vertical);
        }
        if let Some((horizontal, vertical)) = self.viewport_clip {
            region.intersect(horizontal, vertical);
        }
        region
    }

    /// Whether a rectangle that applies holds a texel.
    pub open spec fn allows(
        rectangle: Option<(MaxwellThreeDRectangle, MaxwellThreeDRectangle)>,
        x: int,
        y: int,
    ) -> bool {
        rectangle matches Some((horizontal, vertical)) ==> horizontal.min <= x < horizontal.max
            && vertical.min <= y < vertical.max
    }

    /// A clear reaches exactly the texels of the attachment that lie in every rectangle
    /// that applies.
    pub proof fn law_cleared_texels(self, width: u32, height: u32, x: int, y: int)
        ensures
            self.for_attachment(width, height).contains(x, y) <==> {
                &&& 0 <= x < width
                &&& 0 <= y < height
                &&& MaxwellThreeDClearRegions::allows(self.clear, x, y)
                &&& MaxwellThreeDClearRegions::allows(self.scissor, x, y)
                &&& MaxwellThreeDClearRegions::allows(self.viewport_clip, x, y)
            },
    {
    }

    /// A clear covers an attachment of nonzero size exactly when it reaches every texel
    /// of it.
    pub proof fn law_full_coverage(self, width: u32, height: u32)
        requires
            width > 0,
            height > 0,
        ensures
            self.for_attachment(width, height).fully_covers(width, height) <==> forall|
                x: int,
                y: int,
            |
                0 <= x < width && 0 <= y < height ==> #[trigger] self.for_attachment(
                    width,
                    height,
                ).contains(x, y),
    {
        let region = self.for_attachment(width, height);
        if forall|x: int, y: int|
            0 <= x < width && 0 <= y < height ==> #[trigger] region.contains(x, y) {
            assert(region.contains(0, 0));
            assert(region.contains(width - 1, height - 1));
        }
    }
}

/// Value that a clear writes; color and depth are IEEE-754 bits.
#[derive(Clone, Copy, Debug, PartialEq, Eq, Hash, Structural)]
#[allow(inconsistent_fields)]
pub enum ClearValue {
    Color { red: u32, green: u32, blue: u32, alpha: u32 },
    Depth(u32),
    Stencil(u8),
    DepthStencil { depth: u32, stencil: u8 },
}

/// One clear of a part of one image.
#[derive(Clone, Copy, Debug, PartialEq, Eq, Hash, Structural)]
pub struct ClearPlan {
    pub resource: usize,
    pub image: u64,
    pub subresources: ImageSubresourceRange,
    pub description: ImageDescription,
    pub x: u32,
    pub y: u32,
    pub width: u32,
    pub height: u32,
    pub value: ClearValue,
}

/// Image that a role is bound to, or why there is none.
pub open spec fn bound_image(
    models: Seq<ResolvedModel>,
    bindings: Seq<Option<ResourceDependency>>,
    role: MaxwellThreeDResourceRole,
) -> Result<(usize, u64, ImageDescription), MaxwellThreeDLoweringError> {
    match crate::resource::role_position(models, role) {
        None => Err(MaxwellThreeDLoweringError::MissingResolvedResource { role }),
        Some(index) => match models[index as int].image() {
            None => Err(MaxwellThreeDLoweringError::ResolvedResourceKindMismatch),
            Some(description) => match bindings[index as int] {
                None => Err(MaxwellThreeDLoweringError::MissingResolvedResource { role }),
                Some(ResourceDependency::Image(image)) => Ok((index, image, description)),
                Some(_) => Err(MaxwellThreeDLoweringError::ResolvedResourceKindMismatch),
            },
        },
    }
}

pub fn find_bound_image(
    resources: &MaxwellThreeDResolvedResources,
    bindings: &Vec<Option<ResourceDependency>>,
    role: MaxwellThreeDResourceRole,
) -> (r: Result<(usize, u64, ImageDescription), MaxwellThreeDLoweringError>)
    requires
        bindings@.len() == resources.resources@.len(),
    ensures
        r == bound_image(resources.models(), bindings@, role),
        r matches Ok((index, _, _)) ==> index < resources.resources@.len(),
{
    match find_role(resources, role) {
        None => Err(MaxwellThreeDLoweringError::MissingResolvedResource { role }),
        Some(index) => match resources.resources[index].image() {
            None => Err(MaxwellThreeDLoweringError::ResolvedResourceKindMismatch),
            Some(description) => match bindings[index] {
                None => Err(MaxwellThreeDLoweringError::MissingResolvedResource { role }),
                Some(ResourceDependency::Image(image)) => Ok((index, image, description)),
                Some(_) => Err(MaxwellThreeDLoweringError::ResolvedResourceKindMismatch),
            },
        },
    }
}

/// Part of an image that a clear reaches: the layer must be that of the view, and the
/// part must not be empty.
pub open spec fn spec_clear_image_region(
    subresources: ImageSubresourceRange,
    extent: ImageExtent,
    array_layer: u16,
    regions: MaxwellThreeDClearRegions,
) -> Result<MaxwellThreeDClearRegion, MaxwellThreeDLoweringError> {
    let region = regions.for_attachment(extent.width, extent.height);
    if array_layer != subresources.base_layer {
        Err(MaxwellThreeDLoweringError::ClearOutsideAttachment)
    } else if region.is_empty() {
        Err(MaxwellThreeDLoweringError::EmptyClearRectangle)
    } else {
        Ok(region)
    }
}

#[verifier::when_used_as_spec(spec_clear_image_region)]
pub fn clear_image_region(
    subresources: ImageSubresourceRange,
    extent: ImageExtent,
    array_layer: u16,
    regions: MaxwellThreeDClearRegions,
) -> (r: Result<MaxwellThreeDClearRegion, MaxwellThreeDLoweringError>)
    ensures
        r == spec_clear_image_region(subresources, extent, array_layer, regions),
        r matches Ok(region) ==> !region.is_empty(),
{
    if array_layer != subresources.base_layer {
        return Err(MaxwellThreeDLoweringError::ClearOutsideAttachment);
    }
    let region = regions.for_attachment(extent.width, extent.height);
    if region.is_empty() {
        return Err(MaxwellThreeDLoweringError::EmptyClearRectangle);
    }
    Ok(region)
}

/// Value of a color clear.
pub open spec fn spec_color_value(state: &MaxwellThreeDState) -> Result<
    ClearValue,
    MaxwellThreeDLoweringError,
> {
    match (
        state.render_targets.clear_color[0].value,
        state.render_targets.clear_color[1].value,
        state.render_targets.clear_color[2].value,
        state.render_targets.clear_color[3].value,
    ) {
        (Some(red), Some(green), Some(blue), Some(alpha)) => Ok(
            ClearValue::Color { red: red.0, green: green.0, blue: blue.0, alpha: alpha.0 },
        ),
        _ => Err(MaxwellThreeDLoweringError::IncompleteClear("color value")),
    }
}

#[verifier::when_used_as_spec(spec_color_value)]
pub fn color_value(state: &MaxwellThreeDState) -> (r: Result<ClearValue, MaxwellThreeDLoweringError>)
    ensures
        r == spec_color_value(state),
{
    match (
        state.render_targets.clear_color[0].value,
        state.render_targets.clear_color[1].value,
        state.render_targets.clear_color[2].value,
        state.render_targets.clear_color[3].value,
    ) {
        (Some(red), Some(green), Some(blue), Some(alpha)) => Ok(
            ClearValue::Color { red: red.0, green: green.0, blue: blue.0, alpha: alpha.0 },
        ),
        _ => Err(MaxwellThreeDLoweringError::IncompleteClear("color value")),
    }
}

/// Value of a depth/stencil clear: the values of the selected planes.
pub open spec fn spec_depth_stencil_value(
    state: &MaxwellThreeDState,
    surface: MaxwellThreeDClearSurface,
) -> Result<ClearValue, MaxwellThreeDLoweringError> {
    if surface.depth() && state.render_targets.clear_depth.value is None {
        Err(MaxwellThreeDLoweringError::IncompleteClear("depth value"))
    } else if surface.stencil() && state.render_targets.clear_stencil.value is None {
        Err(MaxwellThreeDLoweringError::IncompleteClear("stencil value"))
    } else {
        let depth = state.render_targets.clear_depth.value->Some_0.0;
        let stencil = state.render_targets.clear_stencil.value->Some_0;
        Ok(
            if surface.depth() && surface.stencil() {
                ClearValue::DepthStencil { depth, stencil }
            } else if surface.depth() {
                ClearValue::Depth(depth)
            } else {
                ClearValue::Stencil(stencil)
            },
        )
    }
}

fn depth_stencil_value(state: &MaxwellThreeDState, surface: MaxwellThreeDClearSurface) -> (r: Result<
    ClearValue,
    MaxwellThreeDLoweringError,
>)
    requires
        surface.depth() || surface.stencil(),
    ensures
        r == spec_depth_stencil_value(state, surface),
{
    let mut depth: Option<u32> = None;
    if surface.depth() {
        match state.render_targets.clear_depth.value {
            Some(bits) => {
                depth = Some(bits.0);
            },
            None => {
                return Err(MaxwellThreeDLoweringError::IncompleteClear("depth value"));
            },
        }
    }
    if surface.stencil() {
        match state.render_targets.clear_stencil.value {
            Some(stencil) => match depth {
                Some(depth) => Ok(ClearValue::DepthStencil { depth, stencil }),
                None => Ok(ClearValue::Stencil(stencil)),
            },
            None => Err(MaxwellThreeDLoweringError::IncompleteClear("stencil value")),
        }
    } else {
        match depth {
            Some(depth) => Ok(ClearValue::Depth(depth)),
            None => Err(MaxwellThreeDLoweringError::IncompleteClear("depth value")),
        }
    }
}

/// Clear of the image that a role is bound to, with a value that may be missing, unless the
/// clear is refused.
pub open spec fn cleared_image(
    models: Seq<ResolvedModel>,
    bindings: Seq<Option<ResourceDependency>>,
    role: MaxwellThreeDResourceRole,
    array_layer: u16,
    regions: MaxwellThreeDClearRegions,
    value: Result<ClearValue, MaxwellThreeDLoweringError>,
    refusal: Option<&'static str>,
) -> Result<ClearPlan, MaxwellThreeDLoweringError> {
    match bound_image(models, bindings, role) {
        Err(error) => Err(error),
        Ok((index, image, description)) => match clear_image_region(
            models[index as int].subresources,
            description.extent,
            array_layer,
            regions,
        ) {
            Err(error) => Err(error),
            Ok(region) => match value {
                Err(error) => Err(error),
                Ok(value) => match refusal {
                    Some(reason) => Err(MaxwellThreeDLoweringError::Command(reason)),
                    None => Ok(
                        ClearPlan {
                            resource: index,
                            image,
                            subresources: models[index as int].subresources,
                            description,
                            x: region.min_x,
                            y: region.min_y,
                            width: (region.max_x - region.min_x) as u32,
                            height: (region.max_y - region.min_y) as u32,
                            value,
                        },
                    ),
                },
            },
        },
    }
}

fn clear_image(
    resources: &MaxwellThreeDResolvedResources,
    bindings: &Vec<Option<ResourceDependency>>,
    role: MaxwellThreeDResourceRole,
    array_layer: u16,
    regions: MaxwellThreeDClearRegions,
    value: Result<ClearValue, MaxwellThreeDLoweringError>,
    refusal: Option<&'static str>,
) -> (r: Result<ClearPlan, MaxwellThreeDLoweringError>)
    requires
        bindings@.len() == resources.resources@.len(),
    ensures
        r == cleared_image(
            resources.models(),
            bindings@,
            role,
            array_layer,
            regions,
            value,
            refusal,
        ),
{
    let (index, image, description) = match find_bound_image(resources, bindings, role) {
        Ok(bound) => bound,
        Err(error) => {
            return Err(error);
        },
    };
    let subresources = resources.resources[index].subresources;
    let region = match clear_image_region(subresources, description.extent, array_layer, regions) {
        Ok(region) => region,
        Err(error) => {
            return Err(error);
        },
    };
    match value {
        Ok(value) => match refusal {
            Some(reason) => Err(MaxwellThreeDLoweringError::Command(reason)),
            None => Ok(
                ClearPlan {
                    resource: index,
                    image,
                    subresources,
                    description,
                    x: region.min_x,
                    y: region.min_y,
                    width: region.max_x - region.min_x,
                    height: region.max_y - region.min_y,
                    value,
                },
            ),
        },
        Err(error) => Err(error),
    }
}

/// Clears that a surface clear consists of: of all color components of one target, of
/// the selected depth/stencil planes, or of both. Anything the state leaves open, a
/// partial color mask, a stencil mask and a clear that cannot be constructed are refused.
pub open spec fn cleared(
    state: &MaxwellThreeDState,
    models: Seq<ResolvedModel>,
    bindings: Seq<Option<ResourceDependency>>,
    refusals: &NeutralRefusals,
) -> Result<Seq<ClearPlan>, MaxwellThreeDLoweringError> {
    match state.render_targets.clear_surface.value {
        None => Err(MaxwellThreeDLoweringError::IncompleteClear("CLEAR_SURFACE")),
        Some(surface) => if surface.color_mask() == 0 && !surface.depth() && !surface.stencil() {
            Err(MaxwellThreeDLoweringError::EmptyClearMask)
        } else if surface.stencil() && respects_stencil_mask(state) {
            Err(MaxwellThreeDLoweringError::UnsupportedClearStencilMaskSemantics)
        } else {
            match MaxwellThreeDClearRegions::from_state(state) {
                Err(error) => Err(error),
                Ok(regions) => {
                    let color = cleared_image(
                        models,
                        bindings,
                        MaxwellThreeDResourceRole::ColorTarget(surface.color_target()),
                        surface.array_layer(),
                        regions,
                        color_value(state),
                        refusals.reason(NeutralConstruction::ColorClear),
                    );
                    let depth_stencil = cleared_image(
                        models,
                        bindings,
                        MaxwellThreeDResourceRole::DepthStencilTarget,
                        surface.array_layer(),
                        regions,
                        spec_depth_stencil_value(state, surface),
                        refusals.reason(NeutralConstruction::DepthStencilClear),
                    );
                    let deep = surface.depth() || surface.stencil();
                    if surface.color_mask() == 0 {
                        match depth_stencil {
                            Ok(plan) => Ok(seq![plan]),
                            Err(error) => Err(error),
                        }
                    } else if surface.color_mask() != 0xf {
                        Err(
                            MaxwellThreeDLoweringError::PartialColorClearUnsupported {
                                mask: surface.color_mask(),
                            },
                        )
                    } else {
                        match color {
                            Err(error) => Err(error),
                            Ok(plan) => if !deep {
                                Ok(seq![plan])
                            } else {
                                match depth_stencil {
                                    Ok(deep_plan) => Ok(seq![plan, deep_plan]),
                                    Err(error) => Err(error),
                                }
                            },
                        }
                    }
                },
            }
        },
    }
}

/// Whether the control word asks clears to respect the stencil write mask.
pub open spec fn spec_respects_stencil_mask(state: &MaxwellThreeDState) -> bool {
    match state.render_targets.clear_surface_control.value {
        Some(control) => control.respect_stencil_mask(),
        None => false,
    }
}

#[verifier::when_used_as_spec(spec_respects_stencil_mask)]
pub fn respects_stencil_mask(state: &MaxwellThreeDState) -> (r: bool)
    ensures
        r == spec_respects_stencil_mask(state),
{
    match state.render_targets.clear_surface_control.value {
        Some(control) => control.respect_stencil_mask(),
        None => false,
    }
}

/// Lowers a surface clear.
pub fn lower_clear(
    state: &MaxwellThreeDState,
    resources: &MaxwellThreeDResolvedResources,
    bindings: &Vec<Option<ResourceDependency>>,
    refusals: &NeutralRefusals,
) -> (r: Result<Vec<ClearPlan>, MaxwellThreeDLoweringError>)
    requires
        bindings@.len() == resources.resources@.len(),
    ensures
        match cleared(state, resources.models(), bindings@, refusals) {
            Ok(plans) => r matches Ok(lowered) && lowered@ == plans,
            Err(error) => r == Err::<Vec<ClearPlan>, MaxwellThreeDLoweringError>(error),
        },
{
    let surface = match state.render_targets.clear_surface.value {
        Some(surface) => surface,
        None => {
            return Err(MaxwellThreeDLoweringError::IncompleteClear("CLEAR_SURFACE"));
        },
    };
    if surface.color_mask() == 0 && !surface.depth() && !surface.stencil() {
        return Err(MaxwellThreeDLoweringError::EmptyClearMask);
    }
    if surface.stencil() && respects_stencil_mask(state) {
        return Err(MaxwellThreeDLoweringError::UnsupportedClearStencilMaskSemantics);
    }
    let regions = match MaxwellThreeDClearRegions::from_state(state) {
        Ok(regions) => regions,
        Err(error) => {
            return Err(error);
        },
    };
    let mut plans: Vec<ClearPlan> = Vec::new();
    if surface.color_mask() != 0 {
        if surface.color_mask() != 0xf {
            return Err(
                MaxwellThreeDLoweringError::PartialColorClearUnsupported {
                    mask: surface.color_mask(),
                },
            );
        }
        match clear_image(
            resources,
            bindings,
            MaxwellThreeDResourceRole::ColorTarget(surface.color_target()),
            surface.array_layer(),
            regions,
            color_value(state),
            refusals.reason(NeutralConstruction::ColorClear),
        ) {
            Ok(plan) => plans.push(plan),
            Err(error) => {
                return Err(error);
            },
        }
    }
    if surface.depth() || surface.stencil() {
        let value = depth_stencil_value(state, surface);
        match clear_image(
            resources,
            bindings,
            MaxwellThreeDResourceRole::DepthStencilTarget,
            surface.array_layer(),
            regions,
            value,
            refusals.reason(NeutralConstruction::DepthStencilClear),
        ) {
            Ok(plan) => plans.push(plan),
            Err(error) => {
                return Err(error);
            },
        }
    }
    Ok(plans)
}

/// A clear stays inside its attachment and is never empty.
pub proof fn law_clear_stays_in_attachment(
    models: Seq<ResolvedModel>,
    bindings: Seq<Option<ResourceDependency>>,
    role: MaxwellThreeDResourceRole,
    array_layer: u16,
    regions: MaxwellThreeDClearRegions,
    value: Result<ClearValue, MaxwellThreeDLoweringError>,
    refusal: Option<&'static str>,
)
    ensures
        cleared_image(models, bindings, role, array_layer, regions, value, refusal) matches Ok(
            plan,
        ) ==> {
            &&& plan.width > 0
            &&& plan.height > 0
            &&& plan.x + plan.width <= plan.description.extent.width
            &&& plan.y + plan.height <= plan.description.extent.height
            &&& plan.subresources.base_layer == array_layer
        },
{
}

/// Whether the surface clear of a state reaches every texel of an image.
pub open spec fn spec_clear_fully_covers_image(
    state: &MaxwellThreeDState,
    extent: ImageExtent,
) -> Result<bool, MaxwellThreeDLoweringError> {
    match MaxwellThreeDClearRegions::from_state(state) {
        Err(error) => Err(error),
        Ok(regions) => Ok(
            regions.for_attachment(extent.width, extent.height).fully_covers(
                extent.width,
                extent.height,
            ),
        ),
    }
}

#[verifier::when_used_as_spec(spec_clear_fully_covers_image)]
pub fn clear_fully_covers_image(state: &MaxwellThreeDState, extent: ImageExtent) -> (r: Result<
    bool,
    MaxwellThreeDLoweringError,
>)
    ensures
        r == spec_clear_fully_covers_image(state, extent),
{
    match MaxwellThreeDClearRegions::from_state(state) {
        Err(error) => Err(error),
        Ok(regions) => Ok(
            regions.for_attachment(extent.width, extent.height).fully_covers(
                extent.width,
                extent.height,
            ),
        ),
    }
}

/// Whether the surface clear of a state gives every texel of the selected planes of a
/// depth/stencil image a new value.
pub open spec fn spec_depth_clear_fully_initializes(
    state: &MaxwellThreeDState,
    extent: ImageExtent,
    depth: bool,
    stencil: bool,
) -> Result<bool, MaxwellThreeDLoweringError> {
    if !depth && !stencil {
        Ok(false)
    } else if stencil && respects_stencil_mask(state) {
        Ok(false)
    } else {
        clear_fully_covers_image(state, extent)
    }
}

#[verifier::when_used_as_spec(spec_depth_clear_fully_initializes)]
pub fn depth_clear_fully_initializes(
    state: &MaxwellThreeDState,
    extent: ImageExtent,
    depth: bool,
    stencil: bool,
) -> (r: Result<bool, MaxwellThreeDLoweringError>)
    ensures
        r == spec_depth_clear_fully_initializes(state, extent, depth, stencil),
{
    if !depth && !stencil {
        Ok(false)
    } else if stencil && respects_stencil_mask(state) {
        Ok(false)
    } else {
        clear_fully_covers_image(state, extent)
    }
}

} // verus!
