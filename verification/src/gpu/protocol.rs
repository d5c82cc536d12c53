//! Commands of the driver of a GPU, and what they ask of the renderer.

use rutabaga_gfx::{RUTABAGA_PIPE_BIND_RENDER_TARGET, RUTABAGA_PIPE_TEXTURE_2D};
use vstd::prelude::*;

verus! {

/// Header flag: the response has to wait for a fence.
pub const VIRTIO_GPU_FLAG_FENCE: u32 = 1;

/// Header flag: the fence belongs to a ring of the context.
pub const VIRTIO_GPU_FLAG_INFO_RING_IDX: u32 = 2;

/// The texture target of a two-dimensional resource.
pub const PIPE_TEXTURE_2D: u32 = 2;

/// The binding of a resource that is rendered to.
pub const PIPE_BIND_RENDER_TARGET: u32 = 2;

/// The value of [`RUTABAGA_PIPE_TEXTURE_2D`].
#[verifier::external_body]
fn pipe_texture_2d() -> (target: u32)
    ensures
        target == PIPE_TEXTURE_2D,
{
    RUTABAGA_PIPE_TEXTURE_2D
}

/// The value of [`RUTABAGA_PIPE_BIND_RENDER_TARGET`].
#[verifier::external_body]
fn pipe_bind_render_target() -> (bind: u32)
    ensures
        bind == PIPE_BIND_RENDER_TARGET,
{
    RUTABAGA_PIPE_BIND_RENDER_TARGET
}

/// The header of a command.
#[derive(Debug, Copy, Clone, PartialEq, Eq, Structural)]
pub struct CtrlHdr {
    /// The kind of command.
    pub type_: u32,
    /// Flags.
    pub flags: u32,
    /// The fence to wait for.
    pub fence_id: u64,
    /// The context of the command.
    pub ctx_id: u32,
    /// The ring of the context that the fence belongs to.
    pub ring_idx: u8,
}

/// A rectangle.
#[derive(Debug, Copy, Clone, PartialEq, Eq, Structural)]
pub struct Rect {
    /// Left edge.
    pub x: u32,
    /// Upper edge.
    pub y: u32,
    /// Width.
    pub width: u32,
    /// Height.
    pub height: u32,
}

/// A box in three dimensions.
#[derive(Debug, Copy, Clone, PartialEq, Eq, Structural)]
pub struct Box3D {
    /// Left edge.
    pub x: u32,
    /// Upper edge.
    pub y: u32,
    /// Front edge.
    pub z: u32,
    /// Width.
    pub w: u32,
    /// Height.
    pub h: u32,
    /// Depth.
    pub d: u32,
}

/// Where a cursor is.
#[derive(Debug, Copy, Clone, PartialEq, Eq, Structural)]
pub struct CursorPos {
    /// The display.
    pub scanout_id: u32,
    /// Horizontal position.
    pub x: u32,
    /// Vertical position.
    pub y: u32,
}

/// Asks for a resource in two dimensions.
#[derive(Debug, Copy, Clone, PartialEq, Eq, Structural)]
pub struct Create2d {
    /// The number of the resource.
    pub resource_id: u32,
    /// The format of its pixels.
    pub format: u32,
    /// Width.
    pub width: u32,
    /// Height.
    pub height: u32,
}

/// Asks for pixels to be copied to a resource in two dimensions.
#[derive(Debug, Copy, Clone, PartialEq, Eq, Structural)]
pub struct TransferToHost2d {
    /// Where in the resource.
    pub r: Rect,
    /// From where in the memory of the resource.
    pub offset: u64,
    /// The resource.
    pub resource_id: u32,
}

/// Asks for a cursor to be changed or moved.
#[derive(Debug, Copy, Clone, PartialEq, Eq, Structural)]
pub struct UpdateCursor {
    /// Where the cursor is.
    pub pos: CursorPos,
    /// The image of the cursor.
    pub resource_id: u32,
    /// The point in the image that points, from the left.
    pub hot_x: u32,
    /// The point in the image that points, from above.
    pub hot_y: u32,
}

/// Asks for a resource in three dimensions.
#[derive(Debug, Copy, Clone, PartialEq, Eq, Structural)]
pub struct Create3d {
    /// The number of the resource.
    pub resource_id: u32,
    /// How to make it.
    pub resource: ResourceCreate3D,
}

/// How to make a resource.
#[derive(Debug, Copy, Clone, PartialEq, Eq, Structural)]
pub struct ResourceCreate3D {
    /// The texture target.
    pub target: u32,
    /// The format of its pixels.
    pub format: u32,
    /// What it is used for.
    pub bind: u32,
    /// Width.
    pub width: u32,
    /// Height.
    pub height: u32,
    /// Depth.
    pub depth: u32,
    /// Number of elements.
    pub array_size: u32,
    /// The last level of detail.
    pub last_level: u32,
    /// Number of samples.
    pub nr_samples: u32,
    /// Flags.
    pub flags: u32,
}

/// Asks for pixels to be copied to or from a resource in three dimensions.
#[derive(Debug, Copy, Clone, PartialEq, Eq, Structural)]
pub struct TransferHost3d {
    /// Where in the resource.
    pub box_: Box3D,
    /// Where in the memory of the resource.
    pub offset: u64,
    /// The resource.
    pub resource_id: u32,
    /// The level of detail.
    pub level: u32,
    /// Number of bytes between rows.
    pub stride: u32,
    /// Number of bytes between layers.
    pub layer_stride: u32,
}

/// How to copy pixels.
#[derive(Debug, Copy, Clone, PartialEq, Eq, Structural)]
pub struct Transfer3D {
    /// Left edge.
    pub x: u32,
    /// Upper edge.
    pub y: u32,
    /// Front edge.
    pub z: u32,
    /// Width.
    pub w: u32,
    /// Height.
    pub h: u32,
    /// Depth.
    pub d: u32,
    /// The level of detail.
    pub level: u32,
    /// Number of bytes between rows.
    pub stride: u32,
    /// Number of bytes between layers.
    pub layer_stride: u32,
    /// Where in the memory of the resource.
    pub offset: u64,
}

impl Transfer3D {
    /// Copies a rectangle.
    pub open spec fn of_rect(r: Rect, offset: u64) -> Transfer3D {
        Transfer3D {
            x: r.x,
            y: r.y,
            z: 0,
            w: r.width,
            h: r.height,
            d: 1,
            level: 0,
            stride: 0,
            layer_stride: 0,
            offset,
        }
    }

    /// Copies a box.
    pub open spec fn of_box(req: TransferHost3d) -> Transfer3D {
        Transfer3D {
            x: req.box_.x,
            y: req.box_.y,
            z: req.box_.z,
            w: req.box_.w,
            h: req.box_.h,
            d: req.box_.d,
            level: req.level,
            stride: req.stride,
            layer_stride: req.layer_stride,
            offset: req.offset,
        }
    }
}

/// [`rutabaga_gfx::Transfer3D::new_2d`]: a transfer of one layer with the given rectangle and
/// offset, and everything else zero.
#[verifier::external_body]
fn transfer_new_2d(x: u32, y: u32, w: u32, h: u32, offset: u64) -> (transfer: Transfer3D)
    ensures
        transfer == Transfer3D::of_rect(Rect { x, y, width: w, height: h }, offset),
{
    let t = rutabaga_gfx::Transfer3D::new_2d(x, y, w, h, offset);
    Transfer3D {
        x: t.x,
        y: t.y,
        z: t.z,
        w: t.w,
        h: t.h,
        d: t.d,
        level: t.level,
        stride: t.stride,
        layer_stride: t.layer_stride,
        offset: t.offset,
    }
}

/// A piece of the memory of the guest: address and length.
#[derive(Debug, Copy, Clone, PartialEq, Eq, Structural)]
pub struct MemoryPiece {
    /// Address in the guest.
    pub addr: u64,
    /// Number of bytes.
    pub len: usize,
}

/// A command of the driver.
#[derive(Debug)]
pub enum GpuCommand {
    /// Describe all displays.
    GetDisplayInfo,
    /// Describe the display with the given number in detail.
    GetEdid(u32),
    /// Make a resource in two dimensions.
    ResourceCreate2d(Create2d),
    /// Give up the resource with the given number.
    ResourceUnref(u32),
    /// Show a resource on a display.
    SetScanout {
        /// The part of the resource to show.
        r: Rect,
        /// The display.
        scanout_id: u32,
        /// The resource.
        resource_id: u32,
    },
    /// Show the changes of a resource.
    ResourceFlush {
        /// The part of the resource that changed.
        r: Rect,
        /// The resource.
        resource_id: u32,
    },
    /// Copy pixels to a resource in two dimensions.
    TransferToHost2d(TransferToHost2d),
    /// Give memory to a resource.
    ResourceAttachBacking {
        /// The resource.
        resource_id: u32,
        /// The memory.
        iovecs: Vec<MemoryPiece>,
    },
    /// Take the memory from the resource with the given number.
    ResourceDetachBacking(u32),
    /// Change a cursor.
    UpdateCursor(UpdateCursor),
    /// Move a cursor.
    MoveCursor(UpdateCursor),
    /// Give a resource a name that other devices understand.
    ResourceAssignUuid,
    /// Describe the way with the given index to talk to the renderer.
    GetCapsetInfo(u32),
    /// Describe a way to talk to the renderer in detail.
    GetCapset {
        /// The way.
        capset_id: u32,
        /// Its version.
        capset_version: u32,
    },
    /// Make a context.
    CtxCreate {
        /// The kind of context.
        context_init: u32,
        /// A name for it.
        debug_name: String,
    },
    /// Give up a context.
    CtxDestroy,
    /// Let a context use the resource with the given number.
    CtxAttachResource(u32),
    /// Do not let a context use the resource with the given number any more.
    CtxDetachResource(u32),
    /// Make a resource in three dimensions.
    ResourceCreate3d(Create3d),
    /// Copy pixels to a resource in three dimensions.
    TransferToHost3d(TransferHost3d),
    /// Copy pixels from a resource in three dimensions.
    TransferFromHost3d(TransferHost3d),
    /// Let the renderer execute commands.
    CmdSubmit3d {
        /// The commands.
        cmd_data: Vec<u8>,
        /// The fences to wait for before.
        fence_ids: Vec<u64>,
    },
    /// Make a resource that is a blob.
    ResourceCreateBlob,
    /// Show a blob on a display.
    SetScanoutBlob,
    /// Let the guest see a blob.
    ResourceMapBlob,
    /// Do not let the guest see a blob any more.
    ResourceUnmapBlob,
}

impl GpuCommand {
    /// Whether the device knows how to execute the command.
    pub open spec fn implemented(&self) -> bool {
        !(self is ResourceAssignUuid || self is ResourceCreateBlob || self is SetScanoutBlob
            || self is ResourceMapBlob || self is ResourceUnmapBlob)
    }

    /// Whether the device knows how to execute the command.
    pub fn is_implemented(&self) -> (implemented: bool)
        ensures
            implemented == self.implemented(),
    {
        match self {
            GpuCommand::ResourceAssignUuid => false,
            GpuCommand::ResourceCreateBlob => false,
            GpuCommand::SetScanoutBlob => false,
            GpuCommand::ResourceMapBlob => false,
            GpuCommand::ResourceUnmapBlob => false,
            _ => true,
        }
    }
}

/// A response of the device.
#[derive(Debug)]
pub enum GpuResponse {
    /// Done.
    OkNoData,
    /// Width and height of each display, and whether it is on.
    OkDisplayInfo(Vec<(u32, u32, bool)>),
    /// A display in detail.
    OkEdid {
        /// The description.
        blob: Vec<u8>,
    },
    /// A way to talk to the renderer.
    OkCapsetInfo {
        /// The way.
        capset_id: u32,
        /// Its version.
        version: u32,
        /// The size of its description.
        size: u32,
    },
    /// A way to talk to the renderer in detail.
    OkCapset(Vec<u8>),
    /// Something went wrong.
    ErrUnspec,
    /// A parameter of the command is not valid.
    ErrInvalidParameter,
    /// Another error, by its number.
    ErrNumber(u32),
}

/// What to ask of the renderer.
#[derive(Debug)]
pub enum GpuCall {
    /// Make the first context the current one.
    ForceCtx0,
    /// Describe all displays.
    DisplayInfo,
    /// Describe a display in detail.
    GetEdid {
        /// The display.
        scanout_id: u32,
    },
    /// Make a resource.
    ResourceCreate3d {
        /// The number of the resource.
        resource_id: u32,
        /// How to make it.
        resource: ResourceCreate3D,
    },
    /// Give up a resource.
    UnrefResource {
        /// The resource.
        resource_id: u32,
    },
    /// Show a resource on a display.
    SetScanout {
        /// The display.
        scanout_id: u32,
        /// The resource.
        resource_id: u32,
        /// The part of the resource to show.
        rect: Rect,
    },
    /// Show the changes of a resource.
    FlushResource {
        /// The resource.
        resource_id: u32,
        /// The part of the resource that changed.
        rect: Rect,
    },
    /// Copy pixels to a resource.
    TransferWrite {
        /// The context.
        ctx_id: u32,
        /// The resource.
        resource_id: u32,
        /// How to copy them.
        transfer: Transfer3D,
    },
    /// Copy pixels from a resource to its memory.
    TransferRead {
        /// The context.
        ctx_id: u32,
        /// The resource.
        resource_id: u32,
        /// How to copy them.
        transfer: Transfer3D,
    },
    /// Give memory to a resource.
    AttachBacking {
        /// The resource.
        resource_id: u32,
        /// The memory.
        iovecs: Vec<MemoryPiece>,
    },
    /// Take the memory from a resource.
    DetachBacking {
        /// The resource.
        resource_id: u32,
    },
    /// Change a cursor.
    UpdateCursor {
        /// The image of the cursor.
        resource_id: u32,
        /// Where the cursor is.
        cursor_pos: CursorPos,
        /// The point in the image that points, from the left.
        hot_x: u32,
        /// The point in the image that points, from above.
        hot_y: u32,
    },
    /// Move a cursor.
    MoveCursor {
        /// The image of the cursor.
        resource_id: u32,
        /// Where the cursor is.
        cursor: CursorPos,
    },
    /// Describe a way to talk to the renderer.
    GetCapsetInfo {
        /// The index of the way.
        index: u32,
    },
    /// Describe a way to talk to the renderer in detail.
    GetCapset {
        /// The way.
        capset_id: u32,
        /// Its version.
        version: u32,
    },
    /// Make a context.
    CreateContext {
        /// The context.
        ctx_id: u32,
        /// The kind of context.
        context_init: u32,
        /// A name for it.
        context_name: Option<String>,
    },
    /// Give up a context.
    DestroyContext {
        /// The context.
        ctx_id: u32,
    },
    /// Let a context use a resource.
    ContextAttachResource {
        /// The context.
        ctx_id: u32,
        /// The resource.
        resource_id: u32,
    },
    /// Do not let a context use a resource any more.
    ContextDetachResource {
        /// The context.
        ctx_id: u32,
        /// The resource.
        resource_id: u32,
    },
    /// Execute commands.
    SubmitCommand {
        /// The context.
        ctx_id: u32,
        /// The commands.
        commands: Vec<u8>,
        /// The fences to wait for before.
        fence_ids: Vec<u64>,
    },
}

/// The resource in three dimensions that stands for one in two dimensions.
pub open spec fn flat_resource(req: Create2d) -> ResourceCreate3D {
    ResourceCreate3D {
        target: PIPE_TEXTURE_2D,
        format: req.format,
        bind: PIPE_BIND_RENDER_TARGET,
        width: req.width,
        height: req.height,
        depth: 1,
        array_size: 1,
        last_level: 0,
        nr_samples: 0,
        flags: 0,
    }
}

/// What a command with the given header asks of the renderer, where `valid` tells for each piece
/// of memory of the command whether it is in the guest.
pub open spec fn call_for(hdr: CtrlHdr, cmd: GpuCommand, valid: Seq<bool>) -> Result<
    GpuCall,
    GpuResponse,
> {
    match cmd {
        GpuCommand::GetDisplayInfo => Ok(GpuCall::DisplayInfo),
        GpuCommand::GetEdid(scanout_id) => Ok(GpuCall::GetEdid { scanout_id }),
        GpuCommand::ResourceCreate2d(req) => Ok(
            GpuCall::ResourceCreate3d {
                resource_id: req.resource_id,
                resource: flat_resource(req),
            },
        ),
        GpuCommand::ResourceUnref(resource_id) => Ok(GpuCall::UnrefResource { resource_id }),
        GpuCommand::SetScanout { r, scanout_id, resource_id } => Ok(
            GpuCall::SetScanout { scanout_id, resource_id, rect: r },
        ),
        GpuCommand::ResourceFlush { r, resource_id } => Ok(
            GpuCall::FlushResource { resource_id, rect: r },
        ),
        GpuCommand::TransferToHost2d(req) => Ok(
            GpuCall::TransferWrite {
                ctx_id: 0,
                resource_id: req.resource_id,
                transfer: Transfer3D::of_rect(req.r, req.offset),
            },
        ),
        GpuCommand::ResourceAttachBacking { resource_id, iovecs } => if valid.contains(false) {
            Err(GpuResponse::ErrInvalidParameter)
        } else {
            Ok(GpuCall::AttachBacking { resource_id, iovecs })
        },
        GpuCommand::ResourceDetachBacking(resource_id) => Ok(
            GpuCall::DetachBacking { resource_id },
        ),
        GpuCommand::UpdateCursor(req) => Ok(
            GpuCall::UpdateCursor {
                resource_id: req.resource_id,
                cursor_pos: req.pos,
                hot_x: req.hot_x,
                hot_y: req.hot_y,
            },
        ),
        GpuCommand::MoveCursor(req) => Ok(
            GpuCall::MoveCursor { resource_id: req.resource_id, cursor: req.pos },
        ),
        GpuCommand::GetCapsetInfo(index) => Ok(GpuCall::GetCapsetInfo { index }),
        GpuCommand::GetCapset { capset_id, capset_version } => Ok(
            GpuCall::GetCapset { capset_id, version: capset_version },
        ),
        GpuCommand::CtxCreate { context_init, debug_name } => Ok(
            GpuCall::CreateContext {
                ctx_id: hdr.ctx_id,
                context_init,
                context_name: Some(debug_name),
            },
        ),
        GpuCommand::CtxDestroy => Ok(GpuCall::DestroyContext { ctx_id: hdr.ctx_id }),
        GpuCommand::CtxAttachResource(resource_id) => Ok(
            GpuCall::ContextAttachResource { ctx_id: hdr.ctx_id, resource_id },
        ),
        GpuCommand::CtxDetachResource(resource_id) => Ok(
            GpuCall::ContextDetachResource { ctx_id: hdr.ctx_id, resource_id },
        ),
        GpuCommand::ResourceCreate3d(req) => Ok(
            GpuCall::ResourceCreate3d { resource_id: req.resource_id, resource: req.resource },
        ),
        GpuCommand::TransferToHost3d(req) => Ok(
            GpuCall::TransferWrite {
                ctx_id: hdr.ctx_id,
                resource_id: req.resource_id,
                transfer: Transfer3D::of_box(req),
            },
        ),
        GpuCommand::TransferFromHost3d(req) => Ok(
            GpuCall::TransferRead {
                ctx_id: hdr.ctx_id,
                resource_id: req.resource_id,
                transfer: Transfer3D::of_box(req),
            },
        ),
        GpuCommand::CmdSubmit3d { cmd_data, fence_ids } => Ok(
            GpuCall::SubmitCommand { ctx_id: hdr.ctx_id, commands: cmd_data, fence_ids },
        ),
        _ => Err(GpuResponse::ErrUnspec),
    }
}

/// What a command asks of the renderer. Before that, the first context has to become the current
/// one ([`GpuCall::ForceCtx0`]).
pub fn process_gpu_command(hdr: CtrlHdr, cmd: GpuCommand, valid: &[bool]) -> (calls: (
    GpuCall,
    Result<GpuCall, GpuResponse>,
))
    requires
        cmd.implemented(),
        cmd matches GpuCommand::ResourceAttachBacking { iovecs, .. } ==> valid@.len()
            == iovecs@.len(),
    ensures
        calls.0 is ForceCtx0,
        calls.1 == call_for(hdr, cmd, valid@),
{
    let call = match cmd {
        GpuCommand::GetDisplayInfo => Ok(GpuCall::DisplayInfo),
        GpuCommand::GetEdid(scanout) => Ok(handle_get_edid(scanout)),
        GpuCommand::ResourceCreate2d(req) => Ok(handle_resource_create_2d(req)),
        GpuCommand::ResourceUnref(resource_id) => Ok(GpuCall::UnrefResource { resource_id }),
        GpuCommand::SetScanout { r, scanout_id, resource_id } => Ok(
            GpuCall::SetScanout { scanout_id, resource_id, rect: r },
        ),
        GpuCommand::ResourceFlush { r, resource_id } => Ok(
            GpuCall::FlushResource { resource_id, rect: r },
        ),
        GpuCommand::TransferToHost2d(req) => Ok(handle_transfer_to_host_2d(req)),
        GpuCommand::ResourceAttachBacking { resource_id, iovecs } => {
            match rutabaga_iovecs_from_guest_mem(iovecs, valid) {
                Ok(iovecs) => Ok(GpuCall::AttachBacking { resource_id, iovecs }),
                Err(response) => Err(response),
            }
        },
        GpuCommand::ResourceDetachBacking(resource_id) => Ok(
            GpuCall::DetachBacking { resource_id },
        ),
        GpuCommand::UpdateCursor(req) => Ok(handle_update_cursor(req)),
        GpuCommand::MoveCursor(req) => Ok(handle_move_cursor(req)),
        GpuCommand::GetCapsetInfo(index) => Ok(GpuCall::GetCapsetInfo { index }),
        GpuCommand::GetCapset { capset_id, capset_version } => Ok(
            GpuCall::GetCapset { capset_id, version: capset_version },
        ),
        GpuCommand::CtxCreate { context_init, debug_name } => Ok(
            handle_ctx_create(hdr, context_init, debug_name),
        ),
        GpuCommand::CtxDestroy => Ok(GpuCall::DestroyContext { ctx_id: hdr.ctx_id }),
        GpuCommand::CtxAttachResource(resource_id) => Ok(
            GpuCall::ContextAttachResource { ctx_id: hdr.ctx_id, resource_id },
        ),
        GpuCommand::CtxDetachResource(resource_id) => Ok(
            GpuCall::ContextDetachResource { ctx_id: hdr.ctx_id, resource_id },
        ),
        GpuCommand::ResourceCreate3d(req) => Ok(handle_resource_create_3d(req)),
        GpuCommand::TransferToHost3d(req) => Ok(handle_transfer_to_host_3d(hdr.ctx_id, req)),
        GpuCommand::TransferFromHost3d(req) => Ok(handle_transfer_from_host_3d(hdr.ctx_id, req)),
        GpuCommand::CmdSubmit3d { cmd_data, fence_ids } => Ok(
            GpuCall::SubmitCommand { ctx_id: hdr.ctx_id, commands: cmd_data, fence_ids },
        ),
        _ => Err(GpuResponse::ErrUnspec),
    };
    (GpuCall::ForceCtx0, call)
}

fn handle_get_edid(scanout: u32) -> (call: GpuCall)
    ensures
        call == (GpuCall::GetEdid { scanout_id: scanout }),
{
    GpuCall::GetEdid { scanout_id: scanout }
}

fn handle_resource_create_2d(req: Create2d) -> (call: GpuCall)
    ensures
        call == (GpuCall::ResourceCreate3d {
            resource_id: req.resource_id,
            resource: flat_resource(req),
        }),
{
    let resource = ResourceCreate3D {
        target: pipe_texture_2d(),
        format: req.format,
        bind: pipe_bind_render_target(),
        width: req.width,
        height: req.height,
        depth: 1,
        array_size: 1,
        last_level: 0,
        nr_samples: 0,
        flags: 0,
    };
    GpuCall::ResourceCreate3d { resource_id: req.resource_id, resource }
}

fn handle_transfer_to_host_2d(req: TransferToHost2d) -> (call: GpuCall)
    ensures
        call == (GpuCall::TransferWrite {
            ctx_id: 0,
            resource_id: req.resource_id,
            transfer: Transfer3D::of_rect(req.r, req.offset),
        }),
{
    let transfer = transfer_new_2d(req.r.x, req.r.y, req.r.width, req.r.height, req.offset);
    GpuCall::TransferWrite { ctx_id: 0, resource_id: req.resource_id, transfer }
}

fn handle_update_cursor(req: UpdateCursor) -> (call: GpuCall)
    ensures
        call == (GpuCall::UpdateCursor {
            resource_id: req.resource_id,
            cursor_pos: req.pos,
            hot_x: req.hot_x,
            hot_y: req.hot_y,
        }),
{
    GpuCall::UpdateCursor {
        resource_id: req.resource_id,
        cursor_pos: req.pos,
        hot_x: req.hot_x,
        hot_y: req.hot_y,
    }
}

fn handle_move_cursor(req: UpdateCursor) -> (call: GpuCall)
    ensures
        call == (GpuCall::MoveCursor { resource_id: req.resource_id, cursor: req.pos }),
{
    GpuCall::MoveCursor { resource_id: req.resource_id, cursor: req.pos }
}

fn handle_ctx_create(hdr: CtrlHdr, context_init: u32, debug_name: String) -> (call: GpuCall)
    ensures
        call == (GpuCall::CreateContext {
            ctx_id: hdr.ctx_id,
            context_init,
            context_name: Some(debug_name),
        }),
{
    GpuCall::CreateContext { ctx_id: hdr.ctx_id, context_init, context_name: Some(debug_name) }
}

fn handle_resource_create_3d(req: Create3d) -> (call: GpuCall)
    ensures
        call == (GpuCall::ResourceCreate3d {
            resource_id: req.resource_id,
            resource: req.resource,
        }),
{
    GpuCall::ResourceCreate3d { resource_id: req.resource_id, resource: req.resource }
}

fn transfer_of_box(req: TransferHost3d) -> (transfer: Transfer3D)
    ensures
        transfer == Transfer3D::of_box(req),
{
    Transfer3D {
        x: req.box_.x,
        y: req.box_.y,
        z: req.box_.z,
        w: req.box_.w,
        h: req.box_.h,
        d: req.box_.d,
        level: req.level,
        stride: req.stride,
        layer_stride: req.layer_stride,
        offset: req.offset,
    }
}

fn handle_transfer_to_host_3d(ctx_id: u32, req: TransferHost3d) -> (call: GpuCall)
    ensures
        call == (GpuCall::TransferWrite {
            ctx_id,
            resource_id: req.resource_id,
            transfer: Transfer3D::of_box(req),
        }),
{
    GpuCall::TransferWrite { ctx_id, resource_id: req.resource_id, transfer: transfer_of_box(req) }
}

fn handle_transfer_from_host_3d(ctx_id: u32, req: TransferHost3d) -> (call: GpuCall)
    ensures
        call == (GpuCall::TransferRead {
            ctx_id,
            resource_id: req.resource_id,
            transfer: Transfer3D::of_box(req),
        }),
{
    GpuCall::TransferRead { ctx_id, resource_id: req.resource_id, transfer: transfer_of_box(req) }
}

/// The pieces of memory, if all of them are in the guest.
fn rutabaga_iovecs_from_guest_mem(vecs: Vec<MemoryPiece>, valid: &[bool]) -> (result: Result<
    Vec<MemoryPiece>,
    GpuResponse,
>)
    ensures
        result == if valid@.contains(false) {
            Err(GpuResponse::ErrInvalidParameter)
        } else {
            Ok(vecs)
        },
{
    let mut i: usize = 0;
    while i < valid.len()
        invariant
            i <= valid@.len(),
            forall|j: int| 0 <= j < i ==> #[trigger] valid@[j],
        decreases valid@.len() - i,
    {
        if !valid[i] {
            assert(valid@[i as int] == false);
            return Err(GpuResponse::ErrInvalidParameter);
        }
        i += 1;
    }
    Ok(vecs)
}

/// Copying pixels to a resource in two dimensions is copying a box of depth one to the first layer
/// of it, as if the box had been given in three dimensions.
pub proof fn lemma_flat_transfer_is_a_box(req: TransferToHost2d)
    ensures
        Transfer3D::of_rect(req.r, req.offset) == Transfer3D::of_box(
            TransferHost3d {
                box_: Box3D {
                    x: req.r.x,
                    y: req.r.y,
                    z: 0,
                    w: req.r.width,
                    h: req.r.height,
                    d: 1,
                },
                offset: req.offset,
                resource_id: req.resource_id,
                level: 0,
                stride: 0,
                layer_stride: 0,
            },
        ),
{
}

} // verus!
