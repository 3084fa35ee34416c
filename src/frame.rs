//! The frame planner: from a plain description of the scene it decides the
//! ordered list of graphics commands that draw one frame.
//!
//! Every drawable shares one position, one texture-coordinate and one index
//! buffer, so each drawable's uploads are followed at once by its own draw call,
//! before the next drawable's uploads begin.
use crate::attributes::{flat2, flat3, flatten2, flatten3};
use crate::indices::{index_values, narrowed_values, to_u16_indices, Indices};
use vstd::prelude::*;

verus! {

/// What became of a drawable's material and base-color image this frame.
#[derive(Clone, Copy, Debug, PartialEq, Eq, Structural)]
pub enum ImageState {
    /// The material is not in the asset store (yet).
    MaterialUnresolved,
    /// The material has no base-color image.
    Untextured,
    /// The material names an image that is not in the asset store (yet).
    ImageUnresolved,
    /// The image is loaded: RGBA8 pixels of this size.
    Ready { width: u32, height: u32 },
}

/// A mesh's vertex and index data, each attribute possibly absent.
#[derive(Clone, Debug, PartialEq)]
pub struct MeshData<T> {
    pub positions: Option<Vec<[T; 3]>>,
    pub uvs: Option<Vec<[T; 2]>>,
    pub indices: Option<Indices>,
}

/// One entity to draw: its image state and its mesh, if the mesh resolved.
#[derive(Clone, Debug, PartialEq)]
pub struct Drawable<T> {
    pub image: ImageState,
    pub mesh: Option<MeshData<T>>,
}

/// Why a resolved mesh cannot be drawn.
#[derive(Clone, Copy, Debug, PartialEq, Eq, Structural)]
pub enum MeshFault {
    MissingPositions,
    MissingUvs,
    /// The number of texture-coordinate pairs differs from the number of positions.
    UvCountMismatch,
    MissingIndices,
}

/// A drawable that was skipped because its mesh is malformed.
#[derive(Clone, Copy, Debug, PartialEq, Eq, Structural)]
pub struct DrawFault {
    pub drawable: usize,
    pub fault: MeshFault,
}

/// An error that stops a whole frame.
#[derive(Clone, Copy, Debug, PartialEq, Eq, Structural)]
pub enum FrameError {
    /// Exactly one camera is needed; this many were found.
    CameraCount { found: usize },
}

/// One graphics command. `drawable` is a position in the frame's drawable list.
#[derive(Clone, Debug, PartialEq)]
pub enum Command<T> {
    SetViewport { width: u32, height: u32 },
    /// Clear the color and depth buffers.
    Clear,
    EnableCullingAndDepth,
    UseProgram,
    /// Upload the camera's view-projection matrix to `u_camera`.
    UploadCamera,
    /// Create a texture and upload the drawable's image into it, with mipmaps.
    UploadTexture { drawable: usize, width: u32, height: u32 },
    /// Overwrite the shared position buffer (`a_position`, three per vertex).
    UploadPositions { drawable: usize, data: Vec<T> },
    /// Overwrite the shared texture-coordinate buffer (`a_texcoord`, two per vertex).
    UploadUvs { drawable: usize, data: Vec<T> },
    /// Overwrite the shared 16-bit index buffer.
    UploadIndices { drawable: usize, data: Vec<u16> },
    /// Upload the drawable's world transform to `u_model`.
    SetModel { drawable: usize },
    /// Draw `count` indices as triangles.
    DrawTriangles { drawable: usize, count: usize },
}

/// A command with its data as sequences.
pub enum CommandView<T> {
    SetViewport { width: u32, height: u32 },
    Clear,
    EnableCullingAndDepth,
    UseProgram,
    UploadCamera,
    UploadTexture { drawable: int, width: u32, height: u32 },
    UploadPositions { drawable: int, data: Seq<T> },
    UploadUvs { drawable: int, data: Seq<T> },
    UploadIndices { drawable: int, data: Seq<u16> },
    SetModel { drawable: int },
    DrawTriangles { drawable: int, count: int },
}

impl<T> View for Command<T> {
    type V = CommandView<T>;

    open spec fn view(&self) -> CommandView<T> {
        match self {
            Command::SetViewport { width, height } => CommandView::SetViewport {
                width: *width,
                height: *height,
            },
            Command::Clear => CommandView::Clear,
            Command::EnableCullingAndDepth => CommandView::EnableCullingAndDepth,
            Command::UseProgram => CommandView::UseProgram,
            Command::UploadCamera => CommandView::UploadCamera,
            Command::UploadTexture { drawable, width, height } => CommandView::UploadTexture {
                drawable: *drawable as int,
                width: *width,
                height: *height,
            },
            Command::UploadPositions { drawable, data } => CommandView::UploadPositions {
                drawable: *drawable as int,
                data: data@,
            },
            Command::UploadUvs { drawable, data } => CommandView::UploadUvs {
                drawable: *drawable as int,
                data: data@,
            },
            Command::UploadIndices { drawable, data } => CommandView::UploadIndices {
                drawable: *drawable as int,
                data: data@,
            },
            Command::SetModel { drawable } => CommandView::SetModel { drawable: *drawable as int },
            Command::DrawTriangles { drawable, count } => CommandView::DrawTriangles {
                drawable: *drawable as int,
                count: *count as int,
            },
        }
    }
}

/// The commands of one frame, and the drawables skipped for a malformed mesh.
#[derive(Clone, Debug, PartialEq)]
pub struct FramePlan<T> {
    pub commands: Vec<Command<T>>,
    pub faults: Vec<DrawFault>,
}

/// The views of a list of commands.
pub open spec fn views<T>(cs: Seq<Command<T>>) -> Seq<CommandView<T>> {
    cs.map_values(|c: Command<T>| c@)
}

/// The first malformation of a mesh, checked in the order positions, texture
/// coordinates (present and one per position), indices.
pub open spec fn mesh_fault<T>(m: MeshData<T>) -> Option<MeshFault> {
    if m.positions is None {
        Some(MeshFault::MissingPositions)
    } else if m.uvs is None {
        Some(MeshFault::MissingUvs)
    } else if m.uvs.unwrap()@.len() != m.positions.unwrap()@.len() {
        Some(MeshFault::UvCountMismatch)
    } else if m.indices is None {
        Some(MeshFault::MissingIndices)
    } else {
        None
    }
}

/// The uploads and the draw call of a well-formed mesh.
pub open spec fn mesh_steps<T>(i: int, m: MeshData<T>) -> Seq<CommandView<T>> {
    seq![
        CommandView::UploadPositions { drawable: i, data: flat3(m.positions.unwrap()@) },
        CommandView::UploadUvs { drawable: i, data: flat2(m.uvs.unwrap()@) },
        CommandView::UploadIndices { drawable: i, data: narrowed_values(&m.indices.unwrap()) },
        CommandView::SetModel { drawable: i },
        CommandView::DrawTriangles { drawable: i, count: index_values(&m.indices.unwrap()).len() as int },
    ]
}

/// Whether drawable `d` is drawn: its image is ready and its mesh resolved
/// and well formed.
pub open spec fn is_drawn<T>(d: Drawable<T>) -> bool {
    d.image is Ready && d.mesh is Some && mesh_fault(d.mesh.unwrap()) is None
}

/// The commands for drawable `d` at position `i`. An unresolved material or
/// image, or an untextured material, skips it before any upload; an
/// unresolved or malformed mesh skips it after its texture upload.
pub open spec fn drawable_steps<T>(i: int, d: Drawable<T>) -> Seq<CommandView<T>> {
    match d.image {
        ImageState::Ready { width, height } => {
            seq![CommandView::UploadTexture { drawable: i, width, height }] + if is_drawn(d) {
                mesh_steps(i, d.mesh.unwrap())
            } else {
                Seq::empty()
            }
        },
        _ => Seq::empty(),
    }
}

/// The fault recorded for drawable `d` at position `i`, if any.
pub open spec fn drawable_faults<T>(i: int, d: Drawable<T>) -> Seq<DrawFault> {
    if d.image is Ready && d.mesh is Some && mesh_fault(d.mesh.unwrap()) is Some {
        seq![DrawFault { drawable: i as usize, fault: mesh_fault(d.mesh.unwrap()).unwrap() }]
    } else {
        Seq::empty()
    }
}

/// What every frame begins with: viewport, clear, state, program, camera.
pub open spec fn frame_header<T>(width: u32, height: u32) -> Seq<CommandView<T>> {
    seq![
        CommandView::SetViewport { width, height },
        CommandView::Clear,
        CommandView::EnableCullingAndDepth,
        CommandView::UseProgram,
        CommandView::UploadCamera,
    ]
}

/// The commands of a frame over the drawables `ds`, in their order.
pub open spec fn frame_steps<T>(width: u32, height: u32, ds: Seq<Drawable<T>>) -> Seq<CommandView<T>>
    decreases ds.len(),
{
    if ds.len() == 0 {
        frame_header(width, height)
    } else {
        frame_steps(width, height, ds.drop_last()) + drawable_steps(ds.len() - 1, ds.last())
    }
}

/// The faults of a frame over the drawables `ds`, in their order.
pub open spec fn frame_faults<T>(ds: Seq<Drawable<T>>) -> Seq<DrawFault>
    decreases ds.len(),
{
    if ds.len() == 0 {
        Seq::empty()
    } else {
        frame_faults(ds.drop_last()) + drawable_faults(ds.len() - 1, ds.last())
    }
}

/// The packed data of every drawable fits in memory.
pub open spec fn sizes_fit<T>(ds: Seq<Drawable<T>>) -> bool {
    forall|k: int|
        0 <= k < ds.len() && (#[trigger] ds[k]).mesh is Some ==> {
            &&& ds[k].mesh.unwrap().positions is Some ==> 3 * ds[k].mesh.unwrap().positions.unwrap()@.len() <= usize::MAX
            &&& ds[k].mesh.unwrap().uvs is Some ==> 2 * ds[k].mesh.unwrap().uvs.unwrap()@.len() <= usize::MAX
        }
}

/// The first malformation of `m`, if any.
pub fn check_mesh<T>(m: &MeshData<T>) -> (r: Option<MeshFault>)
    ensures
        r == mesh_fault(*m),
{
    match (&m.positions, &m.uvs, &m.indices) {
        (None, _, _) => Some(MeshFault::MissingPositions),
        (Some(_), None, _) => Some(MeshFault::MissingUvs),
        (Some(ps), Some(uvs), ix) => {
            if uvs.len() != ps.len() {
                Some(MeshFault::UvCountMismatch)
            } else if ix.is_none() {
                Some(MeshFault::MissingIndices)
            } else {
                None
            }
        },
    }
}

/// Appends the commands of drawable `d`, at position `i`, to `commands`, and
/// its fault, if any, to `faults`.
fn plan_drawable<T: Copy>(
    i: usize,
    d: &Drawable<T>,
    commands: &mut Vec<Command<T>>,
    faults: &mut Vec<DrawFault>,
)
    requires
        d.mesh is Some ==> {
            &&& d.mesh.unwrap().positions is Some ==> 3 * d.mesh.unwrap().positions.unwrap()@.len() <= usize::MAX
            &&& d.mesh.unwrap().uvs is Some ==> 2 * d.mesh.unwrap().uvs.unwrap()@.len() <= usize::MAX
        },
    ensures
        views(final(commands)@) == views(old(commands)@) + drawable_steps(i as int, *d),
        final(faults)@ == old(faults)@ + drawable_faults(i as int, *d),
{
    let ghost c0 = views(commands@);
    let ghost f0 = faults@;
    let (width, height) = match d.image {
        ImageState::Ready { width, height } => (width, height),
        _ => {
            assert(views(commands@) =~= c0 + drawable_steps(i as int, *d));
            assert(faults@ =~= f0 + drawable_faults(i as int, *d));
            return;
        },
    };
    commands.push(Command::UploadTexture { drawable: i, width, height });
    let m = match &d.mesh {
        Some(m) => m,
        None => {
            assert(views(commands@) =~= c0 + drawable_steps(i as int, *d));
            assert(faults@ =~= f0 + drawable_faults(i as int, *d));
            return;
        },
    };
    match check_mesh(m) {
        Some(fault) => {
            faults.push(DrawFault { drawable: i, fault });
            assert(views(commands@) =~= c0 + drawable_steps(i as int, *d));
            assert(faults@ =~= f0 + drawable_faults(i as int, *d));
        },
        None => if let (Some(ps), Some(uvs), Some(ix)) = (&m.positions, &m.uvs, &m.indices) {
            let positions = flatten3(ps);
            commands.push(Command::UploadPositions { drawable: i, data: positions });
            let coords = flatten2(uvs);
            commands.push(Command::UploadUvs { drawable: i, data: coords });
            let narrowed = to_u16_indices(ix);
            let count = narrowed.len();
            commands.push(Command::UploadIndices { drawable: i, data: narrowed });
            commands.push(Command::SetModel { drawable: i });
            commands.push(Command::DrawTriangles { drawable: i, count });
            assert(views(commands@) =~= c0 + drawable_steps(i as int, *d));
            assert(faults@ =~= f0 + drawable_faults(i as int, *d));
        },
    }
}

/// Plans one frame of a scene with `camera_count` cameras, a `width` by
/// `height` viewport and the drawables `drawables`, in the order given.
///
/// A frame needs exactly one camera: with any other number nothing is drawn
/// and the error says how many there were. Otherwise the plan sets the
/// viewport, clears, enables culling and depth testing, activates the program
/// and uploads the camera once, then gives each drawable its texture upload,
/// its three buffer uploads, its model matrix and its draw call, one drawable
/// after the other. A drawable whose material or image is not ready is skipped
/// silently; one whose mesh is not loaded is skipped after its texture; one
/// whose mesh is malformed is skipped after its texture and reported in
/// `faults`.
pub fn plan_frame<T: Copy>(
    camera_count: usize,
    width: u32,
    height: u32,
    drawables: &Vec<Drawable<T>>,
) -> (r: Result<FramePlan<T>, FrameError>)
    requires
        sizes_fit(drawables@),
    ensures
        r is Err <==> camera_count != 1,
        r is Err ==> r == Err::<FramePlan<T>, FrameError>(FrameError::CameraCount { found: camera_count }),
        r is Ok ==> views(r.unwrap().commands@) == frame_steps(width, height, drawables@),
        r is Ok ==> r.unwrap().faults@ == frame_faults(drawables@),
{
    if camera_count != 1 {
        return Err(FrameError::CameraCount { found: camera_count });
    }
    let mut commands: Vec<Command<T>> = Vec::new();
    let mut faults: Vec<DrawFault> = Vec::new();
    commands.push(Command::SetViewport { width, height });
    commands.push(Command::Clear);
    commands.push(Command::EnableCullingAndDepth);
    commands.push(Command::UseProgram);
    commands.push(Command::UploadCamera);
    assert(views(commands@) =~= frame_steps(width, height, drawables@.take(0)));
    assert(faults@ =~= frame_faults(drawables@.take(0)));
    let mut i: usize = 0;
    while i < drawables.len()
        invariant
            i <= drawables@.len(),
            sizes_fit(drawables@),
            views(commands@) == frame_steps(width, height, drawables@.take(i as int)),
            faults@ == frame_faults(drawables@.take(i as int)),
        decreases drawables@.len() - i,
    {
        let d = &drawables[i];
        assert(drawables@[i as int] == *d);
        plan_drawable(i, d, &mut commands, &mut faults);
        assert(drawables@.take(i as int + 1).drop_last() =~= drawables@.take(i as int));
        assert(drawables@.take(i as int + 1).last() == *d);
        i += 1;
    }
    assert(drawables@.take(i as int) =~= drawables@);
    Ok(FramePlan { commands, faults })
}

/// A drawn mesh with N positions, N texture-coordinate pairs and M indices
/// gets, after its texture, exactly N*3 components in the position buffer,
/// N*2 in the texture-coordinate buffer and M narrowed indices in the index
/// buffer, in that order, then its model matrix and a draw call of M indices.
pub proof fn drawn_mesh_uploads<T>(i: int, d: Drawable<T>)
    requires
        is_drawn(d),
    ensures
        ({
            let m = d.mesh.unwrap();
            let n = m.positions.unwrap()@.len();
            let ix = m.indices.unwrap();
            let steps = drawable_steps(i, d);
            &&& steps.len() == 6
            &&& steps[0] is UploadTexture
            &&& steps[1] is UploadPositions && steps[1]->UploadPositions_data.len() == 3 * n
            &&& steps[2] is UploadUvs && steps[2]->UploadUvs_data.len() == 2 * n
            &&& steps[3] is UploadIndices && steps[3]->UploadIndices_data == narrowed_values(&ix)
            &&& steps[3]->UploadIndices_data.len() == index_values(&ix).len()
            &&& steps[4] == CommandView::<T>::SetModel { drawable: i }
            &&& steps[5] == CommandView::<T>::DrawTriangles { drawable: i, count: index_values(&ix).len() as int }
        }),
{
}

/// Draw call order in a frame: every draw call comes right after its own
/// drawable's three buffer uploads and model matrix, so no other drawable's
/// data can sit in the shared buffers when it runs; and the data uploaded is
/// that drawable's own mesh.
pub proof fn draws_follow_own_uploads<T>(width: u32, height: u32, ds: Seq<Drawable<T>>, p: int)
    requires
        0 <= p < frame_steps(width, height, ds).len(),
        frame_steps(width, height, ds)[p] is DrawTriangles,
    ensures
        ({
            let steps = frame_steps(width, height, ds);
            let i = steps[p]->DrawTriangles_drawable;
            let m = ds[i].mesh.unwrap();
            &&& 0 <= i < ds.len() && is_drawn(ds[i])
            &&& p >= 5
            &&& steps[p - 4] == CommandView::UploadPositions { drawable: i, data: flat3(m.positions.unwrap()@) }
            &&& steps[p - 3] == CommandView::UploadUvs { drawable: i, data: flat2(m.uvs.unwrap()@) }
            &&& steps[p - 2] == CommandView::<T>::UploadIndices { drawable: i, data: narrowed_values(&m.indices.unwrap()) }
            &&& steps[p - 1] == CommandView::<T>::SetModel { drawable: i }
            &&& steps[p]->DrawTriangles_count == index_values(&m.indices.unwrap()).len()
        }),
    decreases ds.len(),
{
    if ds.len() > 0 {
        let pre = ds.drop_last();
        let head = frame_steps(width, height, pre);
        if p < head.len() {
            draws_follow_own_uploads(width, height, pre, p);
            assert(frame_steps(width, height, ds)[p] == head[p]);
        } else {
            let d = ds.last();
            assert(is_drawn(d));
            drawn_mesh_uploads(ds.len() - 1, d);
            assert(p - head.len() == 5) by {
                assert(head.len() >= 5) by { frame_header_first(width, height, pre); }
            }
        }
    }
}

/// Every frame starts with its header, which uploads the camera once; no
/// later command uploads the camera again, so the camera precedes every
/// drawable's uploads.
pub proof fn frame_header_first<T>(width: u32, height: u32, ds: Seq<Drawable<T>>)
    ensures
        frame_steps(width, height, ds).len() >= 5,
        frame_steps(width, height, ds).take(5) == frame_header::<T>(width, height),
        forall|p: int|
            5 <= p < frame_steps(width, height, ds).len() ==> !(#[trigger] frame_steps(width, height, ds)[p] is UploadCamera),
    decreases ds.len(),
{
    if ds.len() == 0 {
        assert(frame_steps(width, height, ds).take(5) =~= frame_header::<T>(width, height));
    } else {
        let pre = ds.drop_last();
        frame_header_first(width, height, pre);
        let head = frame_steps(width, height, pre);
        let all = frame_steps(width, height, ds);
        assert(all.take(5) =~= head.take(5));
        assert forall|p: int| 5 <= p < all.len() implies !(#[trigger] all[p] is UploadCamera) by {
            if p < head.len() {
                assert(all[p] == head[p]);
            }
        }
    }
}

} // verus!
