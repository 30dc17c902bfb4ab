use vstd::prelude::*;

use crate::texture::TextureRegistry;

verus! {

/// Clip rectangle of a sub-command, in thousandths of a GUI unit.
#[derive(Clone, Copy, Debug, PartialEq, Eq, Structural)]
pub struct ClipRect {
    pub left: i32,
    pub top: i32,
    pub right: i32,
    pub bottom: i32,
}

/// Where the GUI's display area sits and how large it is, in thousandths of
/// a GUI unit, and how many framebuffer pixels make one GUI unit along each
/// axis, in thousandths (`1250` for a scale of 1.25).
#[derive(Clone, Copy, Debug, PartialEq, Eq, Structural)]
pub struct Viewport {
    pub x: i32,
    pub y: i32,
    pub width: i32,
    pub height: i32,
    pub scale_x: u16,
    pub scale_y: u16,
}

/// Thousandths in one whole: the fixed-point unit of coordinates and scales.
pub const FIXED_ONE: u64 = 1000;

/// Millionths of a pixel in one pixel: a coordinate times a scale.
pub const PIXEL: u64 = 1_000_000;

/// A vertex color: 8-bit RGBA packed in one integer.
#[derive(Clone, Copy, Debug, PartialEq, Eq, Structural)]
pub struct ImguiColor(pub u32);

impl From<u32> for ImguiColor {
    fn from(packed: u32) -> Self {
        ImguiColor(packed)
    }
}

impl vstd::std_specs::convert::FromSpecImpl<u32> for ImguiColor {
    open spec fn obeys_from_spec() -> bool {
        true
    }

    open spec fn from_spec(packed: u32) -> Self {
        ImguiColor(packed)
    }
}

/// One entry of a draw-list's command sequence.
#[derive(Clone, Copy, Debug, PartialEq, Eq, Structural)]
pub enum DrawCommand {
    /// Draw `count` indices from `index_offset` on, against the vertices
    /// from `vertex_offset` on, clipped to `clip`, sampling `texture`.
    Elements { count: u32, clip: ClipRect, texture: usize, vertex_offset: u32, index_offset: u32 },
    /// Marker between batches; carries no geometry.
    ResetRenderState,
    /// A callback of the GUI's user, which does its own GPU work.
    RawCallback,
}

/// Geometry and commands that the GUI emitted for one window or layer.
pub struct DrawList<V> {
    pub vertices: Vec<V>,
    pub indices: Vec<u16>,
    pub commands: Vec<DrawCommand>,
}

/// Everything the GUI emitted for one frame, lists in painting order.
pub struct DrawData<V> {
    pub viewport: Viewport,
    pub lists: Vec<DrawList<V>>,
}

/// A scissor rectangle in framebuffer pixels.
#[derive(Clone, Copy, Debug, PartialEq, Eq, Structural)]
pub struct Scissor {
    pub x: i64,
    pub y: i64,
    pub w: i64,
    pub h: i64,
}

/// One GPU draw call over the shared buffers.
#[derive(Clone, Copy, Debug, PartialEq, Eq, Structural)]
pub struct DrawOp {
    pub vertex_offset: u64,
    pub index_start: u64,
    pub index_count: u32,
    pub scissor: Scissor,
    pub texture: usize,
    pub binding: u32,
}

/// Position of a raw callback: its draw-list and its index there.
#[derive(Clone, Copy, Debug, PartialEq, Eq, Structural)]
pub struct CallbackSite {
    pub list: usize,
    pub command: usize,
}

/// A frame's draw data made ready for the GPU.
pub struct BatchedDrawList<V> {
    pub vertices: Vec<V>,
    pub indices: Vec<u16>,
    pub ops: Vec<DrawOp>,
    pub callbacks: Vec<CallbackSite>,
}

/// A command together with where it stands: its list, its index in that
/// list, and where the list's vertices and indices begin in the shared
/// buffers.
pub struct Placed {
    pub command: DrawCommand,
    pub list: int,
    pub index: int,
    pub vertex_base: int,
    pub index_base: int,
}

/// The pixel that holds the point `m`, given in millionths of a pixel.
pub open spec fn floor_px(m: int) -> int {
    m / (PIXEL as int)
}

/// The first pixel boundary at or past the point `m`.
pub open spec fn ceil_px(m: int) -> int {
    -floor_px(-m)
}

/// Distance of `a` from the display's left edge, in millionths of a pixel.
pub open spec fn scaled_x(v: Viewport, a: i32) -> int {
    (a - v.x) * v.scale_x
}

/// Distance of `a` from the display's top edge, in millionths of a pixel.
pub open spec fn scaled_y(v: Viewport, a: i32) -> int {
    (a - v.y) * v.scale_y
}

/// Framebuffer width in whole pixels.
pub open spec fn framebuffer_width(v: Viewport) -> int {
    floor_px(v.width * v.scale_x)
}

/// Framebuffer height in whole pixels.
pub open spec fn framebuffer_height(v: Viewport) -> int {
    floor_px(v.height * v.scale_y)
}

/// A left edge in pixels: the pixel column that holds it.
pub open spec fn near_x(v: Viewport, a: i32) -> int {
    floor_px(scaled_x(v, a))
}

/// A top edge in pixels: the pixel row that holds it.
pub open spec fn near_y(v: Viewport, a: i32) -> int {
    floor_px(scaled_y(v, a))
}

/// A right edge in pixels, rounded outward.
pub open spec fn far_x(v: Viewport, a: i32) -> int {
    ceil_px(scaled_x(v, a))
}

/// A bottom edge in pixels, rounded outward.
pub open spec fn far_y(v: Viewport, a: i32) -> int {
    ceil_px(scaled_y(v, a))
}

/// The clip rectangle lies wholly outside the framebuffer.
pub open spec fn culled(c: ClipRect, v: Viewport) -> bool {
    ||| far_x(v, c.right) <= 0
    ||| far_y(v, c.bottom) <= 0
    ||| near_x(v, c.left) >= framebuffer_width(v)
    ||| near_y(v, c.top) >= framebuffer_height(v)
}

pub open spec fn clamp_zero(a: int) -> int {
    if a < 0 {
        0
    } else {
        a
    }
}

/// The clip rectangle in pixels, its near edges clamped to zero.
pub open spec fn scissor_of(c: ClipRect, v: Viewport) -> Scissor {
    let x = clamp_zero(near_x(v, c.left));
    let y = clamp_zero(near_y(v, c.top));
    Scissor { x: x as i64, y: y as i64, w: (far_x(v, c.right) - x) as i64, h: (far_y(v, c.bottom) - y) as i64 }
}

/// The texture a command needs resolved: that of a sub-command that is
/// not culled.
pub open spec fn texture_needed(cmd: DrawCommand, v: Viewport) -> Option<usize> {
    match cmd {
        DrawCommand::Elements { clip, texture, .. } => if culled(clip, v) {
            None
        } else {
            Some(texture)
        },
        _ => None,
    }
}

/// The draw call for a placed command, if it has one this frame.
pub open spec fn op_of(p: Placed, v: Viewport, reg: TextureRegistry) -> Option<DrawOp> {
    match p.command {
        DrawCommand::Elements { count, clip, texture, vertex_offset, index_offset } => {
            if !culled(clip, v) && reg.binding_of(texture) is Some {
                Some(
                    DrawOp {
                        vertex_offset: (p.vertex_base + vertex_offset) as u64,
                        index_start: (p.index_base + index_offset) as u64,
                        index_count: count,
                        scissor: scissor_of(clip, v),
                        texture,
                        binding: reg.binding_of(texture)->Some_0,
                    },
                )
            } else {
                None
            }
        },
        _ => None,
    }
}

pub open spec fn op_fn(v: Viewport, reg: TextureRegistry) -> spec_fn(Placed) -> Option<DrawOp> {
    |p: Placed| op_of(p, v, reg)
}

pub open spec fn callback_of(p: Placed) -> Option<CallbackSite> {
    match p.command {
        DrawCommand::RawCallback => Some(CallbackSite { list: p.list as usize, command: p.index as usize }),
        _ => None,
    }
}

pub open spec fn callback_fn() -> spec_fn(Placed) -> Option<CallbackSite> {
    |p: Placed| callback_of(p)
}

/// Number of vertices in the first `n` lists.
pub open spec fn vertex_total<V>(lists: Seq<DrawList<V>>, n: int) -> int
    decreases n,
{
    if n <= 0 {
        0
    } else {
        vertex_total(lists, n - 1) + lists[n - 1].vertices@.len()
    }
}

/// Number of indices in the first `n` lists.
pub open spec fn index_total<V>(lists: Seq<DrawList<V>>, n: int) -> int
    decreases n,
{
    if n <= 0 {
        0
    } else {
        index_total(lists, n - 1) + lists[n - 1].indices@.len()
    }
}

/// The vertices of the first `n` lists, one after another.
pub open spec fn joined_vertices<V>(lists: Seq<DrawList<V>>, n: int) -> Seq<V>
    decreases n,
{
    if n <= 0 {
        Seq::empty()
    } else {
        joined_vertices(lists, n - 1) + lists[n - 1].vertices@
    }
}

/// The indices of the first `n` lists, one after another.
pub open spec fn joined_indices<V>(lists: Seq<DrawList<V>>, n: int) -> Seq<u16>
    decreases n,
{
    if n <= 0 {
        Seq::empty()
    } else {
        joined_indices(lists, n - 1) + lists[n - 1].indices@
    }
}

pub open spec fn placed_list<V>(l: DrawList<V>, li: int, vb: int, ib: int) -> Seq<Placed> {
    Seq::new(
        l.commands@.len(),
        |j: int| Placed { command: l.commands@[j], list: li, index: j, vertex_base: vb, index_base: ib },
    )
}

/// The commands of the first `n` lists in emission order, each placed.
pub open spec fn placed<V>(lists: Seq<DrawList<V>>, n: int) -> Seq<Placed>
    decreases n,
{
    if n <= 0 {
        Seq::empty()
    } else {
        placed(lists, n - 1) + placed_list(
            lists[n - 1],
            n - 1,
            vertex_total(lists, n - 1),
            index_total(lists, n - 1),
        )
    }
}

pub open spec fn all_placed<V>(data: DrawData<V>) -> Seq<Placed> {
    placed(data.lists@, data.lists@.len() as int)
}

/// The draw calls of a frame, in emission order.
pub open spec fn batched_ops<V>(data: DrawData<V>, reg: TextureRegistry) -> Seq<DrawOp> {
    all_placed(data).filter_map(op_fn(data.viewport, reg))
}

/// The raw callbacks of a frame, in emission order.
pub open spec fn batched_callbacks<V>(data: DrawData<V>) -> Seq<CallbackSite> {
    all_placed(data).filter_map(callback_fn())
}

/// Every texture that a visible sub-command names is known to `reg`.
pub open spec fn textures_known<V>(data: DrawData<V>, reg: TextureRegistry) -> bool {
    forall|i: int, j: int|
        0 <= i < data.lists@.len() && 0 <= j < data.lists@[i].commands@.len()
            ==> match #[trigger] texture_needed(data.lists@[i].commands@[j], data.viewport) {
            Some(t) => reg.knows(t),
            None => true,
        }
}

/// The shared buffers stay addressable by 32-bit offsets.
pub open spec fn fits_u32_ranges<V>(data: DrawData<V>) -> bool {
    &&& vertex_total(data.lists@, data.lists@.len() as int) <= u32::MAX
    &&& index_total(data.lists@, data.lists@.len() as int) <= u32::MAX
}

proof fn lemma_totals_monotone<V>(lists: Seq<DrawList<V>>, a: int, b: int)
    requires
        0 <= a <= b,
    ensures
        vertex_total(lists, a) <= vertex_total(lists, b),
        index_total(lists, a) <= index_total(lists, b),
    decreases b - a,
{
    if a < b {
        lemma_totals_monotone(lists, a, b - 1);
    }
}

proof fn lemma_joined_len<V>(lists: Seq<DrawList<V>>, n: int)
    requires
        0 <= n,
    ensures
        joined_vertices(lists, n).len() == vertex_total(lists, n),
        joined_indices(lists, n).len() == index_total(lists, n),
    decreases n,
{
    if n > 0 {
        lemma_joined_len(lists, n - 1);
    }
}

const SCALED_BOUND: i64 = 0x1_0000_0000 * 0x1_0000;

proof fn lemma_scaled_bounded(a: i32, off: i32, s: u16)
    ensures
        -SCALED_BOUND <= (a - off) * s <= SCALED_BOUND,
{
    let d = a - off;
    assert(-0x1_0000_0000 * 0x1_0000 <= d * s <= 0x1_0000_0000 * 0x1_0000) by (nonlinear_arith)
        requires
            -0x1_0000_0000 <= d <= 0x1_0000_0000,
            0 <= s <= 0xffff,
    ;
}

/// `(a - off) * s`: the distance from `off`, in millionths of a pixel.
fn scaled(a: i32, off: i32, s: u16) -> (r: i64)
    ensures
        r == (a - off) * s,
        -SCALED_BOUND <= r <= SCALED_BOUND,
{
    proof {
        lemma_scaled_bounded(a, off, s);
    }
    (a as i64 - off as i64) * (s as i64)
}

/// The pixel that holds the point `m`, given in millionths of a pixel.
fn floor_pixels(m: i64) -> (r: i64)
    requires
        -SCALED_BOUND <= m <= SCALED_BOUND,
    ensures
        r == floor_px(m as int),
        -SCALED_BOUND <= r <= SCALED_BOUND,
{
    if m >= 0 {
        (m as u64 / PIXEL) as i64
    } else {
        let p = (-m) as u64;
        let q = (p + (PIXEL - 1)) / PIXEL;
        proof {
            let mi = m as int;
            let qi = q as int;
            assert(qi * 1_000_000 <= p + 999_999 < qi * 1_000_000 + 1_000_000);
            assert(-qi * 1_000_000 <= mi < -qi * 1_000_000 + 1_000_000);
            vstd::arithmetic::div_mod::lemma_fundamental_div_mod_converse(mi, 1_000_000, -qi, mi + qi * 1_000_000);
        }
        -(q as i64)
    }
}

/// The first pixel boundary at or past the point `m`.
fn ceil_pixels(m: i64) -> (r: i64)
    requires
        -SCALED_BOUND <= m <= SCALED_BOUND,
    ensures
        r == ceil_px(m as int),
        -SCALED_BOUND <= r <= SCALED_BOUND,
{
    -floor_pixels(-m)
}

/// Whether the clip rectangle lies wholly outside the framebuffer.
pub fn is_culled(c: ClipRect, v: Viewport) -> (r: bool)
    ensures
        r == culled(c, v),
{
    let fb_w = floor_pixels(scaled(v.width, 0, v.scale_x));
    let fb_h = floor_pixels(scaled(v.height, 0, v.scale_y));
    let left = floor_pixels(scaled(c.left, v.x, v.scale_x));
    let top = floor_pixels(scaled(c.top, v.y, v.scale_y));
    let right = ceil_pixels(scaled(c.right, v.x, v.scale_x));
    let bottom = ceil_pixels(scaled(c.bottom, v.y, v.scale_y));
    right <= 0 || bottom <= 0 || left >= fb_w || top >= fb_h
}

/// The scissor rectangle for a clip rectangle: the rectangle in pixels,
/// near edges rounded down and far edges up, a negative near edge moved to
/// zero and the far edges kept.
pub fn scissor(c: ClipRect, v: Viewport) -> (r: Scissor)
    ensures
        r == scissor_of(c, v),
{
    let left = floor_pixels(scaled(c.left, v.x, v.scale_x));
    let top = floor_pixels(scaled(c.top, v.y, v.scale_y));
    let right = ceil_pixels(scaled(c.right, v.x, v.scale_x));
    let bottom = ceil_pixels(scaled(c.bottom, v.y, v.scale_y));
    let x: i64 = if left < 0 {
        0
    } else {
        left
    };
    let y: i64 = if top < 0 {
        0
    } else {
        top
    };
    Scissor { x, y, w: right - x, h: bottom - y }
}

/// Translates a frame's draw data into shared vertex and index buffers, the
/// draw calls over them and the raw callbacks to run, all in emission order.
///
/// A sub-command is dropped when its clip rectangle lies wholly outside the
/// framebuffer, or when its texture is still pending in `reg`.
pub fn translate<V: Copy>(data: &DrawData<V>, reg: &TextureRegistry) -> (r: BatchedDrawList<V>)
    requires
        textures_known(*data, *reg),
        fits_u32_ranges(*data),
    ensures
        r.vertices@ == joined_vertices(data.lists@, data.lists@.len() as int),
        r.indices@ == joined_indices(data.lists@, data.lists@.len() as int),
        r.ops@ == batched_ops(*data, *reg),
        r.callbacks@ == batched_callbacks(*data),
{
    let v = data.viewport;
    let ghost lists = data.lists@;
    let ghost n = lists.len() as int;
    let ghost of = op_fn(v, *reg);
    let ghost cf = callback_fn();
    let mut vertices: Vec<V> = Vec::new();
    let mut indices: Vec<u16> = Vec::new();
    let mut ops: Vec<DrawOp> = Vec::new();
    let mut callbacks: Vec<CallbackSite> = Vec::new();
    let mut i: usize = 0;
    while i < data.lists.len()
        invariant
            lists == data.lists@,
            n == lists.len(),
            v == data.viewport,
            of == op_fn(v, *reg),
            cf == callback_fn(),
            textures_known(*data, *reg),
            fits_u32_ranges(*data),
            0 <= i <= n,
            vertices@ == joined_vertices(lists, i as int),
            indices@ == joined_indices(lists, i as int),
            ops@ == placed(lists, i as int).filter_map(of),
            callbacks@ == placed(lists, i as int).filter_map(cf),
        decreases n - i,
    {
        let list = &data.lists[i];
        proof {
            lemma_joined_len(lists, i as int);
            lemma_totals_monotone(lists, i as int, n);
            lemma_totals_monotone(lists, i as int + 1, n);
        }
        let vb = vertices.len();
        let ib = indices.len();
        let ghost before = placed(lists, i as int);
        let ghost here = placed_list(lists[i as int], i as int, vb as int, ib as int);
        let mut j: usize = 0;
        assert(here.take(0) =~= Seq::<Placed>::empty());
        assert(before + here.take(0) =~= before);
        while j < list.commands.len()
            invariant
                lists == data.lists@,
                v == data.viewport,
                of == op_fn(v, *reg),
                cf == callback_fn(),
                n == lists.len(),
                *list == lists[i as int],
                0 <= i < n,
                textures_known(*data, *reg),
                vb as int == vertex_total(lists, i as int),
                ib as int == index_total(lists, i as int),
                vb <= u32::MAX,
                ib <= u32::MAX,
                here == placed_list(lists[i as int], i as int, vb as int, ib as int),
                0 <= j <= list.commands@.len(),
                ops@ == (before + here.take(j as int)).filter_map(of),
                callbacks@ == (before + here.take(j as int)).filter_map(cf),
            decreases list.commands@.len() - j,
        {
            let cmd = list.commands[j];
            let ghost p = here[j as int];
            let ghost prev = before + here.take(j as int);
            assert((before + here.take(j as int + 1)).drop_last() =~= prev);
            assert((before + here.take(j as int + 1)).last() == p);
            match cmd {
                DrawCommand::Elements { count, clip, texture, vertex_offset, index_offset } => {
                    if !is_culled(clip, v) {
                        assert(data.lists@[i as int].commands@[j as int] == cmd);
                        assert(texture_needed(data.lists@[i as int].commands@[j as int], data.viewport) == Some(texture));
                        assert(reg.knows(texture));
                        let found = reg.resolve(texture);
                        if let Some(binding) = found {
                            ops.push(
                                DrawOp {
                                    vertex_offset: vb as u64 + vertex_offset as u64,
                                    index_start: ib as u64 + index_offset as u64,
                                    index_count: count,
                                    scissor: scissor(clip, v),
                                    texture,
                                    binding,
                                },
                            );
                        }
                    }
                },
                DrawCommand::RawCallback => {
                    callbacks.push(CallbackSite { list: i, command: j });
                },
                DrawCommand::ResetRenderState => {},
            }
            j = j + 1;
        }
        assert(here.take(j as int) =~= here);
        let mut k: usize = 0;
        while k < list.vertices.len()
            invariant
                *list == lists[i as int],
                0 <= k <= list.vertices@.len(),
                vertices@ == joined_vertices(lists, i as int) + list.vertices@.take(k as int),
            decreases list.vertices@.len() - k,
        {
            vertices.push(list.vertices[k]);
            assert(list.vertices@.take(k as int + 1) =~= list.vertices@.take(k as int).push(list.vertices@[k as int]));
            k = k + 1;
        }
        assert(list.vertices@.take(k as int) =~= list.vertices@);
        let mut k: usize = 0;
        while k < list.indices.len()
            invariant
                *list == lists[i as int],
                0 <= k <= list.indices@.len(),
                indices@ == joined_indices(lists, i as int) + list.indices@.take(k as int),
            decreases list.indices@.len() - k,
        {
            indices.push(list.indices[k]);
            assert(list.indices@.take(k as int + 1) =~= list.indices@.take(k as int).push(list.indices@[k as int]));
            k = k + 1;
        }
        assert(list.indices@.take(k as int) =~= list.indices@);
        i = i + 1;
    }
    BatchedDrawList { vertices, indices, ops, callbacks }
}


/// The visible sub-command `j` of list `i` names texture `t`, and every
/// visible sub-command before it in emission order names a known texture.
pub open spec fn first_unknown_at<V>(data: DrawData<V>, reg: TextureRegistry, i: int, j: int, t: usize) -> bool {
    &&& 0 <= i < data.lists@.len()
    &&& 0 <= j < data.lists@[i].commands@.len()
    &&& texture_needed(data.lists@[i].commands@[j], data.viewport) == Some(t)
    &&& forall|a: int, b: int|
        0 <= a < data.lists@.len() && 0 <= b < data.lists@[a].commands@.len() && (a < i || (a == i && b < j))
            ==> match #[trigger] texture_needed(data.lists@[a].commands@[b], data.viewport) {
            Some(u) => reg.knows(u),
            None => true,
        }
}

/// A texture that a visible sub-command names and `reg` does not know, if
/// there is one; `None` exactly when `translate` may be called on `data`
/// as far as textures go.
pub fn first_unknown_texture<V>(data: &DrawData<V>, reg: &TextureRegistry) -> (r: Option<usize>)
    ensures
        r is None <==> textures_known(*data, *reg),
        r matches Some(t) ==> !reg.knows(t) && exists|i: int, j: int| #[trigger]
            first_unknown_at(*data, *reg, i, j, t),
{
    let v = data.viewport;
    let mut i: usize = 0;
    while i < data.lists.len()
        invariant
            v == data.viewport,
            0 <= i <= data.lists@.len(),
            forall|a: int, b: int|
                0 <= a < i && 0 <= b < data.lists@[a].commands@.len()
                    ==> match #[trigger] texture_needed(data.lists@[a].commands@[b], data.viewport) {
                    Some(t) => reg.knows(t),
                    None => true,
                },
        decreases data.lists@.len() - i,
    {
        let list = &data.lists[i];
        let mut j: usize = 0;
        while j < list.commands.len()
            invariant
                v == data.viewport,
                0 <= i < data.lists@.len(),
                *list == data.lists@[i as int],
                0 <= j <= list.commands@.len(),
                forall|a: int, b: int|
                    0 <= a < i && 0 <= b < data.lists@[a].commands@.len()
                        ==> match #[trigger] texture_needed(data.lists@[a].commands@[b], data.viewport) {
                        Some(t) => reg.knows(t),
                        None => true,
                    },
                forall|b: int|
                    0 <= b < j ==> match #[trigger] texture_needed(data.lists@[i as int].commands@[b], data.viewport) {
                        Some(t) => reg.knows(t),
                        None => true,
                    },
            decreases list.commands@.len() - j,
        {
            let cmd = list.commands[j];
            assert(data.lists@[i as int].commands@[j as int] == cmd);
            if let DrawCommand::Elements { clip, texture, .. } = cmd {
                if !is_culled(clip, v) && !reg.is_known(texture) {
                    assert(texture_needed(data.lists@[i as int].commands@[j as int], data.viewport) == Some(texture));
                    assert(first_unknown_at(*data, *reg, i as int, j as int, texture));
                    return Some(texture);
                }
            }
            j = j + 1;
        }
        i = i + 1;
    }
    None
}

/// Whether the frame's vertices and indices each number at most `u32::MAX`.
pub fn fits_ranges<V>(data: &DrawData<V>) -> (r: bool)
    ensures
        r == fits_u32_ranges(*data),
{
    let ghost lists = data.lists@;
    let ghost n = lists.len() as int;
    let mut vertices: u64 = 0;
    let mut indices: u64 = 0;
    let mut i: usize = 0;
    while i < data.lists.len()
        invariant
            lists == data.lists@,
            n == lists.len(),
            0 <= i <= n,
            vertices == vertex_total(lists, i as int),
            indices == index_total(lists, i as int),
            vertices <= u32::MAX,
            indices <= u32::MAX,
        decreases n - i,
    {
        let nv = data.lists[i].vertices.len() as u64;
        let ni = data.lists[i].indices.len() as u64;
        if nv > u32::MAX as u64 - vertices || ni > u32::MAX as u64 - indices {
            proof {
                lemma_totals_monotone(lists, i as int + 1, n);
            }
            return false;
        }
        vertices = vertices + nv;
        indices = indices + ni;
        i = i + 1;
    }
    true
}

/// The positions in `s` whose images make up `s.filter_map(f)`, rising.
proof fn lemma_filter_map_sources<A, B>(s: Seq<A>, f: spec_fn(A) -> Option<B>) -> (idx: Seq<int>)
    ensures
        idx.len() == s.filter_map(f).len(),
        forall|k: int|
            0 <= k < idx.len() ==> 0 <= #[trigger] idx[k] < s.len() && f(s[idx[k]]) == Some(
                s.filter_map(f)[k],
            ),
        forall|a: int, b: int| 0 <= a < b < idx.len() ==> #[trigger] idx[a] < #[trigger] idx[b],
    decreases s.len(),
{
    if s.len() == 0 {
        Seq::empty()
    } else {
        let rest = s.drop_last();
        let before = lemma_filter_map_sources(rest, f);
        assert forall|k: int| 0 <= k < before.len() implies s[before[k]] == rest[before[k]] by {}
        match f(s.last()) {
            Some(_) => before.push(s.len() - 1),
            None => before,
        }
    }
}

/// `idx` gives, for each draw call of the frame, the position of the placed
/// command it translates, and these positions rise strictly.
pub open spec fn sources_in_order<V>(idx: Seq<int>, data: DrawData<V>, reg: TextureRegistry) -> bool {
    &&& idx.len() == batched_ops(data, reg).len()
    &&& forall|k: int|
        0 <= k < idx.len() ==> 0 <= #[trigger] idx[k] < all_placed(data).len() && op_of(
            all_placed(data)[idx[k]],
            data.viewport,
            reg,
        ) == Some(batched_ops(data, reg)[k])
    &&& forall|a: int, b: int| 0 <= a < b < idx.len() ==> #[trigger] idx[a] < #[trigger] idx[b]
}

/// Draw calls keep the order of the sub-commands they come from: they are
/// the translations of a subsequence of the frame's commands.
pub proof fn lemma_ops_keep_emission_order<V>(data: DrawData<V>, reg: TextureRegistry)
    ensures
        exists|idx: Seq<int>| #[trigger] sources_in_order(idx, data, reg),
{
    let idx = lemma_filter_map_sources(all_placed(data), op_fn(data.viewport, reg));
    assert(sources_in_order(idx, data, reg));
}

/// `op` can be the draw call of the placed command `p`: `p` is a sub-command
/// whose clip rectangle is not culled, and `op` carries its scissor.
pub open spec fn drawn_from(op: DrawOp, p: Placed, v: Viewport) -> bool {
    match p.command {
        DrawCommand::Elements { clip, .. } => !culled(clip, v) && op.scissor == scissor_of(clip, v),
        _ => false,
    }
}

/// The k-th draw call of the frame comes from some placed command.
pub open spec fn has_visible_source<V>(data: DrawData<V>, reg: TextureRegistry, k: int) -> bool {
    exists|i: int|
        0 <= i < all_placed(data).len() && #[trigger] drawn_from(
            batched_ops(data, reg)[k],
            all_placed(data)[i],
            data.viewport,
        )
}

/// Each draw call comes from a sub-command whose clip rectangle is not
/// culled, and carries that rectangle's scissor.
pub proof fn lemma_culled_commands_dropped<V>(data: DrawData<V>, reg: TextureRegistry)
    ensures
        forall|k: int| 0 <= k < batched_ops(data, reg).len() ==> #[trigger] has_visible_source(data, reg, k),
{
    let idx = lemma_filter_map_sources(all_placed(data), op_fn(data.viewport, reg));
    assert forall|k: int| 0 <= k < batched_ops(data, reg).len() implies #[trigger] has_visible_source(
        data,
        reg,
        k,
    ) by {
        let i = idx[k];
        assert(op_of(all_placed(data)[i], data.viewport, reg) == Some(batched_ops(data, reg)[k]));
        assert(drawn_from(batched_ops(data, reg)[k], all_placed(data)[i], data.viewport));
    }
}

/// Every draw call names a texture that `reg` knows, and the binding that
/// `reg` resolves it to.
pub proof fn lemma_ops_reference_registered<V>(data: DrawData<V>, reg: TextureRegistry)
    requires
        textures_known(data, reg),
    ensures
        forall|k: int|
            0 <= k < batched_ops(data, reg).len() ==> {
                let op = #[trigger] batched_ops(data, reg)[k];
                reg.knows(op.texture) && reg.binding_of(op.texture) == Some(op.binding)
            },
{
    let idx = lemma_filter_map_sources(all_placed(data), op_fn(data.viewport, reg));
    let n = data.lists@.len() as int;
    lemma_placed_from_lists(data.lists@, n);
    assert forall|k: int| 0 <= k < batched_ops(data, reg).len() implies {
        let op = #[trigger] batched_ops(data, reg)[k];
        reg.knows(op.texture) && reg.binding_of(op.texture) == Some(op.binding)
    } by {
        let p = all_placed(data)[idx[k]];
        assert(op_of(p, data.viewport, reg) == Some(batched_ops(data, reg)[k]));
        let (li, j) = (p.list, p.index);
        assert(data.lists@[li].commands@[j] == p.command);
        assert(texture_needed(data.lists@[li].commands@[j], data.viewport) == texture_needed(p.command, data.viewport));
    }
}

/// Each placed command stands for a command of its list.
proof fn lemma_placed_from_lists<V>(lists: Seq<DrawList<V>>, n: int)
    requires
        0 <= n <= lists.len(),
    ensures
        forall|q: int|
            0 <= q < placed(lists, n).len() ==> {
                let p = #[trigger] placed(lists, n)[q];
                &&& 0 <= p.list < n
                &&& 0 <= p.index < lists[p.list].commands@.len()
                &&& lists[p.list].commands@[p.index] == p.command
            },
    decreases n,
{
    if n > 0 {
        lemma_placed_from_lists(lists, n - 1);
        let a = placed(lists, n - 1);
        let b = placed_list(lists[n - 1], n - 1, vertex_total(lists, n - 1), index_total(lists, n - 1));
        assert forall|q: int| 0 <= q < placed(lists, n).len() implies {
            let p = #[trigger] placed(lists, n)[q];
            &&& 0 <= p.list < n
            &&& 0 <= p.index < lists[p.list].commands@.len()
            &&& lists[p.list].commands@[p.index] == p.command
        } by {
            if q < a.len() {
                assert(placed(lists, n)[q] == a[q]);
            } else {
                assert(placed(lists, n)[q] == b[q - a.len()]);
            }
        }
    }
}

proof fn lemma_floor_bounded(m: int)
    requires
        -SCALED_BOUND <= m <= SCALED_BOUND,
    ensures
        -SCALED_BOUND <= floor_px(m) <= SCALED_BOUND,
        -SCALED_BOUND <= ceil_px(m) <= SCALED_BOUND,
{
    vstd::arithmetic::div_mod::lemma_fundamental_div_mod(m, 1_000_000);
    vstd::arithmetic::div_mod::lemma_fundamental_div_mod(-m, 1_000_000);
}

/// A scissor keeps the far edges of its clip rectangle, in pixels, and
/// moves a negative near edge to zero.
pub proof fn lemma_scissor_clamps_origin(c: ClipRect, v: Viewport)
    requires
        !culled(c, v),
    ensures
        scissor_of(c, v).x == clamp_zero(near_x(v, c.left)),
        scissor_of(c, v).y == clamp_zero(near_y(v, c.top)),
        scissor_of(c, v).x + scissor_of(c, v).w == far_x(v, c.right),
        scissor_of(c, v).y + scissor_of(c, v).h == far_y(v, c.bottom),
{
    lemma_scaled_bounded(c.left, v.x, v.scale_x);
    lemma_scaled_bounded(c.top, v.y, v.scale_y);
    lemma_scaled_bounded(c.right, v.x, v.scale_x);
    lemma_scaled_bounded(c.bottom, v.y, v.scale_y);
    lemma_floor_bounded(scaled_x(v, c.left));
    lemma_floor_bounded(scaled_y(v, c.top));
    lemma_floor_bounded(scaled_x(v, c.right));
    lemma_floor_bounded(scaled_y(v, c.bottom));
}

} // verus!
