//! Pipeline state descriptions: fixed-function state enums, viewport and
//! scissor declarations, and argument-block signature descriptions with
//! their viewport/scissor counting.

use vstd::prelude::*;

use crate::format::Format;

verus! {

#[derive(Copy, Clone, Debug, PartialEq, Eq, Structural, Hash)]
pub enum PrimitiveTopology {
    PointList,
    LineList,
    TriangleList,
}

#[derive(Copy, Clone, Debug, PartialEq, Eq, Structural, Hash)]
pub enum ShaderFormat {
    SpirV,
    BackendSpecific,
}

#[derive(Copy, Clone, Debug, PartialEq, Eq, Structural, Hash)]
pub enum PolygonMode {
    Line,
    Fill,
}

#[derive(Copy, Clone, Debug, PartialEq, Eq, Structural, Hash)]
pub enum FrontFace {
    Clockwise,
    CounterClockwise,
}

/// A viewport rectangle and depth range. The coordinates are the raw bit
/// patterns of the caller's floating-point components: the frontend stores
/// and forwards them, it never computes with them.
#[derive(Copy, Clone, Debug, PartialEq, Eq, Structural, Hash)]
pub struct Viewport {
    pub x_bits: u32,
    pub y_bits: u32,
    pub width_bits: u32,
    pub height_bits: u32,
    pub min_depth_bits: u32,
    pub max_depth_bits: u32,
}

#[derive(Copy, Clone, Debug, PartialEq, Eq, Structural, Hash)]
pub struct ScissorRect {
    pub x: i32,
    pub y: i32,
    pub width: u32,
    pub height: u32,
}

#[derive(Copy, Clone, Debug, PartialEq, Eq, Structural, Hash)]
pub enum Scissor {
    Enabled(ScissorRect),
    Disabled,
}

/// Viewports of a pipeline, borrowed from the caller: fixed at creation,
/// or set by commands.
#[derive(Copy, Clone, Debug)]
pub enum Viewports<'a> {
    Static(&'a [Viewport]),
    Dynamic,
}

/// Viewports of a pipeline: fixed at creation, or set by commands.
#[derive(Clone, Debug)]
pub enum ViewportsOwned {
    Static(Vec<Viewport>),
    Dynamic,
}

/// Scissors of a pipeline, borrowed from the caller: fixed at creation, or
/// set by commands.
#[derive(Copy, Clone, Debug)]
pub enum Scissors<'a> {
    Static(&'a [Scissor]),
    Dynamic,
}

/// Scissors of a pipeline: fixed at creation, or set by commands.
#[derive(Clone, Debug)]
pub enum ScissorsOwned {
    Static(Vec<Scissor>),
    Dynamic,
}

impl<'a> From<Viewports<'a>> for ViewportsOwned {
    /// Copies borrowed viewports into owned storage, keeping the variant.
    fn from(v: Viewports<'a>) -> (r: ViewportsOwned)
        ensures
            (match (v, r) {
                (Viewports::Static(b), ViewportsOwned::Static(o)) => o@ == b@,
                (Viewports::Dynamic, ViewportsOwned::Dynamic) => true,
                _ => false,
            }),
    {
        match v {
            Viewports::Static(b) => ViewportsOwned::Static(vstd::slice::slice_to_vec(b)),
            Viewports::Dynamic => ViewportsOwned::Dynamic,
        }
    }
}

impl<'a> vstd::std_specs::convert::FromSpecImpl<Viewports<'a>> for ViewportsOwned {
    open spec fn obeys_from_spec() -> bool {
        false
    }

    open spec fn from_spec(v: Viewports<'a>) -> ViewportsOwned {
        ViewportsOwned::Dynamic
    }
}

impl<'a> From<Scissors<'a>> for ScissorsOwned {
    /// Copies borrowed scissors into owned storage, keeping the variant.
    fn from(s: Scissors<'a>) -> (r: ScissorsOwned)
        ensures
            (match (s, r) {
                (Scissors::Static(b), ScissorsOwned::Static(o)) => o@ == b@,
                (Scissors::Dynamic, ScissorsOwned::Dynamic) => true,
                _ => false,
            }),
    {
        match s {
            Scissors::Static(b) => ScissorsOwned::Static(vstd::slice::slice_to_vec(b)),
            Scissors::Dynamic => ScissorsOwned::Dynamic,
        }
    }
}

impl<'a> vstd::std_specs::convert::FromSpecImpl<Scissors<'a>> for ScissorsOwned {
    open spec fn obeys_from_spec() -> bool {
        false
    }

    open spec fn from_spec(s: Scissors<'a>) -> ScissorsOwned {
        ScissorsOwned::Dynamic
    }
}

#[derive(Copy, Clone, Debug, PartialEq, Eq, Structural, Hash)]
pub struct InputAssemblyState {
    pub topology: PrimitiveTopology,
    pub primitive_restart_enable: bool,
}

impl Default for InputAssemblyState {
    /// The default input assembly: a plain triangle list.
    fn default() -> (r: Self)
        ensures
            r.topology == PrimitiveTopology::TriangleList,
            !r.primitive_restart_enable,
    {
        InputAssemblyState {
            topology: PrimitiveTopology::TriangleList,
            primitive_restart_enable: false,
        }
    }
}

#[derive(Copy, Clone, Debug, PartialEq, Eq, Structural, Hash)]
pub struct AttachmentDescription {
    pub format: Format,
    pub samples: u32,
}

/// The attachments a render pass reads and writes.
#[derive(Clone, Debug)]
pub struct AttachmentLayout {
    pub input_attachments: Vec<AttachmentDescription>,
    pub depth_attachment: Option<AttachmentDescription>,
    pub color_attachments: Vec<AttachmentDescription>,
}

#[derive(Copy, Clone, Debug, PartialEq, Eq, Structural, Hash)]
pub enum CompareOp {
    Never,
    Less,
    Equal,
    LessOrEqual,
    Greater,
    NotEqual,
    GreaterOrEqual,
    Always,
}

#[derive(Copy, Clone, Debug, PartialEq, Eq, Structural, Hash)]
pub enum StencilOp {
    Keep,
    Zero,
    Replace,
    IncrementAndClamp,
    DecrementAndClamp,
    Invert,
    IncrementAndWrap,
    DecrementAndWrap,
}

#[derive(Copy, Clone, Debug, PartialEq, Eq, Structural, Hash)]
pub struct StencilOpState {
    pub fail_op: StencilOp,
    pub pass_op: StencilOp,
    pub depth_fail_op: StencilOp,
    pub compare_op: CompareOp,
    pub compare_mask: u32,
    pub write_mask: u32,
    pub reference: u32,
}

#[derive(Copy, Clone, Debug, PartialEq, Eq, Structural, Hash)]
pub enum StencilTest {
    Disabled,
    Enabled { front: StencilOpState, back: StencilOpState },
}

#[derive(Copy, Clone, Debug, PartialEq, Eq, Structural, Hash)]
pub enum LogicOp {
    Clear,
    And,
    AndReverse,
    Copy,
    AndInverted,
    NoOp,
    Xor,
    Or,
    Nor,
    Equivalent,
    Invert,
    OrReverse,
    CopyInverted,
    OrInverted,
    Nand,
    SetAll,
}

#[derive(Copy, Clone, Debug, PartialEq, Eq, Structural, Hash)]
pub enum BlendFactor {
    Zero,
    One,
    SrcColor,
    OneMinusSrcColor,
    DstColor,
    OneMinusDstColor,
    SrcAlpha,
    OneMinusSrcAlpha,
    DstAlpha,
    OneMinusDstAlpha,
    ConstantColor,
    OneMinusConstantColor,
    ConstantAlpha,
    OneMinusConstantAlpha,
    SrcAlphaSaturate,
    Src1Color,
    OneMinusSrc1Color,
    Src1Alpha,
    OneMinusSrc1Alpha,
}

#[derive(Copy, Clone, Debug, PartialEq, Eq, Structural, Hash)]
pub enum BlendOp {
    Add,
    Subtract,
    ReverseSubtract,
    Min,
    Max,
}

/// Blend state of one color attachment. The write mask is a bitset over the
/// four color components.
#[derive(Copy, Clone, Debug, PartialEq, Eq, Structural, Hash)]
pub enum ColorBlendAttachmentState {
    Disabled,
    Enabled {
        src_color_blend_factor: BlendFactor,
        dst_color_blend_factor: BlendFactor,
        color_blend_op: BlendOp,
        src_alpha_blend_factor: BlendFactor,
        dst_alpha_blend_factor: BlendFactor,
        alpha_blend_op: BlendOp,
        color_write_mask: u32,
    },
}

/// Blend state for the color attachments: one shared state, or one per
/// attachment.
#[derive(Clone, Debug)]
pub enum ColorBlendAttachments {
    All(ColorBlendAttachmentState),
    Separate(Vec<ColorBlendAttachmentState>),
}

/// A color output of the fragment shader; only its presence is counted.
#[derive(Copy, Clone, Debug, PartialEq, Eq, Structural)]
pub struct FragmentOutputDescription {}

/// The format of index buffer entries.
#[derive(Copy, Clone, Debug, PartialEq, Eq, Structural, Hash)]
pub enum IndexFormat {
    U16,
    U32,
}

/// Whether vertex attributes advance per vertex or per instance.
#[derive(Copy, Clone, Debug, PartialEq, Eq, Structural, Hash)]
pub enum VertexInputRate {
    Vertex,
    Instance,
}

/// One element of a vertex buffer layout.
#[derive(Copy, Clone, Debug, PartialEq, Eq, Structural, Hash)]
pub struct VertexLayoutElement {
    pub format: Format,
    pub offset: u32,
}

/// The layout of one vertex buffer: its elements and the byte stride
/// between consecutive entries.
#[derive(Clone, Debug)]
pub struct VertexLayout {
    pub elements: Vec<VertexLayoutElement>,
    pub stride: u32,
}

/// Describes one vertex buffer bound by an argument block.
#[derive(Clone, Debug)]
pub struct VertexInputBinding {
    pub layout: VertexLayout,
    pub rate: VertexInputRate,
    pub base_location: Option<u32>,
}

/// One descriptor slot of a signature; only its slot index is modelled.
#[derive(Copy, Clone, Debug, PartialEq, Eq, Structural, Hash)]
pub struct ResourceBinding {
    pub binding: u32,
}

/// Describes the contents (all arguments) of an argument block: inherited
/// blocks, descriptors, vertex buffers, fragment outputs, and how many
/// viewports and scissors the block defines.
#[derive(Debug)]
pub struct SignatureDescription {
    /// Signatures of inherited argument blocks.
    pub inherited: Vec<SignatureDescription>,
    /// Descriptors in the block.
    pub descriptors: Vec<ResourceBinding>,
    /// Layouts of all vertex buffers in the block.
    pub vertex_inputs: Vec<VertexInputBinding>,
    /// Color outputs of the fragment shader; one render target per entry.
    pub fragment_outputs: Vec<FragmentOutputDescription>,
    /// Depth-stencil output of the fragment shader, if any.
    pub depth_stencil_fragment_output: Option<FragmentOutputDescription>,
    /// The format of the index buffer, if the block contains one.
    pub index_format: Option<IndexFormat>,
    /// The number of viewports defined in the block.
    pub num_viewports: usize,
    /// The number of scissors defined in the block.
    pub num_scissors: usize,
    /// This block and its inherited blocks fully define the fragment outputs.
    pub is_root_fragment_output_signature: bool,
    /// This block and its inherited blocks fully define the vertex inputs.
    pub is_root_vertex_input_signature: bool,
}

/// Total viewports declared by a signature and, transitively, everything it
/// inherits.
pub open spec fn spec_count_viewports(s: SignatureDescription) -> int
    decreases s,
{
    s.num_viewports + spec_count_viewports_list(s.inherited@)
}

/// Sum of `spec_count_viewports` over a list of signatures.
pub open spec fn spec_count_viewports_list(l: Seq<SignatureDescription>) -> int
    decreases l,
{
    if l.len() == 0 {
        0
    } else {
        spec_count_viewports(l[0]) + spec_count_viewports_list(l.drop_first())
    }
}

/// Total scissors declared by a signature and, transitively, everything it
/// inherits.
pub open spec fn spec_count_scissors(s: SignatureDescription) -> int
    decreases s,
{
    s.num_scissors + spec_count_scissors_list(s.inherited@)
}

/// Sum of `spec_count_scissors` over a list of signatures.
pub open spec fn spec_count_scissors_list(l: Seq<SignatureDescription>) -> int
    decreases l,
{
    if l.len() == 0 {
        0
    } else {
        spec_count_scissors(l[0]) + spec_count_scissors_list(l.drop_first())
    }
}

impl SignatureDescription {
    /// The empty signature: nothing inherited, nothing declared.
    pub fn empty() -> (r: SignatureDescription)
        ensures
            r.inherited@.len() == 0,
            r.descriptors@.len() == 0,
            r.vertex_inputs@.len() == 0,
            r.fragment_outputs@.len() == 0,
            r.depth_stencil_fragment_output is None,
            r.index_format is None,
            r.num_viewports == 0,
            r.num_scissors == 0,
            !r.is_root_fragment_output_signature,
            !r.is_root_vertex_input_signature,
    {
        SignatureDescription {
            inherited: Vec::new(),
            descriptors: Vec::new(),
            vertex_inputs: Vec::new(),
            fragment_outputs: Vec::new(),
            depth_stencil_fragment_output: None,
            index_format: None,
            num_viewports: 0,
            num_scissors: 0,
            is_root_fragment_output_signature: false,
            is_root_vertex_input_signature: false,
        }
    }

    /// Count the total number of viewport entries, inherited ones included.
    pub fn count_viewports(&self) -> (r: usize)
        requires
            spec_count_viewports(*self) <= usize::MAX,
        ensures
            r == spec_count_viewports(*self),
        decreases *self,
    {
        proof {
            lemma_count_viewports_nonneg(*self);
            assert(self.inherited@.take(0) =~= Seq::<SignatureDescription>::empty());
            assert(self.inherited@.skip(0) =~= self.inherited@);
        }
        let mut total: usize = self.num_viewports;
        let mut i: usize = 0;
        while i < self.inherited.len()
            invariant
                0 <= i <= self.inherited@.len(),
                spec_count_viewports(*self) <= usize::MAX,
                total == self.num_viewports + spec_count_viewports_list(
                    self.inherited@.take(i as int),
                ),
                spec_count_viewports(*self) == total + spec_count_viewports_list(
                    self.inherited@.skip(i as int),
                ),
            decreases self.inherited@.len() - i,
        {
            proof {
                lemma_count_viewports_list_nonneg(self.inherited@.skip(i as int));
                lemma_count_viewports_nonneg(self.inherited@[i as int]);
                lemma_count_viewports_list_nonneg(self.inherited@.skip(i as int).drop_first());
                assert(self.inherited@.skip(i as int).drop_first() =~= self.inherited@.skip(
                    i as int + 1,
                ));
                assert(self.inherited@.skip(i as int)[0] == self.inherited@[i as int]);
                assert(self.inherited@.take(i as int + 1).drop_last() =~= self.inherited@.take(
                    i as int,
                ));
                lemma_count_viewports_list_push(self.inherited@.take(i as int + 1));
            }
            let c = self.inherited[i].count_viewports();
            total = total + c;
            i = i + 1;
        }
        proof {
            assert(self.inherited@.take(self.inherited@.len() as int) =~= self.inherited@);
        }
        total
    }

    /// Count the total number of scissor entries, inherited ones included.
    pub fn count_scissors(&self) -> (r: usize)
        requires
            spec_count_scissors(*self) <= usize::MAX,
        ensures
            r == spec_count_scissors(*self),
        decreases *self,
    {
        proof {
            lemma_count_scissors_nonneg(*self);
            assert(self.inherited@.take(0) =~= Seq::<SignatureDescription>::empty());
            assert(self.inherited@.skip(0) =~= self.inherited@);
        }
        let mut total: usize = self.num_scissors;
        let mut i: usize = 0;
        while i < self.inherited.len()
            invariant
                0 <= i <= self.inherited@.len(),
                spec_count_scissors(*self) <= usize::MAX,
                total == self.num_scissors + spec_count_scissors_list(
                    self.inherited@.take(i as int),
                ),
                spec_count_scissors(*self) == total + spec_count_scissors_list(
                    self.inherited@.skip(i as int),
                ),
            decreases self.inherited@.len() - i,
        {
            proof {
                lemma_count_scissors_list_nonneg(self.inherited@.skip(i as int));
                lemma_count_scissors_nonneg(self.inherited@[i as int]);
                lemma_count_scissors_list_nonneg(self.inherited@.skip(i as int).drop_first());
                assert(self.inherited@.skip(i as int).drop_first() =~= self.inherited@.skip(
                    i as int + 1,
                ));
                assert(self.inherited@.skip(i as int)[0] == self.inherited@[i as int]);
                assert(self.inherited@.take(i as int + 1).drop_last() =~= self.inherited@.take(
                    i as int,
                ));
                lemma_count_scissors_list_push(self.inherited@.take(i as int + 1));
            }
            let c = self.inherited[i].count_scissors();
            total = total + c;
            i = i + 1;
        }
        proof {
            assert(self.inherited@.take(self.inherited@.len() as int) =~= self.inherited@);
        }
        total
    }
}

/// Viewport counts are sums of non-negative contributions.
proof fn lemma_count_viewports_nonneg(s: SignatureDescription)
    ensures
        spec_count_viewports(s) >= s.num_viewports >= 0,
    decreases s,
{
    lemma_count_viewports_list_nonneg(s.inherited@);
}

/// Sums of viewport counts over a list are non-negative.
proof fn lemma_count_viewports_list_nonneg(l: Seq<SignatureDescription>)
    ensures
        spec_count_viewports_list(l) >= 0,
    decreases l,
{
    if l.len() > 0 {
        lemma_count_viewports_nonneg(l[0]);
        lemma_count_viewports_list_nonneg(l.drop_first());
    }
}

/// Splitting the last element off a non-empty list splits its sum.
proof fn lemma_count_viewports_list_push(l: Seq<SignatureDescription>)
    requires
        l.len() > 0,
    ensures
        spec_count_viewports_list(l) == spec_count_viewports_list(l.drop_last())
            + spec_count_viewports(l.last()),
    decreases l.len(),
{
    if l.len() == 1 {
        assert(l.drop_first() =~= Seq::<SignatureDescription>::empty());
        assert(l.drop_last() =~= Seq::<SignatureDescription>::empty());
    } else {
        lemma_count_viewports_list_push(l.drop_first());
        assert(l.drop_first().drop_last() =~= l.drop_last().drop_first());
        assert(l.drop_first().last() == l.last());
        assert(l.drop_last()[0] == l[0]);
    }
}

/// Scissor counts are sums of non-negative contributions.
proof fn lemma_count_scissors_nonneg(s: SignatureDescription)
    ensures
        spec_count_scissors(s) >= s.num_scissors >= 0,
    decreases s,
{
    lemma_count_scissors_list_nonneg(s.inherited@);
}

/// Sums of scissor counts over a list are non-negative.
proof fn lemma_count_scissors_list_nonneg(l: Seq<SignatureDescription>)
    ensures
        spec_count_scissors_list(l) >= 0,
    decreases l,
{
    if l.len() > 0 {
        lemma_count_scissors_nonneg(l[0]);
        lemma_count_scissors_list_nonneg(l.drop_first());
    }
}

/// Splitting the last element off a non-empty list splits its sum.
proof fn lemma_count_scissors_list_push(l: Seq<SignatureDescription>)
    requires
        l.len() > 0,
    ensures
        spec_count_scissors_list(l) == spec_count_scissors_list(l.drop_last())
            + spec_count_scissors(l.last()),
    decreases l.len(),
{
    if l.len() == 1 {
        assert(l.drop_first() =~= Seq::<SignatureDescription>::empty());
        assert(l.drop_last() =~= Seq::<SignatureDescription>::empty());
    } else {
        lemma_count_scissors_list_push(l.drop_first());
        assert(l.drop_first().drop_last() =~= l.drop_last().drop_first());
        assert(l.drop_first().last() == l.last());
        assert(l.drop_last()[0] == l[0]);
    }
}

} // verus!
