//! The texture pair of the pipeline.
//!
//! The two textures always have the same size. One is written while the
//! other is read, and the roles swap every frame. A resize never changes a
//! texture in place: both are replaced by blank textures of the new size, and
//! the pair moves on to a new generation, so that whatever was derived from
//! the old textures can be told apart from what belongs to the new ones.

use vstd::prelude::*;

verus! {

/// Bytes per pixel: four channels of eight bits.
pub const PIXEL_SIZE: usize = 4;

/// A resize is ignored unless both sides are larger than this.
pub const MIN_SIZE: u32 = 100;

/// What a texture may be used for on the device.
#[derive(Clone, Copy, Debug, PartialEq, Eq, Structural)]
pub struct TextureUsages {
    /// The host may copy data into it.
    pub copy_dst: bool,
    /// A compute shader may read and write it as a storage texture.
    pub storage_binding: bool,
    /// A shader may sample it, and it may be displayed.
    pub texture_binding: bool,
}

/// A 2D texture of four 8-bit unsigned normalised channels, held on the host.
#[derive(Debug, PartialEq, Eq)]
pub struct Texture {
    width: u32,
    height: u32,
    usage: TextureUsages,
    data: Vec<u8>,
}

/// The mathematical content of a [`Texture`].
pub struct TextureContent {
    pub width: u32,
    pub height: u32,
    pub usage: TextureUsages,
    /// The pixels, row by row, four bytes each.
    pub data: Seq<u8>,
}

impl View for Texture {
    type V = TextureContent;

    closed spec fn view(&self) -> TextureContent {
        TextureContent {
            width: self.width,
            height: self.height,
            usage: self.usage,
            data: self.data@,
        }
    }
}

impl TextureContent {
    /// The data holds exactly the pixels of a `width` by `height` texture.
    pub open spec fn wf(self) -> bool {
        self.data.len() == self.width * self.height * PIXEL_SIZE
    }

    /// A texture of the given size with every byte zero, usable as the
    /// storage target of a compute shader and as a sampled or displayed
    /// texture.
    pub open spec fn blank(width: u32, height: u32) -> TextureContent {
        TextureContent {
            width,
            height,
            usage: TextureUsages { copy_dst: true, storage_binding: true, texture_binding: true },
            data: Seq::new((width * height * PIXEL_SIZE) as nat, |i: int| 0u8),
        }
    }
}

/// Whether the data of a `width` by `height` texture can be held in memory
/// at all.
pub open spec fn fits(width: u32, height: u32) -> bool {
    width * height * PIXEL_SIZE <= usize::MAX
}

/// Whether the data of a `width` by `height` texture can be held in memory
/// at all.
pub fn can_hold(width: u32, height: u32) -> (held: bool)
    ensures
        held == fits(width, height),
{
    assert(width * height * PIXEL_SIZE <= 0xffff_ffff * 0xffff_ffff * 4) by (nonlinear_arith)
        requires
            width <= 0xffff_ffff,
            height <= 0xffff_ffff,
            PIXEL_SIZE == 4,
    ;
    assert(width as u128 * height as u128 == width * height) by (nonlinear_arith)
        requires
            width <= 0xffff_ffff,
            height <= 0xffff_ffff,
    ;
    width as u128 * height as u128 * 4 <= usize::MAX as u128
}

/// Whether a resize to `width` by `height` is acted on. Smaller sizes occur
/// while a window is being manipulated and are ignored.
pub open spec fn accepts(width: u32, height: u32) -> bool {
    width > MIN_SIZE && height > MIN_SIZE
}

/// The number of bytes of a `width` by `height` texture.
fn data_len(width: u32, height: u32) -> (len: usize)
    requires
        fits(width, height),
    ensures
        len == width * height * PIXEL_SIZE,
{
    assert(width * height <= width * height * PIXEL_SIZE) by (nonlinear_arith);
    assert(width as usize * height as usize == width * height) by (nonlinear_arith)
        requires
            width * height <= usize::MAX,
    ;
    width as usize * height as usize * PIXEL_SIZE
}

/// Allocates a blank texture.
pub fn create_image(width: u32, height: u32) -> (image: Texture)
    requires
        fits(width, height),
    ensures
        image@ == TextureContent::blank(width, height),
{
    let data = vec![0u8; data_len(width, height)];
    assert(data@ =~= TextureContent::blank(width, height).data);
    Texture {
        width,
        height,
        usage: TextureUsages { copy_dst: true, storage_binding: true, texture_binding: true },
        data,
    }
}

impl Texture {
    #[verifier::type_invariant]
    spec fn inv(self) -> bool {
        self@.wf()
    }

    /// The width in pixels.
    pub fn width(&self) -> (width: u32)
        ensures
            width == self@.width,
    {
        self.width
    }

    /// The height in pixels.
    pub fn height(&self) -> (height: u32)
        ensures
            height == self@.height,
    {
        self.height
    }

    /// What the texture may be used for on the device.
    pub fn usage(&self) -> (usage: TextureUsages)
        ensures
            usage == self@.usage,
    {
        self.usage
    }

    /// The pixels, row by row, four bytes each.
    pub fn data(&self) -> (data: &Vec<u8>)
        ensures
            data@ == self@.data,
            self@.wf(),
    {
        proof {
            use_type_invariant(self);
        }
        &self.data
    }

    /// Gives up the texture for its pixels.
    pub fn into_data(self) -> (data: Vec<u8>)
        ensures
            data@ == self@.data,
    {
        self.data
    }
}

/// One of the two textures of the pair.
#[derive(Clone, Copy, Debug, PartialEq, Eq, Structural)]
pub enum TextureSlot {
    A,
    B,
}

impl TextureSlot {
    /// The other texture of the pair.
    pub open spec fn spec_other(self) -> TextureSlot {
        match self {
            TextureSlot::A => TextureSlot::B,
            TextureSlot::B => TextureSlot::A,
        }
    }

    /// The other texture of the pair.
    pub fn other(&self) -> (other: TextureSlot)
        ensures
            other == self.spec_other(),
    {
        match self {
            TextureSlot::A => TextureSlot::B,
            TextureSlot::B => TextureSlot::A,
        }
    }
}

/// Names one texture of the pair as it was allocated: a replaced texture
/// takes its handle with it, and the texture that takes its place gets a
/// handle of the next generation.
#[derive(Clone, Copy, Debug, PartialEq, Eq, Structural)]
pub struct TextureHandle {
    pub slot: TextureSlot,
    pub generation: u64,
}

/// A change of the window's size, in whole pixels.
#[derive(Clone, Copy, Debug, PartialEq, Eq, Structural)]
pub struct WindowResized {
    pub width: u32,
    pub height: u32,
}

/// The generation that follows `generation`. It differs from `generation`
/// for every value, also where the counter wraps.
pub open spec fn next_generation(generation: u64) -> u64 {
    if generation == u64::MAX {
        0
    } else {
        (generation + 1) as u64
    }
}

/// The texture pair.
#[derive(Debug, PartialEq, Eq)]
pub struct ComputePlaygroundImages {
    main_textures: (Texture, Texture),
    generation: u64,
}

/// The mathematical content of a [`ComputePlaygroundImages`].
pub struct ImagesContent {
    pub main_textures: (TextureContent, TextureContent),
    pub generation: u64,
}

impl View for ComputePlaygroundImages {
    type V = ImagesContent;

    closed spec fn view(&self) -> ImagesContent {
        ImagesContent {
            main_textures: (self.main_textures.0@, self.main_textures.1@),
            generation: self.generation,
        }
    }
}

impl ImagesContent {
    /// Both textures are well formed and of one size.
    pub open spec fn wf(self) -> bool {
        &&& self.main_textures.0.wf()
        &&& self.main_textures.1.wf()
        &&& self.main_textures.0.width == self.main_textures.1.width
        &&& self.main_textures.0.height == self.main_textures.1.height
    }

    /// The width that both textures have.
    pub open spec fn width(self) -> u32 {
        self.main_textures.0.width
    }

    /// The height that both textures have.
    pub open spec fn height(self) -> u32 {
        self.main_textures.0.height
    }

    /// The handle of the texture that currently stands in `slot`.
    pub open spec fn handle(self, slot: TextureSlot) -> TextureHandle {
        TextureHandle { slot, generation: self.generation }
    }

    /// The handles of both textures as they stand: that of A, then that of B.
    pub open spec fn handles(self) -> (TextureHandle, TextureHandle) {
        (self.handle(TextureSlot::A), self.handle(TextureSlot::B))
    }

    /// A pair of blank textures of the given size, in its first generation.
    pub open spec fn blank(width: u32, height: u32) -> ImagesContent {
        ImagesContent {
            main_textures: (
                TextureContent::blank(width, height),
                TextureContent::blank(width, height),
            ),
            generation: 0,
        }
    }

    /// The pair after one resize. An accepted size replaces both textures by
    /// blank ones of that size, and the old content is lost; any other size
    /// leaves the pair as it is.
    pub open spec fn resized(self, width: u32, height: u32) -> ImagesContent {
        if accepts(width, height) {
            ImagesContent {
                main_textures: (
                    TextureContent::blank(width, height),
                    TextureContent::blank(width, height),
                ),
                generation: next_generation(self.generation),
            }
        } else {
            self
        }
    }

    /// The pair after a run of resizes, taken in order.
    pub open spec fn resized_all(self, resize: Seq<WindowResized>) -> ImagesContent
        decreases resize.len(),
    {
        if resize.len() == 0 {
            self
        } else {
            self.resized_all(resize.drop_last()).resized(resize.last().width, resize.last().height)
        }
    }
}

/// Whether every accepted size among `resize` can be held in memory.
pub open spec fn all_fit(resize: Seq<WindowResized>) -> bool {
    forall|i: int|
        0 <= i < resize.len() && accepts(#[trigger] resize[i].width, resize[i].height) ==> fits(
            resize[i].width,
            resize[i].height,
        )
}

impl ComputePlaygroundImages {
    #[verifier::type_invariant]
    spec fn inv(self) -> bool {
        self@.wf()
    }

    /// A pair of blank textures for a window of the given size.
    pub fn new(width: u32, height: u32) -> (images: ComputePlaygroundImages)
        requires
            fits(width, height),
        ensures
            images@ == ImagesContent::blank(width, height),
    {
        ComputePlaygroundImages {
            main_textures: (create_image(width, height), create_image(width, height)),
            generation: 0,
        }
    }

    /// The size that both textures have.
    pub fn size(&self) -> (size: (u32, u32))
        ensures
            size == (self@.width(), self@.height()),
            self@.wf(),
    {
        proof {
            use_type_invariant(self);
        }
        (self.main_textures.0.width(), self.main_textures.0.height())
    }

    /// The texture that stands in `slot`.
    pub fn texture(&self, slot: TextureSlot) -> (texture: &Texture)
        ensures
            texture@ == match slot {
                TextureSlot::A => self@.main_textures.0,
                TextureSlot::B => self@.main_textures.1,
            },
            self@.wf(),
    {
        proof {
            use_type_invariant(self);
        }
        match slot {
            TextureSlot::A => &self.main_textures.0,
            TextureSlot::B => &self.main_textures.1,
        }
    }

    /// The handle of the texture that currently stands in `slot`.
    pub fn handle(&self, slot: TextureSlot) -> (handle: TextureHandle)
        ensures
            handle == self@.handle(slot),
    {
        TextureHandle { slot, generation: self.generation }
    }

    /// The handles of both textures as they stand: that of A, then that of B.
    pub fn main_textures(&self) -> (handles: (TextureHandle, TextureHandle))
        ensures
            handles == self@.handles(),
    {
        (self.handle(TextureSlot::A), self.handle(TextureSlot::B))
    }

    /// Acts on one resize, and says whether the textures were replaced.
    pub fn resize(&mut self, width: u32, height: u32) -> (replaced: bool)
        requires
            accepts(width, height) ==> fits(width, height),
        ensures
            final(self)@ == old(self)@.resized(width, height),
            replaced == accepts(width, height),
            !replaced ==> final(self)@ == old(self)@,
            replaced ==> final(self)@.generation != old(self)@.generation,
    {
        if width > MIN_SIZE && height > MIN_SIZE {
            let generation = if self.generation == u64::MAX {
                0
            } else {
                self.generation + 1
            };
            *self = ComputePlaygroundImages {
                main_textures: (create_image(width, height), create_image(width, height)),
                generation,
            };
            true
        } else {
            false
        }
    }
}

/// Acts on the resizes of one frame, in order, and says whether the textures
/// were replaced.
pub fn update_image(images: &mut ComputePlaygroundImages, resize: &Vec<WindowResized>) -> (replaced:
    bool)
    requires
        all_fit(resize@),
    ensures
        final(images)@ == old(images)@.resized_all(resize@),
        replaced == exists|i: int|
            0 <= i < resize@.len() && accepts(#[trigger] resize@[i].width, resize@[i].height),
        !replaced ==> final(images)@ == old(images)@,
        replaced ==> final(images)@.generation != old(images)@.generation,
{
    let mut replaced = false;
    let mut n: usize = 0;
    while n < resize.len()
        invariant
            n <= resize.len(),
            all_fit(resize@),
            images@ == old(images)@.resized_all(resize@.take(n as int)),
            replaced == exists|i: int|
                0 <= i < n && accepts(#[trigger] resize@[i].width, resize@[i].height),
        decreases resize.len() - n,
    {
        let event = resize[n];
        assert(resize@.take(n + 1).drop_last() =~= resize@.take(n as int));
        if images.resize(event.width, event.height) {
            replaced = true;
        }
        n += 1;
    }
    assert(resize@.take(n as int) =~= resize@);
    proof {
        if replaced {
            let accepted = choose|i: int|
                0 <= i < resize@.len() && accepts(#[trigger] resize@[i].width, resize@[i].height);
            lemma_accepted_resizes_change_generation(
                old(images)@,
                resize@,
                accepted,
                TextureSlot::A,
                TextureSlot::A,
            );
        } else {
            lemma_ignored_resizes_change_nothing(old(images)@, resize@);
        }
    }
    replaced
}

/// The number of accepted sizes among `resize`.
pub open spec fn accepted_count(resize: Seq<WindowResized>) -> nat
    decreases resize.len(),
{
    if resize.len() == 0 {
        0
    } else {
        accepted_count(resize.drop_last()) + if accepts(resize.last().width, resize.last().height) {
            1nat
        } else {
            0nat
        }
    }
}

/// A run of resizes of which none is accepted leaves the pair as it is.
pub proof fn lemma_ignored_resizes_change_nothing(images: ImagesContent, resize: Seq<WindowResized>)
    requires
        forall|i: int| 0 <= i < resize.len() ==> !accepts(#[trigger] resize[i].width, resize[i].height),
    ensures
        images.resized_all(resize) == images,
    decreases resize.len(),
{
    if resize.len() > 0 {
        lemma_ignored_resizes_change_nothing(images, resize.drop_last());
    }
}

/// After a run of resizes both textures are blank and have the size of the
/// last accepted one.
pub proof fn lemma_last_accepted_resize_wins(
    images: ImagesContent,
    resize: Seq<WindowResized>,
    last: int,
)
    requires
        0 <= last < resize.len(),
        accepts(resize[last].width, resize[last].height),
        forall|i: int|
            last < i < resize.len() ==> !accepts(#[trigger] resize[i].width, resize[i].height),
    ensures
        images.resized_all(resize).main_textures.0 == TextureContent::blank(
            resize[last].width,
            resize[last].height,
        ),
        images.resized_all(resize).main_textures.1 == TextureContent::blank(
            resize[last].width,
            resize[last].height,
        ),
        images.resized_all(resize).wf(),
    decreases resize.len(),
{
    if last < resize.len() - 1 {
        lemma_last_accepted_resize_wins(images, resize.drop_last(), last);
    }
}

/// Every accepted resize moves the pair on by one generation.
proof fn lemma_generation_counts_accepted(images: ImagesContent, resize: Seq<WindowResized>)
    ensures
        images.resized_all(resize).generation == (images.generation + accepted_count(resize))
            % 0x1_0000_0000_0000_0000,
        accepted_count(resize) <= resize.len(),
    decreases resize.len(),
{
    if resize.len() > 0 {
        lemma_generation_counts_accepted(images, resize.drop_last());
    }
}

/// Some size among `resize` is accepted if and only if their count is not
/// zero.
proof fn lemma_accepted_count_positive(resize: Seq<WindowResized>)
    ensures
        accepted_count(resize) > 0 <==> exists|i: int|
            0 <= i < resize.len() && accepts(#[trigger] resize[i].width, resize[i].height),
    decreases resize.len(),
{
    if resize.len() > 0 {
        lemma_accepted_count_positive(resize.drop_last());
        let front = resize.drop_last();
        if accepted_count(resize) > 0 {
            if accepts(resize.last().width, resize.last().height) {
                assert(accepts(resize[resize.len() - 1].width, resize[resize.len() - 1].height));
            } else {
                let i = choose|i: int|
                    0 <= i < front.len() && accepts(#[trigger] front[i].width, front[i].height);
                assert(accepts(resize[i].width, resize[i].height));
            }
        } else {
            assert forall|i: int| 0 <= i < resize.len() implies !accepts(
                #[trigger] resize[i].width,
                resize[i].height,
            ) by {
                if i < front.len() {
                    assert(!accepts(front[i].width, front[i].height));
                }
            }
        }
    }
}

/// A run of resizes that can be held in a vector, and of which one at least
/// is accepted, leaves the pair in another generation than it found it: no
/// handle of the old pair names a texture of the new one.
pub proof fn lemma_accepted_resizes_change_generation(
    images: ImagesContent,
    resize: Seq<WindowResized>,
    accepted: int,
    slot: TextureSlot,
    old_slot: TextureSlot,
)
    requires
        resize.len() <= usize::MAX,
        0 <= accepted < resize.len(),
        accepts(resize[accepted].width, resize[accepted].height),
    ensures
        images.resized_all(resize).generation != images.generation,
        images.resized_all(resize).handle(slot) != images.handle(old_slot),
{
    lemma_generation_counts_accepted(images, resize);
    lemma_accepted_count_positive(resize);
}

} // verus!
