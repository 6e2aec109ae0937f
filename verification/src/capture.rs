//! Captured frames: their pixels, their files, and when a capture is over.
use vstd::prelude::*;

use crate::number;
use crate::path;
use crate::sorting;
use crate::text;

verus! {

/// The position of pixel (`x`, `y`) in a frame of 4-byte pixels with `stride` bytes per row.
pub open spec fn pixel_at(stride: nat, x: nat, y: nat) -> int {
    (y * stride + x * 4) as int
}

/// The colour bytes of every pixel lie within the frame.
pub open spec fn frame_fits(frame: Seq<u8>, width: nat, height: nat, stride: nat) -> bool {
    forall|x: nat, y: nat|
        x < width && y < height ==> #[trigger] pixel_at(stride, x, y) + 2 < frame.len()
}

/// Every row of the frame lies within its `len` bytes.
pub open spec fn is_whole(len: nat, width: nat, height: nat, stride: nat) -> bool {
    height > 0 ==> (height - 1) * stride + width * 4 <= len
}

/// The colour bytes of the pixel at `at` are zero.
pub open spec fn black_at(frame: Seq<u8>, at: int) -> bool {
    frame[at] == 0 && frame[at + 1] == 0 && frame[at + 2] == 0
}

/// Every pixel of the frame is black.
pub open spec fn all_black(frame: Seq<u8>, width: nat, height: nat, stride: nat) -> bool {
    forall|x: nat, y: nat|
        x < width && y < height ==> black_at(frame, #[trigger] pixel_at(stride, x, y))
}

/// `rgba` shows the XRGB8888 frame: blue and red change places, and every pixel is opaque.
pub open spec fn shows(
    rgba: Seq<u8>,
    frame: Seq<u8>,
    width: nat,
    height: nat,
    stride: nat,
) -> bool {
    &&& rgba.len() == width * height * 4
    &&& forall|x: nat, y: nat|
        x < width && y < height ==> {
            let src = #[trigger] pixel_at(stride, x, y);
            let dst = pixel_at(width * 4, x, y);
            &&& rgba[dst] == frame[src + 2]
            &&& rgba[dst + 1] == frame[src + 1]
            &&& rgba[dst + 2] == frame[src]
            &&& rgba[dst + 3] == 0xff
        }
}

/// The name of the file that frame `index` is written to.
pub open spec fn frame_name(index: nat) -> Seq<char> {
    "frame-"@ + number::decimal4(index) + ".png"@
}

/// File names that captured frames have.
pub open spec fn is_frame_name(name: Seq<char>) -> bool {
    text::has_prefix(name, "frame-"@) && text::has_suffix(name, ".png"@)
}

proof fn lemma_pixel_bounds(width: nat, height: nat, x: nat, y: nat)
    requires
        x < width,
        y < height,
    ensures
        0 <= pixel_at(width * 4, x, y),
        pixel_at(width * 4, x, y) + 4 <= width * height * 4,
        pixel_at(width * 4, x, y) == (y * width + x) * 4,
        y * width + x < width * height,
{
    assert(y * (width * 4) + x * 4 == (y * width + x) * 4) by (nonlinear_arith);
    assert(y * width + x < width * height) by (nonlinear_arith)
        requires
            x < width,
            y < height,
    ;
    assert((y * width + x) * 4 + 4 <= width * height * 4) by (nonlinear_arith)
        requires
            y * width + x < width * height,
    ;
}

/// Whether every row of the frame lies within its `len` bytes.
pub fn frame_is_whole(len: usize, width: usize, height: usize, stride: usize) -> (yes: bool)
    ensures
        yes == is_whole(len as nat, width as nat, height as nat, stride as nat),
{
    if height == 0 {
        return true;
    }
    let rows: u128 = height as u128 - 1;
    assert(0 <= rows * stride <= 0xffff_ffff_ffff_ffff * 0xffff_ffff_ffff_ffff) by (nonlinear_arith)
        requires
            0 <= rows <= 0xffff_ffff_ffff_ffff,
            0 <= stride <= 0xffff_ffff_ffff_ffff,
    ;
    let row: u128 = width as u128 * 4;
    row <= len as u128 && rows * (stride as u128) <= len as u128 - row
}

/// In a whole frame every row, and so every pixel, can be read.
pub proof fn whole_frames_can_be_read(frame: Seq<u8>, width: nat, height: nat, stride: nat)
    requires
        is_whole(frame.len(), width, height, stride),
    ensures
        frame_fits(frame, width, height, stride),
        forall|y: nat| y < height ==> #[trigger] (y * stride) + width * 4 <= frame.len(),
{
    assert forall|y: nat| y < height implies #[trigger] (y * stride) + width * 4 <= frame.len() by {
        assert(y * stride <= (height - 1) * stride) by (nonlinear_arith)
            requires
                y <= height - 1,
                0 <= stride,
        ;
    }
    assert forall|x: nat, y: nat| x < width && y < height implies #[trigger] pixel_at(stride, x, y)
        + 2 < frame.len() by {
        assert((y * stride) + width * 4 <= frame.len());
    }
}

/// The pixels of an XRGB8888 frame as opaque RGBA.
#[verifier::spinoff_prover]
pub fn xrgb8888_to_rgba(width: usize, height: usize, stride: usize, framebuffer: &[u8]) -> (rgba:
    Vec<u8>)
    requires
        frame_fits(framebuffer@, width as nat, height as nat, stride as nat),
        width * height * 4 <= isize::MAX,
    ensures
        shows(rgba@, framebuffer@, width as nat, height as nat, stride as nat),
{
    assert(width * height <= width * height * 4) by (nonlinear_arith);
    let len: usize = framebuffer.len();
    let mut rgba: Vec<u8> = Vec::new();
    let mut y: usize = 0;
    assert(0 * (width as int) * 4 == 0);
    while y < height
        invariant
            y <= height,
            len == framebuffer@.len(),
            frame_fits(framebuffer@, width as nat, height as nat, stride as nat),
            width * height * 4 <= isize::MAX,
            rgba@.len() == y * width * 4,
            forall|i: nat, j: nat|
                i < width && j < y ==> {
                    let src = #[trigger] pixel_at(stride as nat, i, j);
                    let dst = pixel_at(width as nat * 4, i, j);
                    &&& rgba@[dst] == framebuffer@[src + 2]
                    &&& rgba@[dst + 1] == framebuffer@[src + 1]
                    &&& rgba@[dst + 2] == framebuffer@[src]
                    &&& rgba@[dst + 3] == 0xff
                },
        decreases height - y,
    {
        let mut x: usize = 0;
        while x < width
            invariant
                x <= width,
                y < height,
                len == framebuffer@.len(),
                frame_fits(framebuffer@, width as nat, height as nat, stride as nat),
                width * height * 4 <= isize::MAX,
                rgba@.len() == (y * width + x) * 4,
                forall|i: nat, j: nat|
                    i < width && (j < y || (j == y && i < x)) ==> {
                        let src = #[trigger] pixel_at(stride as nat, i, j);
                        let dst = pixel_at(width as nat * 4, i, j);
                        &&& rgba@[dst] == framebuffer@[src + 2]
                        &&& rgba@[dst + 1] == framebuffer@[src + 1]
                        &&& rgba@[dst + 2] == framebuffer@[src]
                        &&& rgba@[dst + 3] == 0xff
                    },
            decreases width - x,
        {
            let ghost src = pixel_at(stride as nat, x as nat, y as nat);
            assert(src + 2 < framebuffer@.len());
            assert(0 <= y * stride) by (nonlinear_arith);
            let at: usize = y * stride + x * 4;
            let ghost old_rgba = rgba@;
            rgba.push(framebuffer[at + 2]);
            rgba.push(framebuffer[at + 1]);
            rgba.push(framebuffer[at]);
            rgba.push(0xff);
            proof {
                lemma_pixel_bounds(width as nat, height as nat, x as nat, y as nat);
                assert forall|i: nat, j: nat|
                    i < width && (j < y || (j == y && i < x + 1)) implies {
                    let s = #[trigger] pixel_at(stride as nat, i, j);
                    let dst = pixel_at(width as nat * 4, i, j);
                    &&& rgba@[dst] == framebuffer@[s + 2]
                    &&& rgba@[dst + 1] == framebuffer@[s + 1]
                    &&& rgba@[dst + 2] == framebuffer@[s]
                    &&& rgba@[dst + 3] == 0xff
                } by {
                    lemma_pixel_bounds(width as nat, height as nat, i, j);
                    let dst = pixel_at(width as nat * 4, i, j);
                    if j < y || i < x {
                        assert(j * width + i < y * width + x) by (nonlinear_arith)
                            requires
                                j < y || (j == y && i < x),
                                i < width,
                        ;
                        assert(dst + 4 <= old_rgba.len());
                        assert(rgba@[dst] == old_rgba[dst]);
                        assert(rgba@[dst + 1] == old_rgba[dst + 1]);
                        assert(rgba@[dst + 2] == old_rgba[dst + 2]);
                        assert(rgba@[dst + 3] == old_rgba[dst + 3]);
                    } else {
                        assert(i == x && j == y);
                        assert(dst == old_rgba.len());
                    }
                }
            }
            x = x + 1;
        }
        assert((y * width + width) * 4 == (y + 1) * width * 4) by (nonlinear_arith);
        y = y + 1;
    }
    assert(height * width * 4 == width * height * 4) by (nonlinear_arith);
    rgba
}

/// Whether an RGBA picture of 4-byte pixels shows nothing but black.
pub fn rgba_is_all_black(rgba: &[u8]) -> (yes: bool)
    ensures
        yes == (forall|i: int| 0 <= i && i * 4 + 3 < rgba@.len() ==> #[trigger] black_at(rgba@, i * 4)),
{
    let mut i: usize = 0;
    while rgba.len() >= 4 && i <= rgba.len() - 4
        invariant
            i % 4 == 0,
            forall|j: int| 0 <= j && j * 4 < i ==> #[trigger] black_at(rgba@, j * 4),
            i <= rgba@.len(),
        decreases rgba.len() - i,
    {
        if rgba[i] != 0 || rgba[i + 1] != 0 || rgba[i + 2] != 0 {
            assert(!black_at(rgba@, (i / 4) * 4));
            return false;
        }
        if rgba.len() - i < 8 {
            assert forall|j: int| 0 <= j && j * 4 + 3 < rgba@.len() implies #[trigger] black_at(
                rgba@,
                j * 4,
            ) by {
                if j * 4 >= i {
                    assert(j * 4 == i);
                }
            }
            return true;
        }
        i = i + 4;
    }
    true
}

/// The name of the file that frame `index` is written to.
pub fn frame_file_name(index: usize) -> (out: String)
    ensures
        out@ == frame_name(index as nat),
{
    let mut out: String = "frame-".to_owned();
    out.append(number::decimal4_text(index as u64).as_str());
    out.append(".png");
    out
}

/// The path of the file that frame `index` is written to.
pub fn frame_path(output_dir: &str, index: usize) -> (out: String)
    ensures
        out@ == path::join(output_dir@, frame_name(index as nat)),
{
    path::join_path(output_dir, frame_file_name(index).as_str())
}

/// What a captured frame is written as: the path of its file, and its pixels as opaque RGBA.
pub fn write_xrgb8888_png(
    output_dir: &str,
    frame_index: usize,
    width: usize,
    height: usize,
    stride: usize,
    framebuffer: &[u8],
) -> (out: (String, Vec<u8>))
    requires
        frame_fits(framebuffer@, width as nat, height as nat, stride as nat),
        width * height * 4 <= isize::MAX,
    ensures
        out.0@ == path::join(output_dir@, frame_name(frame_index as nat)),
        shows(out.1@, framebuffer@, width as nat, height as nat, stride as nat),
{
    let rgba: Vec<u8> = xrgb8888_to_rgba(width, height, stride, framebuffer);
    (frame_path(output_dir, frame_index), rgba)
}

/// Whether a file of that name is a captured frame.
pub fn is_frame_file(name: &str) -> (yes: bool)
    ensures
        yes == is_frame_name(name@),
{
    text::starts_with(name, "frame-") && text::ends_with(name, ".png")
}

/// Every file that a capture writes has the name of a captured frame.
pub proof fn frame_names_are_recognised(index: nat)
    ensures
        is_frame_name(frame_name(index)),
{
    let name = frame_name(index);
    let digits = number::decimal4(index);
    assert(name.subrange(0, "frame-"@.len() as int) =~= "frame-"@);
    assert(name.subrange(name.len() - ".png"@.len(), name.len() as int) =~= ".png"@);
}

/// A frame is black exactly where the picture made of it is.
pub proof fn black_frames_make_black_pictures(
    rgba: Seq<u8>,
    frame: Seq<u8>,
    width: nat,
    height: nat,
    stride: nat,
)
    requires
        shows(rgba, frame, width, height, stride),
    ensures
        all_black(frame, width, height, stride) <==> (forall|i: int|
            0 <= i && i * 4 + 3 < rgba.len() ==> #[trigger] black_at(rgba, i * 4)),
{
    if all_black(frame, width, height, stride) {
        assert forall|i: int| 0 <= i && i * 4 + 3 < rgba.len() implies #[trigger] black_at(
            rgba,
            i * 4,
        ) by {
            assert(i < width * height);
            assert(width > 0) by (nonlinear_arith)
                requires
                    0 <= i < width * height,
            ;
            let y = (i / width as int) as nat;
            let x = (i % width as int) as nat;
            vstd::arithmetic::div_mod::lemma_fundamental_div_mod(i, width as int);
            vstd::arithmetic::div_mod::lemma_div_pos_is_pos(i, width as int);
            assert(y < height) by (nonlinear_arith)
                requires
                    i == width * y + x,
                    i < width * height,
                    0 <= x,
            ;
            assert(y * width == width * y) by (nonlinear_arith);
            lemma_pixel_bounds(width, height, x, y);
            let src = pixel_at(stride, x, y);
            assert(black_at(frame, src));
        }
    }
    if forall|i: int| 0 <= i && i * 4 + 3 < rgba.len() ==> #[trigger] black_at(rgba, i * 4) {
        assert forall|x: nat, y: nat| x < width && y < height implies black_at(
            frame,
            #[trigger] pixel_at(stride, x, y),
        ) by {
            lemma_pixel_bounds(width, height, x, y);
            let i = (y * width + x) as int;
            assert(black_at(rgba, i * 4));
        }
    }
}

/// What a recorded frame means for the capture it belongs to.
#[derive(Debug, Clone, Copy, PartialEq, Eq, Structural)]
pub enum FrameVerdict {
    /// Go on after a pause.
    Continue,
    /// Enough frames were captured.
    Enough,
    /// Nothing but black was shown for long enough to give up.
    AllBlack,
}

/// A capture under way.
#[derive(Debug, Clone, Copy)]
pub struct CaptureRun {
    /// How many frames to capture at most.
    pub wanted: usize,
    /// How many frames were captured.
    pub taken: usize,
    /// Whether a frame showed anything but black.
    pub saw_picture: bool,
    /// Whether to give up when the first frames are black.
    pub gives_up_on_black: bool,
}

/// How many frames of a capture are enough once one of them shows a picture.
pub open spec fn enough(wanted: nat) -> nat {
    if wanted < 3 {
        wanted
    } else {
        3
    }
}

impl CaptureRun {
    /// The run after one more frame.
    pub open spec fn after(self, black: bool) -> CaptureRun {
        CaptureRun {
            taken: (self.taken + 1) as usize,
            saw_picture: self.saw_picture || !black,
            ..self
        }
    }

    /// What one more frame means.
    pub open spec fn verdict(self, black: bool) -> FrameVerdict {
        if !black {
            if self.taken + 1 >= enough(self.wanted as nat) {
                FrameVerdict::Enough
            } else {
                FrameVerdict::Continue
            }
        } else if self.gives_up_on_black && !self.saw_picture && self.taken + 1 >= enough(
            self.wanted as nat,
        ) {
            FrameVerdict::AllBlack
        } else {
            FrameVerdict::Continue
        }
    }

    /// The capture succeeded: it holds a frame that shows a picture.
    pub open spec fn succeeded(self) -> bool {
        self.taken > 0 && self.saw_picture
    }

    /// A capture of up to `wanted` frames that has not begun.
    pub fn new(wanted: usize, gives_up_on_black: bool) -> (run: CaptureRun)
        ensures
            run == (CaptureRun { wanted, taken: 0, saw_picture: false, gives_up_on_black }),
    {
        CaptureRun { wanted, taken: 0, saw_picture: false, gives_up_on_black }
    }

    /// Whether to capture another frame.
    pub fn wants_more(&self, deadline_passed: bool) -> (yes: bool)
        ensures
            yes == (self.taken < self.wanted && !deadline_passed),
    {
        self.taken < self.wanted && !deadline_passed
    }

    /// Takes note of a captured frame.
    pub fn record(&mut self, black: bool) -> (verdict: FrameVerdict)
        requires
            old(self).taken < old(self).wanted,
        ensures
            *final(self) == old(self).after(black),
            verdict == old(self).verdict(black),
    {
        self.taken = self.taken + 1;
        let limit: usize = if self.wanted < 3 {
            self.wanted
        } else {
            3
        };
        if !black {
            self.saw_picture = true;
            if self.taken >= limit {
                return FrameVerdict::Enough;
            }
        } else if self.gives_up_on_black && !self.saw_picture && self.taken >= limit {
            return FrameVerdict::AllBlack;
        }
        FrameVerdict::Continue
    }

    /// Whether the capture, now over, succeeded.
    pub fn is_success(&self) -> (yes: bool)
        ensures
            yes == self.succeeded(),
    {
        self.taken > 0 && self.saw_picture
    }
}

/// The run after frames of which `blacks` tells which were black.
pub open spec fn run_after(start: CaptureRun, blacks: Seq<bool>) -> CaptureRun
    decreases blacks.len(),
{
    if blacks.len() == 0 {
        start
    } else {
        run_after(start, blacks.drop_last()).after(blacks.last())
    }
}

/// Frames are recorded only while the capture wants more and no frame has ended it.
pub open spec fn runs_through(start: CaptureRun, blacks: Seq<bool>) -> bool
    decreases blacks.len(),
{
    blacks.len() == 0 || {
        let before = run_after(start, blacks.drop_last());
        &&& runs_through(start, blacks.drop_last())
        &&& before.taken < before.wanted
        &&& blacks.len() > 1 ==> run_after(start, blacks.drop_last().drop_last()).verdict(
            blacks[blacks.len() - 2],
        ) == FrameVerdict::Continue
    }
}

/// A capture takes no more frames than it was asked for, and it succeeds exactly where one of
/// its frames showed a picture.
pub proof fn capture_succeeds_on_a_picture(start: CaptureRun, blacks: Seq<bool>)
    requires
        start.taken == 0,
        !start.saw_picture,
        runs_through(start, blacks),
    ensures
        run_after(start, blacks).taken == blacks.len(),
        blacks.len() <= start.wanted,
        run_after(start, blacks).wanted == start.wanted,
        run_after(start, blacks).gives_up_on_black == start.gives_up_on_black,
        run_after(start, blacks).succeeded() <==> (exists|i: int|
            0 <= i < blacks.len() && !#[trigger] blacks[i]),
        run_after(start, blacks).saw_picture <==> (exists|i: int|
            0 <= i < blacks.len() && !#[trigger] blacks[i]),
    decreases blacks.len(),
{
    if blacks.len() > 0 {
        let init = blacks.drop_last();
        capture_succeeds_on_a_picture(start, init);
        if run_after(start, init).saw_picture {
            let i = choose|i: int| 0 <= i < init.len() && !#[trigger] init[i];
            assert(!blacks[i]);
        }
        if !blacks.last() {
            assert(!blacks[blacks.len() - 1]);
        }
        if exists|i: int| 0 <= i < blacks.len() && !#[trigger] blacks[i] {
            let i = choose|i: int| 0 <= i < blacks.len() && !#[trigger] blacks[i];
            if i < init.len() {
                assert(!init[i]);
            }
        }
    }
}

/// A capture that gives up on black does so exactly when its first frames, up to three, were all
/// black; one that does not never ends so.
pub proof fn capture_gives_up_on_black(start: CaptureRun, blacks: Seq<bool>, black: bool)
    requires
        start.taken == 0,
        !start.saw_picture,
        runs_through(start, blacks.push(black)),
    ensures
        run_after(start, blacks).verdict(black) == FrameVerdict::AllBlack <==> {
            &&& start.gives_up_on_black
            &&& blacks.len() + 1 == enough(start.wanted as nat)
            &&& black
            &&& forall|i: int| 0 <= i < blacks.len() ==> #[trigger] blacks[i]
        },
    decreases blacks.len(),
{
    reveal_with_fuel(runs_through, 3);
    assert(blacks.push(black).drop_last() =~= blacks);
    capture_succeeds_on_a_picture(start, blacks);
    if blacks.len() > 0 {
        assert(blacks.drop_last().push(blacks.last()) =~= blacks);
        capture_gives_up_on_black(start, blacks.drop_last(), blacks.last());
        capture_succeeds_on_a_picture(start, blacks.drop_last());
        if run_after(start, blacks).verdict(black) == FrameVerdict::AllBlack {
            assert(blacks[blacks.len() - 1]);
            assert forall|i: int| 0 <= i < blacks.drop_last().len() implies #[trigger]
                blacks.drop_last()[i] by {
                assert(blacks[i]);
            }
        }
    }
}

/// A picture shows every pixel of the frame in its place: red, green and blue are those of the
/// frame, which holds them the other way round, and the pixel is opaque. Pictures have no padding.
pub proof fn pictures_show_every_pixel(
    rgba: Seq<u8>,
    frame: Seq<u8>,
    width: nat,
    height: nat,
    stride: nat,
    x: nat,
    y: nat,
)
    requires
        shows(rgba, frame, width, height, stride),
        x < width,
        y < height,
    ensures
        rgba.len() == width * height * 4,
        rgba[((y * width + x) * 4) as int] == frame[(y * stride + x * 4 + 2) as int],
        rgba[((y * width + x) * 4 + 1) as int] == frame[(y * stride + x * 4 + 1) as int],
        rgba[((y * width + x) * 4 + 2) as int] == frame[(y * stride + x * 4) as int],
        rgba[((y * width + x) * 4 + 3) as int] == 0xff,
{
    lemma_pixel_bounds(width, height, x, y);
    assert(pixel_at(stride, x, y) == y * stride + x * 4);
}

/// Two pictures of one frame are the same.
pub proof fn frames_have_one_picture(
    one: Seq<u8>,
    other: Seq<u8>,
    frame: Seq<u8>,
    width: nat,
    height: nat,
    stride: nat,
)
    requires
        shows(one, frame, width, height, stride),
        shows(other, frame, width, height, stride),
    ensures
        one == other,
{
    assert forall|k: int| 0 <= k < one.len() implies one[k] == other[k] by {
        let i = k / 4;
        let part = k % 4;
        assert(i < width * height);
        assert(width > 0) by (nonlinear_arith)
            requires
                0 <= i < width * height,
        ;
        let y = (i / width as int) as nat;
        let x = (i % width as int) as nat;
        vstd::arithmetic::div_mod::lemma_fundamental_div_mod(i, width as int);
        vstd::arithmetic::div_mod::lemma_div_pos_is_pos(i, width as int);
        assert(y < height) by (nonlinear_arith)
            requires
                i == width * y + x,
                i < width * height,
                0 <= x,
        ;
        assert(y * width == width * y) by (nonlinear_arith);
        pictures_show_every_pixel(one, frame, width, height, stride, x, y);
        pictures_show_every_pixel(other, frame, width, height, stride, x, y);
        assert((y * width + x) * 4 + part == k);
    }
    assert(one =~= other);
}

/// A colour byte of pixel (`x`, `y`) is not zero.
pub open spec fn has_colour(frame: Seq<u8>, stride: nat, x: nat, y: nat) -> bool {
    ||| frame[(y * stride + x * 4) as int] != 0
    ||| frame[(y * stride + x * 4 + 1) as int] != 0
    ||| frame[(y * stride + x * 4 + 2) as int] != 0
}

/// A frame is black exactly where no pixel of it has a colour; what stands between its rows, and
/// the fourth byte of a pixel, make no difference.
pub proof fn black_frames_have_no_colour(frame: Seq<u8>, width: nat, height: nat, stride: nat)
    ensures
        all_black(frame, width, height, stride) <==> (forall|x: nat, y: nat|
            x < width && y < height ==> !#[trigger] has_colour(frame, stride, x, y)),
{
    if all_black(frame, width, height, stride) {
        assert forall|x: nat, y: nat| x < width && y < height implies !#[trigger] has_colour(
            frame,
            stride,
            x,
            y,
        ) by {
            assert(black_at(frame, pixel_at(stride, x, y)));
        }
    }
    if forall|x: nat, y: nat|
        x < width && y < height ==> !#[trigger] has_colour(frame, stride, x, y) {
        assert forall|x: nat, y: nat| x < width && y < height implies black_at(
            frame,
            #[trigger] pixel_at(stride, x, y),
        ) by {
            assert(!has_colour(frame, stride, x, y));
        }
    }
}

/// A frame is whole exactly where its last row ends within it; one that has no rows is.
pub proof fn whole_frames_end_with_their_last_row(len: nat, width: nat, height: nat, stride: nat)
    ensures
        height > 0 ==> (is_whole(len, width, height, stride) <==> len >= (height - 1) * stride + 4
            * width),
        is_whole(len, width, 0, stride),
{
}

/// In a frame that fits, the colours of every pixel can be read.
pub proof fn fitting_frames_hold_every_pixel(
    frame: Seq<u8>,
    width: nat,
    height: nat,
    stride: nat,
    x: nat,
    y: nat,
)
    requires
        frame_fits(frame, width, height, stride),
        x < width,
        y < height,
    ensures
        y * stride + x * 4 + 2 < frame.len(),
{
    assert(pixel_at(stride, x, y) == y * stride + x * 4);
}

/// The file of a frame tells its number: between `frame-` and `.png` stand at least four digits
/// that read back as the number, and exactly four for the first ten thousand.
pub proof fn frame_names_tell_the_number(index: nat, limit: int)
    requires
        index <= limit,
    ensures
        ({
            let name = frame_name(index);
            &&& text::has_prefix(name, "frame-"@)
            &&& text::has_suffix(name, ".png"@)
            &&& name.len() >= 14
            &&& index < 10000 ==> name.len() == 14
            &&& number::unsigned_value(name.subrange(6, name.len() - 4), limit) == Ok::<
                int,
                number::NumberError,
            >(index as int)
        }),
{
    let name = frame_name(index);
    let digits = number::decimal4(index);
    frame_names_are_recognised(index);
    number::padded_decimal_reads_back(index, limit);
    assert("frame-"@.len() == 6) by {
        reveal_strlit("frame-");
    }
    assert(".png"@.len() == 4) by {
        reveal_strlit(".png");
    }
    assert(name.subrange(6, name.len() - 4) =~= digits);
}

/// Different frames have different files.
pub proof fn frames_have_files_of_their_own(one: nat, other: nat)
    requires
        frame_name(one) == frame_name(other),
    ensures
        one == other,
{
    let limit = if one > other {
        one as int
    } else {
        other as int
    };
    frame_names_tell_the_number(one, limit);
    frame_names_tell_the_number(other, limit);
}

/// Any name that begins with `frame-` and ends with `.png` is that of a captured frame, and no
/// other name is.
pub proof fn frame_names_have_both_ends(middle: Seq<char>, name: Seq<char>)
    ensures
        is_frame_name("frame-"@ + middle + ".png"@),
        is_frame_name(name) ==> text::has_prefix(name, "frame-"@) && text::has_suffix(
            name,
            ".png"@,
        ),
{
    text::parts_are_found("frame-"@, middle + ".png"@);
    text::parts_are_found("frame-"@ + middle, ".png"@);
    assert("frame-"@ + middle + ".png"@ =~= "frame-"@ + (middle + ".png"@));
}

/// What a frame means for its capture: a picture ends it once three frames were taken, or as many
/// as are wanted where that is fewer; black frames end it there too, where the capture gives up on
/// them and no picture was seen. Every other frame lets it go on.
pub proof fn frames_end_captures(run: CaptureRun, black: bool)
    requires
        run.taken < run.wanted,
    ensures
        run.verdict(black) == FrameVerdict::Enough <==> !black && (run.taken + 1 >= 3 || run.taken
            + 1 == run.wanted),
        run.verdict(black) == FrameVerdict::AllBlack <==> black && run.gives_up_on_black
            && !run.saw_picture && (run.taken + 1 >= 3 || run.taken + 1 == run.wanted),
{
}

/// A frame is counted, and a picture is remembered; what the capture was told stays as it was.
pub proof fn frames_are_counted(run: CaptureRun, black: bool)
    requires
        run.taken < run.wanted,
    ensures
        run.after(black).taken == run.taken + 1,
        run.after(black).saw_picture <==> run.saw_picture || !black,
        run.after(black).wanted == run.wanted,
        run.after(black).gives_up_on_black == run.gives_up_on_black,
        run.after(black).succeeded() <==> run.saw_picture || !black,
        run.taken == 0 ==> !run.succeeded(),
{
}

proof fn lemma_four_digits(n: nat)
    requires
        n < 10000,
    ensures
        number::decimal4(n) == seq![
            number::digit((n / 1000) as int),
            number::digit((n / 100 % 10) as int),
            number::digit((n / 10 % 10) as int),
            number::digit((n % 10) as int),
        ],
{
    reveal_with_fuel(number::decimal, 5);
    reveal_strlit("000");
    reveal_strlit("00");
    reveal_strlit("0");
    assert(n / 10 / 10 == n / 100);
    assert(n / 10 / 10 / 10 == n / 1000);
    assert(number::digit(0) == '0');
    assert(number::decimal4(n) =~= seq![
        number::digit((n / 1000) as int),
        number::digit((n / 100 % 10) as int),
        number::digit((n / 10 % 10) as int),
        number::digit((n % 10) as int),
    ]);
}

/// The files of the first ten thousand frames are in the order of their numbers when they are in
/// the order of their names.
#[verifier::spinoff_prover]
pub proof fn frame_names_are_in_order(one: nat, other: nat)
    requires
        one < other < 10000,
    ensures
        sorting::text_le(frame_name(one), frame_name(other)),
        !sorting::text_le(frame_name(other), frame_name(one)),
{
    let head = "frame-"@;
    let end = ".png"@;
    let a = number::decimal4(one);
    let b = number::decimal4(other);
    lemma_four_digits(one);
    lemma_four_digits(other);
    let k: int = if one / 1000 != other / 1000 {
        0
    } else if one / 100 % 10 != other / 100 % 10 {
        1
    } else if one / 10 % 10 != other / 10 % 10 {
        2
    } else {
        3
    };
    assert(a[k] < b[k]);
    assert(a.take(k) =~= b.take(k));
    assert(frame_name(one) =~= (head + a.take(k)) + (seq![a[k]] + (a.skip(k + 1) + end)));
    assert(frame_name(other) =~= (head + a.take(k)) + (seq![b[k]] + (b.skip(k + 1) + end)));
    sorting::first_difference_decides(
        head + a.take(k),
        a[k],
        b[k],
        a.skip(k + 1) + end,
        b.skip(k + 1) + end,
    );
}

} // verus!
