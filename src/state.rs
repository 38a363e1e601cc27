use vstd::prelude::*;
use vstd::rwlock::RwLock;

use crate::runner::{HEIGHT, WIDTH};
use crate::status::EmuStatus;

verus! {

/// Bytes per pixel of a rendered frame (red, green, blue, alpha).
pub const BYTES_PER_PIXEL: usize = 4;

/// Length of a rendered frame in bytes.
pub const FRAME_LEN: usize = WIDTH * HEIGHT * BYTES_PER_PIXEL;

/// Width of the video-memory tile view in pixels.
pub const VRAM_WIDTH: usize = 128;

/// Height of the video-memory tile view in pixels.
pub const VRAM_HEIGHT: usize = 192;

/// Length of the video-memory tile view in bytes (red, green, blue).
pub const VRAM_LEN: usize = VRAM_WIDTH * VRAM_HEIGHT * 3;

/// The latest rendered frame and whether the observer has yet to take it.
pub struct SharedFrame {
    buf: Vec<u8>,
    pending: bool,
}

/// A shared frame as a value.
pub struct FrameView {
    pub bytes: Seq<u8>,
    pub pending: bool,
}

impl View for SharedFrame {
    type V = FrameView;

    closed spec fn view(&self) -> FrameView {
        FrameView { bytes: self.buf@, pending: self.pending }
    }
}

fn copy_bytes(src: &Vec<u8>) -> (r: Vec<u8>)
    ensures
        r@ == src@,
{
    let mut r: Vec<u8> = Vec::with_capacity(src.len());
    let mut i: usize = 0;
    while i < src.len()
        invariant
            i <= src@.len(),
            r@ == src@.take(i as int),
        decreases src.len() - i,
    {
        r.push(src[i]);
        i += 1;
        assert(r@ =~= src@.take(i as int));
    }
    assert(src@.take(i as int) =~= src@);
    r
}

impl SharedFrame {
    /// The buffer always holds exactly one frame.
    #[verifier::type_invariant]
    spec fn inv(&self) -> bool {
        self.buf@.len() == FRAME_LEN
    }

    /// A black frame that nobody has to take.
    pub fn new() -> (r: SharedFrame)
        ensures
            r@.bytes == Seq::new(FRAME_LEN as nat, |i: int| 0u8),
            !r@.pending,
    {
        let mut buf: Vec<u8> = Vec::with_capacity(FRAME_LEN);
        let mut i: usize = 0;
        while i < FRAME_LEN
            invariant
                i <= FRAME_LEN,
                buf@ == Seq::new(i as nat, |j: int| 0u8),
            decreases FRAME_LEN - i,
        {
            buf.push(0);
            i += 1;
            assert(buf@ =~= Seq::new(i as nat, |j: int| 0u8));
        }
        SharedFrame { buf, pending: false }
    }

    /// Length of the buffer, which is always one frame.
    pub fn len(&self) -> (r: usize)
        ensures
            r == self@.bytes.len(),
            r == FRAME_LEN,
    {
        proof {
            use_type_invariant(self);
        }
        self.buf.len()
    }

    /// Whether a published frame waits for the observer.
    pub fn is_pending(&self) -> (r: bool)
        ensures
            r == self@.pending,
    {
        self.pending
    }

    /// The bytes of the latest frame.
    pub fn bytes(&self) -> (r: &Vec<u8>)
        ensures
            r@ == self@.bytes,
            r@.len() == FRAME_LEN,
    {
        proof {
            use_type_invariant(self);
        }
        &self.buf
    }

    /// Replaces the frame wholesale with a freshly rendered one and marks it
    /// for the observer.
    pub fn publish(&mut self, frame: &Vec<u8>)
        requires
            frame@.len() == FRAME_LEN,
        ensures
            final(self)@.bytes == frame@,
            final(self)@.pending,
    {
        self.buf = copy_bytes(frame);
        self.pending = true;
    }

    /// The observer takes a waiting frame: it gets the frame and nothing is
    /// pending any more. With nothing waiting it gets nothing.
    pub fn consume(&mut self) -> (r: Option<Vec<u8>>)
        ensures
            final(self)@.bytes == old(self)@.bytes,
            !final(self)@.pending,
            old(self)@.pending ==> r.is_some() && r.unwrap()@ == old(self)@.bytes,
            !old(self)@.pending ==> r.is_none(),
    {
        proof {
            use_type_invariant(&*self);
        }
        if self.pending {
            self.pending = false;
            Some(copy_bytes(&self.buf))
        } else {
            None
        }
    }
}

/// Holds for every value of a cell.
pub open spec fn any_value<V>() -> spec_fn(V) -> bool {
    |v: V| true
}

/// Holds for a video-memory view of the right size.
pub open spec fn vram_sized() -> spec_fn(Vec<u8>) -> bool {
    |v: Vec<u8>| v@.len() == VRAM_LEN
}

/// The state that the runner publishes and the observer reads: each cell
/// has a lock of its own, so that reading one never waits on another.
pub struct InnerEmuState {
    fb: RwLock<SharedFrame, spec_fn(SharedFrame) -> bool>,
    vram: RwLock<Vec<u8>, spec_fn(Vec<u8>) -> bool>,
    status: RwLock<EmuStatus, spec_fn(EmuStatus) -> bool>,
}

impl InnerEmuState {
    #[verifier::type_invariant]
    spec fn inv(&self) -> bool {
        &&& self.fb.pred() == any_value::<SharedFrame>()
        &&& self.vram.pred() == vram_sized()
        &&& self.status.pred() == any_value::<EmuStatus>()
    }

    /// A fresh session: a black frame that is not pending, a black
    /// video-memory view and the status `Fresh`.
    pub fn new() -> (r: InnerEmuState) {
        let mut vram: Vec<u8> = Vec::with_capacity(VRAM_LEN);
        let mut i: usize = 0;
        while i < VRAM_LEN
            invariant
                i <= VRAM_LEN,
                vram@.len() == i,
            decreases VRAM_LEN - i,
        {
            vram.push(0);
            i += 1;
        }
        InnerEmuState {
            fb: RwLock::new(SharedFrame::new(), Ghost(any_value::<SharedFrame>())),
            vram: RwLock::new(vram, Ghost(vram_sized())),
            status: RwLock::new(EmuStatus::Fresh, Ghost(any_value::<EmuStatus>())),
        }
    }

    /// Publishes a rendered frame for the observer; a buffer that is not
    /// one frame long is refused and the cell keeps its frame.
    pub fn publish_frame(&self, frame: &Vec<u8>) -> (r: bool)
        ensures
            r == (frame@.len() == FRAME_LEN),
    {
        proof {
            use_type_invariant(self);
        }
        if frame.len() != FRAME_LEN {
            return false;
        }
        let (mut f, handle) = self.fb.acquire_write();
        f.publish(frame);
        handle.release_write(f);
        true
    }

    /// Takes the waiting frame, if any; a frame taken always has the length
    /// of one frame.
    pub fn take_frame(&self) -> (r: Option<Vec<u8>>)
        ensures
            r.is_some() ==> r.unwrap()@.len() == FRAME_LEN,
    {
        proof {
            use_type_invariant(self);
        }
        let (mut f, handle) = self.fb.acquire_write();
        let _ = f.len();
        let r = f.consume();
        handle.release_write(f);
        r
    }

    /// Whether a frame waits for the observer.
    pub fn frame_pending(&self) -> bool {
        let handle = self.fb.acquire_read();
        let r = handle.borrow().is_pending();
        handle.release_read();
        r
    }

    /// Replaces the video-memory view; a view of another size is refused.
    pub fn set_vram(&self, view: Vec<u8>) -> (r: bool)
        ensures
            r == (view@.len() == VRAM_LEN),
    {
        proof {
            use_type_invariant(self);
        }
        if view.len() != VRAM_LEN {
            return false;
        }
        let (_, handle) = self.vram.acquire_write();
        handle.release_write(view);
        true
    }

    /// A copy of the video-memory view, which always has its full size.
    pub fn vram(&self) -> (r: Vec<u8>)
        ensures
            r@.len() == VRAM_LEN,
    {
        proof {
            use_type_invariant(self);
        }
        let handle = self.vram.acquire_read();
        let r = copy_bytes(handle.borrow());
        handle.release_read();
        r
    }

    /// Hands a new status to the observer.
    pub fn set_status(&self, s: EmuStatus) {
        proof {
            use_type_invariant(self);
        }
        let (_, handle) = self.status.acquire_write();
        handle.release_write(s);
    }

    /// The status last handed to the observer.
    pub fn status(&self) -> EmuStatus {
        let handle = self.status.acquire_read();
        let r = *handle.borrow();
        handle.release_read();
        r
    }
}

impl Default for InnerEmuState {
    fn default() -> (r: Self) {
        InnerEmuState::new()
    }
}

} // verus!
