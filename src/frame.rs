//! The frame lock: serialises log frames and routes their encoded bytes into the ring buffer.
use vstd::prelude::*;
use critical_section::RestoreState;
use defmt::Encoder;
use crate::ring::{after_write, Controller};
use crate::Fault;

verus! {

#[verifier::external_type_specification]
#[verifier::external_body]
pub struct ExRestoreState(RestoreState);

#[verifier::external_type_specification]
#[verifier::external_body]
pub struct ExEncoder(Encoder);

/// The bytes that an encoder in state `enc` emits to open a frame.
pub uninterp spec fn frame_start(enc: Encoder) -> Seq<u8>;

/// The bytes that an encoder in state `enc` emits for `data` within the open frame.
pub uninterp spec fn encoded(enc: Encoder, data: Seq<u8>) -> Seq<u8>;

/// The bytes that an encoder in state `enc` emits to close the open frame.
pub uninterp spec fn frame_end(enc: Encoder) -> Seq<u8>;

/// Relies on `defmt::Encoder::new`: a fresh encoder with no frame open.
#[verifier::external_body]
fn fresh_encoder() -> (r: Encoder) {
    Encoder::new()
}

/// Relies on `defmt::Encoder::start_frame`: it hands its output, which depends on the
/// encoder's state alone, in zero or more pieces to the closure, which passes each piece to
/// `Controller::write`; those best-effort writes keep what one write of the whole output
/// keeps.
#[verifier::external_body]
fn encode_start(enc: &mut Encoder, out: &mut Controller)
    ensures
        final(out).queue() == after_write(old(out).queue(), frame_start(*old(enc))),
{
    enc.start_frame(|bytes| out.write(bytes))
}

/// Relies on `defmt::Encoder::write`: it hands its output, which depends on the encoder's
/// state and `data` alone, in zero or more pieces to the closure, which passes each piece to
/// `Controller::write`; those best-effort writes keep what one write of the whole output
/// keeps.
#[verifier::external_body]
fn encode_bytes(enc: &mut Encoder, out: &mut Controller, data: &[u8])
    ensures
        final(out).queue() == after_write(old(out).queue(), encoded(*old(enc), data@)),
{
    enc.write(data, |bytes| out.write(bytes))
}

/// Relies on `defmt::Encoder::end_frame`: it hands its output, which depends on the
/// encoder's state alone, in zero or more pieces to the closure, which passes each piece to
/// `Controller::write`; those best-effort writes keep what one write of the whole output
/// keeps.
#[verifier::external_body]
fn encode_end(enc: &mut Encoder, out: &mut Controller)
    ensures
        final(out).queue() == after_write(old(out).queue(), frame_end(*old(enc))),
{
    enc.end_frame(|bytes| out.write(bytes))
}

/// The frame lock of the logger: while it is held, one log frame is being encoded into the
/// ring buffer, and the critical section entered for it is remembered for its release.
pub struct UsbEncoder {
    taken: bool,
    restore: Option<RestoreState>,
    encoder: Encoder,
    controller: Controller,
}

impl UsbEncoder {
    /// The lock is held: a frame is open.
    pub closed spec fn held(&self) -> bool {
        self.taken
    }

    /// The critical-section state saved by the last `acquire`.
    pub closed spec fn saved(&self) -> Option<RestoreState> {
        self.restore
    }

    /// The state of the frame encoder.
    pub closed spec fn enc(&self) -> Encoder {
        self.encoder
    }

    /// The bytes waiting in the ring buffer.
    pub closed spec fn queue(&self) -> Seq<u8> {
        self.controller.queue()
    }

    /// The flag is set exactly while a restore state is kept.
    pub closed spec fn wf(&self) -> bool {
        self.taken <==> self.restore is Some
    }

    /// An idle lock that feeds `controller`.
    pub fn new(controller: Controller) -> (r: Self)
        ensures
            r.wf(),
            !r.held(),
            r.saved() is None,
            r.queue() == controller.queue(),
    {
        UsbEncoder { taken: false, restore: None, encoder: fresh_encoder(), controller }
    }

    /// Whether a frame is open.
    pub fn is_held(&self) -> (r: bool)
        ensures
            r == self.held(),
    {
        self.taken
    }

    /// Takes the lock inside the critical section whose restore state is `restore`, and
    /// opens a log frame. Taking it again before `release` is a reentrancy fault.
    pub fn acquire(&mut self, restore: RestoreState)
        requires
            old(self).wf(),
            !old(self).held(),
        ensures
            final(self).wf(),
            final(self).held(),
            final(self).saved() == Some(restore),
            final(self).queue() == after_write(old(self).queue(), frame_start(old(self).enc())),
    {
        self.taken = true;
        self.restore = Some(restore);
        encode_start(&mut self.encoder, &mut self.controller);
    }

    /// Closes the log frame, clears the lock and hands back the restore state of the
    /// critical section to leave. Releasing a lock that is not held is a fault.
    pub fn release(&mut self) -> (r: RestoreState)
        requires
            old(self).wf(),
            old(self).held(),
        ensures
            final(self).wf(),
            !final(self).held(),
            final(self).saved() is None,
            old(self).saved() == Some(r),
            final(self).queue() == after_write(old(self).queue(), frame_end(old(self).enc())),
    {
        encode_end(&mut self.encoder, &mut self.controller);
        let r = self.restore.unwrap();
        self.taken = false;
        self.restore = None;
        r
    }

    /// `acquire`, checked: taking a lock that is already held is refused with
    /// `Fault::ReentrantAcquire` and changes nothing.
    pub fn try_acquire(&mut self, restore: RestoreState) -> (r: Result<(), Fault>)
        requires
            old(self).wf(),
        ensures
            final(self).wf(),
            old(self).held() ==> r == Err::<(), Fault>(Fault::ReentrantAcquire) && *final(self)
                == *old(self),
            !old(self).held() ==> r is Ok && final(self).held() && final(self).saved() == Some(
                restore,
            ) && final(self).queue() == after_write(
                old(self).queue(),
                frame_start(old(self).enc()),
            ),
    {
        if self.taken {
            return Err(Fault::ReentrantAcquire);
        }
        self.acquire(restore);
        Ok(())
    }

    /// `release`, checked: releasing a lock that is not held is refused with
    /// `Fault::ReleaseWhileIdle` and changes nothing.
    pub fn try_release(&mut self) -> (r: Result<RestoreState, Fault>)
        requires
            old(self).wf(),
        ensures
            final(self).wf(),
            !old(self).held() ==> r == Err::<RestoreState, Fault>(Fault::ReleaseWhileIdle)
                && *final(self) == *old(self),
            old(self).held() ==> r is Ok && !final(self).held() && final(self).saved() is None
                && old(self).saved() == Some(r->Ok_0) && final(self).queue() == after_write(
                old(self).queue(),
                frame_end(old(self).enc()),
            ),
    {
        if !self.taken {
            return Err(Fault::ReleaseWhileIdle);
        }
        Ok(self.release())
    }

    /// Encodes `bytes` into the open frame.
    pub fn write(&mut self, bytes: &[u8])
        requires
            old(self).wf(),
            old(self).held(),
        ensures
            final(self).wf(),
            final(self).held(),
            final(self).saved() == old(self).saved(),
            final(self).queue() == after_write(old(self).queue(), encoded(old(self).enc(), bytes@)),
    {
        encode_bytes(&mut self.encoder, &mut self.controller, bytes);
    }

    /// Does nothing: a caller inside a critical section cannot wait for the transport task
    /// to drain the ring buffer.
    pub fn flush(&self)
        requires
            self.held(),
    {
    }
}

} // verus!
