use vstd::prelude::*;
use crate::error::{code_failed, Error};
use crate::format::OutputMode;

verus! {

/// The highest channel index that the DSP has.
pub const MAX_CHANNEL: u8 = 23;

/// A handle on the initialised DSP service, with the output mode that was
/// last configured through it.
#[non_exhaustive]
pub struct Ndsp {
    output_mode: OutputMode,
}

/// Whether the DSP service is owned by a live handle. The process keeps one
/// such record: the service is a single resource, and at most one `Ndsp` may
/// be live at a time.
pub struct DspOwnership {
    live: bool,
}

impl DspOwnership {
    /// Whether a handle on the service is live.
    pub closed spec fn is_live(&self) -> bool {
        self.live
    }

    /// The record of a process in which the service was never brought up.
    pub fn new() -> (r: DspOwnership)
        ensures
            !r.is_live(),
    {
        DspOwnership { live: false }
    }

    /// Whether a handle on the service is live.
    pub fn live(&self) -> (r: bool)
        ensures
            r == self.is_live(),
    {
        self.live
    }

    /// Asks leave to call the service's init: granted exactly when no
    /// handle is live, refused with `Error::AlreadyInitialized` otherwise.
    pub fn begin_init(&self) -> (r: Result<(), Error>)
        ensures
            r is Ok <==> !self.is_live(),
            r is Err ==> r == Err::<(), Error>(Error::AlreadyInitialized),
    {
        if self.live {
            return Err(Error::AlreadyInitialized);
        }
        Ok(())
    }

    /// Records that the live handle was dropped and the service shut down;
    /// it may be initialised again.
    pub fn release(&mut self)
        ensures
            !final(self).is_live(),
    {
        self.live = false;
    }
}

/// One of the DSP's playback channels. It is only an index: the service keeps
/// all of a channel's state and serialises access to it, so any number of
/// `Channel` values may name the same index.
pub struct Channel {
    id: i32,
}

impl Channel {
    /// The channel's index.
    pub closed spec fn index(&self) -> int {
        self.id as int
    }

    /// A channel always names one of the hardware's lanes.
    pub closed spec fn wf(&self) -> bool {
        0 <= self.id <= MAX_CHANNEL
    }

    /// The index that the service's channel calls take.
    pub fn id(&self) -> (r: i32)
        ensures
            r as int == self.index(),
    {
        self.id
    }
}

impl Ndsp {
    /// The output mode that the handle was last configured with.
    pub closed spec fn mode(&self) -> OutputMode {
        self.output_mode
    }

    /// Completes initialisation through the process's ownership record. While
    /// a handle is live this fails with `Error::AlreadyInitialized` and changes
    /// nothing, whatever `status` holds; the service must then not be
    /// initialised again. Otherwise `status` is the result code of the
    /// service's init call: a handle on success, after which the service is
    /// owned, and `Error::Init` with the code on failure. A fresh service
    /// outputs in stereo.
    pub fn init(owner: &mut DspOwnership, status: i32) -> (r: Result<Ndsp, Error>)
        ensures
            old(owner).is_live() ==> r == Err::<Ndsp, Error>(Error::AlreadyInitialized)
                && *final(owner) == *old(owner),
            !old(owner).is_live() ==> {
                &&& code_failed(status) <==> r is Err
                &&& code_failed(status) ==> r == Err::<Ndsp, Error>(Error::Init(status))
                    && *final(owner) == *old(owner)
                &&& r is Ok ==> final(owner).is_live()
            },
            r matches Ok(n) ==> n.mode() == OutputMode::Stereo,
    {
        if owner.live {
            return Err(Error::AlreadyInitialized);
        }
        if status < 0 {
            return Err(Error::Init(status));
        }
        owner.live = true;
        Ok(Ndsp { output_mode: OutputMode::Stereo })
    }

    /// The channel with index `id`, or `Error::InvalidChannel` with that
    /// index when it is not in `0..=23`.
    pub fn channel(&self, id: u8) -> (r: Result<Channel, Error>)
        ensures
            id <= MAX_CHANNEL <==> r is Ok,
            r matches Ok(c) ==> c.index() == id as int && c.wf(),
            id > MAX_CHANNEL ==> r == Err::<Channel, Error>(Error::InvalidChannel(id as i32)),
    {
        if id > MAX_CHANNEL {
            return Err(Error::InvalidChannel(id as i32));
        }
        Ok(Channel { id: id as i32 })
    }

    /// Records the output mode that the service was switched to.
    pub fn set_output_mode(&mut self, mode: OutputMode)
        ensures
            final(self).mode() == mode,
    {
        self.output_mode = mode;
    }

    /// The output mode that the service was last switched to.
    pub fn output_mode(&self) -> (r: OutputMode)
        ensures
            r == self.mode(),
    {
        self.output_mode
    }
}

} // verus!

