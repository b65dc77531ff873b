//! Devices and the initiator roles they are promoted into.
//!
//! Each value owns one native device handle. Promotion consumes a device and
//! moves its handle into the new role; a refused promotion hands the device
//! back untouched. Closing consumes the owner and yields the handle to
//! release, so each handle is released once.

use crate::error::{NfcError, NfcResult, status_error};
use crate::target::Target;
use core::marker::PhantomData;
use vstd::prelude::*;

verus! {

/// An opened reader; it cannot outlive the context it was opened from.
pub struct Device<'context> {
    raw_device: usize,
    context: PhantomData<&'context ()>,
}

impl<'context> Device<'context> {
    #[verifier::type_invariant]
    spec fn inv(self) -> bool {
        self.raw_device != 0
    }

    /// The native handle owned.
    pub closed spec fn handle(self) -> usize {
        self.raw_device
    }

    pub(crate) fn new(raw_device: usize) -> (r: Device<'context>)
        requires
            raw_device != 0,
        ensures
            r.handle() == raw_device,
    {
        Device { raw_device, context: PhantomData }
    }

    /// The native handle owned; never null.
    pub fn raw_device(&self) -> (r: usize)
        ensures
            r == self.handle(),
            r != 0,
    {
        proof {
            use_type_invariant(self);
        }
        self.raw_device
    }

    /// Promotes the device to an initiator, given the status of the native
    /// initiator initialisation. On success the handle moves to the
    /// initiator; otherwise the device comes back unchanged with the error.
    pub fn into_initiator(self, status: i32) -> (r: Result<
        Initiator<'context>,
        (Device<'context>, NfcError),
    >)
        ensures
            status == 0 <==> r is Ok,
            r matches Ok(i) ==> i.handle() == self.handle(),
            r matches Err(e) ==> e.0 == self && e.1 == status_error(status),
    {
        if status != 0 {
            Err((self, NfcError::from_status(status)))
        } else {
            Ok(Initiator { device: self })
        }
    }

    /// Promotes the device to a secure-element initiator, given the status
    /// of the native secure initialisation; as `into_initiator` otherwise.
    pub fn into_secure_initiator(self, status: i32) -> (r: Result<
        SecureInitiator<'context>,
        (Device<'context>, NfcError),
    >)
        ensures
            status == 0 <==> r is Ok,
            r matches Ok(s) ==> s.handle() == self.handle(),
            r matches Err(e) ==> e.0 == self && e.1 == status_error(status),
    {
        if status != 0 {
            Err((self, NfcError::from_status(status)))
        } else {
            Ok(SecureInitiator(Initiator { device: self }))
        }
    }

    /// Gives up the device, returning the handle to release.
    pub fn close(self) -> (r: usize)
        ensures
            r == self.handle(),
            r != 0,
    {
        proof {
            use_type_invariant(&self);
        }
        self.raw_device
    }
}

/// A device in the initiator role.
pub struct Initiator<'context> {
    device: Device<'context>,
}

impl<'context> Initiator<'context> {
    /// The native handle owned.
    pub closed spec fn handle(self) -> usize {
        self.device.handle()
    }

    /// The device underneath, for its property settings.
    pub fn device(&self) -> (r: &Device<'context>)
        ensures
            r.handle() == self.handle(),
    {
        &self.device
    }

    /// The native handle owned; never null.
    pub fn raw_device(&self) -> (r: usize)
        ensures
            r == self.handle(),
            r != 0,
    {
        self.device.raw_device()
    }

    /// Gives up the initiator, returning the handle to release.
    pub fn close(self) -> (r: usize)
        ensures
            r == self.handle(),
            r != 0,
    {
        self.device.close()
    }
}

/// An initiator working through a secure element; it offers everything an
/// initiator does.
pub struct SecureInitiator<'context>(Initiator<'context>);

impl<'context> SecureInitiator<'context> {
    /// The native handle owned.
    pub closed spec fn handle(self) -> usize {
        self.0.handle()
    }

    /// The initiator underneath.
    pub fn initiator(&self) -> (r: &Initiator<'context>)
        ensures
            r.handle() == self.handle(),
    {
        &self.0
    }

    /// The native handle owned; never null.
    pub fn raw_device(&self) -> (r: usize)
        ensures
            r == self.handle(),
            r != 0,
    {
        self.0.raw_device()
    }

    /// Gives up the secure initiator, returning the handle to release.
    pub fn close(self) -> (r: usize)
        ensures
            r == self.handle(),
            r != 0,
    {
        self.0.close()
    }
}

/// How many times to poll.
#[derive(Debug, Clone, Copy, PartialEq, Eq, Structural)]
pub enum PollType {
    Limited(u8),
    Forever,
}

/// The poll count that the native layer reads as "poll forever".
pub const POLL_FOREVER: u8 = 0xFF;

impl PollType {
    /// The poll count handed to the native layer.
    pub open spec fn spec_poll_number(self) -> u8 {
        match self {
            PollType::Limited(n) => n,
            PollType::Forever => POLL_FOREVER,
        }
    }

    /// The poll count handed to the native layer.
    pub fn poll_number(&self) -> (r: u8)
        ensures
            r == self.spec_poll_number(),
    {
        match self {
            PollType::Limited(n) => *n,
            PollType::Forever => POLL_FOREVER,
        }
    }
}

/// A target found, with the count the native layer reported.
#[derive(Debug, Clone, Copy)]
pub struct TargetAndCount {
    pub count: i32,
    pub target: Target,
}

/// Whether a search found a target.
#[derive(Debug, Clone, Copy)]
pub enum TargetResultEnum {
    Empty,
    Found(TargetAndCount),
}

impl From<TargetAndCount> for Target {
    fn from(found: TargetAndCount) -> (r: Target) {
        found.target
    }
}

impl vstd::std_specs::convert::FromSpecImpl<TargetAndCount> for Target {
    open spec fn obeys_from_spec() -> bool {
        true
    }

    open spec fn from_spec(found: TargetAndCount) -> Target {
        found.target
    }
}

} // verus!
