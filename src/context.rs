//! The native library context, from which devices are opened.

use crate::device::Device;
use crate::error::{NfcError, NfcResult, error_model};
use vstd::prelude::*;

verus! {

/// Message of the error reported when the native layer opens no device.
pub const OPEN_FAILED: &'static str = "Unable to open device, check STDERR for details!";

/// Owns one live native context handle.
pub struct Context {
    raw_context: usize,
}

impl Context {
    #[verifier::type_invariant]
    spec fn inv(self) -> bool {
        self.raw_context != 0
    }

    /// The native handle owned.
    pub closed spec fn handle(self) -> usize {
        self.raw_context
    }

    /// Takes ownership of the handle that the native initialisation produced.
    /// A null handle is an unrecoverable allocation failure and is not
    /// accepted.
    pub fn new(raw_context: usize) -> (r: Context)
        requires
            raw_context != 0,
        ensures
            r.handle() == raw_context,
    {
        Context { raw_context }
    }

    /// The native handle owned; never null.
    pub fn raw_context(&self) -> (r: usize)
        ensures
            r == self.handle(),
            r != 0,
    {
        proof {
            use_type_invariant(self);
        }
        self.raw_context
    }

    /// Takes the handle that the native open call returned for this context:
    /// a null handle means the device could not be opened.
    pub fn device_opened(&mut self, raw_device: usize) -> (r: NfcResult<Device<'_>>)
        ensures
            *final(self) == *old(self),
            raw_device == 0 <==> r is Err,
            r matches Err(e) ==> error_model(e) == Err::<crate::error::ErrorKind, Seq<char>>(
                OPEN_FAILED@,
            ),
            r matches Ok(d) ==> d.handle() == raw_device,
    {
        if raw_device == 0 {
            Err(NfcError::new(OPEN_FAILED))
        } else {
            Ok(Device::new(raw_device))
        }
    }

    /// Gives up the context, returning the handle to release; consuming the
    /// context is what makes the release happen once.
    pub fn close(self) -> (r: usize)
        ensures
            r == self.handle(),
            r != 0,
    {
        proof {
            use_type_invariant(&self);
        }
        self.raw_context
    }
}

} // verus!
