//! What a VM hands to its vCPUs: the device model's memory-mapped I/O.

use vstd::prelude::*;

verus! {

/// A failure that the device model behind a VM reports.
#[derive(Debug, Copy, Clone, PartialEq, Eq, Structural)]
pub enum HypervisorVmError {
    /// A device did not take a memory-mapped read.
    MmioRead,
    /// A device did not take a memory-mapped write.
    MmioWrite,
}

/// The error of `res`, if it is one.
pub open spec fn failure(res: Result<(), HypervisorVmError>) -> Option<HypervisorVmError> {
    match res {
        Ok(_) => None,
        Err(e) => Some(e),
    }
}

/// The memory-mapped I/O of a VM, supplied by the device model.
///
/// Nothing is known of what a device answers. The two `outcome` predicates
/// only give the answers a name, so that a caller's contract can say which
/// call an answer came from. An implementation may leave them as they are:
/// it then owes no proof but that a read leaves the buffer's length alone,
/// which holds of every slice.
pub trait VmOps {
    /// Whether a read at `gpa` into a buffer holding `before` can leave
    /// `after` in it and fail with `error`, or succeed if that is `None`.
    open spec fn mmio_read_outcome(
        &self,
        gpa: u64,
        before: Seq<u8>,
        after: Seq<u8>,
        error: Option<HypervisorVmError>,
    ) -> bool {
        true
    }

    /// Whether a write of `data` at `gpa` can fail with `error`, or succeed
    /// if that is `None`.
    open spec fn mmio_write_outcome(
        &self,
        gpa: u64,
        data: Seq<u8>,
        error: Option<HypervisorVmError>,
    ) -> bool {
        true
    }

    /// Reads `data.len()` bytes from the device at guest physical address
    /// `gpa` into `data`.
    fn mmio_read(&self, gpa: u64, data: &mut [u8]) -> (res: Result<(), HypervisorVmError>)
        ensures
            final(data)@.len() == old(data)@.len(),
            self.mmio_read_outcome(gpa, old(data)@, final(data)@, failure(res)),
    ;

    /// Writes `data` to the device at guest physical address `gpa`.
    fn mmio_write(&self, gpa: u64, data: &[u8]) -> (res: Result<(), HypervisorVmError>)
        ensures
            self.mmio_write_outcome(gpa, data@, failure(res)),
    ;
}

} // verus!
