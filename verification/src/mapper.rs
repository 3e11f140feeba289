//! The decisions of the mapping sequence: opening the memory device and
//! mapping the register page are each summed up by a plain outcome, and
//! these functions turn the outcomes into either the data the next step
//! needs or the error that ends the program.

use vstd::prelude::*;

verus! {

/// Why the register page could not be mapped, carrying the platform's
/// error code.
#[derive(Clone, Copy, Debug, PartialEq, Eq, Structural)]
pub enum MapError {
    /// The memory device could not be opened (missing node or no permission).
    DeviceOpenFailed(i32),
    /// The device opened, but the kernel refused the mapping.
    MappingFailed(i32),
}

/// Everything the mapping call needs once the device is open: the open
/// device's descriptor, the physical base address of the register page,
/// and the length to map.
#[derive(Clone, Copy, Debug, PartialEq, Eq, Structural)]
pub struct MapRequest {
    pub fd: i32,
    pub physical_base: u64,
    pub length: usize,
}

/// Decide the mapping sequence's first step from the outcome of opening
/// the memory device. A failed open is fatal: it becomes `DeviceOpenFailed`
/// with the device's error code, and no mapping request exists, so the
/// mapping step cannot be attempted. A successful open yields exactly the
/// request that the mapping call is to be made with.
pub fn map_registers(physical_base: u64, length: usize, open_result: Result<i32, i32>) -> (r:
    Result<MapRequest, MapError>)
    ensures
        open_result matches Ok(fd) ==> r == Ok::<MapRequest, MapError>(
            MapRequest { fd, physical_base, length },
        ),
        open_result matches Err(code) ==> r == Err::<MapRequest, MapError>(
            MapError::DeviceOpenFailed(code),
        ),
{
    match open_result {
        Ok(fd) => Ok(MapRequest { fd, physical_base, length }),
        Err(code) => Err(MapError::DeviceOpenFailed(code)),
    }
}

/// Interpret the outcome of the mapping call itself: a mapped base address
/// passes through unchanged; a refusal by the kernel becomes
/// `MappingFailed` with the kernel's error code.
pub fn complete_mapping(map_result: Result<u64, i32>) -> (r: Result<u64, MapError>)
    ensures
        map_result matches Ok(base) ==> r == Ok::<u64, MapError>(base),
        map_result matches Err(code) ==> r == Err::<u64, MapError>(MapError::MappingFailed(code)),
{
    match map_result {
        Ok(base) => Ok(base),
        Err(code) => Err(MapError::MappingFailed(code)),
    }
}

} // verus!
