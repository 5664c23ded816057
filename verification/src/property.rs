//! Typed access to the properties of native audio objects, in the global
//! scope and on the main element: where a property is read, and what the
//! sizes and statuses that the native calls report mean.

use crate::error::{CoreAudioError, BAD_PROPERTY_SIZE_ERROR};
use vstd::prelude::*;

verus! {

/// The scope of properties that belong to an object as a whole.
pub const SCOPE_GLOBAL: u32 = 0x676C_6F62;

/// The main element of an object.
pub const ELEMENT_MAIN: u32 = 0;

/// Where a property of an audio object is found.
#[derive(Clone, Copy, Debug, PartialEq, Eq, Structural)]
pub struct PropertyAddress {
    pub selector: u32,
    pub scope: u32,
    pub element: u32,
}

/// The address of the property `selector` in the global scope, on the main
/// element.
pub open spec fn spec_global_main_address(selector: u32) -> PropertyAddress {
    PropertyAddress { selector, scope: SCOPE_GLOBAL, element: ELEMENT_MAIN }
}

/// What a status that a property call returned means: success for zero, a
/// property-access failure with that status for anything else.
pub open spec fn spec_property_status(status: i32) -> Result<(), CoreAudioError> {
    if status == 0 {
        Ok(())
    } else {
        Err(CoreAudioError::PropertyAccessFailed(status))
    }
}

/// What the answer to a size query means for the read of a scalar of
/// `width` bytes: the address to read at, or the failure. A failed query
/// fails the read with its status. A reported size of zero, or one that
/// differs from `width`, fails it with the status of a bad property size.
pub open spec fn spec_get_global_main_property(
    selector: u32,
    width: u32,
    size_status: i32,
    size: u32,
) -> Result<PropertyAddress, CoreAudioError> {
    if size_status != 0 {
        Err(CoreAudioError::PropertyAccessFailed(size_status))
    } else if size == 0 || size != width {
        Err(CoreAudioError::PropertyAccessFailed(BAD_PROPERTY_SIZE_ERROR))
    } else {
        Ok(spec_global_main_address(selector))
    }
}

/// How many values of `width` bytes a property of `size` bytes holds, if it
/// holds a whole number of them and at least one.
pub open spec fn spec_property_count(width: u32, size: u32) -> Option<u32> {
    if width == 0 || size == 0 || size % width != 0 {
        None
    } else {
        Some(size / width)
    }
}

/// What the answer to a size query means for the read of an array of values
/// of `width` bytes each: the address to read at and the number of values,
/// or the failure.
pub open spec fn spec_get_global_main_property_array(
    selector: u32,
    width: u32,
    size_status: i32,
    size: u32,
) -> Result<(PropertyAddress, u32), CoreAudioError> {
    if size_status != 0 {
        Err(CoreAudioError::PropertyAccessFailed(size_status))
    } else {
        match spec_property_count(width, size) {
            Some(count) => Ok((spec_global_main_address(selector), count)),
            None => Err(CoreAudioError::PropertyAccessFailed(BAD_PROPERTY_SIZE_ERROR)),
        }
    }
}

/// Builds the address of the property `selector` in the global scope, on the
/// main element.
pub fn global_main_address(selector: u32) -> (address: PropertyAddress)
    ensures
        address == spec_global_main_address(selector),
{
    PropertyAddress { selector, scope: SCOPE_GLOBAL, element: ELEMENT_MAIN }
}

/// Judges the status that a read or a write of a property returned.
pub fn property_status(status: i32) -> (r: Result<(), CoreAudioError>)
    ensures
        r == spec_property_status(status),
{
    if status == 0 {
        Ok(())
    } else {
        Err(CoreAudioError::PropertyAccessFailed(status))
    }
}

/// Prepares the read of the scalar property `selector`, which is `width`
/// bytes wide, from the answer to the size query: `size_status` is the status
/// of that query and `size` the size it reported. Returns the address to read
/// `width` bytes at.
pub fn get_global_main_property(selector: u32, width: u32, size_status: i32, size: u32) -> (r:
    Result<PropertyAddress, CoreAudioError>)
    ensures
        r == spec_get_global_main_property(selector, width, size_status, size),
{
    if size_status != 0 {
        Err(CoreAudioError::PropertyAccessFailed(size_status))
    } else if size == 0 || size != width {
        Err(CoreAudioError::PropertyAccessFailed(BAD_PROPERTY_SIZE_ERROR))
    } else {
        Ok(global_main_address(selector))
    }
}

/// Prepares the read of the array property `selector`, whose values are
/// `width` bytes wide, from the answer to the size query. Returns the address
/// to read at and the number of values to read.
pub fn get_global_main_property_array(
    selector: u32,
    width: u32,
    size_status: i32,
    size: u32,
) -> (r: Result<(PropertyAddress, u32), CoreAudioError>)
    ensures
        r == spec_get_global_main_property_array(selector, width, size_status, size),
{
    if size_status != 0 {
        Err(CoreAudioError::PropertyAccessFailed(size_status))
    } else if width == 0 || size == 0 || size % width != 0 {
        Err(CoreAudioError::PropertyAccessFailed(BAD_PROPERTY_SIZE_ERROR))
    } else {
        Ok((global_main_address(selector), size / width))
    }
}

} // verus!
