//! Plain-data mirrors of a few Vulkan values: version numbers and the
//! property records returned by instance enumeration.

#![allow(non_snake_case)]

use vstd::prelude::*;

use crate::util::{decimal_chars, decimal_string};
use vstd::string::StringExecFns;
use vstd::utf8::{decode_utf8, valid_utf8};

verus! {

/// Maximum size of an extension name.
pub const VK_MAX_EXTENSION_NAME_SIZE: usize = 256;

/// Maximum size of an extension description.
pub const VK_MAX_DESCRIPTION_SIZE: usize = 256;

/// Provides simple access to a vulkan version value.
///
/// This isn't an official Vulkan type, it's just a Rusty helper type.
#[derive(Clone, Copy, Debug, PartialEq, Eq, Structural, PartialOrd, Ord, Hash)]
pub struct VulkanVersion(pub u32);

/// The major number packed into a version value: its top ten bits.
pub open spec fn spec_major(v: VulkanVersion) -> u32 {
    v.0 >> 22
}

/// The minor number packed into a version value: ten bits from bit 12.
pub open spec fn spec_minor(v: VulkanVersion) -> u32 {
    (v.0 >> 12) & 0x3ff
}

/// The patch number packed into a version value: its low twelve bits.
pub open spec fn spec_patch(v: VulkanVersion) -> u32 {
    v.0 & 0xfff
}

impl VulkanVersion {
    pub fn major(self) -> (r: u32)
        ensures
            r == spec_major(self),
    {
        self.0 >> 22
    }

    pub fn minor(self) -> (r: u32)
        ensures
            r == spec_minor(self),
    {
        (self.0 >> 12) & 0x3ff
    }

    pub fn patch(self) -> (r: u32)
        ensures
            r == spec_patch(self),
    {
        self.0 & 0xfff
    }

    /// Packs the three numbers into one version value: the major number
    /// at bit 22, the minor number at bit 12, and the patch number in the
    /// low twelve bits.  Numbers within those widths come back out of the
    /// three accessors unchanged.
    pub fn make(major: u32, minor: u32, patch: u32) -> (r: Self)
        ensures
            r.0 == (major << 22) | (minor << 12) | patch,
            major < 1024 && minor < 1024 && patch < 4096 ==> spec_major(r) == major
                && spec_minor(r) == minor && spec_patch(r) == patch,
    {
        let packed = (major << 22) | (minor << 12) | patch;
        proof {
            assert(major < 1024 && minor < 1024 && patch < 4096 ==> (packed >> 22 == major && (
            packed >> 12) & 0x3ff == minor && packed & 0xfff == patch)) by (bit_vector)
                requires
                    packed == (major << 22) | (minor << 12) | patch,
            ;
        }
        Self(packed)
    }
}

impl Default for VulkanVersion {
    fn default() -> (r: Self)
        ensures
            r.0 == 0,
    {
        VulkanVersion(0)
    }
}

/// The text that shows a version value, naming its three numbers.
pub open spec fn spec_version_text(v: VulkanVersion) -> Seq<char> {
    "VulkanVersion { major: "@ + decimal_chars(spec_major(v) as nat) + ", minor: "@
        + decimal_chars(spec_minor(v) as nat) + ", patch: "@ + decimal_chars(
        spec_patch(v) as nat,
    ) + " }"@
}

impl VulkanVersion {
    /// Writes the version out as text, naming its three numbers.
    pub fn describe(&self) -> (r: String)
        ensures
            r@ == spec_version_text(*self),
    {
        let mut s = "VulkanVersion { major: ".to_owned();
        s.append(decimal_string(self.major()).as_str());
        s.append(", minor: ");
        s.append(decimal_string(self.minor()).as_str());
        s.append(", patch: ");
        s.append(decimal_string(self.patch()).as_str());
        s.append(" }");
        proof {
            assert(s@ =~= spec_version_text(*self));
        }
        s
    }
}

/// A layer property record, as instance enumeration fills it in: two
/// null-terminated byte fields and two version numbers.
pub struct VkLayerProperties {
    pub layerName: [u8; 256],
    pub specVersion: VulkanVersion,
    pub implementationVersion: u32,
    pub description: [u8; 256],
}

impl VkLayerProperties {
    /// The layer's name: the bytes of `layerName` before its first `0`.
    pub fn layer_name(&self) -> (r: Result<&str, core::str::Utf8Error>)
        ensures
            r is Ok <==> valid_utf8(crate::nul_terminated_prefix(self.layerName@)),
            r matches Ok(s) ==> s@ == decode_utf8(crate::nul_terminated_prefix(self.layerName@)),
    {
        crate::str_from_null_terminated_byte_slice(self.layerName.as_slice())
    }

    /// The layer's description: the bytes of `description` before its
    /// first `0`.
    pub fn layer_description(&self) -> (r: Result<&str, core::str::Utf8Error>)
        ensures
            r is Ok <==> valid_utf8(crate::nul_terminated_prefix(self.description@)),
            r matches Ok(s) ==> s@ == decode_utf8(crate::nul_terminated_prefix(self.description@)),
    {
        crate::str_from_null_terminated_byte_slice(self.description.as_slice())
    }
}

/// An extension property record, as instance enumeration fills it in: a
/// null-terminated byte field and a version number.
pub struct VkExtensionProperties {
    pub extensionName: [u8; 256],
    pub specVersion: u32,
}

impl VkExtensionProperties {
    /// The extension's name: the bytes of `extensionName` before its
    /// first `0`.
    pub fn extension_name(&self) -> (r: Result<&str, core::str::Utf8Error>)
        ensures
            r is Ok <==> valid_utf8(crate::nul_terminated_prefix(self.extensionName@)),
            r matches Ok(s) ==> s@ == decode_utf8(crate::nul_terminated_prefix(self.extensionName@)),
    {
        crate::str_from_null_terminated_byte_slice(self.extensionName.as_slice())
    }
}

} // verus!
