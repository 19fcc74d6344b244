//! Tests for the plain-data types and the decisions made around the
//! operating-system calls.

use triangle_from_scratch::vk::VkExtensionProperties;
use triangle_from_scratch::vk::VkLayerProperties;
use triangle_from_scratch::vk::VulkanVersion;
use triangle_from_scratch::web::JSObject;
use triangle_from_scratch::win32::attrib_list_is_terminated;
use triangle_from_scratch::win32::choose_pixel_format_outcome;
use triangle_from_scratch::win32::is_proc_address_sentinel;
use triangle_from_scratch::win32::name_is_null_terminated;
use triangle_from_scratch::win32::userdata_outcome;
use triangle_from_scratch::win32::IDCursor;
use triangle_from_scratch::win32::SysColor;
use triangle_from_scratch::win32::Win32Error;
use triangle_from_scratch::win32::PIXELFORMATDESCRIPTOR;
use triangle_from_scratch::win32::{POINT, RECT};

#[test]
fn vulkan_version_unpacks_fields() {
    let v = VulkanVersion((1 << 22) | (2 << 12) | 3);
    assert_eq!(v.major(), 1);
    assert_eq!(v.minor(), 2);
    assert_eq!(v.patch(), 3);
    assert_eq!(VulkanVersion::default(), VulkanVersion(0));
}

#[test]
fn vulkan_version_make_round_trips() {
    assert_eq!(VulkanVersion::make(1, 0, 0), VulkanVersion(1 << 22));
    assert_eq!(VulkanVersion::make(0, 1, 5), VulkanVersion((1 << 12) | 5));
    let v = VulkanVersion::make(1, 2, 3);
    assert_eq!(v.major(), 1);
    assert_eq!(v.minor(), 2);
    assert_eq!(v.patch(), 3);
    assert_ne!(VulkanVersion::make(1, 1, 0), VulkanVersion::make(1, 0, 0));
}

#[test]
fn vulkan_version_describe() {
    let v = VulkanVersion((1 << 22) | (2 << 12) | 3);
    assert_eq!(v.describe(), "VulkanVersion { major: 1, minor: 2, patch: 3 }");
}

#[test]
fn layer_properties_names() {
    let mut name = [0u8; 256];
    name[..9].copy_from_slice(b"VK_LAYER\0");
    let mut description = [0u8; 256];
    description[..5].copy_from_slice(b"test\0");
    let props = VkLayerProperties {
        layerName: name,
        specVersion: VulkanVersion(0),
        implementationVersion: 1,
        description,
    };
    assert_eq!(props.layer_name(), Ok("VK_LAYER"));
    assert_eq!(props.layer_description(), Ok("test"));

    let ext = VkExtensionProperties { extensionName: name, specVersion: 2 };
    assert_eq!(ext.extension_name(), Ok("VK_LAYER"));
}

#[test]
fn pixel_format_default_fills_size_and_version() {
    let pfd = PIXELFORMATDESCRIPTOR::default();
    assert_eq!(pfd.nSize, 40);
    assert_eq!(pfd.nVersion, 1);
    assert_eq!(pfd.dwFlags, 0);
    assert_eq!(pfd.cColorBits, 0);
    assert_eq!(pfd.dwDamageMask, 0);
}

#[test]
fn point_and_rect_default_to_zero() {
    assert_eq!(POINT::default(), POINT { x: 0, y: 0 });
    assert_eq!(RECT::default(), RECT { left: 0, top: 0, right: 0, bottom: 0 });
}

#[test]
fn cursor_ids_match_the_resource_numbers() {
    assert_eq!(IDCursor::Arrow.id(), 32512);
    assert_eq!(IDCursor::IBeam.id(), 32513);
    assert_eq!(IDCursor::Wait.id(), 32514);
    assert_eq!(IDCursor::AppStarting.id(), 32650);
    assert_eq!(IDCursor::Help.id(), 32651);
}

#[test]
fn sys_color_brush_values() {
    assert_eq!(SysColor::ScrollBar.id(), 0);
    assert_eq!(SysColor::ScrollBar.brush_value(), 1);
    assert_eq!(SysColor::ButtonFace.id(), 15);
    assert_eq!(SysColor::ButtonFace.brush_value(), 16);
    assert_eq!(SysColor::MenuBar.brush_value(), 31);
}

#[test]
fn win32_error_application_bit() {
    assert!(Win32Error(1 << 29).is_application_error());
    assert!(!Win32Error(0).is_application_error());
    assert_eq!(Win32Error::APPLICATION_ERROR_BIT, 1 << 29);
}

#[test]
fn win32_error_texts() {
    assert_eq!(Win32Error(0).code_text(), "Win32Error(0)");
    assert_eq!(Win32Error(1 << 29).application_error_text(), "Win32ApplicationError(536870912)");
}

#[test]
fn pixel_format_choice_outcome() {
    assert_eq!(choose_pixel_format_outcome(1, 1, 7, Win32Error(5)), Ok(7));
    assert_eq!(choose_pixel_format_outcome(0, 1, 7, Win32Error(5)), Err(Win32Error(5)));
    assert_eq!(choose_pixel_format_outcome(1, 0, 7, Win32Error(5)), Err(Win32Error(5)));
    assert_eq!(choose_pixel_format_outcome(1, 2, 7, Win32Error(5)), Err(Win32Error(5)));
}

#[test]
fn userdata_outcome_reads_last_error_only_on_zero() {
    assert_eq!(userdata_outcome(12, Win32Error(5)), Ok(12));
    assert_eq!(userdata_outcome(0, Win32Error(0)), Ok(0));
    assert_eq!(userdata_outcome(0, Win32Error(5)), Err(Win32Error(5)));
}

#[test]
fn proc_address_sentinels() {
    assert!(is_proc_address_sentinel(0));
    assert!(is_proc_address_sentinel(1));
    assert!(is_proc_address_sentinel(2));
    assert!(is_proc_address_sentinel(3));
    assert!(is_proc_address_sentinel(usize::MAX));
    assert!(!is_proc_address_sentinel(4));
}

#[test]
fn null_terminated_names() {
    assert!(name_is_null_terminated(b"glClear\0"));
    assert!(!name_is_null_terminated(b"glClear"));
    assert!(!name_is_null_terminated(b""));
}

#[test]
fn attrib_lists() {
    assert!(attrib_list_is_terminated(&[]));
    assert!(attrib_list_is_terminated(&[[8, 1], [0, 0]]));
    assert!(!attrib_list_is_terminated(&[[8, 1]]));
}

#[test]
fn js_object_null_is_a_value() {
    let o = JSObject::null();
    let _copy = o;
}
