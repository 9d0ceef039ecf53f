//! The library's numbers are those of the Win32 headers.
use mousebatt::{hid, icon, taskbar, tray, window};
use windows_sys::Win32::Devices::DeviceAndDriverInstallation::{CR_BUFFER_SMALL, CR_SUCCESS};
use windows_sys::Win32::Foundation::{ERROR_IO_PENDING, WAIT_OBJECT_0};
use windows_sys::Win32::Graphics::Gdi::{
    ANTIALIASED_QUALITY, CLEARTYPE_NATURAL_QUALITY, CLR_INVALID, NONANTIALIASED_QUALITY,
};
use windows_sys::Win32::UI::Shell::NOTIFYICONDATAW;
use windows_sys::Win32::UI::WindowsAndMessaging::{
    FE_FONTSMOOTHINGCLEARTYPE, WM_APP, WM_CREATE, WM_DESTROY, WM_DEVICECHANGE, WM_DPICHANGED,
    WM_LBUTTONUP, WM_POWERBROADCAST, WM_RBUTTONUP, WM_SETTINGCHANGE, WM_TIMER,
};

#[test]
fn messages_are_those_of_windows() {
    assert_eq!(window::WM_CREATE, WM_CREATE);
    assert_eq!(window::WM_DESTROY, WM_DESTROY);
    assert_eq!(window::WM_SETTINGCHANGE, WM_SETTINGCHANGE);
    assert_eq!(window::WM_TIMER, WM_TIMER);
    assert_eq!(window::WM_LBUTTONUP, WM_LBUTTONUP);
    assert_eq!(window::WM_RBUTTONUP, WM_RBUTTONUP);
    assert_eq!(window::WM_POWERBROADCAST, WM_POWERBROADCAST);
    assert_eq!(window::WM_DEVICECHANGE, WM_DEVICECHANGE);
    assert_eq!(window::WM_DPICHANGED, WM_DPICHANGED);
    assert_eq!(window::WMAPP_TRAY, WM_APP + 1);
    assert_eq!(window::WMAPP_POLLDONE, WM_APP + 2);
    assert_eq!(window::WMAPP_REDRAW, WM_APP + 3);
}

#[test]
fn statuses_and_qualities_are_those_of_windows() {
    assert_eq!(hid::CR_SUCCESS, CR_SUCCESS);
    assert_eq!(hid::CR_BUFFER_SMALL, CR_BUFFER_SMALL);
    assert_eq!(hid::ERROR_IO_PENDING, ERROR_IO_PENDING);
    assert_eq!(hid::WAIT_OBJECT_0, WAIT_OBJECT_0);
    assert_eq!(taskbar::INVALID_COLOR, CLR_INVALID);
    assert_eq!(icon::SMOOTHING_CLEARTYPE, FE_FONTSMOOTHINGCLEARTYPE);
    assert_eq!(icon::QUALITY_NONANTIALIASED, NONANTIALIASED_QUALITY as u32);
    assert_eq!(icon::QUALITY_ANTIALIASED, ANTIALIASED_QUALITY as u32);
    assert_eq!(icon::QUALITY_CLEARTYPE_NATURAL, CLEARTYPE_NATURAL_QUALITY as u32);
}

#[test]
fn tip_buffer_is_the_shells() {
    let set = |nid: &mut NOTIFYICONDATAW| nid.szTip = tray::tip_buffer("tip");
    let _: fn(&mut NOTIFYICONDATAW) = set;
    assert_eq!(tray::tip_buffer("tip").len(), tray::TIP_LEN);
}
