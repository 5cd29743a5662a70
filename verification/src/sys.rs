#![allow(non_camel_case_types)]
//! Definitions shared with the native host model: handle aliases, sentinel
//! values, message identifiers, flag bits, error codes, and the plain data
//! carriers that cross the host boundary.
//!
//! Sentinels differ by call family and must not be conflated: a missing
//! object is `NULL_HANDLE` for most families, but `INVALID_HANDLE_VALUE`
//! (all bits set) for file-search handles and for the "wait for callbacks"
//! completion marker.

use vstd::prelude::*;

verus! {

/// Opaque handle to a host object (process, window, search cursor, timer,
/// timer queue). A machine word; `0` is the null sentinel.
pub type HANDLE = usize;

/// Handle to a window.
pub type HWND = usize;

/// Unsigned message identifier or flag word.
pub type UINT = u32;

/// Unsigned 32-bit quantity.
pub type DWORD = u32;

/// First message-specific parameter.
pub type WPARAM = usize;

/// Second message-specific parameter.
pub type LPARAM = isize;

/// Result of dispatching or sending a message.
pub type LRESULT = isize;

/// The null handle sentinel.
pub const NULL_HANDLE: HANDLE = 0;

/// The all-bits-set invalid-handle sentinel, distinct from `NULL_HANDLE`.
pub const INVALID_HANDLE_VALUE: HANDLE = usize::MAX;

/// Parent sentinel for message-only windows; such windows are not found by
/// plain enumeration.
pub const HWND_MESSAGE: HWND = usize::MAX - 2;

/// Longest path the host hands back.
pub const MAX_PATH: usize = 260;

/// Show-window command: make the window visible.
pub const SW_SHOW: i32 = 5;

/// Show-window command: hide the window.
pub const SW_HIDE: i32 = 0;

/// Window style bit: the window starts visible.
pub const WS_VISIBLE: DWORD = 0x10000000;

/// Message: replace a window's text.
pub const WM_SETTEXT: UINT = 0x000C;

/// Message: read a window's text.
pub const WM_GETTEXT: UINT = 0x000D;

/// Message: query the length of a window's text.
pub const WM_GETTEXTLENGTH: UINT = 0x000E;

/// Message: a system command (close, minimize, ...).
pub const WM_SYSCOMMAND: UINT = 0x0112;

/// System command: close the window.
pub const SC_CLOSE: WPARAM = 0xF060;

/// Position or size left to the host's choice.
pub const CW_USEDEFAULT: i32 = i32::MIN;

/// Peek flag: remove the message from the queue.
pub const PM_REMOVE: UINT = 0x0001;

/// File attribute bit: the entry is a directory.
pub const FILE_ATTRIBUTE_DIRECTORY: DWORD = 0x00000010;

/// File attribute bit: the entry is read-only.
pub const FILE_ATTRIBUTE_READONLY: DWORD = 0x00000001;

/// Memory region state: committed.
pub const MEM_COMMIT: DWORD = 0x1000;

/// Memory region state: free.
pub const MEM_FREE: DWORD = 0x10000;

/// Memory region state: reserved.
pub const MEM_RESERVE: DWORD = 0x2000;

/// Timer flag: run the callback on the timer thread itself.
pub const WT_EXECUTEINTIMERTHREAD: DWORD = 0x00000020;

/// Timer flag: run the callback on a thread that never terminates.
pub const WT_EXECUTEINPERSISTENTTHREAD: DWORD = 0x00000080;

/// Timer flag: the callback may perform a long wait.
pub const WT_EXECUTELONGFUNCTION: DWORD = 0x00000010;

/// Timer flag: signal the timer only once.
pub const WT_EXECUTEONLYONCE: DWORD = 0x00000008;

/// Timer flag: callbacks use the current access token.
pub const WT_TRANSFER_IMPERSONATION: DWORD = 0x00000100;

/// Process access right: read its memory.
pub const PROCESS_VM_READ: DWORD = 0x0010;

/// Process access right: write its memory.
pub const PROCESS_VM_WRITE: DWORD = 0x0020;

/// Process access right: terminate it.
pub const PROCESS_TERMINATE: DWORD = 0x0001;

/// Error code: no file matched the search pattern.
pub const ERROR_FILE_NOT_FOUND: DWORD = 2;

/// Error code: the operation lacked a required access right.
pub const ERROR_ACCESS_DENIED: DWORD = 5;

/// Error code: the handle does not name a live object.
pub const ERROR_INVALID_HANDLE: DWORD = 6;

/// Error code: the host could not allocate a new object.
pub const ERROR_NOT_ENOUGH_MEMORY: DWORD = 8;

/// Error code: a search cursor ran past its last match.
pub const ERROR_NO_MORE_FILES: DWORD = 18;

/// Error code: a parameter named no known object.
pub const ERROR_INVALID_PARAMETER: DWORD = 87;

/// Error code: only part of a memory request lies in mapped space.
pub const ERROR_PARTIAL_COPY: DWORD = 299;

/// Error code: the window handle names no live window.
pub const ERROR_INVALID_WINDOW_HANDLE: DWORD = 1400;

/// Error code: no window class with the given name exists.
pub const ERROR_CANNOT_FIND_WND_CLASS: DWORD = 1407;

#[allow(non_snake_case)]
#[derive(Clone, Copy, Debug, PartialEq, Eq, Structural)]
/// A point on the screen.
pub struct POINT {
    /// Horizontal coordinate.
    pub x: i32,
    /// Vertical coordinate.
    pub y: i32,
}

#[allow(non_snake_case)]
#[derive(Clone, Copy, Debug, PartialEq, Eq, Structural)]
/// A queued window message.
pub struct MSG {
    /// Window the message addresses; `0` for thread messages.
    pub hwnd: HWND,
    /// Message identifier.
    pub message: UINT,
    /// First message-specific parameter.
    pub wParam: WPARAM,
    /// Second message-specific parameter.
    pub lParam: LPARAM,
    /// Host time at which the message was posted.
    pub time: DWORD,
    /// Cursor position at that time.
    pub pt: POINT,
}

#[allow(non_snake_case)]
#[derive(Clone, Copy, Debug, PartialEq, Eq, Structural)]
/// A host timestamp split in two 32-bit halves.
pub struct FILETIME {
    /// Low-order half.
    pub dwLowDateTime: DWORD,
    /// High-order half.
    pub dwHighDateTime: DWORD,
}

#[allow(non_snake_case)]
#[derive(Clone, Copy, Debug, PartialEq, Eq, Structural)]
/// Description of one region of a process's address space.
pub struct MEMORY_BASIC_INFORMATION {
    /// First address of the region.
    pub BaseAddress: usize,
    /// First address of the allocation the region belongs to.
    pub AllocationBase: usize,
    /// Protection the allocation was created with.
    pub AllocationProtect: DWORD,
    /// Length of the region in bytes.
    pub RegionSize: usize,
    /// `MEM_COMMIT`, `MEM_FREE` or `MEM_RESERVE`.
    pub State: DWORD,
    /// Current protection of the region.
    pub Protect: DWORD,
    /// Kind of the backing allocation.
    pub Type: DWORD,
}

#[allow(non_snake_case)]
#[derive(Clone, Copy, Debug, PartialEq, Eq, Structural)]
/// Creation parameters passed along to a new window.
pub struct CREATESTRUCTW {
    /// Address of caller-supplied creation data.
    pub lpCreateParams: usize,
    /// Module instance owning the window.
    pub hInstance: HANDLE,
    /// Menu handle.
    pub hMenu: HANDLE,
    /// Parent window.
    pub hwndParent: HWND,
    /// Height.
    pub cy: i32,
    /// Width.
    pub cx: i32,
    /// Vertical position.
    pub y: i32,
    /// Horizontal position.
    pub x: i32,
    /// Style bits.
    pub style: i32,
    /// Address of the window name.
    pub lpszName: usize,
    /// Address of the class name.
    pub lpszClass: usize,
    /// Extended style bits.
    pub dwExStyle: DWORD,
}

} // verus!
