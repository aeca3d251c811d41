//! Opens the file that is active in the editor in the native IDE of its
//! ecosystem: Xcode for Apple projects, Android Studio for Android projects.
//!
//! The library decides; the host runs what it decides. A command of the
//! extension becomes a [`LaunchCommand`]; the host runs it and hands the way
//! it ended back to [`launch_outcome`].
use vstd::prelude::*;

pub mod classify;
pub mod dispatch;
pub mod launch;
pub mod text;

pub use classify::{
    android_extensions, classify, classify_extension, classify_lowered, extension_of,
    ios_extensions, Platform,
};
pub use dispatch::{
    parse_command, resolve_target, BufferState, ClassificationError, Command, EditorState,
    HostStateError, JumpError, JumpTarget, WorkspaceState, Zed2NativeIDE,
};
pub use launch::{launch_command, launch_outcome, Ide, LaunchCommand, LaunchError, RunReport};
pub use text::{parse_u32, push_decimal, text_eq};

verus! {

} // verus!
