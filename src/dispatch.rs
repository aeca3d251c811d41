//! The extension's commands: which file and line to open, and in which IDE.
use vstd::prelude::*;
use vstd::string::StringExecFns;

use crate::classify::{
    android_extension_table, android_extensions, classify, classify_spec, extension,
    extension_of, ios_extension_table, ios_extensions, lower_text, texts_of, Platform,
};
use crate::launch::{launch_command, is_launch_of, strings_of, Ide, LaunchCommand};
use crate::text::{all_ascii, ascii_lower, lowercase, parse_u32, parse_u32_spec, text_eq};

verus! {

/// The editor's buffer that has focus.
#[derive(Clone, Debug, PartialEq, Eq)]
pub struct BufferState {
    /// The path of the file behind the buffer; none for a buffer that is no file.
    pub file_path: Option<String>,
    /// The rows of the buffer's cursors, the primary cursor first.
    pub cursor_rows: Vec<u32>,
}

/// The editor's workspace.
#[derive(Clone, Debug, PartialEq, Eq)]
pub struct WorkspaceState {
    pub active_buffer: Option<BufferState>,
}

/// What the editor tells the extension about itself.
#[derive(Clone, Debug, PartialEq, Eq)]
pub struct EditorState {
    pub workspace: Option<WorkspaceState>,
}

/// Why the editor's state names no file and line.
#[derive(Clone, Copy, Debug, PartialEq, Eq, Structural)]
pub enum HostStateError {
    NotActivated,
    NoWorkspace,
    NoActiveBuffer,
    NotAFile,
    NoCursor,
}

/// The text shown for a host state error.
pub open spec fn host_state_error_text(e: HostStateError) -> Seq<char> {
    match e {
        HostStateError::NotActivated => "Extension not activated"@,
        HostStateError::NoWorkspace => "No active workspace"@,
        HostStateError::NoActiveBuffer => "No active buffer"@,
        HostStateError::NotAFile => "Buffer is not a file"@,
        HostStateError::NoCursor => "No cursor position"@,
    }
}

impl HostStateError {
    /// The text shown to the user.
    pub fn message(&self) -> (r: String)
        ensures
            r@ == host_state_error_text(*self),
    {
        let t = match self {
            HostStateError::NotActivated => "Extension not activated",
            HostStateError::NoWorkspace => "No active workspace",
            HostStateError::NoActiveBuffer => "No active buffer",
            HostStateError::NotAFile => "Buffer is not a file",
            HostStateError::NoCursor => "No cursor position",
        };
        String::from_str(t)
    }
}

/// The file and line that the editor's state points at: the path of the
/// active buffer's file and the row of its first cursor.
pub open spec fn host_target(state: Option<EditorState>) -> Result<(Seq<char>, u32), HostStateError> {
    match state {
        None => Err(HostStateError::NotActivated),
        Some(s) => match s.workspace {
            None => Err(HostStateError::NoWorkspace),
            Some(w) => match w.active_buffer {
                None => Err(HostStateError::NoActiveBuffer),
                Some(b) => match b.file_path {
                    None => Err(HostStateError::NotAFile),
                    Some(p) => if b.cursor_rows@.len() == 0 {
                        Err(HostStateError::NoCursor)
                    } else {
                        Ok((p@, b.cursor_rows@[0]))
                    },
                },
            },
        },
    }
}

/// The row of the first cursor of the active buffer, where there is one.
pub open spec fn host_cursor_row(state: Option<EditorState>) -> Option<u32> {
    match state {
        Some(s) => match s.workspace {
            Some(w) => match w.active_buffer {
                Some(b) => if b.cursor_rows@.len() > 0 {
                    Some(b.cursor_rows@[0])
                } else {
                    None
                },
                None => None,
            },
            None => None,
        },
        None => None,
    }
}

/// The line named by an explicit argument; 1 where it is no unsigned number.
pub open spec fn line_arg(s: Seq<char>) -> u32 {
    match parse_u32_spec(s) {
        Some(n) => n,
        None => 1,
    }
}

/// The file and line that a command works on. With no arguments, the
/// editor's state decides. Else the first argument is the path and the
/// second, if given, the line; without it, the first cursor's row, or 1.
pub open spec fn jump_target(state: Option<EditorState>, args: Seq<Seq<char>>) -> Result<
    (Seq<char>, u32),
    HostStateError,
> {
    if args.len() == 0 {
        host_target(state)
    } else if args.len() == 1 {
        match host_cursor_row(state) {
            Some(row) => Ok((args[0], row)),
            None => Ok((args[0], 1)),
        }
    } else {
        Ok((args[0], line_arg(args[1])))
    }
}

/// A file and the line to open it at.
#[derive(Clone, Debug, PartialEq, Eq)]
pub struct JumpTarget {
    pub file_path: String,
    pub line: u32,
}

/// The first cursor's row of the active buffer, if any.
fn cursor_row(state: &Option<EditorState>) -> (r: Option<u32>)
    ensures
        r == host_cursor_row(*state),
{
    match state {
        Some(s) => match &s.workspace {
            Some(w) => match &w.active_buffer {
                Some(b) => if b.cursor_rows.len() > 0 {
                    Some(b.cursor_rows[0])
                } else {
                    None
                },
                None => None,
            },
            None => None,
        },
        None => None,
    }
}

/// The file and line that the editor's state points at.
fn target_from_host(state: &Option<EditorState>) -> (r: Result<JumpTarget, HostStateError>)
    ensures
        match host_target(*state) {
            Ok((p, line)) => r is Ok && r->Ok_0.file_path@ == p && r->Ok_0.line == line,
            Err(e) => r == Err::<JumpTarget, HostStateError>(e),
        },
{
    let s = match state {
        Some(s) => s,
        None => return Err(HostStateError::NotActivated),
    };
    let w = match &s.workspace {
        Some(w) => w,
        None => return Err(HostStateError::NoWorkspace),
    };
    let b = match &w.active_buffer {
        Some(b) => b,
        None => return Err(HostStateError::NoActiveBuffer),
    };
    let p = match &b.file_path {
        Some(p) => p,
        None => return Err(HostStateError::NotAFile),
    };
    if b.cursor_rows.len() == 0 {
        return Err(HostStateError::NoCursor);
    }
    Ok(JumpTarget { file_path: p.clone(), line: b.cursor_rows[0] })
}

/// The file and line that a command with arguments `args` works on.
pub fn resolve_target(state: &Option<EditorState>, args: &Vec<String>) -> (r: Result<
    JumpTarget,
    HostStateError,
>)
    ensures
        match jump_target(*state, strings_of(args@)) {
            Ok((p, line)) => r is Ok && r->Ok_0.file_path@ == p && r->Ok_0.line == line,
            Err(e) => r == Err::<JumpTarget, HostStateError>(e),
        },
{
    if args.len() == 0 {
        return target_from_host(state);
    }
    let file_path = args[0].clone();
    let line = if args.len() >= 2 {
        match parse_u32(args[1].as_str()) {
            Some(n) => n,
            None => 1,
        }
    } else {
        match cursor_row(state) {
            Some(row) => row,
            None => 1,
        }
    };
    Ok(JumpTarget { file_path, line })
}

/// The entries of a table, each behind a `.`, separated by `, `.
pub open spec fn dotted_list(t: Seq<Seq<char>>) -> Seq<char>
    decreases t.len(),
{
    if t.len() == 0 {
        Seq::empty()
    } else if t.len() == 1 {
        "."@ + t[0]
    } else {
        dotted_list(t.drop_last()) + ", "@ + ("."@ + t.last())
    }
}

/// Whether `needle` occurs in `hay` as a contiguous run.
pub open spec fn contains_text(hay: Seq<char>, needle: Seq<char>) -> bool {
    exists|i: int| 0 <= i <= hay.len() - needle.len() && #[trigger] hay.subrange(i, i + needle.len()) == needle
}

/// The extension as an unsupported-type error names it: a dot and the
/// lowercased extension, or nothing for a path without one.
pub open spec fn shown_extension(p: Seq<char>) -> Seq<char> {
    match extension(p) {
        Some(e) => "."@ + lower_text(e),
        None => Seq::empty(),
    }
}

/// The text of an unsupported-type error, which lists every supported extension.
pub open spec fn unsupported_text(shown: Seq<char>) -> Seq<char> {
    "Unsupported file type: "@ + (if shown.len() == 0 {
        "no extension"@
    } else {
        shown
    }) + ". Supported: "@ + dotted_list(ios_extension_table()) + " (iOS), "@ + dotted_list(
        android_extension_table(),
    ) + " (Android)"@
}

/// Appends the entries of `t`, each behind a `.`, separated by `, `.
fn push_dotted_list(out: &mut String, t: &Vec<&str>)
    ensures
        final(out)@ == old(out)@ + dotted_list(texts_of(t@)),
{
    let mut i: usize = 0;
    while i < t.len()
        invariant
            i <= t@.len(),
            out@ == old(out)@ + dotted_list(texts_of(t@).subrange(0, i as int)),
        decreases t@.len() - i,
    {
        let ghost before = out@;
        if i > 0 {
            out.append(", ");
        }
        out.append(".");
        out.append(t[i]);
        i = i + 1;
        proof {
            let s = texts_of(t@).subrange(0, i as int);
            assert(s.drop_last() =~= texts_of(t@).subrange(0, i - 1));
            assert(s.last() == t@[i - 1]@);
            if i == 1 {
                assert(dotted_list(s.drop_last()) =~= Seq::<char>::empty());
                assert(out@ =~= old(out)@ + dotted_list(s));
            } else {
                assert(out@ =~= old(out)@ + dotted_list(s));
            }
        }
    }
    assert(texts_of(t@).subrange(0, t@.len() as int) =~= texts_of(t@));
}

/// Why an extension does not decide an IDE.
#[derive(Clone, Debug, PartialEq, Eq)]
pub enum ClassificationError {
    /// The extension is in neither table; `extension` is as `shown_extension` gives it.
    UnsupportedExtension { extension: String },
}

impl ClassificationError {
    /// The text shown to the user, with both lists of supported extensions.
    pub fn message(&self) -> (r: String)
        ensures
            match self {
                ClassificationError::UnsupportedExtension { extension } => r@ == unsupported_text(
                    extension@,
                ),
            },
    {
        match self {
            ClassificationError::UnsupportedExtension { extension } => {
                let mut m = String::from_str("Unsupported file type: ");
                if extension.as_str().is_empty() {
                    m.append("no extension");
                } else {
                    m.append(extension.as_str());
                }
                m.append(". Supported: ");
                push_dotted_list(&mut m, &ios_extensions());
                m.append(" (iOS), ");
                push_dotted_list(&mut m, &android_extensions());
                m.append(" (Android)");
                m
            },
        }
    }
}

proof fn lemma_contains_in_left(a: Seq<char>, b: Seq<char>, needle: Seq<char>)
    requires
        contains_text(a, needle),
    ensures
        contains_text(a + b, needle),
{
    let i = choose|i: int| 0 <= i <= a.len() - needle.len() && #[trigger] a.subrange(i, i + needle.len()) == needle;
    assert((a + b).subrange(i, i + needle.len()) =~= a.subrange(i, i + needle.len()));
}

proof fn lemma_contains_in_right(a: Seq<char>, b: Seq<char>, needle: Seq<char>)
    requires
        contains_text(b, needle),
    ensures
        contains_text(a + b, needle),
{
    let i = choose|i: int| 0 <= i <= b.len() - needle.len() && #[trigger] b.subrange(i, i + needle.len()) == needle;
    let k = a.len() + i;
    assert((a + b).subrange(k, k + needle.len()) =~= b.subrange(i, i + needle.len()));
}

proof fn lemma_contains_whole(a: Seq<char>)
    ensures
        contains_text(a, a),
{
    let z: int = 0;
    assert(a.subrange(z, z + a.len()) =~= a);
}

proof fn lemma_dotted_list_lists_all(t: Seq<Seq<char>>, i: int)
    requires
        0 <= i < t.len(),
    ensures
        contains_text(dotted_list(t), "."@ + t[i]),
    decreases t.len(),
{
    if t.len() == 1 {
        lemma_contains_whole("."@ + t[0]);
    } else if i == t.len() - 1 {
        lemma_contains_whole("."@ + t.last());
        lemma_contains_in_right(dotted_list(t.drop_last()) + ", "@, "."@ + t.last(), "."@ + t[i]);
    } else {
        lemma_dotted_list_lists_all(t.drop_last(), i);
        lemma_contains_in_left(dotted_list(t.drop_last()), ", "@, "."@ + t[i]);
        lemma_contains_in_left(dotted_list(t.drop_last()) + ", "@, "."@ + t.last(), "."@ + t[i]);
    }
}

/// The text of an unsupported-type error names every extension of both
/// tables, each behind a `.`.
pub proof fn lemma_unsupported_text_lists_all(shown: Seq<char>)
    ensures
        forall|i: int| 0 <= i < ios_extension_table().len() ==> contains_text(unsupported_text(shown), "."@ + #[trigger] ios_extension_table()[i]),
        forall|i: int| 0 <= i < android_extension_table().len() ==> contains_text(unsupported_text(shown), "."@ + #[trigger] android_extension_table()[i]),
{
    let head = "Unsupported file type: "@ + (if shown.len() == 0 {
        "no extension"@
    } else {
        shown
    }) + ". Supported: "@;
    let ios = dotted_list(ios_extension_table());
    let android = dotted_list(android_extension_table());
    assert forall|i: int| 0 <= i < ios_extension_table().len() implies contains_text(unsupported_text(shown), "."@ + #[trigger] ios_extension_table()[i]) by {
        let n = "."@ + ios_extension_table()[i];
        lemma_dotted_list_lists_all(ios_extension_table(), i);
        lemma_contains_in_right(head, ios, n);
        lemma_contains_in_left(head + ios, " (iOS), "@, n);
        lemma_contains_in_left(head + ios + " (iOS), "@, android, n);
        lemma_contains_in_left(head + ios + " (iOS), "@ + android, " (Android)"@, n);
    }
    assert forall|i: int| 0 <= i < android_extension_table().len() implies contains_text(unsupported_text(shown), "."@ + #[trigger] android_extension_table()[i]) by {
        let n = "."@ + android_extension_table()[i];
        lemma_dotted_list_lists_all(android_extension_table(), i);
        lemma_contains_in_right(head + ios + " (iOS), "@, android, n);
        lemma_contains_in_left(head + ios + " (iOS), "@ + android, " (Android)"@, n);
    }
}

/// Why a command of the extension did not produce a launch.
#[derive(Clone, Debug, PartialEq, Eq)]
pub enum JumpError {
    /// The editor's state names no file and line.
    HostState(HostStateError),
    /// The file's extension decides no IDE.
    Classification(ClassificationError),
    /// The command is none of the extension's.
    UnknownCommand { command: String },
}

/// The text shown for a command error.
pub open spec fn jump_error_text(e: JumpError) -> Seq<char> {
    match e {
        JumpError::HostState(h) => host_state_error_text(h),
        JumpError::Classification(ClassificationError::UnsupportedExtension { extension }) => unsupported_text(extension@),
        JumpError::UnknownCommand { command } => "Unknown command: "@ + command@,
    }
}

impl JumpError {
    /// The text shown to the user.
    pub fn message(&self) -> (r: String)
        ensures
            r@ == jump_error_text(*self),
    {
        match self {
            JumpError::HostState(h) => h.message(),
            JumpError::Classification(c) => c.message(),
            JumpError::UnknownCommand { command } => {
                let mut m = String::from_str("Unknown command: ");
                m.append(command.as_str());
                m
            },
        }
    }
}

/// The IDE for a platform; none for an unsupported file.
pub open spec fn ide_for(p: Platform) -> Option<Ide> {
    match p {
        Platform::Ios => Some(Ide::Xcode),
        Platform::Android => Some(Ide::AndroidStudio),
        Platform::Unsupported => None,
    }
}

/// What a jump to `ide` returns: the launch of `ide` on the target file and
/// line, or the host state error.
pub open spec fn jump_spec(
    ide: Ide,
    state: Option<EditorState>,
    args: Seq<Seq<char>>,
    r: Result<LaunchCommand, JumpError>,
) -> bool {
    match jump_target(state, args) {
        Ok((p, line)) => r is Ok && is_launch_of(r->Ok_0, ide, p, line),
        Err(e) => r == Err::<LaunchCommand, JumpError>(JumpError::HostState(e)),
    }
}

/// What an automatic jump returns: the launch of the IDE that the target
/// file's platform calls for, or the unsupported-extension error, or the
/// host state error.
pub open spec fn auto_jump_spec(
    state: Option<EditorState>,
    args: Seq<Seq<char>>,
    r: Result<LaunchCommand, JumpError>,
) -> bool {
    match jump_target(state, args) {
        Ok((p, line)) => match ide_for(classify_spec(p)) {
            Some(ide) => r is Ok && is_launch_of(r->Ok_0, ide, p, line),
            None => match r {
                Err(
                    JumpError::Classification(ClassificationError::UnsupportedExtension { extension }),
                ) => extension@ == shown_extension(p),
                _ => false,
            },
        },
        Err(e) => r == Err::<LaunchCommand, JumpError>(JumpError::HostState(e)),
    }
}

/// A command of the extension.
#[derive(Clone, Copy, Debug, PartialEq, Eq, Structural)]
pub enum Command {
    JumpToXcode,
    JumpToAndroidStudio,
    AutoJump,
}

/// The command with the given name.
pub open spec fn command_named(name: Seq<char>) -> Option<Command> {
    if name == "zed2native-ide:jump-to-xcode"@ {
        Some(Command::JumpToXcode)
    } else if name == "zed2native-ide:jump-to-android-studio"@ {
        Some(Command::JumpToAndroidStudio)
    } else if name == "zed2native-ide:auto-jump"@ {
        Some(Command::AutoJump)
    } else {
        None
    }
}

/// The command with the given name, if the extension has one.
pub fn parse_command(name: &str) -> (r: Option<Command>)
    ensures
        r == command_named(name@),
{
    if text_eq(name, "zed2native-ide:jump-to-xcode") {
        Some(Command::JumpToXcode)
    } else if text_eq(name, "zed2native-ide:jump-to-android-studio") {
        Some(Command::JumpToAndroidStudio)
    } else if text_eq(name, "zed2native-ide:auto-jump") {
        Some(Command::AutoJump)
    } else {
        None
    }
}

/// What running the command named `name` returns.
pub open spec fn run_command_spec(
    state: Option<EditorState>,
    name: Seq<char>,
    args: Seq<Seq<char>>,
    r: Result<LaunchCommand, JumpError>,
) -> bool {
    match command_named(name) {
        Some(Command::JumpToXcode) => jump_spec(Ide::Xcode, state, args, r),
        Some(Command::JumpToAndroidStudio) => jump_spec(Ide::AndroidStudio, state, args, r),
        Some(Command::AutoJump) => auto_jump_spec(state, args, r),
        None => match r {
            Err(JumpError::UnknownCommand { command }) => command@ == name,
            _ => false,
        },
    }
}

/// The extension: it holds what the editor last told it and turns each
/// command into the launch of a native IDE.
pub struct Zed2NativeIDE {
    /// The editor's state while the extension is active.
    pub state: Option<EditorState>,
}

impl Zed2NativeIDE {
    /// An extension that is not yet active.
    pub fn new() -> (r: Self)
        ensures
            r.state is None,
    {
        Zed2NativeIDE { state: None }
    }

    /// Activates the extension with the editor's state.
    pub fn activate(&mut self, state: EditorState)
        ensures
            final(self).state == Some(state),
    {
        self.state = Some(state);
    }

    /// Deactivates the extension; it forgets the editor's state.
    pub fn deactivate(&mut self)
        ensures
            final(self).state is None,
    {
        self.state = None;
    }

    /// Runs the command named `command`: the launch to perform, or why there is none.
    pub fn run_command(&self, command: &str, args: &Vec<String>) -> (r: Result<LaunchCommand, JumpError>)
        ensures
            run_command_spec(self.state, command@, strings_of(args@), r),
    {
        match parse_command(command) {
            Some(Command::JumpToXcode) => self.jump_to_xcode(args),
            Some(Command::JumpToAndroidStudio) => self.jump_to_android_studio(args),
            Some(Command::AutoJump) => self.auto_jump(args),
            None => Err(JumpError::UnknownCommand { command: String::from_str(command) }),
        }
    }

    /// The launch of Xcode at the target file and line.
    pub fn jump_to_xcode(&self, args: &Vec<String>) -> (r: Result<LaunchCommand, JumpError>)
        ensures
            jump_spec(Ide::Xcode, self.state, strings_of(args@), r),
    {
        match resolve_target(&self.state, args) {
            Ok(t) => Ok(launch_command(Ide::Xcode, t.file_path.as_str(), t.line)),
            Err(e) => Err(JumpError::HostState(e)),
        }
    }

    /// The launch of Android Studio at the target file and line.
    pub fn jump_to_android_studio(&self, args: &Vec<String>) -> (r: Result<LaunchCommand, JumpError>)
        ensures
            jump_spec(Ide::AndroidStudio, self.state, strings_of(args@), r),
    {
        match resolve_target(&self.state, args) {
            Ok(t) => Ok(launch_command(Ide::AndroidStudio, t.file_path.as_str(), t.line)),
            Err(e) => Err(JumpError::HostState(e)),
        }
    }

    /// The launch of the IDE that the target file's extension calls for.
    pub fn auto_jump(&self, args: &Vec<String>) -> (r: Result<LaunchCommand, JumpError>)
        ensures
            auto_jump_spec(self.state, strings_of(args@), r),
    {
        let t = match resolve_target(&self.state, args) {
            Ok(t) => t,
            Err(e) => return Err(JumpError::HostState(e)),
        };
        let path = t.file_path.as_str();
        match classify(path) {
            Platform::Ios => Ok(launch_command(Ide::Xcode, path, t.line)),
            Platform::Android => Ok(launch_command(Ide::AndroidStudio, path, t.line)),
            Platform::Unsupported => {
                let extension = match extension_of(path) {
                    Some(e) => {
                        let mut shown = String::from_str(".");
                        let lowered = lowercase(e);
                        shown.append(lowered.as_str());
                        shown
                    },
                    None => String::new(),
                };
                Err(
                    JumpError::Classification(
                        ClassificationError::UnsupportedExtension { extension },
                    ),
                )
            },
        }
    }
}

proof fn lemma_lowercase_extension_classifies(stem: Seq<char>, ext: Seq<char>)
    requires
        !ext.contains('.'),
        all_ascii(ext),
        ascii_lower(ext) == ext,
    ensures
        classify_spec(stem + "."@ + ext) == crate::classify::platform_of(ext),
        shown_extension(stem + "."@ + ext) == "."@ + ext,
{
    reveal_strlit(".");
    assert("."@ =~= seq!['.']);
    crate::classify::lemma_extension_after_last_dot(stem, ext);
}

/// An automatic jump to a `.swift` file launches Xcode on that path at that line.
pub proof fn lemma_auto_jump_swift_opens_xcode(
    state: Option<EditorState>,
    args: Seq<Seq<char>>,
    stem: Seq<char>,
    line: u32,
    r: Result<LaunchCommand, JumpError>,
)
    requires
        jump_target(state, args) == Ok::<(Seq<char>, u32), HostStateError>((stem + ".swift"@, line)),
        auto_jump_spec(state, args, r),
    ensures
        r is Ok,
        is_launch_of(r->Ok_0, Ide::Xcode, stem + ".swift"@, line),
{
    reveal_strlit(".swift");
    reveal_strlit(".");
    reveal_strlit("swift");
    let ext = "swift"@;
    assert(stem + ".swift"@ =~= stem + "."@ + ext);
    assert(all_ascii(ext));
    assert(ascii_lower(ext) =~= ext);
    assert(ios_extension_table()[0] == ext);
    lemma_lowercase_extension_classifies(stem, ext);
}

/// An automatic jump to a `.kt` file launches Android Studio on that path at that line.
pub proof fn lemma_auto_jump_kt_opens_android_studio(
    state: Option<EditorState>,
    args: Seq<Seq<char>>,
    stem: Seq<char>,
    line: u32,
    r: Result<LaunchCommand, JumpError>,
)
    requires
        jump_target(state, args) == Ok::<(Seq<char>, u32), HostStateError>((stem + ".kt"@, line)),
        auto_jump_spec(state, args, r),
    ensures
        r is Ok,
        is_launch_of(r->Ok_0, Ide::AndroidStudio, stem + ".kt"@, line),
{
    reveal_strlit(".kt");
    reveal_strlit(".");
    reveal_strlit("kt");
    let ext = "kt"@;
    assert(stem + ".kt"@ =~= stem + "."@ + ext);
    assert(all_ascii(ext));
    assert(ascii_lower(ext) =~= ext);
    assert(android_extension_table()[0] == ext);
    crate::classify::lemma_tables_disjoint(ext);
    lemma_lowercase_extension_classifies(stem, ext);
}

/// An automatic jump to a `.txt` file fails with an unsupported-extension
/// error whose text names every supported extension.
pub proof fn lemma_auto_jump_txt_unsupported(
    state: Option<EditorState>,
    args: Seq<Seq<char>>,
    stem: Seq<char>,
    line: u32,
    r: Result<LaunchCommand, JumpError>,
)
    requires
        jump_target(state, args) == Ok::<(Seq<char>, u32), HostStateError>((stem + ".txt"@, line)),
        auto_jump_spec(state, args, r),
    ensures
        r is Err,
        r->Err_0 is Classification,
        forall|i: int| 0 <= i < ios_extension_table().len() ==> contains_text(jump_error_text(r->Err_0), "."@ + #[trigger] ios_extension_table()[i]),
        forall|i: int| 0 <= i < android_extension_table().len() ==> contains_text(jump_error_text(r->Err_0), "."@ + #[trigger] android_extension_table()[i]),
{
    reveal_strlit(".txt");
    reveal_strlit(".");
    reveal_strlit("txt");
    let ext = "txt"@;
    assert(stem + ".txt"@ =~= stem + "."@ + ext);
    assert(all_ascii(ext));
    assert(ascii_lower(ext) =~= ext);
    assert(ext[0] == 't');
    crate::classify::lemma_table_entry_heads(ext);
    lemma_lowercase_extension_classifies(stem, ext);
    match r {
        Err(JumpError::Classification(ClassificationError::UnsupportedExtension { extension })) => {
            lemma_unsupported_text_lists_all(extension@);
        },
        _ => {},
    }
}

/// What a command's result shows: the IDE, program and arguments of a
/// launch, or an error's text.
pub open spec fn outcome_view(r: Result<LaunchCommand, JumpError>) -> Result<
    (Ide, Seq<char>, Seq<Seq<char>>),
    Seq<char>,
> {
    match r {
        Ok(c) => Ok((c.ide, c.program@, strings_of(c.args@))),
        Err(e) => Err(jump_error_text(e)),
    }
}

/// Running the same command on the same state and arguments twice gives the
/// same launch, or the same error, both times: no call leaves anything behind
/// that the next one reads.
pub proof fn lemma_run_command_repeatable(
    state: Option<EditorState>,
    name: Seq<char>,
    args: Seq<Seq<char>>,
    r1: Result<LaunchCommand, JumpError>,
    r2: Result<LaunchCommand, JumpError>,
)
    requires
        run_command_spec(state, name, args, r1),
        run_command_spec(state, name, args, r2),
    ensures
        outcome_view(r1) == outcome_view(r2),
{
}

} // verus!
