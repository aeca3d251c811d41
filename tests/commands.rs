use zed2native_ide::{
    parse_command, resolve_target, BufferState, ClassificationError, Command, EditorState,
    HostStateError, Ide, JumpError, LaunchCommand, WorkspaceState, Zed2NativeIDE,
};

fn editor(path: Option<&str>, rows: Vec<u32>) -> EditorState {
    EditorState {
        workspace: Some(WorkspaceState {
            active_buffer: Some(BufferState {
                file_path: path.map(|p| p.to_string()),
                cursor_rows: rows,
            }),
        }),
    }
}

fn active(path: &str, row: u32) -> Zed2NativeIDE {
    let mut ext = Zed2NativeIDE::new();
    ext.activate(editor(Some(path), vec![row]));
    ext
}

fn launch(ide: Ide, program: &str, flag: &str, line: &str, path: &str) -> LaunchCommand {
    LaunchCommand {
        ide,
        program: program.to_string(),
        args: vec![flag.to_string(), line.to_string(), path.to_string()],
    }
}

#[test]
fn auto_jump_swift_asks_for_xed() {
    let ext = active("App/ViewController.swift", 42);
    let c = ext.auto_jump(&vec![]).unwrap();
    assert_eq!(c, launch(Ide::Xcode, "xed", "-l", "42", "App/ViewController.swift"));
}

#[test]
fn auto_jump_kt_asks_for_studio() {
    let ext = active("app/src/Main.kt", 10);
    let c = ext.auto_jump(&vec![]).unwrap();
    assert_eq!(c, launch(Ide::AndroidStudio, "studio", "--line", "10", "app/src/Main.kt"));
}

#[test]
fn auto_jump_with_explicit_arguments() {
    let ext = Zed2NativeIDE::new();
    let args = vec!["App/ViewController.swift".to_string(), "42".to_string()];
    assert_eq!(
        ext.auto_jump(&args).unwrap(),
        launch(Ide::Xcode, "xed", "-l", "42", "App/ViewController.swift")
    );
    let args = vec!["app/src/Main.kt".to_string(), "10".to_string()];
    assert_eq!(
        ext.auto_jump(&args).unwrap(),
        launch(Ide::AndroidStudio, "studio", "--line", "10", "app/src/Main.kt")
    );
}

#[test]
fn auto_jump_txt_is_unsupported_and_lists_every_extension() {
    let ext = active("docs/readme.txt", 3);
    let e = ext.auto_jump(&vec![]).unwrap_err();
    assert_eq!(
        e,
        JumpError::Classification(ClassificationError::UnsupportedExtension { extension: ".txt".to_string() })
    );
    let m = e.message();
    assert!(m.contains(".txt"));
    for x in [
        ".swift", ".m", ".mm", ".h", ".xib", ".storyboard", ".plist", ".xcconfig", ".entitlements",
        ".pbxproj", ".kt", ".kts", ".java", ".xml", ".gradle", ".groovy", ".properties", ".aidl", ".pro",
    ] {
        assert!(m.contains(x), "{} missing from {}", x, m);
    }
    assert_eq!(
        m,
        "Unsupported file type: .txt. Supported: .swift, .m, .mm, .h, .xib, .storyboard, .plist, \
         .xcconfig, .entitlements, .pbxproj (iOS), .kt, .kts, .java, .xml, .gradle, .groovy, \
         .properties, .aidl, .pro (Android)"
    );
}

#[test]
fn auto_jump_without_extension_is_unsupported() {
    let ext = active("Makefile", 0);
    let e = ext.auto_jump(&vec![]).unwrap_err();
    assert_eq!(
        e,
        JumpError::Classification(ClassificationError::UnsupportedExtension { extension: String::new() })
    );
    assert!(e.message().starts_with("Unsupported file type: no extension."));
}

#[test]
fn auto_jump_shows_lowercased_extension() {
    let ext = active("NOTES.TXT", 0);
    let e = ext.auto_jump(&vec![]).unwrap_err();
    assert_eq!(
        e,
        JumpError::Classification(ClassificationError::UnsupportedExtension { extension: ".txt".to_string() })
    );
}

#[test]
fn named_jumps_ignore_the_extension() {
    let ext = active("notes.txt", 7);
    assert_eq!(
        ext.jump_to_xcode(&vec![]).unwrap(),
        launch(Ide::Xcode, "xed", "-l", "7", "notes.txt")
    );
    assert_eq!(
        ext.jump_to_android_studio(&vec![]).unwrap(),
        launch(Ide::AndroidStudio, "studio", "--line", "7", "notes.txt")
    );
}

#[test]
fn host_state_errors() {
    let mut ext = Zed2NativeIDE::new();
    assert_eq!(ext.auto_jump(&vec![]), Err(JumpError::HostState(HostStateError::NotActivated)));
    ext.activate(EditorState { workspace: None });
    assert_eq!(ext.jump_to_xcode(&vec![]), Err(JumpError::HostState(HostStateError::NoWorkspace)));
    ext.activate(EditorState { workspace: Some(WorkspaceState { active_buffer: None }) });
    assert_eq!(
        ext.jump_to_android_studio(&vec![]),
        Err(JumpError::HostState(HostStateError::NoActiveBuffer))
    );
    ext.activate(editor(None, vec![1]));
    assert_eq!(ext.auto_jump(&vec![]), Err(JumpError::HostState(HostStateError::NotAFile)));
    ext.activate(editor(Some("a.swift"), vec![]));
    assert_eq!(ext.auto_jump(&vec![]), Err(JumpError::HostState(HostStateError::NoCursor)));
    ext.deactivate();
    assert_eq!(ext.auto_jump(&vec![]), Err(JumpError::HostState(HostStateError::NotActivated)));
}

#[test]
fn host_state_error_messages() {
    assert_eq!(HostStateError::NotActivated.message(), "Extension not activated");
    assert_eq!(HostStateError::NoWorkspace.message(), "No active workspace");
    assert_eq!(HostStateError::NoActiveBuffer.message(), "No active buffer");
    assert_eq!(HostStateError::NotAFile.message(), "Buffer is not a file");
    assert_eq!(HostStateError::NoCursor.message(), "No cursor position");
    assert_eq!(
        JumpError::HostState(HostStateError::NoCursor).message(),
        "No cursor position"
    );
}

#[test]
fn first_cursor_gives_the_line() {
    let mut ext = Zed2NativeIDE::new();
    ext.activate(editor(Some("a.m"), vec![5, 9]));
    assert_eq!(ext.auto_jump(&vec![]).unwrap(), launch(Ide::Xcode, "xed", "-l", "5", "a.m"));
}

#[test]
fn explicit_line_defaults() {
    let none: Option<EditorState> = None;
    let t = resolve_target(&none, &vec!["a.kt".to_string(), "x1".to_string()]).unwrap();
    assert_eq!((t.file_path.as_str(), t.line), ("a.kt", 1));
    let t = resolve_target(&none, &vec!["a.kt".to_string()]).unwrap();
    assert_eq!((t.file_path.as_str(), t.line), ("a.kt", 1));
    let host = Some(editor(Some("other.swift"), vec![12]));
    let t = resolve_target(&host, &vec!["a.kt".to_string()]).unwrap();
    assert_eq!((t.file_path.as_str(), t.line), ("a.kt", 12));
    let t = resolve_target(&host, &vec!["a.kt".to_string(), "30".to_string()]).unwrap();
    assert_eq!((t.file_path.as_str(), t.line), ("a.kt", 30));
}

#[test]
fn commands_by_name() {
    assert_eq!(parse_command("zed2native-ide:jump-to-xcode"), Some(Command::JumpToXcode));
    assert_eq!(parse_command("zed2native-ide:jump-to-android-studio"), Some(Command::JumpToAndroidStudio));
    assert_eq!(parse_command("zed2native-ide:auto-jump"), Some(Command::AutoJump));
    assert_eq!(parse_command("zed2native-ide:jump"), None);
    let ext = active("app/src/Main.kt", 10);
    assert_eq!(
        ext.run_command("zed2native-ide:auto-jump", &vec![]).unwrap(),
        launch(Ide::AndroidStudio, "studio", "--line", "10", "app/src/Main.kt")
    );
    assert_eq!(
        ext.run_command("zed2native-ide:jump-to-xcode", &vec![]).unwrap(),
        launch(Ide::Xcode, "xed", "-l", "10", "app/src/Main.kt")
    );
}

#[test]
fn unknown_command_is_an_error() {
    let ext = active("a.swift", 1);
    let e = ext.run_command("open-vim", &vec![]).unwrap_err();
    assert_eq!(e, JumpError::UnknownCommand { command: "open-vim".to_string() });
    assert_eq!(e.message(), "Unknown command: open-vim");
}

#[test]
fn repeated_calls_are_independent() {
    let ext = active("App/ViewController.swift", 42);
    let first = ext.run_command("zed2native-ide:auto-jump", &vec![]);
    let second = ext.run_command("zed2native-ide:auto-jump", &vec![]);
    assert_eq!(first, second);
    let bad = active("x.txt", 1);
    assert_eq!(bad.auto_jump(&vec![]), bad.auto_jump(&vec![]));
}

#[test]
fn auto_jump_kelvin_sign_kt_opens_studio() {
    let ext = active("a.\u{212A}t", 4);
    assert_eq!(
        ext.auto_jump(&vec![]).unwrap(),
        launch(Ide::AndroidStudio, "studio", "--line", "4", "a.\u{212A}t")
    );
}
