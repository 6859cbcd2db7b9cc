use sessionlock_clipboard::{read_answer, write_answer, Kind, SessionLockClipboard};

/// A stand-in for a platform clipboard: two buffers, an optional primary
/// selection, and a switch that makes every write fail.
struct FakePlatform {
    standard: Option<String>,
    primary: Option<Option<String>>,
    refuse_writes: bool,
}

impl FakePlatform {
    fn working() -> Self {
        FakePlatform { standard: None, primary: Some(None), refuse_writes: false }
    }

    fn read(&self, kind: Kind) -> Option<Result<String, String>> {
        match kind {
            Kind::Standard => Some(self.standard.clone().ok_or_else(|| "empty".to_string())),
            Kind::Primary => self
                .primary
                .as_ref()
                .map(|text| text.clone().ok_or_else(|| "empty".to_string())),
        }
    }

    fn write(&mut self, kind: Kind, contents: String) -> Option<Result<(), String>> {
        if self.refuse_writes {
            return Some(Err("clipboard is owned elsewhere".to_string()));
        }
        match kind {
            Kind::Standard => {
                self.standard = Some(contents);
                Some(Ok(()))
            }
            Kind::Primary => match &mut self.primary {
                Some(buffer) => {
                    *buffer = Some(contents);
                    Some(Ok(()))
                }
                None => None,
            },
        }
    }
}

#[test]
fn unconnected_reads_nothing_on_either_selection() {
    let mut clipboard = SessionLockClipboard::unconnected();
    assert_eq!(clipboard.read(Kind::Standard), None);
    assert_eq!(clipboard.read(Kind::Primary), None);
    assert_eq!(clipboard.write(Kind::Standard, "one".to_string()), None);
    assert_eq!(clipboard.write(Kind::Primary, "two".to_string()), None);
    assert_eq!(clipboard.read(Kind::Standard), None);
    assert_eq!(clipboard.read(Kind::Primary), None);
}

#[test]
fn unavailable_write_then_read_never_yields_value() {
    let mut clipboard = SessionLockClipboard::unconnected();
    for kind in [Kind::Standard, Kind::Primary] {
        let diagnostic = clipboard.write(kind, "copied".to_string());
        assert_eq!(diagnostic, None);
        assert_ne!(clipboard.read(kind), Some("copied".to_string()));
        assert_eq!(clipboard.read(kind), None);
    }
    assert!(!clipboard.is_connected());
}

#[test]
fn unconnected_handle_is_unavailable() {
    let clipboard = SessionLockClipboard::unconnected();
    assert!(!clipboard.is_connected());
}

#[test]
fn working_platform_round_trip_standard() {
    let mut platform = FakePlatform::working();
    assert_eq!(write_answer(platform.write(Kind::Standard, "abc".to_string())), None);
    assert_eq!(read_answer(platform.read(Kind::Standard)), Some("abc".to_string()));
}

#[test]
fn working_platform_round_trip_primary() {
    let mut platform = FakePlatform::working();
    assert_eq!(write_answer(platform.write(Kind::Primary, "sel".to_string())), None);
    assert_eq!(read_answer(platform.read(Kind::Primary)), Some("sel".to_string()));
    assert_eq!(read_answer(platform.read(Kind::Standard)), None);
}

#[test]
fn unsupported_primary_write_is_silent() {
    let mut platform = FakePlatform { standard: Some("kept".to_string()), primary: None, refuse_writes: false };
    assert_eq!(write_answer(platform.write(Kind::Primary, "lost".to_string())), None);
    assert_eq!(read_answer(platform.read(Kind::Standard)), Some("kept".to_string()));
    assert_eq!(read_answer(platform.read(Kind::Primary)), None);
}

#[test]
fn failed_standard_write_reports_one_diagnostic() {
    let mut platform = FakePlatform { standard: Some("before".to_string()), primary: Some(None), refuse_writes: true };
    let diagnostics: Vec<String> = write_answer(platform.write(Kind::Standard, "after".to_string()))
        .into_iter()
        .collect();
    assert_eq!(diagnostics, vec!["clipboard is owned elsewhere".to_string()]);
    assert_eq!(read_answer(platform.read(Kind::Standard)), Some("before".to_string()));
}

#[test]
fn failed_connect_behaves_like_unconnected() {
    let mut failed = SessionLockClipboard::connect(None);
    let mut blank = SessionLockClipboard::unconnected();
    assert_eq!(failed.is_connected(), blank.is_connected());
    for kind in [Kind::Standard, Kind::Primary] {
        assert_eq!(failed.read(kind), blank.read(kind));
        assert_eq!(failed.write(kind, "x".to_string()), blank.write(kind, "x".to_string()));
        assert_eq!(failed.read(kind), None);
        assert_eq!(blank.read(kind), None);
    }
}

#[test]
fn read_answer_keeps_text_and_drops_failures() {
    assert_eq!(read_answer(Some(Ok("text".to_string()))), Some("text".to_string()));
    assert_eq!(read_answer(Some(Ok(String::new()))), Some(String::new()));
    assert_eq!(read_answer(Some(Err("decode failure".to_string()))), None);
    assert_eq!(read_answer(None), None);
}

#[test]
fn write_answer_reports_only_failures() {
    assert_eq!(write_answer(Some(Ok(()))), None);
    assert_eq!(write_answer(None), None);
    assert_eq!(
        write_answer(Some(Err("contention".to_string()))),
        Some("contention".to_string())
    );
}
