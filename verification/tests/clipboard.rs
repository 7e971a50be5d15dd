// These tests need a clipboard (X11 or Wayland on Linux, the native one on
// Windows and macOS). Where there is none they return early.

use klip::{ClipboardError, ClipboardManager};

#[test]
fn test_clipboard_initialization() {
    let result = ClipboardManager::new();
    // If clipboard is unavailable (headless CI), that's acceptable
    if result.is_err() {
        println!("Clipboard not available in test environment");
    }
}

#[test]
fn test_copy_and_read_text() {
    let mut manager = match ClipboardManager::new() {
        Ok(m) => m,
        Err(e) => {
            println!("Skipping test - clipboard not available: {}", e.to_string());
            return;
        }
    };

    let test_text = "Hello, klip!";

    // Copy text
    let copy_result = manager.copy(test_text);
    assert!(copy_result.is_ok());

    // Read back
    let read_result = manager.get();
    assert!(read_result.is_ok());
    assert_eq!(read_result.unwrap(), test_text);
}

#[test]
fn test_copy_unicode() {
    let mut manager = match ClipboardManager::new() {
        Ok(m) => m,
        Err(e) => {
            println!("Skipping test - clipboard not available: {}", e.to_string());
            return;
        }
    };

    let test_text = "Hello 世界 🌍";

    let result = manager.copy(test_text);
    assert!(result.is_ok());

    let read_result = manager.get();
    assert!(read_result.is_ok());
    assert_eq!(read_result.unwrap(), test_text);
}

#[test]
fn test_copy_empty_string() {
    let mut manager = match ClipboardManager::new() {
        Ok(m) => m,
        Err(e) => {
            println!("Skipping test - clipboard not available: {}", e.to_string());
            return;
        }
    };

    let result = manager.copy("");
    assert!(result.is_ok());
}

#[test]
fn initialization_fails_only_as_initialization_failed() {
    match ClipboardManager::new() {
        Ok(_) => {}
        Err(e) => {
            assert!(matches!(e, ClipboardError::InitializationFailed(_)));
            assert!(e.to_string().starts_with("Failed to initialize clipboard: "));
        }
    }
}

#[test]
fn empty_string_round_trips() {
    let mut manager = match ClipboardManager::new() {
        Ok(m) => m,
        Err(e) => {
            println!("Skipping test - clipboard not available: {}", e.to_string());
            return;
        }
    };

    assert!(manager.copy("").is_ok());
    match manager.get() {
        Ok(text) => assert_eq!(text, ""),
        Err(e) => assert!(matches!(e, ClipboardError::ReadFailed(_))),
    }
}

#[test]
fn second_copy_replaces_first() {
    let mut manager = match ClipboardManager::new() {
        Ok(m) => m,
        Err(e) => {
            println!("Skipping test - clipboard not available: {}", e.to_string());
            return;
        }
    };

    assert!(manager.copy("first").is_ok());
    assert!(manager.copy("second").is_ok());
    assert_eq!(manager.get().unwrap(), "second");
}

#[test]
fn combining_marks_round_trip() {
    let mut manager = match ClipboardManager::new() {
        Ok(m) => m,
        Err(e) => {
            println!("Skipping test - clipboard not available: {}", e.to_string());
            return;
        }
    };

    let text = "e\u{301}a\u{308}";
    assert!(manager.copy(text).is_ok());
    assert_eq!(manager.get().unwrap(), text);
}

#[test]
fn refused_handle_is_initialization_failed() {
    let opened = Err(arboard::Error::ClipboardNotSupported);
    match ClipboardManager::from_opened(opened) {
        Ok(_) => panic!("a manager without a handle"),
        Err(e) => {
            match &e {
                ClipboardError::InitializationFailed(detail) => assert_eq!(
                    detail,
                    "The selected clipboard is not supported with the current system configuration."
                ),
                _ => panic!("wrong kind"),
            }
            assert_eq!(
                e.to_string(),
                "Failed to initialize clipboard: The selected clipboard is not supported with the current system configuration."
            );
        }
    }
}

#[test]
fn unknown_platform_error_keeps_its_description() {
    let opened = Err(arboard::Error::Unknown { description: String::from("no screen found") });
    match ClipboardManager::from_opened(opened) {
        Ok(_) => panic!("a manager without a handle"),
        Err(e) => assert_eq!(
            e.to_string(),
            "Failed to initialize clipboard: Unknown error while interacting with the clipboard: no screen found"
        ),
    }
}

#[test]
fn granted_handle_is_managed() {
    match arboard::Clipboard::new() {
        Ok(handle) => assert!(ClipboardManager::from_opened(Ok(handle)).is_ok()),
        Err(_) => println!("Clipboard not available in test environment"),
    }
}

#[test]
fn accepted_write_is_a_success() {
    assert!(ClipboardManager::copy_outcome(Ok(())).is_ok());
}

#[test]
fn rejected_write_is_copy_failed() {
    let cause = arboard::Error::ClipboardOccupied;
    let text = cause.to_string();
    match ClipboardManager::copy_outcome(Err(cause)) {
        Ok(()) => panic!("a rejected write passed for a success"),
        Err(e) => {
            match &e {
                ClipboardError::CopyFailed(detail) => assert_eq!(detail, &text),
                _ => panic!("wrong kind"),
            }
            assert_eq!(
                e.to_string(),
                "Failed to copy to clipboard: The native clipboard is not accessible due to being held by another party."
            );
        }
    }
}

#[test]
fn platform_text_is_handed_on_unchanged() {
    for text in ["", "Hello, klip!", "Hello 世界 🌍", "e\u{301}", " \t\r\n "] {
        let read = ClipboardManager::get_outcome(Ok(String::from(text)));
        assert_eq!(read.unwrap(), text);
    }
}

#[test]
fn rejected_read_is_read_failed() {
    let cause = arboard::Error::ContentNotAvailable;
    match ClipboardManager::get_outcome(Err(cause)) {
        Ok(_) => panic!("a rejected read passed for a success"),
        Err(e) => {
            assert!(matches!(e, ClipboardError::ReadFailed(_)));
            assert_eq!(
                e.to_string(),
                "Failed to read from clipboard: The clipboard contents were not available in the requested format or the clipboard is empty."
            );
        }
    }
}

#[test]
fn conversion_failure_on_read_is_read_failed() {
    match ClipboardManager::get_outcome(Err(arboard::Error::ConversionFailure)) {
        Ok(_) => panic!("a rejected read passed for a success"),
        Err(e) => assert_eq!(
            e.to_string(),
            "Failed to read from clipboard: The image or the text that was about the be transferred to/from the clipboard could not be converted to the appropriate format."
        ),
    }
}
