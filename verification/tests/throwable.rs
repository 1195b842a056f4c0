use jni_bindgen::throwable::{debug_text, StackFrame, StackTrace};

fn frame(file: Option<&str>, line: Option<i32>, class: Option<&str>, method: Option<&str>) -> StackFrame {
    StackFrame {
        file_name: file.map(|s| s.to_owned()),
        line_number: line,
        class_name: class.map(|s| s.to_owned()),
        method_name: method.map(|s| s.to_owned()),
    }
}

#[test]
fn throwable_with_stack_trace() {
    let stack = StackTrace::Frames(vec![
        Some(frame(Some("Foo.java"), Some(12), Some("com.example.Foo"), Some("bar"))),
        None,
        Some(frame(None, Some(3), None, Some("run"))),
        Some(frame(Some("X.java"), Some(-2), Some("X"), None)),
        Some(frame(Some("Y.java"), None, None, None)),
    ]);
    let text = debug_text(true, true, Some("Some(\"boom\")"), None, &stack);
    let mut want = String::new();
    want.push_str("java::lang::Throwable\n");
    want.push_str("    getMessage:            Some(\"boom\")\n");
    want.push_str("    getLocalizedMessage:   N/A (threw an exception!)\n");
    want.push_str("    getStackTrace:\n");
    want.push_str(&format!("        {:120}{}\n", "Foo.java(12):", "com.example.Foo.bar"));
    want.push_str("        N/A (frame was null)\n");
    want.push_str(&format!("        {:120}{}\n", "N/A (getFileName threw an exception or returned null)", "run"));
    want.push_str(&format!("        {:120}{}\n", "X.java(-2):", "X"));
    want.push_str(&format!("        {:120}{}\n", "Y.java:", "N/A (getClassName + getMethodName threw exceptions or returned null)"));
    assert_eq!(text, want);
    assert!(text.contains(&format!("Foo.java(12):{}com.example.Foo.bar", " ".repeat(120 - 13))));
}

#[test]
fn throwable_without_bindings_or_trace() {
    assert_eq!(
        debug_text(false, true, Some("x"), Some("y"), &StackTrace::Null),
        "java::lang::Throwable\n    getMessage:            N/A (feature = \"java-lang-String\" not defined!)\n    getLocalizedMessage:   N/A (feature = \"java-lang-String\" not defined!)\n    getStackTrace:         N/A (feature = \"java-lang-String\" not defined!)\n"
    );
    assert_eq!(
        debug_text(true, false, None, Some("None"), &StackTrace::Threw),
        "java::lang::Throwable\n    getMessage:            N/A (threw an exception!)\n    getLocalizedMessage:   None\n    getStackTrace:         N/A (feature = \"java-lang-StackTraceElement\" not defined!)\n"
    );
    assert!(debug_text(true, true, None, None, &StackTrace::Threw).ends_with("    getStackTrace:         N/A (threw an exception!)\n"));
    assert!(debug_text(true, true, None, None, &StackTrace::Null).ends_with("    getStackTrace:         N/A (returned null)\n"));
    let long = "L".repeat(130);
    let text = debug_text(true, true, None, None, &StackTrace::Frames(vec![Some(frame(Some(&long), None, Some("C"), Some("m")))]));
    assert!(text.ends_with(&format!("        {}:C.m\n", long)));
}
