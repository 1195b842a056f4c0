//! The `Debug` text of a Java `Throwable`: its message, its localized message and its stack
//! trace, from what the Java calls that read them returned.

use vstd::prelude::*;
use crate::emit_rust::rust_text::{decimal, push_decimal};
use crate::text::{push_chars, push_str_chars, string_from_chars};

verus! {

/// One frame of a stack trace, as its getters returned it: `None` where a getter threw an
/// exception or returned `null`.
pub struct StackFrame {
    pub file_name: Option<String>,
    pub line_number: Option<i32>,
    pub class_name: Option<String>,
    pub method_name: Option<String>,
}

/// What `getStackTrace` returned.
pub enum StackTrace {
    /// It threw an exception.
    Threw,
    /// It returned `null`.
    Null,
    /// The frames, `None` for a `null` frame.
    Frames(Vec<Option<StackFrame>>),
}

/// A frame as plain values.
pub struct FrameModel {
    pub file_name: Option<Seq<char>>,
    pub line_number: Option<i32>,
    pub class_name: Option<Seq<char>>,
    pub method_name: Option<Seq<char>>,
}

/// An optional string as characters.
pub open spec fn opt_text(o: Option<String>) -> Option<Seq<char>> {
    match o {
        Some(s) => Some(s@),
        None => None,
    }
}

impl View for StackFrame {
    type V = FrameModel;

    open spec fn view(&self) -> FrameModel {
        FrameModel {
            file_name: opt_text(self.file_name),
            line_number: self.line_number,
            class_name: opt_text(self.class_name),
            method_name: opt_text(self.method_name),
        }
    }
}

/// The frames as plain values.
pub open spec fn frames_model(v: Seq<Option<StackFrame>>) -> Seq<Option<FrameModel>> {
    v.map_values(|f: Option<StackFrame>| match f {
        Some(f) => Some(f@),
        None => None,
    })
}

/// An integer in decimal, with a `-` when it is negative.
pub open spec fn signed_decimal(n: int) -> Seq<char> {
    if n < 0 { seq!['-'] + decimal((-n) as nat) } else { decimal(n as nat) }
}

/// `s` followed by spaces up to `width` characters (`format!("{:width$}", s)`).
pub open spec fn padded(s: Seq<char>, width: nat) -> Seq<char> {
    if s.len() >= width { s } else { s + Seq::new((width - s.len()) as nat, |i: int| ' ') }
}

/// Where a frame is: `File.java(12):`, `File.java:` without a line number, or why it is unknown.
pub open spec fn frame_location(f: FrameModel) -> Seq<char> {
    match (f.file_name, f.line_number) {
        (Some(file), Some(line)) => file + seq!['('] + signed_decimal(line as int) + "):"@,
        (Some(file), None) => file + ":"@,
        (None, _) => "N/A (getFileName threw an exception or returned null)"@,
    }
}

/// What a frame runs: `Class.method`, whichever of the two is known, or why neither is.
pub open spec fn frame_code(f: FrameModel) -> Seq<char> {
    match (f.class_name, f.method_name) {
        (Some(class), Some(method)) => class + seq!['.'] + method,
        (Some(class), None) => class,
        (None, Some(method)) => method,
        (None, None) => "N/A (getClassName + getMethodName threw exceptions or returned null)"@,
    }
}

/// The line of one frame: its location padded to 120 characters, then its code.
pub open spec fn frame_line(f: Option<FrameModel>) -> Seq<char> {
    match f {
        Some(f) => "        "@ + padded(frame_location(f), 120) + frame_code(f) + seq!['\n'],
        None => "        N/A (frame was null)\n"@,
    }
}

/// The lines of the frames, in order.
pub open spec fn frame_lines(fs: Seq<Option<FrameModel>>) -> Seq<char>
    decreases fs.len(),
{
    if fs.len() == 0 {
        Seq::empty()
    } else {
        frame_lines(fs.drop_last()) + frame_line(fs.last())
    }
}

/// What `getStackTrace` returned, as plain values.
pub enum StackTraceModel {
    Threw,
    Null,
    Frames(Seq<Option<FrameModel>>),
}

impl View for StackTrace {
    type V = StackTraceModel;

    open spec fn view(&self) -> StackTraceModel {
        match self {
            StackTrace::Threw => StackTraceModel::Threw,
            StackTrace::Null => StackTraceModel::Null,
            StackTrace::Frames(v) => StackTraceModel::Frames(frames_model(v@)),
        }
    }
}

/// The `Debug` text of a `Throwable`.  `message` and `localized` are the `Debug` text of what
/// `getMessage` and `getLocalizedMessage` returned, `None` when they threw; `strings` and
/// `frames` say whether the bindings for `java.lang.String` and `java.lang.StackTraceElement`
/// are there to make the calls with.
pub open spec fn throwable_text(strings: bool, frames: bool, message: Option<Seq<char>>, localized: Option<Seq<char>>, stack: StackTraceModel) -> Seq<char> {
    "java::lang::Throwable\n"@ + if !strings {
        "    getMessage:            N/A (feature = \"java-lang-String\" not defined!)\n"@
            + "    getLocalizedMessage:   N/A (feature = \"java-lang-String\" not defined!)\n"@
            + "    getStackTrace:         N/A (feature = \"java-lang-String\" not defined!)\n"@
    } else {
        (match message {
            Some(m) => "    getMessage:            "@ + m + seq!['\n'],
            None => "    getMessage:            N/A (threw an exception!)\n"@,
        }) + (match localized {
            Some(m) => "    getLocalizedMessage:   "@ + m + seq!['\n'],
            None => "    getLocalizedMessage:   N/A (threw an exception!)\n"@,
        }) + (if !frames {
            "    getStackTrace:         N/A (feature = \"java-lang-StackTraceElement\" not defined!)\n"@
        } else {
            match stack {
                StackTraceModel::Threw => "    getStackTrace:         N/A (threw an exception!)\n"@,
                StackTraceModel::Null => "    getStackTrace:         N/A (returned null)\n"@,
                StackTraceModel::Frames(fs) => "    getStackTrace:\n"@ + frame_lines(fs),
            }
        })
    }
}

/// Appends `signed_decimal(n)`.
fn push_signed_decimal(out: &mut Vec<char>, n: i32)
    ensures
        final(out)@ == old(out)@ + signed_decimal(n as int),
{
    let ghost start = out@;
    if n < 0 {
        out.push('-');
        let wide: i64 = n as i64;
        let magnitude: u32 = (-wide) as u32;
        assert(magnitude as int == -(n as int));
        push_decimal(out, magnitude as usize);
        assert(out@ =~= start + signed_decimal(n as int));
    } else {
        let magnitude: u32 = n as u32;
        push_decimal(out, magnitude as usize);
    }
}

/// Appends `padded(s, width)`.
fn push_padded(out: &mut Vec<char>, s: &Vec<char>, width: usize)
    ensures
        final(out)@ == old(out)@ + padded(s@, width as nat),
{
    let ghost start = out@;
    push_chars(out, s.as_slice());
    let mut n = s.len();
    while n < width
        invariant
            s@.len() <= n <= width || (n == s@.len() && n >= width),
            out@ == start + s@ + Seq::new((n - s@.len()) as nat, |i: int| ' '),
        decreases width - n,
    {
        out.push(' ');
        n = n + 1;
        assert(out@ =~= start + s@ + Seq::new((n - s@.len()) as nat, |i: int| ' '));
    }
    if s.len() >= width {
        assert(out@ =~= start + s@ + Seq::new(0, |i: int| ' '));
        assert(start + s@ + Seq::new(0, |i: int| ' ') =~= start + s@);
    }
}

/// Appends the line of one frame (see `frame_line`).
fn push_frame_line(out: &mut Vec<char>, frame: &Option<StackFrame>)
    ensures
        final(out)@ == old(out)@ + frame_line(match frame { Some(f) => Some(f@), None => None }),
{
    let ghost start = out@;
    match frame {
        None => push_str_chars(out, "        N/A (frame was null)\n"),
        Some(f) => {
            let mut location: Vec<char> = Vec::new();
            match (&f.file_name, f.line_number) {
                (Some(file), Some(line)) => {
                    push_str_chars(&mut location, file.as_str());
                    location.push('(');
                    push_signed_decimal(&mut location, line);
                    push_str_chars(&mut location, "):");
                },
                (Some(file), None) => {
                    push_str_chars(&mut location, file.as_str());
                    push_str_chars(&mut location, ":");
                },
                (None, _) => push_str_chars(&mut location, "N/A (getFileName threw an exception or returned null)"),
            }
            assert(location@ =~= frame_location(f@));
            push_str_chars(out, "        ");
            push_padded(out, &location, 120);
            match (&f.class_name, &f.method_name) {
                (Some(class), Some(method)) => {
                    push_str_chars(out, class.as_str());
                    out.push('.');
                    push_str_chars(out, method.as_str());
                },
                (Some(class), None) => push_str_chars(out, class.as_str()),
                (None, Some(method)) => push_str_chars(out, method.as_str()),
                (None, None) => push_str_chars(out, "N/A (getClassName + getMethodName threw exceptions or returned null)"),
            }
            out.push('\n');
            assert(out@ =~= start + frame_line(Some(f@)));
        },
    }
}

/// The `Debug` text of a `Throwable` (see `throwable_text`).
pub fn debug_text(strings: bool, frames: bool, message: Option<&str>, localized: Option<&str>, stack: &StackTrace) -> (text: String)
    ensures
        text@ == throwable_text(strings, frames,
            match message { Some(m) => Some(m@), None => None },
            match localized { Some(m) => Some(m@), None => None },
            stack@),
{
    let ghost msg = match message { Some(m) => Some(m@), None => None::<Seq<char>> };
    let ghost loc = match localized { Some(m) => Some(m@), None => None::<Seq<char>> };
    let mut out: Vec<char> = Vec::new();
    push_str_chars(&mut out, "java::lang::Throwable\n");
    if !strings {
        push_str_chars(&mut out, "    getMessage:            N/A (feature = \"java-lang-String\" not defined!)\n");
        push_str_chars(&mut out, "    getLocalizedMessage:   N/A (feature = \"java-lang-String\" not defined!)\n");
        push_str_chars(&mut out, "    getStackTrace:         N/A (feature = \"java-lang-String\" not defined!)\n");
        assert(out@ =~= throwable_text(strings, frames, msg, loc, stack@));
        return string_from_chars(out.as_slice());
    }
    let ghost p0 = out@;
    match message {
        Some(m) => {
            push_str_chars(&mut out, "    getMessage:            ");
            push_str_chars(&mut out, m);
            out.push('\n');
        },
        None => push_str_chars(&mut out, "    getMessage:            N/A (threw an exception!)\n"),
    }
    match localized {
        Some(m) => {
            push_str_chars(&mut out, "    getLocalizedMessage:   ");
            push_str_chars(&mut out, m);
            out.push('\n');
        },
        None => push_str_chars(&mut out, "    getLocalizedMessage:   N/A (threw an exception!)\n"),
    }
    let ghost p1 = out@;
    if !frames {
        push_str_chars(&mut out, "    getStackTrace:         N/A (feature = \"java-lang-StackTraceElement\" not defined!)\n");
    } else {
        match stack {
            StackTrace::Threw => push_str_chars(&mut out, "    getStackTrace:         N/A (threw an exception!)\n"),
            StackTrace::Null => push_str_chars(&mut out, "    getStackTrace:         N/A (returned null)\n"),
            StackTrace::Frames(v) => {
                push_str_chars(&mut out, "    getStackTrace:\n");
                let ghost p2 = out@;
                let ghost fs = frames_model(v@);
                let mut i: usize = 0;
                assert(fs.take(0) =~= Seq::<Option<FrameModel>>::empty());
                assert(out@ =~= p2 + frame_lines(fs.take(0)));
                while i < v.len()
                    invariant
                        i <= v@.len(),
                        fs == frames_model(v@),
                        out@ == p2 + frame_lines(fs.take(i as int)),
                    decreases v@.len() - i,
                {
                    push_frame_line(&mut out, &v[i]);
                    proof {
                        let t = fs.take(i + 1);
                        assert(t.drop_last() =~= fs.take(i as int));
                        assert(t.last() == fs[i as int]);
                    }
                    i = i + 1;
                }
                assert(fs.take(v@.len() as int) =~= fs);
            },
        }
    }
    assert(out@ =~= throwable_text(strings, frames, msg, loc, stack@));
    string_from_chars(out.as_slice())
}

} // verus!
