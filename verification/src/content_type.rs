//! The kind of content that a clipboard entry holds, told from its preview text.

use crate::text::{chars_of, contains_char, contains_run, has_infix, has_prefix, matches_at};
use vstd::prelude::*;
use vstd::string::*;
use vstd::utf8::encode_utf8;

verus! {

#[derive(Debug, Clone, Copy, PartialEq, Eq, Structural)]
pub enum ClipboardContentType {
    Text,
    Url,
    Code,
    Password,
    File,
    Image,
    Other,
}

/// The punctuation that marks a short token as a likely password.
pub open spec fn password_specials() -> Seq<char> {
    "!@#$%^&*()-_=+[]{};:,.<>?/\\|`~"@
}

/// `s` holds at least one of the password punctuation characters.
pub open spec fn has_password_special(s: Seq<char>) -> bool {
    exists|i: int| 0 <= i < s.len() && password_specials().contains(#[trigger] s[i])
}

/// The number of bytes below which a token is short enough for a password.
pub const PASSWORD_BYTES: usize = 50;

/// The number of characters below which a token is short enough for a file path.
pub const PATH_CHARS: usize = 256;

/// The kind that a preview text is taken for. The rules are tried in this
/// order: a web address, source code, a file path, a password, plain text.
/// A file path is measured in characters, a password in the bytes of its
/// UTF-8 encoding.
pub open spec fn sniffed_type(s: Seq<char>) -> ClipboardContentType {
    if has_prefix(s, "http://"@) || has_prefix(s, "https://"@) {
        ClipboardContentType::Url
    } else if has_infix(s, "fn "@) || has_infix(s, "impl "@) || has_infix(s, "struct "@) {
        ClipboardContentType::Code
    } else if s.contains('/') && !s.contains(' ') && s.len() < PATH_CHARS {
        ClipboardContentType::File
    } else if 0 < encode_utf8(s).len() < PASSWORD_BYTES && !s.contains(' ')
        && has_password_special(s) {
        ClipboardContentType::Password
    } else {
        ClipboardContentType::Text
    }
}

/// Whether `s` holds one of the password punctuation characters.
fn any_password_special(s: &Vec<char>) -> (r: bool)
    ensures
        r == has_password_special(s@),
{
    let specials = chars_of("!@#$%^&*()-_=+[]{};:,.<>?/\\|`~");
    let mut i: usize = 0;
    while i < s.len()
        invariant
            i <= s.len(),
            specials@ == password_specials(),
            forall|k: int| 0 <= k < i ==> !password_specials().contains(#[trigger] s@[k]),
        decreases s.len() - i,
    {
        if contains_char(&specials, s[i]) {
            return true;
        }
        i += 1;
    }
    false
}

impl ClipboardContentType {
    /// Tells the kind of content from its preview text.
    pub fn type_from_preview(content: &str) -> (r: Self)
        ensures
            r == sniffed_type(content@),
    {
        let s = chars_of(content);
        let bytes = content.as_bytes().len();
        if matches_at(&s, &chars_of("http://"), 0) || matches_at(&s, &chars_of("https://"), 0) {
            ClipboardContentType::Url
        } else if contains_run(&s, &chars_of("fn ")) || contains_run(&s, &chars_of("impl "))
            || contains_run(&s, &chars_of("struct ")) {
            ClipboardContentType::Code
        } else if contains_char(&s, '/') && !contains_char(&s, ' ') && s.len() < PATH_CHARS {
            ClipboardContentType::File
        } else if bytes > 0 && bytes < PASSWORD_BYTES && !contains_char(&s, ' ')
            && any_password_special(&s) {
            ClipboardContentType::Password
        } else {
            ClipboardContentType::Text
        }
    }

    /// The label of a kind, as a spec-level string.
    pub open spec fn label(self) -> Seq<char> {
        match self {
            ClipboardContentType::Text => "Text"@,
            ClipboardContentType::Url => "Url"@,
            ClipboardContentType::Code => "Code"@,
            ClipboardContentType::Password => "Password"@,
            ClipboardContentType::File => "File"@,
            ClipboardContentType::Image => "Image"@,
            ClipboardContentType::Other => "Other"@,
        }
    }

    /// The pictograph of a kind, as a spec-level string.
    pub open spec fn icon(self) -> Seq<char> {
        match self {
            ClipboardContentType::Text => "📝"@,
            ClipboardContentType::Url => "🔗"@,
            ClipboardContentType::Code => "💻"@,
            ClipboardContentType::Password => "🔒"@,
            ClipboardContentType::File => "📁"@,
            ClipboardContentType::Image => "🖼️"@,
            ClipboardContentType::Other => "📄"@,
        }
    }

    /// The capitalised label of this kind.
    pub fn to_string(&self) -> (r: &'static str)
        ensures
            r@ == self.label(),
    {
        match self {
            ClipboardContentType::Text => "Text",
            ClipboardContentType::Url => "Url",
            ClipboardContentType::Code => "Code",
            ClipboardContentType::Password => "Password",
            ClipboardContentType::File => "File",
            ClipboardContentType::Image => "Image",
            ClipboardContentType::Other => "Other",
        }
    }

    /// The pictograph shown beside entries of this kind.
    pub fn get_icon(&self) -> (r: &'static str)
        ensures
            r@ == self.icon(),
    {
        match self {
            ClipboardContentType::Text => "📝",
            ClipboardContentType::Url => "🔗",
            ClipboardContentType::Code => "💻",
            ClipboardContentType::Password => "🔒",
            ClipboardContentType::File => "📁",
            ClipboardContentType::Image => "🖼️",
            ClipboardContentType::Other => "📄",
        }
    }
}

} // verus!
