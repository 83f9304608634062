use cursor_clip::content_type::ClipboardContentType;

#[test]
fn web_addresses_are_urls() {
    assert_eq!(ClipboardContentType::type_from_preview("http://a"), ClipboardContentType::Url);
    assert_eq!(
        ClipboardContentType::type_from_preview("https://github.com/rust-lang/rust"),
        ClipboardContentType::Url
    );
    assert_eq!(
        ClipboardContentType::type_from_preview("https://x fn main"),
        ClipboardContentType::Url
    );
    assert_eq!(ClipboardContentType::type_from_preview("http:/a"), ClipboardContentType::File);
    assert_eq!(
        ClipboardContentType::type_from_preview("see https://x"),
        ClipboardContentType::Text
    );
}

#[test]
fn source_keywords_make_code() {
    assert_eq!(
        ClipboardContentType::type_from_preview("impl Display for MyStruct {}"),
        ClipboardContentType::Code
    );
    assert_eq!(
        ClipboardContentType::type_from_preview("pub fn f()"),
        ClipboardContentType::Code
    );
    assert_eq!(
        ClipboardContentType::type_from_preview("a struct b"),
        ClipboardContentType::Code
    );
    assert_eq!(ClipboardContentType::type_from_preview("fn"), ClipboardContentType::Text);
    assert_eq!(ClipboardContentType::type_from_preview("xfn "), ClipboardContentType::Code);
}

#[test]
fn single_tokens_with_a_slash_are_files() {
    assert_eq!(
        ClipboardContentType::type_from_preview("/home/user/file.txt"),
        ClipboardContentType::File
    );
    assert_eq!(ClipboardContentType::type_from_preview("a/b"), ClipboardContentType::File);
    assert_eq!(
        ClipboardContentType::type_from_preview("/home/user/my file.txt"),
        ClipboardContentType::Text
    );
    let long_path = format!("/{}", "a".repeat(254));
    assert_eq!(long_path.chars().count(), 255);
    assert_eq!(ClipboardContentType::type_from_preview(&long_path), ClipboardContentType::File);
    let too_long = format!("/{}", "a".repeat(255));
    assert_eq!(ClipboardContentType::type_from_preview(&too_long), ClipboardContentType::Text);
}

#[test]
fn short_tokens_with_punctuation_are_passwords() {
    assert_eq!(
        ClipboardContentType::type_from_preview("Password4234!Jannik"),
        ClipboardContentType::Password
    );
    assert_eq!(ClipboardContentType::type_from_preview("a~b"), ClipboardContentType::Password);
    assert_eq!(ClipboardContentType::type_from_preview("a\\b"), ClipboardContentType::Password);
    assert_eq!(ClipboardContentType::type_from_preview("!"), ClipboardContentType::Password);
    assert_eq!(ClipboardContentType::type_from_preview("Password4234"), ClipboardContentType::Text);
    assert_eq!(ClipboardContentType::type_from_preview("pass word!"), ClipboardContentType::Text);
    let short = format!("{}!", "a".repeat(48));
    assert_eq!(ClipboardContentType::type_from_preview(&short), ClipboardContentType::Password);
    let long = format!("{}!", "a".repeat(49));
    assert_eq!(ClipboardContentType::type_from_preview(&long), ClipboardContentType::Text);
}

#[test]
fn everything_else_is_text() {
    assert_eq!(ClipboardContentType::type_from_preview(""), ClipboardContentType::Text);
    assert_eq!(ClipboardContentType::type_from_preview("hello"), ClipboardContentType::Text);
    assert_eq!(
        ClipboardContentType::type_from_preview("Hello, world Jannik!"),
        ClipboardContentType::Text
    );
    assert_eq!(ClipboardContentType::type_from_preview("\"quoted\""), ClipboardContentType::Text);
}

#[test]
fn labels_are_capitalised_names() {
    assert_eq!(ClipboardContentType::Text.to_string(), "Text");
    assert_eq!(ClipboardContentType::Url.to_string(), "Url");
    assert_eq!(ClipboardContentType::Code.to_string(), "Code");
    assert_eq!(ClipboardContentType::Password.to_string(), "Password");
    assert_eq!(ClipboardContentType::File.to_string(), "File");
    assert_eq!(ClipboardContentType::Image.to_string(), "Image");
    assert_eq!(ClipboardContentType::Other.to_string(), "Other");
}

#[test]
fn icons_are_one_per_kind() {
    assert_eq!(ClipboardContentType::Text.get_icon(), "📝");
    assert_eq!(ClipboardContentType::Url.get_icon(), "🔗");
    assert_eq!(ClipboardContentType::Code.get_icon(), "💻");
    assert_eq!(ClipboardContentType::Password.get_icon(), "🔒");
    assert_eq!(ClipboardContentType::File.get_icon(), "📁");
    assert_eq!(ClipboardContentType::Image.get_icon(), "🖼️");
    assert_eq!(ClipboardContentType::Other.get_icon(), "📄");
}

#[test]
fn a_password_is_short_in_bytes() {
    let euros_52 = format!("{}!", "\u{20ac}".repeat(17));
    assert_eq!(euros_52.chars().count(), 18);
    assert_eq!(euros_52.len(), 52);
    assert_eq!(ClipboardContentType::type_from_preview(&euros_52), ClipboardContentType::Text);
    let euros_49 = format!("{}!", "\u{20ac}".repeat(16));
    assert_eq!(euros_49.len(), 49);
    assert_eq!(ClipboardContentType::type_from_preview(&euros_49), ClipboardContentType::Password);
    let euros_50 = format!("{}!!", "\u{20ac}".repeat(16));
    assert_eq!(euros_50.len(), 50);
    assert_eq!(ClipboardContentType::type_from_preview(&euros_50), ClipboardContentType::Text);
}

#[test]
fn a_file_path_is_short_in_characters() {
    let wide = format!("/{}", "\u{e9}".repeat(254));
    assert_eq!(wide.chars().count(), 255);
    assert_eq!(wide.len(), 509);
    assert_eq!(ClipboardContentType::type_from_preview(&wide), ClipboardContentType::File);
    let too_wide = format!("/{}", "\u{e9}".repeat(255));
    assert_eq!(too_wide.chars().count(), 256);
    assert_eq!(ClipboardContentType::type_from_preview(&too_wide), ClipboardContentType::Text);
}
