use release_kit::template::{format_duration, generate_player_js, html_escape};

#[test]
fn test_html_escape_basic_characters() {
    assert_eq!(html_escape("Hello World"), "Hello World");
    assert_eq!(html_escape("Test & Test"), "Test &amp; Test");
    assert_eq!(html_escape("<script>"), "&lt;script&gt;");
    assert_eq!(html_escape("\"quoted\""), "&quot;quoted&quot;");
    assert_eq!(html_escape("'single'"), "&#x27;single&#x27;");
}

#[test]
fn test_html_escape_xss_attempts() {
    assert_eq!(
        html_escape("<script>alert('XSS')</script>"),
        "&lt;script&gt;alert(&#x27;XSS&#x27;)&lt;/script&gt;"
    );
    assert_eq!(
        html_escape("\"><script>alert(document.cookie)</script>"),
        "&quot;&gt;&lt;script&gt;alert(document.cookie)&lt;/script&gt;"
    );
    assert_eq!(
        html_escape("' onload='alert(1)"),
        "&#x27; onload=&#x27;alert(1)"
    );
    assert_eq!(
        html_escape("<img src=x onerror=alert(1)>"),
        "&lt;img src=x onerror=alert(1)&gt;"
    );
}

#[test]
fn test_html_escape_combined_characters() {
    assert_eq!(
        html_escape("A&B<C>D\"E'F"),
        "A&amp;B&lt;C&gt;D&quot;E&#x27;F"
    );
}

#[test]
fn test_html_escape_empty_string() {
    assert_eq!(html_escape(""), "");
}

#[test]
fn test_html_escape_unicode() {
    assert_eq!(html_escape("トラック01"), "トラック01");
    assert_eq!(html_escape("piste numéro 1"), "piste numéro 1");
    assert_eq!(html_escape("трек 01"), "трек 01");
}

#[test]
fn test_format_duration() {
    assert_eq!(format_duration(0), "0:00");
    assert_eq!(format_duration(59), "0:59");
    assert_eq!(format_duration(60), "1:00");
    assert_eq!(format_duration(323), "5:23");
    assert_eq!(format_duration(3599), "59:59");
    assert_eq!(format_duration(3661), "61:01");
}

#[test]
fn format_duration_largest_value() {
    assert_eq!(format_duration(u64::MAX), "307445734561825860:15");
}

#[test]
fn player_script_drives_the_page() {
    let js = generate_player_js();
    assert!(js.contains("class AudioPlayer"));
    assert!(js.contains("getElementById('audio')"));
}
