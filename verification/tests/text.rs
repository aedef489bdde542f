use zero2prod::text::{html_escape, lowercase, u16_to_string};

#[test]
fn zero_renders_as_a_single_digit() {
    assert_eq!(u16_to_string(0), "0");
}

#[test]
fn a_number_renders_most_significant_digit_first() {
    assert_eq!(u16_to_string(8042), "8042");
}

#[test]
fn the_largest_port_renders_fully() {
    assert_eq!(u16_to_string(65535), "65535");
}

#[test]
fn html_escape_replaces_the_four_special_characters() {
    assert_eq!(
        html_escape("a<b & \"c\" > d"),
        "a&lt;b &amp; &quot;c&quot; &gt; d"
    );
}

#[test]
fn html_escape_leaves_plain_text_alone() {
    assert_eq!(html_escape("plain text"), "plain text");
}

#[test]
fn lowercase_maps_ascii_letters() {
    assert_eq!(lowercase("PRODUCTION"), "production");
}
