use zero2prod::views::layout::layout;
use zero2prod::views::login;

#[test]
fn layout_wraps_content_under_the_escaped_title() {
    assert_eq!(
        layout("A & B", "<p>hello</p>"),
        "<html lang=\"en\"><head><meta http-equiv=\"content-type\" content=\"text/html; \
         charset=utf-8\"><title>A &amp; B</title></head><body><p>hello</p></body></html>"
    );
}

#[test]
fn the_login_form_without_an_error_shows_no_error_paragraph() {
    let form = login::form(None);
    assert_eq!(
        form,
        "<form action=\"/login\" method=\"post\"><div style=\"display: flex; flex-direction: \
         column; align-items: flex-start; gap: 1rem;\"><label>Username <input type=\"text\" \
         placeholder=\"Enter Username\" name=\"username\"></label><label>Password <input \
         type=\"password\" placeholder=\"Enter Password\" name=\"password\"></label><button \
         type=\"submit\">Login</button></div></form>"
    );
}

#[test]
fn the_login_form_shows_a_given_error_escaped() {
    let form = login::form(Some("<script>&".to_string()));
    assert!(form.starts_with(
        "<form action=\"/login\" method=\"post\"><p><em style=\"color: red;\">\
         &lt;script&gt;&amp;</em></p>"
    ));
}

#[test]
fn the_login_page_is_the_form_in_the_shell() {
    let page = login::get(None);
    assert!(page.starts_with("<html lang=\"en\"><head>"));
    assert!(page.contains("<title>Login</title>"));
    assert!(page.contains("<form action=\"/login\" method=\"post\">"));
    assert!(page.ends_with("</form></body></html>"));
}
