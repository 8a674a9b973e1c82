use blog_error::{Cause, Error, ErrorSourceIter, Link};

const OPEN: &str = "<pre class=\"bg-stone-200 dark:bg-stone-800 overflow-x-auto p-4\"><code>";
const CLOSE: &str = "</code></pre>";
const MARKER: &str = "<span class=\"text-violet-500 font-bold\">\u{2514}</span> ";

fn cause(text: &str) -> Cause {
    Cause::new(text.to_string())
}

fn every_variant() -> Vec<(Error, u16)> {
    vec![
        (Error::TreeSitterQuery(cause("bad query")), 500),
        (Error::TreeSitterHighlight(cause("cancelled")), 500),
        (Error::Bind(cause("address in use")), 500),
        (Error::Serve(cause("connection reset")), 500),
        (Error::NoPostMetadata("a".to_string()), 500),
        (Error::DeserializePostMetadata("a".to_string(), cause("bad")), 500),
        (Error::UnexpectedMarkdownTag, 500),
        (Error::BlogPostNotFound("a".to_string()), 404),
        (Error::DeserializeProjects(cause("bad")), 500),
        (Error::InvalidFontExtension("/fonts/a.ttf".to_string()), 400),
        (Error::FontNotFound("/fonts/a.woff".to_string()), 404),
    ]
}

#[test]
fn status_code_of_every_variant() {
    for (error, code) in every_variant() {
        assert_eq!(error.status_code(), code, "{:?}", error);
        assert!([400, 404, 500].contains(&error.status_code()));
    }
}

#[test]
fn message_of_every_variant() {
    let expected = [
        "tree-sitter query error",
        "tree-sitter highlight error",
        "tcp listener bind error",
        "application serve error",
        "metadata missing for blog post: `a`",
        "failed to deserialize metadata for blog post: `a`",
        "unexpected markdown tag",
        "blog post not found: `a`",
        "failed to deserialize projects file",
        "invalid font extension (must be `woff` or `woff2`): `ttf`",
        "font not found: `/fonts/a.woff`",
    ];
    for ((error, _), text) in every_variant().iter().zip(expected) {
        assert_eq!(error.message(), text);
    }
}

#[test]
fn font_path_without_extension_shows_none() {
    let error = Error::InvalidFontExtension("/fonts/README".to_string());
    assert_eq!(error.status_code(), 400);
    let message = error.message();
    assert!(message.contains("<none>"));
    assert_eq!(message, "invalid font extension (must be `woff` or `woff2`): `<none>`");
}

#[test]
fn font_path_with_leading_dot_only_shows_none() {
    let error = Error::InvalidFontExtension("/fonts/.hidden".to_string());
    assert_eq!(error.message(), "invalid font extension (must be `woff` or `woff2`): `<none>`");
}

#[test]
fn font_extension_is_taken_after_the_last_dot() {
    let error = Error::InvalidFontExtension("/fonts/inter.v3.woff3".to_string());
    assert_eq!(error.message(), "invalid font extension (must be `woff` or `woff2`): `woff3`");
}

#[test]
fn font_extension_message_of_given_extension() {
    assert_eq!(
        blog_error::font_extension_message(Some("otf")),
        "invalid font extension (must be `woff` or `woff2`): `otf`"
    );
    assert_eq!(
        blog_error::font_extension_message(None),
        "invalid font extension (must be `woff` or `woff2`): `<none>`"
    );
}

#[test]
fn walk_starts_at_the_failure_and_follows_every_cause() {
    let error = Error::Serve(Cause::caused_by("A".to_string(), cause("B")));
    let mut walk = ErrorSourceIter::new(&error);
    match walk.next() {
        Some(Link::Failure(e)) => assert!(std::ptr::eq(e, &error)),
        other => panic!("unexpected first element {:?}", other),
    }
    assert_eq!(walk.next().map(|l| l.message()), Some("A".to_string()));
    assert_eq!(walk.next().map(|l| l.message()), Some("B".to_string()));
    assert!(walk.next().is_none());
    assert!(walk.next().is_none());
}

#[test]
fn chain_of_failure_without_cause_is_its_message() {
    let error = Error::BlogPostNotFound("hello-world".to_string());
    assert_eq!(error.chain_messages(), vec!["blog post not found: `hello-world`".to_string()]);
}

#[test]
fn chain_of_wrapped_cause_has_no_omissions() {
    let error = Error::DeserializeProjects(Cause::caused_by(
        "invalid type".to_string(),
        Cause::caused_by("io failure".to_string(), cause("disk gone")),
    ));
    assert_eq!(
        error.chain_messages(),
        vec![
            "failed to deserialize projects file".to_string(),
            "invalid type".to_string(),
            "io failure".to_string(),
            "disk gone".to_string(),
        ]
    );
}

#[test]
fn walking_twice_gives_the_same_texts() {
    let error = Error::Bind(Cause::caused_by("A".to_string(), cause("B")));
    let first = error.chain_messages();
    let second = error.chain_messages();
    assert_eq!(first, second);
    let mut walk = ErrorSourceIter::new(&error);
    let mut again = Vec::new();
    while let Some(link) = walk.next() {
        again.push(link.message());
    }
    assert_eq!(again, first);
}

#[test]
fn post_not_found_renders_its_message() {
    let error = Error::BlogPostNotFound("hello-world".to_string());
    assert_eq!(error.status_code(), 404);
    let rendered = error.render();
    assert_eq!(rendered, format!("{OPEN}blog post not found: `hello-world`{CLOSE}"));
    let first_line = rendered.lines().next().unwrap();
    assert_eq!(
        first_line.strip_prefix(OPEN).unwrap().strip_suffix(CLOSE).unwrap(),
        "blog post not found: `hello-world`"
    );
}

#[test]
fn metadata_failure_renders_two_lines() {
    let error = Error::DeserializePostMetadata("hello-world".to_string(), cause("invalid mapping"));
    assert_eq!(error.status_code(), 500);
    let rendered = error.render();
    assert_eq!(
        rendered,
        format!(
            "{OPEN}failed to deserialize metadata for blog post: `hello-world`\n{MARKER}invalid mapping{CLOSE}"
        )
    );
    assert_eq!(rendered.lines().count(), 2);
}

#[test]
fn deeper_causes_are_indented_two_spaces_more() {
    let error = Error::Serve(Cause::caused_by("cause A".to_string(), cause("cause B")));
    assert_eq!(
        error.render(),
        format!("{OPEN}application serve error\n{MARKER}cause A\n  {MARKER}cause B{CLOSE}")
    );
}

#[test]
fn render_escapes_markup_characters() {
    let error = Error::BlogPostNotFound("<a&b>\"".to_string());
    assert_eq!(
        error.render(),
        format!("{OPEN}blog post not found: `&lt;a&amp;b&gt;&quot;`{CLOSE}")
    );
    let error = Error::TreeSitterQuery(cause("x < y"));
    assert_eq!(
        error.render(),
        format!("{OPEN}tree-sitter query error\n{MARKER}x &lt; y{CLOSE}")
    );
}

#[test]
fn font_without_extension_renders_escaped_none() {
    let error = Error::InvalidFontExtension("/fonts/README".to_string());
    assert_eq!(
        error.render(),
        format!("{OPEN}invalid font extension (must be `woff` or `woff2`): `&lt;none&gt;`{CLOSE}")
    );
}

#[test]
fn response_carries_status_and_page() {
    let error = Error::FontNotFound("/fonts/x.woff2".to_string());
    let (code, body) = error.into_response();
    assert_eq!(code, 404);
    assert_eq!(
        body,
        format!("<h1>404 error</h1>{OPEN}font not found: `/fonts/x.woff2`{CLOSE}")
    );
    let (code, body) = Error::UnexpectedMarkdownTag.into_response();
    assert_eq!(code, 500);
    assert_eq!(body, format!("<h1>500 error</h1>{OPEN}unexpected markdown tag{CLOSE}"));
    let (code, body) = Error::InvalidFontExtension("a.ttf".to_string()).into_response();
    assert_eq!(code, 400);
    assert!(body.starts_with("<h1>400 error</h1>"));
}

#[test]
fn page_matches_response_body() {
    let error = Error::NoPostMetadata("p".to_string());
    let page = error.page();
    let (_, body) = error.into_response();
    assert_eq!(page, body);
}
