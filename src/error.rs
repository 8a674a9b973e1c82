use vstd::prelude::*;

verus! {

/// A lower-level failure wrapped by an [`Error`]: the text it displays and,
/// where it has one, the failure that caused it in turn.
#[derive(Debug)]
pub struct Cause {
    pub text: String,
    pub source: Option<Box<Cause>>,
}

impl Cause {
    /// The display texts from this cause down to its root cause.
    pub open spec fn chain(self) -> Seq<Seq<char>>
        decreases self,
    {
        match self.source {
            Some(inner) => seq![self.text@] + (*inner).chain(),
            None => seq![self.text@],
        }
    }

    /// A cause with no further cause behind it.
    pub fn new(text: String) -> (r: Cause)
        ensures
            r.text@ == text@,
            r.source is None,
            r.chain() == seq![text@],
    {
        Cause { text, source: None }
    }

    /// A cause that was itself caused by `source`.
    pub fn caused_by(text: String, source: Cause) -> (r: Cause)
        ensures
            r.text@ == text@,
            r.source == Some(Box::new(source)),
            r.chain() == seq![text@] + source.chain(),
    {
        Cause { text, source: Some(Box::new(source)) }
    }
}

/// Every failure that the site can produce.
#[derive(Debug)]
pub enum Error {
    /// A syntax-highlighting query failed to compile.
    TreeSitterQuery(Cause),
    /// The highlighting engine failed while running.
    TreeSitterHighlight(Cause),
    /// The listening socket could not be bound.
    Bind(Cause),
    /// The server failed while serving connections.
    Serve(Cause),
    /// A blog post has no front matter.
    NoPostMetadata(String),
    /// A blog post's front matter could not be parsed.
    DeserializePostMetadata(String, Cause),
    /// The content renderer met a tag it does not understand.
    UnexpectedMarkdownTag,
    /// The requested blog post does not exist.
    BlogPostNotFound(String),
    /// The projects file could not be parsed.
    DeserializeProjects(Cause),
    /// A requested font has an extension other than `woff` or `woff2`.
    InvalidFontExtension(String),
    /// A requested font does not exist.
    FontNotFound(String),
}

pub const INTERNAL_SERVER_ERROR: u16 = 500;

pub const NOT_FOUND: u16 = 404;

pub const BAD_REQUEST: u16 = 400;

impl Error {
    /// The HTTP status of a failure: 404 when something asked for is absent,
    /// 400 for a bad font path, 500 for everything that went wrong on our side.
    pub open spec fn status(self) -> u16 {
        match self {
            Error::TreeSitterQuery(_)
            | Error::TreeSitterHighlight(_)
            | Error::Bind(_)
            | Error::Serve(_)
            | Error::NoPostMetadata(_)
            | Error::DeserializePostMetadata(_, _)
            | Error::UnexpectedMarkdownTag
            | Error::DeserializeProjects(_) => INTERNAL_SERVER_ERROR,
            Error::BlogPostNotFound(_) | Error::FontNotFound(_) => NOT_FOUND,
            Error::InvalidFontExtension(_) => BAD_REQUEST,
        }
    }

    /// The lower-level failure this one wraps, if any.
    pub open spec fn cause(self) -> Option<Cause> {
        match self {
            Error::TreeSitterQuery(c)
            | Error::TreeSitterHighlight(c)
            | Error::Bind(c)
            | Error::Serve(c)
            | Error::DeserializePostMetadata(_, c)
            | Error::DeserializeProjects(c) => Some(c),
            _ => None,
        }
    }

    /// The status code of this error.
    pub fn status_code(&self) -> (r: u16)
        ensures
            r == self.status(),
    {
        match self {
            Error::TreeSitterQuery(_)
            | Error::TreeSitterHighlight(_)
            | Error::Bind(_)
            | Error::Serve(_)
            | Error::NoPostMetadata(_)
            | Error::DeserializePostMetadata(_, _)
            | Error::UnexpectedMarkdownTag
            | Error::DeserializeProjects(_) => INTERNAL_SERVER_ERROR,
            Error::BlogPostNotFound(_) | Error::FontNotFound(_) => NOT_FOUND,
            Error::InvalidFontExtension(_) => BAD_REQUEST,
        }
    }
}


/// Every failure maps to 400, 404 or 500, and to no other code: 404 exactly
/// when a blog post or a font is not found, 400 exactly for a font with a
/// disallowed extension, 500 for all the rest.
pub proof fn lemma_status_classes(e: Error)
    ensures
        e.status() == BAD_REQUEST || e.status() == NOT_FOUND || e.status() == INTERNAL_SERVER_ERROR,
        e.status() == NOT_FOUND <==> (e is BlogPostNotFound || e is FontNotFound),
        e.status() == BAD_REQUEST <==> e is InvalidFontExtension,
        e.status() == INTERNAL_SERVER_ERROR <==> (e is TreeSitterQuery || e is TreeSitterHighlight
            || e is Bind || e is Serve || e is NoPostMetadata || e is DeserializePostMetadata
            || e is UnexpectedMarkdownTag || e is DeserializeProjects),
{
}

/// Where a file path's extension begins and what it holds, as std's path
/// handling reads it.
pub uninterp spec fn extension_of(path: Seq<char>) -> Option<Seq<char>>;

/// Relies on std's `Path::extension`: the part of the file name after its
/// last `.`, and none where the path holds no `.` at all. The path comes as
/// UTF-8, so the extension converts to a `String` whenever there is one.
#[verifier::external_body]
fn path_extension(path: &str) -> (r: Option<String>)
    ensures
        match r {
            Some(e) => extension_of(path@) == Some(e@),
            None => extension_of(path@) is None,
        },
        !path@.contains('.') ==> r is None,
        r matches Some(e) ==> !e@.contains('.'),
{
    match std::path::Path::new(path).extension() {
        Some(e) => e.to_str().map(String::from),
        None => None,
    }
}

/// `s` between backticks.
pub open spec fn ticked(s: Seq<char>) -> Seq<char> {
    "`"@ + s + "`"@
}

/// The message for a font path whose extension is `ext`, or that has none.
pub open spec fn font_extension_text(ext: Option<Seq<char>>) -> Seq<char> {
    "invalid font extension (must be `woff` or `woff2`): "@ + ticked(
        match ext {
            Some(e) => e,
            None => "<none>"@,
        },
    )
}

fn prefix_ticked(prefix: &str, s: &str) -> (r: String)
    ensures
        r@ == prefix@ + ticked(s@),
{
    let mut r = String::from_str(prefix);
    r.append("`");
    r.append(s);
    r.append("`");
    r
}

/// The message for a font path whose extension is `ext`; `<none>` stands
/// for a missing extension.
pub fn font_extension_message(ext: Option<&str>) -> (r: String)
    ensures
        r@ == font_extension_text(
            match ext {
                Some(e) => Some(e@),
                None => None,
            },
        ),
{
    let prefix = "invalid font extension (must be `woff` or `woff2`): ";
    match ext {
        Some(e) => prefix_ticked(prefix, e),
        None => prefix_ticked(prefix, "<none>"),
    }
}

impl Error {
    /// The one-line message of a failure; it depends on the failure's own
    /// fields alone.
    pub open spec fn message_text(self) -> Seq<char> {
        match self {
            Error::TreeSitterQuery(_) => "tree-sitter query error"@,
            Error::TreeSitterHighlight(_) => "tree-sitter highlight error"@,
            Error::Bind(_) => "tcp listener bind error"@,
            Error::Serve(_) => "application serve error"@,
            Error::NoPostMetadata(id) => "metadata missing for blog post: "@ + ticked(id@),
            Error::DeserializePostMetadata(id, _) => "failed to deserialize metadata for blog post: "@
                + ticked(id@),
            Error::UnexpectedMarkdownTag => "unexpected markdown tag"@,
            Error::BlogPostNotFound(id) => "blog post not found: "@ + ticked(id@),
            Error::DeserializeProjects(_) => "failed to deserialize projects file"@,
            Error::InvalidFontExtension(path) => font_extension_text(extension_of(path@)),
            Error::FontNotFound(path) => "font not found: "@ + ticked(path@),
        }
    }

    /// The failure's message.
    pub fn message(&self) -> (r: String)
        ensures
            r@ == self.message_text(),
            self matches Error::InvalidFontExtension(path) && !path@.contains('.') ==> r@
                == font_extension_text(None),
    {
        match self {
            Error::TreeSitterQuery(_) => String::from_str("tree-sitter query error"),
            Error::TreeSitterHighlight(_) => String::from_str("tree-sitter highlight error"),
            Error::Bind(_) => String::from_str("tcp listener bind error"),
            Error::Serve(_) => String::from_str("application serve error"),
            Error::NoPostMetadata(id) => prefix_ticked("metadata missing for blog post: ", id),
            Error::DeserializePostMetadata(id, _) => prefix_ticked(
                "failed to deserialize metadata for blog post: ",
                id,
            ),
            Error::UnexpectedMarkdownTag => String::from_str("unexpected markdown tag"),
            Error::BlogPostNotFound(id) => prefix_ticked("blog post not found: ", id),
            Error::DeserializeProjects(_) => String::from_str("failed to deserialize projects file"),
            Error::InvalidFontExtension(path) => {
                let ext = path_extension(path);
                match &ext {
                    Some(e) => font_extension_message(Some(e.as_str())),
                    None => font_extension_message(None),
                }
            },
            Error::FontNotFound(path) => prefix_ticked("font not found: ", path),
        }
    }
}

} // verus!
