//! A `multipart/form-data` body described as plain values: named parts that
//! hold either text or a file to upload.

use vstd::prelude::*;

verus! {

/// A file to upload: where to read it, the name to send, and its media type.
pub struct FileSource {
    path: String,
    filename: String,
    mime: String,
}

/// What a file source holds, as plain values.
pub struct FileSourceView {
    pub path: Seq<char>,
    pub filename: Seq<char>,
    pub mime: Seq<char>,
}

impl View for FileSource {
    type V = FileSourceView;

    closed spec fn view(&self) -> FileSourceView {
        FileSourceView { path: self.path@, filename: self.filename@, mime: self.mime@ }
    }
}

impl FileSource {
    pub fn new(path: String, filename: String, mime: String) -> (r: FileSource)
        ensures
            r@ == (FileSourceView { path: path@, filename: filename@, mime: mime@ }),
    {
        FileSource { path, filename, mime }
    }

    /// The path of the file on the local file system.
    pub fn path(&self) -> (r: &String)
        ensures
            r@ == self@.path,
    {
        &self.path
    }

    /// The file name sent with the part.
    pub fn filename(&self) -> (r: &String)
        ensures
            r@ == self@.filename,
    {
        &self.filename
    }

    /// The media type sent with the part.
    pub fn mime(&self) -> (r: &String)
        ensures
            r@ == self@.mime,
    {
        &self.mime
    }
}

/// The content of a part.
pub enum PartValue {
    Text(String),
    File(FileSource),
}

pub enum PartView {
    Text(Seq<char>),
    File(FileSourceView),
}

impl View for PartValue {
    type V = PartView;

    open spec fn view(&self) -> PartView {
        match self {
            PartValue::Text(t) => PartView::Text(t@),
            PartValue::File(f) => PartView::File(f@),
        }
    }
}

/// A named part of a form.
pub struct FormPart {
    pub name: String,
    pub value: PartValue,
}

impl View for FormPart {
    type V = (Seq<char>, PartView);

    open spec fn view(&self) -> (Seq<char>, PartView) {
        (self.name@, self.value@)
    }
}

/// A `multipart/form-data` form: its parts, in the order they are sent.
pub struct Form {
    parts: Vec<FormPart>,
}

impl View for Form {
    type V = Seq<(Seq<char>, PartView)>;

    closed spec fn view(&self) -> Seq<(Seq<char>, PartView)> {
        self.parts@.map_values(|p: FormPart| p@)
    }
}

impl Form {
    /// An empty form.
    pub fn new() -> (r: Form)
        ensures
            r@ == Seq::<(Seq<char>, PartView)>::empty(),
    {
        let r = Form { parts: Vec::new() };
        assert(r@ =~= Seq::<(Seq<char>, PartView)>::empty());
        r
    }

    /// Adds a text part.
    pub fn text(self, name: String, value: String) -> (r: Form)
        ensures
            r@ == self@.push((name@, PartView::Text(value@))),
    {
        let mut parts = self.parts;
        let ghost before = parts@;
        parts.push(FormPart { name, value: PartValue::Text(value) });
        let r = Form { parts };
        assert(r@ =~= before.map_values(|p: FormPart| p@).push((name@, PartView::Text(value@))));
        r
    }

    /// Adds a file part.
    pub fn part(self, name: String, file: FileSource) -> (r: Form)
        ensures
            r@ == self@.push((name@, PartView::File(file@))),
    {
        let mut parts = self.parts;
        let ghost before = parts@;
        let ghost fv = file@;
        parts.push(FormPart { name, value: PartValue::File(file) });
        let r = Form { parts };
        assert(r@ =~= before.map_values(|p: FormPart| p@).push((name@, PartView::File(fv))));
        r
    }

    /// The parts of the form, in order.
    pub fn parts(&self) -> (r: &Vec<FormPart>)
        ensures
            r@.map_values(|p: FormPart| p@) == self@,
    {
        &self.parts
    }

    /// Takes the parts out of the form, in order.
    pub fn into_parts(self) -> (r: Vec<FormPart>)
        ensures
            r@.map_values(|p: FormPart| p@) == self@,
    {
        self.parts
    }
}

/// The media type `image/*`, as the `mime` crate spells `mime::IMAGE_STAR`.
///
/// Trusted: returns the source text of the outside constant, which its
/// source defines as `image/*`.
#[verifier::external_body]
pub(crate) fn mime_image_star() -> (r: String)
    ensures
        r@ == "image/*"@,
{
    mime::IMAGE_STAR.as_ref().to_string()
}

/// The media type `application/octet-stream`, as the `mime` crate spells
/// `mime::APPLICATION_OCTET_STREAM`.
///
/// Trusted: returns the source text of the outside constant, which its
/// source defines as `application/octet-stream`.
#[verifier::external_body]
pub(crate) fn mime_application_octet_stream() -> (r: String)
    ensures
        r@ == "application/octet-stream"@,
{
    mime::APPLICATION_OCTET_STREAM.as_ref().to_string()
}

/// Paths for which the documentation of `std::path::Path::file_name` shows
/// no file name: the root `/`, the path `..`, and a path that ends with
/// `/..` and holds no backslash (with a backslash, a Windows verbatim prefix
/// could make `/` an ordinary character).
pub open spec fn has_no_file_name(path: Seq<char>) -> bool {
    ||| path == "/"@
    ||| path == ".."@
    ||| (path.len() >= 3 && path.subrange(path.len() - 3, path.len() as int) == "/.."@ && !path.contains('\\'))
}

/// What follows the last `/` of a text (the whole text where it has none).
pub open spec fn after_last_slash(s: Seq<char>) -> Seq<char>
    decreases s.len(),
{
    if s.len() == 0 {
        s
    } else if s.last() == '/' {
        Seq::empty()
    } else {
        after_last_slash(s.drop_last()).push(s.last())
    }
}

/// Paths of the plain form `n` or `d/n` whose final component `n` splits the
/// same way on every platform: no backslash or colon anywhere (no Windows
/// prefix), no leading `//`, and a final part that is not empty, `.` or `..`.
pub open spec fn has_plain_file_name(path: Seq<char>) -> bool {
    let n = after_last_slash(path);
    &&& !path.contains('\\')
    &&& !path.contains(':')
    &&& !(path.len() >= 2 && path[0] == '/' && path[1] == '/')
    &&& n.len() > 0
    &&& n != "."@
    &&& n != ".."@
}

/// The final component of a path, as `std::path::Path::file_name` finds it
/// on the running platform.
///
/// Trusted: a name it finds is a normal component of the path, so it is not
/// empty; for a plain path `n` or `d/n` (see `has_plain_file_name`) it is
/// `n`; and it finds none for the paths that `has_no_file_name` lists. For
/// other paths the name is not stated, since how they split into components
/// differs between platforms.
#[verifier::external_body]
pub(crate) fn file_name(path: &str) -> (r: Option<String>)
    ensures
        r matches Some(n) ==> n@.len() > 0,
        has_plain_file_name(path@) ==> r.deep_view() == Some(after_last_slash(path@)),
        has_no_file_name(path@) ==> r is None,
{
    std::path::Path::new(path).file_name().and_then(|n| n.to_str()).map(|n| n.to_string())
}

/// A file source for `path` sent under the file name `name`, or under the
/// empty name where there is none.
pub fn named_file_source(path: &str, name: Option<String>, mime: String) -> (r: FileSource)
    ensures
        r@.path == path@,
        r@.mime == mime@,
        r@.filename == match name {
            Some(n) => n@,
            None => Seq::<char>::empty(),
        },
{
    let filename = match name {
        Some(n) => n,
        None => String::new(),
    };
    FileSource { path: path.to_owned(), filename, mime }
}

/// A file source for `path` sent under the path's final component (as the
/// platform's path splitting finds it), or under the empty name where the
/// path has none. For a plain path `n` or `d/n` the name is `n`.
pub fn file_source(path: &str, mime: String) -> (r: FileSource)
    ensures
        r@.path == path@,
        r@.mime == mime@,
        has_plain_file_name(path@) ==> r@.filename == after_last_slash(path@),
        has_no_file_name(path@) ==> r@.filename == Seq::<char>::empty(),
{
    named_file_source(path, file_name(path), mime)
}

} // verus!
