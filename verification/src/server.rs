//! The HTTP side of the server: static allocation, API errors and the
//! scripts and addresses it serves from.
use vstd::prelude::*;
use crate::text::{decimal, push_decimal};
use crate::watch::{extension_of, path_extension};

verus! {

/// Leaks `value` onto the heap and hands back a reference that lives for the
/// rest of the program.
pub fn leak_alloc<T>(value: T) -> (r: &'static T)
    ensures
        *r == value,
{
    leak_box(Box::new(value))
}

/// `Box::leak`: gives up ownership of the box and returns a reference to its
/// contents that is never freed. The contract claims only that the reference
/// points at the value that the box held.
#[verifier::external_body]
fn leak_box<T>(b: Box<T>) -> (r: &'static T)
    ensures
        *r == *b,
{
    Box::leak(b)
}

/// An error of the API: a template that is missing or that failed to render.
#[derive(Clone, Debug)]
pub enum ApiError {
    TemplateNotFound(String),
    TemplateRender(String),
}

/// The HTTP status of an API error: 404 for a missing template, 500 for one
/// that failed to render.
pub open spec fn api_status(e: ApiError) -> u16 {
    match e {
        ApiError::TemplateNotFound(_) => 404,
        ApiError::TemplateRender(_) => 500,
    }
}

/// The body of the response to an API error.
pub open spec fn api_message(e: ApiError) -> Seq<char> {
    match e {
        ApiError::TemplateNotFound(name) => "template \""@ + name@ + "\" does not exist"@,
        ApiError::TemplateRender(name) => "failed to render template \""@ + name@ + "\""@,
    }
}

impl ApiError {
    /// The status code and body of the response to this error.
    pub fn response_parts(&self) -> (r: (u16, String))
        ensures
            r.0 == api_status(*self),
            r.1@ == api_message(*self),
    {
        match self {
            ApiError::TemplateNotFound(name) => {
                let mut m = String::from_str("template \"");
                m.append(name.as_str());
                m.append("\" does not exist");
                (404, m)
            },
            ApiError::TemplateRender(name) => {
                let mut m = String::from_str("failed to render template \"");
                m.append(name.as_str());
                m.append("\"");
                (500, m)
            },
        }
    }
}

/// The address on which the server listens: every interface, at `port`.
pub fn bind_address(port: u16) -> (r: String)
    ensures
        r@ == "0.0.0.0:"@ + decimal(port as nat),
{
    let mut s = String::from_str("0.0.0.0:");
    push_decimal(&mut s, port as u64);
    s
}

/// The content type of the scripts that the server hands out.
pub const SCRIPT_CONTENT_TYPE: &'static str = "text/javascript";

/// The script served at `/reload.js`: it listens to `/reload` and reloads
/// the page on a `reload` message, logging any other message.
pub const RELOAD_SCRIPT: &'static str = "
const evtSource = new EventSource(\"reload\");
evtSource.onmessage = (event) => {
    if (event.data == \"reload\") {
      location.reload();
    } else {
      console.log(event.data);
    }
};";

/// The message logged in the browser when hot reloading is off.
pub const NO_SSE_MESSAGE: &'static str = "Hot-Reload feature not enabled";

/// The script served when hot reloading is off: it logs that it is off.
pub fn no_sse_support_script() -> (r: String)
    ensures
        r@ == "console.log(\""@ + NO_SSE_MESSAGE@ + "\")"@,
{
    let mut s = String::from_str("console.log(\"");
    s.append(NO_SSE_MESSAGE);
    s.append("\")");
    s
}

/// Whether a directory entry with the given extension is a template: a file
/// with the `html` extension.
pub fn is_template_extension(is_file: bool, ext: &Option<String>) -> (r: bool)
    ensures
        r == (is_file && (ext matches Some(e) && e@ == "html"@)),
{
    if !is_file {
        return false;
    }
    match ext {
        Some(e) => crate::text::str_equal(e.as_str(), "html"),
        None => false,
    }
}

/// `minijinja::Environment`, the template environment of the server.
#[verifier::external_type_specification]
#[verifier::external_body]
pub struct ExEnvironment<'source>(minijinja::Environment<'source>);

/// `minijinja::Error`, the error of a template that does not compile.
#[verifier::external_type_specification]
#[verifier::external_body]
pub struct ExTemplateError(minijinja::Error);

/// The names of the templates that an environment holds.
pub uninterp spec fn template_names(env: minijinja::Environment<'static>) -> Set<Seq<char>>;

/// `minijinja::Environment::add_template`: compiles `source` and stores it
/// under `name`, replacing a template of that name. The contract claims that
/// on success the environment holds the name besides those it held, and that
/// a source that does not compile leaves the set of names as it was (the
/// template is stored only once it compiled). What counts as a compile error
/// is not stated here.
#[verifier::external_body]
fn add_template(env: &mut minijinja::Environment<'static>, name: &'static str, source: &'static str) -> (r: Result<(), minijinja::Error>)
    ensures
        r is Ok ==> template_names(*final(env)) == template_names(*old(env)).insert(name@),
        r is Err ==> template_names(*final(env)) == template_names(*old(env)),
{
    env.add_template(name, source)
}

/// Imports a directory entry into the template environment: an entry that is
/// a file with the `html` extension is compiled and stored under `name`
/// (`Ok(true)`, or the compile error); any other entry is skipped
/// (`Ok(false)`) and leaves the environment as it was.
pub fn import_entry(
    env: &mut minijinja::Environment<'static>,
    path: &str,
    is_file: bool,
    name: &'static str,
    source: &'static str,
) -> (r: Result<bool, minijinja::Error>)
    ensures
        (r matches Ok(false)) <==> !(is_file && path_extension(path@) == Some("html"@)),
        r matches Ok(true) ==> template_names(*final(env)) == template_names(*old(env)).insert(
            name@,
        ),
        !(r matches Ok(true)) ==> template_names(*final(env)) == template_names(*old(env)),
{
    if !is_template_file(path, is_file) {
        return Ok(false);
    }
    match add_template(env, name, source) {
        Ok(()) => Ok(true),
        Err(e) => Err(e),
    }
}

/// Whether a directory entry is a template: a file with the `html`
/// extension.
pub fn is_template_file(path: &str, is_file: bool) -> (r: bool)
    ensures
        r == (is_file && path_extension(path@) == Some("html"@)),
{
    if !is_file {
        return false;
    }
    let ext = extension_of(path);
    is_template_extension(is_file, &ext)
}

} // verus!
