//! Loading: document bytes go to the external parser, whole.
//!
//! The parser resolves geometry, paints, text and transforms by itself; the
//! handle it returns is opaque here. Reading that handle off into the scene
//! model of [`crate::scene`] is the embedder's concern, since it means
//! reading the parser's floating-point fields.

use vstd::prelude::*;

verus! {

/// Declares usvg::Tree, the parser's scene-graph handle, so it can be
/// carried through signatures; it is opaque here.
#[verifier::external_type_specification]
#[verifier::external_body]
pub struct ExTree(usvg::Tree);

/// Declares usvg::Error, the parser's error type; opaque here.
#[verifier::external_type_specification]
#[verifier::external_body]
pub struct ExUsvgError(usvg::Error);

/// A parse failure, described in the parser's own words. Parsing is
/// all-or-nothing: there is no partial or recovered document.
pub struct ParseError {
    pub message: String,
}

/// Whether the parser accepts these bytes as a well-formed document under
/// its default options. Acceptance is decided by the bytes alone (encoding,
/// compression, element count, size, XML shape); only the content of an
/// accepted tree can depend on anything else, so no more than this success
/// bit is named.
pub uninterp spec fn svg_parses(bytes: Seq<u8>) -> bool;

/// Relies on usvg::Tree::from_data: parses SVG (or gzipped SVG) bytes into
/// a resolved scene-graph tree, using the parser's default options. It
/// returns a tree exactly when the bytes are a well-formed document.
#[verifier::external_body]
fn parse_tree(bytes: &[u8]) -> (r: Result<usvg::Tree, usvg::Error>)
    ensures
        r is Ok <==> svg_parses(bytes@),
{
    usvg::Tree::from_data(bytes, &usvg::Options::default())
}

/// Relies on the Display impl of usvg::Error to describe a parse failure.
#[verifier::external_body]
fn parse_error_text(e: &usvg::Error) -> (r: String) {
    format!("{}", e)
}

/// Parse document bytes with the external parser: all-or-nothing. A tree
/// comes back exactly when the bytes are a well-formed document; anything
/// else comes back as a typed error carrying the parser's description.
pub fn load_document(bytes: &[u8]) -> (r: Result<usvg::Tree, ParseError>)
    ensures
        r is Ok <==> svg_parses(bytes@),
{
    match parse_tree(bytes) {
        Result::Ok(tree) => Ok(tree),
        Result::Err(e) => {
            let message = parse_error_text(&e);
            Err(ParseError { message })
        },
    }
}

} // verus!
