//! The species record and the loader of the names file.
use vstd::prelude::*;

use crate::json::{json_string_array, strings_from_json, texts_of};

verus! {

/// One Pokémon entry: a species in one language, with its display name and,
/// where the dataset has one, its genus.
#[derive(Clone, Debug)]
pub struct Pokemon {
    species: i32,
    language: i32,
    name: String,
    genus: Option<String>,
}

/// Why a names file could not be loaded.
#[derive(Clone, Debug, PartialEq)]
pub enum LoadError {
    /// The file could not be read; the message comes from the system.
    Io(String),
    /// The text is not JSON, or not an array of strings; the place where the
    /// JSON decoder stopped.
    Parse { line: usize, column: usize },
}

/// Decodes the text of a names file: a JSON array of strings, kept one for one
/// and in order. Any other text is a parse error.
pub fn parse_names(text: &str) -> (r: Result<Vec<String>, LoadError>)
    ensures
        json_string_array(text@) is Some <==> r is Ok,
        r is Ok ==> Some(texts_of(r->Ok_0@)) == json_string_array(text@),
        r is Err ==> r->Err_0 is Parse,
{
    match strings_from_json(text) {
        Ok(names) => Ok(names),
        Err(e) => Err(LoadError::Parse { line: e.line(), column: e.column() }),
    }
}

/// Completes a load from the outcome of reading the file: a failed read is an
/// I/O error, carried through unchanged and never taken for a parse error; a
/// text that was read is decoded as `parse_names` does.
pub fn load_text(read: Result<String, String>) -> (r: Result<Vec<String>, LoadError>)
    ensures
        read is Err ==> r == Err::<Vec<String>, LoadError>(LoadError::Io(read->Err_0)),
        read is Ok ==> (r is Ok <==> json_string_array(read->Ok_0@) is Some),
        read is Ok && r is Ok ==> Some(texts_of(r->Ok_0@)) == json_string_array(read->Ok_0@),
        read is Ok && r is Err ==> r->Err_0 is Parse,
{
    match read {
        Ok(text) => parse_names(&text),
        Err(message) => Err(LoadError::Io(message)),
    }
}

} // verus!
