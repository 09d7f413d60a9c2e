//! The credential file: where it lies, how its text is read, and the text
//! that is written to it. Reading and writing the file itself is the host's
//! business.

use crate::json::{
    find_member, is_json, json_array_items, json_is_valid, json_object_members,
    json_string_literal, json_string_value, member_text, parse_array, parse_object, parse_string,
    quote, texts,
};
use crate::text::text_of;
use vstd::prelude::*;
use vstd::string::StringExecFns;

verus! {

/// Why the text of a credential file could not be read.
#[derive(Clone, Copy, Debug, PartialEq, Eq, Structural)]
pub enum TokenFileError {
    /// The text is not JSON.
    Parse,
}

/// The path of the credential file, relative to the directory the host runs in.
pub open spec fn tokens_file_path() -> Seq<char> {
    "../tokens.json"@
}

/// The path of the credential file. It lies one directory above the host's
/// own, so that writing it does not touch the host's sources.
pub fn get_tokens_file_path() -> (path: String)
    ensures
        path@ == tokens_file_path(),
{
    String::from_str("../tokens.json")
}

/// The credential that one JSON value holds: the string under `token`, where
/// the value is an object and has one.
pub open spec fn token_in(doc: Seq<char>) -> Option<Seq<char>> {
    match json_object_members(doc) {
        Some(members) => match member_text(members, "token"@) {
            Some(text) => json_string_value(text),
            None => None,
        },
        None => None,
    }
}

/// The first credential among the items of an array.
pub open spec fn first_token(items: Seq<Seq<char>>) -> Option<Seq<char>>
    decreases items.len(),
{
    if items.len() == 0 {
        None
    } else if token_in(items[0]) is Some {
        token_in(items[0])
    } else {
        first_token(items.drop_first())
    }
}

/// The credential that the text of a credential file holds. The file is an
/// object with the credential, or nothing, under `token`; files of an older
/// form are an array of such objects, of which the first credential counts.
/// Any other JSON holds none, and text that is not JSON is an error.
pub open spec fn stored_token(content: Seq<char>) -> Result<Option<Seq<char>>, TokenFileError> {
    if json_object_members(content) is Some {
        Ok(token_in(content))
    } else if json_array_items(content) is Some {
        Ok(first_token(json_array_items(content)->0))
    } else if json_is_valid(content) {
        Ok(None)
    } else {
        Err(TokenFileError::Parse)
    }
}

/// The text written to the credential file: an object with the credential,
/// or `null`, under `token`, indented by two spaces.
pub open spec fn stored_token_text(token: Option<Seq<char>>) -> Seq<char> {
    match token {
        Some(secret) => "{\n  \"token\": "@ + json_string_literal(secret) + "\n}"@,
        None => "{\n  \"token\": null\n}"@,
    }
}

/// What a reading hands back, with the credential taken by its view.
pub open spec fn token_result_view(result: Result<Option<String>, TokenFileError>) -> Result<
    Option<Seq<char>>,
    TokenFileError,
> {
    match result {
        Ok(token) => Ok(text_of(token)),
        Err(error) => Err(error),
    }
}

/// Reads the credential out of one JSON value.
fn read_token_in(doc: &str) -> (token: Option<String>)
    ensures
        text_of(token) == token_in(doc@),
{
    match parse_object(doc) {
        Some(members) => match find_member(&members, "token") {
            Some(text) => parse_string(text.as_str()),
            None => None,
        },
        None => None,
    }
}

proof fn lemma_first_token_skip(items: Seq<Seq<char>>, at: int)
    requires
        0 <= at < items.len(),
    ensures
        first_token(items.skip(at)) == if token_in(items[at]) is Some {
            token_in(items[at])
        } else {
            first_token(items.skip(at + 1))
        },
{
    assert(items.skip(at).drop_first() =~= items.skip(at + 1));
}

/// Finds the first credential among the items of an array.
fn read_first_token(items: &Vec<String>) -> (token: Option<String>)
    ensures
        text_of(token) == first_token(texts(items@)),
{
    let ghost all = texts(items@);
    let mut at: usize = 0;
    assert(all.skip(0) =~= all);
    while at < items.len()
        invariant
            at <= items.len(),
            all == texts(items@),
            first_token(all) == first_token(all.skip(at as int)),
        decreases items.len() - at,
    {
        proof {
            lemma_first_token_skip(all, at as int);
        }
        let token = read_token_in(items[at].as_str());
        if token.is_some() {
            return token;
        }
        at += 1;
    }
    None
}

/// Reads the credential out of the text of a credential file.
pub fn load_discord_token(content: &str) -> (token: Result<Option<String>, TokenFileError>)
    ensures
        token_result_view(token) == stored_token(content@),
{
    match parse_object(content) {
        Some(_) => Ok(read_token_in(content)),
        None => match parse_array(content) {
            Some(items) => Ok(read_first_token(&items)),
            None => if is_json(content) {
                Ok(None)
            } else {
                Err(TokenFileError::Parse)
            },
        },
    }
}

/// Writes the text of a credential file for `token`.
pub fn save_discord_token(token: Option<&str>) -> (content: String)
    ensures
        content@ == stored_token_text(
            match token {
                Some(secret) => Some(secret@),
                None => None,
            },
        ),
{
    match token {
        Some(secret) => {
            let mut content = String::from_str("{\n  \"token\": ");
            let literal = quote(secret);
            content.append(literal.as_str());
            content.append("\n}");
            content
        },
        None => String::from_str("{\n  \"token\": null\n}"),
    }
}

} // verus!
