//! The textual parameters of an invocation: each is the text of one
//! document.

use vstd::prelude::*;
use crate::document::Document;
use crate::error::InvokeError;
use crate::json::{document_of_json, json_from_str, parsed_document};

verus! {

/// Parses the textual parameters in order. Every text that is well-formed
/// gives its document; the first that is not ends the parsing, and the
/// error names its position, counted from one, and its text.
pub fn parse_json_params(params: &[String]) -> (r: Result<Vec<Document>, InvokeError>)
    ensures
        match r {
            Ok(documents) => {
                &&& documents@.len() == params@.len()
                &&& forall|i: int|
                    0 <= i < params@.len() ==> parsed_document(params@[i]@) == Some(
                        (#[trigger] documents@[i])@,
                    ) && documents@[i]@.well_formed()
            },
            Err(InvokeError::MalformedInput { position, text }) => {
                &&& 1 <= position <= params@.len()
                &&& parsed_document(params@[position - 1]@) is None
                &&& text@ == params@[position - 1]@
                &&& forall|j: int|
                    0 <= j < position - 1 ==> parsed_document(#[trigger] params@[j]@) is Some
            },
            Err(_) => false,
        },
{
    let mut documents: Vec<Document> = Vec::new();
    let mut i: usize = 0;
    while i < params.len()
        invariant
            0 <= i <= params@.len(),
            documents@.len() == i,
            forall|j: int|
                0 <= j < i ==> parsed_document(params@[j]@) == Some((#[trigger] documents@[j])@)
                    && documents@[j]@.well_formed(),
            forall|j: int| 0 <= j < i ==> parsed_document(#[trigger] params@[j]@) is Some,
        decreases params@.len() - i,
    {
        match json_from_str(params[i].as_str()) {
            Some(value) => {
                documents.push(document_of_json(&value));
            },
            None => {
                return Err(InvokeError::MalformedInput { position: i + 1, text: params[i].clone() });
            },
        }
        i += 1;
    }
    Ok(documents)
}

} // verus!
