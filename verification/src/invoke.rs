//! The invocation orchestrator: the three stages of one call. A resolved
//! function has its parameters decoded, the runtime runs it, and the
//! results are encoded for output. The runtime's own work happens between
//! the stages, outside this library.

use vstd::prelude::*;
use crate::decode::{decode, decode_document, DecodeErrorView};
use crate::document::{array_view, views_of, Document, DocumentView};
use crate::encode::{encode, encode_all, wasm_value_to_json};
use crate::error::InvokeError;
use crate::resolve::{split_name, split_name_rejoins, FunctionName, Resolution, SEPARATOR};
use crate::typed::{field_views_of, value_views_of, DeclaredType, DeclaredTypeView};
use crate::typed::{TypedValue, TypedValueView};

verus! {

/// What a function declares: its parameters by name and type, in order, and
/// the types of its results, in order.
#[derive(Debug, PartialEq)]
pub struct Signature {
    pub params: Vec<(String, DeclaredType)>,
    pub results: Vec<DeclaredType>,
}

/// The segments that a name was split into, put together again, are the
/// name: a resolved function carries the name it was asked for by.
pub proof fn qualified_is_the_name(name: Seq<char>, segments: FunctionName)
    requires
        split_name(name) == Some((segments.interface@, segments.function@)),
    ensures
        qualified(segments) == name,
{
    split_name_rejoins(name);
}

/// A function that has been found, with its signature. There is one way to
/// such a value: through a resolution that has found the function.
#[derive(Debug, PartialEq)]
pub struct Resolved {
    function_name: String,
    signature: Signature,
}

/// A qualified name put together from its segments.
pub open spec fn qualified(name: FunctionName) -> Seq<char> {
    name.interface@ + seq![SEPARATOR] + name.function@
}

/// A function whose parameters have all been decoded, ready to be called.
#[derive(Debug, PartialEq)]
pub struct Encoded {
    pub function_name: String,
    /// The decoded parameters, in signature order.
    pub params: Vec<TypedValue>,
    /// The buffer the runtime writes the results to: one place for each
    /// declared result.
    pub results: Vec<TypedValue>,
}

/// A call that has returned, with its results in order.
#[derive(Debug, PartialEq)]
pub struct Invoked {
    pub results: Vec<TypedValue>,
}

/// What the first `n` positional documents decode to against the declared
/// parameters: the values in order, or the name of the first parameter that
/// fails together with its error.
pub open spec fn decode_arguments(
    documents: Seq<DocumentView>,
    params: Seq<(Seq<char>, DeclaredTypeView)>,
    n: nat,
) -> Result<Seq<TypedValueView>, (Seq<char>, DecodeErrorView)>
    decreases n,
{
    if n == 0 || n > documents.len() || n > params.len() {
        Ok(Seq::empty())
    } else {
        match decode_arguments(documents, params, (n - 1) as nat) {
            Err(e) => Err(e),
            Ok(values) => match decode(documents[n - 1], params[n - 1].1) {
                Err(e) => Err((params[n - 1].0, e)),
                Ok(v) => Ok(values.push(v)),
            },
        }
    }
}

/// Once a prefix of the parameters fails, every longer prefix fails the
/// same way.
pub proof fn decode_arguments_fails_on(
    documents: Seq<DocumentView>,
    params: Seq<(Seq<char>, DeclaredTypeView)>,
    n: nat,
    m: nat,
)
    requires
        decode_arguments(documents, params, n) is Err,
        n <= m,
        m <= documents.len(),
        m <= params.len(),
    ensures
        decode_arguments(documents, params, m) == decode_arguments(documents, params, n),
    decreases m,
{
    if n < m {
        decode_arguments_fails_on(documents, params, n, (m - 1) as nat);
    }
}

/// The number of parameters that are decoded: each document is paired with
/// the declared parameter at its position, and what has no partner is left.
pub open spec fn paired(documents: nat, params: nat) -> nat {
    if documents <= params {
        documents
    } else {
        params
    }
}

/// The document that is put out for the results of a call: the one result
/// itself when there is exactly one, and the array of all results
/// otherwise.
pub open spec fn output_of(results: Seq<TypedValueView>) -> DocumentView {
    if results.len() == 1 {
        encode(results[0])
    } else {
        DocumentView::Array(encode_all(results))
    }
}

/// The result buffer of `n` places, each holding the boolean false until
/// the runtime overwrites it.
pub fn result_buffer(n: usize) -> (buffer: Vec<TypedValue>)
    ensures
        buffer@.len() == n,
        forall|i: int| 0 <= i < n ==> (#[trigger] buffer@[i])@ == TypedValueView::Bool(false),
{
    let mut buffer: Vec<TypedValue> = Vec::new();
    let mut i: usize = 0;
    while i < n
        invariant
            0 <= i <= n,
            buffer@.len() == i,
            forall|j: int| 0 <= j < i ==> (#[trigger] buffer@[j])@ == TypedValueView::Bool(false),
        decreases n - i,
    {
        buffer.push(TypedValue::Bool(false));
        i += 1;
    }
    buffer
}

/// Decodes the positional documents into the declared parameter types, in
/// signature order, and stops at the first one that fails.
pub fn decode_params(params: &Vec<(String, DeclaredType)>, documents: &Vec<Document>) -> (r: Result<
    Vec<TypedValue>,
    InvokeError,
>)
    ensures
        match r {
            Ok(values) => decode_arguments(
                views_of(documents@),
                field_views_of(params@),
                paired(documents@.len(), params@.len()),
            ) == Ok::<Seq<TypedValueView>, (Seq<char>, DecodeErrorView)>(value_views_of(values@)),
            Err(InvokeError::BadParam { name, cause }) => decode_arguments(
                views_of(documents@),
                field_views_of(params@),
                paired(documents@.len(), params@.len()),
            ) == Err::<Seq<TypedValueView>, (Seq<char>, DecodeErrorView)>((name@, cause@)),
            Err(_) => false,
        },
{
    let count: usize = if documents.len() <= params.len() {
        documents.len()
    } else {
        params.len()
    };
    let mut values: Vec<TypedValue> = Vec::new();
    let mut i: usize = 0;
    proof {
        assert(value_views_of(values@) =~= Seq::empty());
    }
    while i < count
        invariant
            0 <= i <= count,
            count == paired(documents@.len(), params@.len()),
            decode_arguments(views_of(documents@), field_views_of(params@), i as nat) == Ok::<
                Seq<TypedValueView>,
                (Seq<char>, DecodeErrorView),
            >(value_views_of(values@)),
        decreases count - i,
    {
        match decode_document(&documents[i], &params[i].1) {
            Ok(v) => {
                proof {
                    assert(value_views_of(values@).push(v@) =~= value_views_of(values@.push(v)));
                }
                values.push(v);
            },
            Err(cause) => {
                proof {
                    decode_arguments_fails_on(
                        views_of(documents@),
                        field_views_of(params@),
                        (i + 1) as nat,
                        count as nat,
                    );
                }
                return Err(InvokeError::BadParam { name: params[i].0.clone(), cause });
            },
        }
        i += 1;
    }
    Ok(values)
}

impl Resolved {
    /// The qualified name of the function.
    pub closed spec fn name(&self) -> Seq<char> {
        self.function_name@
    }

    /// The signature of the function.
    pub closed spec fn declared(&self) -> Signature {
        self.signature
    }

    /// Ties a resolution to the signature of the function it has found. A
    /// resolution that has not found its function gives nothing: no
    /// parameter is decoded before the function is resolved.
    pub fn new(resolution: Resolution, signature: Signature) -> (r: Option<Resolved>)
        ensures
            match r {
                Some(resolved) => {
                    &&& resolution is Found
                    &&& resolved.name() == qualified(resolution.name())
                    &&& resolved.declared() == signature
                },
                None => !(resolution is Found),
            },
    {
        match resolution {
            Resolution::Found { name } => {
                let function_name = String::from_str(name.interface.as_str()).concat("#").concat(
                    name.function.as_str(),
                );
                proof {
                    reveal_strlit("#");
                    assert("#"@ =~= seq![SEPARATOR]);
                }
                Some(Resolved { function_name, signature })
            },
            _ => None,
        }
    }

    /// The qualified name of the function, as text.
    pub fn function_name(&self) -> (text: &String)
        ensures
            text@ == self.name(),
    {
        &self.function_name
    }

    /// The signature of the function.
    pub fn signature(&self) -> (signature: &Signature)
        ensures
            *signature == self.declared(),
    {
        &self.signature
    }

    /// From resolved to encoded: decodes every parameter against the
    /// signature and prepares the result buffer. The first parameter that
    /// does not decode ends the invocation; nothing is called.
    pub fn encode_params(self, documents: Vec<Document>) -> (r: Result<Encoded, InvokeError>)
        ensures
            match r {
                Ok(next) => {
                    &&& next.function_name@ == self.name()
                    &&& decode_arguments(
                        views_of(documents@),
                        field_views_of(self.declared().params@),
                        paired(documents@.len(), self.declared().params@.len()),
                    ) == Ok::<Seq<TypedValueView>, (Seq<char>, DecodeErrorView)>(
                        value_views_of(next.params@),
                    )
                    &&& next.results@.len() == self.declared().results@.len()
                    &&& forall|i: int|
                        0 <= i < next.results@.len() ==> (#[trigger] next.results@[i])@
                            == TypedValueView::Bool(false)
                },
                Err(InvokeError::BadParam { name, cause }) => decode_arguments(
                    views_of(documents@),
                    field_views_of(self.declared().params@),
                    paired(documents@.len(), self.declared().params@.len()),
                ) == Err::<Seq<TypedValueView>, (Seq<char>, DecodeErrorView)>((name@, cause@)),
                Err(_) => false,
            },
    {
        match decode_params(&self.signature.params, &documents) {
            Ok(params) => {
                let results = result_buffer(self.signature.results.len());
                Ok(Encoded { function_name: self.function_name, params, results })
            },
            Err(e) => Err(e),
        }
    }
}

impl Encoded {
    /// From encoded to invoked: takes what the runtime answered. Results
    /// are kept as they came; a failure of the runtime ends the invocation
    /// and is reported with the name of the function.
    pub fn complete(self, outcome: Result<Vec<TypedValue>, String>) -> (r: Result<
        Invoked,
        InvokeError,
    >)
        ensures
            match outcome {
                Ok(results) => r == Ok::<Invoked, InvokeError>(Invoked { results }),
                Err(cause) => r == Err::<Invoked, InvokeError>(
                    InvokeError::InvocationFailed { function_name: self.function_name, cause },
                ),
            },
    {
        match outcome {
            Ok(results) => Ok(Invoked { results }),
            Err(cause) => Err(
                InvokeError::InvocationFailed { function_name: self.function_name, cause },
            ),
        }
    }
}

/// Encodes the results of a call, each by [`encode`], in order.
pub fn encode_results(results: &Vec<TypedValue>) -> (documents: Vec<Document>)
    ensures
        views_of(documents@) == encode_all(value_views_of(results@)),
{
    let mut documents: Vec<Document> = Vec::new();
    let mut i: usize = 0;
    while i < results.len()
        invariant
            0 <= i <= results.len(),
            documents@.len() == i,
            forall|j: int| 0 <= j < i ==> (#[trigger] documents@[j])@ == encode(results@[j]@),
        decreases results.len() - i,
    {
        documents.push(wasm_value_to_json(&results[i]));
        i += 1;
    }
    proof {
        assert(views_of(documents@) =~= encode_all(value_views_of(results@)));
    }
    documents
}

impl Invoked {
    /// The document to put out: a single result as it is, any other number
    /// of results as an array.
    pub fn output(&self) -> (d: Document)
        ensures
            d@ == output_of(value_views_of(self.results@)),
    {
        if self.results.len() == 1 {
            wasm_value_to_json(&self.results[0])
        } else {
            let documents = encode_results(&self.results);
            proof {
                array_view(documents);
            }
            Document::Array(documents)
        }
    }
}

} // verus!
