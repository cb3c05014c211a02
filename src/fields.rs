use crate::codec::bincode_of;
use crate::retrieval::{
    all_postings, build_index, index_deduplicated, index_max_id, index_postings,
};
use crate::vector::{bind_vectors, bound, encode_text, text_vector, views, Hypervector};
use embeddenator_retrieval::TernaryInvertedIndex;
use vstd::prelude::*;

verus! {

/// What parsing a message body as JSON gives: `None` when the bytes are not
/// valid JSON, `Some(None)` when they are but the top-level value is not an
/// object, and otherwise the object's entries in iteration order, each as its
/// key and the canonical JSON text of its value.
pub uninterp spec fn json_document(body: Seq<u8>) -> Option<Option<Seq<(Seq<char>, Seq<char>)>>>;

/// The description that the JSON parser gives of why `body` is not valid JSON.
pub uninterp spec fn json_error_text(body: Seq<u8>) -> Seq<char>;

/// The character views of a list of key / value-text pairs.
pub open spec fn entry_views(v: Seq<(String, String)>) -> Seq<(Seq<char>, Seq<char>)> {
    v.map_values(|p: (String, String)| (p.0@, p.1@))
}

/// Relies on `serde_json::from_slice::<Value>`, `Value::as_object`, the object's
/// iteration and `Value`'s `Display` (its compact JSON text), and on failure the
/// `Display` of `serde_json::Error`. An object is a map, so its iteration gives
/// each key once.
#[verifier::external_body]
fn read_json(body: &[u8]) -> (r: Result<Option<Vec<(String, String)>>, String>)
    ensures
        match r {
            Err(d) => json_document(body@) is None && d@ == json_error_text(body@),
            Ok(None) => json_document(body@) == Some(None::<Seq<(Seq<char>, Seq<char>)>>),
            Ok(Some(entries)) => json_document(body@) == Some(Some(entry_views(entries@))),
        },
        r matches Ok(Some(entries)) ==> forall|i: int, j: int|
            0 <= i < j < entries@.len() ==> #[trigger] entries@[i].0@ != #[trigger] entries@[j].0@,
{
    match serde_json::from_slice::<serde_json::Value>(body) {
        Err(e) => Err(e.to_string()),
        Ok(v) => Ok(v.as_object().map(|o| o.iter().map(|(k, x)| (k.clone(), x.to_string())).collect())),
    }
}

/// Why a message body could not be encoded.
#[derive(Debug, PartialEq, Eq)]
pub enum EncodeError {
    /// The body is not valid JSON; the parser's description.
    Parse(String),
    /// The body is valid JSON but its top-level value is not an object.
    Shape,
}

impl EncodeError {
    /// A one-line description of the error.
    pub fn message(&self) -> (r: String)
        ensures
            match self {
                EncodeError::Parse(d) => r@ == "JSON parse error: "@ + d@,
                EncodeError::Shape => r@ == "message body is not a JSON object"@,
            },
    {
        match self {
            EncodeError::Parse(d) => {
                let mut s = String::from_str("JSON parse error: ");
                s.append(d.as_str());
                s
            },
            EncodeError::Shape => String::from_str("message body is not a JSON object"),
        }
    }
}

/// The semantic vector of one field: its key's vector bound to its value text's vector.
pub open spec fn field_vector(key: Seq<char>, text: Seq<char>) -> (Seq<usize>, Seq<usize>) {
    bound(text_vector(key), text_vector(text))
}

/// The encoded fields of one message; a field's id is its position.
pub struct EncodedFields {
    /// The semantic vector of each field.
    pub vectors: Vec<Hypervector>,
    /// The name of each field.
    pub names: Vec<String>,
    /// The finalised inverted index of `vectors`, each under its field id.
    pub index: TernaryInvertedIndex,
}

impl EncodedFields {
    /// The fields hold exactly the given entries, in order, and the index holds
    /// the postings of their vectors.
    pub open spec fn holds(&self, entries: Seq<(Seq<char>, Seq<char>)>) -> bool {
        &&& index_postings(self.index) == all_postings(views(self.vectors@))
        &&& self.vectors@.len() > 0 ==> index_max_id(self.index) < self.vectors@.len()
        &&& index_deduplicated(self.index)
        &&& self.vectors@.len() == entries.len()
        &&& self.names@.len() == entries.len()
        &&& forall|i: int|
            0 <= i < entries.len() ==> {
                &&& #[trigger] self.names@[i]@ == entries[i].0
                &&& self.vectors@[i]@ == field_vector(entries[i].0, entries[i].1)
            }
    }
}

/// What encoding `body` gives: a parse error for invalid JSON, a shape error
/// for a non-object, and otherwise one field per entry of the object.
pub open spec fn encoding_of(body: Seq<u8>, r: Result<EncodedFields, EncodeError>) -> bool {
    match json_document(body) {
        None => r is Err && r->Err_0 is Parse && r->Err_0->Parse_0@
            == json_error_text(body),
        Some(None) => r is Err && r->Err_0 is Shape,
        Some(Some(entries)) => r is Ok && r->Ok_0.holds(entries),
    }
}

/// Parses a message body as a JSON object and encodes each field as its key's
/// vector bound to its value text's vector.
pub fn encode_json_fields(body: &[u8]) -> (r: Result<EncodedFields, EncodeError>)
    ensures
        encoding_of(body@, r),
        r is Ok ==> forall|i: int, j: int|
            0 <= i < j < r->Ok_0.names@.len() ==> #[trigger] r->Ok_0.names@[i]@
                != #[trigger] r->Ok_0.names@[j]@,
{
    let entries = match read_json(body) {
        Err(d) => return Err(EncodeError::Parse(d)),
        Ok(None) => return Err(EncodeError::Shape),
        Ok(Some(entries)) => entries,
    };
    let ghost model = entry_views(entries@);
    let mut vectors: Vec<Hypervector> = Vec::new();
    let mut names: Vec<String> = Vec::new();
    let mut i: usize = 0;
    while i < entries.len()
        invariant
            i <= entries@.len(),
            model == entry_views(entries@),
            forall|a: int, b: int|
                0 <= a < b < entries@.len() ==> #[trigger] entries@[a].0@ != #[trigger] entries@[b].0@,
            vectors@.len() == i,
            names@.len() == i,
            forall|j: int|
                0 <= j < i ==> {
                    &&& #[trigger] names@[j]@ == model[j].0
                    &&& vectors@[j]@ == field_vector(model[j].0, model[j].1)
                },
        decreases entries@.len() - i,
    {
        let key_vec = encode_text(entries[i].0.as_str());
        let val_vec = encode_text(entries[i].1.as_str());
        vectors.push(bind_vectors(&key_vec, &val_vec));
        names.push(entries[i].0.clone());
        i = i + 1;
    }
    let index = build_index(&vectors);
    Ok(EncodedFields { vectors, names, index })
}

/// Encoding is a function of the body's bytes: two encodings of the same
/// bytes hold the same field names and vectors, whose serialised bytes are
/// therefore identical.
pub proof fn lemma_encoding_deterministic(
    body: Seq<u8>,
    a: Result<EncodedFields, EncodeError>,
    b: Result<EncodedFields, EncodeError>,
)
    requires
        encoding_of(body, a),
        encoding_of(body, b),
    ensures
        a is Ok <==> b is Ok,
        a is Ok ==> a->Ok_0.vectors@.len() == b->Ok_0.vectors@.len(),
        a is Ok ==> forall|i: int|
            0 <= i < a->Ok_0.vectors@.len() ==> {
                &&& #[trigger] a->Ok_0.vectors@[i]@ == b->Ok_0.vectors@[i]@
                &&& a->Ok_0.names@[i]@ == b->Ok_0.names@[i]@
                &&& bincode_of(a->Ok_0.vectors@[i]@) == bincode_of(b->Ok_0.vectors@[i]@)
            },
{
    if a is Ok {
        let entries = json_document(body)->Some_0->Some_0;
        assert forall|i: int| 0 <= i < a->Ok_0.vectors@.len() implies {
            &&& #[trigger] a->Ok_0.vectors@[i]@ == b->Ok_0.vectors@[i]@
            &&& a->Ok_0.names@[i]@ == b->Ok_0.names@[i]@
            &&& bincode_of(a->Ok_0.vectors@[i]@) == bincode_of(b->Ok_0.vectors@[i]@)
        } by {
            assert(a->Ok_0.names@[i]@ == entries[i].0);
            assert(b->Ok_0.names@[i]@ == entries[i].0);
        }
    }
}

} // verus!
