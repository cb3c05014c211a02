use crate::codec::{bincode_of, serialise_vector};
use crate::fields::{encode_json_fields, field_vector, json_document, json_error_text, EncodeError};
use crate::retrieval::{probe_result, probe_retrieval};
use crate::vector::{build_master_bundle, bundle_of, views};
use vstd::prelude::*;

verus! {

/// A failure reported by the key-value store.
#[derive(Debug, PartialEq, Eq)]
pub enum StoreError {
    /// The named bucket does not exist.
    NoSuchStore,
    /// The operation is not authorised.
    AccessDenied,
    /// Any other backend failure, with its description.
    Other(String),
}

/// The text that a store failure is reported with.
pub open spec fn store_error_text(e: StoreError) -> Seq<char> {
    match e {
        StoreError::NoSuchStore => "keyvalue error: no such store"@,
        StoreError::AccessDenied => "keyvalue error: access denied"@,
        StoreError::Other(m) => "keyvalue error: "@ + m@,
    }
}

/// Describes a store failure as the text handed back to the host.
pub fn kv_err(e: StoreError) -> (r: String)
    ensures
        r@ == store_error_text(e),
{
    match e {
        StoreError::NoSuchStore => String::from_str("keyvalue error: no such store"),
        StoreError::AccessDenied => String::from_str("keyvalue error: access denied"),
        StoreError::Other(m) => {
            let mut s = String::from_str("keyvalue error: ");
            s.append(m.as_str());
            s
        },
    }
}

/// The store key of a field's semantic vector.
pub open spec fn semantic_key(name: Seq<char>) -> Seq<char> {
    "semantic:v1:"@ + name
}

/// The store key of a subject's bundle vector.
pub open spec fn bundle_key(subject: Seq<char>) -> Seq<char> {
    "bundle:v1:"@ + subject
}

/// The store key of a field's semantic vector; the name is used verbatim.
pub fn semantic_key_for(name: &str) -> (r: String)
    ensures
        r@ == semantic_key(name@),
{
    let mut s = String::from_str("semantic:v1:");
    s.append(name);
    s
}

/// The store key of a subject's bundle vector; the subject is used verbatim.
pub fn bundle_key_for(subject: &str) -> (r: String)
    ensures
        r@ == bundle_key(subject@),
{
    let mut s = String::from_str("bundle:v1:");
    s.append(subject);
    s
}

/// One unconditional overwrite of a key in the store.
#[derive(Debug)]
pub struct Write {
    pub key: String,
    pub value: Vec<u8>,
}

/// The key and bytes of each write.
pub open spec fn write_views(ws: Seq<Write>) -> Seq<(Seq<char>, Seq<u8>)> {
    ws.map_values(|w: Write| (w.key@, w.value@))
}

/// The semantic vectors of a message's entries, in field-id order.
pub open spec fn entry_vectors(entries: Seq<(Seq<char>, Seq<char>)>) -> Seq<
    (Seq<usize>, Seq<usize>),
> {
    Seq::new(entries.len(), |i: int| field_vector(entries[i].0, entries[i].1))
}

/// The writes that persist a message: one per field, in field-id order, then
/// the bundle of all field vectors under the subject.
pub open spec fn planned_writes(subject: Seq<char>, entries: Seq<(Seq<char>, Seq<char>)>) -> Seq<
    (Seq<char>, Seq<u8>),
> {
    Seq::new(
        entries.len(),
        |i: int| (semantic_key(entries[i].0), bincode_of(field_vector(entries[i].0, entries[i].1))),
    ).push((bundle_key(subject), bincode_of(bundle_of(entry_vectors(entries)))))
}

/// What persisting a message asks of the host.
#[derive(Debug)]
pub struct Plan {
    /// The writes to perform, in order; the first that fails ends the message.
    pub writes: Vec<Write>,
    /// The field names, by field id.
    pub names: Vec<String>,
    /// How many results the retrieval self-check returned, when it ran.
    pub probe: Option<usize>,
}

/// What to do with one message.
#[derive(Debug)]
pub enum Outcome {
    /// Nothing is written; the warning to log.
    Skipped(String),
    /// The writes to perform.
    Persist(Plan),
}

/// Decides what one message on `subject` with `body` persists. A body that is
/// not JSON, not an object, or an empty object is skipped with a warning and
/// nothing written; otherwise every field vector and the bundle are written.
/// Field 0 is the query of the retrieval self-check.
pub fn plan_message(subject: &str, body: &[u8]) -> (r: Outcome)
    ensures
        match json_document(body@) {
            None => r matches Outcome::Skipped(w)
                && w@ == "skipping message: "@ + "JSON parse error: "@ + json_error_text(body@),
            Some(None) => r matches Outcome::Skipped(w)
                && w@ == "skipping message: "@ + "message body is not a JSON object"@,
            Some(Some(entries)) => if entries.len() == 0 {
                r matches Outcome::Skipped(w) && w@ == "empty JSON object; skipping"@
            } else {
                r matches Outcome::Persist(p) && {
                    &&& write_views(p.writes@) == planned_writes(subject@, entries)
                    &&& p.names@.len() == entries.len()
                    &&& forall|i: int|
                        0 <= i < entries.len() ==> #[trigger] p.names@[i]@ == entries[i].0
                    &&& p.probe == probe_result(entry_vectors(entries))
                }
            },
        },
{
    let fields = match encode_json_fields(body) {
        Err(e) => {
            let mut w = String::from_str("skipping message: ");
            let m = e.message();
            w.append(m.as_str());
            proof {
                if let EncodeError::Parse(d) = e {
                    assert(w@ =~= "skipping message: "@ + "JSON parse error: "@ + d@);
                }
            }
            return Outcome::Skipped(w);
        },
        Ok(f) => f,
    };
    let ghost entries = json_document(body@)->Some_0->Some_0;
    if fields.vectors.len() == 0 {
        return Outcome::Skipped(String::from_str("empty JSON object; skipping"));
    }
    let ghost want = planned_writes(subject@, entries);
    let mut writes: Vec<Write> = Vec::new();
    let mut i: usize = 0;
    while i < fields.vectors.len()
        invariant
            i <= fields.vectors@.len(),
            fields.holds(entries),
            want == planned_writes(subject@, entries),
            json_document(body@) == Some(Some(entries)),
            entries.len() > 0,
            write_views(writes@) == want.subrange(0, i as int),
            writes@.len() == i,
        decreases fields.vectors@.len() - i,
    {
        let value = serialise_vector(&fields.vectors[i]).unwrap();
        let key = semantic_key_for(fields.names[i].as_str());
        let ghost before = writes@;
        writes.push(Write { key, value });
        assert(fields.names@[i as int]@ == entries[i as int].0);
        assert(writes@ == before.push(Write { key, value }));
        assert(write_views(writes@) =~= want.subrange(0, i + 1)) by {
            assert(write_views(before) =~= want.subrange(0, i as int));
            assert forall|j: int| 0 <= j < i + 1 implies write_views(writes@)[j]
                == want.subrange(0, i + 1)[j] by {
                if j < i {
                    assert(writes@[j] == before[j]);
                    assert(write_views(writes@)[j] == write_views(before)[j]);
                }
            }
        }
        i = i + 1;
    }
    assert forall|j: int| 0 <= j < entries.len() implies views(fields.vectors@)[j]
        == entry_vectors(entries)[j] by {
        assert(fields.names@[j]@ == entries[j].0);
    }
    assert(views(fields.vectors@) =~= entry_vectors(entries));
    let bundle = match build_master_bundle(&fields.vectors) {
        Some(b) => b,
        None => return Outcome::Skipped(String::from_str("empty JSON object; skipping")),
    };
    let value = serialise_vector(&bundle).unwrap();
    let key = bundle_key_for(subject);
    let ghost before = writes@;
    writes.push(Write { key, value });
    assert(write_views(writes@) =~= want) by {
        assert(write_views(before) =~= want.subrange(0, entries.len() as int));
        assert forall|j: int| 0 <= j < writes@.len() implies write_views(writes@)[j]
            == want[j] by {
            if j < before.len() {
                assert(writes@[j] == before[j]);
                assert(write_views(writes@)[j] == write_views(before)[j]);
                assert(want.subrange(0, entries.len() as int)[j] == want[j]);
            }
        }
    }
    let probe = probe_retrieval(&fields.index, &fields.vectors);
    Outcome::Persist(Plan { writes, names: fields.names, probe })
}

} // verus!
