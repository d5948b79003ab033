//! The JSON text of a configuration document.
use vstd::prelude::*;
use vstd::string::*;
use crate::document::{data_key, DocModel, Document};
use crate::json::{object_members, pairs_view, parse_object, parse_string, quote, quoted, string_value};
use crate::registry::RegistryError;
use crate::string_map::{strings_view, StringMap};

verus! {

/// Member texts separated by commas.
pub open spec fn joined(ms: Seq<Seq<char>>) -> Seq<char>
    decreases ms.len(),
{
    if ms.len() == 0 {
        Seq::empty()
    } else if ms.len() == 1 {
        ms[0]
    } else {
        joined(ms.drop_last()) + seq![','] + ms.last()
    }
}

/// A JSON object written from its member texts.
pub open spec fn object_text(ms: Seq<Seq<char>>) -> Seq<char> {
    seq!['{'] + joined(ms) + seq!['}']
}

/// One member: the quoted key, a colon, and the value's JSON text.
pub open spec fn member_text(key: Seq<char>, value: Seq<char>) -> Seq<char> {
    quoted(key) + seq![':'] + value
}

/// The members for key-value pairs whose values are JSON text already.
pub open spec fn raw_members(ps: Seq<(Seq<char>, Seq<char>)>) -> Seq<Seq<char>> {
    ps.map_values(|e: (Seq<char>, Seq<char>)| member_text(e.0, e.1))
}

/// The members for key-value pairs whose values are plain strings.
pub open spec fn string_members(ps: Seq<(Seq<char>, Seq<char>)>) -> Seq<Seq<char>> {
    ps.map_values(|e: (Seq<char>, Seq<char>)| member_text(e.0, quoted(e.1)))
}

/// A document's JSON text: its fields in order, then the datatype table
/// as an object of strings under `data`.
pub open spec fn document_text(
    fields: Seq<(Seq<char>, Seq<char>)>,
    data: Option<Seq<(Seq<char>, Seq<char>)>>,
) -> Seq<char> {
    object_text(
        raw_members(fields) + match data {
            Some(d) => seq![member_text(data_key(), object_text(string_members(d)))],
            None => Seq::empty(),
        },
    )
}

/// The fields that a document's members give: every member but `data`, a
/// later member overriding an earlier one of the same key.
pub open spec fn fields_of(ms: Seq<(Seq<char>, Seq<char>)>) -> Map<Seq<char>, Seq<char>>
    decreases ms.len(),
{
    if ms.len() == 0 {
        Map::empty()
    } else if ms.last().0 == data_key() {
        fields_of(ms.drop_last())
    } else {
        fields_of(ms.drop_last()).insert(ms.last().0, ms.last().1)
    }
}

/// The JSON text of the last `data` member, if there is one.
pub open spec fn data_text_of(ms: Seq<(Seq<char>, Seq<char>)>) -> Option<Seq<char>>
    decreases ms.len(),
{
    if ms.len() == 0 {
        None
    } else if ms.last().0 == data_key() {
        Some(ms.last().1)
    } else {
        data_text_of(ms.drop_last())
    }
}

/// Every member's value is one JSON string.
pub open spec fn all_strings(ms: Seq<(Seq<char>, Seq<char>)>) -> bool {
    forall|i: int| 0 <= i < ms.len() ==> string_value(ms[i].1).is_some()
}

/// The table of strings that members whose values are JSON strings give.
pub open spec fn table_of(ms: Seq<(Seq<char>, Seq<char>)>) -> Map<Seq<char>, Seq<char>>
    decreases ms.len(),
{
    if ms.len() == 0 {
        Map::empty()
    } else {
        table_of(ms.drop_last()).insert(ms.last().0, string_value(ms.last().1).unwrap())
    }
}

/// The document that the members of a JSON object give, or `None` where
/// `data` is not an object of strings.
pub open spec fn decoded_members(ms: Seq<(Seq<char>, Seq<char>)>) -> Option<DocModel> {
    match data_text_of(ms) {
        None => Some(DocModel { fields: fields_of(ms), data: None }),
        Some(t) => match object_members(t) {
            Some(ds) => if all_strings(ds) {
                Some(DocModel { fields: fields_of(ms), data: Some(table_of(ds)) })
            } else {
                None
            },
            None => None,
        },
    }
}

/// The document that JSON text gives, or `None` where it is malformed.
pub open spec fn decoded(text: Seq<char>) -> Option<DocModel> {
    match object_members(text) {
        Some(ms) => decoded_members(ms),
        None => None,
    }
}

/// Reads a datatype table from members whose values must be JSON strings.
fn decode_table(ms: &Vec<(String, String)>) -> (r: Option<StringMap>)
    ensures
        r.is_some() == all_strings(pairs_view(ms@)),
        r.is_some() ==> r.unwrap().wf() && r.unwrap()@ == table_of(pairs_view(ms@)),
{
    let ghost pv = pairs_view(ms@);
    let mut t = StringMap::new();
    let mut i: usize = 0;
    while i < ms.len()
        invariant
            pv == pairs_view(ms@),
            0 <= i <= ms@.len(),
            t.wf(),
            t@ == table_of(pv.take(i as int)),
            all_strings(pv.take(i as int)),
        decreases ms@.len() - i,
    {
        let v = match parse_string(ms[i].1.as_str()) {
            Some(v) => v,
            None => {
                assert(string_value(pv[i as int].1).is_none());
                return None;
            },
        };
        let ghost before = pv.take(i as int);
        t.insert(ms[i].0.clone(), v);
        i = i + 1;
        proof {
            let now = pv.take(i as int);
            assert(now.drop_last() =~= before);
            assert(all_strings(now));
        }
    }
    assert(pv.take(i as int) =~= pv);
    Some(t)
}

impl Document {
    /// The document that the members of a JSON object give, each key with
    /// its value's JSON text. `Malformed` where `data` is not an object of
    /// strings.
    pub fn from_members(ms: &Vec<(String, String)>) -> (r: Result<Document, RegistryError>)
        ensures
            match decoded_members(pairs_view(ms@)) {
                Some(d) => r.is_ok() && r.unwrap().wf() && r.unwrap()@ == d,
                None => r == Err::<Document, RegistryError>(RegistryError::Malformed),
            },
    {
        let ghost pv = pairs_view(ms@);
        let data = String::from_str("data");
        proof {
            reveal_strlit("data");
            assert(data@ =~= data_key());
        }
        let mut doc = Document::new();
        let mut data_at: Option<usize> = None;
        let mut i: usize = 0;
        while i < ms.len()
            invariant
                pv == pairs_view(ms@),
                data@ == data_key(),
                0 <= i <= ms@.len(),
                doc.wf(),
                doc@.data.is_none(),
                doc@.fields == fields_of(pv.take(i as int)),
                match data_at {
                    None => data_text_of(pv.take(i as int)).is_none(),
                    Some(j) => j < i && data_text_of(pv.take(i as int)) == Some(pv[j as int].1),
                },
            decreases ms@.len() - i,
        {
            let ghost before = pv.take(i as int);
            if ms[i].0 == data {
                data_at = Some(i);
            } else {
                doc.set_field(ms[i].0.clone(), ms[i].1.clone());
            }
            i = i + 1;
            proof {
                let now = pv.take(i as int);
                assert(now.drop_last() =~= before);
            }
        }
        assert(pv.take(i as int) =~= pv);
        match data_at {
            None => Ok(doc),
            Some(j) => match parse_object(ms[j].1.as_str()) {
                Some(inner) => match decode_table(&inner) {
                    Some(t) => {
                        doc.set_table(t);
                        Ok(doc)
                    },
                    None => Err(RegistryError::Malformed),
                },
                None => Err(RegistryError::Malformed),
            },
        }
    }

    /// The document that JSON text gives; `Malformed` where the text is not
    /// one JSON object, or its `data` is not an object of strings.
    pub fn from_json(text: &str) -> (r: Result<Document, RegistryError>)
        ensures
            match decoded(text@) {
                Some(d) => r.is_ok() && r.unwrap().wf() && r.unwrap()@ == d,
                None => r == Err::<Document, RegistryError>(RegistryError::Malformed),
            },
    {
        match parse_object(text) {
            Some(ms) => Document::from_members(&ms),
            None => Err(RegistryError::Malformed),
        }
    }
}

/// Writes a JSON object from member texts.
pub fn write_object(members: &Vec<String>) -> (r: String)
    ensures
        r@ == object_text(strings_view(members@)),
{
    let mut out = String::from_str("{");
    proof {
        reveal_strlit("{");
        reveal_strlit(",");
        reveal_strlit("}");
    }
    let mut i: usize = 0;
    while i < members.len()
        invariant
            0 <= i <= members@.len(),
            out@ == seq!['{'] + joined(strings_view(members@).take(i as int)),
        decreases members@.len() - i,
    {
        let ghost before = strings_view(members@).take(i as int);
        let ghost out0 = out@;
        proof {
            reveal_strlit(",");
        }
        if i > 0 {
            out.append(",");
        }
        out.append(members[i].as_str());
        i = i + 1;
        proof {
            let now = strings_view(members@).take(i as int);
            assert(now.drop_last() =~= before);
            assert(now.last() == members@[i - 1]@);
            if i == 1 {
                assert(before =~= Seq::<Seq<char>>::empty());
                assert(joined(now) == now[0]);
                assert(out@ =~= seq!['{'] + joined(now));
            } else {
                assert(joined(now) == joined(before) + seq![','] + now.last());
                assert(out@ =~= out0 + seq![','] + now.last());
                assert(out@ =~= seq!['{'] + joined(now));
            }
        }
    }
    out.append("}");
    proof {
        assert(strings_view(members@).take(i as int) =~= strings_view(members@));
    }
    out
}

/// The member for `key` with the value's JSON text.
fn member(key: &String, value: &str) -> (r: String)
    ensures
        r@ == member_text(key@, value@),
{
    let mut m = quote(key.as_str());
    proof {
        reveal_strlit(":");
    }
    m.append(":");
    m.append(value);
    m
}

/// The members of a table; string values are quoted where `as_strings` holds.
fn table_members(table: &StringMap, as_strings: bool) -> (r: Vec<String>)
    ensures
        as_strings ==> strings_view(r@) == string_members(table.pairs()),
        !as_strings ==> strings_view(r@) == raw_members(table.pairs()),
{
    let mut r: Vec<String> = Vec::new();
    let mut i: usize = 0;
    let n = table.len();
    while i < n
        invariant
            n == table.pairs().len(),
            0 <= i <= n,
            r@.len() == i,
            forall|j: int|
                0 <= j < i ==> r@[j]@ == (if as_strings {
                    member_text(table.pairs()[j].0, quoted(table.pairs()[j].1))
                } else {
                    member_text(table.pairs()[j].0, table.pairs()[j].1)
                }),
        decreases n - i,
    {
        let (k, v) = table.pair_at(i);
        if as_strings {
            let q = quote(v.as_str());
            r.push(member(k, q.as_str()));
        } else {
            r.push(member(k, v.as_str()));
        }
        i = i + 1;
    }
    proof {
        if as_strings {
            assert(strings_view(r@) =~= string_members(table.pairs()));
        } else {
            assert(strings_view(r@) =~= raw_members(table.pairs()));
        }
    }
    r
}

impl Document {
    /// The document as compact JSON text.
    pub fn to_json(&self) -> (r: String)
        ensures
            r@ == document_text(self.field_pairs(), self.data_pairs()),
    {
        let mut members = table_members(self.fields(), false);
        let ghost fields_part = strings_view(members@);
        match self.table() {
            Some(t) => {
                let inner = table_members(t, true);
                let obj = write_object(&inner);
                let key = String::from_str("data");
                proof {
                    reveal_strlit("data");
                    assert(key@ =~= data_key());
                }
                members.push(member(&key, obj.as_str()));
                proof {
                    assert(strings_view(members@) =~= fields_part + seq![
                        member_text(data_key(), object_text(string_members(self.data_pairs().unwrap()))),
                    ]);
                }
            },
            None => {
                proof {
                    assert(strings_view(members@) =~= fields_part + Seq::<Seq<char>>::empty());
                }
            },
        }
        write_object(&members)
    }
}

} // verus!
