//! A plain-data image of a parsed TOML document.
//!
//! The TOML grammar itself is the business of the `toml` crate; this library
//! only reads a fixed schema out of the parsed document.  The trusted boundary
//! is therefore small: one function parses the text and hands each top-level
//! entry over as a [`RawSection`] of plain values, and everything done with
//! those sections is verified.

use vstd::prelude::*;

verus! {

/// One value inside a section, reduced to the shapes the schema knows.
/// Anything else (a float, a datetime, a nested table, a mixed array)
/// is `Other`, which every schema field rejects.
pub enum RawItem {
    Text(String),
    Int(i64),
    Flag(bool),
    TextList(Vec<String>),
    Other,
}

/// One `key = value` pair inside a section.
pub struct RawEntry {
    pub key: String,
    pub item: RawItem,
}

/// The body of a top-level entry: a table of entries, or some other value.
pub enum RawBody {
    Entries(Vec<RawEntry>),
    NotTable,
}

/// One top-level entry of the document, e.g. the `[general]` section.
pub struct RawSection {
    pub name: String,
    pub body: RawBody,
}

/// A whole parsed document.
pub struct RawDoc {
    pub sections: Vec<RawSection>,
}

/// The mathematical value of a [`RawItem`].
#[verifier::ext_equal]
pub enum ItemModel {
    Text(Seq<char>),
    Int(i64),
    Flag(bool),
    TextList(Seq<Seq<char>>),
    Other,
}

/// The mathematical value of a [`RawEntry`].
#[verifier::ext_equal]
pub struct EntryModel {
    pub key: Seq<char>,
    pub item: ItemModel,
}

/// The mathematical value of a [`RawBody`].
#[verifier::ext_equal]
pub enum BodyModel {
    Entries(Seq<EntryModel>),
    NotTable,
}

/// The mathematical value of a [`RawSection`].
#[verifier::ext_equal]
pub struct SectionModel {
    pub name: Seq<char>,
    pub body: BodyModel,
}

/// The mathematical value of a [`RawDoc`].
#[verifier::ext_equal]
pub struct DocModel {
    pub sections: Seq<SectionModel>,
}

pub open spec fn item_model(i: RawItem) -> ItemModel {
    match i {
        RawItem::Text(s) => ItemModel::Text(s@),
        RawItem::Int(n) => ItemModel::Int(n),
        RawItem::Flag(b) => ItemModel::Flag(b),
        RawItem::TextList(v) => ItemModel::TextList(v.deep_view()),
        RawItem::Other => ItemModel::Other,
    }
}

pub open spec fn entry_model(e: RawEntry) -> EntryModel {
    EntryModel { key: e.key@, item: item_model(e.item) }
}

pub open spec fn entries_model(es: Seq<RawEntry>) -> Seq<EntryModel> {
    es.map_values(|e: RawEntry| entry_model(e))
}

pub open spec fn body_model(b: RawBody) -> BodyModel {
    match b {
        RawBody::Entries(es) => BodyModel::Entries(entries_model(es@)),
        RawBody::NotTable => BodyModel::NotTable,
    }
}

pub open spec fn section_model(s: RawSection) -> SectionModel {
    SectionModel { name: s.name@, body: body_model(s.body) }
}

pub open spec fn sections_model(ss: Seq<RawSection>) -> Seq<SectionModel> {
    ss.map_values(|s: RawSection| section_model(s))
}

pub open spec fn doc_model(d: RawDoc) -> DocModel {
    DocModel { sections: sections_model(d.sections@) }
}

#[verifier::external_type_specification]
#[verifier::external_body]
pub struct ExTomlValue(toml::Value);

/// What parsing a text as a TOML document yields: the document reduced to
/// plain values, or the parser's diagnostic.  The result depends on the text
/// alone: `toml::Table::from_str` is a deterministic parser, and its map hands
/// its entries out in a deterministic (lexicographic) key order.
pub uninterp spec fn toml_raw(s: Seq<char>) -> Result<DocModel, Seq<char>>;

/// Relies on `toml::Table::from_str` to parse the document and on
/// `toml::map::Map::into_iter` to walk its top-level entries.
#[verifier::external_body]
pub(crate) fn toml_parse(s: &str) -> (r: Result<RawDoc, String>)
    ensures
        (r matches Ok(d) ==> toml_raw(s@) == Ok::<DocModel, Seq<char>>(doc_model(d))),
        (r matches Err(m) ==> toml_raw(s@) == Err::<DocModel, Seq<char>>(m@)),
{
    match s.parse::<toml::Table>() {
        Ok(t) => {
            let mut sections = Vec::new();
            for (name, value) in t {
                sections.push(raw_section(name, value));
            }
            Ok(RawDoc { sections })
        },
        Err(e) => Err(e.to_string()),
    }
}

/// Relies on the variants of `toml::Value`: a `Table` becomes a list of
/// entries, anything else is marked `NotTable`.
#[verifier::external_body]
fn raw_section(name: String, value: toml::Value) -> RawSection {
    match value {
        toml::Value::Table(t) => {
            let mut entries = Vec::new();
            for (key, item) in t {
                entries.push(RawEntry { key, item: raw_item(item) });
            }
            RawSection { name, body: RawBody::Entries(entries) }
        },
        _ => RawSection { name, body: RawBody::NotTable },
    }
}

/// Relies on the variants of `toml::Value`: each scalar moves into the
/// matching [`RawItem`]; an array of strings becomes a `TextList`; every
/// other shape is `Other`.
#[verifier::external_body]
fn raw_item(value: toml::Value) -> RawItem {
    match value {
        toml::Value::String(s) => RawItem::Text(s),
        toml::Value::Integer(n) => RawItem::Int(n),
        toml::Value::Boolean(b) => RawItem::Flag(b),
        toml::Value::Array(a) => a
            .into_iter()
            .map(|e| if let toml::Value::String(s) = e { Some(s) } else { None })
            .collect::<Option<Vec<String>>>()
            .map_or(RawItem::Other, RawItem::TextList),
        _ => RawItem::Other,
    }
}

} // verus!
