//! Reading the configuration schema out of a parsed TOML document.
//!
//! The document arrives as a [`RawDoc`] (see [`crate::raw`]); everything in
//! this module is verified against spec functions that say, entry by entry,
//! which documents yield a [`Config`] and which diagnostic every other
//! document yields.  Top-level entries and keys that the schema does not know
//! are ignored; a missing required field or a field of the wrong shape is a
//! parse failure; the `[mail_from_master]` section as a whole is optional.

use vstd::prelude::*;

use crate::config::Config;
use crate::config::ConfigModel;
use crate::config::ConfigReadErr;
use crate::config::General;
use crate::config::GeneralModel;
use crate::config::MailFromMaster;
use crate::config::MailFromMasterModel;
use crate::config::Snapshot;
use crate::config::SnapshotModel;
use crate::config::config_model;
use crate::config::general_model;
use crate::config::mail_model;
use crate::config::opt_view;
use crate::config::snapshot_model;
use crate::raw::BodyModel;
use crate::raw::DocModel;
use crate::raw::EntryModel;
use crate::raw::ItemModel;
use crate::raw::RawBody;
use crate::raw::RawDoc;
use crate::raw::RawEntry;
use crate::raw::RawItem;
use crate::raw::RawSection;
use crate::raw::SectionModel;
use crate::raw::doc_model;
use crate::raw::entries_model;
use crate::raw::entry_model;
use crate::raw::section_model;
use crate::raw::sections_model;
use crate::raw::toml_parse;
use crate::raw::toml_raw;

verus! {

// ---------------------------------------------------------------------------
// Diagnostics
// ---------------------------------------------------------------------------

pub open spec fn missing_section_msg(section: Seq<char>) -> Seq<char> {
    "missing section ["@ + section + "]"@
}

pub open spec fn invalid_section_msg(section: Seq<char>) -> Seq<char> {
    "section ["@ + section + "] is not a table"@
}

pub open spec fn missing_field_msg(field: Seq<char>, section: Seq<char>) -> Seq<char> {
    "missing field "@ + field + " in section ["@ + section + "]"@
}

pub open spec fn invalid_field_msg(field: Seq<char>, section: Seq<char>) -> Seq<char> {
    "invalid value for field "@ + field + " in section ["@ + section + "]"@
}

fn missing_section_err(section: &str) -> (r: String)
    ensures
        r@ == missing_section_msg(section@),
{
    let mut m = String::from_str("missing section [");
    m.append(section);
    m.append("]");
    m
}

fn invalid_section_err(section: &str) -> (r: String)
    ensures
        r@ == invalid_section_msg(section@),
{
    let mut m = String::from_str("section [");
    m.append(section);
    m.append("] is not a table");
    m
}

fn missing_field_err(field: &str, section: &str) -> (r: String)
    ensures
        r@ == missing_field_msg(field@, section@),
{
    let mut m = String::from_str("missing field ");
    m.append(field);
    m.append(" in section [");
    m.append(section);
    m.append("]");
    m
}

fn invalid_field_err(field: &str, section: &str) -> (r: String)
    ensures
        r@ == invalid_field_msg(field@, section@),
{
    let mut m = String::from_str("invalid value for field ");
    m.append(field);
    m.append(" in section [");
    m.append(section);
    m.append("]");
    m
}

// ---------------------------------------------------------------------------
// Lookup: the first entry under a name wins
// ---------------------------------------------------------------------------

pub open spec fn lookup_body(ss: Seq<SectionModel>, name: Seq<char>) -> Option<BodyModel>
    decreases ss.len(),
{
    if ss.len() == 0 {
        None
    } else if ss[0].name == name {
        Some(ss[0].body)
    } else {
        lookup_body(ss.drop_first(), name)
    }
}

pub open spec fn lookup_item(es: Seq<EntryModel>, key: Seq<char>) -> Option<ItemModel>
    decreases es.len(),
{
    if es.len() == 0 {
        None
    } else if es[0].key == key {
        Some(es[0].item)
    } else {
        lookup_item(es.drop_first(), key)
    }
}

proof fn lemma_lookup_body_found(ss: Seq<SectionModel>, name: Seq<char>, i: int)
    requires
        0 <= i < ss.len(),
        ss[i].name == name,
        forall|j: int| 0 <= j < i ==> #[trigger] ss[j].name != name,
    ensures
        lookup_body(ss, name) == Some(ss[i].body),
    decreases i,
{
    if i > 0 {
        assert forall|j: int| 0 <= j < i - 1 implies #[trigger] ss.drop_first()[j].name
            != name by {
            assert(ss.drop_first()[j] == ss[j + 1]);
        }
        lemma_lookup_body_found(ss.drop_first(), name, i - 1);
    }
}

proof fn lemma_lookup_body_none(ss: Seq<SectionModel>, name: Seq<char>)
    requires
        forall|j: int| 0 <= j < ss.len() ==> #[trigger] ss[j].name != name,
    ensures
        lookup_body(ss, name) is None,
    decreases ss.len(),
{
    if ss.len() > 0 {
        assert forall|j: int| 0 <= j < ss.drop_first().len() implies #[trigger] ss.drop_first()[j].name != name by {
            assert(ss.drop_first()[j] == ss[j + 1]);
        }
        lemma_lookup_body_none(ss.drop_first(), name);
    }
}

proof fn lemma_lookup_item_found(es: Seq<EntryModel>, key: Seq<char>, i: int)
    requires
        0 <= i < es.len(),
        es[i].key == key,
        forall|j: int| 0 <= j < i ==> #[trigger] es[j].key != key,
    ensures
        lookup_item(es, key) == Some(es[i].item),
    decreases i,
{
    if i > 0 {
        assert forall|j: int| 0 <= j < i - 1 implies #[trigger] es.drop_first()[j].key != key by {
            assert(es.drop_first()[j] == es[j + 1]);
        }
        lemma_lookup_item_found(es.drop_first(), key, i - 1);
    }
}

proof fn lemma_lookup_item_none(es: Seq<EntryModel>, key: Seq<char>)
    requires
        forall|j: int| 0 <= j < es.len() ==> #[trigger] es[j].key != key,
    ensures
        lookup_item(es, key) is None,
    decreases es.len(),
{
    if es.len() > 0 {
        assert forall|j: int| 0 <= j < es.drop_first().len() implies #[trigger] es.drop_first()[j].key != key by {
            assert(es.drop_first()[j] == es[j + 1]);
        }
        lemma_lookup_item_none(es.drop_first(), key);
    }
}

fn find_section(sections: &Vec<RawSection>, name: &String) -> (r: Option<usize>)
    ensures
        (r matches Some(i) ==> i < sections@.len() && sections@[i as int].name@ == name@
            && (forall|j: int| 0 <= j < i as int ==> #[trigger] sections@[j].name@ != name@)),
        (r is None ==> forall|j: int|
            0 <= j < sections@.len() ==> #[trigger] sections@[j].name@ != name@),
{
    let mut i: usize = 0;
    while i < sections.len()
        invariant
            i <= sections@.len(),
            forall|j: int| 0 <= j < i as int ==> #[trigger] sections@[j].name@ != name@,
        decreases sections@.len() - i,
    {
        if sections[i].name == *name {
            return Some(i);
        }
        i += 1;
    }
    None
}

fn find_entry(entries: &Vec<RawEntry>, key: &String) -> (r: Option<usize>)
    ensures
        (r matches Some(i) ==> i < entries@.len() && entries@[i as int].key@ == key@
            && (forall|j: int| 0 <= j < i as int ==> #[trigger] entries@[j].key@ != key@)),
        (r is None ==> forall|j: int|
            0 <= j < entries@.len() ==> #[trigger] entries@[j].key@ != key@),
{
    let mut i: usize = 0;
    while i < entries.len()
        invariant
            i <= entries@.len(),
            forall|j: int| 0 <= j < i as int ==> #[trigger] entries@[j].key@ != key@,
        decreases entries@.len() - i,
    {
        if entries[i].key == *key {
            return Some(i);
        }
        i += 1;
    }
    None
}

// ---------------------------------------------------------------------------
// Field extraction
// ---------------------------------------------------------------------------

pub open spec fn field_text(es: Seq<EntryModel>, key: Seq<char>, section: Seq<char>) -> Result<
    Seq<char>,
    Seq<char>,
> {
    match lookup_item(es, key) {
        Option::None => Err(missing_field_msg(key, section)),
        Option::Some(ItemModel::Text(s)) => Ok(s),
        Option::Some(_) => Err(invalid_field_msg(key, section)),
    }
}

pub open spec fn field_opt_text(es: Seq<EntryModel>, key: Seq<char>, section: Seq<char>) -> Result<
    Option<Seq<char>>,
    Seq<char>,
> {
    match lookup_item(es, key) {
        Option::None => Ok(None),
        Option::Some(ItemModel::Text(s)) => Ok(Some(s)),
        Option::Some(_) => Err(invalid_field_msg(key, section)),
    }
}

pub open spec fn field_u32(es: Seq<EntryModel>, key: Seq<char>, section: Seq<char>) -> Result<
    u32,
    Seq<char>,
> {
    match lookup_item(es, key) {
        Option::None => Err(missing_field_msg(key, section)),
        Option::Some(ItemModel::Int(n)) => if 0 <= n && n < 4294967296i64 {
            Ok(n as u32)
        } else {
            Err(invalid_field_msg(key, section))
        },
        Option::Some(_) => Err(invalid_field_msg(key, section)),
    }
}

pub open spec fn field_flag(es: Seq<EntryModel>, key: Seq<char>, section: Seq<char>) -> Result<
    bool,
    Seq<char>,
> {
    match lookup_item(es, key) {
        Option::None => Err(missing_field_msg(key, section)),
        Option::Some(ItemModel::Flag(b)) => Ok(b),
        Option::Some(_) => Err(invalid_field_msg(key, section)),
    }
}

pub open spec fn field_text_list(es: Seq<EntryModel>, key: Seq<char>, section: Seq<char>) -> Result<
    Seq<Seq<char>>,
    Seq<char>,
> {
    match lookup_item(es, key) {
        Option::None => Err(missing_field_msg(key, section)),
        Option::Some(ItemModel::TextList(ts)) => Ok(ts),
        Option::Some(_) => Err(invalid_field_msg(key, section)),
    }
}

fn clone_strings(v: &Vec<String>) -> (r: Vec<String>)
    ensures
        r@ == v@,
{
    let mut out: Vec<String> = Vec::new();
    let mut i: usize = 0;
    while i < v.len()
        invariant
            i <= v@.len(),
            out@.len() == i as int,
            forall|j: int| 0 <= j < i as int ==> #[trigger] out@[j] == v@[j],
        decreases v@.len() - i,
    {
        out.push(v[i].clone());
        i += 1;
    }
    proof {
        assert(out@ =~= v@);
    }
    out
}

/// Establishes what `lookup_item` yields on the model of `entries`,
/// from what `find_entry` said about the entries themselves.
proof fn lemma_entry_search(entries: Seq<RawEntry>, key: Seq<char>, found: Option<usize>)
    requires
        (found matches Some(i) ==> i < entries.len() && entries[i as int].key@ == key
            && (forall|j: int| 0 <= j < i as int ==> #[trigger] entries[j].key@ != key)),
        (found is None ==> forall|j: int| 0 <= j < entries.len() ==> #[trigger] entries[j].key@ != key),
    ensures
        (found matches Some(i) ==> lookup_item(entries_model(entries), key) == Some(
            entry_model(entries[i as int]).item,
        )),
        (found is None ==> lookup_item(entries_model(entries), key) is None),
{
    let ms = entries_model(entries);
    match found {
        Some(i) => {
            assert forall|j: int| 0 <= j < i as int implies #[trigger] ms[j].key != key by {
                assert(ms[j] == entry_model(entries[j]));
            }
            assert(ms[i as int] == entry_model(entries[i as int]));
            lemma_lookup_item_found(ms, key, i as int);
        },
        None => {
            assert forall|j: int| 0 <= j < ms.len() implies #[trigger] ms[j].key != key by {
                assert(ms[j] == entry_model(entries[j]));
            }
            lemma_lookup_item_none(ms, key);
        },
    }
}

fn read_text(entries: &Vec<RawEntry>, key: &str, section: &str) -> (r: Result<String, String>)
    ensures
        (r matches Ok(s) ==> field_text(entries_model(entries@), key@, section@) == Ok::<
            Seq<char>,
            Seq<char>,
        >(s@)),
        (r matches Err(m) ==> field_text(entries_model(entries@), key@, section@) == Err::<
            Seq<char>,
            Seq<char>,
        >(m@)),
{
    let key_string = String::from_str(key);
    let found = find_entry(entries, &key_string);
    proof {
        lemma_entry_search(entries@, key@, found);
    }
    match found {
        None => Err(missing_field_err(key, section)),
        Some(i) => match &entries[i].item {
            RawItem::Text(s) => Ok(s.clone()),
            _ => Err(invalid_field_err(key, section)),
        },
    }
}

fn read_opt_text(entries: &Vec<RawEntry>, key: &str, section: &str) -> (r: Result<
    Option<String>,
    String,
>)
    ensures
        (r matches Ok(s) ==> field_opt_text(entries_model(entries@), key@, section@) == Ok::<
            Option<Seq<char>>,
            Seq<char>,
        >(opt_view(s))),
        (r matches Err(m) ==> field_opt_text(entries_model(entries@), key@, section@) == Err::<
            Option<Seq<char>>,
            Seq<char>,
        >(m@)),
{
    let key_string = String::from_str(key);
    let found = find_entry(entries, &key_string);
    proof {
        lemma_entry_search(entries@, key@, found);
    }
    match found {
        None => Ok(None),
        Some(i) => match &entries[i].item {
            RawItem::Text(s) => Ok(Some(s.clone())),
            _ => Err(invalid_field_err(key, section)),
        },
    }
}

fn read_u32(entries: &Vec<RawEntry>, key: &str, section: &str) -> (r: Result<u32, String>)
    ensures
        (r matches Ok(n) ==> field_u32(entries_model(entries@), key@, section@) == Ok::<
            u32,
            Seq<char>,
        >(n)),
        (r matches Err(m) ==> field_u32(entries_model(entries@), key@, section@) == Err::<
            u32,
            Seq<char>,
        >(m@)),
{
    let key_string = String::from_str(key);
    let found = find_entry(entries, &key_string);
    proof {
        lemma_entry_search(entries@, key@, found);
    }
    match found {
        None => Err(missing_field_err(key, section)),
        Some(i) => match &entries[i].item {
            RawItem::Int(n) => {
                let n: i64 = *n;
                if 0 <= n && n < 4294967296i64 {
                    Ok(n as u32)
                } else {
                    Err(invalid_field_err(key, section))
                }
            },
            _ => Err(invalid_field_err(key, section)),
        },
    }
}

fn read_flag(entries: &Vec<RawEntry>, key: &str, section: &str) -> (r: Result<bool, String>)
    ensures
        (r matches Ok(b) ==> field_flag(entries_model(entries@), key@, section@) == Ok::<
            bool,
            Seq<char>,
        >(b)),
        (r matches Err(m) ==> field_flag(entries_model(entries@), key@, section@) == Err::<
            bool,
            Seq<char>,
        >(m@)),
{
    let key_string = String::from_str(key);
    let found = find_entry(entries, &key_string);
    proof {
        lemma_entry_search(entries@, key@, found);
    }
    match found {
        None => Err(missing_field_err(key, section)),
        Some(i) => match &entries[i].item {
            RawItem::Flag(b) => Ok(*b),
            _ => Err(invalid_field_err(key, section)),
        },
    }
}

fn read_text_list(entries: &Vec<RawEntry>, key: &str, section: &str) -> (r: Result<
    Vec<String>,
    String,
>)
    ensures
        (r matches Ok(ts) ==> field_text_list(entries_model(entries@), key@, section@) == Ok::<
            Seq<Seq<char>>,
            Seq<char>,
        >(ts.deep_view())),
        (r matches Err(m) ==> field_text_list(entries_model(entries@), key@, section@) == Err::<
            Seq<Seq<char>>,
            Seq<char>,
        >(m@)),
{
    let key_string = String::from_str(key);
    let found = find_entry(entries, &key_string);
    proof {
        lemma_entry_search(entries@, key@, found);
    }
    match found {
        None => Err(missing_field_err(key, section)),
        Some(i) => match &entries[i].item {
            RawItem::TextList(ts) => {
                let out = clone_strings(ts);
                proof {
                    assert(out.deep_view() =~= ts.deep_view());
                }
                Ok(out)
            },
            _ => Err(invalid_field_err(key, section)),
        },
    }
}

// ---------------------------------------------------------------------------
// Sections
// ---------------------------------------------------------------------------

pub open spec fn general_of(es: Seq<EntryModel>) -> Result<GeneralModel, Seq<char>> {
    match field_text(es, "gluster_bin"@, "general"@) {
        Err(m) => Err(m),
        Ok(gluster_bin) => match field_text(es, "ggsnap_slave_bin"@, "general"@) {
            Err(m) => Err(m),
            Ok(ggsnap_slave_bin) => Ok(GeneralModel { gluster_bin, ggsnap_slave_bin }),
        },
    }
}

pub open spec fn snapshot_of(es: Seq<EntryModel>) -> Result<SnapshotModel, Seq<char>> {
    match field_u32(es, "number_days_every_day"@, "snapshot"@) {
        Err(m) => Err(m),
        Ok(number_days_every_day) => match field_u32(es, "number_months_with_two"@, "snapshot"@) {
            Err(m) => Err(m),
            Ok(number_months_with_two) => match field_u32(es, "number_months_total"@, "snapshot"@) {
                Err(m) => Err(m),
                Ok(number_months_total) => match field_opt_text(es, "master_volume"@, "snapshot"@) {
                    Err(m) => Err(m),
                    Ok(master_volume) => match field_opt_text(es, "slave_volume"@, "snapshot"@) {
                        Err(m) => Err(m),
                        Ok(slave_volume) => match field_opt_text(
                            es,
                            "slave_hostname"@,
                            "snapshot"@,
                        ) {
                            Err(m) => Err(m),
                            Ok(slave_hostname) => match field_opt_text(
                                es,
                                "slave_user"@,
                                "snapshot"@,
                            ) {
                                Err(m) => Err(m),
                                Ok(slave_user) => Ok(
                                    SnapshotModel {
                                        number_days_every_day,
                                        number_months_with_two,
                                        number_months_total,
                                        master_volume,
                                        slave_volume,
                                        slave_hostname,
                                        slave_user,
                                    },
                                ),
                            },
                        },
                    },
                },
            },
        },
    }
}

pub open spec fn mail_of(es: Seq<EntryModel>) -> Result<MailFromMasterModel, Seq<char>> {
    match field_text(es, "smtp_server"@, "mail_from_master"@) {
        Err(m) => Err(m),
        Ok(smtp_server) => match field_text(es, "authentification_mechanism"@, "mail_from_master"@) {
            Err(m) => Err(m),
            Ok(authentification_mechanism) => match field_text(es, "username"@, "mail_from_master"@) {
                Err(m) => Err(m),
                Ok(username) => match field_text(es, "password"@, "mail_from_master"@) {
                    Err(m) => Err(m),
                    Ok(password) => match field_text(
                        es,
                        "from_sender_address"@,
                        "mail_from_master"@,
                    ) {
                        Err(m) => Err(m),
                        Ok(from_sender_address) => match field_text_list(
                            es,
                            "to_addresses"@,
                            "mail_from_master"@,
                        ) {
                            Err(m) => Err(m),
                            Ok(to_addresses) => match field_flag(es, "enable"@, "mail_from_master"@) {
                                Err(m) => Err(m),
                                Ok(enable) => Ok(
                                    MailFromMasterModel {
                                        smtp_server,
                                        authentification_mechanism,
                                        username,
                                        password,
                                        from_sender_address,
                                        to_addresses,
                                        enable,
                                    },
                                ),
                            },
                        },
                    },
                },
            },
        },
    }
}

fn general_from(entries: &Vec<RawEntry>) -> (r: Result<General, String>)
    ensures
        (r matches Ok(g) ==> general_of(entries_model(entries@)) == Ok::<GeneralModel, Seq<char>>(
            general_model(g),
        )),
        (r matches Err(m) ==> general_of(entries_model(entries@)) == Err::<GeneralModel, Seq<char>>(
            m@,
        )),
{
    let gluster_bin = match read_text(entries, "gluster_bin", "general") {
        Ok(s) => s,
        Err(m) => {
            return Err(m);
        },
    };
    let ggsnap_slave_bin = match read_text(entries, "ggsnap_slave_bin", "general") {
        Ok(s) => s,
        Err(m) => {
            return Err(m);
        },
    };
    Ok(General { gluster_bin, ggsnap_slave_bin })
}

fn snapshot_from(entries: &Vec<RawEntry>) -> (r: Result<Snapshot, String>)
    ensures
        (r matches Ok(s) ==> snapshot_of(entries_model(entries@)) == Ok::<
            SnapshotModel,
            Seq<char>,
        >(snapshot_model(s))),
        (r matches Err(m) ==> snapshot_of(entries_model(entries@)) == Err::<
            SnapshotModel,
            Seq<char>,
        >(m@)),
{
    let number_days_every_day = match read_u32(entries, "number_days_every_day", "snapshot") {
        Ok(n) => n,
        Err(m) => {
            return Err(m);
        },
    };
    let number_months_with_two = match read_u32(entries, "number_months_with_two", "snapshot") {
        Ok(n) => n,
        Err(m) => {
            return Err(m);
        },
    };
    let number_months_total = match read_u32(entries, "number_months_total", "snapshot") {
        Ok(n) => n,
        Err(m) => {
            return Err(m);
        },
    };
    let master_volume = match read_opt_text(entries, "master_volume", "snapshot") {
        Ok(o) => o,
        Err(m) => {
            return Err(m);
        },
    };
    let slave_volume = match read_opt_text(entries, "slave_volume", "snapshot") {
        Ok(o) => o,
        Err(m) => {
            return Err(m);
        },
    };
    let slave_hostname = match read_opt_text(entries, "slave_hostname", "snapshot") {
        Ok(o) => o,
        Err(m) => {
            return Err(m);
        },
    };
    let slave_user = match read_opt_text(entries, "slave_user", "snapshot") {
        Ok(o) => o,
        Err(m) => {
            return Err(m);
        },
    };
    Ok(
        Snapshot {
            number_days_every_day,
            number_months_with_two,
            number_months_total,
            master_volume,
            slave_volume,
            slave_hostname,
            slave_user,
        },
    )
}

fn mail_from(entries: &Vec<RawEntry>) -> (r: Result<MailFromMaster, String>)
    ensures
        (r matches Ok(m) ==> mail_of(entries_model(entries@)) == Ok::<
            MailFromMasterModel,
            Seq<char>,
        >(mail_model(m))),
        (r matches Err(m) ==> mail_of(entries_model(entries@)) == Err::<
            MailFromMasterModel,
            Seq<char>,
        >(m@)),
{
    let smtp_server = match read_text(entries, "smtp_server", "mail_from_master") {
        Ok(s) => s,
        Err(m) => {
            return Err(m);
        },
    };
    let authentification_mechanism = match read_text(
        entries,
        "authentification_mechanism",
        "mail_from_master",
    ) {
        Ok(s) => s,
        Err(m) => {
            return Err(m);
        },
    };
    let username = match read_text(entries, "username", "mail_from_master") {
        Ok(s) => s,
        Err(m) => {
            return Err(m);
        },
    };
    let password = match read_text(entries, "password", "mail_from_master") {
        Ok(s) => s,
        Err(m) => {
            return Err(m);
        },
    };
    let from_sender_address = match read_text(entries, "from_sender_address", "mail_from_master") {
        Ok(s) => s,
        Err(m) => {
            return Err(m);
        },
    };
    let to_addresses = match read_text_list(entries, "to_addresses", "mail_from_master") {
        Ok(ts) => ts,
        Err(m) => {
            return Err(m);
        },
    };
    let enable = match read_flag(entries, "enable", "mail_from_master") {
        Ok(b) => b,
        Err(m) => {
            return Err(m);
        },
    };
    Ok(
        MailFromMaster {
            smtp_server,
            authentification_mechanism,
            username,
            password,
            from_sender_address,
            to_addresses,
            enable,
        },
    )
}

// ---------------------------------------------------------------------------
// The whole document
// ---------------------------------------------------------------------------

/// Which configuration, or which diagnostic, a parsed document yields.
/// `[general]` and `[snapshot]` are required, `[mail_from_master]` is
/// optional; sections the schema does not know are ignored.
pub open spec fn config_of_doc(d: DocModel) -> Result<ConfigModel, Seq<char>> {
    match lookup_body(d.sections, "general"@) {
        Option::None => Err(missing_section_msg("general"@)),
        Option::Some(BodyModel::NotTable) => Err(invalid_section_msg("general"@)),
        Option::Some(BodyModel::Entries(ges)) => match general_of(ges) {
            Err(m) => Err(m),
            Ok(general) => match lookup_body(d.sections, "snapshot"@) {
                Option::None => Err(missing_section_msg("snapshot"@)),
                Option::Some(BodyModel::NotTable) => Err(invalid_section_msg("snapshot"@)),
                Option::Some(BodyModel::Entries(ses)) => match snapshot_of(ses) {
                    Err(m) => Err(m),
                    Ok(snapshot) => match lookup_body(d.sections, "mail_from_master"@) {
                        Option::None => Ok(
                            ConfigModel { general, snapshot, mail_from_master: None },
                        ),
                        Option::Some(BodyModel::NotTable) => Err(
                            invalid_section_msg("mail_from_master"@),
                        ),
                        Option::Some(BodyModel::Entries(mes)) => match mail_of(mes) {
                            Err(m) => Err(m),
                            Ok(mail) => Ok(
                                ConfigModel { general, snapshot, mail_from_master: Some(mail) },
                            ),
                        },
                    },
                },
            },
        },
    }
}

/// Establishes what `lookup_body` yields on the model of `sections`,
/// from what `find_section` said about the sections themselves.
proof fn lemma_section_search(sections: Seq<RawSection>, name: Seq<char>, found: Option<usize>)
    requires
        (found matches Some(i) ==> i < sections.len() && sections[i as int].name@ == name
            && (forall|j: int| 0 <= j < i as int ==> #[trigger] sections[j].name@ != name)),
        (found is None ==> forall|j: int|
            0 <= j < sections.len() ==> #[trigger] sections[j].name@ != name),
    ensures
        (found matches Some(i) ==> lookup_body(sections_model(sections), name) == Some(
            section_model(sections[i as int]).body,
        )),
        (found is None ==> lookup_body(sections_model(sections), name) is None),
{
    let ms = sections_model(sections);
    match found {
        Some(i) => {
            assert forall|j: int| 0 <= j < i as int implies #[trigger] ms[j].name != name by {
                assert(ms[j] == section_model(sections[j]));
            }
            assert(ms[i as int] == section_model(sections[i as int]));
            lemma_lookup_body_found(ms, name, i as int);
        },
        None => {
            assert forall|j: int| 0 <= j < ms.len() implies #[trigger] ms[j].name != name by {
                assert(ms[j] == section_model(sections[j]));
            }
            lemma_lookup_body_none(ms, name);
        },
    }
}

/// Builds the configuration a parsed document describes, or the exact
/// diagnostic that [`config_of_doc`] assigns to it.
pub fn config_from_doc(doc: &RawDoc) -> (r: Result<Config, String>)
    ensures
        (r matches Ok(c) ==> config_of_doc(doc_model(*doc)) == Ok::<ConfigModel, Seq<char>>(
            config_model(c),
        )),
        (r matches Err(m) ==> config_of_doc(doc_model(*doc)) == Err::<ConfigModel, Seq<char>>(m@)),
{
    let general_name = String::from_str("general");
    let found_general = find_section(&doc.sections, &general_name);
    proof {
        lemma_section_search(doc.sections@, "general"@, found_general);
    }
    let general = match found_general {
        None => {
            return Err(missing_section_err("general"));
        },
        Some(i) => match &doc.sections[i].body {
            RawBody::NotTable => {
                return Err(invalid_section_err("general"));
            },
            RawBody::Entries(entries) => match general_from(entries) {
                Ok(g) => g,
                Err(m) => {
                    return Err(m);
                },
            },
        },
    };
    let snapshot_name = String::from_str("snapshot");
    let found_snapshot = find_section(&doc.sections, &snapshot_name);
    proof {
        lemma_section_search(doc.sections@, "snapshot"@, found_snapshot);
    }
    let snapshot = match found_snapshot {
        None => {
            return Err(missing_section_err("snapshot"));
        },
        Some(i) => match &doc.sections[i].body {
            RawBody::NotTable => {
                return Err(invalid_section_err("snapshot"));
            },
            RawBody::Entries(entries) => match snapshot_from(entries) {
                Ok(s) => s,
                Err(m) => {
                    return Err(m);
                },
            },
        },
    };
    let mail_name = String::from_str("mail_from_master");
    let found_mail = find_section(&doc.sections, &mail_name);
    proof {
        lemma_section_search(doc.sections@, "mail_from_master"@, found_mail);
    }
    let mail_from_master = match found_mail {
        None => None,
        Some(i) => match &doc.sections[i].body {
            RawBody::NotTable => {
                return Err(invalid_section_err("mail_from_master"));
            },
            RawBody::Entries(entries) => match mail_from(entries) {
                Ok(m) => Some(m),
                Err(m) => {
                    return Err(m);
                },
            },
        },
    };
    Ok(Config { general, snapshot, mail_from_master })
}

// ---------------------------------------------------------------------------
// The parse entry point
// ---------------------------------------------------------------------------

pub open spec fn parse_err_of(m: Seq<char>) -> Seq<char> {
    "Error parse config file: "@ + m
}

/// Which result `parse_config` returns for a given text: the configuration
/// the text describes, or `ConfigParseErr` with the grammar's or the
/// schema's diagnostic.
pub open spec fn parse_config_model(s: Seq<char>) -> Result<
    ConfigModel,
    (ConfigReadErr, Seq<char>),
> {
    match toml_raw(s) {
        Err(m) => Err((ConfigReadErr::ConfigParseErr, parse_err_of(m))),
        Ok(d) => match config_of_doc(d) {
            Err(m) => Err((ConfigReadErr::ConfigParseErr, parse_err_of(m))),
            Ok(c) => Ok(c),
        },
    }
}

/// A document with no `[mail_from_master]` section at all parses without
/// error — provided its required sections are present and well-formed — and
/// the configuration it yields has `mail_from_master` absent.
pub proof fn lemma_mail_section_optional(d: DocModel)
    requires
        lookup_body(d.sections, "mail_from_master"@) is None,
    ensures
        (config_of_doc(d) matches Ok(c) ==> c.mail_from_master is None),
        ({
            &&& lookup_body(d.sections, "general"@) matches Some(BodyModel::Entries(ges))
            &&& general_of(ges) is Ok
            &&& lookup_body(d.sections, "snapshot"@) matches Some(BodyModel::Entries(ses))
            &&& snapshot_of(ses) is Ok
        }) ==> config_of_doc(d) is Ok,
{
}

/// Omitting a required field inside a present section is a parse failure:
/// a document whose `[general]` section lacks `ggsnap_slave_bin` yields
/// `ConfigParseErr`.
pub proof fn lemma_missing_required_field(s: Seq<char>, d: DocModel)
    requires
        toml_raw(s) == Ok::<DocModel, Seq<char>>(d),
        lookup_body(d.sections, "general"@) matches Some(BodyModel::Entries(ges)) && lookup_item(
            ges,
            "ggsnap_slave_bin"@,
        ) is None,
    ensures
        parse_config_model(s) matches Err(e) && e.0 == ConfigReadErr::ConfigParseErr,
{
}

fn parse_err_string(m: &String) -> (r: String)
    ensures
        r@ == parse_err_of(m@),
{
    let mut out = String::from_str("Error parse config file: ");
    out.append(m.as_str());
    out
}

/// Parses a config text and returns a `Config` populated with the content
/// of the text, or `ConfigParseErr` with a diagnostic.
pub fn parse_config(config_content: &String) -> (r: Result<Config, (ConfigReadErr, String)>)
    ensures
        (r matches Ok(c) ==> parse_config_model(config_content@) == Ok::<
            ConfigModel,
            (ConfigReadErr, Seq<char>),
        >(config_model(c))),
        (r matches Err(e) ==> parse_config_model(config_content@) == Err::<
            ConfigModel,
            (ConfigReadErr, Seq<char>),
        >((e.0, e.1@))),
{
    match toml_parse(config_content.as_str()) {
        Err(m) => Err((ConfigReadErr::ConfigParseErr, parse_err_string(&m))),
        Ok(doc) => match config_from_doc(&doc) {
            Err(m) => Err((ConfigReadErr::ConfigParseErr, parse_err_string(&m))),
            Ok(c) => Ok(c),
        },
    }
}

} // verus!
