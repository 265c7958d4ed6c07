use ggsnap_utils::ConfigReadErr;
use ggsnap_utils::RawBody;
use ggsnap_utils::RawDoc;
use ggsnap_utils::RawEntry;
use ggsnap_utils::RawItem;
use ggsnap_utils::RawSection;
use ggsnap_utils::config_from_doc;
use ggsnap_utils::parse_config;

fn expect_parse_err(conf: &str) -> String {
    match parse_config(&String::from(conf)) {
        Err((ConfigReadErr::ConfigParseErr, msg)) => msg,
        Err((kind, msg)) => panic!("expected ConfigParseErr, got {:?}: {}", kind, msg),
        Ok(_) => panic!("expected ConfigParseErr, got a configuration"),
    }
}

#[test]
fn missing_required_field_is_parse_err() {
    let msg = expect_parse_err(
        "
            [general]
            gluster_bin = '/usr/sbin/gluster'

            [snapshot]
            number_days_every_day = 10
            number_months_with_two = 3
            number_months_total = 12
            ",
    );
    assert_eq!(
        msg,
        "Error parse config file: missing field ggsnap_slave_bin in section [general]"
    );
}

#[test]
fn missing_section_is_parse_err() {
    let msg = expect_parse_err(
        "
            [general]
            gluster_bin = '/usr/sbin/gluster'
            ggsnap_slave_bin = '/root/ggsnap_slave'
            ",
    );
    assert_eq!(msg, "Error parse config file: missing section [snapshot]");
}

#[test]
fn invalid_toml_is_parse_err() {
    let msg = expect_parse_err("this is = = not toml");
    assert!(msg.starts_with("Error parse config file: "));
}

#[test]
fn wrong_type_field_is_parse_err() {
    let msg = expect_parse_err(
        "
            [general]
            gluster_bin = '/usr/sbin/gluster'
            ggsnap_slave_bin = '/root/ggsnap_slave'

            [snapshot]
            number_days_every_day = 'ten'
            number_months_with_two = 3
            number_months_total = 12
            ",
    );
    assert_eq!(
        msg,
        "Error parse config file: invalid value for field number_days_every_day in section [snapshot]"
    );
}

#[test]
fn negative_counter_is_parse_err() {
    let msg = expect_parse_err(
        "
            [general]
            gluster_bin = '/usr/sbin/gluster'
            ggsnap_slave_bin = '/root/ggsnap_slave'

            [snapshot]
            number_days_every_day = -1
            number_months_with_two = 3
            number_months_total = 12
            ",
    );
    assert_eq!(
        msg,
        "Error parse config file: invalid value for field number_days_every_day in section [snapshot]"
    );
}

#[test]
fn mixed_address_list_is_parse_err() {
    let msg = expect_parse_err(
        "
            [general]
            gluster_bin = '/usr/sbin/gluster'
            ggsnap_slave_bin = '/root/ggsnap_slave'

            [snapshot]
            number_days_every_day = 10
            number_months_with_two = 3
            number_months_total = 12

            [mail_from_master]
            smtp_server = 'mysmtp.server.com'
            authentification_mechanism = 'plain'
            username = 'foobar'
            password = 'noob'
            from_sender_address = 'aa@bb.cc'
            to_addresses = [ 'foobar@foobar.com', 7 ]
            enable = true
            ",
    );
    assert_eq!(
        msg,
        "Error parse config file: invalid value for field to_addresses in section [mail_from_master]"
    );
}

#[test]
fn scalar_section_is_parse_err() {
    let msg = expect_parse_err(
        "
            general = 5

            [snapshot]
            number_days_every_day = 10
            number_months_with_two = 3
            number_months_total = 12
            ",
    );
    assert_eq!(msg, "Error parse config file: section [general] is not a table");
}

#[test]
fn unknown_keys_and_sections_are_ignored() {
    let conf = String::from(
        "
            something_else = 'kept out of the way'

            [general]
            gluster_bin = '/usr/sbin/gluster'
            ggsnap_slave_bin = '/root/ggsnap_slave'
            surplus = 17

            [snapshot]
            number_days_every_day = 10
            number_months_with_two = 3
            number_months_total = 12

            [extra_section]
            whatever = true
            ",
    );
    let c = parse_config(&conf).unwrap();
    assert_eq!(c.general.gluster_bin, "/usr/sbin/gluster");
    assert!(c.mail_from_master.is_none());
}

fn text_entry(key: &str, value: &str) -> RawEntry {
    RawEntry {
        key: String::from(key),
        item: RawItem::Text(String::from(value)),
    }
}

fn int_entry(key: &str, value: i64) -> RawEntry {
    RawEntry {
        key: String::from(key),
        item: RawItem::Int(value),
    }
}

fn general_section(gluster_bin: &str) -> RawSection {
    RawSection {
        name: String::from("general"),
        body: RawBody::Entries(vec![
            text_entry("gluster_bin", gluster_bin),
            text_entry("ggsnap_slave_bin", "/root/ggsnap_slave"),
        ]),
    }
}

fn snapshot_section() -> RawSection {
    RawSection {
        name: String::from("snapshot"),
        body: RawBody::Entries(vec![
            int_entry("number_days_every_day", 10),
            int_entry("number_months_with_two", 3),
            int_entry("number_months_total", 12),
        ]),
    }
}

#[test]
fn duplicate_section_first_wins() {
    let doc = RawDoc {
        sections: vec![
            general_section("/first/gluster"),
            general_section("/second/gluster"),
            snapshot_section(),
        ],
    };
    let c = config_from_doc(&doc).unwrap();
    assert_eq!(c.general.gluster_bin, "/first/gluster");
}

#[test]
fn counter_above_u32_range_is_rejected() {
    let doc = RawDoc {
        sections: vec![
            general_section("/usr/sbin/gluster"),
            RawSection {
                name: String::from("snapshot"),
                body: RawBody::Entries(vec![
                    int_entry("number_days_every_day", 4294967296),
                    int_entry("number_months_with_two", 3),
                    int_entry("number_months_total", 12),
                ]),
            },
        ],
    };
    let msg = config_from_doc(&doc).unwrap_err();
    assert_eq!(msg, "invalid value for field number_days_every_day in section [snapshot]");
}
