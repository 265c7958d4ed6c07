use ggsnap_utils::Config;
use ggsnap_utils::ConfigReadErr;
use ggsnap_utils::FileAttempt;
use ggsnap_utils::get_config_from;
use ggsnap_utils::parse_config;

#[test]
fn parse_config_file() {
    let conf = String::from(
        "
            [general]
            gluster_bin = '/usr/sbin/gluster'
            ggsnap_slave_bin = '/root/ggsnap_slave'

            [snapshot]
            number_days_every_day = 10
            number_months_with_two = 3
            number_months_total = 12

            [mail_from_master]
            smtp_server = 'mysmtp.server.com'
            authentification_mechanism = 'plain'
            username = 'foobar'
            password = 'noob'
            from_sender_address = 'aa@bb.cc'
            to_addresses = [ 'foobar@foobar.com', 'noob@noob.com' ]
            enable = true
            ",
    );

    let c = parse_config(&conf).unwrap();
    assert_eq!(c.general.ggsnap_slave_bin, "/root/ggsnap_slave");
    assert_eq!(c.snapshot.number_months_with_two, 3);
    assert_eq!(c.mail_from_master.unwrap().enable, true);

    let conf = String::from(
        "
            [general]
            gluster_bin = '/usr/sbin/gluster'
            ggsnap_slave_bin = '/root/ggsnap_slave'

            [snapshot]
            number_days_every_day = 10
            number_months_with_two = 3
            number_months_total = 12
            ",
    );

    let c = parse_config(&conf).unwrap();
    assert_eq!(c.general.gluster_bin, "/usr/sbin/gluster");
    assert_eq!(c.mail_from_master.is_none(), true);
}

#[test]
fn config_file_is_missing() {
    let r = get_config_from(
        FileAttempt::NotOpenable,
        FileAttempt::NotOpenable,
        FileAttempt::NotOpenable,
    );
    match r {
        Err((kind, msg)) => {
            assert_eq!(kind, ConfigReadErr::ConfigNotFound);
            assert_eq!(
                msg,
                format!(
                    "Config file: {} is not found in current dir, /etc/ or /etc/ggsnap/",
                    "ggsnap.conf"
                )
            );
        }
        Ok(_) => panic!("expected ConfigNotFound"),
    }
}

fn minimal_doc(gluster_bin: &str) -> String {
    format!(
        "
            [general]
            gluster_bin = '{}'
            ggsnap_slave_bin = '/root/ggsnap_slave'

            [snapshot]
            number_days_every_day = 10
            number_months_with_two = 3
            number_months_total = 12
            ",
        gluster_bin
    )
}

#[test]
fn full_document_round_trip() {
    let conf = String::from(
        "
            [general]
            gluster_bin = '/usr/sbin/gluster'
            ggsnap_slave_bin = '/root/ggsnap_slave'

            [snapshot]
            number_days_every_day = 10
            number_months_with_two = 3
            number_months_total = 12
            master_volume = 'vol_m'
            slave_volume = 'vol_s'
            slave_hostname = 'slave.example.com'
            slave_user = 'admin'

            [mail_from_master]
            smtp_server = 'mysmtp.server.com'
            authentification_mechanism = 'plain'
            username = 'foobar'
            password = 'noob'
            from_sender_address = 'aa@bb.cc'
            to_addresses = [ 'foobar@foobar.com', 'noob@noob.com' ]
            enable = true
            ",
    );

    let c = parse_config(&conf).unwrap();
    assert_eq!(c.general.gluster_bin, "/usr/sbin/gluster");
    assert_eq!(c.general.ggsnap_slave_bin, "/root/ggsnap_slave");
    assert_eq!(c.snapshot.number_days_every_day, 10);
    assert_eq!(c.snapshot.number_months_with_two, 3);
    assert_eq!(c.snapshot.number_months_total, 12);
    assert_eq!(c.snapshot.master_volume.as_deref(), Some("vol_m"));
    assert_eq!(c.snapshot.slave_volume.as_deref(), Some("vol_s"));
    assert_eq!(c.snapshot.slave_hostname.as_deref(), Some("slave.example.com"));
    assert_eq!(c.snapshot.slave_user.as_deref(), Some("admin"));
    let mail = c.mail_from_master.unwrap();
    assert_eq!(mail.smtp_server, "mysmtp.server.com");
    assert_eq!(mail.authentification_mechanism, "plain");
    assert_eq!(mail.username, "foobar");
    assert_eq!(mail.password, "noob");
    assert_eq!(mail.from_sender_address, "aa@bb.cc");
    assert_eq!(mail.to_addresses, vec!["foobar@foobar.com", "noob@noob.com"]);
    assert_eq!(mail.enable, true);
}

#[test]
fn second_candidate_wins() {
    let second = minimal_doc("/second/gluster");
    let third = minimal_doc("/third/gluster");
    let c = get_config_from(
        FileAttempt::NotOpenable,
        FileAttempt::Content(second),
        FileAttempt::Content(third),
    )
    .unwrap();
    assert_eq!(c.general.gluster_bin, "/second/gluster");
}

#[test]
fn first_candidate_wins() {
    let first = minimal_doc("/first/gluster");
    let second = minimal_doc("/second/gluster");
    let c = get_config_from(
        FileAttempt::Content(first),
        FileAttempt::Content(second),
        FileAttempt::NotOpenable,
    )
    .unwrap();
    assert_eq!(c.general.gluster_bin, "/first/gluster");
}

#[test]
fn read_failure_first_candidate() {
    let r = get_config_from(
        FileAttempt::ReadFailure(String::from("boom")),
        FileAttempt::Content(minimal_doc("/usr/sbin/gluster")),
        FileAttempt::NotOpenable,
    );
    match r {
        Err((kind, msg)) => {
            assert_eq!(kind, ConfigReadErr::ReadFileErr);
            assert_eq!(msg, "Error: Can not read ggsnap.conf in current directory\nboom");
        }
        Ok(_) => panic!("expected ReadFileErr"),
    }
}

#[test]
fn read_failure_second_candidate() {
    let r = get_config_from(
        FileAttempt::NotOpenable,
        FileAttempt::ReadFailure(String::from("io trouble")),
        FileAttempt::Content(minimal_doc("/usr/sbin/gluster")),
    );
    match r {
        Err((kind, msg)) => {
            assert_eq!(kind, ConfigReadErr::ReadFileErr);
            assert_eq!(msg, "Error: Can not read config file: /etc/ggsnap.conf\nio trouble");
        }
        Ok(_) => panic!("expected ReadFileErr"),
    }
}

#[test]
fn read_failure_third_candidate() {
    let r = get_config_from(
        FileAttempt::NotOpenable,
        FileAttempt::NotOpenable,
        FileAttempt::ReadFailure(String::from("late")),
    );
    match r {
        Err((kind, msg)) => {
            assert_eq!(kind, ConfigReadErr::ReadFileErr);
            assert_eq!(msg, "Error: Can not read config file: /etc/ggsnap/ggsnap.conf\nlate");
        }
        Ok(_) => panic!("expected ReadFileErr"),
    }
}

#[test]
fn default_config_values() {
    let c = Config::default_config();
    assert_eq!(c.general.gluster_bin, "/usr/sbin/gluster");
    assert_eq!(c.general.ggsnap_slave_bin, "/root/ggsnap_slave");
    assert_eq!(c.snapshot.number_days_every_day, 10);
    assert_eq!(c.snapshot.number_months_with_two, 3);
    assert_eq!(c.snapshot.number_months_total, 12);
    assert!(c.snapshot.master_volume.is_none());
    assert!(c.snapshot.slave_volume.is_none());
    assert!(c.snapshot.slave_hostname.is_none());
    assert!(c.snapshot.slave_user.is_none());
    assert!(c.mail_from_master.is_none());
}
