//! The typed configuration data model and its default value.

use vstd::prelude::*;

verus! {

/// Holds all information from the config file.
/// The config file `ggsnap.conf` is interpreted in the TOML format.
#[derive(Debug)]
pub struct Config {
    pub general: General,
    pub snapshot: Snapshot,
    pub mail_from_master: Option<MailFromMaster>,
}

/// Holds the information of the `[general]` section of the config file.
#[derive(Debug)]
pub struct General {
    pub gluster_bin: String,
    pub ggsnap_slave_bin: String,
}

/// Holds the information of the `[snapshot]` section of the config file.
#[derive(Debug)]
pub struct Snapshot {
    pub number_days_every_day: u32,
    pub number_months_with_two: u32,
    pub number_months_total: u32,
    pub master_volume: Option<String>,
    pub slave_volume: Option<String>,
    pub slave_hostname: Option<String>,
    pub slave_user: Option<String>,
}

/// Holds the information of the `[mail_from_master]` section of the config file.
#[derive(Debug)]
pub struct MailFromMaster {
    pub smtp_server: String,
    pub authentification_mechanism: String,
    pub username: String,
    pub password: String,
    pub from_sender_address: String,
    pub to_addresses: Vec<String>,
    pub enable: bool,
}

/// The mathematical value of a [`General`].
#[verifier::ext_equal]
pub struct GeneralModel {
    pub gluster_bin: Seq<char>,
    pub ggsnap_slave_bin: Seq<char>,
}

/// The mathematical value of a [`Snapshot`].
#[verifier::ext_equal]
pub struct SnapshotModel {
    pub number_days_every_day: u32,
    pub number_months_with_two: u32,
    pub number_months_total: u32,
    pub master_volume: Option<Seq<char>>,
    pub slave_volume: Option<Seq<char>>,
    pub slave_hostname: Option<Seq<char>>,
    pub slave_user: Option<Seq<char>>,
}

/// The mathematical value of a [`MailFromMaster`].
#[verifier::ext_equal]
pub struct MailFromMasterModel {
    pub smtp_server: Seq<char>,
    pub authentification_mechanism: Seq<char>,
    pub username: Seq<char>,
    pub password: Seq<char>,
    pub from_sender_address: Seq<char>,
    pub to_addresses: Seq<Seq<char>>,
    pub enable: bool,
}

/// The mathematical value of a [`Config`].
#[verifier::ext_equal]
pub struct ConfigModel {
    pub general: GeneralModel,
    pub snapshot: SnapshotModel,
    pub mail_from_master: Option<MailFromMasterModel>,
}

pub open spec fn general_model(g: General) -> GeneralModel {
    GeneralModel { gluster_bin: g.gluster_bin@, ggsnap_slave_bin: g.ggsnap_slave_bin@ }
}

pub open spec fn opt_view(o: Option<String>) -> Option<Seq<char>> {
    match o {
        Option::None => None,
        Option::Some(s) => Some(s@),
    }
}

pub open spec fn snapshot_model(s: Snapshot) -> SnapshotModel {
    SnapshotModel {
        number_days_every_day: s.number_days_every_day,
        number_months_with_two: s.number_months_with_two,
        number_months_total: s.number_months_total,
        master_volume: opt_view(s.master_volume),
        slave_volume: opt_view(s.slave_volume),
        slave_hostname: opt_view(s.slave_hostname),
        slave_user: opt_view(s.slave_user),
    }
}

pub open spec fn mail_model(m: MailFromMaster) -> MailFromMasterModel {
    MailFromMasterModel {
        smtp_server: m.smtp_server@,
        authentification_mechanism: m.authentification_mechanism@,
        username: m.username@,
        password: m.password@,
        from_sender_address: m.from_sender_address@,
        to_addresses: m.to_addresses.deep_view(),
        enable: m.enable,
    }
}

pub open spec fn config_model(c: Config) -> ConfigModel {
    ConfigModel {
        general: general_model(c.general),
        snapshot: snapshot_model(c.snapshot),
        mail_from_master: match c.mail_from_master {
            Option::None => None,
            Option::Some(m) => Some(mail_model(m)),
        },
    }
}

/// The kind of a configuration read error.
#[derive(Debug, PartialEq, Eq, Structural)]
pub enum ConfigReadErr {
    ConfigNotFound,
    ReadFileErr,
    ConfigParseErr,
}

impl Config {
    /// If the config file is missing, a caller may ask for this default
    /// configuration: fixed binary paths, retention counters 10/3/12, and
    /// every optional field absent.
    pub fn default_config() -> (c: Config)
        ensures
            c.general.gluster_bin@ == "/usr/sbin/gluster"@,
            c.general.ggsnap_slave_bin@ == "/root/ggsnap_slave"@,
            c.snapshot.number_days_every_day == 10u32,
            c.snapshot.number_months_with_two == 3u32,
            c.snapshot.number_months_total == 12u32,
            c.snapshot.master_volume is None,
            c.snapshot.slave_volume is None,
            c.snapshot.slave_hostname is None,
            c.snapshot.slave_user is None,
            c.mail_from_master is None,
    {
        Config {
            general: General {
                gluster_bin: String::from_str("/usr/sbin/gluster"),
                ggsnap_slave_bin: String::from_str("/root/ggsnap_slave"),
            },
            snapshot: Snapshot {
                number_days_every_day: 10,
                number_months_with_two: 3,
                number_months_total: 12,
                master_volume: None,
                slave_volume: None,
                slave_hostname: None,
                slave_user: None,
            },
            mail_from_master: None,
        }
    }
}

} // verus!
