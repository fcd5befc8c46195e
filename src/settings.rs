use vstd::prelude::*;
use vstd::string::*;
use crate::path::ConfigPath;
use crate::error::{ConfigError, ConfigErrorKind, ConfigParsingError};
use crate::str_or_int::StrOrInt;
use crate::storage::{
    CheckpointSyncerConf, ConfModel, DirOutcome, ErrModel, RawCheckpointSyncerConf, conf_spec,
    conf_valid,
};

verus! {

/// The validator's settings as a document gives them: every field may be
/// absent.
#[derive(Debug)]
pub struct RawValidatorSettings {
    /// Database path.
    pub db: Option<String>,
    /// Name of the chain whose messages are validated.
    pub originchainname: Option<String>,
    /// Where checkpoints are published.
    pub checkpointsyncer: Option<RawCheckpointSyncerConf>,
    /// The reorg period, in blocks.
    pub reorgperiod: Option<StrOrInt>,
    /// How often to look for new checkpoints, in seconds.
    pub interval: Option<StrOrInt>,
}

/// The validator's validated settings.
#[derive(Debug)]
pub struct ValidatorSettings {
    pub db: String,
    pub origin_chain_name: String,
    pub checkpoint_syncer: CheckpointSyncerConf,
    pub reorg_period: u64,
    /// The interval, in whole seconds.
    pub interval: u64,
}

pub struct SettingsModel {
    pub db: Seq<char>,
    pub origin_chain_name: Seq<char>,
    pub checkpoint_syncer: ConfModel,
    pub reorg_period: u64,
    pub interval: u64,
}

impl View for ValidatorSettings {
    type V = SettingsModel;

    open spec fn view(&self) -> SettingsModel {
        SettingsModel {
            db: self.db@,
            origin_chain_name: self.origin_chain_name@,
            checkpoint_syncer: self.checkpoint_syncer@,
            reorg_period: self.reorg_period,
            interval: self.interval,
        }
    }
}

/// The database path used when none is given: `validator_db_<origin>` in
/// the directory `cwd`.
pub open spec fn default_db(cwd: Seq<char>, origin: Seq<char>) -> Seq<char> {
    let dir = if cwd.len() > 0 && cwd.last() != '/' {
        cwd + "/"@
    } else {
        cwd
    };
    dir + "validator_db_"@ + origin
}

/// The failures of the checkpoint-storage field.
pub open spec fn syncer_errors(raw: Option<RawCheckpointSyncerConf>, cwp: Seq<Seq<char>>, dir: DirOutcome) -> Seq<ErrModel> {
    match raw {
        None => seq![(cwp.push("checkpointsyncer"@), ConfigErrorKind::MissingField)],
        Some(r) => match conf_spec(r@, cwp.push("checkpointsyncer"@), dir) {
            Ok(_) => Seq::empty(),
            Err(e) => e,
        },
    }
}

/// The failures of a required integer field named `field`.
pub open spec fn int_errors(v: Option<StrOrInt>, cwp: Seq<Seq<char>>, field: Seq<char>) -> Seq<ErrModel> {
    match v {
        None => seq![(cwp.push(field), ConfigErrorKind::MissingField)],
        Some(x) => if x.u64_value() is Some {
            Seq::empty()
        } else {
            seq![(cwp.push(field), ConfigErrorKind::ParseFailure)]
        },
    }
}

/// The failures of the origin chain's name.
pub open spec fn name_errors(v: Option<String>, cwp: Seq<Seq<char>>) -> Seq<ErrModel> {
    match v {
        None => seq![(cwp.push("originchainname"@), ConfigErrorKind::MissingField)],
        Some(_) => Seq::empty(),
    }
}

/// Every failure of a document, in the order the fields are checked.
pub open spec fn settings_errors(raw: RawValidatorSettings, cwp: Seq<Seq<char>>, dir: DirOutcome) -> Seq<ErrModel> {
    syncer_errors(raw.checkpointsyncer, cwp, dir) + int_errors(raw.reorgperiod, cwp, "reorgperiod"@)
        + int_errors(raw.interval, cwp, "interval"@) + name_errors(raw.originchainname, cwp)
}

/// The settings a document without failures converts to.
pub open spec fn settings_spec(raw: RawValidatorSettings, cwp: Seq<Seq<char>>, dir: DirOutcome, cwd: Seq<char>) -> SettingsModel {
    let origin = raw.originchainname->0@;
    SettingsModel {
        db: match raw.db {
            Some(d) => d@,
            None => default_db(cwd, origin),
        },
        origin_chain_name: origin,
        checkpoint_syncer: conf_spec(raw.checkpointsyncer->0@, cwp.push("checkpointsyncer"@), dir)->Ok_0,
        reorg_period: raw.reorgperiod->0.u64_value()->0,
        interval: raw.interval->0.u64_value()->0,
    }
}

/// The default database path in directory `cwd` for chain `origin`.
pub fn default_db_path(cwd: &str, origin: &str) -> (r: String)
    ensures
        r@ == default_db(cwd@, origin@),
{
    let mut r = String::from_str(cwd);
    let n = cwd.unicode_len();
    if n > 0 && cwd.get_char(n - 1) != '/' {
        r.append("/");
    }
    r.append("validator_db_");
    r.append(origin);
    r
}

fn int_field(v: Option<StrOrInt>, cwp: &ConfigPath, field: &str, err: &mut ConfigParsingError) -> (r: Option<u64>)
    ensures
        final(err)@ == old(err)@ + int_errors(v, cwp@, field@),
        r == (match v {
            Some(x) => x.u64_value(),
            None => None,
        }),
{
    match v {
        None => {
            err.push(ConfigError::at(cwp, field, ConfigErrorKind::MissingField));
            None
        },
        Some(x) => {
            let r = x.to_u64();
            if r.is_none() {
                err.push(ConfigError::at(cwp, field, ConfigErrorKind::ParseFailure));
            } else {
                assert(old(err)@ + int_errors(v, cwp@, field@) =~= old(err)@);
            }
            r
        },
    }
}

impl ValidatorSettings {
    /// Converts a raw document, checking every field and reporting every
    /// failure. `dir` reports the state of a local-storage path and `cwd`
    /// is the directory that a default database path is placed in.
    pub fn from_config_filtered(raw: RawValidatorSettings, cwp: &ConfigPath, dir: DirOutcome, cwd: &str) -> (r: Result<
        ValidatorSettings,
        ConfigParsingError,
    >)
        ensures
            r is Err <==> settings_errors(raw, cwp@, dir).len() > 0,
            r matches Err(e) ==> e@ == settings_errors(raw, cwp@, dir),
            r matches Ok(v) ==> v@ == settings_spec(raw, cwp@, dir, cwd@) && conf_valid(
                v.checkpoint_syncer@,
            ),
    {
        let ghost raw0 = raw;
        let RawValidatorSettings { db, originchainname, checkpointsyncer, reorgperiod, interval } = raw;
        let mut err = ConfigParsingError::new();
        let syncer: Option<CheckpointSyncerConf> = match checkpointsyncer {
            None => {
                err.push(ConfigError::at(cwp, "checkpointsyncer", ConfigErrorKind::MissingField));
                None
            },
            Some(r) => {
                let sub = cwp.join("checkpointsyncer");
                match CheckpointSyncerConf::from_config_filtered(r, &sub, dir) {
                    Ok(c) => Some(c),
                    Err(e) => {
                        err.append(e);
                        None
                    },
                }
            },
        };
        assert(err@ =~= syncer_errors(raw0.checkpointsyncer, cwp@, dir));
        let reorg_period = int_field(reorgperiod, cwp, "reorgperiod", &mut err);
        let interval_secs = int_field(interval, cwp, "interval", &mut err);
        let origin = match originchainname {
            None => {
                err.push(ConfigError::at(cwp, "originchainname", ConfigErrorKind::MissingField));
                assert(err@ =~= settings_errors(raw0, cwp@, dir));
                return Err(err);
            },
            Some(n) => n,
        };
        assert(err@ =~= settings_errors(raw0, cwp@, dir));
        let db = match db {
            Some(d) => d,
            None => default_db_path(cwd, origin.as_str()),
        };
        match (syncer, reorg_period, interval_secs) {
            (Some(c), Some(rp), Some(iv)) => {
                assert(err@.len() == 0);
                Ok(
                    ValidatorSettings {
                        db,
                        origin_chain_name: origin,
                        checkpoint_syncer: c,
                        reorg_period: rp,
                        interval: iv,
                    },
                )
            },
            _ => {
                assert(err@.len() > 0);
                Err(err)
            },
        }
    }
}

/// Each required field that a document leaves out is named in the failure,
/// at its own path, whatever else the document holds; so a document missing
/// several fields is refused with all of them reported.
pub proof fn lemma_every_missing_field_reported(raw: RawValidatorSettings, cwp: Seq<Seq<char>>, dir: DirOutcome)
    ensures
        raw.checkpointsyncer is None ==> settings_errors(raw, cwp, dir).contains(
            (cwp.push("checkpointsyncer"@), ConfigErrorKind::MissingField),
        ),
        raw.reorgperiod is None ==> settings_errors(raw, cwp, dir).contains(
            (cwp.push("reorgperiod"@), ConfigErrorKind::MissingField),
        ),
        raw.interval is None ==> settings_errors(raw, cwp, dir).contains(
            (cwp.push("interval"@), ConfigErrorKind::MissingField),
        ),
        raw.originchainname is None ==> settings_errors(raw, cwp, dir).contains(
            (cwp.push("originchainname"@), ConfigErrorKind::MissingField),
        ),
{
    let a = syncer_errors(raw.checkpointsyncer, cwp, dir);
    let b = int_errors(raw.reorgperiod, cwp, "reorgperiod"@);
    let c = int_errors(raw.interval, cwp, "interval"@);
    let d = name_errors(raw.originchainname, cwp);
    let all = settings_errors(raw, cwp, dir);
    assert(all == a + b + c + d);
    if raw.checkpointsyncer is None {
        assert(all[0] == a[0]);
    }
    if raw.reorgperiod is None {
        assert(all[a.len() as int] == b[0]);
    }
    if raw.interval is None {
        assert(all[(a.len() + b.len()) as int] == c[0]);
    }
    if raw.originchainname is None {
        assert(all[(a.len() + b.len() + c.len()) as int] == d[0]);
    }
}

} // verus!
