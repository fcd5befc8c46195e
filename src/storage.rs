use vstd::prelude::*;
use vstd::string::*;
use crate::path::ConfigPath;
use crate::error::{ConfigError, ConfigErrorKind, ConfigParsingError};

verus! {

/// Whether rusoto recognises the text as the name of an AWS region.
pub uninterp spec fn aws_region_known(s: Seq<char>) -> bool;

/// Relies on rusoto's `Region` parser (`FromStr`): it accepts the text
/// exactly when it names a known region; nothing else is assumed of it.
#[verifier::external_body]
fn region_is_known(s: &str) -> (r: bool)
    ensures
        r == aws_region_known(s@),
{
    s.parse::<rusoto_signature::Region>().is_ok()
}

/// What a checkpoint-storage configuration selects, as plain values.
pub enum ConfModel {
    Local { path: Seq<char> },
    S3 { bucket: Seq<char>, region: Seq<char> },
}

/// A validated choice of checkpoint storage.
#[derive(Debug, Clone)]
pub enum CheckpointSyncerConf {
    /// A directory on the local filesystem.
    LocalStorage {
        path: String,
    },
    /// A bucket of an object store in a named region.
    S3 {
        bucket: String,
        /// The region as it was written; it names a known region.
        region: String,
    },
}

impl View for CheckpointSyncerConf {
    type V = ConfModel;

    open spec fn view(&self) -> ConfModel {
        match self {
            CheckpointSyncerConf::LocalStorage { path } => ConfModel::Local { path: path@ },
            CheckpointSyncerConf::S3 { bucket, region } => ConfModel::S3 {
                bucket: bucket@,
                region: region@,
            },
        }
    }
}

/// A configuration model is valid when an object-store region is known.
pub open spec fn conf_valid(c: ConfModel) -> bool {
    match c {
        ConfModel::Local { .. } => true,
        ConfModel::S3 { region, .. } => aws_region_known(region),
    }
}

/// The raw, untyped checkpoint-storage configuration of a document.
#[derive(Debug)]
pub enum RawCheckpointSyncerConf {
    LocalStorage {
        path: Option<String>,
    },
    S3 {
        bucket: Option<String>,
        region: Option<String>,
    },
    /// The document's type tag named no known kind.
    Unknown,
}

pub enum RawModel {
    Local { path: Option<Seq<char>> },
    S3 { bucket: Option<Seq<char>>, region: Option<Seq<char>> },
    Unknown,
}

pub open spec fn opt_view(o: Option<String>) -> Option<Seq<char>> {
    match o {
        Some(s) => Some(s@),
        None => None,
    }
}

impl View for RawCheckpointSyncerConf {
    type V = RawModel;

    open spec fn view(&self) -> RawModel {
        match self {
            RawCheckpointSyncerConf::LocalStorage { path } => RawModel::Local { path: opt_view(*path) },
            RawCheckpointSyncerConf::S3 { bucket, region } => RawModel::S3 {
                bucket: opt_view(*bucket),
                region: opt_view(*region),
            },
            RawCheckpointSyncerConf::Unknown => RawModel::Unknown,
        }
    }
}

/// What was found, or done, at a local-storage path before it is accepted.
#[derive(Clone, Copy, Debug, PartialEq, Eq, Structural)]
pub enum DirOutcome {
    /// The path was already a directory.
    Existing,
    /// The path did not exist and the directory was created.
    Created,
    /// The path did not exist and creating the directory failed.
    CreateFailed,
    /// The path exists and is not a directory.
    NotDirectory,
}

pub type ErrModel = (Seq<Seq<char>>, ConfigErrorKind);

/// The failures of an object store's `bucket` field.
pub open spec fn bucket_errors(bucket: Option<Seq<char>>, cwp: Seq<Seq<char>>) -> Seq<ErrModel> {
    match bucket {
        None => seq![(cwp.push("bucket"@), ConfigErrorKind::MissingField)],
        Some(_) => Seq::empty(),
    }
}

/// The failures of an object store's `region` field.
pub open spec fn region_errors(region: Option<Seq<char>>, cwp: Seq<Seq<char>>) -> Seq<ErrModel> {
    match region {
        None => seq![(cwp.push("region"@), ConfigErrorKind::MissingField)],
        Some(r) => if aws_region_known(r) {
            Seq::empty()
        } else {
            seq![(cwp.push("region"@), ConfigErrorKind::ParseFailure)]
        },
    }
}

/// The structured conversion: the configuration, or every failure of its
/// fields, each at the field that caused it.
pub open spec fn conf_spec(raw: RawModel, cwp: Seq<Seq<char>>, dir: DirOutcome) -> Result<ConfModel, Seq<ErrModel>> {
    match raw {
        RawModel::Local { path } => match path {
            None => Err(seq![(cwp.push("path"@), ConfigErrorKind::MissingField)]),
            Some(p) => if dir == DirOutcome::Existing || dir == DirOutcome::Created {
                Ok(ConfModel::Local { path: p })
            } else {
                Err(seq![(cwp.push("path"@), ConfigErrorKind::FilesystemViolation)])
            },
        },
        RawModel::S3 { bucket, region } => {
            let errs = bucket_errors(bucket, cwp) + region_errors(region, cwp);
            if errs.len() == 0 {
                Ok(ConfModel::S3 { bucket: bucket->0, region: region->0 })
            } else {
                Err(errs)
            }
        },
        RawModel::Unknown => Err(seq![(cwp.push("type"@), ConfigErrorKind::UnknownVariant)]),
    }
}

pub open spec fn conf_result_view(r: Result<CheckpointSyncerConf, ConfigParsingError>) -> Result<ConfModel, Seq<ErrModel>> {
    match r {
        Ok(c) => Ok(c@),
        Err(e) => Err(e@),
    }
}

fn single(e: ConfigError) -> (r: ConfigParsingError)
    ensures
        r@ == seq![e@],
{
    let mut r = ConfigParsingError::new();
    r.push(e);
    assert(r@ =~= seq![e@]);
    r
}

/// The raw form that describes a validated configuration.
pub open spec fn to_raw_spec(c: ConfModel) -> RawModel {
    match c {
        ConfModel::Local { path } => RawModel::Local { path: Some(path) },
        ConfModel::S3 { bucket, region } => RawModel::S3 { bucket: Some(bucket), region: Some(region) },
    }
}

impl CheckpointSyncerConf {
    /// Converts the structured raw form. `dir` reports the state of the
    /// local-storage path, and is read only for local storage.
    pub fn from_config_filtered(raw: RawCheckpointSyncerConf, cwp: &ConfigPath, dir: DirOutcome) -> (r: Result<
        CheckpointSyncerConf,
        ConfigParsingError,
    >)
        ensures
            conf_result_view(r) == conf_spec(raw@, cwp@, dir),
            r matches Ok(c) ==> conf_valid(c@),
    {
        match raw {
            RawCheckpointSyncerConf::LocalStorage { path } => match path {
                None => Err(single(ConfigError::at(cwp, "path", ConfigErrorKind::MissingField))),
                Some(p) => match dir {
                    DirOutcome::Existing | DirOutcome::Created => Ok(
                        CheckpointSyncerConf::LocalStorage { path: p },
                    ),
                    DirOutcome::CreateFailed | DirOutcome::NotDirectory => Err(
                        single(ConfigError::at(cwp, "path", ConfigErrorKind::FilesystemViolation)),
                    ),
                },
            },
            RawCheckpointSyncerConf::S3 { bucket, region } => {
                let ghost bv = opt_view(bucket);
                let ghost rv = opt_view(region);
                let mut err = ConfigParsingError::new();
                if bucket.is_none() {
                    err.push(ConfigError::at(cwp, "bucket", ConfigErrorKind::MissingField));
                }
                assert(err@ =~= bucket_errors(bv, cwp@));
                match &region {
                    None => {
                        err.push(ConfigError::at(cwp, "region", ConfigErrorKind::MissingField));
                    },
                    Some(reg) => {
                        if !region_is_known(reg.as_str()) {
                            err.push(ConfigError::at(cwp, "region", ConfigErrorKind::ParseFailure));
                        }
                    },
                }
                assert(err@ =~= bucket_errors(bv, cwp@) + region_errors(rv, cwp@));
                match (bucket, region) {
                    (Some(b), Some(reg)) => {
                        if err.is_empty() {
                            Ok(CheckpointSyncerConf::S3 { bucket: b, region: reg })
                        } else {
                            Err(err)
                        }
                    },
                    _ => Err(err),
                }
            },
            RawCheckpointSyncerConf::Unknown => Err(
                single(ConfigError::at(cwp, "type", ConfigErrorKind::UnknownVariant)),
            ),
        }
    }

    /// Describes this configuration again in the structured raw form.
    pub fn to_raw(&self) -> (r: RawCheckpointSyncerConf)
        ensures
            r@ == to_raw_spec(self@),
    {
        match self {
            CheckpointSyncerConf::LocalStorage { path } => RawCheckpointSyncerConf::LocalStorage {
                path: Some(path.clone()),
            },
            CheckpointSyncerConf::S3 { bucket, region } => RawCheckpointSyncerConf::S3 {
                bucket: Some(bucket.clone()),
                region: Some(region.clone()),
            },
        }
    }
}

/// A valid structured configuration, once converted and described again,
/// gives back the raw form it came from, and converts to the same
/// configuration (the directory being there by then).
pub proof fn lemma_structured_round_trip(raw: RawModel, cwp: Seq<Seq<char>>, dir: DirOutcome)
    requires
        conf_spec(raw, cwp, dir) is Ok,
    ensures
        to_raw_spec(conf_spec(raw, cwp, dir)->Ok_0) == raw,
        conf_spec(to_raw_spec(conf_spec(raw, cwp, dir)->Ok_0), cwp, DirOutcome::Existing) == conf_spec(
            raw,
            cwp,
            dir,
        ),
{
}

/// A `://` starts at index `i` of `s`.
pub open spec fn sep_at(s: Seq<char>, i: int) -> bool {
    0 <= i && i + 3 <= s.len() && s[i] == ':' && s[i + 1] == '/' && s[i + 2] == '/'
}

/// The first `://` of `s` at or after `from`.
pub open spec fn find_sep(s: Seq<char>, from: int) -> Option<int>
    decreases s.len() - from,
{
    if from < 0 || from + 3 > s.len() {
        None
    } else if sep_at(s, from) {
        Some(from)
    } else {
        find_sep(s, from + 1)
    }
}

/// The first `c` of `s` at or after `from`.
pub open spec fn find_char(s: Seq<char>, c: char, from: int) -> Option<int>
    decreases s.len() - from,
{
    if from < 0 || from >= s.len() {
        None
    } else if s[from] == c {
        Some(from)
    } else {
        find_char(s, c, from + 1)
    }
}

/// Why a storage location string was refused.
#[derive(Debug)]
pub enum UriError {
    /// The text holds no `://`.
    MissingSeparator,
    /// An `s3` location is not one bucket and one region around a single `/`.
    BadBucketRegion,
    /// An `s3` location names no known region.
    InvalidRegion,
    /// The prefix names no storage kind.
    UnknownPrefix { prefix: String },
}

pub enum UriErrorModel {
    MissingSeparator,
    BadBucketRegion,
    InvalidRegion,
    UnknownPrefix(Seq<char>),
}

impl View for UriError {
    type V = UriErrorModel;

    open spec fn view(&self) -> UriErrorModel {
        match self {
            UriError::MissingSeparator => UriErrorModel::MissingSeparator,
            UriError::BadBucketRegion => UriErrorModel::BadBucketRegion,
            UriError::InvalidRegion => UriErrorModel::InvalidRegion,
            UriError::UnknownPrefix { prefix } => UriErrorModel::UnknownPrefix(prefix@),
        }
    }
}

/// The parts of a storage location, before the region is checked.
#[derive(Debug)]
pub enum UriParts {
    File { path: String },
    S3 { bucket: String, region: String },
}

impl View for UriParts {
    type V = ConfModel;

    open spec fn view(&self) -> ConfModel {
        match self {
            UriParts::File { path } => ConfModel::Local { path: path@ },
            UriParts::S3 { bucket, region } => ConfModel::S3 { bucket: bucket@, region: region@ },
        }
    }
}

/// The grammar `scheme "://" rest`, split at the first `://`: for `file`
/// the rest is the path as written; for `s3` it is split on its one `/`.
pub open spec fn uri_parts_spec(s: Seq<char>) -> Result<ConfModel, UriErrorModel> {
    match find_sep(s, 0) {
        None => Err(UriErrorModel::MissingSeparator),
        Some(i) => {
            let prefix = s.subrange(0, i);
            let rest = s.subrange(i + 3, s.len() as int);
            if prefix == "s3"@ {
                match find_char(rest, '/', 0) {
                    None => Err(UriErrorModel::BadBucketRegion),
                    Some(k) => if find_char(rest, '/', k + 1) is Some {
                        Err(UriErrorModel::BadBucketRegion)
                    } else {
                        Ok(
                            ConfModel::S3 {
                                bucket: rest.subrange(0, k),
                                region: rest.subrange(k + 1, rest.len() as int),
                            },
                        )
                    },
                }
            } else if prefix == "file"@ {
                Ok(ConfModel::Local { path: rest })
            } else {
                Err(UriErrorModel::UnknownPrefix(prefix))
            }
        },
    }
}

/// A storage location string read as a configuration.
pub open spec fn uri_spec(s: Seq<char>) -> Result<ConfModel, UriErrorModel> {
    match uri_parts_spec(s) {
        Ok(ConfModel::S3 { bucket, region }) => if aws_region_known(region) {
            Ok(ConfModel::S3 { bucket, region })
        } else {
            Err(UriErrorModel::InvalidRegion)
        },
        other => other,
    }
}

pub open spec fn parts_result_view(r: Result<UriParts, UriError>) -> Result<ConfModel, UriErrorModel> {
    match r {
        Ok(p) => Ok(p@),
        Err(e) => Err(e@),
    }
}

pub open spec fn uri_result_view(r: Result<CheckpointSyncerConf, UriError>) -> Result<ConfModel, UriErrorModel> {
    match r {
        Ok(c) => Ok(c@),
        Err(e) => Err(e@),
    }
}

fn find_separator(s: &str) -> (r: Option<usize>)
    ensures
        match r {
            Some(i) => find_sep(s@, 0) == Some(i as int) && i + 3 <= s@.len(),
            None => find_sep(s@, 0) is None,
        },
{
    let n = s.unicode_len();
    if n < 3 {
        return None;
    }
    let mut i: usize = 0;
    while i <= n - 3
        invariant
            n == s@.len(),
            n >= 3,
            i <= n,
            find_sep(s@, 0) == find_sep(s@, i as int),
        decreases n - i,
    {
        if s.get_char(i) == ':' && s.get_char(i + 1) == '/' && s.get_char(i + 2) == '/' {
            return Some(i);
        }
        i = i + 1;
    }
    None
}

fn find_slash(s: &str, from: usize) -> (r: Option<usize>)
    ensures
        match r {
            Some(k) => find_char(s@, '/', from as int) == Some(k as int) && k < s@.len(),
            None => find_char(s@, '/', from as int) is None,
        },
{
    let n = s.unicode_len();
    let mut i: usize = from;
    while i < n
        invariant
            n == s@.len(),
            from <= i,
            find_char(s@, '/', from as int) == find_char(s@, '/', i as int),
        decreases n - i,
    {
        if s.get_char(i) == '/' {
            return Some(i);
        }
        i = i + 1;
    }
    None
}

fn same_chars(a: &str, b: &str) -> (r: bool)
    ensures
        r == (a@ == b@),
{
    let n = a.unicode_len();
    if n != b.unicode_len() {
        return false;
    }
    let mut i: usize = 0;
    while i < n
        invariant
            n == a@.len(),
            n == b@.len(),
            i <= n,
            forall|j: int| 0 <= j < i ==> a@[j] == b@[j],
        decreases n - i,
    {
        if a.get_char(i) != b.get_char(i) {
            return false;
        }
        i = i + 1;
    }
    assert(a@ =~= b@);
    true
}

/// Splits a storage location (`file://<path>` or `s3://<bucket>/<region>`)
/// into its parts.
pub fn split_uri(s: &str) -> (r: Result<UriParts, UriError>)
    ensures
        parts_result_view(r) == uri_parts_spec(s@),
{
    let n = s.unicode_len();
    match find_separator(s) {
        None => Err(UriError::MissingSeparator),
        Some(i) => {
            let prefix = s.substring_char(0, i);
            let rest = s.substring_char(i + 3, n);
            if same_chars(prefix, "s3") {
                match find_slash(rest, 0) {
                    None => Err(UriError::BadBucketRegion),
                    Some(k) => {
                        if find_slash(rest, k + 1).is_some() {
                            Err(UriError::BadBucketRegion)
                        } else {
                            let m = rest.unicode_len();
                            Ok(
                                UriParts::S3 {
                                    bucket: String::from_str(rest.substring_char(0, k)),
                                    region: String::from_str(rest.substring_char(k + 1, m)),
                                },
                            )
                        }
                    },
                }
            } else if same_chars(prefix, "file") {
                Ok(UriParts::File { path: String::from_str(rest) })
            } else {
                Err(UriError::UnknownPrefix { prefix: String::from_str(prefix) })
            }
        },
    }
}

impl CheckpointSyncerConf {
    /// Reads a storage location string: `file://<path>` selects local
    /// storage at the path as written, `s3://<bucket>/<region>` an object
    /// store bucket in a known region.
    pub fn from_str(s: &str) -> (r: Result<CheckpointSyncerConf, UriError>)
        ensures
            uri_result_view(r) == uri_spec(s@),
            r matches Ok(c) ==> conf_valid(c@),
    {
        match split_uri(s) {
            Err(e) => Err(e),
            Ok(UriParts::File { path }) => Ok(CheckpointSyncerConf::LocalStorage { path }),
            Ok(UriParts::S3 { bucket, region }) => {
                if region_is_known(region.as_str()) {
                    Ok(CheckpointSyncerConf::S3 { bucket, region })
                } else {
                    Err(UriError::InvalidRegion)
                }
            },
        }
    }
}

/// The storage location string that describes a configuration.
pub open spec fn to_uri_spec(c: ConfModel) -> Seq<char> {
    match c {
        ConfModel::Local { path } => "file://"@ + path,
        ConfModel::S3 { bucket, region } => "s3://"@ + bucket + "/"@ + region,
    }
}

impl CheckpointSyncerConf {
    /// Describes this configuration as a storage location string.
    pub fn to_uri(&self) -> (r: String)
        ensures
            r@ == to_uri_spec(self@),
    {
        match self {
            CheckpointSyncerConf::LocalStorage { path } => {
                let mut r = String::from_str("file://");
                r.append(path.as_str());
                r
            },
            CheckpointSyncerConf::S3 { bucket, region } => {
                let mut r = String::from_str("s3://");
                r.append(bucket.as_str());
                r.append("/");
                r.append(region.as_str());
                r
            },
        }
    }
}

proof fn lemma_find_char_none(s: Seq<char>, c: char, from: int)
    requires
        forall|i: int| from <= i < s.len() ==> s[i] != c,
    ensures
        find_char(s, c, from) is None,
    decreases s.len() - from,
{
    if 0 <= from < s.len() {
        lemma_find_char_none(s, c, from + 1);
    }
}

proof fn lemma_find_char_at(s: Seq<char>, c: char, from: int, k: int)
    requires
        0 <= from <= k < s.len(),
        s[k] == c,
        forall|i: int| from <= i < k ==> s[i] != c,
    ensures
        find_char(s, c, from) == Some(k),
    decreases k - from,
{
    if from < k {
        lemma_find_char_at(s, c, from + 1, k);
    }
}

proof fn lemma_find_sep_at(s: Seq<char>, from: int, k: int)
    requires
        0 <= from <= k,
        sep_at(s, k),
        forall|i: int| from <= i < k ==> !sep_at(s, i),
    ensures
        find_sep(s, from) == Some(k),
    decreases k - from,
{
    if from < k {
        lemma_find_sep_at(s, from + 1, k);
    }
}

/// A valid configuration, written as a storage location string, reads back
/// as the same configuration: local storage always, an object store when
/// neither bucket nor region holds a `/`.
pub proof fn lemma_uri_round_trip(c: ConfModel)
    requires
        conf_valid(c),
        c matches ConfModel::S3 { bucket, region } ==> (forall|i: int|
            0 <= i < bucket.len() ==> bucket[i] != '/') && (forall|i: int|
            0 <= i < region.len() ==> region[i] != '/'),
    ensures
        uri_spec(to_uri_spec(c)) == Ok::<ConfModel, UriErrorModel>(c),
{
    reveal_strlit("file://");
    reveal_strlit("s3://");
    reveal_strlit("/");
    reveal_strlit("file");
    reveal_strlit("s3");
    let s = to_uri_spec(c);
    match c {
        ConfModel::Local { path } => {
            assert(sep_at(s, 4));
            lemma_find_sep_at(s, 0, 4);
            assert(s.subrange(0, 4) =~= "file"@);
            assert(s.subrange(7, s.len() as int) =~= path);
            assert("file"@.len() != "s3"@.len());
        },
        ConfModel::S3 { bucket, region } => {
            assert(sep_at(s, 2));
            lemma_find_sep_at(s, 0, 2);
            assert(s.subrange(0, 2) =~= "s3"@);
            let rest = s.subrange(5, s.len() as int);
            let k = bucket.len() as int;
            assert(rest =~= bucket + "/"@ + region);
            assert forall|i: int| 0 <= i < k implies rest[i] != '/' by {
                assert(rest[i] == bucket[i]);
            }
            lemma_find_char_at(rest, '/', 0, k);
            assert forall|i: int| k + 1 <= i < rest.len() implies rest[i] != '/' by {
                assert(rest[i] == region[i - k - 1]);
            }
            lemma_find_char_none(rest, '/', k + 1);
            assert(rest.subrange(0, k) =~= bucket);
            assert(rest.subrange(k + 1, rest.len() as int) =~= region);
        },
    }
}

impl std::str::FromStr for CheckpointSyncerConf {
    type Err = UriError;

    fn from_str(s: &str) -> Result<CheckpointSyncerConf, UriError> {
        CheckpointSyncerConf::from_str(s)
    }
}

} // verus!
