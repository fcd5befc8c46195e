use vstd::prelude::*;
use crate::storage::{CheckpointSyncerConf, ConfModel};
use crate::path::ConfigPath;
use crate::error::{ConfigError, ConfigErrorKind};

verus! {

/// The twenty bytes that ethers reads from an address string, if it reads one.
pub uninterp spec fn address_of(s: Seq<char>) -> Option<Seq<u8>>;

/// Relies on ethers' `Address` (`H160`) parser (`FromStr`): the result
/// depends on the text alone, and a parsed address is twenty bytes.
#[verifier::external_body]
fn parse_address(s: &str) -> (r: Option<Vec<u8>>)
    ensures
        match r {
            Some(b) => address_of(s@) == Some(b@) && b@.len() == 20,
            None => address_of(s@) is None,
        },
{
    match s.parse::<ethers::types::Address>() {
        Ok(a) => Some(a.as_bytes().to_vec()),
        Err(_) => None,
    }
}

/// The checkpoint storage of each signer of a multisig aggregation, keyed by
/// the signer's address as written.
#[derive(Debug)]
pub struct MultisigCheckpointSyncerConf {
    checkpointsyncers: Vec<(String, CheckpointSyncerConf)>,
}

impl View for MultisigCheckpointSyncerConf {
    type V = Seq<(Seq<char>, ConfModel)>;

    closed spec fn view(&self) -> Seq<(Seq<char>, ConfModel)> {
        self.checkpointsyncers@.map_values(|e: (String, CheckpointSyncerConf)| (e.0@, e.1@))
    }
}

/// No key appears twice.
pub open spec fn keys_distinct(s: Seq<(Seq<char>, ConfModel)>) -> bool {
    forall|i: int, j: int| 0 <= i < j < s.len() ==> s[i].0 != s[j].0
}

pub open spec fn opt_bytes(o: Option<Vec<u8>>) -> Option<Seq<u8>> {
    match o {
        Some(v) => Some(v@),
        None => None,
    }
}

/// The signers among the first `n` entries: each entry whose storage was
/// built, with its address and position, in order. The first built entry
/// whose key is no address makes the whole selection fail with its position.
pub open spec fn select_spec(built: Seq<bool>, addrs: Seq<Option<Seq<u8>>>, n: int) -> Result<
    Seq<(Seq<u8>, int)>,
    int,
>
    decreases n,
{
    if n <= 0 {
        Ok(Seq::empty())
    } else {
        match select_spec(built, addrs, n - 1) {
            Err(e) => Err(e),
            Ok(v) => if !built[n - 1] {
                Ok(v)
            } else {
                match addrs[n - 1] {
                    None => Err(n - 1),
                    Some(a) => Ok(v.push((a, n - 1))),
                }
            },
        }
    }
}

proof fn lemma_select_err_stays(built: Seq<bool>, addrs: Seq<Option<Seq<u8>>>, m: int, n: int)
    requires
        m <= n,
        select_spec(built, addrs, m) is Err,
    ensures
        select_spec(built, addrs, n) == select_spec(built, addrs, m),
    decreases n - m,
{
    if m < n {
        lemma_select_err_stays(built, addrs, m, n - 1);
    }
}

proof fn lemma_select_err_in_range(built: Seq<bool>, addrs: Seq<Option<Seq<u8>>>, n: int)
    requires
        select_spec(built, addrs, n) is Err,
    ensures
        0 <= select_spec(built, addrs, n)->Err_0 < n,
    decreases n,
{
    if n > 0 && select_spec(built, addrs, n - 1) is Err {
        lemma_select_err_in_range(built, addrs, n - 1);
    }
}

pub open spec fn signers_view(r: Result<Vec<(Vec<u8>, usize)>, usize>) -> Result<Seq<(Seq<u8>, int)>, int> {
    match r {
        Ok(v) => Ok(v@.map_values(|p: (Vec<u8>, usize)| (p.0@, p.1 as int))),
        Err(i) => Err(i as int),
    }
}

/// Picks the signers of a multisig aggregation. `built[i]` tells whether
/// the storage of entry `i` was built, and `addrs[i]` is its key read as an
/// address. Entries whose storage failed are left out; a built entry whose
/// key is no address fails the whole selection with the entry's position.
pub fn select_signers(built: &Vec<bool>, addrs: &Vec<Option<Vec<u8>>>) -> (r: Result<Vec<(Vec<u8>, usize)>, usize>)
    requires
        built@.len() == addrs@.len(),
    ensures
        signers_view(r) == select_spec(built@, addrs@.map_values(|o: Option<Vec<u8>>| opt_bytes(o)), built@.len() as int),
{
    let ghost av = addrs@.map_values(|o: Option<Vec<u8>>| opt_bytes(o));
    let mut out: Vec<(Vec<u8>, usize)> = Vec::new();
    assert(out@.map_values(|p: (Vec<u8>, usize)| (p.0@, p.1 as int)) =~= Seq::<(Seq<u8>, int)>::empty());
    let mut i: usize = 0;
    while i < built.len()
        invariant
            built@.len() == addrs@.len(),
            av == addrs@.map_values(|o: Option<Vec<u8>>| opt_bytes(o)),
            i <= built@.len(),
            select_spec(built@, av, i as int) == signers_view(Ok(out)),
        decreases built@.len() - i,
    {
        if built[i] {
            match &addrs[i] {
                None => {
                    assert(av[i as int] is None);
                    proof {
                        lemma_select_err_stays(built@, av, i as int + 1, built@.len() as int);
                    }
                    return Err(i);
                },
                Some(a) => {
                    let c = a.clone();
                    assert(c@ =~= a@);
                    let ghost before = out@;
                    out.push((c, i));
                    assert(out@.map_values(|p: (Vec<u8>, usize)| (p.0@, p.1 as int)) =~= before.map_values(
                        |p: (Vec<u8>, usize)| (p.0@, p.1 as int),
                    ).push((a@, i as int)));
                },
            }
        }
        i = i + 1;
    }
    Ok(out)
}

impl MultisigCheckpointSyncerConf {
    /// A configuration with no signer.
    pub fn new() -> (r: MultisigCheckpointSyncerConf)
        ensures
            r@ == Seq::<(Seq<char>, ConfModel)>::empty(),
    {
        let r = MultisigCheckpointSyncerConf { checkpointsyncers: Vec::new() };
        assert(r@ =~= Seq::<(Seq<char>, ConfModel)>::empty());
        r
    }

    /// Keys are unique.
    pub open spec fn wf(&self) -> bool {
        keys_distinct(self@)
    }

    /// Sets the storage of the signer `key`, replacing the one it had.
    pub fn insert(&mut self, key: String, conf: CheckpointSyncerConf)
        requires
            old(self).wf(),
        ensures
            final(self).wf(),
            (exists|i: int| 0 <= i < old(self)@.len() && old(self)@[i].0 == key@) ==> exists|i: int|
                0 <= i < old(self)@.len() && old(self)@[i].0 == key@ && final(self)@ == old(self)@.update(
                    i,
                    (key@, conf@),
                ),
            !(exists|i: int| 0 <= i < old(self)@.len() && old(self)@[i].0 == key@) ==> final(self)@
                == old(self)@.push((key@, conf@)),
    {
        let ghost v0 = self@;
        let mut i: usize = 0;
        while i < self.checkpointsyncers.len()
            invariant
                self@ == v0,
                v0 == old(self)@,
                keys_distinct(v0),
                i <= v0.len(),
                v0.len() == self.checkpointsyncers@.len(),
                forall|j: int| 0 <= j < i ==> v0[j].0 != key@,
            decreases v0.len() - i,
        {
            if self.checkpointsyncers[i].0 == key {
                let ghost kv = key@;
                let ghost cv = conf@;
                assert(v0[i as int].0 == kv);
                self.checkpointsyncers.set(i, (key, conf));
                assert(self@ =~= v0.update(i as int, (kv, cv)));
                assert(0 <= i < v0.len() && v0[i as int].0 == kv && self@ == v0.update(i as int, (kv, cv)));
                assert(keys_distinct(self@)) by {
                    assert forall|a: int, b: int| 0 <= a < b < self@.len() implies self@[a].0 != self@[b].0 by {
                        assert(self@[a].0 == v0[a].0 && self@[b].0 == v0[b].0);
                    }
                }
                return;
            }
            assert(v0[i as int].0 != key@);
            i = i + 1;
        }
        let ghost kv = key@;
        let ghost cv = conf@;
        self.checkpointsyncers.push((key, conf));
        assert(self@ =~= v0.push((kv, cv)));
    }

    /// The entries, in the order they were first inserted.
    pub fn entries(&self) -> (r: &Vec<(String, CheckpointSyncerConf)>)
        ensures
            r@.map_values(|e: (String, CheckpointSyncerConf)| (e.0@, e.1@)) == self@,
    {
        &self.checkpointsyncers
    }

    /// The signers to aggregate: `built[i]` tells whether the storage of
    /// entry `i` was built. Each built entry's key is read as an address; the
    /// first that is none fails the whole, labelled with that key.
    pub fn signers(&self, built: &Vec<bool>) -> (r: Result<Vec<(Vec<u8>, usize)>, ConfigError>)
        requires
            built@.len() == self@.len(),
        ensures
            ({
                let sel = select_spec(
                    built@,
                    self@.map_values(|e: (Seq<char>, ConfModel)| address_of(e.0)),
                    built@.len() as int,
                );
                match r {
                    Ok(v) => sel == signers_view(Ok(v)),
                    Err(e) => sel is Err && e@ == (seq![self@[sel->Err_0].0], ConfigErrorKind::AddressParseFailure),
                }
            }),
    {
        let mut addrs: Vec<Option<Vec<u8>>> = Vec::new();
        let mut i: usize = 0;
        while i < self.checkpointsyncers.len()
            invariant
                i <= self@.len(),
                self@.len() == self.checkpointsyncers@.len(),
                addrs@.len() == i,
                forall|j: int| 0 <= j < i ==> opt_bytes(#[trigger] addrs@[j]) == address_of(self@[j].0),
            decreases self@.len() - i,
        {
            let a = parse_address(self.checkpointsyncers[i].0.as_str());
            addrs.push(a);
            i = i + 1;
        }
        assert(addrs@.map_values(|o: Option<Vec<u8>>| opt_bytes(o)) =~= self@.map_values(
            |e: (Seq<char>, ConfModel)| address_of(e.0),
        ));
        match select_signers(built, &addrs) {
            Ok(v) => Ok(v),
            Err(i) => {
                proof {
                    lemma_select_err_in_range(
                        built@,
                        self@.map_values(|e: (Seq<char>, ConfModel)| address_of(e.0)),
                        built@.len() as int,
                    );
                }
                let root = ConfigPath::root();
                let e = ConfigError::at(&root, self.checkpointsyncers[i].0.as_str(), ConfigErrorKind::AddressParseFailure);
                assert(seq![self@[i as int].0] =~= Seq::<Seq<char>>::empty().push(self@[i as int].0));
                Err(e)
            },
        }
    }
}

} // verus!
